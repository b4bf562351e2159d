use vstd::prelude::*;
use vstd::string::*;

use crate::errors::RecognizeError;
use crate::numfmt::{dec_digits, u32_to_dec};

verus! {

// Normalization brings an arbitrary uploaded audio file to the canonical
// form the engine needs — mono 16-bit PCM WAV at the requested rate — by
// running an external transcoding process. This module builds the exact
// command line and judges the process's outcome; launching the process is
// I/O and stays with the caller.

/// Relies on `uuid::Uuid::new_v4` and its `Display` form: a fresh random
/// identifier, used to give every temporary file a collision-free name.
/// Nothing is assumed of the returned text.
#[verifier::external_body]
pub(crate) fn fresh_token() -> String {
    uuid::Uuid::new_v4().to_string()
}

/// Where the normalized copy for `token` is written.
pub open spec fn temp_wav_path(token: Seq<char>) -> Seq<char> {
    "/tmp/"@ + token + ".wav"@
}

/// The transcoder invocation: force one channel, set the sample rate,
/// write to the fresh output path.
pub open spec fn transcode_command(input: Seq<char>, rate: u32, out: Seq<char>) -> Seq<Seq<char>> {
    seq!["ffmpeg"@, "-i"@, input, "-ac"@, "1"@, "-ar"@, dec_digits(rate as nat), out]
}

/// The command line that normalizes `input_path` to `rate` into the
/// temporary file named by `token`, and that file's path.
pub fn normalize_command(input_path: &str, rate: u32, token: &str) -> (r: (Vec<String>, String))
    ensures
        r.1@ == temp_wav_path(token@),
        r.0@.map_values(|s: String| s@) == transcode_command(input_path@, rate, r.1@),
{
    let mut out = "/tmp/".to_owned();
    out.append(token);
    out.append(".wav");
    let mut cmd: Vec<String> = Vec::new();
    cmd.push("ffmpeg".to_owned());
    cmd.push("-i".to_owned());
    cmd.push(input_path.to_owned());
    cmd.push("-ac".to_owned());
    cmd.push("1".to_owned());
    cmd.push("-ar".to_owned());
    cmd.push(u32_to_dec(rate));
    cmd.push(out.clone());
    proof {
        assert(cmd@.map_values(|s: String| s@) =~= transcode_command(input_path@, rate, out@));
    }
    (cmd, out)
}

/// Judges what the transcoding process reported: only a process that was
/// launched and exited successfully yields the normalized file; anything
/// else is a `NormalizationFailed` carrying the caller's description.
pub fn normalization_outcome(launched: bool, exit_ok: bool, out_path: String, detail: &str) -> (r:
    Result<String, RecognizeError>)
    ensures
        launched && exit_ok ==> r == Ok::<String, RecognizeError>(out_path),
        !(launched && exit_ok) ==> (r matches Err(e) && e matches
            RecognizeError::NormalizationFailed(d) && d@ == detail@),
{
    if launched && exit_ok {
        Ok(out_path)
    } else {
        Err(RecognizeError::NormalizationFailed(detail.to_owned()))
    }
}

} // verus!
