use vstd::prelude::*;
use vstd::string::*;

use crate::errors::RecognizeError;
use crate::normalizer::{fresh_token, normalize_command, normalization_outcome, transcode_command};
use crate::params::RecognizeParameters;
use crate::pcm::{downmix_to_mono, downmixed};
use crate::segments::{collect_segments, kept, RawSegment, RecognizeResponse};
use crate::wav::{parse_wav, wav_of};

verus! {

// The pipeline for one audio source: decode, check the channel layout,
// downmix, infer, number the segments — and, for the file flow, normalize
// first and delete the normalized copy afterwards. Inference itself and all
// I/O (the transcoding process, reading and deleting the temporary file)
// are the caller's: each step here takes what the caller observed and
// decides, exactly, what happens next.

/// The mono samples a chunk of bytes resolves to: the decoded WAV,
/// downmixed when it is stereo; nothing when the bytes do not decode, when
/// a stereo stream is missing its last sample, or when there are more than
/// two channels.
pub open spec fn mono_samples_of(b: Seq<u8>) -> Option<Seq<i16>> {
    match wav_of(b) {
        None => None,
        Some(w) => {
            if w.channels == 1 {
                Some(w.samples)
            } else if w.channels == 2 && w.samples.len() % 2 == 0 {
                Some(downmixed(w.samples))
            } else {
                None
            }
        },
    }
}

/// Decodes one in-memory chunk to the mono samples the engine takes. No
/// normalization is applied: a chunk is assumed to be canonical PCM
/// already. More than two channels is refused as unsupported rather than
/// fatal; everything else that goes wrong is a decode failure.
pub fn prepare_chunk(bytes: &Vec<u8>) -> (r: Result<Vec<i16>, RecognizeError>)
    ensures
        r matches Ok(m) ==> mono_samples_of(bytes@) == Some(m@),
        r is Ok <==> mono_samples_of(bytes@) is Some,
        r matches Err(e) ==> match wav_of(bytes@) {
            None => e is DecodeFailed,
            Some(w) => {
                if w.channels > 2 {
                    e == RecognizeError::UnsupportedChannelLayout(w.channels)
                } else {
                    e is DecodeFailed
                }
            },
        },
{
    let audio = match parse_wav(bytes) {
        Err(e) => {
            return Err(e);
        },
        Ok(a) => a,
    };
    downmix_to_mono(audio)
}

/// What the engine's answer becomes: the numbered segments on success, an
/// `InferenceError` carrying the engine's description on failure.
pub fn conclude_inference(outcome: Result<&Vec<Option<RawSegment>>, String>) -> (r: Result<
    Vec<RecognizeResponse>,
    RecognizeError,
>)
    requires
        outcome matches Ok(list) ==> list@.len() <= 0x7fff_ffff,
    ensures
        outcome matches Ok(list) ==> (r matches Ok(segs) && {
            &&& segs@.len() == kept(list@).len()
            &&& forall|j: int|
                0 <= j < segs@.len() ==> {
                    &&& (#[trigger] segs@[j]).frame_id == j
                    &&& segs@[j].frame_start == kept(list@)[j].start
                    &&& segs@[j].frame_end == kept(list@)[j].end
                    &&& segs@[j].text@ == kept(list@)[j].text@
                }
        }),
        outcome matches Err(d) ==> (r matches Err(e) && e matches RecognizeError::InferenceError(m)
            && m@ == d@),
{
    match outcome {
        Ok(list) => Ok(collect_segments(list)),
        Err(d) => Err(RecognizeError::InferenceError(d)),
    }
}

/// One file-flow recognition in progress. Each state says what the caller
/// is expected to do next; the transition out of it takes what the caller
/// observed.
pub enum FileRecognition {
    /// Run the transcoding command that `begin` handed out.
    AwaitingNormalization { temp_path: String },
    /// Read the normalized file at `temp_path`.
    AwaitingAudio { temp_path: String },
    /// Run the engine, under the exclusive guard, on these mono samples.
    AwaitingInference { temp_path: String, samples: Vec<i16> },
    /// Delete the file at `temp_path`; the answer is already settled.
    AwaitingCleanup { temp_path: String, outcome: Result<Vec<RecognizeResponse>, RecognizeError> },
    /// Nothing left to do.
    Finished { outcome: Result<Vec<RecognizeResponse>, RecognizeError> },
}

impl FileRecognition {
    /// Starts the file flow: the returned command normalizes `input_path`
    /// to the rate the parameters ask for, into a freshly named temporary
    /// file — the command's last argument, remembered in the state.
    pub fn begin(input_path: &str, params: &RecognizeParameters) -> (r: (Self, Vec<String>))
        ensures
            r.0 matches FileRecognition::AwaitingNormalization { temp_path } && r.1@.map_values(
                |s: String| s@,
            ) == transcode_command(input_path@, params.resample_rate, temp_path@),
    {
        let token = fresh_token();
        let (cmd, out_path) = normalize_command(input_path, params.get_resample_rate(), token.as_str());
        (FileRecognition::AwaitingNormalization { temp_path: out_path }, cmd)
    }

    /// Takes the transcoding process's outcome: normalization precedes
    /// everything else, so a process that could not be launched or that
    /// exited reporting failure settles the whole flow with
    /// `NormalizationFailed`, and nothing further runs.
    pub fn on_normalization(self, launched: bool, exit_ok: bool, detail: &str) -> (r: Self)
        requires
            self matches FileRecognition::AwaitingNormalization { .. },
        ensures
            self matches FileRecognition::AwaitingNormalization { temp_path } ==> {
                if launched && exit_ok {
                    r == (FileRecognition::AwaitingAudio { temp_path })
                } else {
                    r matches FileRecognition::Finished { outcome } && outcome matches Err(e)
                        && e matches RecognizeError::NormalizationFailed(d) && d@ == detail@
                }
            },
    {
        match self {
            FileRecognition::AwaitingNormalization { temp_path } => {
                match normalization_outcome(launched, exit_ok, temp_path, detail) {
                    Ok(temp_path) => FileRecognition::AwaitingAudio { temp_path },
                    Err(e) => FileRecognition::Finished { outcome: Err(e) },
                }
            },
            _ => self,
        }
    }

    /// Takes what reading the normalized file gave. A file that could not
    /// be read settles the flow at once with `DecodeFailed` — the
    /// temporary file is not cleaned up on this path. Bytes are decoded
    /// and downmixed; what that yields either feeds inference or settles
    /// the answer, and the temporary file is deleted after inference or
    /// after its failure, so cleanup still follows.
    pub fn on_audio(self, read: Result<Vec<u8>, String>) -> (r: Self)
        requires
            self matches FileRecognition::AwaitingAudio { .. },
        ensures
            self matches FileRecognition::AwaitingAudio { temp_path } ==> match read {
                Err(d) => r matches FileRecognition::Finished { outcome } && (outcome matches Err(
                    e,
                ) && e matches RecognizeError::DecodeFailed(m) && m@
                    == "reading the normalized file failed: "@ + d@),
                Ok(bytes) => {
                    if mono_samples_of(bytes@) is Some {
                        r matches FileRecognition::AwaitingInference { temp_path: t, samples }
                            && t == temp_path && mono_samples_of(bytes@) == Some(samples@)
                    } else {
                        r matches FileRecognition::AwaitingCleanup { temp_path: t, outcome }
                            && t == temp_path && (outcome matches Err(e) && match wav_of(bytes@) {
                            None => e is DecodeFailed,
                            Some(w) => {
                                if w.channels > 2 {
                                    e == RecognizeError::UnsupportedChannelLayout(w.channels)
                                } else {
                                    e is DecodeFailed
                                }
                            },
                        })
                    }
                },
            },
    {
        match self {
            FileRecognition::AwaitingAudio { temp_path } => {
                match read {
                    Err(d) => {
                        let mut msg = "reading the normalized file failed: ".to_owned();
                        msg.append(d.as_str());
                        let e = RecognizeError::DecodeFailed(msg);
                        proof {
                            assert(e matches RecognizeError::DecodeFailed(m) && m@
                                == "reading the normalized file failed: "@ + d@);
                        }
                        FileRecognition::Finished { outcome: Err(e) }
                    },
                    Ok(bytes) => {
                        match prepare_chunk(&bytes) {
                            Ok(samples) => FileRecognition::AwaitingInference { temp_path, samples },
                            Err(e) => FileRecognition::AwaitingCleanup {
                                temp_path,
                                outcome: Err(e),
                            },
                        }
                    },
                }
            },
            _ => self,
        }
    }

    /// Takes the engine's answer, after the exclusive guard was released:
    /// success or failure, the flow moves on to deleting the temporary
    /// file, with the settled answer carried along.
    pub fn on_inference(self, outcome: Result<&Vec<Option<RawSegment>>, String>) -> (r: Self)
        requires
            self matches FileRecognition::AwaitingInference { .. },
            outcome matches Ok(list) ==> list@.len() <= 0x7fff_ffff,
        ensures
            self matches FileRecognition::AwaitingInference { temp_path, .. } ==> r matches
                FileRecognition::AwaitingCleanup { temp_path: t, outcome: res } && t == temp_path
                && {
                match outcome {
                    Ok(list) => res matches Ok(segs) && {
                        &&& segs@.len() == kept(list@).len()
                        &&& forall|j: int|
                            0 <= j < segs@.len() ==> {
                                &&& (#[trigger] segs@[j]).frame_id == j
                                &&& segs@[j].frame_start == kept(list@)[j].start
                                &&& segs@[j].frame_end == kept(list@)[j].end
                                &&& segs@[j].text@ == kept(list@)[j].text@
                            }
                    },
                    Err(d) => res matches Err(e) && e matches RecognizeError::InferenceError(m)
                        && m@ == d@,
                }
            },
    {
        match self {
            FileRecognition::AwaitingInference { temp_path, samples: _ } => {
                FileRecognition::AwaitingCleanup { temp_path, outcome: conclude_inference(outcome) }
            },
            _ => self,
        }
    }

    /// Takes whether deleting the temporary file worked. The answer was
    /// settled before cleanup began and is returned as it was: a deletion
    /// failure is the caller's to log and changes nothing.
    pub fn on_cleanup(self, _delete_ok: bool) -> (r: Result<
        Vec<RecognizeResponse>,
        RecognizeError,
    >)
        requires
            self matches FileRecognition::AwaitingCleanup { .. },
        ensures
            self matches FileRecognition::AwaitingCleanup { temp_path, outcome } ==> r == outcome,
    {
        match self {
            FileRecognition::AwaitingCleanup { temp_path: _, outcome } => outcome,
            _ => Err(RecognizeError::InferenceError("flow is not awaiting cleanup".to_owned())),
        }
    }
}

} // verus!
