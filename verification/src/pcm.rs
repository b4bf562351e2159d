use vstd::prelude::*;

use crate::errors::RecognizeError;
use crate::wav::WavAudio;

verus! {

/// One mono sample mixed from a left/right pair: their average, rounded
/// toward negative infinity.
pub open spec fn mono_mix(l: i16, r: i16) -> i16 {
    ((l + 32768 + r + 32768) / 2 - 32768) as i16
}

/// Interleaved stereo mixed pairwise down to mono.
pub open spec fn downmixed(s: Seq<i16>) -> Seq<i16> {
    Seq::new((s.len() / 2) as nat, |k: int| mono_mix(s[2 * k], s[2 * k + 1]))
}

/// Reduces decoded audio to the mono samples the engine takes: one channel
/// passes through, two are averaged pairwise, anything else is refused.
pub fn downmix_to_mono(audio: WavAudio) -> (r: Result<Vec<i16>, RecognizeError>)
    ensures
        audio.channels == 1 ==> (r matches Ok(m) && m@ == audio.samples@),
        audio.channels == 2 && audio.samples@.len() % 2 == 0 ==> (r matches Ok(m) && m@
            == downmixed(audio.samples@)),
        audio.channels == 2 && audio.samples@.len() % 2 == 1 ==> (r matches Err(e) && e
            is DecodeFailed),
        audio.channels == 0 || audio.channels > 2 ==> r == Err::<Vec<i16>, RecognizeError>(
            RecognizeError::UnsupportedChannelLayout(audio.channels),
        ),
{
    if audio.channels == 1 {
        return Ok(audio.samples);
    }
    if audio.channels != 2 {
        return Err(RecognizeError::UnsupportedChannelLayout(audio.channels));
    }
    let samples = audio.samples;
    if samples.len() % 2 == 1 {
        return Err(
            RecognizeError::DecodeFailed("stereo audio with a lone trailing sample".to_owned()),
        );
    }
    let n = samples.len() / 2;
    let mut mono: Vec<i16> = Vec::new();
    let mut k: usize = 0;
    while k < n
        invariant
            k <= n,
            n == samples.len() / 2,
            samples@.len() % 2 == 0,
            mono@.len() == k,
            forall|j: int| 0 <= j < k ==> mono@[j] == mono_mix(samples@[2 * j], samples@[2 * j + 1]),
        decreases n - k,
    {
        let l = samples[2 * k];
        let r = samples[2 * k + 1];
        let lu = (l as i32 + 32768) as u32;
        let ru = (r as i32 + 32768) as u32;
        let avg = (lu + ru) / 2;
        let v = (avg as i32 - 32768) as i16;
        proof {
            assert(v == mono_mix(samples@[2 * k as int], samples@[2 * k as int + 1]));
        }
        mono.push(v);
        k = k + 1;
    }
    proof {
        assert(mono@ =~= downmixed(samples@));
    }
    Ok(mono)
}

} // verus!
