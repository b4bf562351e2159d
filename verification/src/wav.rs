use vstd::prelude::*;

use crate::errors::RecognizeError;

verus! {

// A RIFF/WAVE container, restricted to what the pipeline's canonical format
// needs: integer PCM (format tag 1) at 16 bits per sample. The container is a
// "RIFF" header followed by chunks; the "fmt " chunk carries the channel count
// and sample rate, the "data" chunk carries the little-endian samples. Chunk
// bodies are padded to even length.

pub open spec fn u16_le(b: Seq<u8>, i: int) -> u16 {
    (b[i] + 256 * b[i + 1]) as u16
}

pub open spec fn u32_le(b: Seq<u8>, i: int) -> u32 {
    (b[i] + 256 * b[i + 1] + 65536 * b[i + 2] + 16777216 * b[i + 3]) as u32
}

pub open spec fn i16_le(b: Seq<u8>, i: int) -> i16 {
    u16_le(b, i) as i16
}

pub open spec fn riff_tag() -> Seq<u8> {
    seq![82u8, 73u8, 70u8, 70u8]
}

pub open spec fn wave_tag() -> Seq<u8> {
    seq![87u8, 65u8, 86u8, 69u8]
}

pub open spec fn fmt_tag() -> Seq<u8> {
    seq![102u8, 109u8, 116u8, 32u8]
}

pub open spec fn data_tag() -> Seq<u8> {
    seq![100u8, 97u8, 116u8, 97u8]
}

/// The position of the first chunk whose identifier is `id`, scanning forward
/// from `pos` over well-formed chunk headers; `None` when the scan runs off
/// the end of the buffer.
pub open spec fn find_chunk(b: Seq<u8>, pos: int, id: Seq<u8>) -> Option<int>
    decreases b.len() - pos,
{
    if pos < 0 || pos + 8 > b.len() {
        None
    } else if b.subrange(pos, pos + 4) == id {
        Some(pos)
    } else {
        let size = u32_le(b, pos + 4) as int;
        let next = pos + 8 + size + (size % 2);
        if next > b.len() {
            None
        } else {
            find_chunk(b, next, id)
        }
    }
}

/// What a well-formed 16-bit PCM WAVE buffer holds.
pub struct WavView {
    pub channels: u16,
    pub sample_rate: u32,
    pub samples: Seq<i16>,
}

/// The decoded form of `b`, or `None` where `b` is not a 16-bit integer PCM
/// WAVE container: the "RIFF"/"WAVE" marks must open the buffer, a "fmt "
/// chunk with format tag 1, 16 bits per sample and a nonzero channel count
/// must come first, and a "data" chunk that fits inside the buffer must
/// follow it. The samples are the data chunk's little-endian 16-bit words; a
/// trailing odd byte is ignored.
pub open spec fn wav_of(b: Seq<u8>) -> Option<WavView> {
    if b.len() < 12 || b.subrange(0, 4) != riff_tag() || b.subrange(8, 12) != wave_tag() {
        None
    } else {
        match find_chunk(b, 12, fmt_tag()) {
            None => None,
            Some(fpos) => {
                let fsize = u32_le(b, fpos + 4) as int;
                if fsize < 16 || fpos + 8 + fsize > b.len() {
                    None
                } else {
                    let format = u16_le(b, fpos + 8);
                    let channels = u16_le(b, fpos + 10);
                    let rate = u32_le(b, fpos + 12);
                    let bits = u16_le(b, fpos + 22);
                    if format != 1 || bits != 16 || channels == 0 {
                        None
                    } else {
                        match find_chunk(b, fpos + 8 + fsize + (fsize % 2), data_tag()) {
                            None => None,
                            Some(dpos) => {
                                let dsize = u32_le(b, dpos + 4) as int;
                                if dpos + 8 + dsize > b.len() {
                                    None
                                } else {
                                    Some(WavView {
                                        channels,
                                        sample_rate: rate,
                                        samples: Seq::new((dsize / 2) as nat, |k: int| i16_le(b, dpos + 8 + 2 * k)),
                                    })
                                }
                            },
                        }
                    }
                }
            },
        }
    }
}

/// Decoded PCM audio: channel count, sample rate, interleaved 16-bit samples.
pub struct WavAudio {
    pub channels: u16,
    pub sample_rate: u32,
    pub samples: Vec<i16>,
}

impl View for WavAudio {
    type V = WavView;

    open spec fn view(&self) -> WavView {
        WavView { channels: self.channels, sample_rate: self.sample_rate, samples: self.samples@ }
    }
}

fn read_u16_le(b: &Vec<u8>, i: usize) -> (r: u16)
    requires
        i + 2 <= b.len(),
    ensures
        r == u16_le(b@, i as int),
{
    b[i] as u16 + 256 * (b[i + 1] as u16)
}

fn read_u32_le(b: &Vec<u8>, i: usize) -> (r: u32)
    requires
        i + 4 <= b.len(),
    ensures
        r == u32_le(b@, i as int),
{
    b[i] as u32 + 256 * (b[i + 1] as u32) + 65536 * (b[i + 2] as u32) + 16777216 * (b[i + 3] as u32)
}

fn read_i16_le(b: &Vec<u8>, i: usize) -> (r: i16)
    requires
        i + 2 <= b.len(),
    ensures
        r == i16_le(b@, i as int),
{
    read_u16_le(b, i) as i16
}

fn tag_matches(b: &Vec<u8>, pos: usize, t0: u8, t1: u8, t2: u8, t3: u8) -> (r: bool)
    requires
        pos + 4 <= b.len(),
    ensures
        r == (b@.subrange(pos as int, pos as int + 4) == seq![t0, t1, t2, t3]),
{
    let m = b[pos] == t0 && b[pos + 1] == t1 && b[pos + 2] == t2 && b[pos + 3] == t3;
    proof {
        let sub = b@.subrange(pos as int, pos as int + 4);
        let tag = seq![t0, t1, t2, t3];
        if m {
            assert(sub =~= tag);
        } else {
            assert(sub[0] == b@[pos as int]);
            assert(sub[1] == b@[pos as int + 1]);
            assert(sub[2] == b@[pos as int + 2]);
            assert(sub[3] == b@[pos as int + 3]);
        }
    }
    m
}

fn find_chunk_from(b: &Vec<u8>, start: usize, t0: u8, t1: u8, t2: u8, t3: u8) -> (r: Option<
    usize,
>)
    ensures
        match r {
            Some(p) => {
                &&& find_chunk(b@, start as int, seq![t0, t1, t2, t3]) == Some(p as int)
                &&& start <= p
                &&& p + 8 <= b.len()
                &&& b@.subrange(p as int, p as int + 4) == seq![t0, t1, t2, t3]
            },
            None => find_chunk(b@, start as int, seq![t0, t1, t2, t3]) is None,
        },
{
    let ghost id = seq![t0, t1, t2, t3];
    let mut pos = start;
    loop
        invariant
            start <= pos,
            b@.len() == b.len(),
            id == seq![t0, t1, t2, t3],
            find_chunk(b@, start as int, id) == find_chunk(b@, pos as int, id),
        decreases b.len() - pos,
    {
        if pos > b.len() || b.len() - pos < 8 {
            proof {
                assert(find_chunk(b@, pos as int, id) is None);
            }
            return None;
        }
        if tag_matches(b, pos, t0, t1, t2, t3) {
            proof {
                assert(find_chunk(b@, pos as int, id) == Some(pos as int));
            }
            return Some(pos);
        }
        let size = read_u32_le(b, pos + 4) as usize;
        let avail = b.len() - pos - 8;
        if size > avail || (size == avail && size % 2 == 1) {
            proof {
                assert(pos as int + 8 + size + (size as int % 2) > b@.len());
                assert(find_chunk(b@, pos as int, id) is None);
            }
            return None;
        }
        proof {
            assert(find_chunk(b@, pos as int, id) == find_chunk(
                b@,
                pos as int + 8 + size + (size as int % 2),
                id,
            ));
        }
        pos = pos + 8 + size + size % 2;
    }
}

/// Decodes a 16-bit integer PCM WAVE buffer, exactly where `wav_of` accepts
/// it; every malformed buffer is a `DecodeFailed`.
pub fn parse_wav(bytes: &Vec<u8>) -> (r: Result<WavAudio, RecognizeError>)
    ensures
        r matches Ok(w) ==> wav_of(bytes@) == Some(w@),
        r is Ok <==> wav_of(bytes@) is Some,
        r matches Err(e) ==> e is DecodeFailed,
{
    if bytes.len() < 12 {
        return Err(RecognizeError::DecodeFailed("buffer is shorter than a RIFF header".to_owned()));
    }
    if !tag_matches(bytes, 0, 82u8, 73u8, 70u8, 70u8) {
        return Err(RecognizeError::DecodeFailed("missing RIFF mark".to_owned()));
    }
    if !tag_matches(bytes, 8, 87u8, 65u8, 86u8, 69u8) {
        return Err(RecognizeError::DecodeFailed("missing WAVE mark".to_owned()));
    }
    let fpos = match find_chunk_from(bytes, 12, 102u8, 109u8, 116u8, 32u8) {
        None => {
            return Err(RecognizeError::DecodeFailed("missing fmt chunk".to_owned()));
        },
        Some(p) => p,
    };
    let fsize = read_u32_le(bytes, fpos + 4) as usize;
    if fsize < 16 || fsize > bytes.len() - fpos - 8 {
        return Err(RecognizeError::DecodeFailed("fmt chunk is too short".to_owned()));
    }
    let format = read_u16_le(bytes, fpos + 8);
    let channels = read_u16_le(bytes, fpos + 10);
    let sample_rate = read_u32_le(bytes, fpos + 12);
    let bits = read_u16_le(bytes, fpos + 22);
    if format != 1 {
        return Err(RecognizeError::DecodeFailed("not integer PCM".to_owned()));
    }
    if bits != 16 {
        return Err(RecognizeError::DecodeFailed("not 16 bits per sample".to_owned()));
    }
    if channels == 0 {
        return Err(RecognizeError::DecodeFailed("no channels".to_owned()));
    }
    let mut fnext = fpos + 8 + fsize;
    if fsize % 2 == 1 {
        if fnext == bytes.len() {
            proof {
                assert(find_chunk(bytes@, fnext as int + 1, data_tag()) is None);
            }
            return Err(RecognizeError::DecodeFailed("missing data chunk".to_owned()));
        }
        fnext = fnext + 1;
    }
    let dpos = match find_chunk_from(bytes, fnext, 100u8, 97u8, 116u8, 97u8) {
        None => {
            return Err(RecognizeError::DecodeFailed("missing data chunk".to_owned()));
        },
        Some(p) => p,
    };
    let dsize = read_u32_le(bytes, dpos + 4) as usize;
    if dsize > bytes.len() - dpos - 8 {
        return Err(RecognizeError::DecodeFailed("data chunk is truncated".to_owned()));
    }
    let n = dsize / 2;
    let mut samples: Vec<i16> = Vec::new();
    let mut k: usize = 0;
    while k < n
        invariant
            k <= n,
            bytes@.len() == bytes.len(),
            dpos + 8 + dsize <= bytes.len(),
            dsize == u32_le(bytes@, dpos as int + 4),
            n == dsize / 2,
            samples@.len() == k,
            forall|j: int| 0 <= j < k ==> samples@[j] == i16_le(bytes@, dpos + 8 + 2 * j),
        decreases n - k,
    {
        samples.push(read_i16_le(bytes, dpos + 8 + 2 * k));
        k = k + 1;
    }
    let audio = WavAudio { channels, sample_rate, samples };
    proof {
        let w = wav_of(bytes@);
        assert(w matches Some(v) && v.samples =~= audio@.samples);
    }
    Ok(audio)
}

} // verus!
