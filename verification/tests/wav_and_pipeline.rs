use audio_to_text::errors::RecognizeError;
use audio_to_text::params::RecognizeParameters;
use audio_to_text::pcm::downmix_to_mono;
use audio_to_text::pipeline::{prepare_chunk, FileRecognition};
use audio_to_text::segments::RawSegment;
use audio_to_text::wav::parse_wav;

/// A minimal 16-bit PCM WAV container around the given interleaved samples.
fn wav_bytes(channels: u16, rate: u32, samples: &[i16]) -> Vec<u8> {
    let data_len = (samples.len() * 2) as u32;
    let mut b: Vec<u8> = Vec::new();
    b.extend_from_slice(b"RIFF");
    b.extend_from_slice(&(36 + data_len).to_le_bytes());
    b.extend_from_slice(b"WAVE");
    b.extend_from_slice(b"fmt ");
    b.extend_from_slice(&16u32.to_le_bytes());
    b.extend_from_slice(&1u16.to_le_bytes());
    b.extend_from_slice(&channels.to_le_bytes());
    b.extend_from_slice(&rate.to_le_bytes());
    let block_align = channels as u32 * 2;
    b.extend_from_slice(&(rate * block_align).to_le_bytes());
    b.extend_from_slice(&(block_align as u16).to_le_bytes());
    b.extend_from_slice(&16u16.to_le_bytes());
    b.extend_from_slice(b"data");
    b.extend_from_slice(&data_len.to_le_bytes());
    for s in samples {
        b.extend_from_slice(&s.to_le_bytes());
    }
    b
}

#[test]
fn a_mono_second_at_16khz_parses_whole() {
    let samples: Vec<i16> = (0..16000).map(|i| (i % 321) as i16).collect();
    let audio = parse_wav(&wav_bytes(1, 16000, &samples)).unwrap();
    assert_eq!(audio.channels, 1);
    assert_eq!(audio.sample_rate, 16000);
    assert_eq!(audio.samples, samples);
}

#[test]
fn negative_samples_survive_the_round_trip() {
    let samples = vec![-1i16, i16::MIN, i16::MAX, 0, -32000];
    let audio = parse_wav(&wav_bytes(1, 8000, &samples)).unwrap();
    assert_eq!(audio.samples, samples);
}

#[test]
fn an_unknown_chunk_before_fmt_is_skipped() {
    let samples = vec![5i16, -6];
    let mut b: Vec<u8> = Vec::new();
    b.extend_from_slice(b"RIFF");
    b.extend_from_slice(&100u32.to_le_bytes());
    b.extend_from_slice(b"WAVE");
    b.extend_from_slice(b"LIST");
    b.extend_from_slice(&3u32.to_le_bytes());
    b.extend_from_slice(&[1, 2, 3, 0]); // odd-sized chunk body plus its pad byte
    let rest = wav_bytes(1, 22050, &samples);
    b.extend_from_slice(&rest[12..]);
    let audio = parse_wav(&b).unwrap();
    assert_eq!(audio.sample_rate, 22050);
    assert_eq!(audio.samples, samples);
}

#[test]
fn malformed_buffers_are_decode_failures() {
    assert!(matches!(
        parse_wav(&vec![0u8; 4]),
        Err(RecognizeError::DecodeFailed(_))
    ));
    let mut not_riff = wav_bytes(1, 8000, &[1]);
    not_riff[0] = b'X';
    assert!(matches!(
        parse_wav(&not_riff),
        Err(RecognizeError::DecodeFailed(_))
    ));
    let mut float_format = wav_bytes(1, 8000, &[1]);
    float_format[20] = 3; // format tag: IEEE float instead of integer PCM
    assert!(matches!(
        parse_wav(&float_format),
        Err(RecognizeError::DecodeFailed(_))
    ));
    let mut truncated = wav_bytes(1, 8000, &[1, 2, 3]);
    truncated.truncate(truncated.len() - 2);
    assert!(matches!(
        parse_wav(&truncated),
        Err(RecognizeError::DecodeFailed(_))
    ));
}

#[test]
fn a_trailing_odd_byte_in_the_data_chunk_is_ignored() {
    let mut b = wav_bytes(1, 8000, &[7]);
    let data_size_at = b.len() - 6;
    b[data_size_at] = 3; // claim three data bytes
    b.push(0xEE);
    b.push(0); // pad byte keeping the chunk even
    let audio = parse_wav(&b).unwrap();
    assert_eq!(audio.samples, vec![7]);
}

#[test]
fn an_empty_data_chunk_gives_no_samples() {
    let audio = parse_wav(&wav_bytes(1, 8000, &[])).unwrap();
    assert!(audio.samples.is_empty());
}

#[test]
fn stereo_is_downmixed_pairwise() {
    let audio = parse_wav(&wav_bytes(2, 8000, &[100, 200, -100, -101, 7, 7])).unwrap();
    let mono = downmix_to_mono(audio).unwrap();
    assert_eq!(mono, vec![150, -101, 7]);
}

#[test]
fn three_channels_are_unsupported_not_fatal() {
    let audio = parse_wav(&wav_bytes(3, 8000, &[1, 2, 3, 4, 5, 6])).unwrap();
    match downmix_to_mono(audio) {
        Err(RecognizeError::UnsupportedChannelLayout(c)) => assert_eq!(c, 3),
        _ => panic!("expected an unsupported channel layout"),
    }
}

#[test]
fn chunks_are_prepared_without_normalization() {
    let mono = prepare_chunk(&wav_bytes(2, 16000, &[10, 20, 30, 40])).unwrap();
    assert_eq!(mono, vec![15, 35]);
    assert!(matches!(
        prepare_chunk(&vec![1, 2, 3]),
        Err(RecognizeError::DecodeFailed(_))
    ));
    assert!(matches!(
        prepare_chunk(&wav_bytes(4, 8000, &[1, 2, 3, 4])),
        Err(RecognizeError::UnsupportedChannelLayout(4))
    ));
}

fn run_file_flow(delete_ok: bool) -> Result<Vec<audio_to_text::segments::RecognizeResponse>, RecognizeError> {
    let params = RecognizeParameters::default();
    let (flow, cmd) = FileRecognition::begin("upload/input.ogg", &params);
    assert_eq!(cmd.len(), 8);
    assert_eq!(cmd[0], "ffmpeg");
    assert_eq!(cmd[1], "-i");
    assert_eq!(cmd[2], "upload/input.ogg");
    assert_eq!(cmd[3], "-ac");
    assert_eq!(cmd[4], "1");
    assert_eq!(cmd[5], "-ar");
    assert_eq!(cmd[6], "29000");
    assert!(cmd[7].starts_with("/tmp/"));
    assert!(cmd[7].ends_with(".wav"));

    let flow = flow.on_normalization(true, true, "");
    let bytes = wav_bytes(1, 29000, &[1, 2, 3]);
    let flow = flow.on_audio(Ok(bytes));
    let extracted = vec![
        Some(RawSegment { start: 0, end: 3, text: "Hello".to_string() }),
        None,
        Some(RawSegment { start: 3, end: 10, text: "world".to_string() }),
    ];
    let flow = flow.on_inference(Ok(&extracted));
    flow.on_cleanup(delete_ok)
}

#[test]
fn the_file_flow_numbers_its_segments() {
    let segs = run_file_flow(true).unwrap();
    assert_eq!(segs.len(), 2);
    assert_eq!(segs[0].frame_id, 0);
    assert_eq!(segs[0].text, "Hello");
    assert_eq!(segs[1].frame_id, 1);
    assert_eq!(segs[1].text, "world");
}

#[test]
fn a_failed_deletion_changes_nothing_in_the_answer() {
    let kept = run_file_flow(true).unwrap();
    let leaked = run_file_flow(false).unwrap();
    assert_eq!(kept.len(), leaked.len());
    for (a, b) in kept.iter().zip(leaked.iter()) {
        assert_eq!(a.frame_id, b.frame_id);
        assert_eq!(a.frame_start, b.frame_start);
        assert_eq!(a.frame_end, b.frame_end);
        assert_eq!(a.text, b.text);
    }
}

#[test]
fn a_failed_transcoder_ends_the_flow_with_normalization_failed() {
    let params = RecognizeParameters::default();
    let (flow, _cmd) = FileRecognition::begin("upload/input.ogg", &params);
    let flow = flow.on_normalization(true, false, "exit status 1");
    match flow {
        FileRecognition::Finished { outcome } => match outcome {
            Err(RecognizeError::NormalizationFailed(d)) => assert_eq!(d, "exit status 1"),
            _ => panic!("expected a normalization failure"),
        },
        _ => panic!("expected the flow to be finished"),
    }
}

#[test]
fn an_unreadable_file_ends_the_flow_with_decode_failed() {
    let params = RecognizeParameters::default();
    let (flow, _cmd) = FileRecognition::begin("upload/input.ogg", &params);
    let flow = flow.on_normalization(true, true, "");
    let flow = flow.on_audio(Err("no such file".to_string()));
    match flow {
        FileRecognition::Finished { outcome } => match outcome {
            Err(RecognizeError::DecodeFailed(d)) => {
                assert_eq!(d, "reading the normalized file failed: no such file")
            },
            _ => panic!("expected a decode failure"),
        },
        _ => panic!("expected the flow to be finished"),
    }
}

#[test]
fn an_engine_failure_still_reaches_cleanup() {
    let params = RecognizeParameters::default();
    let (flow, _cmd) = FileRecognition::begin("upload/input.ogg", &params);
    let flow = flow.on_normalization(true, true, "");
    let flow = flow.on_audio(Ok(wav_bytes(1, 29000, &[1, 2])));
    let flow = flow.on_inference(Err("state failed".to_string()));
    assert!(matches!(flow, FileRecognition::AwaitingCleanup { .. }));
    match flow.on_cleanup(true) {
        Err(RecognizeError::InferenceError(d)) => assert_eq!(d, "state failed"),
        _ => panic!("expected an inference error"),
    }
}
