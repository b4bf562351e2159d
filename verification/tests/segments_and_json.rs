use audio_to_text::jsonout::{segment_to_json, segments_to_json};
use audio_to_text::segments::{collect_segments, concatenated, RawSegment, RecognizeResponse};

fn raw(start: i64, end: i64, text: &str) -> RawSegment {
    RawSegment { start, end, text: text.to_string() }
}

#[test]
fn collecting_numbers_segments_from_zero() {
    let extracted = vec![Some(raw(0, 3, "Hello")), Some(raw(3, 10, "world"))];
    let segs = collect_segments(&extracted);
    assert_eq!(segs.len(), 2);
    assert_eq!(segs[0].frame_id, 0);
    assert_eq!(segs[0].frame_start, 0);
    assert_eq!(segs[0].frame_end, 3);
    assert_eq!(segs[0].text, "Hello");
    assert_eq!(segs[1].frame_id, 1);
    assert_eq!(segs[1].frame_start, 3);
    assert_eq!(segs[1].frame_end, 10);
    assert_eq!(segs[1].text, "world");
}

#[test]
fn collecting_skips_failed_extractions_without_gaps() {
    let extracted = vec![
        None,
        Some(raw(0, 3, "one")),
        None,
        Some(raw(3, 7, "two")),
        Some(raw(7, 9, "three")),
        None,
    ];
    let segs = collect_segments(&extracted);
    assert_eq!(segs.len(), 3);
    for (i, s) in segs.iter().enumerate() {
        assert_eq!(s.frame_id as usize, i);
    }
    assert_eq!(segs[0].text, "one");
    assert_eq!(segs[1].text, "two");
    assert_eq!(segs[2].text, "three");
}

#[test]
fn collecting_nothing_gives_an_empty_answer() {
    let segs = collect_segments(&vec![]);
    assert!(segs.is_empty());
    let segs = collect_segments(&vec![None, None]);
    assert!(segs.is_empty());
}

#[test]
fn aggregation_joins_texts_with_single_spaces() {
    let extracted = vec![Some(raw(0, 3, "Hello")), Some(raw(3, 10, "world"))];
    let segs = collect_segments(&extracted);
    let whole = concatenated(&segs);
    assert_eq!(whole.text, "Hello world");
    assert_eq!(whole.frame_id, 0);
    assert_eq!(whole.frame_start, 0);
    assert_eq!(whole.frame_end, 0);
}

#[test]
fn aggregation_of_nothing_is_empty() {
    let whole = concatenated(&vec![]);
    assert_eq!(whole.text, "");
}

#[test]
fn aggregation_of_one_segment_adds_no_space() {
    let segs = collect_segments(&vec![Some(raw(1, 2, "only"))]);
    let whole = concatenated(&segs);
    assert_eq!(whole.text, "only");
}

#[test]
fn one_segment_serializes_in_field_order() {
    let s = RecognizeResponse { frame_id: 0, frame_start: 0, frame_end: 3, text: "Hello".to_string() };
    assert_eq!(
        segment_to_json(&s),
        "{\"frame_id\":0,\"frame_start\":0,\"frame_end\":3,\"text\":\"Hello\"}"
    );
}

#[test]
fn a_segment_list_serializes_as_a_json_array() {
    let extracted = vec![Some(raw(0, 3, "Hello")), Some(raw(3, 10, "world"))];
    let segs = collect_segments(&extracted);
    let expected = "[{\"frame_id\":0,\"frame_start\":0,\"frame_end\":3,\"text\":\"Hello\"},{\"frame_id\":1,\"frame_start\":3,\"frame_end\":10,\"text\":\"world\"}]";
    assert_eq!(segments_to_json(&segs), expected);
    assert_eq!(segments_to_json(&vec![]), "[]");
}

#[test]
fn the_aggregated_form_serializes_with_the_joined_text() {
    let extracted = vec![Some(raw(0, 3, "Hello")), Some(raw(3, 10, "world"))];
    let whole = concatenated(&collect_segments(&extracted));
    assert_eq!(
        segment_to_json(&whole),
        "{\"frame_id\":0,\"frame_start\":0,\"frame_end\":0,\"text\":\"Hello world\"}"
    );
}

#[test]
fn json_text_is_escaped_like_json_asks() {
    let s = RecognizeResponse {
        frame_id: 0,
        frame_start: -1,
        frame_end: 2,
        text: "a\"b\\c\nd\te\ru\x01v\x08w\x0c".to_string(),
    };
    assert_eq!(
        segment_to_json(&s),
        "{\"frame_id\":0,\"frame_start\":-1,\"frame_end\":2,\"text\":\"a\\\"b\\\\c\\nd\\te\\ru\\u0001v\\bw\\f\"}"
    );
}
