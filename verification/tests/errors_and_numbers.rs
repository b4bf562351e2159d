use audio_to_text::errors::{error_body, ok_body, RecognizeError, WebError};
use audio_to_text::numfmt::{i32_to_dec, i64_to_dec, u32_to_dec, u64_to_dec};

#[test]
fn web_error_names() {
    let e = WebError::ExtractTextFromAudio("bad".to_string());
    assert_eq!(e.name(), "ExtractTextFromAudio");
    let e = WebError::ResponseError("bad".to_string());
    assert_eq!(e.name(), "RuntimeError");
}

#[test]
fn web_error_messages_and_status() {
    let e = WebError::ExtractTextFromAudio("no text".to_string());
    assert_eq!(e.message(), "Failed while extracting text data: no text");
    assert_eq!(e.status_code_value(), 400);
    let e = WebError::ResponseError("boom".to_string());
    assert_eq!(e.message(), "Response error: boom");
    assert_eq!(e.status_code_value(), 400);
}

#[test]
fn error_body_carries_code_name_and_message() {
    let e = WebError::ResponseError("boom".to_string());
    let body = error_body(&e);
    assert_eq!(body.code, 400);
    assert_eq!(body.error, "RuntimeError");
    assert_eq!(body.message, "Response error: boom");
}

#[test]
fn ok_body_carries_code_and_message() {
    let body = ok_body("Ok");
    assert_eq!(body.code, 200);
    assert_eq!(body.message, "Ok");
}

#[test]
fn recognize_error_messages() {
    let e = RecognizeError::NormalizationFailed("no transcoder".to_string());
    assert_eq!(e.message(), "normalization failed: no transcoder");
    let e = RecognizeError::DecodeFailed("missing RIFF mark".to_string());
    assert_eq!(e.message(), "decode failed: missing RIFF mark");
    let e = RecognizeError::UnsupportedChannelLayout(3);
    assert_eq!(e.message(), "unsupported channel layout: 3 channels");
    let e = RecognizeError::InferenceError("state failed".to_string());
    assert_eq!(e.message(), "inference error: state failed");
}

#[test]
fn unsigned_decimal_formatting() {
    assert_eq!(u64_to_dec(0), "0");
    assert_eq!(u64_to_dec(7), "7");
    assert_eq!(u64_to_dec(29000), "29000");
    assert_eq!(u64_to_dec(u64::MAX), "18446744073709551615");
    assert_eq!(u32_to_dec(16000), "16000");
    assert_eq!(u32_to_dec(u32::MAX), "4294967295");
}

#[test]
fn signed_decimal_formatting() {
    assert_eq!(i64_to_dec(0), "0");
    assert_eq!(i64_to_dec(42), "42");
    assert_eq!(i64_to_dec(-1), "-1");
    assert_eq!(i64_to_dec(i64::MIN), "-9223372036854775808");
    assert_eq!(i64_to_dec(i64::MAX), "9223372036854775807");
    assert_eq!(i32_to_dec(-29000), "-29000");
    assert_eq!(i32_to_dec(i32::MIN), "-2147483648");
}
