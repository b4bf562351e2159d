use vstd::prelude::*;
use vstd::string::*;

use crate::numfmt::{dec_digits, u64_to_dec};

verus! {

/// The error a request handler surfaces to a client.
#[derive(Debug)]
pub enum WebError {
    ExtractTextFromAudio(String),
    ResponseError(String),
}

impl WebError {
    pub open spec fn spec_name(&self) -> Seq<char> {
        match self {
            WebError::ExtractTextFromAudio(_) => "ExtractTextFromAudio"@,
            WebError::ResponseError(_) => "RuntimeError"@,
        }
    }

    pub open spec fn spec_message(&self) -> Seq<char> {
        match self {
            WebError::ExtractTextFromAudio(d) => "Failed while extracting text data: "@ + d@,
            WebError::ResponseError(d) => "Response error: "@ + d@,
        }
    }

    pub fn name(&self) -> (r: String)
        ensures
            r@ == self.spec_name(),
    {
        match self {
            WebError::ExtractTextFromAudio(_) => "ExtractTextFromAudio",
            _ => "RuntimeError",
        }.to_owned()
    }

    pub fn message(&self) -> (r: String)
        ensures
            r@ == self.spec_message(),
    {
        match self {
            WebError::ExtractTextFromAudio(d) => {
                let mut s = "Failed while extracting text data: ".to_owned();
                s.append(d.as_str());
                s
            },
            WebError::ResponseError(d) => {
                let mut s = "Response error: ".to_owned();
                s.append(d.as_str());
                s
            },
        }
    }

    /// Every variant is a client-side fault.
    pub fn status_code_value(&self) -> (r: u16)
        ensures
            r == 400,
    {
        match self {
            WebError::ResponseError(_) => 400,
            WebError::ExtractTextFromAudio(_) => 400,
        }
    }
}

/// The JSON error body: `{code, error, message}`.
pub struct ErrorResponse {
    pub code: u16,
    pub error: String,
    pub message: String,
}

/// The body a failed request is answered with.
pub fn error_body(err: &WebError) -> (r: ErrorResponse)
    ensures
        r.code == 400,
        r.error@ == err.spec_name(),
        r.message@ == err.spec_message(),
{
    ErrorResponse { code: err.status_code_value(), error: err.name(), message: err.message() }
}

/// The JSON body of a plain successful answer: `{code, message}`.
pub struct SuccessfulResponse {
    pub code: u16,
    pub message: String,
}

pub fn ok_body(msg: &str) -> (r: SuccessfulResponse)
    ensures
        r.code == 200,
        r.message@ == msg@,
{
    SuccessfulResponse { code: 200, message: msg.to_owned() }
}

/// What can go wrong between an audio source and its segments.
///
/// A deletion failure of the temporary file is deliberately not here: it is
/// logged by the caller and never surfaced.
#[derive(Debug)]
pub enum RecognizeError {
    /// The external transcoding process could not be launched, or exited
    /// reporting failure.
    NormalizationFailed(String),
    /// The input is not a readable 16-bit PCM WAV container.
    DecodeFailed(String),
    /// The audio has more than two channels.
    UnsupportedChannelLayout(u16),
    /// The inference engine failed while decoding or extracting segments.
    InferenceError(String),
}

impl RecognizeError {
    pub open spec fn spec_message(&self) -> Seq<char> {
        match self {
            RecognizeError::NormalizationFailed(d) => "normalization failed: "@ + d@,
            RecognizeError::DecodeFailed(d) => "decode failed: "@ + d@,
            RecognizeError::UnsupportedChannelLayout(c) => "unsupported channel layout: "@
                + dec_digits(*c as nat) + " channels"@,
            RecognizeError::InferenceError(d) => "inference error: "@ + d@,
        }
    }

    /// The textual description sent to a client when recognition fails.
    pub fn message(&self) -> (r: String)
        ensures
            r@ == self.spec_message(),
    {
        match self {
            RecognizeError::NormalizationFailed(d) => {
                let mut s = "normalization failed: ".to_owned();
                s.append(d.as_str());
                s
            },
            RecognizeError::DecodeFailed(d) => {
                let mut s = "decode failed: ".to_owned();
                s.append(d.as_str());
                s
            },
            RecognizeError::UnsupportedChannelLayout(c) => {
                let mut s = "unsupported channel layout: ".to_owned();
                let n = u64_to_dec(*c as u64);
                s.append(n.as_str());
                s.append(" channels");
                s
            },
            RecognizeError::InferenceError(d) => {
                let mut s = "inference error: ".to_owned();
                s.append(d.as_str());
                s
            },
        }
    }
}

} // verus!
