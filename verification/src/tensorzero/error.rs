//! Error types for TensorZero client operations.

use vstd::prelude::*;

verus! {

#[verifier::external_type_specification]
#[verifier::external_body]
pub struct ExReqwestError(reqwest::Error);

#[verifier::external_type_specification]
#[verifier::external_body]
pub struct ExJsonError(serde_json::Error);

/// Errors that can occur when using the TensorZero client.
#[derive(Debug)]
pub enum TensorZeroError {
    /// Failed to build the HTTP client.
    ClientBuild { message: String },
    /// Invalid URL provided.
    InvalidUrl { url: String },
    /// HTTP request failed.
    Request { message: String, source: Option<reqwest::Error> },
    /// Server returned an error response.
    ServerError { status_code: u16, message: String },
    /// Failed to parse a response.
    ParseError { message: String, source: Option<serde_json::Error> },
    /// Streaming error.
    StreamError { message: String },
    /// Invalid request configuration.
    InvalidRequest { message: String },
}

/// The text that `reqwest` renders for an error.
#[verifier::external_body]
fn reqwest_error_text(err: &reqwest::Error) -> String {
    err.to_string()
}

/// The text that `serde_json` renders for an error.
#[verifier::external_body]
fn json_error_text(err: &serde_json::Error) -> String {
    err.to_string()
}

impl TensorZeroError {
    /// Create a request error from a `reqwest` error, keeping the error as the source.
    pub fn from_reqwest(err: reqwest::Error) -> (r: Self)
        ensures
            r matches TensorZeroError::Request { source, .. } && source == Some(err),
    {
        let message = reqwest_error_text(&err);
        TensorZeroError::Request { message, source: Some(err) }
    }

    /// Create a parse error from a `serde_json` error, keeping the error as the source.
    pub fn from_json(err: serde_json::Error) -> (r: Self)
        ensures
            r matches TensorZeroError::ParseError { source, .. } && source == Some(err),
    {
        let message = json_error_text(&err);
        TensorZeroError::ParseError { message, source: Some(err) }
    }
}

} // verus!

verus! {

/// The message text of a gateway error.
pub open spec fn spec_tensorzero_error_text(e: TensorZeroError) -> Seq<char> {
    match e {
        TensorZeroError::ClientBuild { message } => "failed to build HTTP client: "@ + message@,
        TensorZeroError::InvalidUrl { url } => "invalid URL: "@ + url@,
        TensorZeroError::Request { message, .. } => "HTTP request failed: "@ + message@,
        TensorZeroError::ServerError { status_code, message } => "server error (status "@
            + crate::json::spec_decimal(status_code as nat) + "): "@ + message@,
        TensorZeroError::ParseError { message, .. } => "failed to parse response: "@ + message@,
        TensorZeroError::StreamError { message } => "streaming error: "@ + message@,
        TensorZeroError::InvalidRequest { message } => "invalid request: "@ + message@,
    }
}

impl TensorZeroError {
    /// The message text of the error.
    pub fn message_text(&self) -> (r: String)
        ensures
            r@ == spec_tensorzero_error_text(*self),
    {
        match self {
            TensorZeroError::ClientBuild { message } => crate::text::concat("failed to build HTTP client: ", message.as_str()),
            TensorZeroError::InvalidUrl { url } => crate::text::concat("invalid URL: ", url.as_str()),
            TensorZeroError::Request { message, .. } => crate::text::concat("HTTP request failed: ", message.as_str()),
            TensorZeroError::ServerError { status_code, message } => {
                let code = crate::json::decimal_text(*status_code as u64);
                crate::text::concat4("server error (status ", code.as_str(), "): ", message.as_str())
            },
            TensorZeroError::ParseError { message, .. } => crate::text::concat("failed to parse response: ", message.as_str()),
            TensorZeroError::StreamError { message } => crate::text::concat("streaming error: ", message.as_str()),
            TensorZeroError::InvalidRequest { message } => crate::text::concat("invalid request: ", message.as_str()),
        }
    }
}

} // verus!
