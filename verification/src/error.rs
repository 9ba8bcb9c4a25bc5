//! The error type shared across the library.

use vstd::prelude::*;
use vstd::string::*;

verus! {

/// The error type returned by the gateway engine and its collaborators.
///
/// `Api` carries the status and body of a failed REST call; `Voice` carries
/// the reason a voice handshake failed; `ConnectionClosed` stands for a
/// resumable close of the gateway connection.
#[derive(Debug, Clone)]
pub enum ClientError {
    WebSocket(String),
    Http(String),
    Json(String),
    ConnectionClosed,
    Api(String),
    Voice(String),
}

/// The descriptive text of an error: a fixed label for the variant followed
/// by its detail.
pub open spec fn spec_error_message(e: ClientError) -> Seq<char> {
    match e {
        ClientError::WebSocket(s) => "WebSocket error: "@ + s@,
        ClientError::Http(s) => "HTTP error: "@ + s@,
        ClientError::Json(s) => "JSON error: "@ + s@,
        ClientError::ConnectionClosed => "Connection closed by server"@,
        ClientError::Api(s) => "API error: "@ + s@,
        ClientError::Voice(s) => "Voice error: "@ + s@,
    }
}

impl ClientError {
    /// A human-readable description of the error.
    pub fn message(&self) -> (m: String)
        ensures
            m@ == spec_error_message(*self),
    {
        match self {
            ClientError::WebSocket(s) => String::from_str("WebSocket error: ").concat(s.as_str()),
            ClientError::Http(s) => String::from_str("HTTP error: ").concat(s.as_str()),
            ClientError::Json(s) => String::from_str("JSON error: ").concat(s.as_str()),
            ClientError::ConnectionClosed => String::from_str("Connection closed by server"),
            ClientError::Api(s) => String::from_str("API error: ").concat(s.as_str()),
            ClientError::Voice(s) => String::from_str("Voice error: ").concat(s.as_str()),
        }
    }
}

} // verus!
