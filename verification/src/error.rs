//! Error types for playwLeft.
use vstd::prelude::*;

use crate::text::{concat, i64_to_decimal, signed_decimal};

verus! {

#[verifier::external_type_specification]
#[verifier::external_body]
pub struct ExIoError(std::io::Error);

/// Unified error type for all playwLeft operations.
#[derive(Debug)]
pub enum PlaywLeftError {
    /// Browser process failed to launch or crashed.
    BrowserError(String),
    /// Failed to connect to browser via WebSocket.
    ConnectionError(String),
    /// CDP protocol-level error returned by the browser.
    ProtocolError { code: i64, message: String },
    /// Operation timed out.
    Timeout(String),
    /// Navigation failed.
    NavigationError(String),
    /// Element not found by selector.
    ElementNotFound(String),
    /// JavaScript evaluation error.
    EvaluationError(String),
    /// Network interception or request error.
    NetworkError(String),
    /// The browser context or page has been closed.
    TargetClosed(String),
    /// Selector syntax error.
    InvalidSelector(String),
    /// Session was disconnected.
    SessionClosed,
    /// WebSocket transport error.
    WebSocketError(String),
    /// Serialization / deserialization error.
    SerializationError(String),
    /// IO error from filesystem or process operations.
    IoError(std::io::Error),
    /// Generic catch-all for unexpected errors.
    Internal(String),
}

/// The text of an I/O error (`std::io::Error`'s `Display`). It depends on
/// the operating system's error strings, so nothing is promised of it.
#[verifier::external_body]
fn io_error_text(e: &std::io::Error) -> String {
    e.to_string()
}

impl PlaywLeftError {
    /// The human-readable message of every error but `IoError`, whose text
    /// comes from the operating system.
    pub open spec fn spec_message(self) -> Seq<char> {
        match self {
            PlaywLeftError::BrowserError(s) => "Browser error: "@ + s@,
            PlaywLeftError::ConnectionError(s) => "Connection error: "@ + s@,
            PlaywLeftError::ProtocolError { code, message } => "Protocol error: "@ + message@
                + " (code: "@ + signed_decimal(code as int) + ")"@,
            PlaywLeftError::Timeout(s) => "Timeout: "@ + s@,
            PlaywLeftError::NavigationError(s) => "Navigation error: "@ + s@,
            PlaywLeftError::ElementNotFound(s) => "Element not found: "@ + s@,
            PlaywLeftError::EvaluationError(s) => "Evaluation error: "@ + s@,
            PlaywLeftError::NetworkError(s) => "Network error: "@ + s@,
            PlaywLeftError::TargetClosed(s) => "Target closed: "@ + s@,
            PlaywLeftError::InvalidSelector(s) => "Invalid selector: "@ + s@,
            PlaywLeftError::SessionClosed => "Session closed"@,
            PlaywLeftError::WebSocketError(s) => "WebSocket error: "@ + s@,
            PlaywLeftError::SerializationError(s) => "Serialization error: "@ + s@,
            PlaywLeftError::IoError(_) => "IO error: "@,
            PlaywLeftError::Internal(s) => "Internal error: "@ + s@,
        }
    }

    /// The error's message, as its `Display` renders it.
    pub fn message(&self) -> (r: String)
        ensures
            !(*self is IoError) ==> r@ == self.spec_message(),
            *self is IoError ==> self.spec_message().is_prefix_of(r@),
    {
        match self {
            PlaywLeftError::BrowserError(s) => concat("Browser error: ", s.as_str()),
            PlaywLeftError::ConnectionError(s) => concat("Connection error: ", s.as_str()),
            PlaywLeftError::ProtocolError { code, message } => {
                let mut r = concat("Protocol error: ", message.as_str());
                r.append(" (code: ");
                let digits = i64_to_decimal(*code);
                r.append(digits.as_str());
                r.append(")");
                r
            },
            PlaywLeftError::Timeout(s) => concat("Timeout: ", s.as_str()),
            PlaywLeftError::NavigationError(s) => concat("Navigation error: ", s.as_str()),
            PlaywLeftError::ElementNotFound(s) => concat("Element not found: ", s.as_str()),
            PlaywLeftError::EvaluationError(s) => concat("Evaluation error: ", s.as_str()),
            PlaywLeftError::NetworkError(s) => concat("Network error: ", s.as_str()),
            PlaywLeftError::TargetClosed(s) => concat("Target closed: ", s.as_str()),
            PlaywLeftError::InvalidSelector(s) => concat("Invalid selector: ", s.as_str()),
            PlaywLeftError::SessionClosed => "Session closed".to_string(),
            PlaywLeftError::WebSocketError(s) => concat("WebSocket error: ", s.as_str()),
            PlaywLeftError::SerializationError(s) => concat(
                "Serialization error: ",
                s.as_str(),
            ),
            PlaywLeftError::IoError(e) => {
                let t = io_error_text(e);
                let r = concat("IO error: ", t.as_str());
                assert("IO error: "@.is_prefix_of(r@)) by {
                    assert(r@.subrange(0, "IO error: "@.len() as int) =~= "IO error: "@);
                }
                r
            },
            PlaywLeftError::Internal(s) => concat("Internal error: ", s.as_str()),
        }
    }

    /// A protocol error with the given code and message.
    pub fn protocol(code: i64, message: &str) -> (r: PlaywLeftError)
        ensures
            r matches PlaywLeftError::ProtocolError { code: c, message: m } && c == code && m@
                == message@,
    {
        PlaywLeftError::ProtocolError { code, message: message.to_string() }
    }
}

/// Convenience Result type for playwLeft operations.
pub type Result<T> = std::result::Result<T, PlaywLeftError>;

} // verus!
