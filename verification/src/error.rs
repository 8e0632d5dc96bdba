//! The closed set of errors that the relay client reports.

use vstd::prelude::*;
use vstd::string::StringExecFns;

verus! {

/// What went wrong; each kind carries a diagnostic text.
#[derive(Debug)]
pub enum DerpError {
    /// An operation was called in a state that forbids it.
    InvalidState(String),
    /// A frame or payload was malformed or out of range.
    InvalidProtocol(String),
    /// The transport failed to open or to send.
    WebSocketError(String),
    /// Entropy, authentication, MAC or signature-encoding failure.
    CryptoError(String),
    /// A payload encoder or decoder rejected its input.
    SerializationError(String),
}

pub type DerpResult<T> = Result<T, DerpError>;

/// A diagnostic text made of a label and the detail that an outside
/// failure reported.
pub fn labelled(label: &str, detail: &String) -> (text: String)
    ensures
        text@ == label@ + detail@,
{
    String::from_str(label).concat(detail.as_str())
}

impl DerpError {
    /// The diagnostic text carried by the error.
    pub open spec fn detail(self) -> Seq<char> {
        match self {
            DerpError::InvalidState(m) => m@,
            DerpError::InvalidProtocol(m) => m@,
            DerpError::WebSocketError(m) => m@,
            DerpError::CryptoError(m) => m@,
            DerpError::SerializationError(m) => m@,
        }
    }

    /// The fixed prefix that names the kind of the error in its rendering.
    pub open spec fn prefix(self) -> Seq<char> {
        match self {
            DerpError::InvalidState(_) => "Invalid state: "@,
            DerpError::InvalidProtocol(_) => "Protocol error: "@,
            DerpError::WebSocketError(_) => "WebSocket error: "@,
            DerpError::CryptoError(_) => "Cryptography error: "@,
            DerpError::SerializationError(_) => "Serialization error: "@,
        }
    }

    /// Renders the error for a human reader: the kind's prefix, then the
    /// diagnostic text.
    pub fn describe(&self) -> (text: String)
        ensures
            text@ == self.prefix() + self.detail(),
    {
        match self {
            DerpError::InvalidState(m) => String::from_str("Invalid state: ").concat(m.as_str()),
            DerpError::InvalidProtocol(m) => String::from_str("Protocol error: ").concat(
                m.as_str(),
            ),
            DerpError::WebSocketError(m) => String::from_str("WebSocket error: ").concat(
                m.as_str(),
            ),
            DerpError::CryptoError(m) => String::from_str("Cryptography error: ").concat(
                m.as_str(),
            ),
            DerpError::SerializationError(m) => String::from_str("Serialization error: ").concat(
                m.as_str(),
            ),
        }
    }
}

} // verus!
