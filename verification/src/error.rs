//! The errors that end a connection.

use vstd::prelude::*;
use vstd::std_specs::convert::FromSpecImpl;
use vstd::string::StringExecFns;

verus! {

/// The transport's error type; nothing inside it is looked at.
#[verifier::external_type_specification]
#[verifier::external_body]
pub struct ExIoError(std::io::Error);

/// The error of a failed UTF-8 decoding; nothing inside it is looked at.
#[verifier::external_type_specification]
#[verifier::external_body]
pub struct ExUtf8Error(core::str::Utf8Error);

/// Why a connection attempt or an established session ended badly.
#[derive(Debug)]
pub enum WebSocketError {
    /// The transport failed.
    IoError(std::io::Error),
    /// The upgrade request is not UTF-8.
    Utf8Error(core::str::Utf8Error),
    /// The upgrade request carries no key, or the accept key could not be derived.
    HandshakeError(String),
    /// The peer did not send a GET request, so it is not asking for an upgrade.
    NonGetRequest,
    /// A received frame could not be decoded.
    ProtocolError(String),
}

/// Whether `text` begins with `prefix`.
pub open spec fn begins_with(text: Seq<char>, prefix: Seq<char>) -> bool {
    prefix.len() <= text.len() && text.subrange(0, prefix.len() as int) == prefix
}

/// `std::io::Error`'s `Display`, through `to_string`: the text is the
/// transport's own, and nothing is claimed of it.
#[verifier::external_body]
fn io_error_text(err: &std::io::Error) -> (text: String) {
    err.to_string()
}

/// `core::str::Utf8Error`'s `Display`, through `to_string`: the text is the
/// decoder's own, and nothing is claimed of it.
#[verifier::external_body]
fn utf8_error_text(err: &core::str::Utf8Error) -> (text: String) {
    err.to_string()
}

impl WebSocketError {
    /// Describes the error in words: what kind it is, then its cause.
    pub fn describe(&self) -> (text: String)
        ensures
            match self {
                WebSocketError::IoError(_) => begins_with(text@, "I/O error: "@),
                WebSocketError::Utf8Error(_) => begins_with(text@, "UTF-8 decoding error: "@),
                WebSocketError::HandshakeError(msg) => text@ == "Handshake error: "@ + msg@,
                WebSocketError::NonGetRequest => text@ == "Received non-GET request"@,
                WebSocketError::ProtocolError(msg) => text@ == "Protocol error: "@ + msg@,
            },
    {
        match self {
            WebSocketError::IoError(err) => {
                let cause = io_error_text(err);
                let text = String::from_str("I/O error: ").concat(cause.as_str());
                assert(text@.subrange(0, "I/O error: "@.len() as int) =~= "I/O error: "@);
                text
            },
            WebSocketError::Utf8Error(err) => {
                let cause = utf8_error_text(err);
                let text = String::from_str("UTF-8 decoding error: ").concat(cause.as_str());
                assert(text@.subrange(0, "UTF-8 decoding error: "@.len() as int)
                    =~= "UTF-8 decoding error: "@);
                text
            },
            WebSocketError::HandshakeError(msg) => String::from_str("Handshake error: ").concat(
                msg.as_str(),
            ),
            WebSocketError::NonGetRequest => String::from_str("Received non-GET request"),
            WebSocketError::ProtocolError(msg) => String::from_str("Protocol error: ").concat(
                msg.as_str(),
            ),
        }
    }
}

impl From<std::io::Error> for WebSocketError {
    fn from(err: std::io::Error) -> (e: WebSocketError) {
        WebSocketError::IoError(err)
    }
}

impl FromSpecImpl<std::io::Error> for WebSocketError {
    open spec fn obeys_from_spec() -> bool {
        true
    }

    open spec fn from_spec(err: std::io::Error) -> WebSocketError {
        WebSocketError::IoError(err)
    }
}

impl From<core::str::Utf8Error> for WebSocketError {
    fn from(err: core::str::Utf8Error) -> (e: WebSocketError) {
        WebSocketError::Utf8Error(err)
    }
}

impl FromSpecImpl<core::str::Utf8Error> for WebSocketError {
    open spec fn obeys_from_spec() -> bool {
        true
    }

    open spec fn from_spec(err: core::str::Utf8Error) -> WebSocketError {
        WebSocketError::Utf8Error(err)
    }
}

} // verus!
