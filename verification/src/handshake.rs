//! The opening handshake: from the client's upgrade request to the response
//! that switches the connection to the WebSocket protocol.

use vstd::prelude::*;
use vstd::slice::slice_subrange;
use vstd::string::StringSliceAdditionalSpecFns;
use vstd::utf8::valid_utf8;
use crate::base64;
use crate::bytes::{has_at, matches_at, push_all};
use crate::error::WebSocketError;
use crate::sha1;
use crate::text::{find_line, first_line_with, trim, trimmed};

verus! {

/// `core::str::from_utf8` accepts a slice exactly when it is well-formed
/// UTF-8, and the string it then gives has the very bytes of the slice.
pub assume_specification[ core::str::from_utf8 ](v: &[u8]) -> (r: Result<
    &str,
    core::str::Utf8Error,
>)
    ensures
        r is Ok <==> valid_utf8(v@),
        r is Ok ==> r->Ok_0.spec_bytes() == v@,
;

/// The method token that an upgrade request starts with.
pub open spec fn method_token() -> Seq<u8> {
    "GET".spec_bytes()
}

/// The start of the header line that carries the client's key.
pub open spec fn key_header() -> Seq<u8> {
    "Sec-WebSocket-Key: ".spec_bytes()
}

/// The fixed value that the protocol appends to the client's key.
pub open spec fn protocol_guid() -> Seq<u8> {
    "258EAFA5-E914-47DA-95CA-C5AB0DC85B11".spec_bytes()
}

/// The response up to the accept key.
pub open spec fn response_head() -> Seq<u8> {
    "HTTP/1.1 101 Switching Protocols\r\nUpgrade: websocket\r\nConnection: Upgrade\r\nSec-WebSocket-Accept: ".spec_bytes()
}

/// The response behind the accept key.
pub open spec fn response_tail() -> Seq<u8> {
    "\r\n\r\n".spec_bytes()
}

/// The accept key for a client key: the Base64 form of the SHA-1 digest of
/// the key followed by the protocol's fixed value.
pub open spec fn accept_key(key: Seq<u8>) -> Seq<u8> {
    base64::encoding(sha1::digest(key + protocol_guid()))
}

/// Whether an accept key can be derived for `key`: the key and the fixed value
/// together must not be longer than a message that SHA-1 takes.
pub open spec fn key_usable(key: Seq<u8>) -> bool {
    key.len() + protocol_guid().len() <= sha1::MAX_MESSAGE_LEN
}

/// The upgrade response that carries the accept key `accept`.
pub open spec fn upgrade_response(accept: Seq<u8>) -> Seq<u8> {
    response_head() + accept + response_tail()
}

/// The client's key in a request: what stands behind the key header on the
/// first line that begins with it, without surrounding white space.
pub open spec fn client_key(request: Seq<u8>) -> Option<Seq<u8>> {
    match find_line(request, 0, key_header()) {
        Some(line) => Some(trim(line.skip(key_header().len() as int))),
        None => None,
    }
}

/// The text of the error for a request without a key.
pub open spec fn missing_key_text() -> Seq<char> {
    "Could not find Sec-WebSocket-Key in HTTP request header"@
}

/// The text of the error for a key that cannot be hashed.
pub open spec fn hash_failure_text() -> Seq<char> {
    "Failed to hash the response key"@
}

/// Whether `e` is a handshake error with the text `text`.
pub open spec fn is_handshake_error(e: WebSocketError, text: Seq<char>) -> bool {
    e is HandshakeError && e->HandshakeError_0@ == text
}

/// What the handshake gives for a request. The checks come in this order:
/// the method, the encoding, the key header, the derivation of the accept key.
pub open spec fn handshake_result(request: Seq<u8>, r: Result<Vec<u8>, WebSocketError>) -> bool {
    if !has_at(request, 0, method_token()) {
        r is Err && r->Err_0 is NonGetRequest
    } else if !valid_utf8(request) {
        r is Err && r->Err_0 is Utf8Error
    } else {
        match client_key(request) {
            None => r is Err && is_handshake_error(r->Err_0, missing_key_text()),
            Some(key) => if !key_usable(key) {
                r is Err && is_handshake_error(r->Err_0, hash_failure_text())
            } else {
                r is Ok && r->Ok_0@ == upgrade_response(accept_key(key))
            },
        }
    }
}

/// Derives the accept key for the client key `key`.
pub fn derive_accept_key(key: &[u8]) -> (r: Option<Vec<u8>>)
    ensures
        r is Some <==> key_usable(key@),
        r is Some ==> r->Some_0@ == accept_key(key@),
{
    let guid: &[u8] = "258EAFA5-E914-47DA-95CA-C5AB0DC85B11".as_bytes();
    let mut joined: Vec<u8> = Vec::new();
    push_all(&mut joined, key);
    push_all(&mut joined, guid);
    match sha1::hash(joined.as_slice()) {
        None => None,
        Some(digest) => base64::encode(digest.as_slice()),
    }
}

/// Builds the upgrade response around an accept key.
pub fn build_response(accept: &[u8]) -> (response: Vec<u8>)
    ensures
        response@ == upgrade_response(accept@),
{
    let head: &[u8] =
        "HTTP/1.1 101 Switching Protocols\r\nUpgrade: websocket\r\nConnection: Upgrade\r\nSec-WebSocket-Accept: ".as_bytes();
    let tail: &[u8] = "\r\n\r\n".as_bytes();
    let mut response: Vec<u8> = Vec::new();
    push_all(&mut response, head);
    push_all(&mut response, accept);
    push_all(&mut response, tail);
    response
}

/// Answers a client's upgrade request: the response to write back, or the
/// reason why the connection is not upgraded.
pub fn handle_websocket_handshake(request: &[u8]) -> (r: Result<Vec<u8>, WebSocketError>)
    ensures
        handshake_result(request@, r),
{
    if !matches_at(request, 0, "GET".as_bytes()) {
        return Err(WebSocketError::NonGetRequest);
    }
    match core::str::from_utf8(request) {
        Err(e) => {
            return Err(WebSocketError::Utf8Error(e));
        },
        Ok(_) => {},
    }
    let header: &[u8] = "Sec-WebSocket-Key: ".as_bytes();
    let line: &[u8] = match first_line_with(request, header) {
        Some(line) => line,
        None => {
            return Err(
                WebSocketError::HandshakeError(
                    "Could not find Sec-WebSocket-Key in HTTP request header".to_owned(),
                ),
            );
        },
    };
    let key: &[u8] = trimmed(slice_subrange(line, header.len(), line.len()));
    match derive_accept_key(key) {
        Some(accept) => Ok(build_response(accept.as_slice())),
        None => Err(WebSocketError::HandshakeError("Failed to hash the response key".to_owned())),
    }
}

} // verus!
