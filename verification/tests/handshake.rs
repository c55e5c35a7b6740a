use websocket::error::WebSocketError;
use websocket::handshake::{build_response, derive_accept_key, handle_websocket_handshake};
use websocket::text::{first_line_with, next_line_feed, trimmed};

const SAMPLE_KEY: &str = "dGhlIHNhbXBsZSBub25jZQ==";
const SAMPLE_ACCEPT: &str = "s3pPLMBiTxaQ9kYGzzhZRbK+xOo=";

fn response_with(accept: &str) -> String {
    format!(
        "HTTP/1.1 101 Switching Protocols\r\nUpgrade: websocket\r\nConnection: Upgrade\r\nSec-WebSocket-Accept: {}\r\n\r\n",
        accept
    )
}

fn request_with(key_line: &str) -> Vec<u8> {
    format!(
        "GET /chat HTTP/1.1\r\nHost: server.example.com\r\nUpgrade: websocket\r\nConnection: Upgrade\r\n{}\r\nSec-WebSocket-Version: 13\r\n\r\n",
        key_line
    )
    .into_bytes()
}

#[test]
fn accept_key_of_sample_nonce() {
    let accept = derive_accept_key(SAMPLE_KEY.as_bytes()).unwrap();
    assert_eq!(String::from_utf8(accept).unwrap(), SAMPLE_ACCEPT);
}

#[test]
fn accept_key_of_other_keys() {
    let accept = derive_accept_key(b"x3JJHMbDL1EzLkh9GBhXDw==").unwrap();
    assert_eq!(String::from_utf8(accept).unwrap(), "HSmrc0sMlYUkAGmm5OPpG2HaGWk=");
    let accept = derive_accept_key(b"").unwrap();
    assert_eq!(accept.len(), 28);
}

#[test]
fn response_is_built_around_accept_key() {
    let response = build_response(b"abc");
    assert_eq!(String::from_utf8(response).unwrap(), response_with("abc"));
}

#[test]
fn handshake_answers_sample_request() {
    let request = request_with("Sec-WebSocket-Key: dGhlIHNhbXBsZSBub25jZQ==");
    let response = handle_websocket_handshake(&request).unwrap();
    assert_eq!(String::from_utf8(response).unwrap(), response_with(SAMPLE_ACCEPT));
}

#[test]
fn handshake_trims_the_key() {
    let request = request_with("Sec-WebSocket-Key:   \tdGhlIHNhbXBsZSBub25jZQ== \u{a0}\u{2003} ");
    let response = handle_websocket_handshake(&request).unwrap();
    assert_eq!(String::from_utf8(response).unwrap(), response_with(SAMPLE_ACCEPT));
}

#[test]
fn handshake_accepts_bare_line_feeds() {
    let request =
        b"GET / HTTP/1.1\nSec-WebSocket-Key: dGhlIHNhbXBsZSBub25jZQ==\nUpgrade: websocket".to_vec();
    let response = handle_websocket_handshake(&request).unwrap();
    assert_eq!(String::from_utf8(response).unwrap(), response_with(SAMPLE_ACCEPT));
}

#[test]
fn handshake_takes_key_on_last_line_without_ending() {
    let request = b"GET / HTTP/1.1\r\nSec-WebSocket-Key: dGhlIHNhbXBsZSBub25jZQ==".to_vec();
    let response = handle_websocket_handshake(&request).unwrap();
    assert_eq!(String::from_utf8(response).unwrap(), response_with(SAMPLE_ACCEPT));
}

#[test]
fn handshake_takes_first_key_line() {
    let request = b"GET / HTTP/1.1\r\nSec-WebSocket-Key: dGhlIHNhbXBsZSBub25jZQ==\r\nSec-WebSocket-Key: other\r\n\r\n".to_vec();
    let response = handle_websocket_handshake(&request).unwrap();
    assert_eq!(String::from_utf8(response).unwrap(), response_with(SAMPLE_ACCEPT));
}

#[test]
fn handshake_rejects_non_get() {
    let request = b"POST /chat HTTP/1.1\r\nSec-WebSocket-Key: dGhlIHNhbXBsZSBub25jZQ==\r\n\r\n";
    assert!(matches!(handle_websocket_handshake(request), Err(WebSocketError::NonGetRequest)));
    assert!(matches!(handle_websocket_handshake(b""), Err(WebSocketError::NonGetRequest)));
    assert!(matches!(handle_websocket_handshake(b"GE"), Err(WebSocketError::NonGetRequest)));
    assert!(matches!(handle_websocket_handshake(b"get / HTTP/1.1"), Err(WebSocketError::NonGetRequest)));
}

#[test]
fn handshake_rejects_non_get_before_decoding() {
    let request = [b'P', b'U', b'T', 0xFF, 0xFE];
    assert!(matches!(handle_websocket_handshake(&request), Err(WebSocketError::NonGetRequest)));
}

#[test]
fn handshake_rejects_malformed_utf8() {
    let mut request = b"GET / HTTP/1.1\r\nSec-WebSocket-Key: dGhlIHNhbXBsZSBub25jZQ==\r\n".to_vec();
    request.push(0xFF);
    assert!(matches!(handle_websocket_handshake(&request), Err(WebSocketError::Utf8Error(_))));
}

#[test]
fn handshake_rejects_missing_key() {
    let request = b"GET /chat HTTP/1.1\r\nHost: server.example.com\r\nUpgrade: websocket\r\n\r\n";
    match handle_websocket_handshake(request) {
        Err(WebSocketError::HandshakeError(msg)) => {
            assert_eq!(msg, "Could not find Sec-WebSocket-Key in HTTP request header")
        }
        other => panic!("unexpected result: {:?}", other),
    }
}

#[test]
fn handshake_matches_header_name_by_case() {
    let request = request_with("sec-websocket-key: dGhlIHNhbXBsZSBub25jZQ==");
    assert!(matches!(handle_websocket_handshake(&request), Err(WebSocketError::HandshakeError(_))));
    let request = request_with(" Sec-WebSocket-Key: dGhlIHNhbXBsZSBub25jZQ==");
    assert!(matches!(handle_websocket_handshake(&request), Err(WebSocketError::HandshakeError(_))));
    let request = request_with("Sec-WebSocket-Key:dGhlIHNhbXBsZSBub25jZQ==");
    assert!(matches!(handle_websocket_handshake(&request), Err(WebSocketError::HandshakeError(_))));
}

#[test]
fn error_descriptions() {
    assert_eq!(WebSocketError::NonGetRequest.describe(), "Received non-GET request");
    assert_eq!(
        WebSocketError::HandshakeError("no key".to_string()).describe(),
        "Handshake error: no key"
    );
    assert_eq!(
        WebSocketError::ProtocolError("bad frame".to_string()).describe(),
        "Protocol error: bad frame"
    );
    let io = std::io::Error::new(std::io::ErrorKind::Other, "broken pipe");
    assert_eq!(WebSocketError::from(io).describe(), "I/O error: broken pipe");
    let bad = [0xFFu8];
    let utf8 = std::str::from_utf8(&bad).unwrap_err();
    assert!(WebSocketError::from(utf8).describe().starts_with("UTF-8 decoding error: "));
}

#[test]
fn trimmed_strips_white_space_of_every_width() {
    assert_eq!(trimmed(b"  key \t\r\n"), b"key");
    assert_eq!(trimmed(b""), b"");
    assert_eq!(trimmed(b" \t "), b"");
    assert_eq!(trimmed(b"a b"), b"a b");
    let text = "\u{85}\u{a0}\u{1680}\u{2000}\u{200a}\u{2028}\u{2029}\u{202f}\u{205f}\u{3000}k e y\u{3000}\u{205f}\u{85}";
    assert_eq!(trimmed(text.as_bytes()), b"k e y");
    let kept = "\u{200b}key\u{feff}";
    assert_eq!(trimmed(kept.as_bytes()), kept.trim().as_bytes());
    assert_eq!(trimmed(kept.as_bytes()), kept.as_bytes());
}

#[test]
fn lines_are_split_at_line_feeds() {
    let data = b"one\r\ntwo\nthree";
    assert_eq!(next_line_feed(data, 0), 4);
    assert_eq!(next_line_feed(data, 5), 8);
    assert_eq!(next_line_feed(data, 9), data.len());
    assert_eq!(first_line_with(data, b"t"), Some(&b"two"[..]));
    assert_eq!(first_line_with(data, b"th"), Some(&b"three"[..]));
    assert_eq!(first_line_with(data, b"one"), Some(&b"one"[..]));
    assert_eq!(first_line_with(data, b"one\r"), None);
    assert_eq!(first_line_with(data, b"four"), None);
    assert_eq!(first_line_with(b"a\n\nb\n", b""), Some(&b"a"[..]));
    assert_eq!(first_line_with(b"", b""), None);
    assert_eq!(first_line_with(b"x\r", b"x\r"), Some(&b"x\r"[..]));
}
