use websocket::error::WebSocketError;
use websocket::frame::Frame;
use websocket::session::{ReadEvent, SessionState, Step, WebSocket, KEEPALIVE_INTERVAL_MS};

const KEY: [u8; 4] = [0x12, 0x34, 0x56, 0x78];

fn masked(first: u8, payload: &[u8]) -> Vec<u8> {
    let mut out = vec![first, 0x80 | payload.len() as u8];
    out.extend_from_slice(&KEY);
    for (i, b) in payload.iter().enumerate() {
        out.push(b ^ KEY[i % 4]);
    }
    out
}

fn upgrade_request() -> Vec<u8> {
    b"GET /chat HTTP/1.1\r\nHost: 127.0.0.1:8080\r\nUpgrade: websocket\r\nConnection: Upgrade\r\nSec-WebSocket-Key: dGhlIHNhbXBsZSBub25jZQ==\r\nSec-WebSocket-Version: 13\r\n\r\n".to_vec()
}

fn established(now: u64) -> WebSocket {
    let mut ws = WebSocket::new(now);
    ws.connect(&upgrade_request()).unwrap();
    ws
}

#[test]
fn new_session_is_connecting() {
    let ws = WebSocket::new(42);
    assert_eq!(ws.state(), SessionState::Connecting);
    assert_eq!(ws.last_ping(), 42);
}

#[test]
fn end_to_end_session() {
    let mut ws = WebSocket::new(0);
    let response = ws.connect(&upgrade_request()).unwrap();
    assert_eq!(
        String::from_utf8(response).unwrap(),
        "HTTP/1.1 101 Switching Protocols\r\nUpgrade: websocket\r\nConnection: Upgrade\r\nSec-WebSocket-Accept: s3pPLMBiTxaQ9kYGzzhZRbK+xOo=\r\n\r\n"
    );
    assert_eq!(ws.state(), SessionState::Established);

    let mut handled: Vec<Vec<u8>> = Vec::new();
    match ws.handle_connection(ReadEvent::Bytes(masked(0x81, b"ping"))) {
        Step::Dispatch(Frame::Data(data)) => handled.push(data),
        other => panic!("unexpected step: {:?}", other),
    }
    assert!(matches!(ws.handler_returned(Ok(())), Step::Continue));
    assert_eq!(ws.state(), SessionState::Established);

    assert!(matches!(ws.handle_connection(ReadEvent::Bytes(masked(0x88, b""))), Step::Finished));
    assert_eq!(ws.state(), SessionState::Closed);
    assert_eq!(handled, vec![b"ping".to_vec()]);
}

#[test]
fn failed_handshake_fails_the_session() {
    let mut ws = WebSocket::new(0);
    assert!(matches!(ws.connect(b"POST / HTTP/1.1\r\n\r\n"), Err(WebSocketError::NonGetRequest)));
    assert_eq!(ws.state(), SessionState::Failed);
    let mut ws = WebSocket::new(0);
    assert!(matches!(ws.connect(b"GET / HTTP/1.1\r\n\r\n"), Err(WebSocketError::HandshakeError(_))));
    assert_eq!(ws.state(), SessionState::Failed);
}

#[test]
fn idle_session_pings_after_the_interval() {
    assert_eq!(KEEPALIVE_INTERVAL_MS, 5000);
    let mut ws = established(1000);
    assert_eq!(ws.poll_keepalive(1000), None);
    assert_eq!(ws.poll_keepalive(3500), None);
    assert_eq!(ws.poll_keepalive(6000), None);
    assert_eq!(ws.last_ping(), 1000);
    assert_eq!(ws.poll_keepalive(6001), Some(vec![0x89, 0x00]));
    assert_eq!(ws.last_ping(), 6001);
    assert_eq!(ws.poll_keepalive(6002), None);
    assert_eq!(ws.poll_keepalive(11001), None);
    assert_eq!(ws.poll_keepalive(11002), Some(vec![0x89, 0x00]));
    assert_eq!(ws.state(), SessionState::Established);
}

#[test]
fn clock_that_stands_behind_gives_no_ping() {
    let mut ws = established(10_000);
    assert_eq!(ws.poll_keepalive(0), None);
    assert_eq!(ws.last_ping(), 10_000);
    assert_eq!(ws.poll_keepalive(u64::MAX), Some(vec![0x89, 0x00]));
}

#[test]
fn reads_without_data_change_nothing() {
    let mut ws = established(0);
    assert!(matches!(ws.handle_connection(ReadEvent::WouldBlock), Step::Continue));
    assert!(matches!(ws.handle_connection(ReadEvent::Bytes(Vec::new())), Step::Continue));
    assert_eq!(ws.state(), SessionState::Established);
    assert_eq!(ws.last_ping(), 0);
}

#[test]
fn ping_and_pong_go_to_the_handler() {
    let mut ws = established(0);
    assert!(matches!(
        ws.handle_connection(ReadEvent::Bytes(masked(0x89, b""))),
        Step::Dispatch(Frame::Ping)
    ));
    assert!(matches!(
        ws.handle_connection(ReadEvent::Bytes(masked(0x8A, b""))),
        Step::Dispatch(Frame::Pong)
    ));
    assert_eq!(ws.state(), SessionState::Established);
}

#[test]
fn undecodable_frame_fails_the_session() {
    let mut ws = established(0);
    match ws.handle_connection(ReadEvent::Bytes(vec![0x81, 0x05, b'H', b'e', b'l', b'l', b'o'])) {
        Step::Abort(WebSocketError::ProtocolError(msg)) => {
            assert_eq!(msg, "Error parsing frame: Frames from client must be masked")
        }
        other => panic!("unexpected step: {:?}", other),
    }
    assert_eq!(ws.state(), SessionState::Failed);

    let mut ws = established(0);
    match ws.handle_connection(ReadEvent::Bytes(masked(0x83, b"x"))) {
        Step::Abort(WebSocketError::ProtocolError(msg)) => {
            assert_eq!(msg, "Error parsing frame: Unknown opcode")
        }
        other => panic!("unexpected step: {:?}", other),
    }
    let mut ws = established(0);
    match ws.handle_connection(ReadEvent::Bytes(vec![0x81])) {
        Step::Abort(e) => {
            assert_eq!(e.describe(), "Protocol error: Error parsing frame: Frame too short")
        }
        other => panic!("unexpected step: {:?}", other),
    }
}

#[test]
fn failed_read_fails_the_session() {
    let mut ws = established(0);
    let cause = std::io::Error::new(std::io::ErrorKind::ConnectionReset, "reset");
    match ws.handle_connection(ReadEvent::Failed(cause)) {
        Step::Abort(WebSocketError::IoError(e)) => {
            assert_eq!(e.kind(), std::io::ErrorKind::ConnectionReset)
        }
        other => panic!("unexpected step: {:?}", other),
    }
    assert_eq!(ws.state(), SessionState::Failed);
}

#[test]
fn handler_error_fails_the_session() {
    let mut ws = established(0);
    let step = ws.handler_returned(Err(WebSocketError::ProtocolError("handler".to_string())));
    match step {
        Step::Abort(WebSocketError::ProtocolError(msg)) => assert_eq!(msg, "handler"),
        other => panic!("unexpected step: {:?}", other),
    }
    assert_eq!(ws.state(), SessionState::Failed);
}

#[test]
fn failed_write_fails_the_session() {
    let mut ws = established(0);
    let cause = std::io::Error::new(std::io::ErrorKind::BrokenPipe, "pipe");
    assert!(matches!(ws.transport_failed(cause), WebSocketError::IoError(_)));
    assert_eq!(ws.state(), SessionState::Failed);
}

#[test]
fn send_text_frames_the_text() {
    let ws = established(0);
    assert_eq!(ws.send_text("Hi"), vec![0x81, 0x02, b'H', b'i']);
    assert_eq!(ws.send_text(""), vec![0x81, 0x00]);
    let long = "é".repeat(100);
    let frame = ws.send_text(&long);
    assert_eq!(&frame[..4], &[0x81, 126, 0x00, 200]);
    assert_eq!(&frame[4..], long.as_bytes());
}

#[test]
fn ended_session_stays_ended() {
    let mut ws = established(0);
    assert!(matches!(ws.handle_connection(ReadEvent::Bytes(masked(0x88, b""))), Step::Finished));
    let cause = std::io::Error::new(std::io::ErrorKind::BrokenPipe, "pipe");
    assert!(matches!(ws.transport_failed(cause), WebSocketError::IoError(_)));
    assert_eq!(ws.state(), SessionState::Closed);

    let mut ws = WebSocket::new(0);
    let cause = std::io::Error::new(std::io::ErrorKind::UnexpectedEof, "eof");
    assert!(matches!(ws.transport_failed(cause), WebSocketError::IoError(_)));
    assert_eq!(ws.state(), SessionState::Failed);
}
