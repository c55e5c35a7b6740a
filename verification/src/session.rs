//! The life cycle of one connection, as decisions on plain values: the caller
//! owns the stream and the clock, reads and writes, and asks the session what
//! each outcome means.

use vstd::prelude::*;
use vstd::string::StringExecFns;
use vstd::string::StringSliceAdditionalSpecFns;
use crate::error::WebSocketError;
use crate::frame::{
    decode,
    encode_ping,
    encode_text,
    parse_frame,
    ping_frame,
    text_frame,
    Frame,
    FrameError,
    FrameModel,
};
use crate::handshake::{handle_websocket_handshake, handshake_result};

verus! {

/// Where a session stands in its life.
#[derive(Clone, Copy, Debug, PartialEq, Eq, Structural)]
pub enum SessionState {
    /// The upgrade request has not been answered yet.
    Connecting,
    /// The handshake succeeded; frames are exchanged.
    Established,
    /// The client closed the connection.
    Closed,
    /// The session ended on an error.
    Failed,
}

/// What one read from the stream gave.
#[derive(Debug)]
pub enum ReadEvent {
    /// The bytes that were read; none means that nothing new has arrived.
    Bytes(Vec<u8>),
    /// The read would have blocked: nothing new has arrived.
    WouldBlock,
    /// The read failed for any other reason.
    Failed(std::io::Error),
}

/// What the caller does next.
#[derive(Debug)]
pub enum Step {
    /// Go round the loop again.
    Continue,
    /// Hand this frame to the handler, and report what the handler returned.
    Dispatch(Frame),
    /// The client closed the connection: leave the loop, with success.
    Finished,
    /// Leave the loop with this error.
    Abort(WebSocketError),
}

/// Whether a session in this state has ended.
pub open spec fn is_terminal(state: SessionState) -> bool {
    state == SessionState::Closed || state == SessionState::Failed
}

/// The milliseconds after which an established session sends a ping.
pub const KEEPALIVE_INTERVAL_MS: u64 = 5000;

/// Whether a ping is due at time `now` when the last keepalive time is `last`.
pub open spec fn ping_due(last: u64, now: u64) -> bool {
    now - last > KEEPALIVE_INTERVAL_MS
}

/// The text of the error for a frame that failed to decode with `e`.
pub open spec fn protocol_error_text(e: FrameError) -> Seq<char> {
    "Error parsing frame: "@ + e.text()
}

/// What a decoded frame, or the failure to decode one, means for an
/// established session: the step to take and the state after it.
pub open spec fn frame_step(
    decoded: Result<FrameModel, FrameError>,
    step: Step,
    after: SessionState,
) -> bool {
    match decoded {
        Ok(FrameModel::Close) => step is Finished && after == SessionState::Closed,
        Ok(frame) => {
            &&& step is Dispatch
            &&& step->Dispatch_0@ == frame
            &&& after == SessionState::Established
        },
        Err(e) => {
            &&& step is Abort
            &&& step->Abort_0 is ProtocolError
            &&& step->Abort_0->ProtocolError_0@ == protocol_error_text(e)
            &&& after == SessionState::Failed
        },
    }
}

/// What one read means for an established session: the step to take and the
/// state after it.
pub open spec fn read_step(event: ReadEvent, step: Step, after: SessionState) -> bool {
    match event {
        ReadEvent::WouldBlock => step is Continue && after == SessionState::Established,
        ReadEvent::Failed(cause) => {
            &&& step is Abort
            &&& step->Abort_0 == WebSocketError::IoError(cause)
            &&& after == SessionState::Failed
        },
        ReadEvent::Bytes(bytes) => if bytes@.len() == 0 {
            step is Continue && after == SessionState::Established
        } else {
            frame_step(decode(bytes@), step, after)
        },
    }
}

/// One connection's session. Times are milliseconds on a monotonic clock.
pub struct WebSocket {
    state: SessionState,
    last_ping: u64,
    id: String,
}

impl WebSocket {
    /// The state of the session.
    pub closed spec fn phase(&self) -> SessionState {
        self.state
    }

    /// The time of the last keepalive: when the session began, or when the
    /// last ping was due and sent.
    pub closed spec fn pinged_at(&self) -> u64 {
        self.last_ping
    }

    /// The session's identifier; it is kept and not used yet.
    pub closed spec fn ident(&self) -> Seq<char> {
        self.id@
    }

    /// A session for a stream that was accepted at time `now`.
    pub fn new(now: u64) -> (ws: WebSocket)
        ensures
            ws.phase() == SessionState::Connecting,
            ws.pinged_at() == now,
            ws.ident() == Seq::<char>::empty(),
    {
        WebSocket { state: SessionState::Connecting, last_ping: now, id: String::new() }
    }

    /// Reads the state of the session.
    pub fn state(&self) -> (s: SessionState)
        ensures
            s == self.phase(),
    {
        self.state
    }

    /// Reads the time of the last keepalive.
    pub fn last_ping(&self) -> (t: u64)
        ensures
            t == self.pinged_at(),
    {
        self.last_ping
    }

    /// Answers the upgrade request that the first read gave. On success the
    /// response is to be written back and the session is established; on any
    /// error the session has failed.
    pub fn connect(&mut self, request: &[u8]) -> (r: Result<Vec<u8>, WebSocketError>)
        requires
            old(self).phase() == SessionState::Connecting,
        ensures
            handshake_result(request@, r),
            final(self).phase() == if r is Ok {
                SessionState::Established
            } else {
                SessionState::Failed
            },
            final(self).pinged_at() == old(self).pinged_at(),
            final(self).ident() == old(self).ident(),
    {
        let r = handle_websocket_handshake(request);
        match &r {
            Ok(_) => {
                self.state = SessionState::Established;
            },
            Err(_) => {
                self.state = SessionState::Failed;
            },
        }
        r
    }

    /// Decides at time `now` whether a ping is due: if more than the
    /// keepalive interval has passed since the last keepalive time, gives the
    /// ping frame to send and takes `now` as the new keepalive time.
    pub fn poll_keepalive(&mut self, now: u64) -> (ping: Option<Vec<u8>>)
        requires
            old(self).phase() == SessionState::Established,
        ensures
            ping is Some <==> ping_due(old(self).pinged_at(), now),
            ping is Some ==> ping->Some_0@ == ping_frame(),
            final(self).pinged_at() == if ping is Some {
                now
            } else {
                old(self).pinged_at()
            },
            final(self).phase() == SessionState::Established,
            final(self).ident() == old(self).ident(),
    {
        if now > self.last_ping && now - self.last_ping > KEEPALIVE_INTERVAL_MS {
            self.last_ping = now;
            Some(encode_ping())
        } else {
            None
        }
    }

    /// Decides what one read means for an established session. Bytes are
    /// decoded as one frame: a close frame ends the session, any other frame
    /// goes to the handler, and a frame that does not decode fails the
    /// session. No bytes and a read that would block change nothing.
    pub fn handle_connection(&mut self, event: ReadEvent) -> (step: Step)
        requires
            old(self).phase() == SessionState::Established,
        ensures
            final(self).pinged_at() == old(self).pinged_at(),
            final(self).ident() == old(self).ident(),
            read_step(event, step, final(self).phase()),
    {
        match event {
            ReadEvent::WouldBlock => Step::Continue,
            ReadEvent::Failed(e) => {
                self.state = SessionState::Failed;
                Step::Abort(WebSocketError::IoError(e))
            },
            ReadEvent::Bytes(bytes) => {
                if bytes.len() == 0 {
                    return Step::Continue;
                }
                match parse_frame(bytes.as_slice()) {
                    Ok(Frame::Close) => {
                        self.state = SessionState::Closed;
                        Step::Finished
                    },
                    Ok(frame) => Step::Dispatch(frame),
                    Err(e) => {
                        self.state = SessionState::Failed;
                        let text = String::from_str("Error parsing frame: ").concat(e.message());
                        Step::Abort(WebSocketError::ProtocolError(text))
                    },
                }
            },
        }
    }

    /// Takes in what the handler returned for a dispatched frame: its error
    /// fails the session and is the error that the session ends with.
    pub fn handler_returned(&mut self, outcome: Result<(), WebSocketError>) -> (step: Step)
        requires
            old(self).phase() == SessionState::Established,
        ensures
            final(self).pinged_at() == old(self).pinged_at(),
            final(self).ident() == old(self).ident(),
            match outcome {
                Ok(_) => step is Continue && final(self).phase() == SessionState::Established,
                Err(e) => step is Abort && step->Abort_0 == e && final(self).phase()
                    == SessionState::Failed,
            },
    {
        match outcome {
            Ok(_) => Step::Continue,
            Err(e) => {
                self.state = SessionState::Failed;
                Step::Abort(e)
            },
        }
    }

    /// Takes in that a read or a write on the stream failed: a session that
    /// has not ended yet has failed, and the transport's error is the error
    /// that it ends with. A session that has ended stays as it is.
    pub fn transport_failed(&mut self, cause: std::io::Error) -> (e: WebSocketError)
        ensures
            e == WebSocketError::IoError(cause),
            final(self).phase() == if is_terminal(old(self).phase()) {
                old(self).phase()
            } else {
                SessionState::Failed
            },
            final(self).pinged_at() == old(self).pinged_at(),
            final(self).ident() == old(self).ident(),
    {
        match self.state {
            SessionState::Connecting | SessionState::Established => {
                self.state = SessionState::Failed;
            },
            SessionState::Closed | SessionState::Failed => {},
        }
        WebSocketError::IoError(cause)
    }

    /// The frame that carries the text `data` to the client; the caller
    /// writes it in one piece and flushes.
    pub fn send_text(&self, data: &str) -> (frame: Vec<u8>)
        ensures
            frame@ == text_frame(data.spec_bytes()),
    {
        encode_text(data.as_bytes())
    }
}

} // verus!
