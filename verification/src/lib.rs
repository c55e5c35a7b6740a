//! Server side of the WebSocket protocol: the opening handshake, the frame
//! codec and the life cycle of one connection, with every function verified
//! against a mathematical model of the wire format.

pub mod base64;
pub mod bytes;
pub mod codec_proofs;
pub mod error;
pub mod frame;
pub mod handshake;
pub mod session;
pub mod sha1;
pub mod text;
