//! The frame codec: client frames in, server frames out.

use vstd::prelude::*;
use crate::bytes::{be16, be64, from_be16, push_all, push_be64};

verus! {

/// One decoded protocol unit.
#[derive(Debug)]
pub enum Frame {
    /// A text or binary message, already unmasked.
    Data(Vec<u8>),
    Ping,
    Pong,
    Close,
}

/// What a `Frame` stands for in contracts.
pub enum FrameModel {
    Data(Seq<u8>),
    Ping,
    Pong,
    Close,
}

impl View for Frame {
    type V = FrameModel;

    open spec fn view(&self) -> FrameModel {
        match self {
            Frame::Data(payload) => FrameModel::Data(payload@),
            Frame::Ping => FrameModel::Ping,
            Frame::Pong => FrameModel::Pong,
            Frame::Close => FrameModel::Close,
        }
    }
}

/// Why a buffer was not accepted as a client frame.
#[derive(Clone, Copy, Debug, PartialEq, Eq, Structural)]
pub enum FrameError {
    /// Fewer than the two bytes every frame starts with.
    TooShort,
    /// The mask flag is clear; a client must mask what it sends.
    NotMasked,
    /// The 16-bit length was announced and is not all there.
    TooShortForExtendedLength,
    /// A 64-bit length was announced; such frames are not taken.
    PayloadTooLarge,
    /// The masking key or the payload is not all there.
    TooShortForMaskAndData,
    /// The opcode is none of text, binary, close, ping, pong.
    UnknownOpcode,
}

impl FrameError {
    /// The text that describes this error.
    pub open spec fn text(self) -> Seq<char> {
        match self {
            FrameError::TooShort => "Frame too short"@,
            FrameError::NotMasked => "Frames from client must be masked"@,
            FrameError::TooShortForExtendedLength => "Frame too short for extended payload length"@,
            FrameError::PayloadTooLarge => "Extended payload length too large"@,
            FrameError::TooShortForMaskAndData => "Frame too short for mask and data"@,
            FrameError::UnknownOpcode => "Unknown opcode"@,
        }
    }

    /// Describes this error in words.
    pub fn message(&self) -> (msg: &'static str)
        ensures
            msg@ == self.text(),
    {
        match self {
            FrameError::TooShort => "Frame too short",
            FrameError::NotMasked => "Frames from client must be masked",
            FrameError::TooShortForExtendedLength => "Frame too short for extended payload length",
            FrameError::PayloadTooLarge => "Extended payload length too large",
            FrameError::TooShortForMaskAndData => "Frame too short for mask and data",
            FrameError::UnknownOpcode => "Unknown opcode",
        }
    }
}

pub const OPCODE_TEXT: u8 = 0x1;

pub const OPCODE_BINARY: u8 = 0x2;

pub const OPCODE_CLOSE: u8 = 0x8;

pub const OPCODE_PING: u8 = 0x9;

pub const OPCODE_PONG: u8 = 0xA;

/// The opcode of a frame: the low four bits of its first byte.
pub open spec fn opcode_of(buf: Seq<u8>) -> u8 {
    buf[0] % 16
}

/// The mask flag of a frame: the high bit of its second byte.
pub open spec fn is_masked(buf: Seq<u8>) -> bool {
    buf[1] >= 128
}

/// The length field of a frame: the low seven bits of its second byte.
pub open spec fn length_field(buf: Seq<u8>) -> int {
    buf[1] as int % 128
}

/// How many bytes stand before the masking key.
pub open spec fn header_len(buf: Seq<u8>) -> int {
    if length_field(buf) == 126 {
        4
    } else {
        2
    }
}

/// The payload length that the header announces (for a length field below 127).
pub open spec fn payload_len(buf: Seq<u8>) -> int {
    if length_field(buf) == 126 {
        from_be16(buf[2], buf[3])
    } else {
        length_field(buf)
    }
}

/// The size of the whole frame that the header announces: header, key, payload.
pub open spec fn declared_len(buf: Seq<u8>) -> int {
    header_len(buf) + 4 + payload_len(buf)
}

/// The masking key of a frame.
pub open spec fn mask_key(buf: Seq<u8>) -> Seq<u8> {
    buf.subrange(header_len(buf), header_len(buf) + 4)
}

/// The payload of a frame as it stands on the wire.
pub open spec fn wire_payload(buf: Seq<u8>) -> Seq<u8> {
    buf.subrange(header_len(buf) + 4, declared_len(buf))
}

/// `data` with byte `i` combined by exclusive or with byte `i mod 4` of `key`.
/// Masking and unmasking are this one operation.
pub open spec fn apply_mask(data: Seq<u8>, key: Seq<u8>) -> Seq<u8> {
    Seq::new(data.len(), |i: int| data[i] ^ key[i % 4])
}

/// The frame that an opcode and an unmasked payload make.
pub open spec fn frame_for(opcode: u8, payload: Seq<u8>) -> Result<FrameModel, FrameError> {
    if opcode == OPCODE_TEXT || opcode == OPCODE_BINARY {
        Ok(FrameModel::Data(payload))
    } else if opcode == OPCODE_CLOSE {
        Ok(FrameModel::Close)
    } else if opcode == OPCODE_PING {
        Ok(FrameModel::Ping)
    } else if opcode == OPCODE_PONG {
        Ok(FrameModel::Pong)
    } else {
        Err(FrameError::UnknownOpcode)
    }
}

/// What decoding a buffer received from a client gives. The checks come in
/// this order; bytes behind the announced frame are not looked at.
pub open spec fn decode(buf: Seq<u8>) -> Result<FrameModel, FrameError> {
    if buf.len() < 2 {
        Err(FrameError::TooShort)
    } else if !is_masked(buf) {
        Err(FrameError::NotMasked)
    } else if length_field(buf) == 126 && buf.len() < 4 {
        Err(FrameError::TooShortForExtendedLength)
    } else if length_field(buf) == 127 {
        Err(FrameError::PayloadTooLarge)
    } else if buf.len() < declared_len(buf) {
        Err(FrameError::TooShortForMaskAndData)
    } else {
        frame_for(opcode_of(buf), apply_mask(wire_payload(buf), mask_key(buf)))
    }
}

/// Whether a decoded frame is what the model says.
pub open spec fn agrees(r: Result<Frame, FrameError>, model: Result<FrameModel, FrameError>) -> bool {
    match r {
        Ok(frame) => model == Ok::<FrameModel, FrameError>(frame@),
        Err(e) => model == Err::<FrameModel, FrameError>(e),
    }
}

/// Decodes one client frame from `buffer`.
pub fn parse_frame(buffer: &[u8]) -> (r: Result<Frame, FrameError>)
    ensures
        agrees(r, decode(buffer@)),
{
    if buffer.len() < 2 {
        return Err(FrameError::TooShort);
    }
    let first_byte: u8 = buffer[0];
    let second_byte: u8 = buffer[1];
    let opcode: u8 = first_byte & 0x0F;
    let masked: bool = (second_byte & 0x80) != 0;
    let field: u8 = second_byte & 0x7F;
    assert(opcode == first_byte % 16) by (bit_vector)
        requires
            opcode == first_byte & 0x0F,
    ;
    assert(masked == (second_byte >= 128)) by (bit_vector)
        requires
            masked == ((second_byte & 0x80) != 0),
    ;
    assert(field == second_byte % 128) by (bit_vector)
        requires
            field == second_byte & 0x7F,
    ;
    if !masked {
        return Err(FrameError::NotMasked);
    }
    let mut payload_len: usize = field as usize;
    let mut offset: usize = 2;
    if field == 126 {
        if buffer.len() < 4 {
            return Err(FrameError::TooShortForExtendedLength);
        }
        payload_len = (buffer[2] as usize) * 256 + (buffer[3] as usize);
        offset = 4;
    } else if field == 127 {
        return Err(FrameError::PayloadTooLarge);
    }
    if buffer.len() < offset + 4 + payload_len {
        return Err(FrameError::TooShortForMaskAndData);
    }
    let key_at: usize = offset;
    offset = offset + 4;
    let mut data: Vec<u8> = Vec::with_capacity(payload_len);
    let mut i: usize = 0;
    while i < payload_len
        invariant
            i <= payload_len,
            key_at + 4 == offset,
            offset + payload_len <= buffer.len(),
            data@.len() == i,
            forall|j: int| 0 <= j < i ==> data@[j] == buffer@[offset + j] ^ buffer@[key_at + j % 4],
        decreases payload_len - i,
    {
        data.push(buffer[offset + i] ^ buffer[key_at + i % 4]);
        i += 1;
    }
    assert(data@ =~= apply_mask(wire_payload(buffer@), mask_key(buffer@)));
    if opcode == OPCODE_TEXT || opcode == OPCODE_BINARY {
        Ok(Frame::Data(data))
    } else if opcode == OPCODE_CLOSE {
        Ok(Frame::Close)
    } else if opcode == OPCODE_PING {
        Ok(Frame::Ping)
    } else if opcode == OPCODE_PONG {
        Ok(Frame::Pong)
    } else {
        Err(FrameError::UnknownOpcode)
    }
}

/// The header of a server frame with the given first byte for a payload of
/// `len` bytes: the smallest of the three length forms that holds `len`.
pub open spec fn server_header(first: u8, len: nat) -> Seq<u8> {
    if len <= 125 {
        seq![first, len as u8]
    } else if len <= 65535 {
        seq![first, 126u8] + be16(len as u16)
    } else {
        seq![first, 127u8] + be64(len as u64)
    }
}

/// The unmasked text frame that carries `payload` to the client.
pub open spec fn text_frame(payload: Seq<u8>) -> Seq<u8> {
    server_header(0x81, payload.len()) + payload
}

/// The ping frame: final, opcode 9, no payload.
pub open spec fn ping_frame() -> Seq<u8> {
    seq![0x89u8, 0x00u8]
}

/// The pong frame: final, opcode 10, no payload.
pub open spec fn pong_frame() -> Seq<u8> {
    seq![0x8Au8, 0x00u8]
}

/// Encodes `data` as one unmasked text frame.
pub fn encode_text(data: &[u8]) -> (frame: Vec<u8>)
    ensures
        frame@ == text_frame(data@),
{
    let mut frame: Vec<u8> = Vec::new();
    frame.push(0x81);
    let length: usize = data.len();
    if length <= 125 {
        frame.push(length as u8);
        assert(frame@ =~= server_header(0x81, data@.len()));
    } else if length <= 65535 {
        frame.push(126);
        frame.push((length / 256) as u8);
        frame.push((length % 256) as u8);
        assert(frame@ =~= server_header(0x81, data@.len()));
    } else {
        frame.push(127);
        push_be64(&mut frame, length as u64);
        assert(frame@ =~= server_header(0x81, data@.len()));
    }
    push_all(&mut frame, data);
    frame
}

/// Encodes the ping frame.
pub fn encode_ping() -> (frame: Vec<u8>)
    ensures
        frame@ == ping_frame(),
{
    let mut frame: Vec<u8> = Vec::new();
    frame.push(0x89);
    frame.push(0x00);
    assert(frame@ =~= ping_frame());
    frame
}

/// Encodes the pong frame.
pub fn encode_pong() -> (frame: Vec<u8>)
    ensures
        frame@ == pong_frame(),
{
    let mut frame: Vec<u8> = Vec::new();
    frame.push(0x8A);
    frame.push(0x00);
    assert(frame@ =~= pong_frame());
    frame
}

} // verus!
