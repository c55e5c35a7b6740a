//! What holds of the frame codec for every buffer and every payload.

use vstd::prelude::*;
use crate::bytes::{be16, from_be16};
use crate::frame::{
    apply_mask,
    declared_len,
    decode,
    frame_for,
    header_len,
    is_masked,
    length_field,
    mask_key,
    opcode_of,
    payload_len,
    server_header,
    text_frame,
    wire_payload,
    FrameError,
    FrameModel,
    OPCODE_BINARY,
    OPCODE_CLOSE,
    OPCODE_PING,
    OPCODE_PONG,
    OPCODE_TEXT,
};

verus! {

/// How many bytes of an unmasked frame stand before its payload.
pub open spec fn unmasked_header_len(frame: Seq<u8>) -> int {
    if frame[1] == 126 {
        4
    } else if frame[1] == 127 {
        10
    } else {
        2
    }
}

/// The frame that a client sends for an unmasked frame and a masking key:
/// the header with the mask flag set, the key, and the masked payload.
pub open spec fn client_masked(frame: Seq<u8>, key: Seq<u8>) -> Seq<u8> {
    let h = unmasked_header_len(frame);
    frame.subrange(0, h).update(1, (frame[1] + 128) as u8) + key + apply_mask(
        frame.subrange(h, frame.len() as int),
        key,
    )
}

/// Whether an error says that the buffer is too short.
pub open spec fn is_too_short(e: FrameError) -> bool {
    e == FrameError::TooShort || e == FrameError::TooShortForExtendedLength || e
        == FrameError::TooShortForMaskAndData
}

/// Masking twice with one key gives the data back.
pub proof fn lemma_mask_twice(data: Seq<u8>, key: Seq<u8>)
    requires
        key.len() == 4,
    ensures
        apply_mask(apply_mask(data, key), key) == data,
{
    assert forall|i: int| 0 <= i < data.len() implies apply_mask(apply_mask(data, key), key)[i]
        == data[i] by {
        let a = data[i];
        let k = key[i % 4];
        assert((a ^ k) ^ k == a) by (bit_vector);
    }
    assert(apply_mask(apply_mask(data, key), key) =~= data);
}

/// A text frame of up to 65535 bytes that the server encodes, masked as a
/// client masks with any key, decodes to the payload it was made from.
pub proof fn lemma_text_round_trip(payload: Seq<u8>, key: Seq<u8>)
    requires
        payload.len() <= 65535,
        key.len() == 4,
    ensures
        decode(client_masked(text_frame(payload), key)) == Ok::<FrameModel, FrameError>(
            FrameModel::Data(payload),
        ),
{
    let len = payload.len();
    let frame = text_frame(payload);
    let header = server_header(0x81, len);
    let wire = client_masked(frame, key);
    let h = unmasked_header_len(frame);
    assert(frame[0] == 0x81u8);
    assert(h == header.len());
    assert(frame.subrange(h, frame.len() as int) =~= payload);
    assert(wire[0] == 0x81u8);
    assert(wire[1] == frame[1] + 128);
    assert(wire.len() == h + 4 + len);
    assert(opcode_of(wire) == OPCODE_TEXT);
    assert(header_len(wire) == h);
    if len > 125 {
        assert(be16(len as u16)[0] == (len / 256) as u8);
        assert(wire[2] == (len / 256) as u8);
        assert(wire[3] == (len % 256) as u8);
        assert(from_be16(wire[2], wire[3]) == len);
    }
    assert(payload_len(wire) == len);
    assert(mask_key(wire) =~= key);
    assert(wire_payload(wire) =~= apply_mask(payload, key));
    lemma_mask_twice(payload, key);
}

/// A text frame of more than 65535 bytes goes out with a 64-bit length, and
/// the decoder refuses that form: such a frame, masked, does not decode.
pub proof fn lemma_long_text_refused(payload: Seq<u8>, key: Seq<u8>)
    requires
        65535 < payload.len() <= u64::MAX,
        key.len() == 4,
    ensures
        decode(client_masked(text_frame(payload), key)) == Err::<FrameModel, FrameError>(
            FrameError::PayloadTooLarge,
        ),
{
    let frame = text_frame(payload);
    let wire = client_masked(frame, key);
    assert(frame[1] == 127u8);
    assert(wire[1] == 255u8);
}

/// A buffer whose mask flag is clear never decodes: every buffer that decodes
/// has its two header bytes and the mask flag set.
pub proof fn lemma_unmasked_rejected(buf: Seq<u8>)
    ensures
        buf.len() >= 2 && !is_masked(buf) ==> decode(buf) == Err::<FrameModel, FrameError>(
            FrameError::NotMasked,
        ),
        decode(buf) is Ok ==> buf.len() >= 2 && is_masked(buf),
{
}

/// A masked frame that announces a 64-bit length is refused as too large,
/// whatever else the buffer holds.
pub proof fn lemma_long_form_rejected(buf: Seq<u8>)
    requires
        buf.len() >= 2,
        is_masked(buf),
        length_field(buf) == 127,
    ensures
        decode(buf) == Err::<FrameModel, FrameError>(FrameError::PayloadTooLarge),
{
}

/// A buffer that is shorter than the frame its header announces is refused
/// as too short, unless it is refused earlier for a clear mask flag or a
/// 64-bit length.
pub proof fn lemma_short_buffer_rejected(buf: Seq<u8>)
    requires
        buf.len() >= 2 ==> is_masked(buf) && length_field(buf) != 127,
        buf.len() < 2 || (length_field(buf) == 126 && buf.len() < 4) || buf.len() < declared_len(
            buf,
        ),
    ensures
        decode(buf) is Err,
        is_too_short(decode(buf)->Err_0),
{
}

/// A decoded frame never reads behind the buffer: a buffer that decodes holds
/// the whole frame that its header announces.
pub proof fn lemma_decoded_in_bounds(buf: Seq<u8>)
    requires
        decode(buf) is Ok,
    ensures
        declared_len(buf) <= buf.len(),
{
}

/// A complete masked frame decodes as its opcode says: text and binary give
/// the unmasked payload as data, close, ping and pong give themselves, and
/// every other opcode is refused as unknown.
pub proof fn lemma_opcode_dispatch(buf: Seq<u8>)
    requires
        buf.len() >= 2,
        is_masked(buf),
        length_field(buf) != 127,
        declared_len(buf) <= buf.len(),
    ensures
        ({
            let op = opcode_of(buf);
            let payload = apply_mask(wire_payload(buf), mask_key(buf));
            let r = decode(buf);
            &&& (op == OPCODE_TEXT || op == OPCODE_BINARY) ==> r == Ok::<FrameModel, FrameError>(
                FrameModel::Data(payload),
            )
            &&& op == OPCODE_CLOSE ==> r == Ok::<FrameModel, FrameError>(FrameModel::Close)
            &&& op == OPCODE_PING ==> r == Ok::<FrameModel, FrameError>(FrameModel::Ping)
            &&& op == OPCODE_PONG ==> r == Ok::<FrameModel, FrameError>(FrameModel::Pong)
            &&& (op != OPCODE_TEXT && op != OPCODE_BINARY && op != OPCODE_CLOSE && op != OPCODE_PING
                && op != OPCODE_PONG) ==> r == Err::<FrameModel, FrameError>(
                FrameError::UnknownOpcode,
            )
        }),
{
    assert(decode(buf) == frame_for(opcode_of(buf), apply_mask(wire_payload(buf), mask_key(buf))));
}

/// The encoder takes the smallest length form that holds the payload's
/// length: one byte up to 125, two more bytes up to 65535, eight beyond.
pub proof fn lemma_smallest_length_form(first: u8, len: nat)
    requires
        len <= u64::MAX,
    ensures
        len <= 125 ==> server_header(first, len).len() == 2,
        125 < len <= 65535 ==> server_header(first, len).len() == 4 && server_header(first, len)[1]
            == 126,
        len > 65535 ==> server_header(first, len).len() == 10 && server_header(first, len)[1]
            == 127,
{
}

} // verus!
