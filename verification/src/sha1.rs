//! The SHA-1 digest (FIPS 180-4), stated over byte sequences and computed on
//! slices.

use vstd::prelude::*;
use crate::bytes::{be64, byte_of, nth_byte, push_all, push_be64};

verus! {

/// The five working words of the hash.
#[derive(Clone, Copy, Debug, PartialEq, Eq, Structural)]
pub struct HashState {
    pub a: u32,
    pub b: u32,
    pub c: u32,
    pub d: u32,
    pub e: u32,
}

/// The largest message, in bytes, whose bit length still fits the 64-bit
/// length field of the padding.
pub const MAX_MESSAGE_LEN: u64 = 0x1FFF_FFFF_FFFF_FFFF;

/// `x` rotated left by `n` bits, for `0 < n < 32`.
pub open spec fn rotl(x: u32, n: u32) -> u32 {
    (x << n) | (x >> ((32 - n) as u32))
}

/// The word that four bytes spell, most significant first.
pub open spec fn word_be(b0: u8, b1: u8, b2: u8, b3: u8) -> u32 {
    ((b0 as u32) << 24) | ((b1 as u32) << 16) | ((b2 as u32) << 8) | (b3 as u32)
}

/// The four bytes of a word, most significant first.
pub open spec fn word_bytes(w: u32) -> Seq<u8> {
    seq![byte_of(w as u64, 3), byte_of(w as u64, 2), byte_of(w as u64, 1), byte_of(w as u64, 0)]
}

/// `n` zero bytes.
pub open spec fn zeros(n: nat) -> Seq<u8> {
    Seq::new(n, |i: int| 0u8)
}

/// How many zero bytes the padding of a message of `len` bytes holds: the
/// fewest that bring the padded length to a multiple of 64.
pub open spec fn zero_fill(len: nat) -> nat {
    ((119 - (len % 64)) % 64) as nat
}

/// The padded message: the message, one byte 0x80, the zero fill, and the
/// message's length in bits as eight bytes.
pub open spec fn padded(msg: Seq<u8>) -> Seq<u8> {
    msg + seq![0x80u8] + zeros(zero_fill(msg.len())) + be64((msg.len() * 8) as u64)
}

/// Word `t` (below 16) of the block that starts at `base`.
pub open spec fn block_word(data: Seq<u8>, base: int, t: int) -> u32 {
    word_be(
        data[base + 4 * t],
        data[base + 4 * t + 1],
        data[base + 4 * t + 2],
        data[base + 4 * t + 3],
    )
}

/// Word `t` of the message schedule of the block that starts at `base`.
pub open spec fn schedule(data: Seq<u8>, base: int, t: int) -> u32
    decreases t,
{
    if t < 16 {
        block_word(data, base, t)
    } else {
        rotl(
            schedule(data, base, t - 3) ^ schedule(data, base, t - 8) ^ schedule(data, base, t - 14)
                ^ schedule(data, base, t - 16),
            1,
        )
    }
}

/// The logical function of round `t`.
pub open spec fn round_fn(t: int, b: u32, c: u32, d: u32) -> u32 {
    if t < 20 {
        (b & c) | (!b & d)
    } else if t < 40 {
        b ^ c ^ d
    } else if t < 60 {
        (b & c) | (b & d) | (c & d)
    } else {
        b ^ c ^ d
    }
}

/// The constant of round `t`.
pub open spec fn round_const(t: int) -> u32 {
    if t < 20 {
        0x5A827999
    } else if t < 40 {
        0x6ED9EBA1
    } else if t < 60 {
        0x8F1BBCDC
    } else {
        0xCA62C1D6
    }
}

/// One round: the working words after round `t` with schedule word `w`.
pub open spec fn round(s: HashState, t: int, w: u32) -> HashState {
    HashState {
        a: rotl(s.a, 5).wrapping_add(round_fn(t, s.b, s.c, s.d)).wrapping_add(s.e).wrapping_add(
            round_const(t),
        ).wrapping_add(w),
        b: s.a,
        c: rotl(s.b, 30),
        d: s.c,
        e: s.d,
    }
}

/// The working words after the first `t` rounds on the block at `base`.
pub open spec fn after_rounds(data: Seq<u8>, base: int, start: HashState, t: int) -> HashState
    decreases t,
{
    if t <= 0 {
        start
    } else {
        round(after_rounds(data, base, start, t - 1), t - 1, schedule(data, base, t - 1))
    }
}

/// The sum, word by word and modulo 2^32, of two states.
pub open spec fn sum(h: HashState, r: HashState) -> HashState {
    HashState {
        a: h.a.wrapping_add(r.a),
        b: h.b.wrapping_add(r.b),
        c: h.c.wrapping_add(r.c),
        d: h.d.wrapping_add(r.d),
        e: h.e.wrapping_add(r.e),
    }
}

/// The hash value after the block at `base` has been taken in.
pub open spec fn absorb(h: HashState, data: Seq<u8>, base: int) -> HashState {
    sum(h, after_rounds(data, base, h, 80))
}

/// The hash value before any block.
pub open spec fn initial_state() -> HashState {
    HashState { a: 0x67452301, b: 0xEFCDAB89, c: 0x98BADCFE, d: 0x10325476, e: 0xC3D2E1F0 }
}

/// The hash value after the first `blocks` blocks of `data`.
pub open spec fn state_after(data: Seq<u8>, blocks: int) -> HashState
    decreases blocks,
{
    if blocks <= 0 {
        initial_state()
    } else {
        absorb(state_after(data, blocks - 1), data, 64 * (blocks - 1))
    }
}

/// The twenty bytes of a hash value.
pub open spec fn state_bytes(h: HashState) -> Seq<u8> {
    word_bytes(h.a) + word_bytes(h.b) + word_bytes(h.c) + word_bytes(h.d) + word_bytes(h.e)
}

/// The SHA-1 digest of `msg`.
pub open spec fn digest(msg: Seq<u8>) -> Seq<u8> {
    state_bytes(state_after(padded(msg), padded(msg).len() as int / 64))
}

fn rotate(x: u32, n: u32) -> (r: u32)
    requires
        0 < n < 32,
    ensures
        r == rotl(x, n),
{
    (x << n) | (x >> (32 - n))
}

fn read_word(data: &[u8], at: usize) -> (w: u32)
    requires
        at + 4 <= data.len(),
    ensures
        w == word_be(data@[at as int], data@[at + 1], data@[at + 2], data@[at + 3]),
{
    ((data[at] as u32) << 24) | ((data[at + 1] as u32) << 16) | ((data[at + 2] as u32) << 8) | (
    data[at + 3] as u32)
}

fn push_word(out: &mut Vec<u8>, w: u32)
    ensures
        final(out)@ == old(out)@ + word_bytes(w),
{
    let ghost before = out@;
    out.push(nth_byte(w as u64, 3));
    out.push(nth_byte(w as u64, 2));
    out.push(nth_byte(w as u64, 1));
    out.push(nth_byte(w as u64, 0));
    assert(out@ =~= before + word_bytes(w));
}

fn pad(data: &[u8]) -> (out: Vec<u8>)
    requires
        data.len() <= MAX_MESSAGE_LEN,
    ensures
        out@ == padded(data@),
        out@.len() % 64 == 0,
{
    let mut out: Vec<u8> = Vec::new();
    push_all(&mut out, data);
    out.push(0x80);
    let fill: usize = (119 - data.len() % 64) % 64;
    let mut k: usize = 0;
    while k < fill
        invariant
            k <= fill,
            out@ == data@ + seq![0x80u8] + zeros(k as nat),
        decreases fill - k,
    {
        out.push(0);
        k += 1;
        assert(out@ =~= data@ + seq![0x80u8] + zeros(k as nat));
    }
    let bits: u64 = (data.len() as u64) * 8;
    push_be64(&mut out, bits);
    out
}

fn expand(data: &[u8], base: usize) -> (w: Vec<u32>)
    requires
        base + 64 <= data.len(),
    ensures
        w@.len() == 80,
        forall|t: int| 0 <= t < 80 ==> w@[t] == schedule(data@, base as int, t),
{
    let mut w: Vec<u32> = Vec::with_capacity(80);
    let mut t: usize = 0;
    while t < 16
        invariant
            t <= 16,
            base + 64 <= data.len(),
            w@.len() == t,
            forall|j: int| 0 <= j < t ==> w@[j] == schedule(data@, base as int, j),
        decreases 16 - t,
    {
        w.push(read_word(data, base + 4 * t));
        t += 1;
    }
    while t < 80
        invariant
            16 <= t <= 80,
            w@.len() == t,
            forall|j: int| 0 <= j < t ==> w@[j] == schedule(data@, base as int, j),
        decreases 80 - t,
    {
        let x: u32 = w[t - 3] ^ w[t - 8] ^ w[t - 14] ^ w[t - 16];
        w.push(rotate(x, 1));
        t += 1;
    }
    w
}

fn mix(t: usize, b: u32, c: u32, d: u32) -> (f: u32)
    ensures
        f == round_fn(t as int, b, c, d),
{
    if t < 20 {
        (b & c) | (!b & d)
    } else if t < 40 {
        b ^ c ^ d
    } else if t < 60 {
        (b & c) | (b & d) | (c & d)
    } else {
        b ^ c ^ d
    }
}

fn constant(t: usize) -> (k: u32)
    ensures
        k == round_const(t as int),
{
    if t < 20 {
        0x5A827999
    } else if t < 40 {
        0x6ED9EBA1
    } else if t < 60 {
        0x8F1BBCDC
    } else {
        0xCA62C1D6
    }
}

fn process_block(h: HashState, data: &[u8], base: usize) -> (next: HashState)
    requires
        base + 64 <= data.len(),
    ensures
        next == absorb(h, data@, base as int),
{
    let w = expand(data, base);
    let mut s: HashState = h;
    let mut t: usize = 0;
    while t < 80
        invariant
            t <= 80,
            w@.len() == 80,
            forall|j: int| 0 <= j < 80 ==> w@[j] == schedule(data@, base as int, j),
            s == after_rounds(data@, base as int, h, t as int),
        decreases 80 - t,
    {
        let a: u32 = rotate(s.a, 5).wrapping_add(mix(t, s.b, s.c, s.d)).wrapping_add(
            s.e,
        ).wrapping_add(constant(t)).wrapping_add(w[t]);
        s = HashState { a, b: s.a, c: rotate(s.b, 30), d: s.c, e: s.d };
        t += 1;
    }
    HashState {
        a: h.a.wrapping_add(s.a),
        b: h.b.wrapping_add(s.b),
        c: h.c.wrapping_add(s.c),
        d: h.d.wrapping_add(s.d),
        e: h.e.wrapping_add(s.e),
    }
}

/// Computes the SHA-1 digest of `data`: twenty bytes. A message too long for
/// the length field of the padding has no digest.
pub fn hash(data: &[u8]) -> (r: Option<Vec<u8>>)
    ensures
        r is Some <==> data@.len() <= MAX_MESSAGE_LEN,
        r is Some ==> r->Some_0@ == digest(data@) && r->Some_0@.len() == 20,
{
    if data.len() as u64 > MAX_MESSAGE_LEN {
        return None;
    }
    let message = pad(data);
    let blocks: usize = message.len() / 64;
    let mut h: HashState = HashState {
        a: 0x67452301,
        b: 0xEFCDAB89,
        c: 0x98BADCFE,
        d: 0x10325476,
        e: 0xC3D2E1F0,
    };
    let mut n: usize = 0;
    while n < blocks
        invariant
            n <= blocks,
            blocks == message@.len() / 64,
            64 * blocks <= message@.len(),
            h == state_after(message@, n as int),
        decreases blocks - n,
    {
        assert(64 * n + 64 <= message.len());
        h = process_block(h, message.as_slice(), 64 * n);
        n += 1;
    }
    let mut out: Vec<u8> = Vec::with_capacity(20);
    push_word(&mut out, h.a);
    push_word(&mut out, h.b);
    push_word(&mut out, h.c);
    push_word(&mut out, h.d);
    push_word(&mut out, h.e);
    Some(out)
}

} // verus!
