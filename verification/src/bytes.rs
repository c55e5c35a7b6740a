//! Small helpers on byte sequences that the codec and the hash share.

use vstd::prelude::*;

verus! {

/// Byte `k` of `n`, counted from the least significant one.
pub open spec fn byte_of(n: u64, k: u64) -> u8 {
    ((n >> (8 * k)) & 0xff) as u8
}

/// The eight bytes of `n`, most significant first.
pub open spec fn be64(n: u64) -> Seq<u8> {
    seq![
        byte_of(n, 7),
        byte_of(n, 6),
        byte_of(n, 5),
        byte_of(n, 4),
        byte_of(n, 3),
        byte_of(n, 2),
        byte_of(n, 1),
        byte_of(n, 0),
    ]
}

/// The two bytes of `n`, most significant first.
pub open spec fn be16(n: u16) -> Seq<u8> {
    seq![(n / 256) as u8, (n % 256) as u8]
}

/// The number that two bytes spell, most significant first.
pub open spec fn from_be16(hi: u8, lo: u8) -> int {
    hi as int * 256 + lo as int
}

/// Computes byte `k` of `n`.
pub fn nth_byte(n: u64, k: u64) -> (b: u8)
    requires
        k < 8,
    ensures
        b == byte_of(n, k),
{
    let shifted: u64 = (n >> (8 * k)) & 0xff;
    assert(shifted <= 0xff) by (bit_vector)
        requires
            shifted == (n >> (8 * k)) & 0xff,
    ;
    shifted as u8
}

/// Appends the big-endian form of `n` to `out`.
pub fn push_be64(out: &mut Vec<u8>, n: u64)
    ensures
        final(out)@ == old(out)@ + be64(n),
{
    let ghost before = out@;
    out.push(nth_byte(n, 7));
    out.push(nth_byte(n, 6));
    out.push(nth_byte(n, 5));
    out.push(nth_byte(n, 4));
    out.push(nth_byte(n, 3));
    out.push(nth_byte(n, 2));
    out.push(nth_byte(n, 1));
    out.push(nth_byte(n, 0));
    assert(out@ =~= before + be64(n));
}

/// Appends every byte of `data` to `out`.
pub fn push_all(out: &mut Vec<u8>, data: &[u8])
    ensures
        final(out)@ == old(out)@ + data@,
{
    let ghost before = out@;
    let mut i: usize = 0;
    while i < data.len()
        invariant
            i <= data.len(),
            out@ == before + data@.take(i as int),
        decreases data.len() - i,
    {
        out.push(data[i]);
        i += 1;
        assert(out@ =~= before + data@.take(i as int));
    }
    assert(data@.take(i as int) =~= data@);
}

/// Whether `data` holds `pattern` at position `at`.
pub open spec fn has_at(data: Seq<u8>, at: int, pattern: Seq<u8>) -> bool {
    &&& 0 <= at
    &&& at + pattern.len() <= data.len()
    &&& data.subrange(at, at + pattern.len()) == pattern
}

/// Tests whether `data` holds `pattern` at position `at`.
pub fn matches_at(data: &[u8], at: usize, pattern: &[u8]) -> (found: bool)
    ensures
        found == has_at(data@, at as int, pattern@),
{
    if at > data.len() || pattern.len() > data.len() - at {
        return false;
    }
    let mut i: usize = 0;
    while i < pattern.len()
        invariant
            at + pattern.len() <= data.len(),
            i <= pattern.len(),
            forall|j: int| 0 <= j < i ==> data@[at + j] == pattern@[j],
        decreases pattern.len() - i,
    {
        if data[at + i] != pattern[i] {
            assert(data@.subrange(at as int, at + pattern.len())[i as int] != pattern@[i as int]);
            return false;
        }
        i += 1;
    }
    assert(data@.subrange(at as int, at + pattern.len()) =~= pattern@);
    true
}

} // verus!
