//! Base64 with the standard alphabet and padding (RFC 4648).

use vstd::prelude::*;

verus! {

/// The padding character, `=`.
pub const PAD: u8 = 61;

/// The character that stands for the six-bit value `v`.
pub open spec fn symbol(v: u8) -> u8 {
    if v < 26 {
        (65 + v) as u8
    } else if v < 52 {
        (97 + (v - 26)) as u8
    } else if v < 62 {
        (48 + (v - 52)) as u8
    } else if v == 62 {
        43
    } else {
        47
    }
}

/// Byte `i` of `data`, or zero behind its end.
pub open spec fn byte_or_zero(data: Seq<u8>, i: int) -> u8 {
    if 0 <= i < data.len() {
        data[i]
    } else {
        0
    }
}

/// The six-bit value at place `k` (0 to 3) of a group of three bytes.
pub open spec fn sextet(b0: u8, b1: u8, b2: u8, k: int) -> u8 {
    if k == 0 {
        b0 >> 2
    } else if k == 1 {
        ((b0 & 0x03) << 4) | (b1 >> 4)
    } else if k == 2 {
        ((b1 & 0x0F) << 2) | (b2 >> 6)
    } else {
        b2 & 0x3F
    }
}

/// The length of the encoding of `len` bytes.
pub open spec fn encoded_len(len: nat) -> nat {
    4 * ((len + 2) / 3)
}

/// Character `j` of the encoding of `data`: each group of three bytes gives
/// four characters, and a place that no byte of `data` reaches holds `=`.
pub open spec fn encoded_at(data: Seq<u8>, j: int) -> u8 {
    let g = j / 4;
    let k = j % 4;
    if k >= 2 && 3 * g + k - 1 >= data.len() {
        PAD
    } else {
        symbol(
            sextet(
                byte_or_zero(data, 3 * g),
                byte_or_zero(data, 3 * g + 1),
                byte_or_zero(data, 3 * g + 2),
                k,
            ),
        )
    }
}

/// The Base64 encoding of `data`.
pub open spec fn encoding(data: Seq<u8>) -> Seq<u8> {
    Seq::new(encoded_len(data.len()), |j: int| encoded_at(data, j))
}

fn symbol_of(b0: u8, b1: u8, b2: u8, k: u8) -> (c: u8)
    requires
        k < 4,
    ensures
        c == symbol(sextet(b0, b1, b2, k as int)),
{
    let v: u8 = if k == 0 {
        b0 >> 2
    } else if k == 1 {
        ((b0 & 0x03) << 4) | (b1 >> 4)
    } else if k == 2 {
        ((b1 & 0x0F) << 2) | (b2 >> 6)
    } else {
        b2 & 0x3F
    };
    assert(v < 64) by (bit_vector)
        requires
            v == b0 >> 2 || v == ((b0 & 0x03) << 4) | (b1 >> 4) || v == ((b1 & 0x0F) << 2) | (b2
                >> 6) || v == b2 & 0x3F,
    ;
    if v < 26 {
        65 + v
    } else if v < 52 {
        97 + (v - 26)
    } else if v < 62 {
        48 + (v - 52)
    } else if v == 62 {
        43
    } else {
        47
    }
}

/// Encodes `data` as Base64. Data whose encoding would be longer than a
/// vector can be has none.
pub fn encode(data: &[u8]) -> (r: Option<Vec<u8>>)
    ensures
        r is Some <==> encoded_len(data@.len()) <= usize::MAX,
        r is Some ==> r->Some_0@ == encoding(data@),
{
    let len: usize = data.len();
    let groups: usize = if len % 3 == 0 {
        len / 3
    } else {
        len / 3 + 1
    };
    assert(groups == (len + 2) / 3);
    if groups > usize::MAX / 4 {
        return None;
    }
    let mut out: Vec<u8> = Vec::with_capacity(4 * groups);
    let mut g: usize = 0;
    while g < groups
        invariant
            g <= groups,
            groups == (len + 2) / 3,
            len == data@.len(),
            4 * groups <= usize::MAX,
            out@.len() == 4 * g,
            forall|j: int| 0 <= j < 4 * g ==> out@[j] == encoded_at(data@, j),
        decreases groups - g,
    {
        let at: usize = 3 * g;
        let b0: u8 = data[at];
        let b1: u8 = if len - at > 1 {
            data[at + 1]
        } else {
            0
        };
        let b2: u8 = if len - at > 2 {
            data[at + 2]
        } else {
            0
        };
        out.push(symbol_of(b0, b1, b2, 0));
        out.push(symbol_of(b0, b1, b2, 1));
        if len - at > 1 {
            out.push(symbol_of(b0, b1, b2, 2));
        } else {
            out.push(PAD);
        }
        if len - at > 2 {
            out.push(symbol_of(b0, b1, b2, 3));
        } else {
            out.push(PAD);
        }
        assert forall|j: int| 0 <= j < 4 * (g + 1) implies out@[j] == encoded_at(data@, j) by {
            if j >= 4 * g {
                assert(j / 4 == g as int);
                assert(j % 4 == j - 4 * g);
            }
        }
        g += 1;
    }
    assert(out@ =~= encoding(data@));
    Some(out)
}

} // verus!
