//! Lower-case hexadecimal encoding of byte sequences, with a proved
//! round-trip: decoding an encoding yields the original bytes.

use vstd::prelude::*;

verus! {

/// ASCII code of the lower-case hex digit that denotes the nibble `n`.
pub open spec fn hex_digit_of_nibble(n: u8) -> u8 {
    if n < 10 {
        (48 + n) as u8
    } else {
        (87 + n) as u8
    }
}

/// Whether `c` is the ASCII code of a lower-case hex digit.
pub open spec fn is_hex_digit(c: u8) -> bool {
    (48 <= c && c <= 57) || (97 <= c && c <= 102)
}

/// The nibble denoted by the ASCII hex digit `c`.
pub open spec fn nibble_of_hex_digit(c: u8) -> u8 {
    if c < 58 {
        (c - 48) as u8
    } else {
        (c - 87) as u8
    }
}

/// Lower-case hex encoding of `s`: two digits per byte, high nibble first.
pub open spec fn hex_of(s: Seq<u8>) -> Seq<u8> {
    Seq::new(
        2 * s.len(),
        |i: int|
            if i % 2 == 0 {
                hex_digit_of_nibble(s[i / 2] / 16)
            } else {
                hex_digit_of_nibble(s[i / 2] % 16)
            },
    )
}

/// Whether every byte of `s` is a lower-case hex digit.
pub open spec fn is_hex_seq(s: Seq<u8>) -> bool {
    forall|i: int| 0 <= i < s.len() ==> is_hex_digit(s[i])
}

/// The bytes denoted by an even-length sequence of hex digits.
pub open spec fn unhex(s: Seq<u8>) -> Seq<u8> {
    Seq::new(
        s.len() / 2,
        |i: int| (16 * nibble_of_hex_digit(s[2 * i]) + nibble_of_hex_digit(s[2 * i + 1])) as u8,
    )
}

/// A nibble survives the trip through its hex digit.
proof fn lemma_nibble_round(n: u8)
    requires
        n < 16,
    ensures
        is_hex_digit(hex_digit_of_nibble(n)),
        nibble_of_hex_digit(hex_digit_of_nibble(n)) == n,
{
}

/// Decoding an encoding yields the original bytes, and the encoding is a
/// well-formed hex sequence of twice the length.
pub proof fn lemma_unhex_hex(s: Seq<u8>)
    ensures
        hex_of(s).len() == 2 * s.len(),
        is_hex_seq(hex_of(s)),
        unhex(hex_of(s)) == s,
{
    let h = hex_of(s);
    assert forall|i: int| 0 <= i < h.len() implies is_hex_digit(h[i]) by {
        if i % 2 == 0 {
            lemma_nibble_round(s[i / 2] / 16);
        } else {
            lemma_nibble_round(s[i / 2] % 16);
        }
    }
    assert forall|i: int| 0 <= i < s.len() implies unhex(h)[i] == s[i] by {
        assert(h[2 * i] == hex_digit_of_nibble(s[i] / 16));
        assert(h[2 * i + 1] == hex_digit_of_nibble(s[i] % 16));
        lemma_nibble_round(s[i] / 16);
        lemma_nibble_round(s[i] % 16);
        assert(16 * (s[i] / 16) + s[i] % 16 == s[i]);
    }
    assert(unhex(h) =~= s);
}

/// Executable form of `hex_digit_of_nibble`.
fn hex_digit(n: u8) -> (r: u8)
    requires
        n < 16,
    ensures
        r == hex_digit_of_nibble(n),
{
    if n < 10 {
        48 + n
    } else {
        87 + n
    }
}

/// The nibble denoted by `c`, or `None` if `c` is not a lower-case hex digit.
fn nibble_value(c: u8) -> (r: Option<u8>)
    ensures
        is_hex_digit(c) ==> (r == Some(nibble_of_hex_digit(c)) && nibble_of_hex_digit(c) < 16),
        !is_hex_digit(c) ==> r is None,
{
    if 48 <= c && c <= 57 {
        Some(c - 48)
    } else if 97 <= c && c <= 102 {
        Some(c - 87)
    } else {
        None
    }
}

/// Encodes `v` as lower-case hex, two digits per byte.
pub fn hex_encode(v: &[u8]) -> (r: Vec<u8>)
    ensures
        r@ == hex_of(v@),
{
    let mut r: Vec<u8> = Vec::new();
    let mut i: usize = 0;
    while i < v.len()
        invariant
            i <= v@.len(),
            r@ =~= hex_of(v@).take(2 * i as int),
        decreases v@.len() - i,
    {
        let b = v[i];
        r.push(hex_digit(b / 16));
        r.push(hex_digit(b % 16));
        proof {
            assert(hex_of(v@)[2 * i as int] == hex_digit_of_nibble(b / 16));
            assert(hex_of(v@)[2 * i as int + 1] == hex_digit_of_nibble(b % 16));
            assert(r@ =~= hex_of(v@).take(2 * (i + 1) as int));
        }
        i = i + 1;
    }
    proof {
        assert(r@ =~= hex_of(v@));
    }
    r
}

/// Decodes a lower-case hex string back into bytes; rejects odd lengths and
/// non-hex-digit bytes.
pub fn hex_decode(v: &[u8]) -> (r: Option<Vec<u8>>)
    ensures
        v@.len() % 2 == 0 && is_hex_seq(v@) ==> (r matches Some(u) && u@ == unhex(v@)),
        !(v@.len() % 2 == 0 && is_hex_seq(v@)) ==> r is None,
{
    if v.len() % 2 != 0 {
        return None;
    }
    let mut out: Vec<u8> = Vec::new();
    let mut i: usize = 0;
    while i < v.len()
        invariant
            v@.len() % 2 == 0,
            i % 2 == 0,
            i <= v@.len(),
            forall|j: int| 0 <= j < i ==> is_hex_digit(v@[j]),
            out@ =~= unhex(v@).take(i as int / 2),
        decreases v@.len() - i,
    {
        let hi = nibble_value(v[i]);
        let lo = nibble_value(v[i + 1]);
        match (hi, lo) {
            (Some(h), Some(l)) => {
                out.push(16 * h + l);
            },
            _ => {
                return None;
            },
        }
        proof {
            assert(unhex(v@)[i as int / 2] == (16 * nibble_of_hex_digit(v@[i as int])
                + nibble_of_hex_digit(v@[i as int + 1])) as u8);
            assert(out@ =~= unhex(v@).take((i + 2) as int / 2));
        }
        i = i + 2;
    }
    proof {
        assert(out@ =~= unhex(v@));
    }
    Some(out)
}

} // verus!
