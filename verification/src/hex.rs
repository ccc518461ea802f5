//! Hexadecimal decoding of header and key strings.
//!
//! Signatures and public keys arrive hex-encoded; the decoder below is
//! verified against [`hex_decode`], the mathematical statement of what a
//! well-formed hex string denotes.

use vstd::prelude::*;

verus! {

/// Value of a single ASCII hexadecimal digit, or `None` when the byte is
/// not one. Both lower- and upper-case digits are accepted.
pub open spec fn hex_digit_value(b: u8) -> Option<u8> {
    if 48 <= b && b <= 57 {
        Some((b - 48) as u8)
    } else if 97 <= b && b <= 102 {
        Some((b - 87) as u8)
    } else if 65 <= b && b <= 70 {
        Some((b - 55) as u8)
    } else {
        None
    }
}

/// Bytes denoted by a sequence of ASCII hex digit pairs: `None` when the
/// length is odd or any byte is not a hex digit.
pub open spec fn hex_decode(s: Seq<u8>) -> Option<Seq<u8>>
    decreases s.len(),
{
    if s.len() == 0 {
        Some(Seq::empty())
    } else if s.len() == 1 {
        None
    } else {
        match (hex_digit_value(s[0]), hex_digit_value(s[1])) {
            (Some(hi), Some(lo)) => match hex_decode(s.skip(2)) {
                Some(rest) => Some(seq![(hi * 16 + lo) as u8] + rest),
                None => None,
            },
            _ => None,
        }
    }
}

/// A decoded hex string holds exactly one byte for every two input bytes.
pub proof fn lemma_hex_decode_len(s: Seq<u8>)
    ensures
        hex_decode(s) matches Some(d) ==> s.len() == 2 * d.len(),
    decreases s.len(),
{
    if s.len() >= 2 {
        lemma_hex_decode_len(s.skip(2));
    }
}

spec fn prepend_decoded(p: Seq<u8>, r: Option<Seq<u8>>) -> Option<Seq<u8>> {
    match r {
        Some(d) => Some(p + d),
        None => None,
    }
}

proof fn lemma_hex_decode_unfold(s: Seq<u8>, i: int)
    requires
        0 <= i,
        i + 2 <= s.len(),
    ensures
        hex_decode(s.skip(i)) == (match (hex_digit_value(s[i]), hex_digit_value(s[i + 1])) {
            (Some(hi), Some(lo)) => match hex_decode(s.skip(i + 2)) {
                Some(rest) => Some(seq![(hi * 16 + lo) as u8] + rest),
                None => None,
            },
            _ => None,
        }),
{
    let t = s.skip(i);
    assert(t[0] == s[i]);
    assert(t[1] == s[i + 1]);
    assert(t.skip(2) =~= s.skip(i + 2));
}

fn hex_digit(b: u8) -> (r: Option<u8>)
    ensures
        r == hex_digit_value(b),
{
    if 48 <= b && b <= 57 {
        Some(b - 48)
    } else if 97 <= b && b <= 102 {
        Some(b - 87)
    } else if 65 <= b && b <= 70 {
        Some(b - 55)
    } else {
        None
    }
}

/// Decode a hex-encoded byte string, returning `None` exactly when it is
/// not well-formed hex.
pub fn hex_decode_bytes(s: &[u8]) -> (r: Option<Vec<u8>>)
    ensures
        match r {
            Some(v) => hex_decode(s@) == Some(v@),
            None => hex_decode(s@) is None,
        },
{
    let n: usize = s.len();
    if n % 2 != 0 {
        proof {
            lemma_hex_decode_len(s@);
        }
        return None;
    }
    let mut out: Vec<u8> = Vec::new();
    let mut i: usize = 0;
    proof {
        assert(s@.skip(0) =~= s@);
        if let Some(d) = hex_decode(s@) {
            assert(Seq::<u8>::empty() + d =~= d);
        }
    }
    while i < n
        invariant
            i <= n,
            i % 2 == 0,
            n % 2 == 0,
            n == s@.len(),
            out@.len() == i / 2,
            hex_decode(s@) == prepend_decoded(out@, hex_decode(s@.skip(i as int))),
        decreases n - i,
    {
        proof {
            lemma_hex_decode_unfold(s@, i as int);
        }
        let hi = hex_digit(s[i]);
        let lo = hex_digit(s[i + 1]);
        if let (Some(h), Some(l)) = (hi, lo) {
            let ghost prev = out@;
            out.push(h * 16 + l);
            proof {
                assert(out@ =~= prev + seq![(h * 16 + l) as u8]);
                if let Some(rest) = hex_decode(s@.skip(i as int + 2)) {
                    assert(prev + (seq![(h * 16 + l) as u8] + rest) =~= out@ + rest);
                }
            }
            i = i + 2;
        } else {
            return None;
        }
    }
    proof {
        assert(s@.skip(n as int) =~= Seq::<u8>::empty());
        assert(out@ + Seq::<u8>::empty() =~= out@);
    }
    Some(out)
}

} // verus!
