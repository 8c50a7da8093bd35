//! Parsing a member's reply as a signed 32-bit integer.
//!
//! A reply counts as an answer only when the whole text is an optional sign
//! followed by one or more ASCII decimal digits and the value fits in `i32`;
//! anything else is not an answer and falls through to the content filter.

use vstd::prelude::*;

verus! {

/// Whether a byte is an ASCII decimal digit.
pub open spec fn is_ascii_digit(b: u8) -> bool {
    48 <= b <= 57
}

/// The numeric value of an ASCII digit byte.
pub open spec fn digit_value(b: u8) -> int {
    b - 48
}

/// Whether every byte of the sequence is an ASCII decimal digit.
pub open spec fn all_digits(s: Seq<u8>) -> bool {
    forall|i: int| 0 <= i < s.len() ==> is_ascii_digit(#[trigger] s[i])
}

/// The non-negative integer denoted by a sequence of ASCII digits, most
/// significant digit first.
pub open spec fn digits_value(s: Seq<u8>) -> int
    decreases s.len(),
{
    if s.len() == 0 {
        0
    } else {
        digits_value(s.drop_last()) * 10 + digit_value(s.last())
    }
}

/// The sign denoted by an optional leading `+` or `-`, together with the
/// remaining bytes that must all be digits.
pub open spec fn sign_split(s: Seq<u8>) -> (int, Seq<u8>) {
    if s.len() > 0 && s[0] == 43 {
        (1int, s.subrange(1, s.len() as int))
    } else if s.len() > 0 && s[0] == 45 {
        (-1int, s.subrange(1, s.len() as int))
    } else {
        (1int, s)
    }
}

/// What parsing the text as an `i32` yields: an optional sign, then at least
/// one digit and nothing else, with the signed value in range; otherwise
/// nothing.
pub open spec fn spec_parse_i32(s: Seq<u8>) -> Option<i32> {
    let (sign, digits) = sign_split(s);
    if digits.len() == 0 || !all_digits(digits) {
        None
    } else {
        let v = sign * digits_value(digits);
        if i32::MIN <= v <= i32::MAX {
            Some(v as i32)
        } else {
            None
        }
    }
}

proof fn lemma_digits_value_nonneg(s: Seq<u8>)
    requires
        all_digits(s),
    ensures
        digits_value(s) >= 0,
    decreases s.len(),
{
    if s.len() > 0 {
        assert(all_digits(s.drop_last()));
        lemma_digits_value_nonneg(s.drop_last());
    }
}

proof fn lemma_digits_value_prefix_le(s: Seq<u8>, j: int)
    requires
        all_digits(s),
        0 <= j <= s.len(),
    ensures
        digits_value(s.subrange(0, j)) <= digits_value(s),
    decreases s.len() - j,
{
    if j == s.len() {
        assert(s.subrange(0, j) =~= s);
    } else {
        let p = s.subrange(0, j);
        let q = s.subrange(0, j + 1);
        assert(q.drop_last() =~= p);
        assert(all_digits(p));
        lemma_digits_value_nonneg(p);
        assert(digits_value(q) == digits_value(p) * 10 + digit_value(s[j]));
        lemma_digits_value_prefix_le(s, j + 1);
    }
}

/// Parses the whole text as a signed decimal integer, exactly as the reply
/// of a member is read: an optional `+` or `-`, then one or more ASCII
/// digits, value within `i32`; everything else yields nothing.
pub fn parse_i32(text: &Vec<u8>) -> (r: Option<i32>)
    ensures
        r == spec_parse_i32(text@),
{
    let ghost s = text@;
    let n = text.len();
    let mut start: usize = 0;
    let mut negative = false;
    if n > 0 && (text[0] == 43 || text[0] == 45) {
        negative = text[0] == 45;
        start = 1;
    }
    let ghost sign = sign_split(s).0;
    let ghost digits = sign_split(s).1;
    proof {
        assert(digits =~= s.subrange(start as int, s.len() as int));
        assert(sign == (if negative { -1int } else { 1int }));
    }
    if start == n {
        return None;
    }
    let mut i: usize = start;
    let mut acc: u64 = 0;
    while i < n
        invariant
            start <= i <= n,
            n == s.len(),
            text@ == s,
            digits == s.subrange(start as int, s.len() as int),
            sign == sign_split(s).0,
            digits == sign_split(s).1,
            acc == digits_value(digits.subrange(0, i - start)),
            acc <= 0x8000_0000,
            all_digits(digits.subrange(0, i - start)),
        decreases n - i,
    {
        let b = text[i];
        if b < 48 || b > 57 {
            proof {
                assert(digits[i - start] == b);
                assert(!is_ascii_digit(digits[i - start]));
                assert(!all_digits(digits));
            }
            return None;
        }
        let d: u64 = (b - 48) as u64;
        acc = acc * 10 + d;
        proof {
            let j = i - start;
            let p = digits.subrange(0, j);
            let q = digits.subrange(0, j + 1);
            assert(q.drop_last() =~= p);
            assert(q.last() == digits[j]);
            assert(digits_value(q) == digits_value(p) * 10 + digit_value(digits[j]));
            assert(acc == digits_value(q));
            assert(all_digits(q));
        }
        if acc > 0x8000_0000 {
            proof {
                if all_digits(digits) {
                    lemma_digits_value_prefix_le(digits, i + 1 - start);
                    assert(digits_value(digits) > 0x8000_0000);
                }
            }
            return None;
        }
        i = i + 1;
    }
    proof {
        assert(digits.subrange(0, i - start) =~= digits);
        assert(digits.len() > 0);
        lemma_digits_value_nonneg(digits);
    }
    if negative {
        let v: i64 = -(acc as i64);
        Some(v as i32)
    } else {
        if acc > 0x7fff_ffff {
            return None;
        }
        Some(acc as i32)
    }
}

} // verus!
