//! Text helpers for the command-line configuration: string equality and
//! decimal numerals.

use vstd::prelude::*;

verus! {

/// Whether `c` is a decimal digit (code points of `0` through `9`).
pub open spec fn is_digit(c: char) -> bool {
    48 <= c as int && c as int <= 57
}

/// Numeric value of the digit `c`.
pub open spec fn digit_value(c: char) -> int {
    c as int - 48
}

/// Value of an all-digit string read as a decimal numeral.
pub open spec fn decimal_value(s: Seq<char>) -> int
    decreases s.len(),
{
    if s.len() == 0 {
        0
    } else {
        decimal_value(s.drop_last()) * 10 + digit_value(s.last())
    }
}

/// The digit part of a numeral: one leading plus sign is dropped.
pub open spec fn numeral_digits(s: Seq<char>) -> Seq<char> {
    if s.len() > 0 && s[0] == '+' {
        s.skip(1)
    } else {
        s
    }
}

/// What parsing `s` as a `u32` yields: the decimal value of its digits,
/// provided there is at least one, nothing else follows the optional sign,
/// and the value fits.
pub open spec fn parse_u32_spec(s: Seq<char>) -> Option<u32> {
    let digits = numeral_digits(s);
    if digits.len() > 0 && (forall|i: int| 0 <= i < digits.len() ==> is_digit(digits[i]))
        && decimal_value(digits) <= u32::MAX {
        Some(decimal_value(digits) as u32)
    } else {
        None
    }
}

/// An all-digit string has a non-negative value.
proof fn lemma_decimal_value_nonneg(s: Seq<char>)
    requires
        forall|i: int| 0 <= i < s.len() ==> is_digit(s[i]),
    ensures
        decimal_value(s) >= 0,
    decreases s.len(),
{
    if s.len() > 0 {
        lemma_decimal_value_nonneg(s.drop_last());
    }
}

/// Reading more digits never makes the value smaller: every prefix of an
/// all-digit string is worth at most the whole.
proof fn lemma_decimal_prefix_le(s: Seq<char>, j: int)
    requires
        forall|i: int| 0 <= i < s.len() ==> is_digit(s[i]),
        0 <= j <= s.len(),
    ensures
        decimal_value(s.take(j)) <= decimal_value(s),
    decreases s.len(),
{
    if j == s.len() {
        assert(s.take(j) =~= s);
    } else {
        assert(s.drop_last().take(j) =~= s.take(j));
        lemma_decimal_prefix_le(s.drop_last(), j);
        lemma_decimal_value_nonneg(s.drop_last());
    }
}

/// Parse a decimal `u32` numeral: at least one digit after an optional
/// leading plus sign, and a value no larger than `u32::MAX`.
pub fn parse_u32(s: &str) -> (r: Option<u32>)
    ensures
        r == parse_u32_spec(s@),
{
    let len = s.unicode_len();
    if len == 0 {
        return None;
    }
    let start: usize = if s.get_char(0) == '+' {
        1
    } else {
        0
    };
    proof {
        assert(numeral_digits(s@) =~= s@.skip(start as int));
    }
    let ghost digits = s@.skip(start as int);
    if start == len {
        return None;
    }
    // First pass: every character after the sign must be a digit.
    let mut i: usize = start;
    while i < len
        invariant
            start <= i <= len,
            len == s@.len(),
            start <= 1,
            digits == s@.skip(start as int),
            digits == numeral_digits(s@),
            forall|j: int| start <= j < i ==> is_digit(s@[j]),
        decreases len - i,
    {
        let c = s.get_char(i);
        let code = c as u32;
        if code < 48 || code > 57 {
            proof {
                assert(digits.len() == len - start);
                assert(digits[i - start] == s@[i as int]);
                assert(!is_digit(digits[i - start]));
            }
            return None;
        }
        i = i + 1;
    }
    assert(forall|j: int| 0 <= j < digits.len() ==> is_digit(digits[j]));
    // Second pass: accumulate the value, refusing numerals beyond u32.
    let mut acc: u64 = 0;
    let mut k: usize = start;
    while k < len
        invariant
            start <= k <= len,
            len == s@.len(),
            start <= 1,
            digits == s@.skip(start as int),
            digits == numeral_digits(s@),
            forall|j: int| 0 <= j < digits.len() ==> is_digit(digits[j]),
            acc <= u32::MAX,
            acc == decimal_value(s@.subrange(start as int, k as int)),
        decreases len - k,
    {
        let c = s.get_char(k);
        proof {
            assert(digits[k - start] == s@[k as int]);
            assert(is_digit(c));
        }
        let d = (c as u64) - 48;
        let next = acc * 10 + d;
        proof {
            assert(s@.subrange(start as int, k + 1).drop_last() =~= s@.subrange(
                start as int,
                k as int,
            ));
            assert(s@.subrange(start as int, k + 1).last() == s@[k as int]);
        }
        if next > 0xffff_ffff {
            proof {
                assert(digits.take(k + 1 - start) =~= s@.subrange(start as int, k + 1));
                lemma_decimal_prefix_le(digits, k + 1 - start);
            }
            return None;
        }
        acc = next;
        k = k + 1;
    }
    proof {
        assert(s@.subrange(start as int, len as int) =~= digits);
    }
    Some(acc as u32)
}

/// Whether two strings hold the same characters.
pub fn str_eq(a: &str, b: &str) -> (r: bool)
    ensures
        r == (a@ == b@),
{
    let a_len = a.unicode_len();
    let b_len = b.unicode_len();
    if a_len != b_len {
        return false;
    }
    let mut i: usize = 0;
    while i < a_len
        invariant
            i <= a_len,
            a_len == a@.len(),
            a_len == b@.len(),
            forall|j: int| 0 <= j < i ==> a@[j] == b@[j],
        decreases a_len - i,
    {
        if a.get_char(i) != b.get_char(i) {
            return false;
        }
        i = i + 1;
    }
    proof {
        assert(a@ =~= b@);
    }
    true
}

} // verus!
