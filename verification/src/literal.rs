//! The grammar of decimal number literals.

use crate::text::{ascii_lower, chars_of, is_ascii_digit, str_eq, string_from};
use crate::trim::lower_text;
use vstd::prelude::*;

verus! {

/// The first index from `i` on that holds no digit.
pub open spec fn digits_end(s: Seq<char>, i: int) -> int
    decreases s.len() - i,
{
    if 0 <= i < s.len() && is_ascii_digit(s[i]) {
        digits_end(s, i + 1)
    } else {
        i
    }
}

pub open spec fn is_sign(c: char) -> bool {
    c == '+' || c == '-'
}

/// Digits with at most one point among or beside them, and an exponent where
/// there is one.
pub open spec fn is_plain_number(s: Seq<char>) -> bool {
    let i = digits_end(s, 0);
    let pointed = i < s.len() && s[i] == '.';
    let k = if pointed {
        digits_end(s, i + 1)
    } else {
        i
    };
    let m = if k + 1 < s.len() && is_sign(s[k + 1]) {
        k + 2
    } else {
        k + 1
    };
    &&& i > 0 || (pointed && k > i + 1)
    &&& k == s.len() || (s[k] == 'e' && m < s.len() && digits_end(s, m) == s.len())
}

/// A literal that reads as a floating-point number: a number, an infinity or a
/// not-a-number, with a sign where there is one, in any letter case.
pub open spec fn is_number_literal(s: Seq<char>) -> bool {
    let lower = ascii_lower(s);
    let body = if lower.len() > 0 && is_sign(lower[0]) {
        lower.skip(1)
    } else {
        lower
    };
    body == "inf"@ || body == "infinity"@ || body == "nan"@ || is_plain_number(body)
}

fn digits_end_index(chars: &Vec<char>, from: usize) -> (r: usize)
    requires
        from <= chars.len(),
    ensures
        r == digits_end(chars@, from as int),
        from <= r <= chars.len(),
{
    let mut i: usize = from;
    while i < chars.len() && '0' <= chars[i] && chars[i] <= '9'
        invariant
            from <= i <= chars.len(),
            digits_end(chars@, from as int) == digits_end(chars@, i as int),
        decreases chars.len() - i,
    {
        i = i + 1;
    }
    i
}

fn plain_number(chars: &Vec<char>) -> (r: bool)
    ensures
        r == is_plain_number(chars@),
{
    let i: usize = digits_end_index(chars, 0);
    let pointed: bool = i < chars.len() && chars[i] == '.';
    let k: usize = if pointed {
        digits_end_index(chars, i + 1)
    } else {
        i
    };
    if !(i > 0 || (pointed && k > i + 1)) {
        return false;
    }
    if k == chars.len() {
        return true;
    }
    if chars[k] != 'e' {
        return false;
    }
    let m: usize = if k + 1 < chars.len() && (chars[k + 1] == '+' || chars[k + 1] == '-') {
        k + 2
    } else {
        k + 1
    };
    m < chars.len() && digits_end_index(chars, m) == chars.len()
}

/// Whether the text reads as a floating-point number.
pub fn number_literal(s: &str) -> (r: bool)
    ensures
        r == is_number_literal(s@),
{
    let lower: String = lower_text(s);
    let chars: Vec<char> = chars_of(lower.as_str());
    let from: usize = if chars.len() > 0 && (chars[0] == '+' || chars[0] == '-') {
        1
    } else {
        0
    };
    let body: String = string_from(&chars, from, chars.len());
    assert(from == 0 ==> body@ =~= chars@);
    assert(from == 1 ==> body@ =~= chars@.skip(1));
    let body_chars: Vec<char> = chars_of(body.as_str());
    str_eq(body.as_str(), "inf") || str_eq(body.as_str(), "infinity")
        || str_eq(body.as_str(), "nan") || plain_number(&body_chars)
}

} // verus!
