//! Sizes of texts in UTF-8 bytes, and cutting a text at a byte count.

use crate::text::{chars_of, string_from};
use vstd::prelude::*;
use vstd::utf8::{encode_scalar, encode_utf8};

verus! {

/// The number of bytes that the character takes in UTF-8.
pub open spec fn utf8_len(c: char) -> nat {
    let n = c as u32;
    if n < 0x80 {
        1
    } else if n < 0x800 {
        2
    } else if n < 0x10000 {
        3
    } else {
        4
    }
}

/// The number of bytes that the text takes in UTF-8.
pub open spec fn byte_len(s: Seq<char>) -> nat
    decreases s.len(),
{
    if s.len() == 0 {
        0
    } else {
        utf8_len(s[0]) + byte_len(s.skip(1))
    }
}

/// The number of characters in the longest prefix of `s` of at most `n` bytes.
pub open spec fn floor_chars(s: Seq<char>, n: int) -> int
    decreases s.len(),
{
    if s.len() == 0 || utf8_len(s[0]) > n {
        0
    } else {
        1 + floor_chars(s.skip(1), n - utf8_len(s[0]))
    }
}

/// The number of characters in the shortest prefix of `s` of at least `n` bytes.
pub open spec fn ceil_chars(s: Seq<char>, n: int) -> int
    decreases s.len(),
{
    if s.len() == 0 || n <= 0 {
        0
    } else {
        1 + ceil_chars(s.skip(1), n - utf8_len(s[0]))
    }
}

/// The longest prefix of `s` of at most `n` bytes.
pub open spec fn prefix_within(s: Seq<char>, n: int) -> Seq<char> {
    s.take(floor_chars(s, n))
}

/// `s` from the first character on that begins at byte `n` or later.
pub open spec fn suffix_from(s: Seq<char>, n: int) -> Seq<char> {
    s.skip(ceil_chars(s, n))
}

/// `s`, cut to `max` bytes and marked with an ellipsis where it is longer.
pub open spec fn ellipsized(s: Seq<char>, max: int) -> Seq<char> {
    if byte_len(s) <= max {
        s
    } else {
        prefix_within(s, max) + "…"@
    }
}

pub proof fn lemma_byte_len_encoding(s: Seq<char>)
    ensures
        byte_len(s) == encode_utf8(s).len(),
    decreases s.len(),
{
    if s.len() > 0 {
        assert(s.skip(1) == s.drop_first());
        lemma_byte_len_encoding(s.skip(1));
        vstd::utf8::char_is_scalar(s[0]);
        assert(encode_scalar(s[0] as u32).len() == utf8_len(s[0]));
    }
}

pub proof fn lemma_byte_len_concat(a: Seq<char>, b: Seq<char>)
    ensures
        byte_len(a + b) == byte_len(a) + byte_len(b),
    decreases a.len(),
{
    if a.len() == 0 {
        assert(a + b == b);
    } else {
        assert((a + b).skip(1) == a.skip(1) + b);
        lemma_byte_len_concat(a.skip(1), b);
    }
}

pub proof fn lemma_byte_len_one(c: char)
    ensures
        byte_len(seq![c]) == utf8_len(c),
{
    assert(seq![c].skip(1) == Seq::<char>::empty());
    assert(byte_len(Seq::<char>::empty()) == 0);
}

/// Each character takes at least one byte and at most four.
pub proof fn lemma_byte_len_bounds(s: Seq<char>)
    ensures
        s.len() <= byte_len(s) <= 4 * s.len(),
    decreases s.len(),
{
    if s.len() > 0 {
        lemma_byte_len_bounds(s.skip(1));
    }
}

/// Each ASCII character takes one byte.
pub proof fn lemma_byte_len_ascii(s: Seq<char>)
    requires
        forall|i: int| 0 <= i < s.len() ==> (#[trigger] s[i] as u32) < 0x80,
    ensures
        byte_len(s) == s.len(),
    decreases s.len(),
{
    if s.len() > 0 {
        assert forall|i: int| 0 <= i < s.skip(1).len() implies (#[trigger] s.skip(1)[i] as u32)
            < 0x80 by {
            assert(s.skip(1)[i] == s[i + 1]);
        }
        lemma_byte_len_ascii(s.skip(1));
    }
}

pub proof fn lemma_floor(s: Seq<char>, n: int)
    ensures
        0 <= floor_chars(s, n) <= s.len(),
        n >= 0 ==> byte_len(prefix_within(s, n)) <= n,
        floor_chars(s, n) < s.len() ==> byte_len(prefix_within(s, n)) + utf8_len(
            s[floor_chars(s, n)],
        ) > n,
        byte_len(s) <= n ==> floor_chars(s, n) == s.len(),
    decreases s.len(),
{
    if s.len() == 0 || utf8_len(s[0]) > n {
        assert(byte_len(s.take(0)) == 0);
    } else {
        let m = n - utf8_len(s[0]);
        lemma_floor(s.skip(1), m);
        let k = floor_chars(s.skip(1), m);
        assert(s.take(1 + k) == seq![s[0]] + s.skip(1).take(k));
        lemma_byte_len_concat(seq![s[0]], s.skip(1).take(k));
        lemma_byte_len_one(s[0]);
    }
}

pub proof fn lemma_ceil(s: Seq<char>, n: int)
    ensures
        0 <= ceil_chars(s, n) <= s.len(),
        n <= byte_len(s) ==> byte_len(s.take(ceil_chars(s, n))) >= n,
        byte_len(s) >= byte_len(suffix_from(s, n)),
        n <= byte_len(s) ==> byte_len(suffix_from(s, n)) <= byte_len(s) - n,
    decreases s.len(),
{
    if s.len() == 0 || n <= 0 {
        assert(s.skip(0) == s);
        assert(byte_len(s.take(0)) == 0);
    } else {
        let m = n - utf8_len(s[0]);
        lemma_ceil(s.skip(1), m);
        let k = ceil_chars(s.skip(1), m);
        assert(s.take(1 + k) == seq![s[0]] + s.skip(1).take(k));
        lemma_byte_len_concat(seq![s[0]], s.skip(1).take(k));
        lemma_byte_len_one(s[0]);
        assert(s.skip(1 + k) == s.skip(1).skip(k));
        assert(s.skip(1) == s.skip(1).take(k) + s.skip(1).skip(k));
        lemma_byte_len_concat(s.skip(1).take(k), s.skip(1).skip(k));
    }
}

pub proof fn lemma_byte_len_parts(s: Seq<char>, k: int)
    requires
        0 <= k <= s.len(),
    ensures
        byte_len(s) == byte_len(s.take(k)) + byte_len(s.skip(k)),
{
    assert(s == s.take(k) + s.skip(k));
    lemma_byte_len_concat(s.take(k), s.skip(k));
}

pub fn char_bytes(c: char) -> (r: usize)
    ensures
        r == utf8_len(c),
{
    let n: u32 = c as u32;
    if n < 0x80 {
        1
    } else if n < 0x800 {
        2
    } else if n < 0x10000 {
        3
    } else {
        4
    }
}

/// The number of bytes of `s`.
pub fn byte_count(s: &str) -> (r: usize)
    ensures
        r == byte_len(s@),
{
    let bytes: &[u8] = s.as_bytes();
    proof {
        lemma_byte_len_encoding(s@);
    }
    bytes.len()
}

/// The number of characters in the longest prefix of at most `n` bytes.
pub fn floor_index(chars: &Vec<char>, n: usize) -> (r: usize)
    ensures
        r == floor_chars(chars@, n as int),
        r <= chars.len(),
{
    let mut i: usize = 0;
    let mut left: usize = n;
    assert(chars@.skip(0) == chars@);
    while i < chars.len() && char_bytes(chars[i]) <= left
        invariant
            i <= chars.len(),
            left <= n,
            floor_chars(chars@, n as int) == i + floor_chars(chars@.skip(i as int), left as int),
        decreases chars.len() - i,
    {
        assert(chars@.skip(i as int)[0] == chars@[i as int]);
        assert(chars@.skip(i as int).skip(1) == chars@.skip(i + 1));
        left = left - char_bytes(chars[i]);
        i = i + 1;
    }
    proof {
        if i < chars.len() {
            assert(chars@.skip(i as int)[0] == chars@[i as int]);
        }
    }
    i
}

/// The number of characters in the shortest prefix of at least `n` bytes.
pub fn ceil_index(chars: &Vec<char>, n: usize) -> (r: usize)
    ensures
        r == ceil_chars(chars@, n as int),
        r <= chars.len(),
{
    let mut i: usize = 0;
    let mut left: usize = n;
    let mut done: bool = n == 0;
    assert(chars@.skip(0) == chars@);
    while i < chars.len() && !done
        invariant
            i <= chars.len(),
            !done ==> left > 0 && ceil_chars(chars@, n as int) == i + ceil_chars(
                chars@.skip(i as int),
                left as int,
            ),
            done ==> ceil_chars(chars@, n as int) == i,
        decreases chars.len() - i,
    {
        assert(chars@.skip(i as int)[0] == chars@[i as int]);
        assert(chars@.skip(i as int).skip(1) == chars@.skip(i + 1));
        let size: usize = char_bytes(chars[i]);
        if size >= left {
            assert(ceil_chars(chars@.skip(i + 1), left - size) == 0);
            done = true;
        } else {
            left = left - size;
        }
        i = i + 1;
    }
    i
}

/// `s`, cut to `max` bytes at a character boundary.
pub fn cut_text(s: &str, max: usize) -> (r: String)
    ensures
        r@ == prefix_within(s@, max as int),
{
    let chars: Vec<char> = chars_of(s);
    let end: usize = floor_index(&chars, max);
    string_from(&chars, 0, end)
}

/// `s`, cut to `max` bytes and marked with an ellipsis where it is longer.
pub fn truncate(s: &str, max: usize) -> (r: String)
    ensures
        r@ == ellipsized(s@, max as int),
{
    if byte_count(s) <= max {
        s.to_owned()
    } else {
        let mut out: String = cut_text(s, max);
        out.append("…");
        out
    }
}

/// A text that fits is kept; a longer one gives its longest prefix that fits and
/// the ellipsis, so that the result holds at most `max + 3` bytes.
pub proof fn law_ellipsized_bounds(s: Seq<char>, max: int)
    requires
        max >= 0,
    ensures
        byte_len(s) <= max ==> ellipsized(s, max) == s,
        byte_len(ellipsized(s, max)) <= max + 3,
{
    reveal_strlit("…");
    let mark = "…"@;
    lemma_floor(s, max);
    lemma_byte_len_concat(prefix_within(s, max), mark);
    assert(mark.len() == 1);
    assert(mark.skip(1).len() == 0);
    assert(byte_len(mark.skip(1)) == 0);
    assert(mark[0] == '…');
    assert(utf8_len('…') == 3);
}

} // verus!
