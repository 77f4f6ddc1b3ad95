//! Trimming, replacing and letter case.

use crate::text::{
    ascii_lower, ascii_lower_char, chars_of, in_set, is_space, matches_at, push_char, replace,
    space_fn, spread, string_from, trim, trim_by, trim_end, trim_end_by, trim_start, trim_start_by,
};
use vstd::prelude::*;

verus! {

pub fn is_space_char(c: char) -> (r: bool)
    ensures
        r == is_space(c),
{
    let n: u32 = c as u32;
    (0x9 <= n && n <= 0xD) || n == 0x20 || n == 0x85 || n == 0xA0 || n == 0x1680 || (0x2000 <= n
        && n <= 0x200A) || n == 0x2028 || n == 0x2029 || n == 0x202F || n == 0x205F || n == 0x3000
}

pub fn char_in(c: char, set: &Vec<char>) -> (r: bool)
    ensures
        r == set@.contains(c),
{
    let mut i: usize = 0;
    while i < set.len()
        invariant
            i <= set.len(),
            forall|j: int| 0 <= j < i ==> set@[j] != c,
        decreases set.len() - i,
    {
        if set[i] == c {
            return true;
        }
        i = i + 1;
    }
    false
}

/// The characters to drop: white space, or the members of a set.
spec fn dropped(spaces: bool, set: Seq<char>) -> spec_fn(char) -> bool {
    if spaces {
        space_fn()
    } else {
        in_set(set)
    }
}

fn is_dropped(c: char, spaces: bool, set: &Vec<char>) -> (r: bool)
    ensures
        r == dropped(spaces, set@)(c),
{
    if spaces {
        is_space_char(c)
    } else {
        char_in(c, set)
    }
}

/// The index at which the text begins once the dropped characters at its start are gone.
fn start_bound(chars: &Vec<char>, spaces: bool, set: &Vec<char>) -> (r: usize)
    ensures
        r <= chars.len(),
        trim_start_by(chars@, dropped(spaces, set@)) == chars@.skip(r as int),
{
    let ghost drop = dropped(spaces, set@);
    let mut i: usize = 0;
    assert(chars@.skip(0) == chars@);
    while i < chars.len()
        invariant
            i <= chars.len(),
            drop == dropped(spaces, set@),
            trim_start_by(chars@, drop) == trim_start_by(chars@.skip(i as int), drop),
        decreases chars.len() - i,
    {
        assert(chars@.skip(i as int)[0] == chars@[i as int]);
        if !is_dropped(chars[i], spaces, set) {
            return i;
        }
        assert(chars@.skip(i as int).skip(1) == chars@.skip(i + 1));
        i = i + 1;
    }
    i
}

/// The index before which the text begun at `from` ends once the dropped
/// characters at its end are gone.
fn end_bound(chars: &Vec<char>, from: usize, spaces: bool, set: &Vec<char>) -> (r: usize)
    requires
        from <= chars.len(),
    ensures
        from <= r <= chars.len(),
        trim_end_by(chars@.skip(from as int), dropped(spaces, set@)) == chars@.subrange(
            from as int,
            r as int,
        ),
{
    let ghost drop = dropped(spaces, set@);
    let mut i: usize = chars.len();
    assert(chars@.skip(from as int) == chars@.subrange(from as int, i as int));
    while i > from
        invariant
            from <= i <= chars.len(),
            drop == dropped(spaces, set@),
            trim_end_by(chars@.skip(from as int), drop) == trim_end_by(
                chars@.subrange(from as int, i as int),
                drop,
            ),
        decreases i,
    {
        assert(chars@.subrange(from as int, i as int).last() == chars@[i - 1]);
        if !is_dropped(chars[i - 1], spaces, set) {
            return i;
        }
        assert(chars@.subrange(from as int, i as int).drop_last() == chars@.subrange(
            from as int,
            i - 1,
        ));
        i = i - 1;
    }
    i
}

pub fn trim_text(s: &str) -> (r: String)
    ensures
        r@ == trim(s@),
{
    let chars: Vec<char> = chars_of(s);
    let none: Vec<char> = Vec::new();
    let from: usize = start_bound(&chars, true, &none);
    let to: usize = end_bound(&chars, from, true, &none);
    string_from(&chars, from, to)
}

pub fn trim_start_text(s: &str) -> (r: String)
    ensures
        r@ == trim_start(s@),
{
    let chars: Vec<char> = chars_of(s);
    let none: Vec<char> = Vec::new();
    let from: usize = start_bound(&chars, true, &none);
    let out: String = string_from(&chars, from, chars.len());
    assert(out@ == chars@.skip(from as int));
    out
}

pub fn trim_end_text(s: &str) -> (r: String)
    ensures
        r@ == trim_end(s@),
{
    let chars: Vec<char> = chars_of(s);
    let none: Vec<char> = Vec::new();
    let to: usize = end_bound(&chars, 0, true, &none);
    assert(chars@.skip(0) == chars@);
    string_from(&chars, 0, to)
}

/// `s` without the characters of `set` at its start and its end.
pub fn trim_set_text(s: &str, set: &str) -> (r: String)
    ensures
        r@ == trim_by(s@, in_set(set@)),
{
    let chars: Vec<char> = chars_of(s);
    let members: Vec<char> = chars_of(set);
    let from: usize = start_bound(&chars, false, &members);
    let to: usize = end_bound(&chars, from, false, &members);
    string_from(&chars, from, to)
}

/// `s` without the characters of `set` at its end.
pub fn trim_end_set_text(s: &str, set: &str) -> (r: String)
    ensures
        r@ == trim_end_by(s@, in_set(set@)),
{
    let chars: Vec<char> = chars_of(s);
    let members: Vec<char> = chars_of(set);
    let to: usize = end_bound(&chars, 0, false, &members);
    assert(chars@.skip(0) == chars@);
    string_from(&chars, 0, to)
}

fn spread_text(s: &str, to: &str) -> (r: String)
    ensures
        r@ == spread(s@, to@),
{
    let chars: Vec<char> = chars_of(s);
    let mut out: String = String::new();
    let mut i: usize = 0;
    assert(chars@.skip(0) =~= chars@);
    assert(out@ + spread(s@, to@) =~= spread(s@, to@));
    while i < chars.len()
        invariant
            i <= chars.len(),
            chars@ == s@,
            out@ + spread(s@.skip(i as int), to@) == spread(s@, to@),
        decreases chars.len() - i,
    {
        let ghost rest = s@.skip(i as int);
        proof {
            assert(rest.skip(1) =~= s@.skip(i + 1));
            assert(out@ + (to@ + seq![rest[0]] + spread(s@.skip(i + 1), to@)) =~= (out@ + to@).push(
                rest[0],
            ) + spread(s@.skip(i + 1), to@));
        }
        out.append(to);
        push_char(&mut out, chars[i]);
        i = i + 1;
    }
    out.append(to);
    out
}

pub fn replace_text(s: &str, from: &str, to: &str) -> (r: String)
    ensures
        r@ == replace(s@, from@, to@),
{
    if from.is_empty() {
        return spread_text(s, to);
    }
    let chars: Vec<char> = chars_of(s);
    let pattern: Vec<char> = chars_of(from);
    let mut out: String = String::new();
    let mut i: usize = 0;
    assert(chars@.skip(0) == chars@);
    while i < chars.len()
        invariant
            i <= chars.len(),
            chars@ == s@,
            pattern@ == from@,
            pattern.len() > 0,
            out@ + replace(s@.skip(i as int), from@, to@) == replace(s@, from@, to@),
        decreases chars.len() - i,
    {
        let ghost rest = s@.skip(i as int);
        if matches_at(&chars, &pattern, i) {
            proof {
                assert(rest.take(from@.len() as int) == s@.subrange(i as int, i + from@.len()));
                assert(rest.skip(from@.len() as int) == s@.skip(i + from@.len()));
                assert(out@ + (to@ + replace(s@.skip(i + from@.len()), from@, to@)) == (out@ + to@)
                    + replace(s@.skip(i + from@.len()), from@, to@));
            }
            out.append(to);
            i = i + pattern.len();
        } else {
            proof {
                if rest.len() >= from@.len() {
                    assert(rest.take(from@.len() as int) == s@.subrange(i as int, i + from@.len()));
                    assert(rest.skip(1) == s@.skip(i + 1));
                    assert(out@ + (seq![rest[0]] + replace(s@.skip(i + 1), from@, to@))
                        == out@.push(rest[0]) + replace(s@.skip(i + 1), from@, to@));
                } else {
                    assert(replace(s@.skip(i + 1), from@, to@) == s@.skip(i + 1));
                    assert(out@ + rest == out@.push(rest[0]) + s@.skip(i + 1));
                }
            }
            push_char(&mut out, chars[i]);
            i = i + 1;
        }
    }
    assert(out@ + replace(s@.skip(i as int), from@, to@) == out@);
    out
}

pub fn lower_char(c: char) -> (r: char)
    ensures
        r == ascii_lower_char(c),
{
    if 'A' <= c && c <= 'Z' {
        ((c as u8) + 32) as char
    } else {
        c
    }
}

pub fn lower_text(s: &str) -> (r: String)
    ensures
        r@ == ascii_lower(s@),
{
    let chars: Vec<char> = chars_of(s);
    let mut out: String = String::new();
    let mut i: usize = 0;
    while i < chars.len()
        invariant
            i <= chars.len(),
            chars@ == s@,
            out@ == ascii_lower(s@).take(i as int),
        decreases chars.len() - i,
    {
        assert(ascii_lower(s@).take(i + 1) == ascii_lower(s@).take(i as int).push(
            ascii_lower_char(chars@[i as int]),
        ));
        push_char(&mut out, lower_char(chars[i]));
        i = i + 1;
    }
    assert(ascii_lower(s@).take(i as int) == ascii_lower(s@));
    out
}

} // verus!
