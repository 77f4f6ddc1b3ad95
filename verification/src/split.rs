//! Splitting a text into pieces and joining pieces.

use crate::text::{
    chars_of, join, lines, lines_from, push_char, split, split_from, str_eq, string_from, views,
    without_return, words, words_from,
};
use crate::trim::is_space_char;
use vstd::prelude::*;

verus! {

pub proof fn lemma_views_push(list: Seq<String>, s: String)
    ensures
        views(list.push(s)) == views(list).push(s@),
{
}

/// The pieces of `s` between the separators.
pub fn split_text(s: &str, separator: char) -> (r: Vec<String>)
    ensures
        views(r@) == split(s@, separator),
        r.len() >= 1,
{
    let chars: Vec<char> = chars_of(s);
    let mut out: Vec<String> = Vec::new();
    let mut current: String = String::new();
    let mut i: usize = 0;
    assert(chars@.skip(0) == chars@);
    assert(views(out@) =~= seq![]);
    assert(seq![] + split(s@, separator) =~= split(s@, separator));
    while i < chars.len()
        invariant
            i <= chars.len(),
            chars@ == s@,
            views(out@) + split_from(s@.skip(i as int), separator, current@) == split(
                s@,
                separator,
            ),
        decreases chars.len() - i,
    {
        let ghost rest = s@.skip(i as int);
        assert(rest[0] == chars@[i as int]);
        assert(rest.skip(1) == s@.skip(i + 1));
        if chars[i] == separator {
            proof {
                lemma_views_push(out@, current);
                assert(views(out@) + (seq![current@] + split_from(rest.skip(1), separator, seq![]))
                    == views(out@).push(current@) + split_from(rest.skip(1), separator, seq![]));
            }
            out.push(current);
            current = String::new();
        } else {
            push_char(&mut current, chars[i]);
        }
        i = i + 1;
    }
    proof {
        lemma_views_push(out@, current);
        assert(views(out@) + seq![current@] == views(out@).push(current@));
    }
    out.push(current);
    out
}

/// The longest runs of `s` without white space, in order.
pub fn words_text(s: &str) -> (r: Vec<String>)
    ensures
        views(r@) == words(s@),
{
    let chars: Vec<char> = chars_of(s);
    let mut out: Vec<String> = Vec::new();
    let mut current: String = String::new();
    let mut i: usize = 0;
    assert(chars@.skip(0) == chars@);
    assert(views(out@) =~= seq![]);
    assert(seq![] + words(s@) =~= words(s@));
    while i < chars.len()
        invariant
            i <= chars.len(),
            chars@ == s@,
            views(out@) + words_from(s@.skip(i as int), current@) == words(s@),
        decreases chars.len() - i,
    {
        let ghost rest = s@.skip(i as int);
        assert(rest[0] == chars@[i as int]);
        assert(rest.skip(1) == s@.skip(i + 1));
        if is_space_char(chars[i]) {
            if !current.as_str().is_empty() {
                proof {
                    lemma_views_push(out@, current);
                    assert(views(out@) + (seq![current@] + words_from(rest.skip(1), seq![]))
                        == views(out@).push(current@) + words_from(rest.skip(1), seq![]));
                }
                out.push(current);
                current = String::new();
            } else {
                assert(current@ == Seq::<char>::empty());
            }
        } else {
            push_char(&mut current, chars[i]);
        }
        i = i + 1;
    }
    if !current.as_str().is_empty() {
        proof {
            lemma_views_push(out@, current);
            assert(views(out@) + seq![current@] == views(out@).push(current@));
        }
        out.push(current);
    } else {
        assert(views(out@) + seq![] == views(out@));
    }
    out
}

/// The lines of `s`.
pub fn lines_text(s: &str) -> (r: Vec<String>)
    ensures
        views(r@) == lines(s@),
{
    let chars: Vec<char> = chars_of(s);
    let mut out: Vec<String> = Vec::new();
    let mut current: Vec<char> = Vec::new();
    let mut i: usize = 0;
    assert(chars@.skip(0) == chars@);
    assert(views(out@) =~= seq![]);
    assert(seq![] + lines(s@) =~= lines(s@));
    while i < chars.len()
        invariant
            i <= chars.len(),
            chars@ == s@,
            views(out@) + lines_from(s@.skip(i as int), current@) == lines(s@),
        decreases chars.len() - i,
    {
        let ghost rest = s@.skip(i as int);
        assert(rest[0] == chars@[i as int]);
        assert(rest.skip(1) == s@.skip(i + 1));
        if chars[i] == '\n' {
            let end: usize = if current.len() > 0 && current[current.len() - 1] == '\r' {
                current.len() - 1
            } else {
                current.len()
            };
            let line: String = string_from(&current, 0, end);
            proof {
                assert(line@ == without_return(current@));
                lemma_views_push(out@, line);
                assert(views(out@) + (seq![line@] + lines_from(rest.skip(1), seq![])) == views(
                    out@,
                ).push(line@) + lines_from(rest.skip(1), seq![]));
            }
            out.push(line);
            current = Vec::new();
        } else {
            current.push(chars[i]);
        }
        i = i + 1;
    }
    if current.len() > 0 {
        let line: String = string_from(&current, 0, current.len());
        proof {
            assert(line@ == current@);
            lemma_views_push(out@, line);
            assert(views(out@) + seq![line@] == views(out@).push(line@));
        }
        out.push(line);
    } else {
        assert(current@ == Seq::<char>::empty());
        assert(views(out@) + seq![] == views(out@));
    }
    out
}

pub proof fn lemma_join_push(parts: Seq<Seq<char>>, part: Seq<char>, separator: Seq<char>)
    requires
        parts.len() > 0,
    ensures
        join(parts.push(part), separator) == join(parts, separator) + separator + part,
{
    assert(parts.push(part).drop_last() == parts);
}

/// The parts in order with `separator` between them.
pub fn join_text(parts: &Vec<String>, separator: &str) -> (r: String)
    ensures
        r@ == join(views(parts@), separator@),
{
    let mut out: String = String::new();
    let mut i: usize = 0;
    while i < parts.len()
        invariant
            i <= parts.len(),
            out@ == join(views(parts@).take(i as int), separator@),
        decreases parts.len() - i,
    {
        proof {
            let before = views(parts@).take(i as int);
            assert(views(parts@).take(i + 1) == before.push(parts@[i as int]@));
            if i > 0 {
                lemma_join_push(before, parts@[i as int]@, separator@);
            } else {
                assert(views(parts@).take(1) =~= seq![parts@[0]@]);
                assert(seq![] + parts@[0]@ == parts@[0]@);
            }
        }
        if i > 0 {
            out.append(separator);
        }
        out.append(parts[i].as_str());
        i = i + 1;
    }
    assert(views(parts@).take(i as int) == views(parts@));
    out
}

/// Whether `list` holds `s`.
pub fn list_has(list: &Vec<String>, s: &str) -> (r: bool)
    ensures
        r == views(list@).contains(s@),
{
    let mut i: usize = 0;
    while i < list.len()
        invariant
            i <= list.len(),
            forall|j: int| 0 <= j < i ==> views(list@)[j] != s@,
        decreases list.len() - i,
    {
        if str_eq(list[i].as_str(), s) {
            assert(views(list@)[i as int] == s@);
            return true;
        }
        i = i + 1;
    }
    false
}

/// A copy of `list`.
pub fn clone_list(list: &Vec<String>) -> (r: Vec<String>)
    ensures
        r@ == list@,
{
    let mut out: Vec<String> = Vec::new();
    let mut i: usize = 0;
    while i < list.len()
        invariant
            i <= list.len(),
            out@ == list@.take(i as int),
        decreases list.len() - i,
    {
        assert(list@.take(i + 1) == list@.take(i as int).push(list@[i as int]));
        out.push(list[i].clone());
        i = i + 1;
    }
    assert(list@.take(i as int) == list@);
    out
}

/// A copy of an optional string.
pub fn clone_opt(text: &Option<String>) -> (r: Option<String>)
    ensures
        r == *text,
{
    match text {
        Some(s) => Some(s.clone()),
        None => None,
    }
}

/// `list` with each of `more` that it does not hold yet.
pub open spec fn with_new(list: Seq<Seq<char>>, more: Seq<Seq<char>>) -> Seq<Seq<char>>
    decreases more.len(),
{
    if more.len() == 0 {
        list
    } else {
        let before = with_new(list, more.drop_last());
        if before.contains(more.last()) {
            before
        } else {
            before.push(more.last())
        }
    }
}

/// Appends each of `more` that `list` does not hold yet.
pub fn extend_new(list: &mut Vec<String>, more: &Vec<String>)
    ensures
        views(final(list)@) == with_new(views(old(list)@), views(more@)),
{
    let ghost before = views(list@);
    let ghost all = views(more@);
    let mut i: usize = 0;
    assert(all.take(0) =~= seq![]);
    while i < more.len()
        invariant
            i <= more.len(),
            all == views(more@),
            views(list@) == with_new(before, all.take(i as int)),
        decreases more.len() - i,
    {
        assert(all.take(i + 1).drop_last() =~= all.take(i as int));
        assert(all.take(i + 1).last() == more@[i as int]@);
        if !list_has(list, more[i].as_str()) {
            let s: String = more[i].clone();
            proof {
                lemma_views_push(list@, s);
            }
            list.push(s);
        }
        i = i + 1;
    }
    assert(all.take(i as int) =~= all);
}

} // verus!
