//! What the text primitives promise.

use crate::number::{decimal, digit_char, digits_value, lemma_decimal_digits, parse_natural};
use crate::path::{components_upto, file_name, is_rooted};
use crate::text::{
    contains, ends_with, find, first_at, is_ascii_digit, is_space, join, lemma_contains_first,
    lemma_find, lines, lines_from, occurs_at, split, split_from, starts_with, trim_by, trim_end_by,
    trim_start_by, without_return, words, words_from,
};
use vstd::prelude::*;

verus! {

pub proof fn lemma_begins(p: Seq<char>, rest: Seq<char>)
    ensures
        starts_with(p + rest, p),
{
    assert((p + rest).subrange(0, p.len() as int) =~= p);
}

pub proof fn lemma_ends(front: Seq<char>, p: Seq<char>)
    ensures
        ends_with(front + p, p),
{
    assert((front + p).skip(front.len() as int) =~= p);
    assert((front + p).subrange(front.len() as int, (front + p).len() as int) =~= p);
}

pub proof fn lemma_holds(front: Seq<char>, p: Seq<char>, rest: Seq<char>)
    ensures
        contains(front + p + rest, p),
{
    let s = front + p + rest;
    assert(s.subrange(front.len() as int, (front.len() + p.len()) as int) =~= p);
    assert(occurs_at(s, p, front.len() as int));
}

/// What counts as white space, and what does not.
pub proof fn law_white_space(c: char)
    ensures
        is_space(' '),
        is_space('\t'),
        is_space('\n'),
        is_space('\r'),
        '!' <= c <= '~' ==> !is_space(c),
{
}

proof fn lemma_trim_start(s: Seq<char>, drop: spec_fn(char) -> bool)
    ensures
        ({
            let r = trim_start_by(s, drop);
            &&& r.len() <= s.len()
            &&& r == s.skip(s.len() - r.len())
            &&& forall|i: int| 0 <= i < s.len() - r.len() ==> drop(#[trigger] s[i])
            &&& r.len() > 0 ==> !drop(r[0])
        }),
    decreases s.len(),
{
    let r = trim_start_by(s, drop);
    if s.len() > 0 && drop(s[0]) {
        let rest = s.skip(1);
        lemma_trim_start(rest, drop);
        assert(rest.skip(rest.len() - r.len()) =~= s.skip(s.len() - r.len()));
        assert forall|i: int| 0 <= i < s.len() - r.len() implies drop(#[trigger] s[i]) by {
            if i > 0 {
                assert(rest[i - 1] == s[i]);
            }
        }
    } else {
        assert(s.skip(0) =~= s);
    }
}

proof fn lemma_trim_end(s: Seq<char>, drop: spec_fn(char) -> bool)
    ensures
        ({
            let r = trim_end_by(s, drop);
            &&& r.len() <= s.len()
            &&& r == s.take(r.len() as int)
            &&& forall|i: int| r.len() <= i < s.len() ==> drop(#[trigger] s[i])
            &&& r.len() > 0 ==> !drop(r.last())
        }),
    decreases s.len(),
{
    let r = trim_end_by(s, drop);
    if s.len() > 0 && drop(s.last()) {
        let front = s.drop_last();
        lemma_trim_end(front, drop);
        assert(front.take(r.len() as int) =~= s.take(r.len() as int));
        assert forall|i: int| r.len() <= i < s.len() implies drop(#[trigger] s[i]) by {
            if i < front.len() {
                assert(front[i] == s[i]);
            }
        }
    } else {
        assert(s.take(s.len() as int) =~= s);
    }
}

/// Trimming takes off what is to be dropped at both ends, all of it and nothing else.
pub proof fn law_trimmed(s: Seq<char>, drop: spec_fn(char) -> bool)
    ensures
        ({
            let r = trim_by(s, drop);
            &&& r.len() > 0 ==> !drop(r[0]) && !drop(r.last())
            &&& exists|k: int|
                0 <= k && k + r.len() <= s.len() && r == #[trigger] s.subrange(k, k + r.len()) && (
                forall|i: int| 0 <= i < k ==> drop(#[trigger] s[i])) && (forall|i: int|
                    k + r.len() <= i < s.len() ==> drop(#[trigger] s[i]))
            &&& (s.len() > 0 && !drop(s[0]) && !drop(s.last())) ==> r == s
            &&& s.len() == 0 ==> r == s
        }),
{
    let a = trim_start_by(s, drop);
    let r = trim_by(s, drop);
    lemma_trim_start(s, drop);
    lemma_trim_end(a, drop);
    let k = s.len() - a.len();
    assert(r =~= s.subrange(k, k + r.len()));
    assert forall|i: int| k + r.len() <= i < s.len() implies drop(#[trigger] s[i]) by {
        assert(a[i - k] == s[i]);
    }
    if r.len() > 0 {
        assert(r[0] == a[0]);
    }
}

/// What is found is the first place at which it stands, and it is found wherever it
/// stands.
pub proof fn law_found(s: Seq<char>, p: Seq<char>, i: int)
    ensures
        find(s, p) matches Some(k) ==> first_at(s, p, k),
        occurs_at(s, p, i) ==> (find(s, p) matches Some(k) && k <= i),
        find(s, p) is None ==> !occurs_at(s, p, i),
{
    if contains(s, p) {
        let j = choose|j: int| occurs_at(s, p, j);
        lemma_contains_first(s, p, j);
        let k = choose|k: int| #![trigger first_at(s, p, k)] first_at(s, p, k) && k <= j;
        lemma_find(s, p, k);
        if occurs_at(s, p, i) && i < k {
            assert(!occurs_at(s, p, i));
        }
    }
}

proof fn lemma_words_from(a: Seq<char>, b: Seq<char>, current: Seq<char>, space: char)
    requires
        is_space(space),
    ensures
        words_from(a + seq![space] + b, current) == words_from(a, current) + words_from(b, seq![]),
    decreases a.len(),
{
    let s = a + seq![space] + b;
    if a.len() == 0 {
        assert(s[0] == space);
        assert(s.skip(1) =~= b);
        assert(words_from(s, current) =~= words_from(a, current) + words_from(b, seq![]));
    } else {
        assert(s[0] == a[0]);
        assert(s.skip(1) =~= a.skip(1) + seq![space] + b);
        if is_space(a[0]) {
            lemma_words_from(a.skip(1), b, seq![], space);
        } else {
            lemma_words_from(a.skip(1), b, current.push(a[0]), space);
        }
        assert(words_from(s, current) =~= words_from(a, current) + words_from(b, seq![]));
    }
}

proof fn lemma_one_word(s: Seq<char>, current: Seq<char>)
    requires
        forall|i: int| 0 <= i < s.len() ==> !is_space(#[trigger] s[i]),
    ensures
        words_from(s, current) == (if current.len() + s.len() == 0 {
            seq![]
        } else {
            seq![current + s]
        }),
    decreases s.len(),
{
    if s.len() > 0 {
        assert forall|i: int| 0 <= i < s.skip(1).len() implies !is_space(
            #[trigger] s.skip(1)[i],
        ) by {
            assert(s[i + 1] == s.skip(1)[i]);
        }
        lemma_one_word(s.skip(1), current.push(s[0]));
        assert(current.push(s[0]) + s.skip(1) =~= current + s);
    } else {
        assert(current + s =~= current);
    }
}

/// A text without white space is one word, and white space stands between words.
pub proof fn law_words(a: Seq<char>, b: Seq<char>, space: char)
    requires
        is_space(space),
    ensures
        words(a + seq![space] + b) == words(a) + words(b),
        words(seq![]).len() == 0,
        a.len() > 0 && (forall|i: int| 0 <= i < a.len() ==> !is_space(#[trigger] a[i])) ==> words(a)
            == seq![a],
{
    lemma_words_from(a, b, seq![], space);
    if forall|i: int| 0 <= i < a.len() ==> !is_space(#[trigger] a[i]) {
        lemma_one_word(a, seq![]);
        assert(Seq::<char>::empty() + a =~= a);
    }
}

proof fn lemma_split_from(a: Seq<char>, b: Seq<char>, mark: char, current: Seq<char>)
    ensures
        split_from(a + seq![mark] + b, mark, current) == split_from(a, mark, current) + split_from(
            b,
            mark,
            seq![],
        ),
    decreases a.len(),
{
    let s = a + seq![mark] + b;
    if a.len() == 0 {
        assert(s[0] == mark);
        assert(s.skip(1) =~= b);
    } else {
        assert(s[0] == a[0]);
        assert(s.skip(1) =~= a.skip(1) + seq![mark] + b);
        if a[0] == mark {
            lemma_split_from(a.skip(1), b, mark, seq![]);
        } else {
            lemma_split_from(a.skip(1), b, mark, current.push(a[0]));
        }
    }
    assert(split_from(s, mark, current) =~= split_from(a, mark, current) + split_from(
        b,
        mark,
        seq![],
    ));
}

proof fn lemma_one_piece(s: Seq<char>, mark: char, current: Seq<char>)
    requires
        !s.contains(mark),
    ensures
        split_from(s, mark, current) == seq![current + s],
    decreases s.len(),
{
    if s.len() > 0 {
        assert(s.contains(s[0]));
        assert(!s.skip(1).contains(mark)) by {
            if s.skip(1).contains(mark) {
                let i = choose|i: int| 0 <= i < s.skip(1).len() && s.skip(1)[i] == mark;
                assert(s[i + 1] == mark);
            }
        }
        lemma_one_piece(s.skip(1), mark, current.push(s[0]));
        assert(current.push(s[0]) + s.skip(1) =~= current + s);
    } else {
        assert(current + s =~= current);
    }
}

/// A text is split at each mark; one without the mark is one piece.
pub proof fn law_split(a: Seq<char>, b: Seq<char>, mark: char)
    ensures
        split(a + seq![mark] + b, mark) == split(a, mark) + split(b, mark),
        !a.contains(mark) ==> split(a, mark) == seq![a],
        split(a, mark).len() > 0,
{
    lemma_split_from(a, b, mark, seq![]);
    if !a.contains(mark) {
        lemma_one_piece(a, mark, seq![]);
        assert(Seq::<char>::empty() + a =~= a);
    }
    lemma_some_piece(a, mark, seq![]);
}

proof fn lemma_some_piece(s: Seq<char>, mark: char, current: Seq<char>)
    ensures
        split_from(s, mark, current).len() > 0,
    decreases s.len(),
{
    if s.len() > 0 && s[0] != mark {
        lemma_some_piece(s.skip(1), mark, current.push(s[0]));
    }
}

proof fn lemma_line_from(a: Seq<char>, b: Seq<char>, current: Seq<char>)
    requires
        !a.contains('\n'),
    ensures
        lines_from(a + seq!['\n'] + b, current) == seq![without_return(current + a)] + lines_from(
            b,
            seq![],
        ),
    decreases a.len(),
{
    let s = a + seq!['\n'] + b;
    if a.len() == 0 {
        assert(s[0] == '\n');
        assert(s.skip(1) =~= b);
        assert(current + a =~= current);
    } else {
        assert(a.contains(a[0]));
        assert(s[0] == a[0]);
        assert(s.skip(1) =~= a.skip(1) + seq!['\n'] + b);
        assert(!a.skip(1).contains('\n')) by {
            if a.skip(1).contains('\n') {
                let i = choose|i: int| 0 <= i < a.skip(1).len() && a.skip(1)[i] == '\n';
                assert(a[i + 1] == '\n');
            }
        }
        lemma_line_from(a.skip(1), b, current.push(a[0]));
        assert(current.push(a[0]) + a.skip(1) =~= current + a);
    }
}

/// A line ends at a line feed, without the carriage return before it.
pub proof fn law_lines(a: Seq<char>, b: Seq<char>)
    requires
        !a.contains('\n'),
    ensures
        lines(a + seq!['\n'] + b) == seq![without_return(a)] + lines(b),
        lines(seq![]).len() == 0,
        without_return(a + seq!['\r']) == a,
        a.len() > 0 && a.last() != '\r' ==> without_return(a) == a,
{
    lemma_line_from(a, b, seq![]);
    assert(Seq::<char>::empty() + a =~= a);
    assert((a + seq!['\r']).drop_last() =~= a);
}

/// Parts are joined in order, with the separator between them and nowhere else.
pub proof fn law_joined(parts: Seq<Seq<char>>, part: Seq<char>, separator: Seq<char>)
    ensures
        join(seq![], separator).len() == 0,
        join(seq![part], separator) == part,
        parts.len() > 0 ==> join(parts.push(part), separator) == join(parts, separator) + separator
            + part,
{
    assert(parts.push(part).drop_last() =~= parts);
}

proof fn lemma_digit(n: nat)
    requires
        n < 10,
    ensures
        digit_char(n) as u32 == '0' as u32 + n,
{
}

/// A number that is written is read back.
pub proof fn law_decimal_is_read_back(n: nat)
    ensures
        digits_value(decimal(n)) == n,
        parse_natural(decimal(n)) == Some(n),
    decreases n,
{
    lemma_decimal_digits(n);
    let s = decimal(n);
    if n < 10 {
        lemma_digit(n);
        assert(s.drop_last() =~= seq![]);
        reveal_with_fuel(digits_value, 2);
        assert(s.len() == 1 && s[0] == digit_char(n));
    } else {
        law_decimal_is_read_back(n / 10);
        lemma_digit(n % 10);
        assert(s.drop_last() =~= decimal(n / 10));
    }
    assert(s[0] != '+') by {
        assert(is_ascii_digit(s[0]));
    }
}

/// A path gives the name behind its last slash.
pub proof fn law_name_of_a_path(directory: Seq<char>, name: Seq<char>)
    requires
        name.len() > 0,
        !name.contains('/'),
        name != "."@,
        name != ".."@,
    ensures
        file_name(directory + seq!['/'] + name) == Some(name),
        file_name(name) == Some(name),
{
    let path = directory + seq!['/'] + name;
    law_split(directory, name, '/');
    law_split(name, name, '/');
    reveal_strlit("/");
    assert("/"@ =~= seq!['/']);
    assert(name != "/"@) by {
        assert("/"@[0] == '/');
        if name == "/"@ {
            assert(name.contains(name[0]));
        }
    }
    let pieces = split(path, '/');
    assert(pieces.last() == name);
    lemma_last_component(pieces, is_rooted(path));
    let own = split(name, '/');
    assert(own.last() == name);
    lemma_last_component(own, is_rooted(name));
}

proof fn lemma_last_component(pieces: Seq<Seq<char>>, rooted: bool)
    requires
        pieces.len() > 0,
        pieces.last().len() > 0,
        pieces.last() != "."@,
    ensures
        components_upto(pieces, rooted, pieces.len() as int).len() > 0,
        components_upto(pieces, rooted, pieces.len() as int).last() == pieces.last(),
{
}

} // verus!
