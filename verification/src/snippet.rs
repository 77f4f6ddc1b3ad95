//! Python code and shell commands in what the user wrote.

use crate::split::{join_text, lemma_views_push, lines_text, words_text};
use crate::text::{
    ascii_lower, chars_of, contains, contains_char, contains_text, ends_with, ends_with_text, find,
    find_chars, in_set, is_ascii_alnum, join, lines, opt_view, starts_with, starts_with_text,
    string_from, strip_prefix, strip_prefix_text, trim, trim_by, trim_end, views, words,
};
use crate::trim::{lower_text, trim_end_text, trim_set_text, trim_text};
use vstd::prelude::*;

verus! {

pub open spec fn some_if_any(s: Seq<char>) -> Option<Seq<char>> {
    if s.len() > 0 {
        Some(s)
    } else {
        None
    }
}

fn some_if_any_text(s: String) -> (r: Option<String>)
    ensures
        opt_view(r) == some_if_any(s@),
{
    if s.as_str().is_empty() {
        None
    } else {
        Some(s)
    }
}

/// The text behind the first `open`.
pub open spec fn behind(s: Seq<char>, open: Seq<char>) -> Option<Seq<char>> {
    match find(s, open) {
        None => None,
        Some(i) => Some(s.skip(i + open.len())),
    }
}

fn behind_text(s: &str, open: &str) -> (r: Option<String>)
    ensures
        opt_view(r) == behind(s@, open@),
{
    let chars: Vec<char> = chars_of(s);
    let pattern: Vec<char> = chars_of(open);
    match find_chars(&chars, &pattern) {
        None => None,
        Some(i) => {
            let end: usize = chars.len();
            let rest: String = string_from(&chars, i + pattern.len(), end);
            assert(rest@ =~= s@.skip(i + open@.len()));
            Some(rest)
        },
    }
}

/// The text before the first `close`.
pub open spec fn before(s: Seq<char>, close: Seq<char>) -> Option<Seq<char>> {
    match find(s, close) {
        None => None,
        Some(end) => Some(s.take(end)),
    }
}

fn before_text(s: &str, close: &str) -> (r: Option<String>)
    ensures
        opt_view(r) == before(s@, close@),
{
    let chars: Vec<char> = chars_of(s);
    let pattern: Vec<char> = chars_of(close);
    match find_chars(&chars, &pattern) {
        None => None,
        Some(end) => {
            let head: String = string_from(&chars, 0, end);
            assert(head@ =~= s@.take(end as int));
            Some(head)
        },
    }
}

/// `s` without the prefix, where it has it.
pub open spec fn dropping(s: Seq<char>, prefix: Seq<char>) -> Seq<char> {
    match strip_prefix(s, prefix) {
        Some(rest) => rest,
        None => s,
    }
}

fn drop_prefix(s: String, prefix: &str) -> (r: String)
    ensures
        r@ == dropping(s@, prefix@),
{
    match strip_prefix_text(s.as_str(), prefix) {
        Some(rest) => rest,
        None => s,
    }
}

/// The code of the first fenced block, whose fence may name Python.
pub open spec fn fenced_python(goal: Seq<char>) -> Option<Seq<char>> {
    match behind(goal, "```"@) {
        None => None,
        Some(rest) => match before(dropping(dropping(rest, "python"@), "\n"@), "```"@) {
            None => None,
            Some(code) => some_if_any(trim(code)),
        },
    }
}

pub fn extract_fenced_python_code(goal: &str) -> (r: Option<String>)
    ensures
        opt_view(r) == fenced_python(goal@),
{
    match behind_text(goal, "```") {
        None => None,
        Some(rest) => {
            let unnamed: String = drop_prefix(rest, "python");
            let body: String = drop_prefix(unnamed, "\n");
            match before_text(body.as_str(), "```") {
                None => None,
                Some(code) => some_if_any_text(trim_text(code.as_str())),
            }
        },
    }
}

/// The code between the first two backticks.
pub open spec fn inline_code(goal: Seq<char>) -> Option<Seq<char>> {
    match behind(goal, "`"@) {
        None => None,
        Some(rest) => match before(rest, "`"@) {
            None => None,
            Some(code) => some_if_any(trim(code)),
        },
    }
}

pub fn extract_inline_code(goal: &str) -> (r: Option<String>)
    ensures
        opt_view(r) == inline_code(goal@),
{
    match behind_text(goal, "`") {
        None => None,
        Some(rest) => match before_text(rest.as_str(), "`") {
            None => None,
            Some(code) => some_if_any_text(trim_text(code.as_str())),
        },
    }
}

pub open spec fn flag(b: bool) -> int {
    if b {
        1
    } else {
        0
    }
}

/// How many kinds of code punctuation the line holds.
pub open spec fn punctuation_kinds(line: Seq<char>) -> int {
    flag(line.contains('(')) + flag(line.contains(')')) + flag(line.contains(':')) + flag(
        line.contains('='),
    ) + flag(line.contains('[')) + flag(line.contains(']'))
}

pub open spec fn begins_with_keyword(line: Seq<char>) -> bool {
    starts_with(line, "print"@) || starts_with(line, "for "@) || starts_with(line, "if "@)
        || starts_with(line, "while "@) || starts_with(line, "def "@) || starts_with(
        line,
        "class "@,
    ) || starts_with(line, "import "@) || starts_with(line, "from "@) || starts_with(
        line,
        "return "@,
    )
}

/// A line that reads like a Python statement.
pub open spec fn python_statement(line: Seq<char>) -> bool {
    let s = trim(line);
    &&& s.len() > 0
    &&& begins_with_keyword(s) || punctuation_kinds(s) >= 2
    &&& !contains(s, "://"@)
    &&& !s.contains('，')
}

pub fn is_probable_python_statement(line: &str) -> (r: bool)
    ensures
        r == python_statement(line@),
{
    let body: String = trim_text(line);
    let s: &str = body.as_str();
    if s.is_empty() {
        return false;
    }
    let mut kinds: u8 = 0;
    if contains_char(s, '(') {
        kinds = kinds + 1;
    }
    if contains_char(s, ')') {
        kinds = kinds + 1;
    }
    if contains_char(s, ':') {
        kinds = kinds + 1;
    }
    if contains_char(s, '=') {
        kinds = kinds + 1;
    }
    if contains_char(s, '[') {
        kinds = kinds + 1;
    }
    if contains_char(s, ']') {
        kinds = kinds + 1;
    }
    let keyword: bool = starts_with_text(s, "print") || starts_with_text(s, "for ")
        || starts_with_text(s, "if ") || starts_with_text(s, "while ") || starts_with_text(
        s,
        "def ",
    ) || starts_with_text(s, "class ") || starts_with_text(s, "import ") || starts_with_text(
        s,
        "from ",
    ) || starts_with_text(s, "return ");
    (keyword || kinds >= 2) && !contains_text(s, "://") && !contains_char(s, '，')
}

/// Each line that is not blank reads like a Python statement.
pub open spec fn all_statements(list: Seq<Seq<char>>) -> bool {
    forall|i: int|
        0 <= i < list.len() ==> trim(#[trigger] list[i]).len() == 0 || python_statement(
            trim(list[i]),
        )
}

/// A text that reads like Python code.
pub open spec fn python_snippet(value: Seq<char>) -> bool {
    let s = trim(value);
    if s.len() == 0 {
        false
    } else if lines(s).len() > 1 {
        all_statements(lines(s))
    } else {
        python_statement(s)
    }
}

pub fn is_probable_python_snippet(value: &str) -> (r: bool)
    ensures
        r == python_snippet(value@),
{
    let body: String = trim_text(value);
    if body.as_str().is_empty() {
        return false;
    }
    let all: Vec<String> = lines_text(body.as_str());
    let ghost list = lines(body@);
    assert(views(all@).len() == all@.len());
    if all.len() > 1 {
        let mut i: usize = 0;
        while i < all.len()
            invariant
                i <= all.len(),
                views(all@) == list,
                list.len() > 1,
                list == lines(body@),
                body@ == trim(value@),
                body@.len() > 0,
                forall|j: int|
                    0 <= j < i ==> trim(#[trigger] list[j]).len() == 0 || python_statement(
                        trim(list[j]),
                    ),
            decreases all.len() - i,
        {
            assert(list[i as int] == all@[i as int]@);
            let line: String = trim_text(all[i].as_str());
            if !line.as_str().is_empty() && !is_probable_python_statement(line.as_str()) {
                return false;
            }
            i = i + 1;
        }
        return true;
    }
    is_probable_python_statement(body.as_str())
}

/// The code behind the last of the first `k` characters that is a colon with code
/// behind it and no code before it.
pub open spec fn python_suffix_upto(value: Seq<char>, k: int) -> Option<Seq<char>>
    decreases k,
{
    if k <= 0 {
        None
    } else if value[k - 1] == ':' && trim(value.skip(k)).len() > 0 && python_snippet(
        trim(value.skip(k)),
    ) && !python_snippet(trim(value.take(k - 1))) {
        Some(trim(value.skip(k)))
    } else {
        python_suffix_upto(value, k - 1)
    }
}

pub fn extract_python_suffix_after_separator(value: &str) -> (r: Option<String>)
    ensures
        opt_view(r) == python_suffix_upto(value@, value@.len() as int),
{
    let chars: Vec<char> = chars_of(value);
    let mut k: usize = chars.len();
    while k > 0
        invariant
            k <= chars.len(),
            chars@ == value@,
            python_suffix_upto(value@, value@.len() as int) == python_suffix_upto(
                value@,
                k as int,
            ),
        decreases k,
    {
        if chars[k - 1] == ':' {
            let raw_suffix: String = string_from(&chars, k, chars.len());
            let raw_prefix: String = string_from(&chars, 0, k - 1);
            assert(raw_suffix@ =~= value@.skip(k as int));
            assert(raw_prefix@ =~= value@.take(k - 1));
            let suffix: String = trim_text(raw_suffix.as_str());
            let prefix: String = trim_text(raw_prefix.as_str());
            if !suffix.as_str().is_empty() && is_probable_python_snippet(suffix.as_str())
                && !is_probable_python_snippet(prefix.as_str()) {
                return Some(suffix);
            }
        }
        k = k - 1;
    }
    None
}

pub open spec fn is_blank(line: Seq<char>) -> bool {
    trim(line).len() == 0
}

/// The lines without blank ones at the start.
pub open spec fn skip_blank(list: Seq<Seq<char>>) -> Seq<Seq<char>>
    decreases list.len(),
{
    if list.len() > 0 && is_blank(list[0]) {
        skip_blank(list.skip(1))
    } else {
        list
    }
}

/// The lines without blank ones at the end.
pub open spec fn drop_blank(list: Seq<Seq<char>>) -> Seq<Seq<char>>
    decreases list.len(),
{
    if list.len() > 0 && is_blank(list.last()) {
        drop_blank(list.drop_last())
    } else {
        list
    }
}

/// The index of the first line from `i` on that reads like code, or the number of
/// lines.
pub open spec fn first_code_line(list: Seq<Seq<char>>, i: int) -> int
    decreases list.len() - i,
{
    if i < 0 || i >= list.len() {
        list.len() as int
    } else if python_snippet(trim(list[i])) {
        i
    } else {
        first_code_line(list, i + 1)
    }
}

/// The lines of a text without white space at their ends and without blank ones
/// at the start and the end.
pub open spec fn block_lines(s: Seq<char>) -> Seq<Seq<char>> {
    drop_blank(skip_blank(lines(s).map_values(|l: Seq<char>| trim_end(l))))
}

pub open spec fn first_line(s: Seq<char>) -> Seq<char> {
    if lines(s).len() > 0 {
        lines(s)[0]
    } else {
        seq![]
    }
}

/// Code that stands behind a colon, is the whole text, or is its last lines.
pub open spec fn loose_python(goal: Seq<char>) -> Option<Seq<char>> {
    let s = trim(goal);
    let list = block_lines(s);
    let at = first_code_line(list, 0);
    let start = if at < list.len() {
        at
    } else {
        1
    };
    let code = trim(join(list.skip(start), "\n"@));
    match python_suffix_upto(s, s.len() as int) {
        Some(suffix) => Some(suffix),
        None => if python_snippet(s) {
            Some(s)
        } else if list.len() < 2 {
            None
        } else if code.len() > 0 && python_snippet(first_line(code)) {
            Some(code)
        } else {
            None
        },
    }
}

/// The lines of `s` as [`block_lines`] gives them.
fn block_lines_text(s: &str) -> (r: Vec<String>)
    ensures
        views(r@) == block_lines(s@),
{
    let raw: Vec<String> = lines_text(s);
    let ghost all = lines(s@).map_values(|l: Seq<char>| trim_end(l));
    let mut ends: Vec<String> = Vec::new();
    let mut i: usize = 0;
    while i < raw.len()
        invariant
            i <= raw.len(),
            views(raw@) == lines(s@),
            all == lines(s@).map_values(|l: Seq<char>| trim_end(l)),
            all.len() == raw.len(),
            ends.len() == i,
            forall|j: int| 0 <= j < i ==> (#[trigger] ends@[j])@ == all[j],
        decreases raw.len() - i,
    {
        assert(views(raw@)[i as int] == raw@[i as int]@);
        ends.push(trim_end_text(raw[i].as_str()));
        i = i + 1;
    }
    assert(views(ends@) =~= all);
    let mut from: usize = 0;
    assert(all.skip(0) =~= all);
    let mut blank: bool = true;
    while from < ends.len() && blank
        invariant
            from <= ends.len(),
            all == views(ends@),
            blank ==> skip_blank(all) == skip_blank(all.skip(from as int)),
            !blank ==> skip_blank(all) == all.skip(from as int),
        decreases ends.len() - from, flag(blank),
    {
        assert(all.skip(from as int)[0] == ends@[from as int]@);
        assert(all.skip(from as int).skip(1) =~= all.skip(from + 1));
        let body: String = trim_text(ends[from].as_str());
        if body.as_str().is_empty() {
            from = from + 1;
        } else {
            blank = false;
        }
    }
    assert(skip_blank(all) =~= all.skip(from as int));
    let ghost kept = all.skip(from as int);
    let mut to: usize = ends.len();
    let mut trailing: bool = true;
    assert(kept =~= all.subrange(from as int, to as int));
    while to > from && trailing
        invariant
            from <= to <= ends.len(),
            all == views(ends@),
            kept == all.skip(from as int),
            trailing ==> drop_blank(kept) == drop_blank(all.subrange(from as int, to as int)),
            !trailing ==> drop_blank(kept) == all.subrange(from as int, to as int),
        decreases to, flag(trailing),
    {
        let ghost part = all.subrange(from as int, to as int);
        assert(part.last() == ends@[to - 1]@);
        assert(part.drop_last() =~= all.subrange(from as int, to - 1));
        let body: String = trim_text(ends[to - 1].as_str());
        if body.as_str().is_empty() {
            to = to - 1;
        } else {
            trailing = false;
        }
    }
    assert(drop_blank(kept) =~= all.subrange(from as int, to as int));
    let mut out: Vec<String> = Vec::new();
    let mut k: usize = from;
    while k < to
        invariant
            from <= k <= to <= ends.len(),
            all == views(ends@),
            views(out@) == all.subrange(from as int, k as int),
        decreases to - k,
    {
        let line: String = ends[k].clone();
        proof {
            lemma_views_push(out@, line);
            assert(all.subrange(from as int, k + 1) =~= all.subrange(from as int, k as int).push(
                line@,
            ));
        }
        out.push(line);
        k = k + 1;
    }
    out
}

pub fn extract_line_or_block_python_code(goal: &str) -> (r: Option<String>)
    ensures
        opt_view(r) == loose_python(goal@),
{
    let body: String = trim_text(goal);
    match extract_python_suffix_after_separator(body.as_str()) {
        Some(suffix) => {
            return Some(suffix);
        },
        None => {},
    }
    if is_probable_python_snippet(body.as_str()) {
        return Some(body);
    }
    let list: Vec<String> = block_lines_text(body.as_str());
    let ghost all = block_lines(body@);
    assert(views(list@).len() == list@.len());
    if list.len() < 2 {
        return None;
    }
    let mut at: usize = 0;
    let mut found: bool = false;
    while at < list.len() && !found
        invariant
            at <= list.len(),
            views(list@) == all,
            !found ==> first_code_line(all, 0) == first_code_line(all, at as int),
            found ==> first_code_line(all, 0) == at && at < list.len(),
        decreases list.len() - at, flag(!found),
    {
        assert(all[at as int] == list@[at as int]@);
        let line: String = trim_text(list[at].as_str());
        if is_probable_python_snippet(line.as_str()) {
            found = true;
        } else {
            at = at + 1;
        }
    }
    let start: usize = if found {
        at
    } else {
        1
    };
    let mut rest: Vec<String> = Vec::new();
    let mut k: usize = start;
    while k < list.len()
        invariant
            start <= k <= list.len(),
            views(list@) == all,
            views(rest@) == all.subrange(start as int, k as int),
        decreases list.len() - k,
    {
        let line: String = list[k].clone();
        proof {
            lemma_views_push(rest@, line);
            assert(all.subrange(start as int, k + 1) =~= all.subrange(start as int, k as int).push(
                line@,
            ));
        }
        rest.push(line);
        k = k + 1;
    }
    assert(views(rest@) =~= all.skip(start as int));
    let joined: String = join_text(&rest, "\n");
    let code: String = trim_text(joined.as_str());
    if code.as_str().is_empty() {
        return None;
    }
    let code_lines: Vec<String> = lines_text(code.as_str());
    assert(views(code_lines@).len() == code_lines@.len());
    let first: String = if code_lines.len() > 0 {
        assert(views(code_lines@)[0] == code_lines@[0]@);
        code_lines[0].clone()
    } else {
        String::new()
    };
    if is_probable_python_snippet(first.as_str()) {
        Some(code)
    } else {
        None
    }
}

/// The Python code that a text gives: fenced, between backticks, or loose.
pub open spec fn python_code(goal: Seq<char>) -> Option<Seq<char>> {
    match fenced_python(goal) {
        Some(code) => Some(code),
        None => match inline_code(goal) {
            Some(code) => if python_snippet(code) {
                Some(code)
            } else {
                loose_python(goal)
            },
            None => loose_python(goal),
        },
    }
}

pub fn extract_explicit_python_code(goal: &str) -> (r: Option<String>)
    ensures
        opt_view(r) == python_code(goal@),
{
    match extract_fenced_python_code(goal) {
        Some(code) => {
            return Some(code);
        },
        None => {},
    }
    match extract_inline_code(goal) {
        Some(code) => {
            if is_probable_python_snippet(code.as_str()) {
                return Some(code);
            }
        },
        None => {},
    }
    extract_line_or_block_python_code(goal)
}

pub open spec fn is_program_char(c: char) -> bool {
    is_ascii_alnum(c) || c == '.' || c == '_' || c == '-'
}

pub open spec fn all_program_chars(s: Seq<char>) -> bool {
    forall|i: int| 0 <= i < s.len() ==> is_program_char(#[trigger] s[i])
}

/// One line whose first word can name a program.
pub open spec fn shell_command(value: Seq<char>) -> bool {
    let s = trim(value);
    &&& s.len() > 0
    &&& !s.contains('\n')
    &&& !s.contains('\r')
    &&& words(s).len() > 0
    &&& all_program_chars(words(s)[0])
}

pub fn is_probable_shell_command(value: &str) -> (r: bool)
    ensures
        r == shell_command(value@),
{
    let body: String = trim_text(value);
    if body.as_str().is_empty() || contains_char(body.as_str(), '\n') || contains_char(
        body.as_str(),
        '\r',
    ) {
        return false;
    }
    let list: Vec<String> = words_text(body.as_str());
    assert(views(list@).len() == list@.len());
    if list.len() == 0 {
        return false;
    }
    let first: Vec<char> = chars_of(list[0].as_str());
    assert(views(list@)[0] == first@);
    let mut i: usize = 0;
    while i < first.len()
        invariant
            i <= first.len(),
            first@ == words(body@)[0],
            body@ == trim(value@),
            forall|j: int| 0 <= j < i ==> is_program_char(#[trigger] first@[j]),
        decreases first.len() - i,
    {
        let c: char = first[i];
        if !(('0' <= c && c <= '9') || ('A' <= c && c <= 'Z') || ('a' <= c && c <= 'z') || c == '.'
            || c == '_' || c == '-') {
            assert(!is_program_char(first@[i as int]));
            return false;
        }
        i = i + 1;
    }
    true
}

/// The lines of the list without white space around them, but for blank ones.
pub open spec fn bare_lines(list: Seq<Seq<char>>) -> Seq<Seq<char>>
    decreases list.len(),
{
    if list.len() == 0 {
        seq![]
    } else if trim(list.last()).len() == 0 {
        bare_lines(list.drop_last())
    } else {
        bare_lines(list.drop_last()).push(trim(list.last()))
    }
}

fn bare_lines_text(list: &Vec<String>) -> (r: Vec<String>)
    ensures
        views(r@) == bare_lines(views(list@)),
{
    let ghost all = views(list@);
    let mut out: Vec<String> = Vec::new();
    let mut i: usize = 0;
    assert(views(out@) =~= bare_lines(all.take(0)));
    while i < list.len()
        invariant
            i <= list.len(),
            all == views(list@),
            views(out@) == bare_lines(all.take(i as int)),
        decreases list.len() - i,
    {
        assert(all.take(i + 1).drop_last() =~= all.take(i as int));
        assert(all.take(i + 1).last() == list@[i as int]@);
        let line: String = trim_text(list[i].as_str());
        if !line.as_str().is_empty() {
            proof {
                lemma_views_push(out@, line);
            }
            out.push(line);
        }
        i = i + 1;
    }
    assert(all.take(i as int) =~= all);
    out
}

/// The one command that a text holds, without backticks and a prompt sign.
pub open spec fn normalized_command(value: Seq<char>) -> Option<Seq<char>> {
    let s = trim(trim_by(trim(value), in_set("`"@)));
    let list = bare_lines(lines(s));
    let line = trim(dropping(list[0], "$ "@));
    if s.len() == 0 || list.len() != 1 || !shell_command(line) {
        None
    } else {
        Some(line)
    }
}

pub fn normalize_shell_command(value: &str) -> (r: Option<String>)
    ensures
        opt_view(r) == normalized_command(value@),
{
    let outer: String = trim_text(value);
    let unquoted: String = trim_set_text(outer.as_str(), "`");
    let body: String = trim_text(unquoted.as_str());
    if body.as_str().is_empty() {
        return None;
    }
    let raw: Vec<String> = lines_text(body.as_str());
    let list: Vec<String> = bare_lines_text(&raw);
    assert(views(list@).len() == list@.len());
    if list.len() != 1 {
        return None;
    }
    assert(views(list@)[0] == list@[0]@);
    let bare: String = drop_prefix(list[0].clone(), "$ ");
    let line: String = trim_text(bare.as_str());
    if is_probable_shell_command(line.as_str()) {
        Some(line)
    } else {
        None
    }
}

/// What looking for a fenced command came to.
pub enum FenceView {
    Command(Seq<char>),
    /// The fence is never closed.
    Unclosed,
    Nothing,
}

/// The command in the first block fenced with `marker`.
pub open spec fn fenced_with(goal: Seq<char>, marker: Seq<char>) -> FenceView {
    match behind(goal, marker) {
        None => FenceView::Nothing,
        Some(rest) => match before(rest, "```"@) {
            None => FenceView::Unclosed,
            Some(code) => match normalized_command(trim(code)) {
                Some(command) => FenceView::Command(command),
                None => FenceView::Nothing,
            },
        },
    }
}

/// The command in a block fenced for one of the shells; an unclosed fence ends
/// the search.
pub open spec fn fenced_shell(goal: Seq<char>) -> Option<Seq<char>> {
    match fenced_with(goal, "```bash\n"@) {
        FenceView::Command(c) => Some(c),
        FenceView::Unclosed => None,
        FenceView::Nothing => match fenced_with(goal, "```sh\n"@) {
            FenceView::Command(c) => Some(c),
            FenceView::Unclosed => None,
            FenceView::Nothing => match fenced_with(goal, "```shell\n"@) {
                FenceView::Command(c) => Some(c),
                FenceView::Unclosed => None,
                FenceView::Nothing => match fenced_with(goal, "```zsh\n"@) {
                    FenceView::Command(c) => Some(c),
                    _ => None,
                },
            },
        },
    }
}

/// The command in a block fenced with `marker`; the flag tells that a fence is
/// never closed.
fn fenced_with_text(goal: &str, marker: &str) -> (r: (Option<String>, bool))
    ensures
        match fenced_with(goal@, marker@) {
            FenceView::Command(c) => opt_view(r.0) == Some(c) && !r.1,
            FenceView::Unclosed => r.0 is None && r.1,
            FenceView::Nothing => r.0 is None && !r.1,
        },
{
    match behind_text(goal, marker) {
        None => (None, false),
        Some(rest) => match before_text(rest.as_str(), "```") {
            None => (None, true),
            Some(code) => {
                let body: String = trim_text(code.as_str());
                (normalize_shell_command(body.as_str()), false)
            },
        },
    }
}

pub fn extract_fenced_shell_command(goal: &str) -> (r: Option<String>)
    ensures
        opt_view(r) == fenced_shell(goal@),
{
    let (bash, bash_open): (Option<String>, bool) = fenced_with_text(goal, "```bash\n");
    if bash.is_some() || bash_open {
        return bash;
    }
    let (sh, sh_open): (Option<String>, bool) = fenced_with_text(goal, "```sh\n");
    if sh.is_some() || sh_open {
        return sh;
    }
    let (shell, shell_open): (Option<String>, bool) = fenced_with_text(goal, "```shell\n");
    if shell.is_some() || shell_open {
        return shell;
    }
    let (zsh, zsh_open): (Option<String>, bool) = fenced_with_text(goal, "```zsh\n");
    zsh
}

/// The first line with a prompt sign that holds a command.
pub open spec fn prompted_command(list: Seq<Seq<char>>) -> Option<Seq<char>>
    decreases list.len(),
{
    if list.len() == 0 {
        None
    } else {
        match strip_prefix(trim(list[0]), "$ "@) {
            Some(rest) => match normalized_command(rest) {
                Some(command) => Some(command),
                None => prompted_command(list.skip(1)),
            },
            None => prompted_command(list.skip(1)),
        }
    }
}

pub fn extract_dollar_prefixed_command(goal: &str) -> (r: Option<String>)
    ensures
        opt_view(r) == prompted_command(lines(goal@)),
{
    let list: Vec<String> = lines_text(goal);
    let ghost all = lines(goal@);
    let mut i: usize = 0;
    assert(all.skip(0) =~= all);
    while i < list.len()
        invariant
            i <= list.len(),
            views(list@) == all,
            all == lines(goal@),
            prompted_command(all) == prompted_command(all.skip(i as int)),
        decreases list.len() - i,
    {
        assert(views(list@)[i as int] == list@[i as int]@);
        assert(all.skip(i as int)[0] == list@[i as int]@);
        assert(all.skip(i as int).skip(1) =~= all.skip(i + 1));
        let line: String = trim_text(list[i].as_str());
        match strip_prefix_text(line.as_str(), "$ ") {
            Some(rest) => match normalize_shell_command(rest.as_str()) {
                Some(command) => {
                    return Some(command);
                },
                None => {},
            },
            None => {},
        }
        i = i + 1;
    }
    None
}

/// The words before a colon announce a command.
pub open spec fn announces_command(prefix: Seq<char>) -> bool {
    let s = ascii_lower(trim(prefix));
    contains(s, "command"@) || contains(s, "cmd"@) || contains(s, "shell"@) || contains(s, "bash"@)
        || ends_with(s, "run this"@) || ends_with(s, "execute this"@)
}

/// The command behind the last of the first `k` characters that is a colon which
/// announces one.
pub open spec fn announced_upto(goal: Seq<char>, k: int) -> Option<Seq<char>>
    decreases k,
{
    if k <= 0 {
        None
    } else if goal[k - 1] == ':' && announces_command(goal.take(k - 1)) && normalized_command(
        trim(goal.skip(k)),
    ) is Some {
        normalized_command(trim(goal.skip(k)))
    } else {
        announced_upto(goal, k - 1)
    }
}

pub fn extract_command_suffix_after_separator(goal: &str) -> (r: Option<String>)
    ensures
        opt_view(r) == announced_upto(goal@, goal@.len() as int),
{
    let chars: Vec<char> = chars_of(goal);
    let mut k: usize = chars.len();
    while k > 0
        invariant
            k <= chars.len(),
            chars@ == goal@,
            announced_upto(goal@, goal@.len() as int) == announced_upto(goal@, k as int),
        decreases k,
    {
        if chars[k - 1] == ':' {
            let raw_suffix: String = string_from(&chars, k, chars.len());
            let raw_prefix: String = string_from(&chars, 0, k - 1);
            assert(raw_suffix@ =~= goal@.skip(k as int));
            assert(raw_prefix@ =~= goal@.take(k - 1));
            let bare: String = trim_text(raw_prefix.as_str());
            let prefix: String = lower_text(bare.as_str());
            let s: &str = prefix.as_str();
            if contains_text(s, "command") || contains_text(s, "cmd") || contains_text(s, "shell")
                || contains_text(s, "bash") || ends_with_text(s, "run this") || ends_with_text(
                s,
                "execute this",
            ) {
                let suffix: String = trim_text(raw_suffix.as_str());
                match normalize_shell_command(suffix.as_str()) {
                    Some(command) => {
                        return Some(command);
                    },
                    None => {},
                }
            }
        }
        k = k - 1;
    }
    None
}

/// The shell command that a text gives: fenced, between backticks, behind a prompt
/// sign, or announced.
pub open spec fn shell_code(goal: Seq<char>) -> Option<Seq<char>> {
    let inline = match inline_code(goal) {
        Some(code) => normalized_command(code),
        None => None,
    };
    match fenced_shell(goal) {
        Some(c) => Some(c),
        None => match inline {
            Some(c) => Some(c),
            None => match prompted_command(lines(goal)) {
                Some(c) => Some(c),
                None => announced_upto(goal, goal.len() as int),
            },
        },
    }
}

pub fn extract_explicit_shell_command(goal: &str) -> (r: Option<String>)
    ensures
        opt_view(r) == shell_code(goal@),
{
    match extract_fenced_shell_command(goal) {
        Some(command) => {
            return Some(command);
        },
        None => {},
    }
    match extract_inline_code(goal) {
        Some(code) => match normalize_shell_command(code.as_str()) {
            Some(command) => {
                return Some(command);
            },
            None => {},
        },
        None => {},
    }
    match extract_dollar_prefixed_command(goal) {
        Some(command) => {
            return Some(command);
        },
        None => {},
    }
    extract_command_suffix_after_separator(goal)
}

} // verus!
