//! What the words of a request refer to.

use crate::grounding::{
    clean_words, clean_words_of, drop_repeats, has_extension, has_extension_text, is_web_link,
    last_index, last_index_of, web_link, without_repeats,
};
use crate::split::{lemma_views_push, words_text};
use crate::text::{
    ascii_lower, chars_of, contains, contains_char, contains_text, in_set, is_ascii_alnum,
    is_ascii_digit, is_ascii_upper, opt_view, push_char, starts_with, starts_with_text, str_eq,
    string_from, trim, trim_by, views, words,
};
use crate::trim::{lower_text, trim_set_text, trim_text};
use vstd::prelude::*;

verus! {

/// A file extension that is known, in lower case.
pub open spec fn known_extension(e: Seq<char>) -> bool {
    e == "txt"@ || e == "md"@ || e == "markdown"@ || e == "rs"@ || e == "toml"@ || e == "json"@ || e
        == "yaml"@ || e == "yml"@ || e == "csv"@ || e == "tsv"@ || e == "xlsx"@ || e == "xls"@ || e
        == "env"@ || e == "lock"@ || e == "log"@ || e == "py"@ || e == "js"@ || e == "ts"@ || e
        == "jsx"@ || e == "tsx"@ || e == "html"@ || e == "css"@ || e == "sh"@ || e == "bash"@ || e
        == "zsh"@ || e == "sql"@
}

pub fn looks_like_known_file_extension(extension: &str) -> (r: bool)
    ensures
        r == known_extension(ascii_lower(extension@)),
{
    let lowered: String = lower_text(extension);
    let e: &str = lowered.as_str();
    str_eq(e, "txt") || str_eq(e, "md") || str_eq(e, "markdown") || str_eq(e, "rs") || str_eq(
        e,
        "toml",
    ) || str_eq(e, "json") || str_eq(e, "yaml") || str_eq(e, "yml") || str_eq(e, "csv") || str_eq(
        e,
        "tsv",
    ) || str_eq(e, "xlsx") || str_eq(e, "xls") || str_eq(e, "env") || str_eq(e, "lock") || str_eq(
        e,
        "log",
    ) || str_eq(e, "py") || str_eq(e, "js") || str_eq(e, "ts") || str_eq(e, "jsx") || str_eq(
        e,
        "tsx",
    ) || str_eq(e, "html") || str_eq(e, "css") || str_eq(e, "sh") || str_eq(e, "bash") || str_eq(
        e,
        "zsh",
    ) || str_eq(e, "sql")
}

pub open spec fn has_upper_or_digit(s: Seq<char>) -> bool {
    exists|i: int| 0 <= i < s.len() && (is_ascii_upper(#[trigger] s[i]) || is_ascii_digit(s[i]))
}

fn holds_upper_or_digit(s: &str) -> (r: bool)
    ensures
        r == has_upper_or_digit(s@),
{
    let chars: Vec<char> = chars_of(s);
    let mut i: usize = 0;
    while i < chars.len()
        invariant
            i <= chars.len(),
            chars@ == s@,
            forall|j: int|
                0 <= j < i ==> !is_ascii_upper(#[trigger] s@[j]) && !is_ascii_digit(s@[j]),
        decreases chars.len() - i,
    {
        let c: char = chars[i];
        assert(s@[i as int] == c);
        if ('A' <= c && c <= 'Z') || ('0' <= c && c <= '9') {
            return true;
        }
        i = i + 1;
    }
    false
}

/// A token whose extension, or whose stem, marks it as the name of a file.
pub open spec fn named_like_file(token: Seq<char>) -> bool {
    let dot = last_index(token, '.');
    let stem = token.take(dot);
    has_extension(token) && (known_extension(ascii_lower(token.skip(dot + 1))) || stem.contains('-')
        || stem.contains('_') || has_upper_or_digit(stem))
}

/// A token of a request that reads like a path.
pub open spec fn request_path_like(token: Seq<char>) -> bool {
    &&& token.len() > 0
    &&& token == "."@ || token == ".."@ || token.contains('/') || token.contains('\\')
        || named_like_file(token)
}

fn named_like_file_text(token: &str) -> (r: bool)
    ensures
        r == named_like_file(token@),
{
    if !has_extension_text(token) {
        return false;
    }
    let chars: Vec<char> = chars_of(token);
    match last_index_of(&chars, '.') {
        None => false,
        Some(dot) => {
            let stem: String = string_from(&chars, 0, dot);
            let extension: String = string_from(&chars, dot + 1, chars.len());
            assert(stem@ =~= token@.take(dot as int));
            assert(extension@ =~= token@.skip(dot + 1));
            looks_like_known_file_extension(extension.as_str()) || contains_char(
                stem.as_str(),
                '-',
            ) || contains_char(stem.as_str(), '_') || holds_upper_or_digit(stem.as_str())
        },
    }
}

pub fn looks_like_path_candidate(token: &str) -> (r: bool)
    ensures
        r == request_path_like(token@),
{
    if token.is_empty() {
        return false;
    }
    str_eq(token, ".") || str_eq(token, "..") || contains_char(token, '/') || contains_char(
        token,
        '\\',
    ) || named_like_file_text(token)
}

/// The ASCII letters and digits of a text.
pub open spec fn alnum_only(s: Seq<char>) -> Seq<char>
    decreases s.len(),
{
    if s.len() == 0 {
        seq![]
    } else if is_ascii_alnum(s.last()) {
        alnum_only(s.drop_last()).push(s.last())
    } else {
        alnum_only(s.drop_last())
    }
}

/// The ASCII letters and digits of a text, in lower case.
pub open spec fn normalized(s: Seq<char>) -> Seq<char> {
    ascii_lower(alnum_only(s))
}

pub fn normalize(value: &str) -> (r: String)
    ensures
        r@ == normalized(value@),
{
    let chars: Vec<char> = chars_of(value);
    let mut kept: String = String::new();
    let mut i: usize = 0;
    assert(chars@.take(0) =~= seq![]);
    while i < chars.len()
        invariant
            i <= chars.len(),
            chars@ == value@,
            kept@ == alnum_only(value@.take(i as int)),
        decreases chars.len() - i,
    {
        let c: char = chars[i];
        assert(value@.take(i + 1).drop_last() =~= value@.take(i as int));
        if ('0' <= c && c <= '9') || ('A' <= c && c <= 'Z') || ('a' <= c && c <= 'z') {
            push_char(&mut kept, c);
        }
        i = i + 1;
    }
    assert(value@.take(i as int) =~= value@);
    lower_text(kept.as_str())
}

/// A word that can refer to a skill or a tool: no path and no link.
pub open spec fn names_something(token: Seq<char>) -> bool {
    token.len() > 0 && !request_path_like(token) && !is_web_link(token) && normalized(token).len()
        > 0
}

/// The words that can refer to something, normalized.
pub open spec fn referring(tokens: Seq<Seq<char>>) -> Seq<Seq<char>>
    decreases tokens.len(),
{
    if tokens.len() == 0 {
        seq![]
    } else if names_something(tokens.last()) {
        referring(tokens.drop_last()).push(normalized(tokens.last()))
    } else {
        referring(tokens.drop_last())
    }
}

/// The words of a request that can refer to a skill or a tool.
pub open spec fn reference_tokens(goal: Seq<char>) -> Seq<Seq<char>> {
    without_repeats(referring(clean_words(goal)))
}

pub fn explicit_skill_tokens(goal: &str) -> (r: Vec<String>)
    ensures
        views(r@) == reference_tokens(goal@),
{
    let tokens: Vec<String> = clean_words_of(goal);
    let ghost all = views(tokens@);
    let mut out: Vec<String> = Vec::new();
    let mut i: usize = 0;
    assert(all.take(0) =~= seq![]);
    assert(views(out@) =~= seq![]);
    while i < tokens.len()
        invariant
            i <= tokens.len(),
            all == views(tokens@),
            views(out@) == referring(all.take(i as int)),
        decreases tokens.len() - i,
    {
        let token: &str = tokens[i].as_str();
        assert(all.take(i + 1).drop_last() =~= all.take(i as int));
        assert(all.take(i + 1).last() == token@);
        if !token.is_empty() && !looks_like_path_candidate(token) && !web_link(token) {
            let name: String = normalize(token);
            if !name.as_str().is_empty() {
                proof {
                    lemma_views_push(out@, name);
                }
                out.push(name);
            }
        }
        i = i + 1;
    }
    assert(all.take(i as int) =~= all);
    drop_repeats(&out)
}

/// A command that runs one of a skill's scripts.
pub open spec fn script_reference(value: Seq<char>) -> bool {
    let lowered = ascii_lower(trim(value));
    contains(lowered, "scripts/"@) || starts_with(lowered, "./scripts/"@)
}

pub fn looks_like_script_reference(value: &str) -> (r: bool)
    ensures
        r == script_reference(value@),
{
    let bare: String = trim_text(value);
    let lowered: String = lower_text(bare.as_str());
    contains_text(lowered.as_str(), "scripts/") || starts_with_text(lowered.as_str(), "./scripts/")
}

/// Several commands in one line.
pub open spec fn command_chain(goal: Seq<char>) -> bool {
    contains(goal, "&&"@) || contains(goal, "||"@) || goal.contains(';')
}

pub fn has_shell_command_chain(goal: &str) -> (r: bool)
    ensures
        r == command_chain(goal@),
{
    contains_text(goal, "&&") || contains_text(goal, "||") || contains_char(goal, ';')
}

/// The words of a request that may be the address of a skill, without brackets and
/// punctuation around them.
pub open spec fn source_words(goal: Seq<char>) -> Seq<Seq<char>> {
    words(goal).map_values(|w: Seq<char>| trim_by(w, in_set("()[]{}<>\"',;."@)))
}

pub fn skill_source_tokens(goal: &str) -> (r: Vec<String>)
    ensures
        views(r@) == source_words(goal@),
{
    let raw: Vec<String> = words_text(goal);
    let ghost all = source_words(goal@);
    let mut out: Vec<String> = Vec::new();
    let mut i: usize = 0;
    while i < raw.len()
        invariant
            i <= raw.len(),
            views(raw@) == words(goal@),
            all == source_words(goal@),
            all.len() == raw.len(),
            out.len() == i,
            forall|j: int| 0 <= j < i ==> (#[trigger] out@[j])@ == all[j],
        decreases raw.len() - i,
    {
        assert(views(raw@)[i as int] == raw@[i as int]@);
        out.push(trim_set_text(raw[i].as_str(), "()[]{}<>\"',;."));
        i = i + 1;
    }
    assert(views(out@) =~= all);
    out
}

/// The first address among those that the words were read as.
pub open spec fn first_source(parsed: Seq<Option<String>>) -> Option<Seq<char>>
    decreases parsed.len(),
{
    if parsed.len() == 0 {
        None
    } else if parsed[0] is Some {
        opt_view(parsed[0])
    } else {
        first_source(parsed.skip(1))
    }
}

/// The first address among those that the words of a request were read as, in the
/// order of `skill_source_tokens`.
pub fn extract_skill_source_url(parsed: &Vec<Option<String>>) -> (r: Option<String>)
    ensures
        opt_view(r) == first_source(parsed@),
{
    let mut i: usize = 0;
    assert(parsed@.skip(0) =~= parsed@);
    while i < parsed.len()
        invariant
            i <= parsed.len(),
            first_source(parsed@) == first_source(parsed@.skip(i as int)),
        decreases parsed.len() - i,
    {
        assert(parsed@.skip(i as int)[0] == parsed@[i as int]);
        assert(parsed@.skip(i as int).skip(1) =~= parsed@.skip(i + 1));
        if let Some(url) = &parsed[i] {
            return Some(url.clone());
        }
        i = i + 1;
    }
    None
}

} // verus!
