//! Concrete paths, names and numbers in what the user wrote.

use crate::number::{parse_bounded, parse_u64_bounded};
use crate::split::{extend_new, lemma_views_push, list_has, with_new, words_text};
use crate::text::{
    ascii_lower, chars_of, contains, contains_char, ends_with, ends_with_text, find, find_chars,
    in_set, is_ascii_alnum, opt_view, push_char, starts_with, starts_with_text, str_eq, string_from,
    trim, trim_by, trim_end_by, views, words,
};
use crate::trim::{lower_text, trim_end_set_text, trim_set_text, trim_text};
use vstd::prelude::*;

verus! {

/// A word without quotes and brackets around it and without a colon or a point
/// at its end.
pub open spec fn cleaned(token: Seq<char>) -> Seq<char> {
    if token == "."@ || token == ".."@ {
        token
    } else {
        trim_end_by(
            trim_end_by(trim_by(token, in_set("\"'()[]{}<>,;!?"@)), in_set(":"@)),
            in_set("."@),
        )
    }
}

pub fn clean_token(token: &str) -> (r: String)
    ensures
        r@ == cleaned(token@),
{
    if str_eq(token, ".") || str_eq(token, "..") {
        return token.to_owned();
    }
    let bare: String = trim_set_text(token, "\"'()[]{}<>,;!?");
    let open: String = trim_end_set_text(bare.as_str(), ":");
    trim_end_set_text(open.as_str(), ".")
}

/// The words of a text, cleaned.
pub open spec fn clean_words(s: Seq<char>) -> Seq<Seq<char>> {
    words(s).map_values(|w: Seq<char>| cleaned(w))
}

pub fn clean_words_of(s: &str) -> (r: Vec<String>)
    ensures
        views(r@) == clean_words(s@),
{
    let raw: Vec<String> = words_text(s);
    let ghost all = clean_words(s@);
    let mut out: Vec<String> = Vec::new();
    let mut i: usize = 0;
    while i < raw.len()
        invariant
            i <= raw.len(),
            views(raw@) == words(s@),
            all == clean_words(s@),
            all.len() == raw.len(),
            out.len() == i,
            forall|j: int| 0 <= j < i ==> (#[trigger] out@[j])@ == all[j],
        decreases raw.len() - i,
    {
        assert(views(raw@)[i as int] == raw@[i as int]@);
        out.push(clean_token(raw[i].as_str()));
        i = i + 1;
    }
    assert(views(out@) =~= all);
    out
}

pub open spec fn is_path_char(c: char) -> bool {
    is_ascii_alnum(c) || c == '.' || c == '/' || c == '\\' || c == '_' || c == '-'
}

pub fn is_path_fragment_char(c: char) -> (r: bool)
    ensures
        r == is_path_char(c),
{
    ('0' <= c && c <= '9') || ('A' <= c && c <= 'Z') || ('a' <= c && c <= 'z') || c == '.' || c
        == '/' || c == '\\' || c == '_' || c == '-'
}

/// The index of the last `c` in `s`, or -1.
pub open spec fn last_index(s: Seq<char>, c: char) -> int
    decreases s.len(),
{
    if s.len() == 0 {
        -1
    } else if s.last() == c {
        s.len() - 1
    } else {
        last_index(s.drop_last(), c)
    }
}

pub fn last_index_of(chars: &Vec<char>, c: char) -> (r: Option<usize>)
    ensures
        match r {
            Some(i) => i == last_index(chars@, c) && i < chars.len(),
            None => last_index(chars@, c) == -1,
        },
{
    let mut i: usize = chars.len();
    assert(chars@.take(i as int) =~= chars@);
    while i > 0
        invariant
            i <= chars.len(),
            last_index(chars@, c) == last_index(chars@.take(i as int), c),
        decreases i,
    {
        assert(chars@.take(i as int).last() == chars@[i - 1]);
        assert(chars@.take(i as int).drop_last() =~= chars@.take(i - 1));
        if chars[i - 1] == c {
            return Some(i - 1);
        }
        i = i - 1;
    }
    None
}

pub open spec fn all_alnum(s: Seq<char>) -> bool {
    forall|i: int| 0 <= i < s.len() ==> is_ascii_alnum(#[trigger] s[i])
}

/// The text behind the last point is a file extension.
pub open spec fn has_extension(token: Seq<char>) -> bool {
    let dot = last_index(token, '.');
    dot >= 0 && dot + 1 < token.len() && all_alnum(token.skip(dot + 1))
}

/// A token that reads like a path.
pub open spec fn path_like(token: Seq<char>) -> bool {
    &&& token.len() > 0
    &&& token == "."@ || token == ".."@ || token.contains('/') || token.contains('\\')
        || has_extension(token)
}

pub fn has_extension_text(token: &str) -> (r: bool)
    ensures
        r == has_extension(token@),
{
    let chars: Vec<char> = chars_of(token);
    match last_index_of(&chars, '.') {
        None => false,
        Some(dot) => {
            if dot + 1 >= chars.len() {
                return false;
            }
            let ghost extension = token@.skip(dot + 1);
            let mut i: usize = dot + 1;
            while i < chars.len()
                invariant
                    dot + 1 <= i <= chars.len(),
                    chars@ == token@,
                    dot == last_index(token@, '.'),
                    dot + 1 < token@.len(),
                    extension == token@.skip(dot + 1),
                    forall|j: int|
                        0 <= j < i - dot - 1 ==> is_ascii_alnum(#[trigger] extension[j]),
                decreases chars.len() - i,
            {
                let c: char = chars[i];
                assert(extension[i - dot - 1] == c);
                if !(('0' <= c && c <= '9') || ('A' <= c && c <= 'Z') || ('a' <= c && c <= 'z')) {
                    return false;
                }
                i = i + 1;
            }
            true
        },
    }
}

pub fn looks_like_path_candidate(token: &str) -> (r: bool)
    ensures
        r == path_like(token@),
{
    if token.is_empty() {
        return false;
    }
    str_eq(token, ".") || str_eq(token, "..") || contains_char(token, '/') || contains_char(
        token,
        '\\',
    ) || has_extension_text(token)
}

pub open spec fn all_path_chars(s: Seq<char>) -> bool {
    forall|i: int| 0 <= i < s.len() ==> is_path_char(#[trigger] s[i])
}

/// A token that is a path as a whole.
pub open spec fn standalone_path(token: Seq<char>) -> bool {
    token == "."@ || token == ".."@ || (token.len() > 0 && all_path_chars(token) && path_like(
        token,
    ))
}

pub fn is_standalone_path_candidate(token: &str) -> (r: bool)
    ensures
        r == standalone_path(token@),
{
    if str_eq(token, ".") || str_eq(token, "..") {
        return true;
    }
    if token.is_empty() {
        return false;
    }
    let chars: Vec<char> = chars_of(token);
    let mut i: usize = 0;
    while i < chars.len()
        invariant
            i <= chars.len(),
            chars@ == token@,
            token@ != "."@ && token@ != ".."@,
            forall|j: int| 0 <= j < i ==> is_path_char(#[trigger] token@[j]),
        decreases chars.len() - i,
    {
        if !is_path_fragment_char(chars[i]) {
            assert(!is_path_char(token@[i as int]));
            return false;
        }
        i = i + 1;
    }
    looks_like_path_candidate(token)
}

pub open spec fn is_web_link(token: Seq<char>) -> bool {
    starts_with(token, "http://"@) || starts_with(token, "https://"@)
}

pub fn web_link(token: &str) -> (r: bool)
    ensures
        r == is_web_link(token@),
{
    starts_with_text(token, "http://") || starts_with_text(token, "https://")
}

/// The names that count as paths though they do not read like one.
pub open spec fn known_in(names: Seq<Seq<char>>) -> spec_fn(Seq<char>) -> bool {
    |s: Seq<char>| names.contains(s)
}

/// `found` with the fragment, where it is new and reads like a path or is known.
pub open spec fn with_fragment(
    found: Seq<Seq<char>>,
    fragment: Seq<char>,
    known: spec_fn(Seq<char>) -> bool,
) -> Seq<Seq<char>> {
    if fragment.len() > 0 && !is_web_link(fragment) && (path_like(fragment) || known(fragment))
        && !found.contains(fragment) {
        found.push(fragment)
    } else {
        found
    }
}

pub open spec fn fragments_from(
    s: Seq<char>,
    current: Seq<char>,
    found: Seq<Seq<char>>,
    known: spec_fn(Seq<char>) -> bool,
) -> Seq<Seq<char>>
    decreases s.len(),
{
    if s.len() == 0 {
        with_fragment(found, current, known)
    } else if is_path_char(s[0]) {
        fragments_from(s.skip(1), current.push(s[0]), found, known)
    } else {
        fragments_from(s.skip(1), seq![], with_fragment(found, current, known), known)
    }
}

/// The runs of path characters in `s` that read like a path or are known, each
/// once, in order.
pub open spec fn path_fragments(s: Seq<char>, known: spec_fn(Seq<char>) -> bool) -> Seq<Seq<char>> {
    fragments_from(s, seq![], seq![], known)
}

/// Appends the fragment where it is new and reads like a path or is in `names`.
fn push_fragment(found: &mut Vec<String>, fragment: String, names: &Vec<String>)
    ensures
        views(final(found)@) == with_fragment(
            views(old(found)@),
            fragment@,
            known_in(views(names@)),
        ),
{
    if fragment.as_str().is_empty() || web_link(fragment.as_str()) {
        return;
    }
    if (looks_like_path_candidate(fragment.as_str()) || list_has(names, fragment.as_str()))
        && !list_has(found, fragment.as_str()) {
        proof {
            lemma_views_push(found@, fragment);
        }
        found.push(fragment);
    }
}

pub fn push_grounded_path_fragment(
    fragments: &mut Vec<String>,
    current: &mut String,
    workspace_entries: &Vec<String>,
)
    ensures
        views(final(fragments)@) == with_fragment(
            views(old(fragments)@),
            old(current)@,
            known_in(views(workspace_entries@)),
        ),
        final(current)@ == Seq::<char>::empty(),
{
    let fragment: String = current.clone();
    *current = String::new();
    push_fragment(fragments, fragment, workspace_entries);
}

/// The path fragments of `s`, given the known names.
pub fn fragments_of(s: &str, names: &Vec<String>) -> (r: Vec<String>)
    ensures
        views(r@) == path_fragments(s@, known_in(views(names@))),
{
    let ghost known = known_in(views(names@));
    let chars: Vec<char> = chars_of(s);
    let mut found: Vec<String> = Vec::new();
    let mut current: String = String::new();
    let mut i: usize = 0;
    assert(chars@.skip(0) =~= chars@);
    assert(views(found@) =~= seq![]);
    while i < chars.len()
        invariant
            i <= chars.len(),
            chars@ == s@,
            known == known_in(views(names@)),
            fragments_from(s@.skip(i as int), current@, views(found@), known) == path_fragments(
                s@,
                known,
            ),
        decreases chars.len() - i,
    {
        assert(s@.skip(i as int)[0] == chars@[i as int]);
        assert(s@.skip(i as int).skip(1) =~= s@.skip(i + 1));
        if is_path_fragment_char(chars[i]) {
            push_char(&mut current, chars[i]);
        } else {
            push_grounded_path_fragment(&mut found, &mut current, names);
        }
        i = i + 1;
    }
    push_grounded_path_fragment(&mut found, &mut current, names);
    found
}

pub fn embedded_path_fragments(token: &str, workspace_entries: &Vec<String>) -> (r: Vec<String>)
    ensures
        views(r@) == path_fragments(token@, known_in(views(workspace_entries@))),
{
    fragments_of(token, workspace_entries)
}

/// `list` without the entries that equal the one before them.
pub open spec fn without_repeats(list: Seq<Seq<char>>) -> Seq<Seq<char>>
    decreases list.len(),
{
    if list.len() <= 1 {
        list
    } else if list.last() == list[list.len() - 2] {
        without_repeats(list.drop_last())
    } else {
        without_repeats(list.drop_last()).push(list.last())
    }
}

/// The paths found in the cleaned words, in order.
pub open spec fn paths_in(tokens: Seq<Seq<char>>, entries: Seq<Seq<char>>) -> Seq<Seq<char>>
    decreases tokens.len(),
{
    if tokens.len() == 0 {
        seq![]
    } else {
        let before = paths_in(tokens.drop_last(), entries);
        let token = tokens.last();
        if token.len() == 0 || is_web_link(token) {
            before
        } else {
            let whole = if standalone_path(token) || entries.contains(token) {
                before.push(token)
            } else {
                before
            };
            with_new(whole, path_fragments(token, known_in(entries)))
        }
    }
}

/// The paths that a text names, given the names in the workspace.
pub open spec fn path_candidates(goal: Seq<char>, entries: Seq<Seq<char>>) -> Seq<Seq<char>> {
    without_repeats(paths_in(clean_words(goal), entries))
}

/// A copy of `list` without the entries that equal the one before them.
pub fn drop_repeats(list: &Vec<String>) -> (r: Vec<String>)
    ensures
        views(r@) == without_repeats(views(list@)),
{
    let ghost all = views(list@);
    let mut out: Vec<String> = Vec::new();
    let mut i: usize = 0;
    assert(views(out@) =~= without_repeats(all.take(0)));
    while i < list.len()
        invariant
            i <= list.len(),
            all == views(list@),
            views(out@) == without_repeats(all.take(i as int)),
        decreases list.len() - i,
    {
        assert(all.take(i + 1).drop_last() =~= all.take(i as int));
        assert(all.take(i + 1).last() == list@[i as int]@);
        if i > 0 {
            assert(all.take(i + 1)[i - 1] == list@[i - 1]@);
        }
        if i == 0 || !str_eq(list[i].as_str(), list[i - 1].as_str()) {
            let s: String = list[i].clone();
            proof {
                lemma_views_push(out@, s);
                if i == 0 {
                    assert(all.take(1) =~= seq![s@]);
                    assert(views(out@) =~= seq![]);
                    assert(seq![].push(s@) =~= seq![s@]);
                }
            }
            out.push(s);
        }
        i = i + 1;
    }
    assert(all.take(i as int) =~= all);
    out
}

/// The paths that a text names, given the names in the workspace.
pub fn extract_path_candidates(goal: &str, workspace_entries: &Vec<String>) -> (r: Vec<String>)
    ensures
        views(r@) == path_candidates(goal@, views(workspace_entries@)),
{
    let ghost entries = views(workspace_entries@);
    let tokens: Vec<String> = clean_words_of(goal);
    let ghost all = views(tokens@);
    let mut paths: Vec<String> = Vec::new();
    let mut i: usize = 0;
    assert(views(paths@) =~= paths_in(all.take(0), entries));
    while i < tokens.len()
        invariant
            i <= tokens.len(),
            all == views(tokens@),
            entries == views(workspace_entries@),
            views(paths@) == paths_in(all.take(i as int), entries),
        decreases tokens.len() - i,
    {
        assert(all.take(i + 1).drop_last() =~= all.take(i as int));
        assert(all.take(i + 1).last() == tokens@[i as int]@);
        let token: &str = tokens[i].as_str();
        if !token.is_empty() && !web_link(token) {
            if is_standalone_path_candidate(token) || list_has(workspace_entries, token) {
                let s: String = token.to_owned();
                proof {
                    lemma_views_push(paths@, s);
                }
                paths.push(s);
            }
            let fragments: Vec<String> = embedded_path_fragments(token, workspace_entries);
            extend_new(&mut paths, &fragments);
        }
        i = i + 1;
    }
    assert(all.take(i as int) =~= all);
    drop_repeats(&paths)
}

pub open spec fn is_table_path(path: Seq<char>) -> bool {
    let lower = ascii_lower(path);
    ends_with(lower, ".csv"@) || ends_with(lower, ".tsv"@) || ends_with(lower, ".xlsx"@)
}

/// The first table file among the paths.
pub open spec fn first_table(paths: Seq<Seq<char>>) -> Option<Seq<char>>
    decreases paths.len(),
{
    if paths.len() == 0 {
        None
    } else if is_table_path(paths[0]) {
        Some(paths[0])
    } else {
        first_table(paths.skip(1))
    }
}

/// The first table file that a text names.
pub fn extract_table_path(goal: &str, workspace_entries: &Vec<String>) -> (r: Option<String>)
    ensures
        opt_view(r) == first_table(path_candidates(goal@, views(workspace_entries@))),
{
    let paths: Vec<String> = extract_path_candidates(goal, workspace_entries);
    let ghost all = views(paths@);
    let mut i: usize = 0;
    assert(all.skip(0) =~= all);
    while i < paths.len()
        invariant
            i <= paths.len(),
            all == views(paths@),
            all == path_candidates(goal@, views(workspace_entries@)),
            first_table(all) == first_table(all.skip(i as int)),
        decreases paths.len() - i,
    {
        assert(all.skip(i as int)[0] == paths@[i as int]@);
        assert(all.skip(i as int).skip(1) =~= all.skip(i + 1));
        let lower: String = lower_text(paths[i].as_str());
        if ends_with_text(lower.as_str(), ".csv") || ends_with_text(lower.as_str(), ".tsv")
            || ends_with_text(lower.as_str(), ".xlsx") {
            return Some(paths[i].clone());
        }
        i = i + 1;
    }
    None
}

/// The sheet that a text names: what follows the first `sheet `, without quotes,
/// where it is one word.
pub open spec fn sheet_name(goal: Seq<char>) -> Option<Seq<char>> {
    match find(ascii_lower(goal), "sheet "@) {
        None => None,
        Some(i) => {
            let name = trim_by(trim(goal.skip(i + "sheet "@.len())), in_set("\"'`,.;"@));
            if name.len() > 0 && !name.contains(' ') {
                Some(name)
            } else {
                None
            }
        },
    }
}

pub fn extract_sheet_name(goal: &str) -> (r: Option<String>)
    ensures
        opt_view(r) == sheet_name(goal@),
{
    let lower: String = lower_text(goal);
    let lower_chars: Vec<char> = chars_of(lower.as_str());
    let marker: Vec<char> = chars_of("sheet ");
    match find_chars(&lower_chars, &marker) {
        None => None,
        Some(i) => {
            let chars: Vec<char> = chars_of(goal);
            assert(lower_chars.len() == chars.len());
            let suffix: String = string_from(&chars, i + marker.len(), chars.len());
            assert(suffix@ =~= goal@.skip(i + marker@.len()));
            let inner: String = trim_text(suffix.as_str());
            let name: String = trim_set_text(inner.as_str(), "\"'`,.;");
            if !name.as_str().is_empty() && !contains_char(name.as_str(), ' ') {
                Some(name)
            } else {
                None
            }
        },
    }
}

/// The first number among the cleaned words.
pub open spec fn first_number(tokens: Seq<Seq<char>>) -> Option<nat>
    decreases tokens.len(),
{
    if tokens.len() == 0 {
        None
    } else {
        match parse_bounded(tokens[0], u64::MAX as nat) {
            Some(n) => Some(n),
            None => first_number(tokens.skip(1)),
        }
    }
}

/// The number of rows that a text asks for, between 1 and 50.
pub open spec fn row_limit(goal: Seq<char>) -> Option<nat> {
    match first_number(clean_words(goal)) {
        Some(n) => if n < 1 {
            Some(1)
        } else if n > 50 {
            Some(50)
        } else {
            Some(n)
        },
        None => None,
    }
}

pub fn extract_row_limit(goal: &str) -> (r: Option<u64>)
    ensures
        match r {
            Some(n) => row_limit(goal@) == Some(n as nat),
            None => row_limit(goal@) is None,
        },
{
    let tokens: Vec<String> = clean_words_of(goal);
    let ghost all = views(tokens@);
    let mut i: usize = 0;
    assert(all.skip(0) =~= all);
    while i < tokens.len()
        invariant
            i <= tokens.len(),
            all == views(tokens@),
            all == clean_words(goal@),
            first_number(all) == first_number(all.skip(i as int)),
        decreases tokens.len() - i,
    {
        assert(all.skip(i as int)[0] == tokens@[i as int]@);
        assert(all.skip(i as int).skip(1) =~= all.skip(i + 1));
        match parse_u64_bounded(tokens[i].as_str(), u64::MAX) {
            Some(n) => {
                return Some(
                    if n < 1 {
                        1
                    } else if n > 50 {
                        50
                    } else {
                        n
                    },
                );
            },
            None => {},
        }
        i = i + 1;
    }
    None
}

/// The text as a search query, without quotes and end marks around it.
pub open spec fn web_query(goal: Seq<char>) -> Option<Seq<char>> {
    let query = trim_by(trim(goal), in_set("\"'.!?"@));
    if query.len() > 0 {
        Some(query)
    } else {
        None
    }
}

pub fn extract_web_query(goal: &str) -> (r: Option<String>)
    ensures
        opt_view(r) == web_query(goal@),
{
    let inner: String = trim_text(goal);
    let query: String = trim_set_text(inner.as_str(), "\"'.!?");
    if query.as_str().is_empty() {
        None
    } else {
        Some(query)
    }
}

} // verus!
