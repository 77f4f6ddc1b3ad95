//! What the words of a request or a reply refer to.

use crate::bytes::byte_len;
use crate::candidates::{first_in, holders, nonempty, pick_by_segment, segment_of, selected};
use crate::catalog::{
    best_reference, eligible, no_reference, reference, referred_to, DescriptorView, ResourceKind,
};
use crate::grounding::{
    clean_words, cleaned, fragments_from, has_extension, is_path_char, is_web_link, known_in,
    last_index, path_candidates, path_fragments, path_like, paths_in, standalone_path,
    with_fragment, without_repeats,
};
use crate::order::text_before;
use crate::path::file_name;
use crate::split::with_new;
use crate::task_laws::lemma_with_new;
use crate::text::{ascii_lower, is_ascii_alnum, is_space, starts_with, trim};
use crate::text_laws::law_words;
use crate::tokens::{
    alnum_only, first_source, known_extension, named_like_file, names_something, normalized,
    reference_tokens, referring,
};
use vstd::prelude::*;

verus! {

/// The entry at `i` is the best among the first `n`.
spec fn best_among(
    entries: Seq<DescriptorView>,
    tokens: Seq<Seq<char>>,
    kind: ResourceKind,
    enabled: Seq<Seq<char>>,
    n: int,
    i: int,
) -> bool {
    &&& 0 <= i < n
    &&& eligible(entries[i], kind, enabled)
    &&& referred_to(entries[i], tokens)
    &&& forall|j: int|
        0 <= j < n && eligible(#[trigger] entries[j], kind, enabled) && referred_to(
            entries[j],
            tokens,
        ) ==> byte_len(entries[j].name) < byte_len(entries[i].name) || (byte_len(entries[j].name)
            == byte_len(entries[i].name) && i <= j)
}

proof fn lemma_best(
    entries: Seq<DescriptorView>,
    tokens: Seq<Seq<char>>,
    kind: ResourceKind,
    enabled: Seq<Seq<char>>,
    n: int,
    some: int,
) -> (i: int)
    requires
        0 <= some < n <= entries.len(),
        eligible(entries[some], kind, enabled),
        referred_to(entries[some], tokens),
    ensures
        best_among(entries, tokens, kind, enabled, n, i),
    decreases n,
{
    let last = n - 1;
    let counts = eligible(entries[last], kind, enabled) && referred_to(entries[last], tokens);
    if exists|j: int|
        0 <= j < last && eligible(#[trigger] entries[j], kind, enabled) && referred_to(
            entries[j],
            tokens,
        ) {
        let j = choose|j: int|
            0 <= j < last && eligible(#[trigger] entries[j], kind, enabled) && referred_to(
                entries[j],
                tokens,
            );
        let i = lemma_best(entries, tokens, kind, enabled, last, j);
        if counts && byte_len(entries[last].name) > byte_len(entries[i].name) {
            last
        } else {
            i
        }
    } else {
        last
    }
}

/// What a text refers to is what it names: an entry of the right kind, an enabled one
/// where it is a tool, whose name is among the words; of several the longest name counts.
pub proof fn law_references(
    entries: Seq<DescriptorView>,
    tokens: Seq<Seq<char>>,
    kind: ResourceKind,
    enabled: Seq<Seq<char>>,
    j: int,
)
    requires
        0 <= j < entries.len(),
    ensures
        match reference(entries, tokens, kind, enabled) {
            Some(i) => {
                &&& 0 <= i < entries.len()
                &&& entries[i].kind == kind
                &&& kind == ResourceKind::Tool ==> enabled.contains(entries[i].name)
                &&& tokens.contains(normalized(entries[i].name))
                &&& entries[j].kind == kind && (kind == ResourceKind::Tool ==> enabled.contains(
                    entries[j].name,
                )) && tokens.contains(normalized(entries[j].name)) && byte_len(
                    normalized(entries[j].name),
                ) > 2 ==> byte_len(entries[j].name) <= byte_len(entries[i].name)
            },
            None => !(entries[j].kind == kind && (kind == ResourceKind::Tool ==> enabled.contains(
                entries[j].name,
            )) && tokens.contains(normalized(entries[j].name)) && byte_len(
                normalized(entries[j].name),
            ) > 2),
        },
{
    if !no_reference(entries, tokens, kind, enabled) {
        let some = choose|k: int|
            0 <= k < entries.len() && eligible(#[trigger] entries[k], kind, enabled) && referred_to(
                entries[k],
                tokens,
            );
        let i = lemma_best(entries, tokens, kind, enabled, entries.len() as int, some);
        assert(best_reference(entries, tokens, kind, enabled, i));
        let r = reference(entries, tokens, kind, enabled)->0;
        assert(best_reference(entries, tokens, kind, enabled, r));
        if eligible(entries[j], kind, enabled) && referred_to(entries[j], tokens) {
            assert(byte_len(entries[j].name) <= byte_len(entries[r].name));
        }
    } else {
        assert(eligible(entries[j], kind, enabled) ==> !referred_to(entries[j], tokens));
    }
}

/// Names are compared by their letters and digits, in lower case.
pub proof fn law_normalized_names(s: Seq<char>, c: char)
    ensures
        normalized(seq![]).len() == 0,
        is_ascii_alnum(c) ==> alnum_only(s.push(c)) == alnum_only(s).push(c),
        !is_ascii_alnum(c) ==> alnum_only(s.push(c)) == alnum_only(s),
        normalized(s) == ascii_lower(alnum_only(s)),
{
    assert(s.push(c).drop_last() =~= s);
    reveal_with_fuel(alnum_only, 1);
}

/// A reply that names a candidate selects it, the first of those that it names.
pub proof fn law_named_candidate_is_selected(
    reply: Seq<char>,
    candidates: Seq<Seq<char>>,
    entries: Seq<Seq<char>>,
    i: int,
)
    requires
        0 <= i < candidates.len(),
        path_candidates(reply, entries).contains(candidates[i]),
        forall|j: int|
            0 <= j < i ==> !path_candidates(reply, entries).contains(#[trigger] candidates[j]),
    ensures
        selected(reply, candidates, entries) == Some(candidates[i]),
{
    lemma_first_in(candidates, path_candidates(reply, entries), i);
}

proof fn lemma_first_in(list: Seq<Seq<char>>, pool: Seq<Seq<char>>, i: int)
    requires
        0 <= i < list.len(),
        pool.contains(list[i]),
        forall|j: int| 0 <= j < i ==> !pool.contains(#[trigger] list[j]),
    ensures
        first_in(list, pool) == Some(list[i]),
    decreases i,
{
    if i > 0 {
        assert(!pool.contains(list[0]));
        let rest = list.skip(1);
        assert forall|j: int| 0 <= j < i - 1 implies !pool.contains(#[trigger] rest[j]) by {
            assert(rest[j] == list[j + 1]);
        }
        lemma_first_in(rest, pool, i - 1);
    }
}

proof fn lemma_first_stays(list: Seq<Seq<char>>)
    requires
        list.len() > 0,
    ensures
        without_repeats(list).len() > 0,
        without_repeats(list)[0] == list[0],
    decreases list.len(),
{
    if list.len() > 1 {
        lemma_first_stays(list.drop_last());
    }
}

/// A word that is a path, and stands behind words that name none, is the first path that
/// a text names.
pub proof fn law_first_path(before: Seq<char>, path: Seq<char>, entries: Seq<Seq<char>>)
    requires
        paths_in(clean_words(before), entries).len() == 0,
        path.len() > 0,
        forall|i: int| 0 <= i < path.len() ==> is_path_char(#[trigger] path[i]),
        path.contains('/'),
        cleaned(path) == path,
        !is_web_link(path),
    ensures
        path_candidates(before + seq![' '] + path, entries).len() > 0,
        path_candidates(before + seq![' '] + path, entries)[0] == path,
{
    let goal = before + seq![' '] + path;
    assert forall|i: int| 0 <= i < path.len() implies !is_space(#[trigger] path[i]) by {
        assert(is_path_char(path[i]));
    }
    law_words(before, path, ' ');
    law_words(path, path, ' ');
    let tokens = clean_words(goal);
    assert(tokens.drop_last() =~= clean_words(before));
    assert(tokens.last() == path);
    assert(standalone_path(path));
    let front = paths_in(clean_words(before), entries);
    let whole = front.push(path);
    let more = crate::grounding::path_fragments(path, crate::grounding::known_in(entries));
    lemma_with_new(whole, more);
    assert(whole[0] == path);
    assert(with_new(whole, more)[0] == whole[0]);
    lemma_first_stays(with_new(whole, more));
}

/// The endings that tell a file.
pub proof fn law_known_extensions()
    ensures
        known_extension("txt"@),
        known_extension("md"@),
        known_extension("rs"@),
        known_extension("toml"@),
        known_extension("json"@),
        known_extension("yaml"@),
        known_extension("yml"@),
        known_extension("csv"@),
        known_extension("tsv"@),
        known_extension("xlsx"@),
        known_extension("env"@),
        known_extension("lock"@),
        known_extension("log"@),
        known_extension("py"@),
        known_extension("js"@),
        known_extension("ts"@),
        known_extension("html"@),
        known_extension("css"@),
        known_extension("sh"@),
        known_extension("sql"@),
        !known_extension("com"@),
        !known_extension("org"@),
{
    reveal_strlit("com");
    reveal_strlit("org");
    reveal_strlit("txt");
    reveal_strlit("md");
    reveal_strlit("markdown");
    reveal_strlit("rs");
    reveal_strlit("toml");
    reveal_strlit("json");
    reveal_strlit("yaml");
    reveal_strlit("yml");
    reveal_strlit("csv");
    reveal_strlit("tsv");
    reveal_strlit("xlsx");
    reveal_strlit("xls");
    reveal_strlit("env");
    reveal_strlit("lock");
    reveal_strlit("log");
    reveal_strlit("py");
    reveal_strlit("js");
    reveal_strlit("ts");
    reveal_strlit("jsx");
    reveal_strlit("tsx");
    reveal_strlit("html");
    reveal_strlit("css");
    reveal_strlit("sh");
    reveal_strlit("bash");
    reveal_strlit("zsh");
    reveal_strlit("sql");
    assert("com"@.len() == 3 && "com"@[0] == 'c' && "com"@[1] == 'o');
    assert("org"@.len() == 3 && "org"@[0] == 'o');
    assert("csv"@[1] == 's' && "css"@[1] == 's');
    assert("txt"@[0] == 't' && "md"@[0] == 'm' && "markdown"@[0] == 'm' && "rs"@[0] == 'r'
        && "toml"@[0] == 't' && "json"@[0] == 'j' && "yaml"@[0] == 'y' && "yml"@[0] == 'y'
        && "tsv"@[0] == 't' && "xlsx"@[0] == 'x' && "xls"@[0] == 'x' && "env"@[0] == 'e'
        && "lock"@[0] == 'l' && "log"@[0] == 'l' && "py"@[0] == 'p' && "js"@[0] == 'j' && "ts"@[0]
        == 't' && "jsx"@[0] == 'j' && "tsx"@[0] == 't' && "html"@[0] == 'h' && "sh"@[0] == 's'
        && "bash"@[0] == 'b' && "zsh"@[0] == 'z' && "sql"@[0] == 's');
    assert("csv"@[0] == 'c' && "css"@[0] == 'c');
}

/// Where a reply names no candidate's path, its words may name the file: the candidate
/// whose own name is among them is selected, the first such.
pub proof fn law_candidate_by_name(
    reply: Seq<char>,
    candidates: Seq<Seq<char>>,
    entries: Seq<Seq<char>>,
    name: Seq<char>,
)
    requires
        candidates.len() > 0,
        first_in(candidates, path_candidates(reply, entries)) is None,
        file_name(candidates[0]) == Some(name),
        nonempty(clean_words(reply)).contains(name),
    ensures
        selected(reply, candidates, entries) == Some(candidates[0]),
{
    let named = nonempty(clean_words(reply));
    let pool = named + path_fragments(reply, segment_of(candidates));
    let k = choose|k: int| 0 <= k < named.len() && named[k] == name;
    assert(pool[k] == name);
    assert(pool.contains(name));
}

/// A part of a path selects only where it has four bytes or more and fits one candidate.
pub proof fn law_candidate_by_part(token: Seq<char>, rest: Seq<Seq<char>>, candidates: Seq<Seq<char>>)
    ensures
        ({
            let text = trim(token);
            let fitting = without_repeats(holders(candidates, text));
            let r = pick_by_segment(seq![token] + rest, candidates);
            &&& byte_len(text) >= 4 && fitting.len() == 1 ==> r == Some(fitting[0])
            &&& byte_len(text) < 4 || fitting.len() != 1 ==> r == pick_by_segment(rest, candidates)
        }),
        pick_by_segment(seq![], candidates) is None,
{
    assert((seq![token] + rest)[0] == token);
    assert((seq![token] + rest).skip(1) =~= rest);
}

/// Texts are ordered by their first difference, and a beginning comes before the whole.
pub proof fn law_order(a: Seq<char>, b: Seq<char>, c: char, d: char, front: Seq<char>)
    ensures
        c < d ==> text_before(front + seq![c] + a, front + seq![d] + b),
        text_before(front, front + seq![c]),
        !text_before(a, seq![]),
    decreases front.len(),
{
    if front.len() > 0 {
        law_order(a, b, c, d, front.skip(1));
        assert((front + seq![c] + a).skip(1) =~= front.skip(1) + seq![c] + a);
        assert((front + seq![d] + b).skip(1) =~= front.skip(1) + seq![d] + b);
        assert((front + seq![c]).skip(1) =~= front.skip(1) + seq![c]);
    } else {
        assert((front + seq![c] + a)[0] == c);
        assert((front + seq![d] + b)[0] == d);
    }
}

/// Leaving out repeats keeps every entry, brings in none, and leaves no two neighbours
/// alike.
pub proof fn law_without_repeats(list: Seq<Seq<char>>)
    ensures
        ({
            let r = without_repeats(list);
            &&& forall|i: int| 0 <= i < list.len() ==> r.contains(#[trigger] list[i])
            &&& forall|i: int| 0 <= i < r.len() ==> list.contains(#[trigger] r[i])
            &&& forall|i: int, j: int|
                0 <= i && j == i + 1 && j < r.len() ==> #[trigger] r[i] != #[trigger] r[j]
            &&& list.len() > 0 ==> r.len() > 0 && r.last() == list.last()
        }),
    decreases list.len(),
{
    let r = without_repeats(list);
    if list.len() > 1 {
        let front = list.drop_last();
        law_without_repeats(front);
        let before = without_repeats(front);
        assert(front.last() == list[list.len() - 2]);
        assert forall|i: int| 0 <= i < list.len() implies r.contains(#[trigger] list[i]) by {
            if i < front.len() {
                assert(front[i] == list[i]);
                let k = choose|k: int| 0 <= k < before.len() && before[k] == list[i];
                assert(r[k] == list[i]);
            } else {
                assert(r.last() == list.last());
                assert(r[r.len() - 1] == list[i]);
            }
        }
        assert forall|i: int| 0 <= i < r.len() implies list.contains(#[trigger] r[i]) by {
            if i < before.len() {
                assert(r[i] == before[i]);
                let k = choose|k: int| 0 <= k < front.len() && front[k] == before[i];
                assert(list[k] == r[i]);
            } else {
                assert(list[list.len() - 1] == r[i]);
            }
        }
        assert forall|i: int, j: int| 0 <= i && j == i + 1 && j < r.len() implies #[trigger] r[i]
            != #[trigger] r[j] by {
            if j < before.len() {
                assert(r[i] == before[i] && r[j] == before[j]);
            } else {
                assert(r[i] == before.last());
            }
        }
    } else if list.len() == 1 {
        assert(r[0] == list[0]);
    }
}

/// What may count as a path.
spec fn may_be_path(p: Seq<char>, entries: Seq<Seq<char>>) -> bool {
    p.len() > 0 && !is_web_link(p) && (path_like(p) || entries.contains(p))
}

spec fn all_may_be(list: Seq<Seq<char>>, entries: Seq<Seq<char>>) -> bool {
    forall|i: int| 0 <= i < list.len() ==> may_be_path(#[trigger] list[i], entries)
}

proof fn lemma_fragments(
    s: Seq<char>,
    current: Seq<char>,
    found: Seq<Seq<char>>,
    entries: Seq<Seq<char>>,
)
    requires
        all_may_be(found, entries),
    ensures
        all_may_be(fragments_from(s, current, found, known_in(entries)), entries),
    decreases s.len(),
{
    let known = known_in(entries);
    let next = with_fragment(found, current, known);
    assert(all_may_be(next, entries)) by {
        assert forall|i: int| 0 <= i < next.len() implies may_be_path(
            #[trigger] next[i],
            entries,
        ) by {
            if i < found.len() {
                assert(next[i] == found[i]);
            }
        }
    }
    if s.len() > 0 {
        if is_path_char(s[0]) {
            lemma_fragments(s.skip(1), current.push(s[0]), found, entries);
        } else {
            lemma_fragments(s.skip(1), seq![], next, entries);
        }
    }
}

proof fn lemma_paths_in(tokens: Seq<Seq<char>>, entries: Seq<Seq<char>>)
    ensures
        all_may_be(paths_in(tokens, entries), entries),
    decreases tokens.len(),
{
    if tokens.len() > 0 {
        let front = tokens.drop_last();
        lemma_paths_in(front, entries);
        let token = tokens.last();
        let before = paths_in(front, entries);
        if token.len() > 0 && !is_web_link(token) {
            let whole = if standalone_path(token) || entries.contains(token) {
                before.push(token)
            } else {
                before
            };
            assert(all_may_be(whole, entries)) by {
                assert forall|i: int| 0 <= i < whole.len() implies may_be_path(
                    #[trigger] whole[i],
                    entries,
                ) by {
                    if i < before.len() {
                        assert(whole[i] == before[i]);
                    }
                }
            }
            let more = path_fragments(token, known_in(entries));
            lemma_fragments(token, seq![], seq![], entries);
            lemma_with_new(whole, more);
            let all = with_new(whole, more);
            assert forall|i: int| 0 <= i < all.len() implies may_be_path(
                #[trigger] all[i],
                entries,
            ) by {
                if whole.contains(all[i]) {
                    let k = choose|k: int| 0 <= k < whole.len() && whole[k] == all[i];
                    assert(may_be_path(whole[k], entries));
                } else {
                    let k = choose|k: int| 0 <= k < more.len() && more[k] == all[i];
                    assert(may_be_path(more[k], entries));
                }
            }
        }
    }
}

/// Every path that a text names reads like one or is the name of something in the
/// workspace, is no link into the web, and is not named twice in a row.
pub proof fn law_named_paths(goal: Seq<char>, entries: Seq<Seq<char>>, i: int)
    requires
        0 <= i < path_candidates(goal, entries).len(),
    ensures
        ({
            let path = path_candidates(goal, entries)[i];
            &&& path.len() > 0
            &&& !is_web_link(path)
            &&& path == "."@ || path == ".."@ || path.contains('/') || path.contains('\\')
                || has_extension(path) || entries.contains(path)
            &&& i > 0 ==> path != path_candidates(goal, entries)[i - 1]
        }),
{
    let list = paths_in(clean_words(goal), entries);
    lemma_paths_in(clean_words(goal), entries);
    law_without_repeats(list);
    let r = path_candidates(goal, entries);
    let k = choose|k: int| 0 <= k < list.len() && list[k] == r[i];
    assert(may_be_path(list[k], entries));
    if i > 0 {
        assert(r[i - 1] != r[i]);
    }
}

/// A candidate that a reply's words give whole is selected, where its path is not named
/// otherwise.
pub proof fn law_candidate_by_whole_word(
    reply: Seq<char>,
    candidates: Seq<Seq<char>>,
    entries: Seq<Seq<char>>,
)
    requires
        candidates.len() > 0,
        first_in(candidates, path_candidates(reply, entries)) is None,
        file_name(candidates[0]) is Some,
        nonempty(clean_words(reply)).contains(candidates[0]),
    ensures
        selected(reply, candidates, entries) == Some(candidates[0]),
{
    let named = nonempty(clean_words(reply));
    let pool = named + path_fragments(reply, segment_of(candidates));
    let k = choose|k: int| 0 <= k < named.len() && named[k] == candidates[0];
    assert(pool[k] == candidates[0]);
    assert(pool.contains(candidates[0]));
}

proof fn lemma_no_dot(s: Seq<char>, c: char)
    requires
        !s.contains(c),
    ensures
        last_index(s, c) == -1,
    decreases s.len(),
{
    if s.len() > 0 {
        assert(s.contains(s.last()));
        assert(!s.drop_last().contains(c)) by {
            if s.drop_last().contains(c) {
                let i = choose|i: int| 0 <= i < s.drop_last().len() && s.drop_last()[i] == c;
                assert(s[i] == c);
            }
        }
        lemma_no_dot(s.drop_last(), c);
    }
}

proof fn lemma_last_dot(stem: Seq<char>, ending: Seq<char>)
    requires
        !ending.contains('.'),
    ensures
        last_index(stem + seq!['.'] + ending, '.') == stem.len(),
    decreases ending.len(),
{
    let s = stem + seq!['.'] + ending;
    if ending.len() > 0 {
        assert(ending.contains(ending.last()));
        assert(s.last() == ending.last());
        assert(!ending.drop_last().contains('.')) by {
            if ending.drop_last().contains('.') {
                let i = choose|i: int|
                    0 <= i < ending.drop_last().len() && ending.drop_last()[i] == '.';
                assert(ending[i] == '.');
            }
        }
        lemma_last_dot(stem, ending.drop_last());
        assert(s.drop_last() =~= stem + seq!['.'] + ending.drop_last());
    }
}

/// Letters and digits behind the last point are a file's ending; nothing behind it is
/// none.
pub proof fn law_endings_of_files(stem: Seq<char>, ending: Seq<char>)
    requires
        forall|i: int| 0 <= i < ending.len() ==> is_ascii_alnum(#[trigger] ending[i]),
    ensures
        ending.len() > 0 ==> has_extension(stem + seq!['.'] + ending),
        !has_extension(stem + seq!['.']),
        !stem.contains('.') ==> !has_extension(stem),
{
    assert(!ending.contains('.')) by {
        if ending.contains('.') {
            let i = choose|i: int| 0 <= i < ending.len() && ending[i] == '.';
            assert(is_ascii_alnum(ending[i]));
        }
    }
    let s = stem + seq!['.'] + ending;
    lemma_last_dot(stem, ending);
    assert(s.skip(stem.len() as int + 1) =~= ending);
    lemma_last_dot(stem, seq![]);
    assert(stem + seq!['.'] + Seq::<char>::empty() =~= stem + seq!['.']);
    if !stem.contains('.') {
        lemma_no_dot(stem, '.');
    }
}

proof fn lemma_referring(tokens: Seq<Seq<char>>, i: int)
    requires
        0 <= i < tokens.len(),
        names_something(tokens[i]),
    ensures
        referring(tokens).contains(normalized(tokens[i])),
    decreases tokens.len(),
{
    let r = referring(tokens);
    if i == tokens.len() - 1 {
        assert(r[r.len() - 1] == normalized(tokens[i]));
    } else {
        let front = tokens.drop_last();
        assert(front[i] == tokens[i]);
        lemma_referring(front, i);
        let before = referring(front);
        let k = choose|k: int| 0 <= k < before.len() && before[k] == normalized(tokens[i]);
        assert(r[k] == normalized(tokens[i]));
    }
}

/// A word of letters and digits in a request may refer to something: it is looked up in
/// lower case.
pub proof fn law_words_refer(goal: Seq<char>, i: int)
    requires
        0 <= i < clean_words(goal).len(),
        clean_words(goal)[i].len() > 0,
        forall|k: int|
            0 <= k < clean_words(goal)[i].len() ==> is_ascii_alnum(
                #[trigger] clean_words(goal)[i][k],
            ),
    ensures
        reference_tokens(goal).contains(ascii_lower(clean_words(goal)[i])),
{
    let tokens = clean_words(goal);
    let w = tokens[i];
    lemma_all_alnum(w);
    assert(!w.contains('.') && !w.contains('/') && !w.contains('\\') && !w.contains(':')) by {
        if w.contains('.') {
            let k = choose|k: int| 0 <= k < w.len() && w[k] == '.';
            assert(is_ascii_alnum(w[k]));
        }
        if w.contains('/') {
            let k = choose|k: int| 0 <= k < w.len() && w[k] == '/';
            assert(is_ascii_alnum(w[k]));
        }
        if w.contains('\\') {
            let k = choose|k: int| 0 <= k < w.len() && w[k] == '\\';
            assert(is_ascii_alnum(w[k]));
        }
        if w.contains(':') {
            let k = choose|k: int| 0 <= k < w.len() && w[k] == ':';
            assert(is_ascii_alnum(w[k]));
        }
    }
    lemma_no_dot(w, '.');
    reveal_strlit(".");
    reveal_strlit("..");
    reveal_strlit("http://");
    reveal_strlit("https://");
    assert("."@[0] == '.' && ".."@[0] == '.');
    assert("http://"@[4] == ':' && "https://"@[5] == ':');
    assert(w != "."@ && w != ".."@) by {
        if w == "."@ || w == ".."@ {
            assert(w[0] == '.');
            assert(w.contains(w[0]));
        }
    }
    assert(!is_web_link(w)) by {
        if starts_with(w, "http://"@) {
            assert(w.subrange(0, "http://"@.len() as int)[4] == w[4]);
            assert(w.contains(w[4]));
        }
        if starts_with(w, "https://"@) {
            assert(w.subrange(0, "https://"@.len() as int)[5] == w[5]);
            assert(w.contains(w[5]));
        }
    }
    assert(normalized(w) == ascii_lower(w));
    assert(names_something(w));
    lemma_referring(tokens, i);
    let list = referring(tokens);
    law_without_repeats(list);
    let k = choose|k: int| 0 <= k < list.len() && list[k] == normalized(w);
    assert(without_repeats(list).contains(list[k]));
}

proof fn lemma_all_alnum(s: Seq<char>)
    requires
        forall|k: int| 0 <= k < s.len() ==> is_ascii_alnum(#[trigger] s[k]),
    ensures
        alnum_only(s) == s,
    decreases s.len(),
{
    if s.len() > 0 {
        let front = s.drop_last();
        assert forall|k: int| 0 <= k < front.len() implies is_ascii_alnum(#[trigger] front[k]) by {
            assert(s[k] == front[k]);
        }
        lemma_all_alnum(front);
        assert(is_ascii_alnum(s[s.len() - 1]));
        assert(front.push(s.last()) =~= s);
    }
}

/// A word is a file's name by a known ending, or by a dash, an underscore, a capital or a
/// digit before its ending; a plain word with another ending is none.
pub proof fn law_files_by_name(stem: Seq<char>, ending: Seq<char>)
    requires
        ending.len() > 0,
        forall|i: int| 0 <= i < ending.len() ==> is_ascii_alnum(#[trigger] ending[i]),
    ensures
        known_extension(ascii_lower(ending)) ==> named_like_file(stem + seq!['.'] + ending),
        stem.contains('-') || stem.contains('_') ==> named_like_file(stem + seq!['.'] + ending),
        !known_extension(ascii_lower(ending)) && !stem.contains('-') && !stem.contains('_') && (
        forall|i: int| 0 <= i < stem.len() ==> 'a' <= #[trigger] stem[i] <= 'z')
            ==> !named_like_file(stem + seq!['.'] + ending),
{
    law_endings_of_files(stem, ending);
    assert(!ending.contains('.')) by {
        if ending.contains('.') {
            let i = choose|i: int| 0 <= i < ending.len() && ending[i] == '.';
            assert(is_ascii_alnum(ending[i]));
        }
    }
    let s = stem + seq!['.'] + ending;
    lemma_last_dot(stem, ending);
    assert(s.skip(stem.len() as int + 1) =~= ending);
    assert(s.take(stem.len() as int) =~= stem);
}

/// The source of a skill is the first address among the words.
pub proof fn law_first_source(parsed: Seq<Option<String>>, url: String)
    ensures
        first_source(seq![]) is None,
        first_source(seq![Some(url)] + parsed) == Some(url@),
        first_source(seq![None::<String>] + parsed) == first_source(parsed),
{
    assert((seq![Some(url)] + parsed)[0] == Some(url));
    let rest = seq![None::<String>] + parsed;
    assert(rest[0] is None);
    assert(rest.skip(1) =~= parsed);
}

} // verus!
