//! Which of several candidate paths a reply selects.

use crate::bytes::{byte_count, byte_len};
use crate::grounding::{
    clean_words, clean_words_of, drop_repeats, extract_path_candidates, fragments_of, known_in,
    path_candidates, path_fragments, without_repeats,
};
use crate::order::{is_before, lemma_before_total, lemma_before_transitive, text_before};
use crate::path::{candidate_path_segments, components, file_name, file_name_from_path};
use crate::split::{lemma_views_push, list_has};
use crate::text::{contains, contains_text, opt_view, str_eq, trim, views};
use crate::trim::trim_text;
use vstd::prelude::*;

verus! {

/// The list is in strictly ascending character order.
pub open spec fn ascending(list: Seq<Seq<char>>) -> bool {
    forall|i: int, j: int| 0 <= i < j < list.len() ==> text_before(#[trigger] list[i], #[trigger] list[j])
}

/// `s` is a component of one of the first `n` candidates.
pub open spec fn is_segment(candidates: Seq<Seq<char>>, n: int, s: Seq<char>) -> bool {
    s.len() > 0 && exists|i: int|
        0 <= i < n && components(#[trigger] candidates[i]).contains(s)
}

/// Puts `s` into an ascending list, unless it is there.
fn insert_ascending(list: &mut Vec<String>, s: String)
    requires
        ascending(views(old(list)@)),
    ensures
        ascending(views(final(list)@)),
        forall|x: Seq<char>|
            views(final(list)@).contains(x) <==> views(old(list)@).contains(x) || x == s@,
{
    let ghost before = views(list@);
    let mut i: usize = 0;
    while i < list.len() && is_before(list[i].as_str(), s.as_str())
        invariant
            i <= list.len(),
            before == views(list@),
            forall|j: int| 0 <= j < i ==> text_before(#[trigger] before[j], s@),
        decreases list.len() - i,
    {
        assert(before[i as int] == list@[i as int]@);
        i = i + 1;
    }
    if i < list.len() && str_eq(list[i].as_str(), s.as_str()) {
        assert(before[i as int] == s@);
        return;
    }
    let ghost text = s@;
    list.insert(i, s);
    proof {
        let after = views(list@);
        assert(after =~= before.insert(i as int, text));
        assert forall|a: int, b: int| 0 <= a < b < after.len() implies text_before(
            #[trigger] after[a],
            #[trigger] after[b],
        ) by {
            if i < before.len() {
                lemma_before_total(before[i as int], text);
            }
            if a < i && b < i {
                assert(after[a] == before[a] && after[b] == before[b]);
            } else if a < i && b == i {
                assert(after[a] == before[a]);
            } else if a < i {
                assert(after[a] == before[a] && after[b] == before[b - 1]);
            } else if a == i {
                assert(after[b] == before[b - 1]);
                if b - 1 > i {
                    assert(text_before(before[i as int], before[b - 1]));
                    lemma_before_transitive(text, before[i as int], before[b - 1]);
                }
            } else {
                assert(after[a] == before[a - 1] && after[b] == before[b - 1]);
            }
        }
        assert forall|x: Seq<char>|
            after.contains(x) <==> before.contains(x) || x == text by {
            if before.contains(x) {
                let k = choose|k: int| 0 <= k < before.len() && before[k] == x;
                if k < i {
                    assert(after[k] == x);
                } else {
                    assert(after[k + 1] == x);
                }
            }
            if x == text {
                assert(after[i as int] == x);
            }
            if after.contains(x) && x != text {
                let k = choose|k: int| 0 <= k < after.len() && after[k] == x;
                if k < i {
                    assert(before[k] == x);
                } else {
                    assert(before[k - 1] == x);
                }
            }
        }
    }
}

/// `s` is one of the first `n` parts, and not empty.
spec fn among(parts: Seq<Seq<char>>, n: int, s: Seq<char>) -> bool {
    s.len() > 0 && exists|j: int| 0 <= j < n && #[trigger] parts[j] == s
}

proof fn lemma_among_next(parts: Seq<Seq<char>>, n: int, s: Seq<char>)
    requires
        0 <= n < parts.len(),
    ensures
        among(parts, n + 1, s) <==> among(parts, n, s) || (s.len() > 0 && parts[n] == s),
{
    if among(parts, n, s) {
        let j = choose|j: int| 0 <= j < n && #[trigger] parts[j] == s;
        assert(parts[j] == s);
    }
}

proof fn lemma_segment_next(candidates: Seq<Seq<char>>, n: int, s: Seq<char>)
    requires
        0 <= n < candidates.len(),
    ensures
        is_segment(candidates, n + 1, s) <==> is_segment(candidates, n, s) || (s.len() > 0
            && components(candidates[n]).contains(s)),
{
    if is_segment(candidates, n, s) {
        let j = choose|j: int| 0 <= j < n && components(#[trigger] candidates[j]).contains(s);
        assert(components(candidates[j]).contains(s));
    }
    if is_segment(candidates, n + 1, s) {
        let j = choose|j: int| 0 <= j < n + 1 && components(#[trigger] candidates[j]).contains(s);
        assert(components(candidates[j]).contains(s));
        if j < n {
            assert(is_segment(candidates, n, s));
        }
    }
}

/// The components of the candidates, each once, in character order.
pub fn candidate_segment_vocabulary(candidates: &Vec<String>) -> (r: Vec<String>)
    ensures
        ascending(views(r@)),
        forall|s: Seq<char>|
            views(r@).contains(s) <==> is_segment(
                views(candidates@),
                candidates.len() as int,
                s,
            ),
{
    let ghost all = views(candidates@);
    let mut out: Vec<String> = Vec::new();
    let mut i: usize = 0;
    assert(views(out@) =~= seq![]);
    while i < candidates.len()
        invariant
            i <= candidates.len(),
            all == views(candidates@),
            ascending(views(out@)),
            forall|s: Seq<char>| views(out@).contains(s) <==> is_segment(all, i as int, s),
        decreases candidates.len() - i,
    {
        let segments: Vec<String> = candidate_path_segments(candidates[i].as_str());
        let ghost parts = views(segments@);
        let ghost before = views(out@);
        assert(all[i as int] == candidates@[i as int]@);
        assert forall|s: Seq<char>| before.contains(s) <==> is_segment(all, i as int, s) by {
            assert(views(out@).contains(s) <==> is_segment(all, i as int, s));
        }
        let mut k: usize = 0;
        while k < segments.len()
            invariant
                k <= segments.len(),
                parts == views(segments@),
                ascending(views(out@)),
                forall|s: Seq<char>| #[trigger]
                    views(out@).contains(s) <==> before.contains(s) || among(parts, k as int, s),
            decreases segments.len() - k,
        {
            assert(parts[k as int] == segments@[k as int]@);
            let ghost mid = views(out@);
            if !segments[k].as_str().is_empty() {
                insert_ascending(&mut out, segments[k].clone());
            }
            proof {
                assert forall|s: Seq<char>| #[trigger]
                    views(out@).contains(s) <==> before.contains(s) || among(parts, k + 1, s) by {
                    assert(mid.contains(s) <==> before.contains(s) || among(parts, k as int, s));
                    lemma_among_next(parts, k as int, s);
                }
            }
            k = k + 1;
        }
        proof {
            assert(parts == components(all[i as int]));
            assert forall|s: Seq<char>| #[trigger]
                views(out@).contains(s) <==> is_segment(all, i + 1, s) by {
                assert(before.contains(s) <==> is_segment(all, i as int, s));
                lemma_segment_next(all, i as int, s);
                assert(among(parts, parts.len() as int, s) <==> s.len() > 0 && parts.contains(s));
            }
        }
        i = i + 1;
    }
    out
}

/// The components of the candidates count as paths.
pub open spec fn segment_of(candidates: Seq<Seq<char>>) -> spec_fn(Seq<char>) -> bool {
    |s: Seq<char>| is_segment(candidates, candidates.len() as int, s)
}

/// The fragments of a reply that read like a path or name a component of a
/// candidate.
pub fn candidate_reply_fragments(reply: &str, candidates: &Vec<String>) -> (r: Vec<String>)
    ensures
        views(r@) == path_fragments(reply@, segment_of(views(candidates@))),
{
    let vocabulary: Vec<String> = candidate_segment_vocabulary(candidates);
    assert(known_in(views(vocabulary@)) =~= segment_of(views(candidates@)));
    fragments_of(reply, &vocabulary)
}

/// The words that are not empty.
pub open spec fn nonempty(list: Seq<Seq<char>>) -> Seq<Seq<char>>
    decreases list.len(),
{
    if list.len() == 0 {
        list
    } else if list.last().len() == 0 {
        nonempty(list.drop_last())
    } else {
        nonempty(list.drop_last()).push(list.last())
    }
}

fn keep_nonempty(list: &Vec<String>) -> (r: Vec<String>)
    ensures
        views(r@) == nonempty(views(list@)),
{
    let ghost all = views(list@);
    let mut out: Vec<String> = Vec::new();
    let mut i: usize = 0;
    assert(views(out@) =~= nonempty(all.take(0)));
    while i < list.len()
        invariant
            i <= list.len(),
            all == views(list@),
            views(out@) == nonempty(all.take(i as int)),
        decreases list.len() - i,
    {
        assert(all.take(i + 1).drop_last() =~= all.take(i as int));
        assert(all.take(i + 1).last() == list@[i as int]@);
        if !list[i].as_str().is_empty() {
            let s: String = list[i].clone();
            proof {
                lemma_views_push(out@, s);
            }
            out.push(s);
        }
        i = i + 1;
    }
    assert(all.take(i as int) =~= all);
    out
}

/// What a search among the candidates came to.
pub enum Pick {
    Found(Seq<char>),
    /// A candidate that names no file ended the search.
    Nameless,
    Nothing,
}

/// The first candidate that `pool` holds, as a whole or by its file name.
pub open spec fn pick_by_name(candidates: Seq<Seq<char>>, pool: Seq<Seq<char>>) -> Pick
    decreases candidates.len(),
{
    if candidates.len() == 0 {
        Pick::Nothing
    } else {
        match file_name(candidates[0]) {
            None => Pick::Nameless,
            Some(name) => if pool.contains(candidates[0]) || pool.contains(name) {
                Pick::Found(candidates[0])
            } else {
                pick_by_name(candidates.skip(1), pool)
            },
        }
    }
}

/// The first of `list` that `pool` holds.
pub open spec fn first_in(list: Seq<Seq<char>>, pool: Seq<Seq<char>>) -> Option<Seq<char>>
    decreases list.len(),
{
    if list.len() == 0 {
        None
    } else if pool.contains(list[0]) {
        Some(list[0])
    } else {
        first_in(list.skip(1), pool)
    }
}

/// A component of the candidate holds the text.
pub open spec fn segment_holds(candidate: Seq<char>, text: Seq<char>) -> bool {
    exists|i: int|
        0 <= i < components(candidate).len() && contains(#[trigger] components(candidate)[i], text)
}

/// The candidates with a component that holds the text, in order.
pub open spec fn holders(candidates: Seq<Seq<char>>, text: Seq<char>) -> Seq<Seq<char>>
    decreases candidates.len(),
{
    if candidates.len() == 0 {
        seq![]
    } else if segment_holds(candidates.last(), text) {
        holders(candidates.drop_last(), text).push(candidates.last())
    } else {
        holders(candidates.drop_last(), text)
    }
}

/// The one candidate that a token points to: the first token of at least four
/// bytes that only one candidate holds decides.
pub open spec fn pick_by_segment(tokens: Seq<Seq<char>>, candidates: Seq<Seq<char>>) -> Option<
    Seq<char>,
>
    decreases tokens.len(),
{
    if tokens.len() == 0 {
        None
    } else {
        let text = trim(tokens[0]);
        let matching = without_repeats(holders(candidates, text));
        if byte_len(text) >= 4 && matching.len() == 1 {
            Some(matching[0])
        } else {
            pick_by_segment(tokens.skip(1), candidates)
        }
    }
}

/// The candidate that a reply selects: one that it names as a path, else one that
/// it names as a whole or by file name, else the only one with a component that
/// holds one of its words.
pub open spec fn selected(
    reply: Seq<char>,
    candidates: Seq<Seq<char>>,
    entries: Seq<Seq<char>>,
) -> Option<Seq<char>> {
    let pool = nonempty(clean_words(reply)) + path_fragments(reply, segment_of(candidates));
    match first_in(candidates, path_candidates(reply, entries)) {
        Some(c) => Some(c),
        None => match pick_by_name(candidates, pool) {
            Pick::Found(c) => Some(c),
            Pick::Nameless => None,
            Pick::Nothing => pick_by_segment(pool, candidates),
        },
    }
}

fn candidate_holds(candidate: &str, text: &str) -> (r: bool)
    ensures
        r == segment_holds(candidate@, text@),
{
    let segments: Vec<String> = candidate_path_segments(candidate);
    let ghost all = components(candidate@);
    let mut i: usize = 0;
    while i < segments.len()
        invariant
            i <= segments.len(),
            views(segments@) == all,
            all == components(candidate@),
            forall|j: int| 0 <= j < i ==> !contains(#[trigger] all[j], text@),
        decreases segments.len() - i,
    {
        assert(all[i as int] == segments@[i as int]@);
        if contains_text(segments[i].as_str(), text) {
            return true;
        }
        i = i + 1;
    }
    assert(all.len() == segments.len());
    false
}

pub fn select_unique_candidate_from_segments(tokens: &Vec<String>, candidates: &Vec<String>) -> (r:
    Option<String>)
    ensures
        opt_view(r) == pick_by_segment(views(tokens@), views(candidates@)),
{
    let ghost all = views(tokens@);
    let ghost options = views(candidates@);
    let mut i: usize = 0;
    assert(all.skip(0) =~= all);
    while i < tokens.len()
        invariant
            i <= tokens.len(),
            all == views(tokens@),
            options == views(candidates@),
            pick_by_segment(all, options) == pick_by_segment(all.skip(i as int), options),
        decreases tokens.len() - i,
    {
        assert(all.skip(i as int)[0] == tokens@[i as int]@);
        assert(all.skip(i as int).skip(1) =~= all.skip(i + 1));
        let text: String = trim_text(tokens[i].as_str());
        if byte_count(text.as_str()) >= 4 {
            let mut matching: Vec<String> = Vec::new();
            let mut k: usize = 0;
            assert(views(matching@) =~= holders(options.take(0), text@));
            while k < candidates.len()
                invariant
                    k <= candidates.len(),
                    options == views(candidates@),
                    views(matching@) == holders(options.take(k as int), text@),
                decreases candidates.len() - k,
            {
                assert(options.take(k + 1).drop_last() =~= options.take(k as int));
                assert(options.take(k + 1).last() == candidates@[k as int]@);
                if candidate_holds(candidates[k].as_str(), text.as_str()) {
                    let s: String = candidates[k].clone();
                    proof {
                        lemma_views_push(matching@, s);
                    }
                    matching.push(s);
                }
                k = k + 1;
            }
            assert(options.take(k as int) =~= options);
            let distinct: Vec<String> = drop_repeats(&matching);
            assert(views(distinct@).len() == distinct@.len());
            if distinct.len() == 1 {
                assert(views(distinct@)[0] == distinct@[0]@);
                return Some(distinct[0].clone());
            }
        }
        i = i + 1;
    }
    None
}

/// The candidate that a reply selects, given the names in the workspace.
pub fn reply_selects_candidate(
    reply: &str,
    candidates: &Vec<String>,
    workspace_entries: &Vec<String>,
) -> (r: Option<String>)
    ensures
        opt_view(r) == selected(reply@, views(candidates@), views(workspace_entries@)),
{
    let ghost options = views(candidates@);
    let ghost entries = views(workspace_entries@);
    let explicit: Vec<String> = extract_path_candidates(reply, workspace_entries);
    let ghost named = views(explicit@);
    let mut i: usize = 0;
    assert(options.skip(0) =~= options);
    while i < candidates.len()
        invariant
            i <= candidates.len(),
            options == views(candidates@),
            named == views(explicit@),
            named == path_candidates(reply@, entries),
            entries == views(workspace_entries@),
            first_in(options, named) == first_in(options.skip(i as int), named),
        decreases candidates.len() - i,
    {
        assert(options.skip(i as int)[0] == candidates@[i as int]@);
        assert(options.skip(i as int).skip(1) =~= options.skip(i + 1));
        if list_has(&explicit, candidates[i].as_str()) {
            return Some(candidates[i].clone());
        }
        i = i + 1;
    }
    let cleaned: Vec<String> = clean_words_of(reply);
    let mut pool: Vec<String> = keep_nonempty(&cleaned);
    let mut fragments: Vec<String> = candidate_reply_fragments(reply, candidates);
    let ghost tokens_view = views(pool@);
    let ghost fragments_view = views(fragments@);
    pool.append(&mut fragments);
    assert(views(pool@) =~= tokens_view + fragments_view);
    let ghost all = views(pool@);
    let mut k: usize = 0;
    while k < candidates.len()
        invariant
            k <= candidates.len(),
            options == views(candidates@),
            all == views(pool@),
            all == nonempty(clean_words(reply@)) + path_fragments(reply@, segment_of(options)),
            entries == views(workspace_entries@),
            first_in(options, path_candidates(reply@, entries)) is None,
            pick_by_name(options, all) == pick_by_name(options.skip(k as int), all),
        decreases candidates.len() - k,
    {
        assert(options.skip(k as int)[0] == candidates@[k as int]@);
        assert(options.skip(k as int).skip(1) =~= options.skip(k + 1));
        match file_name_from_path(candidates[k].as_str()) {
            None => {
                return None;
            },
            Some(basename) => {
                if list_has(&pool, candidates[k].as_str()) || list_has(&pool, basename.as_str()) {
                    return Some(candidates[k].clone());
                }
            },
        }
        k = k + 1;
    }
    select_unique_candidate_from_segments(&pool, candidates)
}

proof fn lemma_first_in_member(list: Seq<Seq<char>>, pool: Seq<Seq<char>>)
    ensures
        first_in(list, pool) matches Some(c) ==> list.contains(c),
    decreases list.len(),
{
    if list.len() > 0 && !pool.contains(list[0]) {
        lemma_first_in_member(list.skip(1), pool);
        if let Some(c) = first_in(list, pool) {
            let k = choose|k: int| 0 <= k < list.skip(1).len() && list.skip(1)[k] == c;
            assert(list[k + 1] == c);
        }
    } else if list.len() > 0 {
        assert(list[0] == list[0]);
    }
}

proof fn lemma_pick_by_name_member(candidates: Seq<Seq<char>>, pool: Seq<Seq<char>>)
    ensures
        pick_by_name(candidates, pool) matches Pick::Found(c) ==> candidates.contains(c),
    decreases candidates.len(),
{
    if candidates.len() > 0 {
        lemma_pick_by_name_member(candidates.skip(1), pool);
        match pick_by_name(candidates, pool) {
            Pick::Found(c) => {
                if c != candidates[0] {
                    let k = choose|k: int|
                        0 <= k < candidates.skip(1).len() && candidates.skip(1)[k] == c;
                    assert(candidates[k + 1] == c);
                }
            },
            _ => {},
        }
    }
}

proof fn lemma_holders_member(candidates: Seq<Seq<char>>, text: Seq<char>, c: Seq<char>)
    requires
        holders(candidates, text).contains(c),
    ensures
        candidates.contains(c),
    decreases candidates.len(),
{
    if candidates.len() > 0 {
        if c == candidates.last() {
            assert(candidates[candidates.len() - 1] == c);
        } else {
            let front = candidates.drop_last();
            let all = holders(candidates, text);
            let k = choose|k: int| 0 <= k < all.len() && all[k] == c;
            assert(holders(front, text)[k] == c);
            lemma_holders_member(front, text, c);
            let j = choose|j: int| 0 <= j < front.len() && front[j] == c;
            assert(candidates[j] == c);
        }
    }
}

proof fn lemma_without_repeats_member(list: Seq<Seq<char>>, c: Seq<char>)
    requires
        without_repeats(list).contains(c),
    ensures
        list.contains(c),
    decreases list.len(),
{
    if list.len() > 1 {
        let front = list.drop_last();
        let all = without_repeats(list);
        let k = choose|k: int| 0 <= k < all.len() && all[k] == c;
        if c == list.last() {
            assert(list[list.len() - 1] == c);
        } else {
            assert(without_repeats(front)[k] == c);
            lemma_without_repeats_member(front, c);
            let j = choose|j: int| 0 <= j < front.len() && front[j] == c;
            assert(list[j] == c);
        }
    }
}

proof fn lemma_pick_by_segment_member(tokens: Seq<Seq<char>>, candidates: Seq<Seq<char>>)
    ensures
        pick_by_segment(tokens, candidates) matches Some(c) ==> candidates.contains(c),
    decreases tokens.len(),
{
    if tokens.len() > 0 {
        lemma_pick_by_segment_member(tokens.skip(1), candidates);
        let text = trim(tokens[0]);
        let matching = without_repeats(holders(candidates, text));
        if byte_len(text) >= 4 && matching.len() == 1 {
            assert(matching.contains(matching[0]));
            lemma_without_repeats_member(holders(candidates, text), matching[0]);
            lemma_holders_member(candidates, text, matching[0]);
        }
    }
}

/// A reply never selects anything but one of the candidates.
pub proof fn law_selected_is_a_candidate(
    reply: Seq<char>,
    candidates: Seq<Seq<char>>,
    entries: Seq<Seq<char>>,
)
    ensures
        selected(reply, candidates, entries) matches Some(c) ==> candidates.contains(c),
{
    let pool = nonempty(clean_words(reply)) + path_fragments(reply, segment_of(candidates));
    lemma_first_in_member(candidates, path_candidates(reply, entries));
    lemma_pick_by_name_member(candidates, pool);
    lemma_pick_by_segment_member(pool, candidates);
}

} // verus!
