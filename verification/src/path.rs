//! Slash-separated paths.

use crate::split::{lemma_views_push, split_text};
use crate::text::{chars_of, opt_view, split, str_eq, views};
use vstd::prelude::*;

verus! {

/// The piece at `i` names a component: it is not empty, and it is no `.` but at
/// the start of a relative path.
pub open spec fn is_component(pieces: Seq<Seq<char>>, rooted: bool, i: int) -> bool {
    pieces[i].len() > 0 && (pieces[i] != "."@ || (i == 0 && !rooted))
}

/// The first `n` pieces that name a component, in order.
pub open spec fn components_upto(pieces: Seq<Seq<char>>, rooted: bool, n: int) -> Seq<Seq<char>>
    decreases n,
{
    if n <= 0 {
        seq![]
    } else if is_component(pieces, rooted, n - 1) {
        components_upto(pieces, rooted, n - 1).push(pieces[n - 1])
    } else {
        components_upto(pieces, rooted, n - 1)
    }
}

pub open spec fn is_rooted(path: Seq<char>) -> bool {
    path.len() > 0 && path[0] == '/'
}

/// The components of a path: the root where it has one, then the names.
pub open spec fn components(path: Seq<char>) -> Seq<Seq<char>> {
    let pieces = split(path, '/');
    let names = components_upto(pieces, is_rooted(path), pieces.len() as int);
    if is_rooted(path) {
        seq!["/"@] + names
    } else {
        names
    }
}

/// The last component of a path, unless it is the root, `.` or `..`.
pub open spec fn file_name(path: Seq<char>) -> Option<Seq<char>> {
    let all = components(path);
    if all.len() == 0 || all.last() == "/"@ || all.last() == "."@ || all.last() == ".."@ {
        None
    } else {
        Some(all.last())
    }
}

/// The components of a path.
pub fn candidate_path_segments(candidate: &str) -> (r: Vec<String>)
    ensures
        views(r@) == components(candidate@),
{
    let chars: Vec<char> = chars_of(candidate);
    let rooted: bool = chars.len() > 0 && chars[0] == '/';
    let pieces: Vec<String> = split_text(candidate, '/');
    let ghost all = views(pieces@);
    let mut names: Vec<String> = Vec::new();
    let ghost root: Seq<Seq<char>> = if rooted {
        seq!["/"@]
    } else {
        seq![]
    };
    if rooted {
        let slash: String = "/".to_owned();
        proof {
            lemma_views_push(names@, slash);
        }
        names.push(slash);
    }
    assert(views(names@) =~= root);
    let mut i: usize = 0;
    assert(root + components_upto(all, rooted, 0) =~= root);
    while i < pieces.len()
        invariant
            i <= pieces.len(),
            all == views(pieces@),
            views(names@) == root + components_upto(all, rooted, i as int),
        decreases pieces.len() - i,
    {
        let piece: &str = pieces[i].as_str();
        assert(all[i as int] == piece@);
        if !piece.is_empty() && (!str_eq(piece, ".") || (i == 0 && !rooted)) {
            let name: String = pieces[i].clone();
            proof {
                lemma_views_push(names@, name);
                assert(root + components_upto(all, rooted, i as int).push(name@) =~= (root
                    + components_upto(all, rooted, i as int)).push(name@));
            }
            names.push(name);
        }
        i = i + 1;
    }
    proof {
        assert(all.len() == pieces.len());
        if !rooted {
            assert(root + components_upto(all, rooted, i as int) =~= components_upto(
                all,
                rooted,
                i as int,
            ));
        }
    }
    names
}

/// The last component of a path, unless it is the root, `.` or `..`.
pub fn file_name_from_path(path: &str) -> (r: Option<String>)
    ensures
        opt_view(r) == file_name(path@),
{
    let segments: Vec<String> = candidate_path_segments(path);
    assert(views(segments@).len() == segments@.len());
    if segments.len() == 0 {
        return None;
    }
    let last: &String = &segments[segments.len() - 1];
    assert(views(segments@).last() == last@);
    if str_eq(last.as_str(), "/") || str_eq(last.as_str(), ".") || str_eq(last.as_str(), "..") {
        None
    } else {
        Some(last.clone())
    }
}

} // verus!
