//! What every digest promises: no section header stands in it, and each of its
//! items stays on one line. And what a cut promises: it fits.

use crate::bytes::{
    byte_len, ellipsized, lemma_byte_len_ascii, lemma_byte_len_concat, lemma_ceil, lemma_floor,
    prefix_within, suffix_from,
};
use crate::digest::{
    body_lines, call_line, cut_result, flattened, headline, is_structured_summary, kept_bytes,
    message_lines, messages_digest, sanitized, status_word,
};
use crate::message::MessageView;
use crate::number::{decimal, digit_char, lemma_decimal_digits, lemma_decimal_of_u64};
use crate::text::{contains, ends_with, join, occurs_at, replace};
use vstd::prelude::*;

verus! {

/// What follows the last colon of `s`.
pub open spec fn after_colon(s: Seq<char>) -> Seq<char>
    decreases s.len(),
{
    if s.len() == 0 || s.last() == ':' {
        seq![]
    } else {
        after_colon(s.drop_last()).push(s.last())
    }
}

/// No colon of `s` stands right behind the header `h`.
pub open spec fn headless(s: Seq<char>, h: Seq<char>) -> bool
    decreases s.len(),
{
    if s.len() == 0 {
        true
    } else {
        headless(s.drop_last(), h) && (s.last() == ':' ==> !ends_with(
            after_colon(s.drop_last()),
            h,
        ))
    }
}

/// A word that can head a section: not empty, without a colon, and with neither
/// a space at its end nor one at its start.
pub open spec fn is_header(h: Seq<char>) -> bool {
    &&& h.len() > 0
    &&& forall|i: int| 0 <= i < h.len() ==> #[trigger] h[i] != ':'
    &&& h.last() != ' '
    &&& h[0] != ' '
}

proof fn lemma_after_push(s: Seq<char>, c: char)
    ensures
        after_colon(s.push(c)) == (if c == ':' {
            seq![]
        } else {
            after_colon(s).push(c)
        }),
{
    assert(s.push(c).drop_last() =~= s);
}

proof fn lemma_after_len(s: Seq<char>)
    ensures
        after_colon(s).len() <= s.len(),
        after_colon(s) == s.skip(s.len() - after_colon(s).len()),
    decreases s.len(),
{
    if s.len() == 0 || s.last() == ':' {
        assert(s.skip(s.len() as int) =~= seq![]);
    } else {
        lemma_after_len(s.drop_last());
        let k = s.len() - after_colon(s).len();
        assert(s.skip(k) =~= s.drop_last().skip(k).push(s.last()));
    }
}

/// A header at the end of `s` lies behind the last colon of `s`.
proof fn lemma_ends_after(s: Seq<char>, h: Seq<char>)
    requires
        forall|i: int| 0 <= i < h.len() ==> #[trigger] h[i] != ':',
        ends_with(s, h),
    ensures
        ends_with(after_colon(s), h),
    decreases s.len(),
{
    if h.len() == 0 {
        let a = after_colon(s);
        assert(a.subrange(a.len() as int, a.len() as int) =~= h);
    } else {
        assert(s.subrange(s.len() - h.len(), s.len() as int).last() == s.last());
        assert(h.last() == s.last());
        assert(h[h.len() - 1] != ':');
        let g = h.drop_last();
        assert forall|i: int| 0 <= i < g.len() implies #[trigger] g[i] != ':' by {
            assert(h[i] != ':');
        }
        let t = s.drop_last();
        assert(t.subrange(t.len() - g.len(), t.len() as int) =~= g) by {
            assert forall|i: int| 0 <= i < g.len() implies t.subrange(
                t.len() - g.len(),
                t.len() as int,
            )[i] == g[i] by {
                assert(s.subrange(s.len() - h.len(), s.len() as int)[i] == h[i]);
            }
        }
        lemma_ends_after(t, g);
        let a = after_colon(s);
        let b = after_colon(t);
        assert(a == b.push(s.last()));
        assert(a.subrange(a.len() - h.len(), a.len() as int) =~= h) by {
            assert forall|i: int| 0 <= i < h.len() implies a.subrange(
                a.len() - h.len(),
                a.len() as int,
            )[i] == h[i] by {
                if i < g.len() {
                    assert(b.subrange(b.len() - g.len(), b.len() as int)[i] == g[i]);
                }
            }
        }
    }
}

proof fn lemma_headless_take(s: Seq<char>, h: Seq<char>, k: int)
    requires
        headless(s, h),
        0 <= k <= s.len(),
    ensures
        headless(s.take(k), h),
    decreases s.len(),
{
    if k == s.len() {
        assert(s.take(k) =~= s);
    } else {
        lemma_headless_take(s.drop_last(), h, k);
        assert(s.drop_last().take(k) =~= s.take(k));
    }
}

/// A text without a headed colon does not hold the header and a colon.
proof fn lemma_headless_contains(s: Seq<char>, h: Seq<char>)
    requires
        headless(s, h),
        is_header(h),
    ensures
        !contains(s, h.push(':')),
{
    if contains(s, h.push(':')) {
        let p = h.push(':');
        let i = choose|i: int| occurs_at(s, p, i);
        let k = i + h.len();
        assert(s.subrange(i, i + p.len())[h.len() as int] == ':');
        assert(s[k] == ':');
        lemma_headless_take(s, h, k + 1);
        assert(s.take(k + 1).drop_last() =~= s.take(k));
        assert(s.take(k + 1).last() == ':');
        let t = s.take(k);
        assert(t.subrange(t.len() - h.len(), t.len() as int) =~= h) by {
            assert forall|j: int| 0 <= j < h.len() implies t.subrange(
                t.len() - h.len(),
                t.len() as int,
            )[j] == h[j] by {
                assert(s.subrange(i, i + p.len())[j] == p[j]);
            }
        }
        lemma_ends_after(t, h);
    }
}

proof fn lemma_headless_push(s: Seq<char>, h: Seq<char>, c: char)
    requires
        headless(s, h),
        c == ':' ==> !ends_with(after_colon(s), h),
    ensures
        headless(s.push(c), h),
{
    assert(s.push(c).drop_last() =~= s);
}

/// A piece can be appended if the characters before its colons end no header.
proof fn lemma_append_piece(s: Seq<char>, piece: Seq<char>, h: Seq<char>)
    requires
        headless(s, h),
        is_header(h),
        forall|i: int|
            0 <= i < piece.len() && #[trigger] piece[i] == ':' ==> i > 0 && piece[i - 1]
                != h.last(),
    ensures
        headless(s + piece, h),
    decreases piece.len(),
{
    if piece.len() == 0 {
        assert(s + piece =~= s);
    } else {
        let front = piece.drop_last();
        assert forall|i: int|
            0 <= i < front.len() && #[trigger] front[i] == ':' implies i > 0 && front[i - 1]
            != h.last() by {
            assert(piece[i] == ':');
        }
        lemma_append_piece(s, front, h);
        let t = s + front;
        assert(s + piece =~= t.push(piece.last()));
        if piece.last() == ':' {
            assert(piece[piece.len() - 1] == ':');
            assert(t.last() == piece[piece.len() - 2]);
            if ends_with(after_colon(t), h) {
                let a = after_colon(t);
                assert(a.subrange(a.len() - h.len(), a.len() as int).last() == a.last());
                lemma_after_len(t);
                assert(a.last() == t.last());
            }
        }
        lemma_headless_push(t, h, piece.last());
    }
}

/// No end of `s` is a beginning of `h`.
pub open spec fn unentered(s: Seq<char>, h: Seq<char>) -> bool {
    forall|k: int|
        0 < k <= s.len() && k <= h.len() ==> #[trigger] s.skip(s.len() - k) != h.take(k)
}

/// What follows the last colon of `s + b`.
proof fn lemma_after_concat(s: Seq<char>, b: Seq<char>)
    ensures
        after_colon(s + b) == after_colon(b) || (after_colon(b) == b && after_colon(s + b)
            == after_colon(s) + b),
    decreases b.len(),
{
    if b.len() == 0 {
        assert(s + b =~= s);
        assert(after_colon(s) + b =~= after_colon(s));
    } else {
        let front = b.drop_last();
        lemma_after_concat(s, front);
        assert((s + b).drop_last() =~= s + front);
        assert((s + b).last() == b.last());
        if b.last() != ':' {
            if after_colon(front) == front {
                assert(front.push(b.last()) =~= b);
                assert((after_colon(s) + front).push(b.last()) =~= after_colon(s) + b);
            }
        }
    }
}

/// A headless fragment can be appended behind a text whose end enters no header.
proof fn lemma_append_fragment(s: Seq<char>, b: Seq<char>, h: Seq<char>)
    requires
        headless(s, h),
        headless(b, h),
        is_header(h),
        unentered(after_colon(s), h),
    ensures
        headless(s + b, h),
    decreases b.len(),
{
    if b.len() == 0 {
        assert(s + b =~= s);
    } else {
        let front = b.drop_last();
        lemma_append_fragment(s, front, h);
        let t = s + front;
        assert(s + b =~= t.push(b.last()));
        if b.last() == ':' && ends_with(after_colon(t), h) {
            lemma_after_concat(s, front);
            let a = after_colon(t);
            if a != after_colon(front) {
                let head = after_colon(s);
                assert(a == head + front);
                if front.len() >= h.len() {
                    assert(front.subrange(front.len() - h.len(), front.len() as int) =~= h) by {
                        assert forall|j: int| 0 <= j < h.len() implies front.subrange(
                            front.len() - h.len(),
                            front.len() as int,
                        )[j] == h[j] by {
                            assert(a.subrange(a.len() - h.len(), a.len() as int)[j] == h[j]);
                        }
                    }
                    assert(ends_with(after_colon(front), h));
                } else {
                    let k = h.len() - front.len();
                    assert(head.len() >= k);
                    assert(head.skip(head.len() - k) =~= h.take(k)) by {
                        assert forall|j: int| 0 <= j < k implies head.skip(head.len() - k)[j]
                            == h.take(k)[j] by {
                            assert(a.subrange(a.len() - h.len(), a.len() as int)[j] == h[j]);
                        }
                    }
                }
            }
            assert(false);
        }
        lemma_headless_push(t, h, b.last());
    }
}

/// Behind a piece that ends with a character that no header begins or continues
/// with, no header is entered.
proof fn lemma_unentered_last(s: Seq<char>, h: Seq<char>)
    requires
        s.len() == 0 || forall|i: int| 0 <= i < h.len() ==> #[trigger] h[i] != s.last(),
    ensures
        unentered(after_colon(s), h),
{
    let a = after_colon(s);
    assert forall|k: int| 0 < k <= a.len() && k <= h.len() implies #[trigger] a.skip(a.len() - k)
        != h.take(k) by {
        lemma_after_len(s);
        assert(a.skip(a.len() - k)[k - 1] == a.last());
        assert(a.last() == s.last());
        assert(h.take(k)[k - 1] == h[k - 1]);
    }
}

/// `s`, begun behind the text `used`, has not been left with the header's text
/// unread: no occurrence of `h` and a colon begins behind the last colon of `used`.
spec fn no_pending(used: Seq<char>, s: Seq<char>, h: Seq<char>) -> bool {
    forall|j: int|
        used.len() - after_colon(used).len() <= j < used.len() ==> !(#[trigger] occurs_at(
            used + s,
            h.push(':'),
            j,
        ))
}

proof fn lemma_replace_step(s: Seq<char>, p: Seq<char>, to: Seq<char>)
    requires
        s.len() > 0,
        p.len() > 0,
        !occurs_at(s, p, 0),
    ensures
        replace(s, p, to) == seq![s[0]] + replace(s.skip(1), p, to),
{
    if s.len() >= p.len() {
        assert(s.take(p.len() as int) =~= s.subrange(0, p.len() as int));
    } else {
        assert(s =~= seq![s[0]] + s.skip(1));
    }
}

/// Setting a space between the header `h` and its colon leaves no headed colon.
proof fn lemma_replace_removes(out: Seq<char>, used: Seq<char>, s: Seq<char>, h: Seq<char>)
    requires
        is_header(h),
        headless(out, h),
        after_colon(out) == after_colon(used),
        no_pending(used, s, h),
    ensures
        headless(out + replace(s, h.push(':'), h + " :"@), h),
    decreases s.len(),
{
    reveal_strlit(" :");
    let p = h.push(':');
    let to = h + " :"@;
    if s.len() == 0 {
        assert(out + replace(s, p, to) =~= out);
    } else if occurs_at(s, p, 0) {
        assert(s.take(p.len() as int) =~= s.subrange(0, p.len() as int));
        let rest = s.skip(p.len() as int);
        let out2 = out + to;
        let used2 = used + p;
        lemma_append_header_apart(out, h, h);
        assert(after_colon(out2) =~= seq![]) by {
            assert(out2.last() == ':');
        }
        assert(after_colon(used2) =~= seq![]) by {
            assert(used2.last() == ':');
        }
        lemma_replace_removes(out2, used2, rest, h);
        assert(out + (to + replace(rest, p, to)) =~= out2 + replace(rest, p, to));
    } else {
        lemma_replace_step(s, p, to);
        let c = s[0];
        let out2 = out.push(c);
        let used2 = used.push(c);
        let rest = s.skip(1);
        assert(used2 + rest =~= used + s);
        if c == ':' && ends_with(after_colon(out), h) {
            let a = after_colon(used);
            lemma_after_len(used);
            let j = used.len() - h.len();
            assert((used + s).subrange(j, j + p.len()) =~= p) by {
                assert forall|i: int| 0 <= i < p.len() implies (used + s).subrange(
                    j,
                    j + p.len(),
                )[i] == p[i] by {
                    if i < h.len() {
                        assert(a.subrange(a.len() - h.len(), a.len() as int)[i] == h[i]);
                    }
                }
            }
            assert(occurs_at(used + s, p, j));
            assert(false);
        }
        lemma_headless_push(out, h, c);
        lemma_after_push(out, c);
        lemma_after_push(used, c);
        lemma_after_len(used);
        assert forall|j: int|
            used2.len() - after_colon(used2).len() <= j < used2.len() implies !(
        #[trigger] occurs_at(used2 + rest, p, j)) by {
            if j == used.len() {
                if occurs_at(used2 + rest, p, j) {
                    assert((used + s).subrange(j, j + p.len()) =~= s.subrange(0, p.len() as int));
                    assert(occurs_at(s, p, 0));
                }
            } else {
                assert(!occurs_at(used + s, p, j));
            }
        }
        lemma_replace_removes(out2, used2, rest, h);
        assert(out + (seq![c] + replace(rest, p, to)) =~= out2 + replace(rest, p, to));
    }
}

/// A header and its colon, kept apart by a space, can be appended anywhere.
proof fn lemma_append_header_apart(out: Seq<char>, h: Seq<char>, g: Seq<char>)
    requires
        headless(out, g),
        is_header(h),
        is_header(g),
    ensures
        headless(out + (h + " :"@), g),
{
    reveal_strlit(" :");
    let to = h + " :"@;
    assert forall|i: int| 0 <= i < to.len() && #[trigger] to[i] == ':' implies i > 0 && to[i - 1]
        != g.last() by {
        if i < h.len() {
            assert(h[i] != ':');
        }
    }
    lemma_append_piece(out, to, g);
}

/// Setting a space between the header `h` and its colon makes no headed colon for
/// another header `g`.
proof fn lemma_replace_keeps(
    out: Seq<char>,
    used: Seq<char>,
    s: Seq<char>,
    h: Seq<char>,
    g: Seq<char>,
)
    requires
        is_header(h),
        is_header(g),
        headless(out, g),
        headless(used + s, g),
        after_colon(out) == after_colon(used),
    ensures
        headless(out + replace(s, h.push(':'), h + " :"@), g),
    decreases s.len(),
{
    reveal_strlit(" :");
    let p = h.push(':');
    let to = h + " :"@;
    if s.len() == 0 {
        assert(out + replace(s, p, to) =~= out);
    } else if occurs_at(s, p, 0) {
        assert(s.take(p.len() as int) =~= s.subrange(0, p.len() as int));
        let rest = s.skip(p.len() as int);
        let out2 = out + to;
        let used2 = used + p;
        assert(s =~= p + rest);
        assert(used2 + rest =~= used + s);
        lemma_append_header_apart(out, h, g);
        assert(after_colon(out2) =~= seq![]) by {
            assert(out2.last() == ':');
        }
        assert(after_colon(used2) =~= seq![]) by {
            assert(used2.last() == ':');
        }
        lemma_replace_keeps(out2, used2, rest, h, g);
        assert(out + (to + replace(rest, p, to)) =~= out2 + replace(rest, p, to));
    } else {
        lemma_replace_step(s, p, to);
        let c = s[0];
        let out2 = out.push(c);
        let used2 = used.push(c);
        let rest = s.skip(1);
        assert(used2 + rest =~= used + s);
        lemma_headless_take(used + s, g, used.len() as int + 1);
        assert((used + s).take(used.len() as int + 1) =~= used2);
        assert(used2.drop_last() =~= used);
        lemma_headless_push(out, g, c);
        lemma_after_push(out, c);
        lemma_after_push(used, c);
        lemma_replace_keeps(out2, used2, rest, h, g);
        assert(out + (seq![c] + replace(rest, p, to)) =~= out2 + replace(rest, p, to));
    }
}

/// One pass of setting a header apart from its colon.
proof fn lemma_pass_removes(s: Seq<char>, h: Seq<char>)
    requires
        is_header(h),
    ensures
        headless(replace(s, h.push(':'), h + " :"@), h),
{
    let none: Seq<char> = seq![];
    lemma_replace_removes(none, none, s, h);
    let r = replace(s, h.push(':'), h + " :"@);
    assert(none + r =~= r);
}

proof fn lemma_pass_keeps(s: Seq<char>, h: Seq<char>, g: Seq<char>)
    requires
        is_header(h),
        is_header(g),
        headless(s, g),
    ensures
        headless(replace(s, h.push(':'), h + " :"@), g),
{
    let none: Seq<char> = seq![];
    assert(none + s =~= s);
    lemma_replace_keeps(none, none, s, h, g);
    let r = replace(s, h.push(':'), h + " :"@);
    assert(none + r =~= r);
}

/// The four headers of a structured summary.
pub open spec fn is_section(h: Seq<char>) -> bool {
    h == "Goal"@ || h == "Accomplished"@ || h == "Key Decisions"@ || h == "Relevant Files"@
}

proof fn lemma_sections()
    ensures
        forall|h: Seq<char>| is_section(h) ==> #[trigger] is_header(h),
        "Goal"@.push(':') == "Goal:"@,
        "Accomplished"@.push(':') == "Accomplished:"@,
        "Key Decisions"@.push(':') == "Key Decisions:"@,
        "Relevant Files"@.push(':') == "Relevant Files:"@,
        "Goal"@ + " :"@ == "Goal :"@,
        "Accomplished"@ + " :"@ == "Accomplished :"@,
        "Key Decisions"@ + " :"@ == "Key Decisions :"@,
        "Relevant Files"@ + " :"@ == "Relevant Files :"@,
{
    reveal_strlit(" :");
    reveal_strlit("Goal");
    reveal_strlit("Goal:");
    reveal_strlit("Goal :");
    reveal_strlit("Accomplished");
    reveal_strlit("Accomplished:");
    reveal_strlit("Accomplished :");
    reveal_strlit("Key Decisions");
    reveal_strlit("Key Decisions:");
    reveal_strlit("Key Decisions :");
    reveal_strlit("Relevant Files");
    reveal_strlit("Relevant Files:");
    reveal_strlit("Relevant Files :");
    assert("Goal"@.push(':') =~= "Goal:"@);
    assert("Accomplished"@.push(':') =~= "Accomplished:"@);
    assert("Key Decisions"@.push(':') =~= "Key Decisions:"@);
    assert("Relevant Files"@.push(':') =~= "Relevant Files:"@);
    assert("Goal"@ + " :"@ =~= "Goal :"@);
    assert("Accomplished"@ + " :"@ =~= "Accomplished :"@);
    assert("Key Decisions"@ + " :"@ =~= "Key Decisions :"@);
    assert("Relevant Files"@ + " :"@ =~= "Relevant Files :"@);
}

/// A sanitized fragment holds no section header with its colon.
pub proof fn law_sanitized_headless(raw: Seq<char>, h: Seq<char>)
    requires
        is_section(h),
    ensures
        headless(sanitized(raw), h),
        !contains(sanitized(raw), h.push(':')),
{
    lemma_sections();
    let a = "Goal"@;
    let b = "Accomplished"@;
    let c = "Key Decisions"@;
    let d = "Relevant Files"@;
    let flat = flattened(raw);
    let s1 = replace(flat, a.push(':'), a + " :"@);
    let s2 = replace(s1, b.push(':'), b + " :"@);
    let s3 = replace(s2, c.push(':'), c + " :"@);
    let s4 = replace(s3, d.push(':'), d + " :"@);
    assert(s4 == sanitized(raw));
    if h == a {
        lemma_pass_removes(flat, a);
        lemma_pass_keeps(s1, b, a);
        lemma_pass_keeps(s2, c, a);
        lemma_pass_keeps(s3, d, a);
    } else if h == b {
        lemma_pass_removes(s1, b);
        lemma_pass_keeps(s2, c, b);
        lemma_pass_keeps(s3, d, b);
    } else if h == c {
        lemma_pass_removes(s2, c);
        lemma_pass_keeps(s3, d, c);
    } else {
        lemma_pass_removes(s3, d);
    }
    lemma_headless_contains(s4, h);
}

/// The texts that stand between a digest line's fragments.
proof fn lemma_unentered_space(s: Seq<char>, h: Seq<char>)
    requires
        is_header(h),
        after_colon(s) == seq![' '],
    ensures
        unentered(after_colon(s), h),
{
    let a = after_colon(s);
    assert forall|k: int| 0 < k <= a.len() && k <= h.len() implies #[trigger] a.skip(a.len() - k)
        != h.take(k) by {
        assert(a.skip(a.len() - k)[0] == ' ');
        assert(h.take(k)[0] == h[0]);
    }
}

/// A fixed label, `: ` at its end, followed by a sanitized fragment.
proof fn lemma_labelled_headless(label: Seq<char>, raw: Seq<char>, h: Seq<char>)
    requires
        is_section(h),
        label.len() >= 3,
        label.last() == ' ',
        label[label.len() - 2] == ':',
        label[label.len() - 3] != h.last(),
        forall|i: int| 0 <= i < label.len() - 2 ==> #[trigger] label[i] != ':',
    ensures
        headless(label + sanitized(raw), h),
{
    lemma_sections();
    let none: Seq<char> = seq![];
    assert(none + label =~= label);
    lemma_append_piece(none, label, h);
    let front = label.drop_last();
    assert(front.last() == ':');
    assert(after_colon(front) =~= seq![]);
    assert(after_colon(label) =~= seq![' ']);
    lemma_unentered_space(label, h);
    law_sanitized_headless(raw, h);
    lemma_append_fragment(label, sanitized(raw), h);
}

proof fn lemma_result_tail(mid: Seq<char>, h: Seq<char>)
    requires
        is_section(h),
        mid == "): "@ + "ok"@ + " — "@ || mid == "): "@ + "error"@ + " — "@,
    ensures
        forall|s: Seq<char>| unentered(#[trigger] after_colon(s + mid), h),
        forall|i: int|
            0 <= i < mid.len() && #[trigger] mid[i] == ':' ==> i > 0 && mid[i - 1] != h.last(),
{
    reveal_strlit("): ");
    reveal_strlit("ok");
    reveal_strlit("error");
    reveal_strlit(" — ");
    reveal_strlit("Goal");
    reveal_strlit("Accomplished");
    reveal_strlit("Key Decisions");
    reveal_strlit("Relevant Files");
    let n = mid.len() as int;
    let tail = mid.skip(2);
    assert forall|k: int| 2 <= k <= n implies #[trigger] after_colon(mid.take(k)) == mid.subrange(
        2,
        k,
    ) by {
        lemma_mid_after(mid, k);
    }
    assert(mid.take(n) =~= mid);
    assert(after_colon(mid.take(n)) =~= tail);
    assert forall|s: Seq<char>| unentered(#[trigger] after_colon(s + mid), h) by {
        lemma_after_concat(s, mid);
        assert(after_colon(mid) == tail);
        assert(tail.len() != mid.len());
        let a = after_colon(s + mid);
        assert(a == tail);
        assert forall|k: int| 0 < k <= a.len() && k <= h.len() implies #[trigger] a.skip(
            a.len() - k,
        ) != h.take(k) by {
            let e = a.skip(a.len() - k);
            assert(e[k - 1] == ' ');
            assert(e[0] == mid[n - k]);
            assert(h.take(k)[k - 1] == h[k - 1]);
            assert(h.take(k)[0] == h[0]);
        }
    }
}

proof fn lemma_mid_after(mid: Seq<char>, k: int)
    requires
        mid.len() >= 2,
        mid[1] == ':',
        forall|i: int| 2 <= i < mid.len() ==> #[trigger] mid[i] != ':',
        2 <= k <= mid.len(),
    ensures
        after_colon(mid.take(k)) == mid.subrange(2, k),
    decreases k,
{
    if k == 2 {
        assert(mid.take(2).last() == ':');
        assert(mid.subrange(2, 2) =~= seq![]);
    } else {
        lemma_mid_after(mid, k - 1);
        assert(mid.take(k).drop_last() =~= mid.take(k - 1));
        assert(mid.take(k).last() == mid[k - 1]);
        assert(mid.subrange(2, k) =~= mid.subrange(2, k - 1).push(mid[k - 1]));
    }
}

/// No line of a digest holds a headed colon.
proof fn lemma_line_headless(message: MessageView, i: int, h: Seq<char>)
    requires
        is_section(h),
        0 <= i < message_lines(message).len(),
    ensures
        headless(message_lines(message)[i], h),
{
    lemma_sections();
    reveal_strlit("Goal");
    reveal_strlit("Accomplished");
    reveal_strlit("Key Decisions");
    reveal_strlit("Relevant Files");
    match message {
        MessageView::User { content } => {
            reveal_strlit("User: ");
            lemma_labelled_headless("User: "@, ellipsized(content, 120), h);
        },
        MessageView::Assistant { text, tool_calls } => {
            reveal_strlit("Assistant: ");
            reveal_strlit("  → tool_use: ");
            if text.len() > 0 && i == 0 {
                lemma_labelled_headless("Assistant: "@, ellipsized(text, 120), h);
            } else {
                let k = if text.len() > 0 {
                    i - 1
                } else {
                    i
                };
                assert(message_lines(message)[i] == call_line(tool_calls[k]));
                lemma_labelled_headless("  → tool_use: "@, tool_calls[k].name, h);
            }
        },
        MessageView::ToolResult { tool_use_id, content, is_error } => {
            reveal_strlit("ToolResult(");
            let open = "ToolResult("@;
            let none: Seq<char> = seq![];
            assert(none + open =~= open);
            lemma_append_piece(none, open, h);
            lemma_unentered_last(open, h);
            law_sanitized_headless(tool_use_id, h);
            let id = sanitized(tool_use_id);
            lemma_append_fragment(open, id, h);
            let mid = "): "@ + status_word(is_error) + " — "@;
            lemma_result_tail(mid, h);
            let s = open + id;
            lemma_append_piece(s, mid, h);
            assert(unentered(after_colon(s + mid), h));
            let body = sanitized(ellipsized(content, 100));
            law_sanitized_headless(ellipsized(content, 100), h);
            lemma_append_fragment(s + mid, body, h);
            assert(open + id + "): "@ + status_word(is_error) + " — "@ + body =~= s + mid + body);
        },
    }
}

proof fn lemma_body_headless(messages: Seq<MessageView>, i: int, h: Seq<char>)
    requires
        is_section(h),
        0 <= i < body_lines(messages).len(),
    ensures
        headless(body_lines(messages)[i], h),
    decreases messages.len(),
{
    let front = body_lines(messages.drop_last());
    if i < front.len() {
        lemma_body_headless(messages.drop_last(), i, h);
    } else {
        lemma_line_headless(messages.last(), i - front.len(), h);
    }
}

proof fn lemma_join_headless(lines: Seq<Seq<char>>, h: Seq<char>)
    requires
        is_section(h),
        forall|i: int| 0 <= i < lines.len() ==> headless(#[trigger] lines[i], h),
    ensures
        headless(join(lines, "\n"@), h),
    decreases lines.len(),
{
    lemma_sections();
    reveal_strlit("\n");
    reveal_strlit("Goal");
    reveal_strlit("Accomplished");
    reveal_strlit("Key Decisions");
    reveal_strlit("Relevant Files");
    if lines.len() > 1 {
        lemma_join_headless(lines.drop_last(), h);
        let s = join(lines.drop_last(), "\n"@);
        lemma_append_piece(s, "\n"@, h);
        lemma_unentered_last(s + "\n"@, h);
        assert(headless(lines[lines.len() - 1], h));
        lemma_append_fragment(s + "\n"@, lines.last(), h);
    }
}

proof fn lemma_decimal_plain(n: nat)
    ensures
        forall|i: int| 0 <= i < decimal(n).len() ==> '0' <= #[trigger] decimal(n)[i] <= '9',
    decreases n,
{
    assert(forall|d: nat| d < 10 ==> '0' <= #[trigger] digit_char(d) <= '9');
    if n >= 10 {
        lemma_decimal_plain(n / 10);
        assert forall|i: int| 0 <= i < decimal(n).len() implies '0' <= #[trigger] decimal(n)[i]
            <= '9' by {
            if i < decimal(n / 10).len() {
                assert(decimal(n)[i] == decimal(n / 10)[i]);
            } else {
                assert(decimal(n)[i] == digit_char(n % 10));
            }
        }
    } else {
        assert(decimal(n)[0] == digit_char(n));
    }
}

/// No digest holds a section header with its colon, whatever the messages hold.
pub proof fn law_digest_headless(messages: Seq<MessageView>, h: Seq<char>)
    requires
        is_section(h),
    ensures
        !contains(messages_digest(messages), h.push(':')),
{
    lemma_sections();
    reveal_strlit("[");
    reveal_strlit(" messages compacted]");
    let n = messages.len();
    let lines = seq![headline(n)] + body_lines(messages);
    let none: Seq<char> = seq![];
    lemma_decimal_plain(n);
    let first = headline(n);
    assert forall|i: int| 0 <= i < first.len() && #[trigger] first[i] == ':' implies i > 0
        && first[i - 1] != h.last() by {
        let d = decimal(n);
        if 0 < i <= d.len() {
            assert(first[i] == d[i - 1]);
        } else if i > d.len() {
            assert(first[i] == " messages compacted]"@[i - 1 - d.len()]);
        }
    }
    assert(none + first =~= first);
    lemma_append_piece(none, first, h);
    assert forall|i: int| 0 <= i < lines.len() implies headless(#[trigger] lines[i], h) by {
        if i > 0 {
            assert(lines[i] == body_lines(messages)[i - 1]);
            lemma_body_headless(messages, i - 1, h);
        }
    }
    lemma_join_headless(lines, h);
    lemma_headless_contains(messages_digest(messages), h);
}

/// A digest is never taken for a structured summary.
pub proof fn law_digest_is_no_structured_summary(messages: Seq<MessageView>)
    ensures
        !is_structured_summary(messages_digest(messages)),
{
    lemma_sections();
    law_digest_headless(messages, "Goal"@);
}

pub open spec fn on_one_line(s: Seq<char>) -> bool {
    !s.contains('\n')
}

proof fn lemma_replace_feeds(s: Seq<char>, from: Seq<char>, to: Seq<char>)
    requires
        on_one_line(to),
        on_one_line(s) || from == seq!['\n'],
        from.len() > 0,
    ensures
        on_one_line(replace(s, from, to)),
    decreases s.len(),
{
    let r = replace(s, from, to);
    if s.len() < from.len() {
        if !on_one_line(s) {
            let i = choose|i: int| 0 <= i < s.len() && s[i] == '\n';
            assert(s.len() == 0);
        }
    } else if s.take(from.len() as int) == from {
        let rest = s.skip(from.len() as int);
        if on_one_line(s) {
            assert forall|i: int| 0 <= i < rest.len() implies #[trigger] rest[i] != '\n' by {
                assert(s[i + from.len()] != '\n');
            }
        }
        lemma_replace_feeds(rest, from, to);
        assert forall|i: int| 0 <= i < r.len() implies #[trigger] r[i] != '\n' by {
            if i < to.len() {
                assert(to[i] != '\n');
            } else {
                assert(replace(rest, from, to)[i - to.len()] != '\n');
            }
        }
    } else {
        let rest = s.skip(1);
        if on_one_line(s) {
            assert forall|i: int| 0 <= i < rest.len() implies #[trigger] rest[i] != '\n' by {
                assert(s[i + 1] != '\n');
            }
        }
        lemma_replace_feeds(rest, from, to);
        assert(s[0] != '\n') by {
            if !on_one_line(s) && s[0] == '\n' {
                assert(s.take(1) =~= from);
            }
        }
        assert forall|i: int| 0 <= i < r.len() implies #[trigger] r[i] != '\n' by {
            if i > 0 {
                assert(replace(rest, from, to)[i - 1] != '\n');
            }
        }
    }
}

/// A flattened text is on one line.
pub proof fn law_flattened_on_one_line(raw: Seq<char>)
    ensures
        on_one_line(flattened(raw)),
{
    reveal_strlit("\n");
    reveal_strlit(" ");
    assert("\n"@ =~= seq!['\n']);
    lemma_replace_feeds(replace(raw, "\r\n"@, " "@), "\n"@, " "@);
}

/// A sanitized fragment stays on one line.
pub proof fn law_sanitized_on_one_line(raw: Seq<char>)
    ensures
        on_one_line(sanitized(raw)),
{
    reveal_strlit("Goal:");
    reveal_strlit("Goal :");
    reveal_strlit("Accomplished:");
    reveal_strlit("Accomplished :");
    reveal_strlit("Key Decisions:");
    reveal_strlit("Key Decisions :");
    reveal_strlit("Relevant Files:");
    reveal_strlit("Relevant Files :");
    let flat = flattened(raw);
    law_flattened_on_one_line(raw);
    let s1 = replace(flat, "Goal:"@, "Goal :"@);
    lemma_replace_feeds(flat, "Goal:"@, "Goal :"@);
    let s2 = replace(s1, "Accomplished:"@, "Accomplished :"@);
    lemma_replace_feeds(s1, "Accomplished:"@, "Accomplished :"@);
    let s3 = replace(s2, "Key Decisions:"@, "Key Decisions :"@);
    lemma_replace_feeds(s2, "Key Decisions:"@, "Key Decisions :"@);
    lemma_replace_feeds(s3, "Relevant Files:"@, "Relevant Files :"@);
}

pub proof fn lemma_replace_absent(s: Seq<char>, from: Seq<char>, to: Seq<char>)
    requires
        from.len() > 0,
        !contains(s, from),
    ensures
        replace(s, from, to) == s,
    decreases s.len(),
{
    if s.len() >= from.len() {
        assert(s.take(from.len() as int) != from) by {
            if s.take(from.len() as int) == from {
                assert(s.subrange(0, from.len() as int) =~= from);
                assert(occurs_at(s, from, 0));
            }
        }
        let rest = s.skip(1);
        if contains(rest, from) {
            let i = choose|i: int| occurs_at(rest, from, i);
            assert(s.subrange(i + 1, i + 1 + from.len()) =~= rest.subrange(i, i + from.len()));
            assert(occurs_at(s, from, i + 1));
        }
        lemma_replace_absent(rest, from, to);
        assert(seq![s[0]] + rest =~= s);
    }
}

pub proof fn lemma_no_feed(s: Seq<char>, p: Seq<char>)
    requires
        on_one_line(s),
        p.contains('\n'),
    ensures
        !contains(s, p),
{
    if contains(s, p) {
        let i = choose|i: int| occurs_at(s, p, i);
        let k = choose|k: int| 0 <= k < p.len() && p[k] == '\n';
        assert(s.subrange(i, i + p.len())[k] == s[i + k]);
        assert(s.contains(s[i + k]));
    }
}

/// Sanitizing a fragment twice is sanitizing it once.
pub proof fn law_sanitized_idempotent(raw: Seq<char>)
    ensures
        sanitized(sanitized(raw)) == sanitized(raw),
{
    let s = sanitized(raw);
    law_sanitized_on_one_line(raw);
    reveal_strlit("\r\n");
    reveal_strlit("\n");
    assert("\r\n"@[1] == '\n');
    assert("\n"@[0] == '\n');
    lemma_no_feed(s, "\r\n"@);
    lemma_no_feed(s, "\n"@);
    lemma_replace_absent(s, "\r\n"@, " "@);
    lemma_replace_absent(s, "\n"@, " "@);
    lemma_sections();
    law_sanitized_headless(raw, "Goal"@);
    law_sanitized_headless(raw, "Accomplished"@);
    law_sanitized_headless(raw, "Key Decisions"@);
    law_sanitized_headless(raw, "Relevant Files"@);
    lemma_replace_absent(s, "Goal:"@, "Goal :"@);
    lemma_replace_absent(s, "Accomplished:"@, "Accomplished :"@);
    lemma_replace_absent(s, "Key Decisions:"@, "Key Decisions :"@);
    lemma_replace_absent(s, "Relevant Files:"@, "Relevant Files :"@);
}

/// Each line of a digest's body is one line of text.
pub proof fn law_digest_lines(messages: Seq<MessageView>, i: int)
    requires
        0 <= i < body_lines(messages).len(),
    ensures
        on_one_line(body_lines(messages)[i]),
    decreases messages.len(),
{
    let front = body_lines(messages.drop_last());
    if i < front.len() {
        law_digest_lines(messages.drop_last(), i);
    } else {
        lemma_line_on_one_line(messages.last(), i - front.len());
    }
}

pub proof fn lemma_concat_on_one_line(a: Seq<char>, b: Seq<char>)
    requires
        on_one_line(a),
        on_one_line(b),
    ensures
        on_one_line(a + b),
{
    let r = a + b;
    assert forall|i: int| 0 <= i < r.len() implies #[trigger] r[i] != '\n' by {
        if i < a.len() {
            assert(a[i] != '\n');
        } else {
            assert(b[i - a.len()] != '\n');
        }
    }
}

proof fn lemma_line_on_one_line(message: MessageView, i: int)
    requires
        0 <= i < message_lines(message).len(),
    ensures
        on_one_line(message_lines(message)[i]),
{
    match message {
        MessageView::User { content } => {
            reveal_strlit("User: ");
            law_sanitized_on_one_line(ellipsized(content, 120));
            lemma_concat_on_one_line("User: "@, sanitized(ellipsized(content, 120)));
        },
        MessageView::Assistant { text, tool_calls } => {
            reveal_strlit("Assistant: ");
            reveal_strlit("  → tool_use: ");
            if text.len() > 0 && i == 0 {
                law_sanitized_on_one_line(ellipsized(text, 120));
                lemma_concat_on_one_line("Assistant: "@, sanitized(ellipsized(text, 120)));
            } else {
                let k = if text.len() > 0 {
                    i - 1
                } else {
                    i
                };
                assert(message_lines(message)[i] == call_line(tool_calls[k]));
                law_sanitized_on_one_line(tool_calls[k].name);
                lemma_concat_on_one_line("  → tool_use: "@, sanitized(tool_calls[k].name));
            }
        },
        MessageView::ToolResult { tool_use_id, content, is_error } => {
            reveal_strlit("ToolResult(");
            reveal_strlit("): ");
            reveal_strlit("ok");
            reveal_strlit("error");
            reveal_strlit(" — ");
            law_sanitized_on_one_line(tool_use_id);
            law_sanitized_on_one_line(ellipsized(content, 100));
            let a = "ToolResult("@;
            let b = sanitized(tool_use_id);
            lemma_concat_on_one_line(a, b);
            lemma_concat_on_one_line(a + b, "): "@);
            lemma_concat_on_one_line(a + b + "): "@, status_word(is_error));
            lemma_concat_on_one_line(a + b + "): "@ + status_word(is_error), " — "@);
            lemma_concat_on_one_line(
                a + b + "): "@ + status_word(is_error) + " — "@,
                sanitized(ellipsized(content, 100)),
            );
        },
    }
}

/// A tool result that was cut fits the limit, so that cutting it again changes
/// nothing, wherever the limit leaves room for the note on what is left out.
pub proof fn law_cut_result_fits(content: Seq<char>, max: int)
    requires
        60 <= max,
        byte_len(content) <= u64::MAX,
    ensures
        byte_len(cut_result(content, max)) <= max,
        cut_result(cut_result(content, max), max) == cut_result(content, max),
{
    if byte_len(content) > max {
        let keep = kept_bytes(max);
        let head = prefix_within(content, keep);
        let tail = suffix_from(content, byte_len(content) - keep);
        let omitted = decimal((byte_len(content) - byte_len(head) - byte_len(tail)) as nat);
        let before = "\n\n[..."@;
        let after = " bytes omitted...]\n\n"@;
        lemma_floor(content, keep);
        lemma_ceil(content, byte_len(content) - keep);
        reveal_strlit("\n\n[...");
        reveal_strlit(" bytes omitted...]\n\n");
        lemma_byte_len_ascii(before);
        lemma_byte_len_ascii(after);
        lemma_decimal_of_u64((byte_len(content) - byte_len(head) - byte_len(tail)) as nat);
        lemma_decimal_digits((byte_len(content) - byte_len(head) - byte_len(tail)) as nat);
        lemma_byte_len_ascii(omitted);
        lemma_byte_len_concat(head, before);
        lemma_byte_len_concat(head + before, omitted);
        lemma_byte_len_concat(head + before + omitted, after);
        lemma_byte_len_concat(head + before + omitted + after, tail);
    }
}

} // verus!
