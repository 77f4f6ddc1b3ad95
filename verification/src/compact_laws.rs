//! What mechanical compaction keeps.

use crate::bytes::byte_len;
use crate::compact::{
    adjusted_split, all_without_thinking, begins_with_lines, behind_thinking, collapse_outcome,
    collapsed, compacted, compaction_split, count_of, half_split, has_summary, has_thinking,
    is_collapse, is_count, is_digest, leading_digits, microcompact_freed, microcompacted,
    mid_compacted, mid_outcome, mid_summary, result_count, spliced, to_clear, without_thinking,
};
use crate::digest::{body_lines, headline, messages_digest, sanitized};
use crate::digest_laws::law_sanitized_idempotent;
use crate::message::MessageView;
use crate::number::{all_digits, decimal, lemma_decimal_begins, lemma_decimal_digits};
use crate::text::{is_ascii_digit, join, starts_with};
use vstd::prelude::*;

verus! {

/// Two messages are of one kind and carry the same call, flags and other
/// structure; the content of a tool result may differ.
pub open spec fn same_structure(a: MessageView, b: MessageView) -> bool {
    match (a, b) {
        (
            MessageView::ToolResult { tool_use_id: id_a, is_error: e_a, .. },
            MessageView::ToolResult { tool_use_id: id_b, is_error: e_b, .. },
        ) => id_a == id_b && e_a == e_b,
        _ => a == b,
    }
}

proof fn lemma_same_kinds_count(a: Seq<MessageView>, b: Seq<MessageView>)
    requires
        a.len() == b.len(),
        forall|i: int| 0 <= i < a.len() ==> (#[trigger] a[i] is ToolResult <==> b[i] is ToolResult),
    ensures
        result_count(a) == result_count(b),
    decreases a.len(),
{
    if a.len() > 0 {
        assert(a[0] is ToolResult <==> b[0] is ToolResult);
        assert forall|i: int| 0 <= i < a.skip(1).len() implies (#[trigger] a.skip(1)[i] is ToolResult
            <==> b.skip(1)[i] is ToolResult) by {
            assert(a[i + 1] is ToolResult <==> b[i + 1] is ToolResult);
        }
        lemma_same_kinds_count(a.skip(1), b.skip(1));
    }
}

/// Microcompaction changes nothing but the content of tool results.
pub proof fn law_microcompact_keeps_structure(messages: Seq<MessageView>, retain: int, i: int)
    requires
        0 <= i < messages.len(),
    ensures
        microcompacted(messages, retain).len() == messages.len(),
        same_structure(microcompacted(messages, retain)[i], messages[i]),
        !(messages[i] is ToolResult) ==> microcompacted(messages, retain)[i] == messages[i],
{
}

/// Microcompaction leaves the `retain` most recent tool results as they are.
pub proof fn law_microcompact_keeps_recent(messages: Seq<MessageView>, retain: int, i: int)
    requires
        0 <= i < messages.len(),
        result_count(messages.skip(i + 1)) < retain,
    ensures
        microcompacted(messages, retain)[i] == messages[i],
{
}

/// A second microcompaction changes nothing.
pub proof fn law_microcompact_idempotent(messages: Seq<MessageView>, retain: int)
    ensures
        microcompacted(microcompacted(messages, retain), retain) == microcompacted(
            messages,
            retain,
        ),
        microcompact_freed(microcompacted(messages, retain), retain, messages.len() as int) == 0,
{
    let once = microcompacted(messages, retain);
    assert forall|i: int| 0 <= i < messages.len() implies !#[trigger] to_clear(once, retain, i) by {
        lemma_not_cleared_twice(messages, retain, i);
    }
    assert(microcompacted(once, retain) =~= once);
    lemma_freed_none(once, retain, messages.len() as int);
}

proof fn lemma_not_cleared_twice(messages: Seq<MessageView>, retain: int, i: int)
    requires
        0 <= i < messages.len(),
    ensures
        !to_clear(microcompacted(messages, retain), retain, i),
{
    let once = microcompacted(messages, retain);
    if !to_clear(messages, retain, i) {
        assert(once[i] == messages[i]);
        let a = once.skip(i + 1);
        let b = messages.skip(i + 1);
        assert forall|j: int| 0 <= j < a.len() implies (#[trigger] a[j] is ToolResult
            <==> b[j] is ToolResult) by {
            law_microcompact_keeps_structure(messages, retain, j + i + 1);
        }
        lemma_same_kinds_count(a, b);
    }
}

proof fn lemma_freed_none(messages: Seq<MessageView>, retain: int, n: int)
    requires
        0 <= n <= messages.len(),
        forall|i: int| 0 <= i < messages.len() ==> !#[trigger] to_clear(messages, retain, i),
    ensures
        microcompact_freed(messages, retain, n) == 0,
    decreases n,
{
    if n > 0 {
        assert(!to_clear(messages, retain, n - 1));
        lemma_freed_none(messages, retain, n - 1);
    }
}

/// The content of a tool result, or nothing for another message.
pub open spec fn result_bytes(message: MessageView) -> nat {
    match message {
        MessageView::ToolResult { content, .. } => byte_len(content),
        _ => 0,
    }
}

/// Microcompaction makes no tool result longer.
pub proof fn law_microcompact_shrinks(messages: Seq<MessageView>, retain: int, i: int)
    requires
        0 <= i < messages.len(),
    ensures
        result_bytes(microcompacted(messages, retain)[i]) <= result_bytes(messages[i]),
{
}

/// Where the split is moved, the tail does not begin with a tool result.
pub proof fn law_split_begins_cleanly(messages: Seq<MessageView>, split: int)
    requires
        split >= 1,
    ensures
        1 <= adjusted_split(messages, split) <= split,
        1 < adjusted_split(messages, split) < messages.len() ==> !(messages[adjusted_split(
            messages,
            split,
        )] is ToolResult),
    decreases split,
{
    if split > 1 && split < messages.len() && messages[split] is ToolResult {
        law_split_begins_cleanly(messages, split - 1);
    }
}

pub open spec fn asks_for(message: MessageView, id: Seq<char>) -> bool {
    message matches MessageView::Assistant { tool_calls, .. } && exists|k: int|
        0 <= k < tool_calls.len() && (#[trigger] tool_calls[k]).id == id
}

/// The tool result at `i` answers a call of the assistant message at `j`, with
/// nothing but tool results between them.
pub open spec fn answers(messages: Seq<MessageView>, i: int, j: int) -> bool {
    &&& 0 <= j < i < messages.len()
    &&& messages[i] matches MessageView::ToolResult { tool_use_id, .. } && asks_for(
        messages[j],
        tool_use_id,
    )
    &&& forall|k: int| j < k < i ==> #[trigger] messages[k] is ToolResult
}

/// Each tool result stands behind the assistant message whose call it answers.
pub open spec fn paired(messages: Seq<MessageView>) -> bool {
    forall|i: int|
        0 <= i < messages.len() && #[trigger] messages[i] is ToolResult ==> exists|j: int|
            answers(messages, i, j)
}

/// Replacing `1..split` keeps the pairs, where the tail begins cleanly.
pub proof fn lemma_spliced_paired(messages: Seq<MessageView>, split: int, summary: Seq<char>)
    requires
        paired(messages),
        1 < split <= messages.len(),
        split < messages.len() ==> !(messages[split] is ToolResult),
    ensures
        paired(spliced(messages, split, summary)),
{
    let after = spliced(messages, split, summary);
    assert(after.len() == messages.len() - split + 2);
    assert(messages.take(1).len() == 1);
    assert forall|i: int| 0 <= i < after.len() && #[trigger] after[i] is ToolResult implies exists|
        j: int,
    |
        answers(after, i, j) by {
        if i == 0 {
            assert(after[0] == messages[0]);
            let j = choose|j: int| answers(messages, 0, j);
            assert(answers(messages, 0, j));
        } else if i == 1 {
            assert(after[1] == MessageView::User { content: summary });
        } else {
            let at = i - 2 + split;
            assert(after[i] == messages[at]);
            let j = choose|j: int| answers(messages, at, j);
            assert(answers(messages, at, j));
            if j < split {
                assert(messages[split] is ToolResult);
            }
            let to = j - split + 2;
            assert(after[to] == messages[j]);
            assert forall|k: int| to < k < i implies #[trigger] after[k] is ToolResult by {
                assert(after[k] == messages[k - 2 + split]);
            }
            assert(answers(after, i, to));
        }
    }
}

/// Compaction leaves no tool result without the call that it answers.
pub proof fn law_compaction_keeps_pairs(messages: Seq<MessageView>, retain: int)
    requires
        paired(messages),
        retain >= 0,
    ensures
        paired(compacted(messages, retain)),
{
    let split = compaction_split(messages, retain);
    if split > 1 {
        law_split_begins_cleanly(messages, messages.len() - retain);
        lemma_spliced_paired(
            messages,
            split,
            messages_digest(messages.subrange(1, split)),
        );
    }
}

/// Mid-tier compaction leaves no tool result without the call that it answers.
pub proof fn law_mid_compaction_keeps_pairs(
    messages: Seq<MessageView>,
    session_summary: Option<Seq<char>>,
)
    requires
        paired(messages),
    ensures
        paired(mid_compacted(messages, session_summary)),
{
    law_collapse_keeps_pairs(messages, session_summary);
}

/// Collapsing the older half leaves no tool result without the call that it answers.
pub proof fn law_collapse_keeps_pairs(
    messages: Seq<MessageView>,
    session_summary: Option<Seq<char>>,
)
    requires
        paired(messages),
    ensures
        paired(collapsed(messages, session_summary)),
{
    let split = half_split(messages);
    if split > 1 {
        law_split_begins_cleanly(messages, 1 + (messages.len() as int) / 2);
        lemma_spliced_paired(
            messages,
            split,
            mid_summary(messages.subrange(1, split), session_summary),
        );
    }
}

/// Compaction keeps the first message and the last `retain` ones, and never
/// makes the buffer longer.
pub proof fn law_compaction_keeps_ends(messages: Seq<MessageView>, retain: int)
    requires
        0 <= retain < messages.len(),
    ensures
        compacted(messages, retain)[0] == messages[0],
        compacted(messages, retain).len() <= messages.len(),
        retain <= compacted(messages, retain).len(),
        compacted(messages, retain).skip(compacted(messages, retain).len() - retain)
            == messages.skip(messages.len() - retain),
{
    let split = compaction_split(messages, retain);
    let after = compacted(messages, retain);
    if split > 1 {
        law_split_begins_cleanly(messages, messages.len() - retain);
        assert(messages.take(1).len() == 1);
        assert(after.skip(after.len() - retain) =~= messages.skip(messages.len() - retain));
    }
}

/// Collapsing the older half keeps the first message and everything behind the split,
/// and never makes the buffer longer; what it discards is at least one message of the
/// older half.
pub proof fn law_collapse_keeps_ends(
    messages: Seq<MessageView>,
    session_summary: Option<Seq<char>>,
)
    requires
        half_split(messages) > 1,
    ensures
        collapsed(messages, session_summary)[0] == messages[0],
        collapsed(messages, session_summary).skip(2) == messages.skip(half_split(messages)),
        collapsed(messages, session_summary).len() == messages.len() - half_split(messages) + 2,
        half_split(messages) <= 1 + (messages.len() as int) / 2,
{
    let split = half_split(messages);
    law_split_begins_cleanly(messages, 1 + (messages.len() as int) / 2);
    assert(messages.take(1).len() == 1);
    assert(collapsed(messages, session_summary).skip(2) =~= messages.skip(split));
}

proof fn lemma_adjusted_to_one(messages: Seq<MessageView>, split: int)
    requires
        1 <= split < messages.len(),
    ensures
        adjusted_split(messages, split) <= 1 <==> (forall|i: int|
            2 <= i <= split ==> #[trigger] messages[i] is ToolResult),
    decreases split,
{
    if split > 1 {
        if messages[split] is ToolResult {
            lemma_adjusted_to_one(messages, split - 1);
        }
    }
}

/// There is nothing to collapse exactly where the buffer has no more than two
/// messages, or where everything from the third message up to the split is a tool
/// result.
pub proof fn law_when_nothing_collapses(messages: Seq<MessageView>, with_summary: bool)
    ensures
        collapse_outcome(messages, with_summary) is Noop <==> (messages.len() <= 2 || forall|i: int|
            2 <= i <= 1 + (messages.len() as int) / 2 ==> #[trigger] messages[i] is ToolResult),
{
    if messages.len() > 2 {
        lemma_adjusted_to_one(messages, 1 + (messages.len() as int) / 2);
    }
}

proof fn lemma_begins(a: Seq<char>, b: Seq<char>)
    ensures
        starts_with(a + b, a),
{
    assert((a + b).subrange(0, a.len() as int) =~= a);
}

proof fn lemma_leading_digits(digits: Seq<char>, rest: Seq<char>)
    requires
        all_digits(digits),
        rest.len() > 0,
        !is_ascii_digit(rest[0]),
    ensures
        leading_digits(digits + rest) == digits.len(),
    decreases digits.len(),
{
    if digits.len() == 0 {
        assert(digits + rest =~= rest);
    } else {
        assert((digits + rest).skip(1) =~= digits.skip(1) + rest);
        assert(is_ascii_digit(digits[0]));
        assert forall|i: int| 0 <= i < digits.skip(1).len() implies is_ascii_digit(
            #[trigger] digits.skip(1)[i],
        ) by {
            assert(is_ascii_digit(digits[i + 1]));
        }
        lemma_leading_digits(digits.skip(1), rest);
    }
}

/// The count in a headline is read back.
proof fn lemma_count(count: nat, rest: Seq<char>)
    requires
        count > 0,
        rest.len() > 0,
        !is_ascii_digit(rest[0]),
    ensures
        count_of(decimal(count) + rest) == decimal(count),
        is_count(decimal(count)),
{
    lemma_decimal_digits(count);
    lemma_decimal_begins(count);
    lemma_leading_digits(decimal(count), rest);
    assert((decimal(count) + rest).take(decimal(count).len() as int) =~= decimal(count));
}

proof fn lemma_join_begins(parts: Seq<Seq<char>>)
    requires
        parts.len() > 0,
    ensures
        begins_with_lines(join(parts, "\n"@), parts[0]),
    decreases parts.len(),
{
    let first = parts[0];
    let whole = join(parts, "\n"@);
    reveal_strlit("\n");
    if parts.len() == 1 {
        assert(whole.subrange(0, first.len() as int) =~= first);
    } else {
        let front = join(parts.drop_last(), "\n"@);
        lemma_join_begins(parts.drop_last());
        assert(front.subrange(0, first.len() as int) =~= first);
        assert("\n"@.len() == 1 && "\n"@[0] == '\n');
        assert(whole =~= front + "\n"@ + parts.last());
        assert(whole.subrange(0, first.len() as int) =~= front.subrange(0, first.len() as int));
        if front.len() == first.len() {
            assert(whole[first.len() as int] == '\n');
        } else {
            assert(whole[first.len() as int] == front[first.len() as int]);
        }
    }
}

/// A digest begins with its headline, and is known by it.
proof fn lemma_digest_begins(messages: Seq<MessageView>)
    requires
        messages.len() > 0,
    ensures
        begins_with_lines(messages_digest(messages), headline(messages.len())),
        is_digest(messages_digest(messages)),
{
    let s = messages_digest(messages);
    let digits = decimal(messages.len());
    let head = headline(messages.len());
    lemma_join_begins(seq![head] + body_lines(messages));
    reveal_strlit("[");
    reveal_strlit(" messages compacted]");
    assert("["@.len() == 1);
    assert(" messages compacted]"@[0] == ' ');
    let more = s.skip(head.len() as int);
    assert(s.subrange(0, head.len() as int) =~= head);
    assert(s =~= head + more);
    assert(head =~= "["@ + digits + " messages compacted]"@);
    assert(s =~= "["@ + (digits + (" messages compacted]"@ + more)));
    lemma_begins("["@, digits + (" messages compacted]"@ + more));
    assert(s.skip(1) =~= digits + (" messages compacted]"@ + more));
    assert((" messages compacted]"@ + more)[0] == ' ');
    lemma_count(messages.len(), " messages compacted]"@ + more);
}

/// The text of a collapse is known by its first two lines.
proof fn lemma_collapse_known(discarded: Seq<MessageView>)
    requires
        discarded.len() > 0,
    ensures
        is_collapse(mid_summary(discarded, None)),
{
    let mark = "[Mid-tier context collapse — "@;
    let word = " messages compacted]\n"@;
    let digits = decimal(discarded.len());
    let digest = messages_digest(discarded);
    let s = mid_summary(discarded, None);
    let lines = mark + digits + word + headline(discarded.len());
    reveal_strlit(" messages compacted]\n");
    assert(word[0] == ' ');
    lemma_digest_begins(discarded);
    assert(s =~= mark + (digits + (word + digest)));
    lemma_begins(mark, digits + (word + digest));
    assert(s.skip(mark.len() as int) =~= digits + (word + digest));
    assert((word + digest)[0] == ' ');
    lemma_count(discarded.len(), word + digest);
    let before = mark + digits + word;
    assert(s =~= before + digest);
    let head = headline(discarded.len());
    assert(digest.subrange(0, head.len() as int) =~= head);
    assert(s.subrange(0, lines.len() as int) =~= lines);
    if s.len() != lines.len() {
        assert(s[lines.len() as int] == digest[head.len() as int]);
    }
}

/// What stands for the older half of a buffer is known as a summary.
pub proof fn law_collapse_leaves_a_summary(
    messages: Seq<MessageView>,
    session_summary: Option<Seq<char>>,
)
    requires
        half_split(messages) > 1,
    ensures
        has_summary(collapsed(messages, session_summary)),
{
    let split = half_split(messages);
    let discarded = messages.subrange(1, split);
    let after = collapsed(messages, session_summary);
    law_collapse_keeps_ends(messages, session_summary);
    assert(messages.take(1).len() == 1);
    assert(after[1] == (MessageView::User { content: mid_summary(discarded, session_summary) }));
    match session_summary {
        Some(s) => {
            let mark = "[Session memory summary]\n"@;
            lemma_begins(mark, sanitized(s));
            law_sanitized_idempotent(s);
            assert((mark + sanitized(s)).skip(mark.len() as int) =~= sanitized(s));
        },
        None => {
            lemma_collapse_known(discarded);
        },
    }
}

/// A buffer with a summary behind its first message is not compacted by the middle
/// tier, and what the middle tier leaves has one: a second run changes nothing,
/// whatever session summary it is given.
pub proof fn law_mid_compaction_settles(
    messages: Seq<MessageView>,
    first: Option<Seq<char>>,
    second: Option<Seq<char>>,
)
    ensures
        has_summary(messages) ==> mid_compacted(messages, first) == messages && mid_outcome(
            messages,
            first is Some,
        ) is Noop,
        !(mid_outcome(messages, first is Some) is Noop) ==> has_summary(
            mid_compacted(messages, first),
        ),
        mid_compacted(mid_compacted(messages, first), second) == mid_compacted(messages, first),
        mid_outcome(mid_compacted(messages, first), second is Some) is Noop,
{
    if half_split(messages) > 1 {
        law_collapse_leaves_a_summary(messages, first);
    }
}

/// A mid-tier compaction does nothing exactly where the buffer has a summary already
/// or there is nothing to collapse, and then it leaves the buffer as it was.
pub proof fn law_when_the_middle_tier_rests(
    messages: Seq<MessageView>,
    session_summary: Option<Seq<char>>,
)
    ensures
        mid_outcome(messages, session_summary is Some) is Noop <==> (has_summary(messages)
            || messages.len() <= 2 || forall|i: int|
            2 <= i <= 1 + (messages.len() as int) / 2 ==> #[trigger] messages[i] is ToolResult),
        mid_outcome(messages, session_summary is Some) is Noop ==> mid_compacted(
            messages,
            session_summary,
        ) == messages,
{
    law_when_nothing_collapses(messages, session_summary is Some);
}

/// Mid-tier compaction does not make the buffer longer, and leaves its first message
/// and one more.
pub proof fn law_mid_compaction_is_bounded(
    messages: Seq<MessageView>,
    session_summary: Option<Seq<char>>,
)
    requires
        messages.len() >= 2,
    ensures
        2 <= mid_compacted(messages, session_summary).len() <= messages.len(),
        mid_compacted(messages, session_summary)[0] == messages[0],
{
    if half_split(messages) > 1 {
        law_collapse_keeps_ends(messages, session_summary);
    }
}

/// What a mechanical compaction leaves is a summary too.
pub proof fn law_compaction_leaves_a_summary(messages: Seq<MessageView>, retain: int)
    requires
        retain >= 0,
    ensures
        compaction_split(messages, retain) > 1 ==> has_summary(compacted(messages, retain)),
{
    let split = compaction_split(messages, retain);
    if split > 1 {
        let discarded = messages.subrange(1, split);
        law_split_begins_cleanly(messages, messages.len() - retain);
        assert(messages.take(1).len() == 1);
        lemma_digest_begins(discarded);
        assert(compacted(messages, retain)[1] == (MessageView::User {
            content: messages_digest(discarded),
        }));
    }
}

/// Only assistant texts lose a thinking block; nothing else changes.
pub proof fn law_thinking_only_in_assistants(messages: Seq<MessageView>, i: int)
    requires
        0 <= i < messages.len(),
    ensures
        all_without_thinking(messages).len() == messages.len(),
        !(messages[i] is Assistant) ==> all_without_thinking(messages)[i] == messages[i],
        messages[i] matches MessageView::Assistant { tool_calls, .. } ==> (
        all_without_thinking(messages)[i] matches MessageView::Assistant {
            tool_calls: kept,
            ..
        } && kept == tool_calls),
        !has_thinking(messages[i]) ==> all_without_thinking(messages)[i] == messages[i],
{
}

/// Taking out thinking blocks twice is taking them out once, for a message whose
/// text has no second block right behind the first.
pub proof fn law_strip_thinking_idempotent(message: MessageView)
    requires
        message matches MessageView::Assistant { text, .. } && behind_thinking(text) matches Some(
            rest,
        ) ==> behind_thinking(rest) is None,
    ensures
        without_thinking(without_thinking(message)) == without_thinking(message),
        !has_thinking(without_thinking(message)),
{
}

} // verus!
