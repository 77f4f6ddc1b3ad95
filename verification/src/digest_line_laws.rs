//! What stands in the lines of a digest, and in a tool result that was cut.

use crate::bytes::{
    byte_len, ellipsized, floor_chars, lemma_byte_len_parts, lemma_ceil, lemma_floor, prefix_within,
    suffix_from, utf8_len,
};
use crate::compact::{mid_summary, with_cut_result};
use crate::digest::{
    body_lines, cut_result, flattened, is_structured_summary, message_lines, messages_digest,
    sanitized, summary_prompt,
};
use crate::digest_laws::{lemma_no_feed, lemma_replace_absent, on_one_line};
use crate::message::{MessageView, ToolCallView};
use crate::number::decimal;
use crate::summarizer::summary_message;
use crate::text::{contains, ends_with, join, starts_with};
use crate::text_laws::{lemma_begins, lemma_ends};
use vstd::prelude::*;

verus! {

/// A text that is on one line and holds no section header is embedded as it is.
pub proof fn law_clean_text_stays(raw: Seq<char>)
    requires
        on_one_line(raw),
        !contains(raw, "Goal:"@),
        !contains(raw, "Accomplished:"@),
        !contains(raw, "Key Decisions:"@),
        !contains(raw, "Relevant Files:"@),
    ensures
        sanitized(raw) == raw,
        flattened(raw) == raw,
{
    reveal_strlit("\r\n");
    reveal_strlit("\n");
    reveal_strlit("Goal:");
    reveal_strlit("Accomplished:");
    reveal_strlit("Key Decisions:");
    reveal_strlit("Relevant Files:");
    assert("\r\n"@[1] == '\n');
    assert("\n"@[0] == '\n');
    lemma_no_feed(raw, "\r\n"@);
    lemma_no_feed(raw, "\n"@);
    lemma_replace_absent(raw, "\r\n"@, " "@);
    lemma_replace_absent(raw, "\n"@, " "@);
    lemma_replace_absent(raw, "Goal:"@, "Goal :"@);
    lemma_replace_absent(raw, "Accomplished:"@, "Accomplished :"@);
    lemma_replace_absent(raw, "Key Decisions:"@, "Key Decisions :"@);
    lemma_replace_absent(raw, "Relevant Files:"@, "Relevant Files :"@);
}

/// A line feed in an embedded text becomes a space, with the carriage return before it.
pub proof fn law_lines_are_joined_by_spaces(first: Seq<char>, second: Seq<char>)
    requires
        on_one_line(first),
        on_one_line(second),
        !first.contains('\r'),
        !second.contains('\r'),
    ensures
        flattened(first + seq!['\n'] + second) == first + seq![' '] + second,
        flattened(first + seq!['\r', '\n'] + second) == first + seq![' '] + second,
{
    reveal_strlit("\r\n");
    reveal_strlit("\n");
    reveal_strlit(" ");
    assert("\r\n"@ =~= seq!['\r', '\n']);
    assert("\n"@ =~= seq!['\n']);
    assert(" "@ =~= seq![' ']);
    let feed = first + seq!['\n'] + second;
    let both = first + seq!['\r', '\n'] + second;
    let spaced = first + seq![' '] + second;
    assert(!contains(feed, "\r\n"@)) by {
        if contains(feed, "\r\n"@) {
            let i = choose|i: int| crate::text::occurs_at(feed, "\r\n"@, i);
            assert(feed.subrange(i, i + 2)[0] == feed[i]);
            if i < first.len() {
                assert(first.contains(first[i]));
            } else if i > first.len() {
                assert(second.contains(second[i - first.len() - 1]));
            }
        }
    }
    lemma_replace_absent(feed, "\r\n"@, " "@);
    lemma_replace_one(first, "\n"@, second, " "@);
    lemma_no_feed(second, "\n"@);
    lemma_no_feed(first, "\n"@);
    lemma_replace_one(first, "\r\n"@, second, " "@);
    assert(both =~= first + "\r\n"@ + second);
    assert(feed =~= first + "\n"@ + second);
    assert(on_one_line(spaced)) by {
        if spaced.contains('\n') {
            let i = choose|i: int| 0 <= i < spaced.len() && spaced[i] == '\n';
            if i < first.len() {
                assert(first.contains(first[i]));
            } else if i > first.len() {
                assert(second.contains(second[i - first.len() - 1]));
            }
        }
    }
    lemma_no_feed(spaced, "\n"@);
    lemma_replace_absent(spaced, "\n"@, " "@);
}

/// Replacing a pattern that begins and ends in characters that stand nowhere else.
proof fn lemma_replace_one(
    first: Seq<char>,
    p: Seq<char>,
    second: Seq<char>,
    to: Seq<char>,
)
    requires
        p.len() > 0,
        !first.contains(p[0]),
        !contains(second, p),
    ensures
        crate::text::replace(first + p + second, p, to) == first + to + second,
    decreases first.len(),
{
    let s = first + p + second;
    if first.len() == 0 {
        assert(s.take(p.len() as int) =~= p);
        assert(s.skip(p.len() as int) =~= second);
        lemma_replace_absent(second, p, to);
        assert(crate::text::replace(s, p, to) =~= first + to + second);
    } else {
        assert(s.take(p.len() as int)[0] == first[0]);
        assert(first.contains(first[0]));
        assert(s.skip(1) =~= first.skip(1) + p + second);
        assert(!first.skip(1).contains(p[0])) by {
            if first.skip(1).contains(p[0]) {
                let i = choose|i: int| 0 <= i < first.skip(1).len() && first.skip(1)[i] == p[0];
                assert(first[i + 1] == p[0]);
            }
        }
        lemma_replace_one(first.skip(1), p, second, to);
        assert(seq![first[0]] + (first.skip(1) + to + second) =~= first + to + second);
    }
}

/// A text that is too long keeps as much of its beginning as fits, and the ellipsis
/// behind it says so.
pub proof fn law_long_text_keeps_its_beginning(s: Seq<char>, max: int)
    requires
        max >= 0,
        byte_len(s) > max,
    ensures
        exists|k: int|
            0 <= k < s.len() && ellipsized(s, max) == #[trigger] s.take(k) + "…"@ && byte_len(
                s.take(k),
            ) <= max < byte_len(s.take(k)) + utf8_len(s[k]),
{
    lemma_floor(s, max);
    let k = floor_chars(s, max);
    assert(k < s.len()) by {
        if k == s.len() {
            assert(s.take(k) =~= s);
        }
    }
    assert(ellipsized(s, max) == s.take(k) + "…"@);
}

/// A failed tool result is told as an error and a successful one as ok, under the id of
/// its call and with what it says.
pub proof fn law_result_line(id: Seq<char>, content: Seq<char>)
    ensures
        ({
            let failed = message_lines(
                MessageView::ToolResult { tool_use_id: id, content, is_error: true },
            );
            let fine = message_lines(
                MessageView::ToolResult { tool_use_id: id, content, is_error: false },
            );
            &&& failed.len() == 1
            &&& fine.len() == 1
            &&& starts_with(failed[0], "ToolResult("@ + sanitized(id) + "): error — "@)
            &&& starts_with(fine[0], "ToolResult("@ + sanitized(id) + "): ok — "@)
            &&& ends_with(failed[0], sanitized(ellipsized(content, 100)))
            &&& failed[0] == "ToolResult("@ + sanitized(id) + "): error — "@ + sanitized(
                ellipsized(content, 100),
            )
            &&& fine[0] == "ToolResult("@ + sanitized(id) + "): ok — "@ + sanitized(
                ellipsized(content, 100),
            )
        }),
{
    reveal_strlit("): error — ");
    reveal_strlit("): ok — ");
    reveal_strlit("): ");
    reveal_strlit("error");
    reveal_strlit("ok");
    reveal_strlit(" — ");
    assert("): error — "@ =~= "): "@ + "error"@ + " — "@);
    assert("): ok — "@ =~= "): "@ + "ok"@ + " — "@);
    let failed = message_lines(
        MessageView::ToolResult { tool_use_id: id, content, is_error: true },
    );
    let fine = message_lines(
        MessageView::ToolResult { tool_use_id: id, content, is_error: false },
    );
    let said = sanitized(ellipsized(content, 100));
    let bad = "ToolResult("@ + sanitized(id) + "): error — "@;
    let good = "ToolResult("@ + sanitized(id) + "): ok — "@;
    assert(failed[0] =~= bad + said);
    assert(fine[0] =~= good + said);
    lemma_begins(bad, said);
    lemma_begins(good, said);
    lemma_ends(bad, said);
}

/// What a message gives: a line for a text, which says who said it, and a line for each
/// tool call with the tool's name. An assistant without a text gives none for it.
pub proof fn law_message_lines(text: Seq<char>, calls: Seq<ToolCallView>, i: int)
    ensures
        message_lines(MessageView::User { content: text }) == seq![
            "User: "@ + sanitized(ellipsized(text, 120)),
        ],
        text.len() > 0 ==> message_lines(MessageView::Assistant { text, tool_calls: calls })[0]
            == "Assistant: "@ + sanitized(ellipsized(text, 120)),
        text.len() > 0 ==> message_lines(MessageView::Assistant { text, tool_calls: calls }).len()
            == calls.len() + 1,
        message_lines(MessageView::Assistant { text: seq![], tool_calls: calls }).len()
            == calls.len(),
        0 <= i < calls.len() ==> message_lines(
            MessageView::Assistant { text: seq![], tool_calls: calls },
        )[i] == "  → tool_use: "@ + sanitized(calls[i].name),
        0 <= i < calls.len() && text.len() > 0 ==> message_lines(
            MessageView::Assistant { text, tool_calls: calls },
        )[i + 1] == "  → tool_use: "@ + sanitized(calls[i].name),
{
}

/// The lines of a digest stand in the order of the messages.
pub proof fn law_digest_in_order(first: Seq<MessageView>, second: Seq<MessageView>)
    ensures
        body_lines(first + second) == body_lines(first) + body_lines(second),
    decreases second.len(),
{
    let all = first + second;
    if second.len() == 0 {
        assert(all =~= first);
        assert(body_lines(first) + body_lines(second) =~= body_lines(first));
    } else {
        law_digest_in_order(first, second.drop_last());
        assert(all.drop_last() =~= first + second.drop_last());
        assert(all.last() == second.last());
        assert(body_lines(all) =~= body_lines(first) + body_lines(second));
    }
}

/// A digest of one message is the headline and the lines of that message.
pub proof fn law_digest_of_one(message: MessageView)
    ensures
        body_lines(seq![message]) == message_lines(message),
        messages_digest(seq![message]) == join(
            seq!["[1 messages compacted]"@] + message_lines(message),
            "\n"@,
        ),
        messages_digest(seq![]) == "[0 messages compacted]"@,
{
    reveal_with_fuel(body_lines, 2);
    reveal_with_fuel(join, 2);
    reveal_strlit("[1 messages compacted]");
    reveal_strlit("[0 messages compacted]");
    reveal_strlit("[");
    reveal_strlit(" messages compacted]");
    let one = seq![message];
    assert(one.drop_last() =~= seq![]);
    assert(body_lines(one) =~= message_lines(message));
    assert('1' as u32 == '0' as u32 + 1);
    assert(crate::number::digit_char(1) == '1');
    assert(crate::number::digit_char(0) == '0');
    assert(decimal(1) =~= seq!['1']);
    assert(decimal(0) =~= seq!['0']);
    assert("[1 messages compacted]"@ =~= "["@ + decimal(1) + " messages compacted]"@);
    assert("[0 messages compacted]"@ =~= "["@ + decimal(0) + " messages compacted]"@);
    let none = Seq::<MessageView>::empty();
    assert(seq![crate::digest::headline(0)] + body_lines(none) =~= seq![
        crate::digest::headline(0),
    ]);
    let lines = seq![crate::digest::headline(0)];
    assert(lines.drop_last() =~= seq![]);
}

/// A text with all four sections is a summary; one that lacks a section is none.
pub proof fn law_sections_of_a_summary(text: Seq<char>)
    ensures
        is_structured_summary(text) ==> contains(text, "Goal:"@) && contains(
            text,
            "Accomplished:"@,
        ) && contains(text, "Key Decisions:"@) && contains(text, "Relevant Files:"@),
        contains(text, "Goal:"@) && contains(text, "Accomplished:"@) && contains(
            text,
            "Key Decisions:"@,
        ) && contains(text, "Relevant Files:"@) ==> is_structured_summary(text),
{
}

/// The prompt for a summary ends in what is to be summarized.
pub proof fn law_summary_prompt_carries_the_digest(digest: Seq<char>, other: Seq<char>)
    ensures
        ends_with(summary_prompt(digest), digest),
        summary_prompt(digest).len() > digest.len() || digest.len() == 0,
        summary_prompt(digest + other) == summary_prompt(digest) + other,
{
    let front = summary_prompt(seq![]);
    reveal_strlit(
        "Summarize this agent conversation excerpt into EXACTLY four sections, in order:\n\nGoal: <one sentence describing the user's objective>\nAccomplished: <bulleted list of what has been done; use `- ` bullets>\nKey Decisions: <bulleted list of important decisions and rationale>\nRelevant Files: <bulleted list of files that matter for continuing the work>\n\nDo not include any text outside these four sections. Preserve tool_use_id\nreferences when summarizing tool results.\n\n=== Excerpt ===\n",
    );
    assert(summary_prompt(digest) =~= front + digest);
    assert(front.len() > 0);
    lemma_ends(front, digest);
    assert(summary_prompt(digest + other) =~= summary_prompt(digest) + other);
}

/// What stands for discarded messages says what it is: a session's summary, a collapse
/// with the number of messages and their digest, or a conversation summary.
pub proof fn law_summaries_are_marked(
    discarded: Seq<MessageView>,
    stored: Seq<char>,
    summary: Seq<char>,
)
    ensures
        mid_summary(discarded, Some(stored)) == "[Session memory summary]\n"@ + sanitized(stored),
        mid_summary(discarded, None) == "[Mid-tier context collapse — "@ + decimal(
            discarded.len(),
        ) + " messages compacted]\n"@ + messages_digest(discarded),
        summary_message(summary) == "[Conversation summary]\n"@ + summary,
{
}

/// A tool result within the limit stays as it is. A longer one keeps a beginning and an
/// end of at most half of what the limit leaves beside the note, and the note between
/// them says how many bytes are gone.
pub proof fn law_cut_result_keeps_both_ends(content: Seq<char>, max: int)
    requires
        max >= 0,
    ensures
        byte_len(content) <= max ==> cut_result(content, max) == content,
        byte_len(content) > max ==> exists|i: int, j: int|
            0 <= i <= j <= content.len() && cut_result(content, max) == #[trigger] content.take(i)
                + "\n\n[..."@ + decimal(
                (byte_len(content) - byte_len(content.take(i)) - byte_len(content.skip(j))) as nat,
            ) + " bytes omitted...]\n\n"@ + #[trigger] content.skip(j) && 2 * byte_len(
                content.take(i),
            ) <= (if max >= 60 {
                max - 60
            } else {
                0
            }) && 2 * byte_len(content.skip(j)) <= (if max >= 60 {
                max - 60
            } else {
                0
            }),
{
    if byte_len(content) > max {
        let keep = crate::digest::kept_bytes(max);
        lemma_floor(content, keep);
        lemma_ceil(content, byte_len(content) - keep);
        let i = floor_chars(content, keep);
        let j = crate::bytes::ceil_chars(content, byte_len(content) - keep);
        lemma_byte_len_parts(content, i);
        lemma_byte_len_parts(content, j);
        if j < i {
            lemma_shorter(content, j, i);
        }
        assert(prefix_within(content, keep) == content.take(i));
        assert(suffix_from(content, byte_len(content) - keep) == content.skip(j));
    }
}

proof fn lemma_shorter(s: Seq<char>, a: int, b: int)
    requires
        0 <= a <= b <= s.len(),
    ensures
        byte_len(s.take(a)) <= byte_len(s.take(b)),
{
    lemma_byte_len_parts(s.take(b), a);
    assert(s.take(b).take(a) =~= s.take(a));
}

/// Cutting touches tool results only, and of those only what they say.
pub proof fn law_cutting_keeps_the_rest(message: MessageView, max: int)
    ensures
        !(message is ToolResult) ==> with_cut_result(message, max) == message,
        message matches MessageView::ToolResult { tool_use_id, content, is_error }
            ==> with_cut_result(message, max) == (MessageView::ToolResult {
            tool_use_id,
            content: cut_result(content, max),
            is_error,
        }),
{
}

} // verus!
