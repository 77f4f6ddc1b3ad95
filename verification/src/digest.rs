//! The mechanical digest of discarded messages, and the section headers of a
//! structured summary.

use crate::bytes::{
    byte_count, byte_len, ceil_index, ellipsized, floor_index, lemma_byte_len_parts, lemma_ceil,
    lemma_floor, prefix_within, suffix_from, truncate,
};
use crate::message::{calls_view, messages_view, Message, MessageView, ToolCallBlock, ToolCallView};
use crate::number::{decimal, push_decimal};
use crate::split::{join_text, lemma_views_push};
use crate::text::{chars_of, contains, contains_text, join, replace, string_from, views};
use crate::trim::replace_text;
use vstd::prelude::*;

verus! {

/// The text holds each section header, followed by a colon.
pub open spec fn is_structured_summary(text: Seq<char>) -> bool {
    &&& contains(text, "Goal:"@)
    &&& contains(text, "Accomplished:"@)
    &&& contains(text, "Key Decisions:"@)
    &&& contains(text, "Relevant Files:"@)
}

pub fn validate_structured_summary(text: &str) -> (r: bool)
    ensures
        r == is_structured_summary(text@),
{
    contains_text(text, "Goal:") && contains_text(text, "Accomplished:") && contains_text(
        text,
        "Key Decisions:",
    ) && contains_text(text, "Relevant Files:")
}

/// `raw` on one line.
pub open spec fn flattened(raw: Seq<char>) -> Seq<char> {
    replace(replace(raw, "\r\n"@, " "@), "\n"@, " "@)
}

pub fn flatten_text(raw: &str) -> (r: String)
    ensures
        r@ == flattened(raw@),
{
    let unreturned: String = replace_text(raw, "\r\n", " ");
    replace_text(unreturned.as_str(), "\n", " ")
}

/// `raw` on one line, with each section header kept apart from its colon.
pub open spec fn sanitized(raw: Seq<char>) -> Seq<char> {
    replace(
        replace(
            replace(
                replace(flattened(raw), "Goal:"@, "Goal :"@),
                "Accomplished:"@,
                "Accomplished :"@,
            ),
            "Key Decisions:"@,
            "Key Decisions :"@,
        ),
        "Relevant Files:"@,
        "Relevant Files :"@,
    )
}

/// Makes a fragment safe to embed in a digest: one line, and no section header.
pub fn sanitize_embedded_content(raw: &str) -> (r: String)
    ensures
        r@ == sanitized(raw@),
{
    let flat: String = flatten_text(raw);
    let goal: String = replace_text(flat.as_str(), "Goal:", "Goal :");
    let accomplished: String = replace_text(goal.as_str(), "Accomplished:", "Accomplished :");
    let decisions: String = replace_text(
        accomplished.as_str(),
        "Key Decisions:",
        "Key Decisions :",
    );
    replace_text(decisions.as_str(), "Relevant Files:", "Relevant Files :")
}

/// The digest line of one tool call.
pub open spec fn call_line(call: ToolCallView) -> Seq<char> {
    "  → tool_use: "@ + sanitized(call.name)
}

pub open spec fn status_word(is_error: bool) -> Seq<char> {
    if is_error {
        "error"@
    } else {
        "ok"@
    }
}

/// The digest lines of one message.
pub open spec fn message_lines(message: MessageView) -> Seq<Seq<char>> {
    match message {
        MessageView::User { content } => seq!["User: "@ + sanitized(ellipsized(content, 120))],
        MessageView::Assistant { text, tool_calls } => {
            let said = if text.len() > 0 {
                seq!["Assistant: "@ + sanitized(ellipsized(text, 120))]
            } else {
                seq![]
            };
            said + tool_calls.map_values(|c: ToolCallView| call_line(c))
        },
        MessageView::ToolResult { tool_use_id, content, is_error } => seq![
            "ToolResult("@ + sanitized(tool_use_id) + "): "@ + status_word(is_error) + " — "@
                + sanitized(ellipsized(content, 100)),
        ],
    }
}

/// The digest lines of the messages, after the headline.
pub open spec fn body_lines(messages: Seq<MessageView>) -> Seq<Seq<char>>
    decreases messages.len(),
{
    if messages.len() == 0 {
        seq![]
    } else {
        body_lines(messages.drop_last()) + message_lines(messages.last())
    }
}

pub open spec fn headline(count: nat) -> Seq<char> {
    "["@ + decimal(count) + " messages compacted]"@
}

/// The digest of discarded messages: a headline with their number and one line
/// for each text, tool call and tool result.
pub open spec fn messages_digest(messages: Seq<MessageView>) -> Seq<char> {
    join(seq![headline(messages.len())] + body_lines(messages), "\n"@)
}

/// Appends the digest lines of the tool calls.
fn push_call_lines(lines: &mut Vec<String>, calls: &Vec<ToolCallBlock>)
    ensures
        views(final(lines)@) == views(old(lines)@) + calls_view(calls@).map_values(
            |c: ToolCallView| call_line(c),
        ),
{
    let ghost all = calls_view(calls@).map_values(|c: ToolCallView| call_line(c));
    let ghost before = views(lines@);
    let mut i: usize = 0;
    assert(before + all.take(0) =~= before);
    while i < calls.len()
        invariant
            i <= calls.len(),
            all == calls_view(calls@).map_values(|c: ToolCallView| call_line(c)),
            views(lines@) == before + all.take(i as int),
        decreases calls.len() - i,
    {
        let mut line: String = "  → tool_use: ".to_owned();
        let name: String = sanitize_embedded_content(calls[i].name.as_str());
        line.append(name.as_str());
        proof {
            lemma_views_push(lines@, line);
            assert(line@ == call_line(calls@[i as int]@));
            assert(all.take(i + 1) =~= all.take(i as int).push(line@));
            assert((before + all.take(i as int)).push(line@) =~= before + all.take(i + 1));
        }
        lines.push(line);
        i = i + 1;
    }
    assert(all.take(i as int) =~= all);
}

/// Appends the digest lines of one message.
fn push_message_lines(lines: &mut Vec<String>, message: &Message)
    ensures
        views(final(lines)@) == views(old(lines)@) + message_lines(message@),
{
    let ghost before = views(lines@);
    match message {
        Message::User { content } => {
            let short: String = truncate(content.as_str(), 120);
            let safe: String = sanitize_embedded_content(short.as_str());
            let mut line: String = "User: ".to_owned();
            line.append(safe.as_str());
            proof {
                lemma_views_push(lines@, line);
                assert(before.push(line@) =~= before + message_lines(message@));
            }
            lines.push(line);
        },
        Message::Assistant { text, tool_calls } => {
            if !text.as_str().is_empty() {
                let short: String = truncate(text.as_str(), 120);
                let safe: String = sanitize_embedded_content(short.as_str());
                let mut line: String = "Assistant: ".to_owned();
                line.append(safe.as_str());
                proof {
                    lemma_views_push(lines@, line);
                }
                lines.push(line);
            }
            push_call_lines(lines, tool_calls);
            proof {
                assert(views(lines@) =~= before + message_lines(message@));
            }
        },
        Message::ToolResult { tool_use_id, content, is_error } => {
            let id: String = sanitize_embedded_content(tool_use_id.as_str());
            let short: String = truncate(content.as_str(), 100);
            let safe: String = sanitize_embedded_content(short.as_str());
            let mut line: String = "ToolResult(".to_owned();
            line.append(id.as_str());
            line.append("): ");
            if *is_error {
                line.append("error");
            } else {
                line.append("ok");
            }
            line.append(" — ");
            line.append(safe.as_str());
            proof {
                lemma_views_push(lines@, line);
                assert(before.push(line@) =~= before + message_lines(message@));
            }
            lines.push(line);
        },
    }
}

/// The digest of discarded messages.
pub fn summarize_discarded_messages(messages: &Vec<Message>) -> (r: String)
    ensures
        r@ == messages_digest(messages_view(messages@)),
{
    let ghost all = messages_view(messages@);
    let mut first: String = "[".to_owned();
    push_decimal(&mut first, messages.len() as u64);
    first.append(" messages compacted]");
    let mut lines: Vec<String> = Vec::new();
    proof {
        lemma_views_push(lines@, first);
    }
    lines.push(first);
    let mut i: usize = 0;
    assert(views(lines@) =~= seq![headline(all.len())] + body_lines(all.take(0)));
    while i < messages.len()
        invariant
            i <= messages.len(),
            all == messages_view(messages@),
            views(lines@) == seq![headline(all.len())] + body_lines(all.take(i as int)),
        decreases messages.len() - i,
    {
        proof {
            assert(all.take(i + 1).drop_last() =~= all.take(i as int));
            assert(all.take(i + 1).last() == messages@[i as int]@);
        }
        let ghost before = views(lines@);
        push_message_lines(&mut lines, &messages[i]);
        proof {
            assert(views(lines@) =~= seq![headline(all.len())] + (body_lines(all.take(i as int))
                + message_lines(messages@[i as int]@)));
        }
        i = i + 1;
    }
    assert(all.take(i as int) =~= all);
    join_text(&lines, "\n")
}

/// The prompt that asks the model for a structured summary of a digest.
pub open spec fn summary_prompt(digest: Seq<char>) -> Seq<char> {
    SUMMARY_INSTRUCTIONS@ + digest
}

pub const SUMMARY_INSTRUCTIONS: &'static str =
    "Summarize this agent conversation excerpt into EXACTLY four sections, in order:\n\nGoal: <one sentence describing the user's objective>\nAccomplished: <bulleted list of what has been done; use `- ` bullets>\nKey Decisions: <bulleted list of important decisions and rationale>\nRelevant Files: <bulleted list of files that matter for continuing the work>\n\nDo not include any text outside these four sections. Preserve tool_use_id\nreferences when summarizing tool results.\n\n=== Excerpt ===\n";

pub const STRUCTURED_SUMMARY_SYSTEM_PROMPT: &'static str =
    "You summarize agent conversation history into a strictly structured form. Output ONLY the four sections requested, each headed by a line of the form `<Section>:` and nothing else outside them.";

pub fn build_structured_summary_prompt(mechanical_digest: &str) -> (r: String)
    ensures
        r@ == summary_prompt(mechanical_digest@),
{
    let mut out: String = SUMMARY_INSTRUCTIONS.to_owned();
    out.append(mechanical_digest);
    out
}

/// The bytes of head and of tail that a tool result cut to `max` bytes keeps.
pub open spec fn kept_bytes(max: int) -> int {
    if max >= 60 {
        (max - 60) / 2
    } else {
        0
    }
}

/// A tool result cut to `max` bytes: its head, a note on what is left out, and
/// its tail.
pub open spec fn cut_result(content: Seq<char>, max: int) -> Seq<char> {
    if byte_len(content) <= max {
        content
    } else {
        let keep = kept_bytes(max);
        let head = prefix_within(content, keep);
        let tail = suffix_from(content, byte_len(content) - keep);
        head + "\n\n[..."@ + decimal((byte_len(content) - byte_len(head) - byte_len(tail)) as nat)
            + " bytes omitted...]\n\n"@ + tail
    }
}

/// Truncates a tool result that exceeds `max_chars` bytes.
pub fn truncate_tool_result(content: &str, max_chars: usize) -> (r: String)
    ensures
        r@ == cut_result(content@, max_chars as int),
{
    let size: usize = byte_count(content);
    if size <= max_chars {
        return content.to_owned();
    }
    let keep: usize = max_chars.saturating_sub(60) / 2;
    let chars: Vec<char> = chars_of(content);
    let head_end: usize = floor_index(&chars, keep);
    let tail_start: usize = ceil_index(&chars, size - keep);
    let head: String = string_from(&chars, 0, head_end);
    let tail: String = string_from(&chars, tail_start, chars.len());
    proof {
        lemma_floor(content@, keep as int);
        lemma_ceil(content@, size - keep);
        lemma_byte_len_parts(content@, tail_start as int);
        assert(tail@ =~= content@.skip(tail_start as int));
        assert(head@ =~= prefix_within(content@, keep as int));
    }
    let omitted: usize = size - byte_count(head.as_str()) - byte_count(tail.as_str());
    let mut out: String = head;
    out.append("\n\n[...");
    push_decimal(&mut out, omitted as u64);
    out.append(" bytes omitted...]\n\n");
    out.append(tail.as_str());
    out
}

} // verus!
