//! Mechanical compaction of the message buffer.

use crate::bytes::{byte_count, byte_len};
use crate::digest::{
    cut_result, messages_digest, sanitize_embedded_content, sanitized, summarize_discarded_messages,
    truncate_tool_result,
};
use crate::estimate::{byte_estimate_for_text, capped, text_tokens};
use crate::message::{clone_calls, is_tool_result, messages_view, Message, MessageView};
use crate::number::{decimal, push_decimal};
use crate::text::{
    chars_of, find, find_chars, is_ascii_digit, matches_at, opt_str_view, opt_view, starts_with,
    starts_with_text, str_eq, string_from, strip_prefix, strip_prefix_text, trim_start,
};
use crate::trim::trim_start_text;
use vstd::prelude::*;

verus! {

/// What stands in place of the content of an old tool result.
pub const MICROCOMPACT_PLACEHOLDER: &'static str = "[Old tool result content cleared]";

/// The number of most recent tool results that microcompaction leaves alone.
pub const MICROCOMPACT_RETAIN_RECENT: usize = 3;

/// The text behind a thinking block that it begins with, where it begins with one.
pub open spec fn behind_thinking(text: Seq<char>) -> Option<Seq<char>> {
    let after = text.skip("<thinking>"@.len() as int);
    if !starts_with(text, "<thinking>"@) {
        None
    } else {
        match find(after, "</thinking>"@) {
            Some(end) => Some(trim_start(after.skip(end + "</thinking>"@.len()))),
            None => None,
        }
    }
}

/// The assistant's text begins with a thinking block.
pub open spec fn has_thinking(message: MessageView) -> bool {
    message matches MessageView::Assistant { text, .. } && behind_thinking(text) is Some
}

/// The message without a thinking block at the start of the assistant's text.
pub open spec fn without_thinking(message: MessageView) -> MessageView {
    match message {
        MessageView::Assistant { text, tool_calls } => match behind_thinking(text) {
            Some(rest) => MessageView::Assistant { text: rest, tool_calls },
            None => message,
        },
        _ => message,
    }
}

pub open spec fn all_without_thinking(messages: Seq<MessageView>) -> Seq<MessageView> {
    messages.map_values(|m: MessageView| without_thinking(m))
}

/// How many messages begin with a thinking block.
pub open spec fn thinking_count(messages: Seq<MessageView>) -> nat
    decreases messages.len(),
{
    if messages.len() == 0 {
        0
    } else {
        thinking_count(messages.drop_last()) + (if has_thinking(messages.last()) {
            1nat
        } else {
            0
        })
    }
}

fn text_behind_thinking(text: &str) -> (r: Option<String>)
    ensures
        opt_view(r) == behind_thinking(text@),
{
    let chars: Vec<char> = chars_of(text);
    let open: Vec<char> = chars_of("<thinking>");
    let close: Vec<char> = chars_of("</thinking>");
    if !matches_at(&chars, &open, 0) {
        return None;
    }
    let after: String = string_from(&chars, open.len(), chars.len());
    let after_chars: Vec<char> = chars_of(after.as_str());
    assert(after@ =~= text@.skip(open@.len() as int));
    match find_chars(&after_chars, &close) {
        Some(end) => {
            let rest: String = string_from(&after_chars, end + close.len(), after_chars.len());
            assert(rest@ =~= after@.skip(end + close@.len()));
            Some(trim_start_text(rest.as_str()))
        },
        None => None,
    }
}

/// Strips a thinking block from the start of each assistant text; returns how
/// many messages it changed.
pub fn strip_thinking_content(messages: &mut Vec<Message>) -> (r: u32)
    requires
        old(messages).len() <= u32::MAX,
    ensures
        messages_view(final(messages)@) == all_without_thinking(messages_view(old(messages)@)),
        r == thinking_count(messages_view(old(messages)@)),
{
    let ghost all = messages_view(messages@);
    let mut count: u32 = 0;
    let mut i: usize = 0;
    while i < messages.len()
        invariant
            i <= messages.len() == all.len(),
            messages.len() <= u32::MAX,
            all == messages_view(old(messages)@),
            forall|j: int|
                0 <= j < i ==> (#[trigger] messages@[j])@ == without_thinking(all[j]),
            forall|j: int| i <= j < messages.len() ==> (#[trigger] messages@[j])@ == all[j],
            count == thinking_count(all.take(i as int)),
            count <= i,
        decreases messages.len() - i,
    {
        assert(all.take(i + 1).drop_last() =~= all.take(i as int));
        assert(all.take(i + 1).last() == all[i as int]);
        assert(messages@[i as int]@ == all[i as int]);
        let stripped: Option<Message> = match &messages[i] {
            Message::Assistant { text, tool_calls } => match text_behind_thinking(text.as_str()) {
                Some(rest) => Some(
                    Message::Assistant { text: rest, tool_calls: clone_calls(tool_calls) },
                ),
                None => None,
            },
            _ => None,
        };
        match stripped {
            Some(message) => {
                messages.set(i, message);
                count = count + 1;
            },
            None => {},
        }
        i = i + 1;
    }
    assert(all.take(i as int) =~= all);
    assert(messages_view(messages@) =~= all_without_thinking(all));
    count
}

/// The message with the content of a tool result cut to `max` bytes.
pub open spec fn with_cut_result(message: MessageView, max: int) -> MessageView {
    match message {
        MessageView::ToolResult { tool_use_id, content, is_error } => MessageView::ToolResult {
            tool_use_id,
            content: cut_result(content, max),
            is_error,
        },
        _ => message,
    }
}

/// Truncates each tool result of more than `max_chars` bytes.
pub fn truncate_large_tool_results(messages: &mut Vec<Message>, max_chars: usize)
    ensures
        messages_view(final(messages)@) == messages_view(old(messages)@).map_values(
            |m: MessageView| with_cut_result(m, max_chars as int),
        ),
{
    let ghost all = messages_view(messages@);
    let mut i: usize = 0;
    while i < messages.len()
        invariant
            i <= messages.len() == all.len(),
            all == messages_view(old(messages)@),
            forall|j: int|
                0 <= j < i ==> (#[trigger] messages@[j])@ == with_cut_result(
                    all[j],
                    max_chars as int,
                ),
            forall|j: int| i <= j < messages.len() ==> (#[trigger] messages@[j])@ == all[j],
        decreases messages.len() - i,
    {
        assert(messages@[i as int]@ == all[i as int]);
        let shorter: Option<Message> = match &messages[i] {
            Message::ToolResult { tool_use_id, content, is_error } => {
                if byte_count(content.as_str()) > max_chars {
                    Some(
                        Message::ToolResult {
                            tool_use_id: tool_use_id.clone(),
                            content: truncate_tool_result(content.as_str(), max_chars),
                            is_error: *is_error,
                        },
                    )
                } else {
                    None
                }
            },
            _ => None,
        };
        match shorter {
            Some(message) => {
                messages.set(i, message);
            },
            None => {},
        }
        i = i + 1;
    }
    assert(messages_view(messages@) =~= all.map_values(
        |m: MessageView| with_cut_result(m, max_chars as int),
    ));
}

/// The number of tool results among the messages.
pub open spec fn result_count(messages: Seq<MessageView>) -> nat
    decreases messages.len(),
{
    if messages.len() == 0 {
        0
    } else {
        result_count(messages.skip(1)) + (if messages[0] is ToolResult {
            1nat
        } else {
            0
        })
    }
}

/// The tool result is longer than the placeholder, so that clearing it shrinks
/// the buffer.
pub open spec fn clearable(message: MessageView) -> bool {
    message matches MessageView::ToolResult { content, .. } && byte_len(content) > byte_len(
        MICROCOMPACT_PLACEHOLDER@,
    )
}

pub open spec fn cleared(message: MessageView) -> MessageView {
    match message {
        MessageView::ToolResult { tool_use_id, content, is_error } => MessageView::ToolResult {
            tool_use_id,
            content: MICROCOMPACT_PLACEHOLDER@,
            is_error,
        },
        _ => message,
    }
}

/// The message at `i` is a tool result to be cleared: long enough, and not among
/// the `retain` most recent ones.
pub open spec fn to_clear(messages: Seq<MessageView>, retain: int, i: int) -> bool {
    clearable(messages[i]) && result_count(messages.skip(i + 1)) >= retain
}

/// The buffer with its old tool results cleared.
pub open spec fn microcompacted(messages: Seq<MessageView>, retain: int) -> Seq<MessageView> {
    Seq::new(
        messages.len(),
        |i: int|
            if to_clear(messages, retain, i) {
                cleared(messages[i])
            } else {
                messages[i]
            },
    )
}

/// The estimated tokens that clearing the message frees.
pub open spec fn freed_tokens(message: MessageView) -> nat {
    match message {
        MessageView::ToolResult { content, .. } => if text_tokens(content) >= text_tokens(
            MICROCOMPACT_PLACEHOLDER@,
        ) {
            (text_tokens(content) - text_tokens(MICROCOMPACT_PLACEHOLDER@)) as nat
        } else {
            0
        },
        _ => 0,
    }
}

/// The estimated tokens that microcompaction frees in the first `n` messages.
pub open spec fn microcompact_freed(messages: Seq<MessageView>, retain: int, n: int) -> nat
    decreases n,
{
    if n <= 0 {
        0
    } else {
        microcompact_freed(messages, retain, n - 1) + (if to_clear(messages, retain, n - 1) {
            freed_tokens(messages[n - 1])
        } else {
            0
        })
    }
}

fn count_results(messages: &Vec<Message>) -> (r: usize)
    ensures
        r == result_count(messages_view(messages@)),
        r <= messages.len(),
{
    let ghost all = messages_view(messages@);
    let mut i: usize = messages.len();
    let mut count: usize = 0;
    assert(all.skip(i as int) =~= seq![]);
    while i > 0
        invariant
            i <= messages.len(),
            all == messages_view(messages@),
            count == result_count(all.skip(i as int)),
            count <= messages.len() - i,
        decreases i,
    {
        i = i - 1;
        assert(all.skip(i as int).skip(1) =~= all.skip(i + 1));
        assert(all.skip(i as int)[0] == messages@[i as int]@);
        if is_tool_result(&messages[i]) {
            count = count + 1;
        }
    }
    assert(all.skip(0) =~= all);
    count
}

proof fn lemma_result_count_skip(messages: Seq<MessageView>, i: int)
    requires
        0 <= i < messages.len(),
    ensures
        result_count(messages.skip(i)) == result_count(messages.skip(i + 1)) + (
        if messages[i] is ToolResult {
            1nat
        } else {
            0
        }),
{
    assert(messages.skip(i).skip(1) =~= messages.skip(i + 1));
    assert(messages.skip(i)[0] == messages[i]);
}

/// Clears the tool results before the last `retain_recent` ones. Returns the
/// estimated tokens that this frees, before any calibration.
pub fn clear_old_tool_results(messages: &mut Vec<Message>, retain_recent: usize) -> (r: u64)
    ensures
        messages_view(final(messages)@) == microcompacted(
            messages_view(old(messages)@),
            retain_recent as int,
        ),
        r == capped(
            microcompact_freed(
                messages_view(old(messages)@),
                retain_recent as int,
                old(messages).len() as int,
            ) as int,
        ),
{
    let ghost all = messages_view(messages@);
    let ghost retain = retain_recent as int;
    let mut left: usize = count_results(messages);
    let placeholder_bytes: usize = byte_count(MICROCOMPACT_PLACEHOLDER);
    let placeholder_tokens: u64 = byte_estimate_for_text(MICROCOMPACT_PLACEHOLDER);
    let mut freed: u64 = 0;
    let mut i: usize = 0;
    assert(all.skip(0) =~= all);
    while i < messages.len()
        invariant
            i <= messages.len() == all.len(),
            all == messages_view(old(messages)@),
            retain == retain_recent,
            placeholder_bytes == byte_len(MICROCOMPACT_PLACEHOLDER@),
            placeholder_tokens == text_tokens(MICROCOMPACT_PLACEHOLDER@),
            left == result_count(all.skip(i as int)),
            forall|j: int|
                0 <= j < i ==> (#[trigger] messages@[j])@ == microcompacted(all, retain)[j],
            forall|j: int| i <= j < messages.len() ==> (#[trigger] messages@[j])@ == all[j],
            freed == capped(microcompact_freed(all, retain, i as int) as int),
        decreases messages.len() - i,
    {
        assert(messages@[i as int]@ == all[i as int]);
        proof {
            lemma_result_count_skip(all, i as int);
        }
        let mut saved: u64 = 0;
        let replaced: Option<Message> = match &messages[i] {
            Message::ToolResult { tool_use_id, content, is_error } => {
                left = left - 1;
                if left >= retain_recent && byte_count(content.as_str()) > placeholder_bytes {
                    saved = byte_estimate_for_text(content.as_str()).saturating_sub(
                        placeholder_tokens,
                    );
                    Some(
                        Message::ToolResult {
                            tool_use_id: tool_use_id.clone(),
                            content: MICROCOMPACT_PLACEHOLDER.to_owned(),
                            is_error: *is_error,
                        },
                    )
                } else {
                    None
                }
            },
            _ => None,
        };
        match replaced {
            Some(message) => {
                messages.set(i, message);
                freed = freed.saturating_add(saved);
            },
            None => {},
        }
        i = i + 1;
    }
    assert(messages_view(messages@) =~= microcompacted(all, retain));
    freed
}

/// Clears the tool results before the last `retain_recent` ones. Returns the
/// estimated tokens that this frees, calibrated by `calibrate`.
pub fn microcompact_old_tool_results<F: Fn(u64) -> u64>(
    messages: &mut Vec<Message>,
    retain_recent: usize,
    calibrate: F,
) -> (r: u64)
    requires
        forall|raw: u64| call_requires(calibrate, (raw,)),
    ensures
        messages_view(final(messages)@) == microcompacted(
            messages_view(old(messages)@),
            retain_recent as int,
        ),
        call_ensures(
            calibrate,
            (capped(
                microcompact_freed(
                    messages_view(old(messages)@),
                    retain_recent as int,
                    old(messages).len() as int,
                ) as int,
            ) as u64,),
            r,
        ),
{
    let freed: u64 = clear_old_tool_results(messages, retain_recent);
    calibrate(freed)
}

/// The nearest split at or before `split` that does not begin the tail with a
/// tool result, as long as it stays behind the first message.
pub open spec fn adjusted_split(messages: Seq<MessageView>, split: int) -> int
    decreases split,
{
    if split > 1 && split < messages.len() && messages[split] is ToolResult {
        adjusted_split(messages, split - 1)
    } else {
        split
    }
}

pub fn adjust_split_for_tool_pairs(messages: &Vec<Message>, split: usize) -> (r: usize)
    ensures
        r == adjusted_split(messages_view(messages@), split as int),
        r <= split,
        split >= 1 ==> r >= 1,
{
    let mut s: usize = split;
    while s > 1 && s < messages.len() && is_tool_result(&messages[s])
        invariant
            s <= split,
            split >= 1 ==> s >= 1,
            adjusted_split(messages_view(messages@), split as int) == adjusted_split(
                messages_view(messages@),
                s as int,
            ),
        decreases s,
    {
        s = s - 1;
    }
    s
}

/// The buffer with the messages `1..split` replaced by one user message.
pub open spec fn spliced(messages: Seq<MessageView>, split: int, summary: Seq<char>) -> Seq<
    MessageView,
> {
    messages.take(1) + seq![MessageView::User { content: summary }] + messages.skip(split)
}

/// The split of a compaction that keeps the last `retain` messages, or 1 or less
/// where there is nothing to compact.
pub open spec fn compaction_split(messages: Seq<MessageView>, retain: int) -> int {
    if messages.len() <= retain + 1 {
        0
    } else {
        adjusted_split(messages, messages.len() - retain)
    }
}

/// The buffer with everything between the first message and the last `retain`
/// ones replaced by a digest.
pub open spec fn compacted(messages: Seq<MessageView>, retain: int) -> Seq<MessageView> {
    let split = compaction_split(messages, retain);
    if split <= 1 {
        messages
    } else {
        spliced(messages, split, messages_digest(messages.subrange(1, split)))
    }
}

/// Takes the messages `1..split` out of the buffer.
pub fn drain_middle(messages: &mut Vec<Message>, split: usize) -> (r: Vec<Message>)
    requires
        1 <= split <= old(messages).len(),
    ensures
        messages_view(r@) == messages_view(old(messages)@).subrange(1, split as int),
        messages_view(final(messages)@) == messages_view(old(messages)@).take(1) + messages_view(
            old(messages)@,
        ).skip(split as int),
        final(messages).len() == old(messages).len() - (split - 1),
{
    let ghost all = messages_view(messages@);
    let mut tail: Vec<Message> = messages.split_off(split);
    let ghost tail_before = tail@;
    let middle: Vec<Message> = messages.split_off(1);
    proof {
        assert(messages_view(tail_before) =~= all.skip(split as int));
        assert(messages_view(middle@) =~= all.subrange(1, split as int));
    }
    let ghost head = messages@;
    messages.append(&mut tail);
    proof {
        assert(messages_view(messages@) =~= all.take(1) + all.skip(split as int));
    }
    middle
}

/// Inserts a user message behind the first message.
pub fn insert_summary(messages: &mut Vec<Message>, content: String)
    requires
        old(messages).len() >= 1,
    ensures
        messages_view(final(messages)@) == messages_view(old(messages)@).take(1) + seq![
            MessageView::User { content: content@ },
        ] + messages_view(old(messages)@).skip(1),
{
    let ghost all = messages_view(messages@);
    let message: Message = Message::User { content };
    messages.insert(1, message);
    assert(messages_view(messages@) =~= all.take(1) + seq![
        MessageView::User { content: content@ },
    ] + all.skip(1));
}

/// Replaces the messages between the first one and the last `retain_tail` ones
/// with a digest.
pub fn compact_messages(messages: &mut Vec<Message>, retain_tail: usize)
    requires
        retain_tail < usize::MAX,
    ensures
        messages_view(final(messages)@) == compacted(
            messages_view(old(messages)@),
            retain_tail as int,
        ),
{
    let ghost all = messages_view(messages@);
    if messages.len() <= retain_tail + 1 {
        return;
    }
    let split: usize = adjust_split_for_tool_pairs(messages, messages.len() - retain_tail);
    if split <= 1 {
        return;
    }
    let discarded: Vec<Message> = drain_middle(messages, split);
    let summary: String = summarize_discarded_messages(&discarded);
    let ghost between = messages_view(messages@);
    insert_summary(messages, summary);
    proof {
        assert(between.take(1) =~= all.take(1));
        assert(between.skip(1) =~= all.skip(split as int));
    }
}

/// A compaction that keeps the last `retain_tail` messages has something to compact.
pub fn is_compactable(messages: &Vec<Message>, retain_tail: usize) -> (r: bool)
    requires
        retain_tail < usize::MAX,
    ensures
        r == (compaction_split(messages_view(messages@), retain_tail as int) > 1),
{
    messages.len() > retain_tail + 1 && adjust_split_for_tool_pairs(
        messages,
        messages.len() - retain_tail,
    ) > 1
}

/// What one mid-tier compaction did.
#[derive(Debug, Clone, Copy, PartialEq, Eq, Structural)]
pub enum MidCompactOutcome {
    /// A session summary took the place of that many messages.
    Layer2 { messages_replaced: usize },
    /// A digest took the place of that many messages.
    Layer1 { messages_collapsed: usize },
    /// There was nothing to compact.
    Noop,
}

/// How many digits the text begins with.
pub open spec fn leading_digits(s: Seq<char>) -> int
    decreases s.len(),
{
    if s.len() == 0 || !is_ascii_digit(s[0]) {
        0
    } else {
        1 + leading_digits(s.skip(1))
    }
}

/// The digits that the text begins with.
pub open spec fn count_of(s: Seq<char>) -> Seq<char> {
    s.take(leading_digits(s))
}

fn count_text(s: &str) -> (r: String)
    ensures
        r@ == count_of(s@),
{
    let chars: Vec<char> = chars_of(s);
    let mut i: usize = 0;
    assert(s@.skip(0) =~= s@);
    while i < chars.len() && '0' <= chars[i] && chars[i] <= '9'
        invariant
            i <= chars.len(),
            chars@ == s@,
            leading_digits(s@) == i + leading_digits(s@.skip(i as int)),
        decreases chars.len() - i,
    {
        assert(s@.skip(i as int)[0] == chars@[i as int]);
        assert(s@.skip(i as int).skip(1) =~= s@.skip(i + 1));
        i = i + 1;
    }
    if i < chars.len() {
        assert(s@.skip(i as int)[0] == chars@[i as int]);
    }
    assert(leading_digits(s@) == i);
    let digits: String = string_from(&chars, 0, i);
    assert(digits@ =~= s@.take(i as int));
    digits
}

/// The number of a count of messages that is not none, as it is written.
pub open spec fn is_count(digits: Seq<char>) -> bool {
    digits.len() > 0 && digits[0] != '0'
}

fn counts(digits: &str) -> (r: bool)
    ensures
        r == is_count(digits@),
{
    let chars: Vec<char> = chars_of(digits);
    chars.len() > 0 && chars[0] != '0'
}

/// The text begins with these lines, and the last of them is complete.
pub open spec fn begins_with_lines(s: Seq<char>, lines: Seq<char>) -> bool {
    starts_with(s, lines) && (s.len() == lines.len() || s[lines.len() as int] == '\n')
}

fn lines_begin(s: &str, lines: &str) -> (r: bool)
    ensures
        r == begins_with_lines(s@, lines@),
{
    if !starts_with_text(s, lines) {
        return false;
    }
    let chars: Vec<char> = chars_of(s);
    let count: usize = chars_of(lines).len();
    chars.len() == count || chars[count] == '\n'
}

/// The headline of a digest, with the number of messages as it is written.
pub open spec fn headline_with(digits: Seq<char>) -> Seq<char> {
    "["@ + digits + " messages compacted]"@
}

fn headline_text(digits: &str) -> (r: String)
    ensures
        r@ == headline_with(digits@),
{
    let mut out: String = "[".to_owned();
    out.append(digits);
    out.append(" messages compacted]");
    out
}

/// The text has the form of a digest: its first line is a headline.
pub open spec fn is_digest(s: Seq<char>) -> bool {
    match strip_prefix(s, "["@) {
        Some(rest) => is_count(count_of(rest)) && begins_with_lines(
            s,
            headline_with(count_of(rest)),
        ),
        None => false,
    }
}

fn digest_stands(s: &str) -> (r: bool)
    ensures
        r == is_digest(s@),
{
    match strip_prefix_text(s, "[") {
        Some(rest) => {
            let digits: String = count_text(rest.as_str());
            let headline: String = headline_text(digits.as_str());
            counts(digits.as_str()) && lines_begin(s, headline.as_str())
        },
        None => false,
    }
}

/// The text has the form of a mid-tier collapse: the number of messages stands in its
/// first line, and again in the headline of the digest that follows.
pub open spec fn is_collapse(s: Seq<char>) -> bool {
    match strip_prefix(s, "[Mid-tier context collapse — "@) {
        Some(rest) => is_count(count_of(rest)) && begins_with_lines(
            s,
            "[Mid-tier context collapse — "@ + count_of(rest) + " messages compacted]\n"@
                + headline_with(count_of(rest)),
        ),
        None => false,
    }
}

fn collapse_stands(s: &str) -> (r: bool)
    ensures
        r == is_collapse(s@),
{
    match strip_prefix_text(s, "[Mid-tier context collapse — ") {
        Some(rest) => {
            let digits: String = count_text(rest.as_str());
            let mut lines: String = "[Mid-tier context collapse — ".to_owned();
            lines.append(digits.as_str());
            lines.append(" messages compacted]\n");
            let headline: String = headline_text(digits.as_str());
            lines.append(headline.as_str());
            counts(digits.as_str()) && lines_begin(s, lines.as_str())
        },
        None => false,
    }
}

/// The text has the form of a session's stored summary: it is one line behind the
/// mark, without a section header.
pub open spec fn is_session_summary(s: Seq<char>) -> bool {
    match strip_prefix(s, "[Session memory summary]\n"@) {
        Some(rest) => sanitized(rest) == rest,
        None => false,
    }
}

fn session_summary_stands(s: &str) -> (r: bool)
    ensures
        r == is_session_summary(s@),
{
    match strip_prefix_text(s, "[Session memory summary]\n") {
        Some(rest) => {
            let safe: String = sanitize_embedded_content(rest.as_str());
            str_eq(safe.as_str(), rest.as_str())
        },
        None => false,
    }
}

/// The message is a summary that a compaction can have left. Behind the mark of a
/// conversation summary anything may stand: a provider's compaction endpoint is free
/// in what it writes there.
pub open spec fn is_summary(message: MessageView) -> bool {
    message matches MessageView::User { content } && (is_session_summary(content) || is_collapse(
        content,
    ) || is_digest(content) || starts_with(content, "[Conversation summary]\n"@))
}

/// A summary stands behind the first message.
pub open spec fn has_summary(messages: Seq<MessageView>) -> bool {
    messages.len() > 1 && is_summary(messages[1])
}

fn summary_stands(messages: &Vec<Message>) -> (r: bool)
    ensures
        r == has_summary(messages_view(messages@)),
{
    if messages.len() <= 1 {
        return false;
    }
    assert(messages_view(messages@)[1] == messages@[1]@);
    match &messages[1] {
        Message::User { content } => {
            let text: &str = content.as_str();
            session_summary_stands(text) || collapse_stands(text) || digest_stands(text)
                || starts_with_text(text, "[Conversation summary]\n")
        },
        _ => false,
    }
}

/// The split between the older half of the messages behind the first one and the
/// rest, or 1 or less where there is nothing to collapse.
pub open spec fn half_split(messages: Seq<MessageView>) -> int {
    if messages.len() < 3 {
        0
    } else {
        adjusted_split(messages, 1 + (messages.len() as int) / 2)
    }
}

/// The text that stands for the messages that a mid-tier compaction discards.
pub open spec fn mid_summary(discarded: Seq<MessageView>, session_summary: Option<Seq<char>>) -> Seq<
    char,
> {
    match session_summary {
        Some(s) => "[Session memory summary]\n"@ + sanitized(s),
        None => "[Mid-tier context collapse — "@ + decimal(discarded.len())
            + " messages compacted]\n"@ + messages_digest(discarded),
    }
}

/// The buffer with its older half replaced by the session summary, or by a digest.
pub open spec fn collapsed(messages: Seq<MessageView>, session_summary: Option<Seq<char>>) -> Seq<
    MessageView,
> {
    let split = half_split(messages);
    if split <= 1 {
        messages
    } else {
        spliced(messages, split, mid_summary(messages.subrange(1, split), session_summary))
    }
}

pub open spec fn collapse_outcome(messages: Seq<MessageView>, with_summary: bool) -> MidCompactOutcome {
    let split = half_split(messages);
    if split <= 1 {
        MidCompactOutcome::Noop
    } else if with_summary {
        MidCompactOutcome::Layer2 { messages_replaced: (split - 1) as usize }
    } else {
        MidCompactOutcome::Layer1 { messages_collapsed: (split - 1) as usize }
    }
}

/// The buffer after a mid-tier compaction: one that has a summary stays as it is.
pub open spec fn mid_compacted(messages: Seq<MessageView>, session_summary: Option<Seq<char>>) -> Seq<
    MessageView,
> {
    if has_summary(messages) {
        messages
    } else {
        collapsed(messages, session_summary)
    }
}

pub open spec fn mid_outcome(messages: Seq<MessageView>, with_summary: bool) -> MidCompactOutcome {
    if has_summary(messages) {
        MidCompactOutcome::Noop
    } else {
        collapse_outcome(messages, with_summary)
    }
}

/// Replaces the older half of the messages with the session summary, or with a
/// digest where there is none. A buffer that has a summary already stays as it is.
pub fn mid_compact_messages(messages: &mut Vec<Message>, session_summary: Option<&str>) -> (r:
    MidCompactOutcome)
    ensures
        messages_view(final(messages)@) == mid_compacted(
            messages_view(old(messages)@),
            opt_str_view(session_summary),
        ),
        r == mid_outcome(messages_view(old(messages)@), session_summary is Some),
{
    if summary_stands(messages) {
        return MidCompactOutcome::Noop;
    }
    collapse_older_half(messages, session_summary)
}

/// Replaces the older half of the messages, a summary among them too, with the
/// session summary, or with a digest where there is none.
pub fn collapse_older_half(messages: &mut Vec<Message>, session_summary: Option<&str>) -> (r:
    MidCompactOutcome)
    ensures
        messages_view(final(messages)@) == collapsed(
            messages_view(old(messages)@),
            opt_str_view(session_summary),
        ),
        r == collapse_outcome(messages_view(old(messages)@), session_summary is Some),
{
    let ghost all = messages_view(messages@);
    if messages.len() < 3 {
        return MidCompactOutcome::Noop;
    }
    let candidate: usize = 1 + messages.len() / 2;
    let split: usize = adjust_split_for_tool_pairs(messages, candidate);
    if split <= 1 {
        return MidCompactOutcome::Noop;
    }
    let discarded: Vec<Message> = drain_middle(messages, split);
    let replaced: usize = discarded.len();
    let ghost between = messages_view(messages@);
    assert(messages_view(discarded@).len() == discarded@.len());
    let summary: String = match session_summary {
        Some(s) => {
            let mut out: String = "[Session memory summary]\n".to_owned();
            let safe: String = sanitize_embedded_content(s);
            out.append(safe.as_str());
            out
        },
        None => {
            let mut out: String = "[Mid-tier context collapse — ".to_owned();
            push_decimal(&mut out, replaced as u64);
            out.append(" messages compacted]\n");
            let digest: String = summarize_discarded_messages(&discarded);
            out.append(digest.as_str());
            out
        },
    };
    insert_summary(messages, summary);
    proof {
        assert(between.take(1) =~= all.take(1));
        assert(between.skip(1) =~= all.skip(split as int));
    }
    match session_summary {
        Some(_) => MidCompactOutcome::Layer2 { messages_replaced: replaced },
        None => MidCompactOutcome::Layer1 { messages_collapsed: replaced },
    }
}

} // verus!
