//! Byte-based estimates of token counts.

use crate::message::{messages_view, Message, MessageView};
use crate::split::list_has;
use crate::text::views;
use vstd::prelude::*;
use vstd::utf8::encode_utf8;

verus! {

/// The bytes of a text that the CJK test looks at.
pub const CJK_SAMPLE_BYTES: usize = 256;

/// The estimated tokens of one turn's tool results above which the turn is over
/// its budget.
pub const PER_TURN_TOOL_BUDGET_TOKENS: u64 = 200_000;

pub open spec fn ceil_div(n: nat, d: nat) -> nat {
    if n % d == 0 {
        n / d
    } else {
        n / d + 1
    }
}

/// A sum that stops at the largest `u64`.
pub open spec fn capped(n: int) -> int {
    if n > u64::MAX {
        u64::MAX as int
    } else {
        n
    }
}

pub open spec fn is_gap(b: u8) -> bool {
    b == 0x20 || b == 0x09 || b == 0x0D || b == 0x0A
}

/// The bytes from the first one on that is no gap.
pub open spec fn skip_gaps(bytes: Seq<u8>) -> Seq<u8>
    decreases bytes.len(),
{
    if bytes.len() > 0 && is_gap(bytes[0]) {
        skip_gaps(bytes.skip(1))
    } else {
        bytes
    }
}

/// What may follow an opening bracket for the text to be an array.
pub open spec fn opens_array_item(b: u8) -> bool {
    b == 0x22 || b == 0x7B || b == 0x5B || b == 0x5D || 0x30 <= b <= 0x39
}

/// What may follow an opening angle bracket for the text to be a tag.
pub open spec fn opens_tag_name(b: u8) -> bool {
    b == 0x2F || b == 0x21 || b == 0x3F || 0x61 <= b <= 0x7A || 0x41 <= b <= 0x5A
}

/// The text is dense: it begins like an object, an array or a tag.
pub open spec fn structured(bytes: Seq<u8>) -> bool {
    let body = skip_gaps(bytes);
    let rest = skip_gaps(body.skip(1));
    if body.len() == 0 {
        false
    } else if body[0] == 0x7B {
        true
    } else if body[0] == 0x5B {
        rest.len() > 0 && opens_array_item(rest[0])
    } else if body[0] == 0x3C {
        rest.len() > 0 && opens_tag_name(rest[0])
    } else {
        false
    }
}

/// How many of the bytes have the high bit set.
pub open spec fn high_count(bytes: Seq<u8>) -> nat
    decreases bytes.len(),
{
    if bytes.len() == 0 {
        0
    } else {
        high_count(bytes.drop_last()) + (if bytes.last() >= 0x80 {
            1nat
        } else {
            0
        })
    }
}

/// At least half of the sampled bytes belong to characters outside ASCII.
pub open spec fn cjk(bytes: Seq<u8>) -> bool {
    let n = if bytes.len() < CJK_SAMPLE_BYTES {
        bytes.len() as int
    } else {
        CJK_SAMPLE_BYTES as int
    };
    n > 0 && high_count(bytes.take(n)) * 2 >= n
}

/// The estimated tokens of a text: half its bytes where it is dense, a third
/// where it is mostly outside ASCII, a quarter otherwise, each rounded up.
pub open spec fn text_tokens(s: Seq<char>) -> nat {
    let bytes = encode_utf8(s);
    if bytes.len() == 0 {
        0
    } else if structured(bytes) {
        ceil_div(bytes.len(), 2)
    } else if cjk(bytes) {
        ceil_div(bytes.len(), 3)
    } else {
        ceil_div(bytes.len(), 4)
    }
}

/// The index of the first byte from `from` on that is no gap.
fn gap_end(bytes: &[u8], from: usize) -> (r: usize)
    requires
        from <= bytes.len(),
    ensures
        from <= r <= bytes.len(),
        skip_gaps(bytes@.skip(from as int)) == bytes@.skip(r as int),
{
    let mut i: usize = from;
    while i < bytes.len()
        invariant
            from <= i <= bytes.len(),
            skip_gaps(bytes@.skip(from as int)) == skip_gaps(bytes@.skip(i as int)),
        decreases bytes.len() - i,
    {
        let b: u8 = bytes[i];
        assert(bytes@.skip(i as int)[0] == b);
        if !(b == 0x20 || b == 0x09 || b == 0x0D || b == 0x0A) {
            return i;
        }
        assert(bytes@.skip(i as int).skip(1) =~= bytes@.skip(i + 1));
        i = i + 1;
    }
    i
}

pub fn looks_like_structured(bytes: &[u8]) -> (r: bool)
    ensures
        r == structured(bytes@),
{
    assert(bytes@.skip(0) =~= bytes@);
    let i: usize = gap_end(bytes, 0);
    if i == bytes.len() {
        return false;
    }
    let first: u8 = bytes[i];
    assert(bytes@.skip(i as int)[0] == first);
    let j: usize = gap_end(bytes, i + 1);
    assert(bytes@.skip(i as int).skip(1) =~= bytes@.skip(i + 1));
    if first == 0x7B {
        return true;
    }
    if j == bytes.len() {
        return false;
    }
    let next: u8 = bytes[j];
    assert(bytes@.skip(j as int)[0] == next);
    if first == 0x5B {
        next == 0x22 || next == 0x7B || next == 0x5B || next == 0x5D || (0x30 <= next && next
            <= 0x39)
    } else if first == 0x3C {
        next == 0x2F || next == 0x21 || next == 0x3F || (0x61 <= next && next <= 0x7A) || (0x41
            <= next && next <= 0x5A)
    } else {
        false
    }
}

pub fn looks_like_cjk(bytes: &[u8]) -> (r: bool)
    ensures
        r == cjk(bytes@),
{
    let n: usize = if bytes.len() < CJK_SAMPLE_BYTES {
        bytes.len()
    } else {
        CJK_SAMPLE_BYTES
    };
    if n == 0 {
        return false;
    }
    let mut high: usize = 0;
    let mut i: usize = 0;
    while i < n
        invariant
            i <= n <= bytes.len(),
            n <= CJK_SAMPLE_BYTES,
            high == high_count(bytes@.take(i as int)),
            high <= i,
        decreases n - i,
    {
        assert(bytes@.take(i + 1).drop_last() =~= bytes@.take(i as int));
        assert(bytes@.take(i + 1).last() == bytes@[i as int]);
        if bytes[i] >= 0x80 {
            high = high + 1;
        }
        i = i + 1;
    }
    high * 2 >= n
}

/// The estimated tokens of a text.
pub fn byte_estimate_for_text(text: &str) -> (r: u64)
    ensures
        r == text_tokens(text@),
{
    let bytes: &[u8] = text.as_bytes();
    let len: u64 = bytes.len() as u64;
    if len == 0 {
        return 0;
    }
    let divisor: u64 = if looks_like_structured(bytes) {
        2
    } else if looks_like_cjk(bytes) {
        3
    } else {
        4
    };
    if len % divisor == 0 {
        len / divisor
    } else {
        len / divisor + 1
    }
}

/// The estimated tokens of the results whose call is one of `ids`.
pub open spec fn turn_tool_tokens(messages: Seq<MessageView>, ids: Seq<Seq<char>>) -> nat
    decreases messages.len(),
{
    if messages.len() == 0 {
        0
    } else {
        turn_tool_tokens(messages.drop_last(), ids) + (match messages.last() {
            MessageView::ToolResult { tool_use_id, content, .. } => if ids.contains(tool_use_id) {
                text_tokens(content)
            } else {
                0
            },
            _ => 0,
        })
    }
}

/// Estimates the tokens of the tool results that the turn produced.
pub fn estimate_turn_tool_tokens(messages: &Vec<Message>, turn_tool_ids: &Vec<String>) -> (r: u64)
    ensures
        r == capped(turn_tool_tokens(messages_view(messages@), views(turn_tool_ids@)) as int),
{
    let ghost all = messages_view(messages@);
    let ghost ids = views(turn_tool_ids@);
    let mut total: u64 = 0;
    let mut i: usize = 0;
    while i < messages.len()
        invariant
            i <= messages.len(),
            all == messages_view(messages@),
            ids == views(turn_tool_ids@),
            total == capped(turn_tool_tokens(all.take(i as int), ids) as int),
        decreases messages.len() - i,
    {
        assert(all.take(i + 1).drop_last() =~= all.take(i as int));
        assert(all.take(i + 1).last() == messages@[i as int]@);
        match &messages[i] {
            Message::ToolResult { tool_use_id, content, .. } => {
                if list_has(turn_tool_ids, tool_use_id.as_str()) {
                    total = total.saturating_add(byte_estimate_for_text(content.as_str()));
                }
            },
            _ => {},
        }
        i = i + 1;
    }
    assert(all.take(i as int) =~= all);
    total
}

} // verus!
