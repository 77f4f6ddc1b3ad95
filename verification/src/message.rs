//! The conversation buffer that is sent to the model.

use crate::json::{Json, JsonView};
use vstd::prelude::*;

verus! {

/// One tool call that the model asked for.
#[derive(Debug)]
pub struct ToolCallBlock {
    pub id: String,
    pub name: String,
    pub arguments: Json,
}

/// One message of the conversation.
#[derive(Debug)]
pub enum Message {
    User { content: String },
    Assistant { text: String, tool_calls: Vec<ToolCallBlock> },
    ToolResult { tool_use_id: String, content: String, is_error: bool },
}

#[verifier::ext_equal]
pub struct ToolCallView {
    pub id: Seq<char>,
    pub name: Seq<char>,
    pub arguments: JsonView,
}

#[verifier::ext_equal]
pub enum MessageView {
    User { content: Seq<char> },
    Assistant { text: Seq<char>, tool_calls: Seq<ToolCallView> },
    ToolResult { tool_use_id: Seq<char>, content: Seq<char>, is_error: bool },
}

impl View for ToolCallBlock {
    type V = ToolCallView;

    open spec fn view(&self) -> ToolCallView {
        ToolCallView { id: self.id@, name: self.name@, arguments: self.arguments@ }
    }
}

/// The views of the tool calls.
pub open spec fn calls_view(calls: Seq<ToolCallBlock>) -> Seq<ToolCallView> {
    calls.map_values(|c: ToolCallBlock| c@)
}

impl View for Message {
    type V = MessageView;

    open spec fn view(&self) -> MessageView {
        match self {
            Message::User { content } => MessageView::User { content: content@ },
            Message::Assistant { text, tool_calls } => MessageView::Assistant {
                text: text@,
                tool_calls: calls_view(tool_calls@),
            },
            Message::ToolResult { tool_use_id, content, is_error } => MessageView::ToolResult {
                tool_use_id: tool_use_id@,
                content: content@,
                is_error: *is_error,
            },
        }
    }
}

/// The views of the messages.
pub open spec fn messages_view(messages: Seq<Message>) -> Seq<MessageView> {
    messages.map_values(|m: Message| m@)
}

impl Clone for ToolCallBlock {
    fn clone(&self) -> (r: Self)
        ensures
            r@ == self@,
    {
        ToolCallBlock {
            id: self.id.clone(),
            name: self.name.clone(),
            arguments: self.arguments.clone(),
        }
    }
}

pub fn clone_calls(calls: &Vec<ToolCallBlock>) -> (r: Vec<ToolCallBlock>)
    ensures
        calls_view(r@) == calls_view(calls@),
{
    let mut out: Vec<ToolCallBlock> = Vec::new();
    let mut i: usize = 0;
    while i < calls.len()
        invariant
            i <= calls.len(),
            calls_view(out@) == calls_view(calls@).take(i as int),
        decreases calls.len() - i,
    {
        let call: ToolCallBlock = calls[i].clone();
        assert(calls_view(out@.push(call)) =~= calls_view(out@).push(call@));
        assert(calls_view(calls@).take(i + 1) =~= calls_view(calls@).take(i as int).push(
            calls@[i as int]@,
        ));
        out.push(call);
        i = i + 1;
    }
    assert(calls_view(calls@).take(i as int) =~= calls_view(calls@));
    out
}

impl Clone for Message {
    fn clone(&self) -> (r: Self)
        ensures
            r@ == self@,
    {
        match self {
            Message::User { content } => Message::User { content: content.clone() },
            Message::Assistant { text, tool_calls } => Message::Assistant {
                text: text.clone(),
                tool_calls: clone_calls(tool_calls),
            },
            Message::ToolResult { tool_use_id, content, is_error } => Message::ToolResult {
                tool_use_id: tool_use_id.clone(),
                content: content.clone(),
                is_error: *is_error,
            },
        }
    }
}

pub proof fn lemma_messages_push(messages: Seq<Message>, m: Message)
    ensures
        messages_view(messages.push(m)) == messages_view(messages).push(m@),
{
    assert(messages_view(messages.push(m)) =~= messages_view(messages).push(m@));
}

/// A copy of the messages `from..to`.
pub fn clone_messages(messages: &Vec<Message>, from: usize, to: usize) -> (r: Vec<Message>)
    requires
        from <= to <= messages.len(),
    ensures
        messages_view(r@) == messages_view(messages@).subrange(from as int, to as int),
{
    let mut out: Vec<Message> = Vec::new();
    let mut i: usize = from;
    while i < to
        invariant
            from <= i <= to <= messages.len(),
            messages_view(out@) == messages_view(messages@).subrange(from as int, i as int),
        decreases to - i,
    {
        let m: Message = messages[i].clone();
        proof {
            lemma_messages_push(out@, m);
        }
        assert(messages_view(messages@).subrange(from as int, i + 1) =~= messages_view(
            messages@,
        ).subrange(from as int, i as int).push(messages@[i as int]@));
        out.push(m);
        i = i + 1;
    }
    out
}

pub fn is_tool_result(message: &Message) -> (r: bool)
    ensures
        r == (message@ is ToolResult),
{
    match message {
        Message::ToolResult { .. } => true,
        _ => false,
    }
}

} // verus!
