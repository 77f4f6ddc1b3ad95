//! The model's own task list: what its calls ask of the store, and what they are
//! answered.

use crate::json::{Json, JsonView};
use crate::number::{decimal, parse_bounded, parse_u64_bounded, push_decimal};
use crate::text::{opt_str_view, opt_view, str_eq};
use crate::visible::{PSEUDO_TASK_CREATE, PSEUDO_TASK_GET, PSEUDO_TASK_LIST, PSEUDO_TASK_UPDATE};
use vstd::prelude::*;

verus! {

/// What a call asks of the task store. A status is the text that the model gave.
#[derive(Debug)]
pub enum TaskToolRequest {
    Create { description: String, status: Option<String> },
    Update { task_id: u32, status: Option<String>, output: Option<String> },
    List,
    Get { task_id: u32 },
    /// The call is refused without asking the store.
    Refused { answer: String },
}

pub enum TaskRequestView {
    Create { description: Seq<char>, status: Option<Seq<char>> },
    Update { task_id: u32, status: Option<Seq<char>>, output: Option<Seq<char>> },
    List,
    Get { task_id: u32 },
    Refused { answer: Seq<char> },
}

impl View for TaskToolRequest {
    type V = TaskRequestView;

    open spec fn view(&self) -> TaskRequestView {
        match self {
            TaskToolRequest::Create { description, status } => TaskRequestView::Create {
                description: description@,
                status: opt_view(*status),
            },
            TaskToolRequest::Update { task_id, status, output } => TaskRequestView::Update {
                task_id: *task_id,
                status: opt_view(*status),
                output: opt_view(*output),
            },
            TaskToolRequest::List => TaskRequestView::List,
            TaskToolRequest::Get { task_id } => TaskRequestView::Get { task_id: *task_id },
            TaskToolRequest::Refused { answer } => TaskRequestView::Refused { answer: answer@ },
        }
    }
}

/// What the task store did.
#[derive(Debug)]
pub enum TaskStoreReply {
    /// The task was created under this number.
    Created { id: u32 },
    /// The task of this number was changed; false where there is none.
    Updated { id: u32, found: bool },
    /// The whole list, as text.
    Listed { text: String },
    /// The task of this number, as text, where there is one.
    Fetched { id: u32, text: Option<String> },
}

/// The number under that key, which may be written as text.
pub open spec fn u32_member(arguments: JsonView, key: Seq<char>) -> Option<nat> {
    match arguments.member_text(key) {
        Some(s) => parse_bounded(s, u32::MAX as nat),
        None => match arguments.member_unsigned(key) {
            Some(n) => if n <= u32::MAX {
                Some(n)
            } else {
                None
            },
            None => None,
        },
    }
}

pub fn parse_u32_from_json(arguments: &Json, key: &str) -> (r: Option<u32>)
    ensures
        match r {
            Some(n) => u32_member(arguments@, key@) == Some(n as nat),
            None => u32_member(arguments@, key@) is None,
        },
{
    match arguments.get_str(key) {
        Some(s) => match parse_u64_bounded(s, u32::MAX as u64) {
            Some(n) => Some(n as u32),
            None => None,
        },
        None => match arguments.get_u64(key) {
            Some(n) => if n <= u32::MAX as u64 {
                Some(n as u32)
            } else {
                None
            },
            None => None,
        },
    }
}

/// What a call of that tool asks of the store.
pub open spec fn task_request(tool_name: Seq<char>, arguments: JsonView) -> TaskRequestView {
    if tool_name == PSEUDO_TASK_CREATE@ {
        TaskRequestView::Create {
            description: match arguments.member_text("description"@) {
                Some(d) => d,
                None => "(no description)"@,
            },
            status: arguments.member_text("status"@),
        }
    } else if tool_name == PSEUDO_TASK_UPDATE@ {
        match u32_member(arguments, "task_id"@) {
            Some(id) => TaskRequestView::Update {
                task_id: id as u32,
                status: arguments.member_text("status"@),
                output: arguments.member_text("output"@),
            },
            None => TaskRequestView::Refused { answer: "Error: invalid or missing task_id."@ },
        }
    } else if tool_name == PSEUDO_TASK_LIST@ {
        TaskRequestView::List
    } else if tool_name == PSEUDO_TASK_GET@ {
        match u32_member(arguments, "task_id"@) {
            Some(id) => TaskRequestView::Get { task_id: id as u32 },
            None => TaskRequestView::Refused { answer: "Error: invalid or missing task_id."@ },
        }
    } else {
        TaskRequestView::Refused { answer: "Error: unknown task pseudo-tool."@ }
    }
}

fn owned(text: Option<&str>) -> (r: Option<String>)
    ensures
        opt_view(r) == opt_str_view(text),
{
    match text {
        Some(t) => Some(t.to_owned()),
        None => None,
    }
}

pub fn task_tool_request(tool_name: &str, arguments: &Json) -> (r: TaskToolRequest)
    ensures
        r@ == task_request(tool_name@, arguments@),
{
    if str_eq(tool_name, PSEUDO_TASK_CREATE) {
        let description: &str = match arguments.get_str("description") {
            Some(d) => d,
            None => "(no description)",
        };
        TaskToolRequest::Create {
            description: description.to_owned(),
            status: owned(arguments.get_str("status")),
        }
    } else if str_eq(tool_name, PSEUDO_TASK_UPDATE) {
        match parse_u32_from_json(arguments, "task_id") {
            Some(task_id) => TaskToolRequest::Update {
                task_id,
                status: owned(arguments.get_str("status")),
                output: owned(arguments.get_str("output")),
            },
            None => TaskToolRequest::Refused {
                answer: "Error: invalid or missing task_id.".to_owned(),
            },
        }
    } else if str_eq(tool_name, PSEUDO_TASK_LIST) {
        TaskToolRequest::List
    } else if str_eq(tool_name, PSEUDO_TASK_GET) {
        match parse_u32_from_json(arguments, "task_id") {
            Some(task_id) => TaskToolRequest::Get { task_id },
            None => TaskToolRequest::Refused {
                answer: "Error: invalid or missing task_id.".to_owned(),
            },
        }
    } else {
        TaskToolRequest::Refused { answer: "Error: unknown task pseudo-tool.".to_owned() }
    }
}

/// The sentence on one task of the store.
pub open spec fn about_task(before: Seq<char>, id: u32, after: Seq<char>) -> Seq<char> {
    before + decimal(id as nat) + after
}

/// What the model is told of the store's reply.
pub open spec fn task_answer(reply: TaskStoreReply) -> Seq<char> {
    match reply {
        TaskStoreReply::Created { id } => about_task("Task #"@, id, " created successfully."@),
        TaskStoreReply::Updated { id, found } => if found {
            about_task("Task #"@, id, " updated."@)
        } else {
            about_task("Error: task #"@, id, " not found."@)
        },
        TaskStoreReply::Listed { text } => text@,
        TaskStoreReply::Fetched { id, text } => match text {
            Some(text) => text@,
            None => about_task("Error: task #"@, id, " not found."@),
        },
    }
}

fn task_sentence(before: &str, id: u32, after: &str) -> (r: String)
    ensures
        r@ == about_task(before@, id, after@),
{
    let mut out: String = before.to_owned();
    push_decimal(&mut out, id as u64);
    out.append(after);
    out
}

pub fn task_tool_answer(reply: &TaskStoreReply) -> (r: String)
    ensures
        r@ == task_answer(*reply),
{
    match reply {
        TaskStoreReply::Created { id } => task_sentence("Task #", *id, " created successfully."),
        TaskStoreReply::Updated { id, found } => if *found {
            task_sentence("Task #", *id, " updated.")
        } else {
            task_sentence("Error: task #", *id, " not found.")
        },
        TaskStoreReply::Listed { text } => text.clone(),
        TaskStoreReply::Fetched { id, text } => match text {
            Some(text) => text.clone(),
            None => task_sentence("Error: task #", *id, " not found."),
        },
    }
}

} // verus!
