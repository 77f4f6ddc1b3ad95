//! The next step of a loop over the filesystem.

use crate::grounding::{extract_path_candidates, path_candidates};
use crate::json::{Json, JsonField, JsonView};
use crate::json_build::{
    field, fields_view, number, number_value, object_value, push_field, text_value,
};
use crate::observation::{DecisionView, NextStepAction, NextStepDecision};
use crate::split::list_has;
use crate::state::LoopState;
use crate::text::{contains_char, opt_str_view, opt_view, str_eq, views};
use vstd::prelude::*;

verus! {

/// How much of a file is read at once.
pub const READ_MAX_BYTES: u64 = 4_096;

/// What a path leads to.
#[derive(Debug, Clone, Copy, PartialEq, Eq, Structural)]
pub enum PathKind {
    File,
    Directory,
    Other,
}

pub open spec fn tool_call(tool: Seq<char>, arguments: JsonView, reason: Seq<char>) -> DecisionView {
    DecisionView {
        action: NextStepAction::CallTool,
        tool_name: Some(tool),
        arguments: Some(arguments),
        reason,
        final_message: None,
    }
}

pub open spec fn question(message: Seq<char>) -> DecisionView {
    DecisionView {
        action: NextStepAction::AskUser,
        tool_name: None,
        arguments: None,
        reason: "filesystem loop needs more information from the user"@,
        final_message: Some(message),
    }
}

pub open spec fn answer(message: Seq<char>) -> DecisionView {
    DecisionView {
        action: NextStepAction::FinalAnswer,
        tool_name: None,
        arguments: None,
        reason: "filesystem loop has enough information to answer the user"@,
        final_message: Some(message),
    }
}

pub open spec fn failure(reason: Seq<char>) -> DecisionView {
    DecisionView {
        action: NextStepAction::Fail,
        tool_name: None,
        arguments: None,
        reason,
        final_message: Some(reason),
    }
}

pub fn call_tool(tool_name: &str, arguments: Json, reason: &str) -> (r: NextStepDecision)
    ensures
        r@ == tool_call(tool_name@, arguments@, reason@),
{
    NextStepDecision {
        action: NextStepAction::CallTool,
        tool_name: Some(tool_name.to_owned()),
        arguments: Some(arguments),
        reason: reason.to_owned(),
        final_message: None,
    }
}

pub fn ask_user(final_message: &str) -> (r: NextStepDecision)
    ensures
        r@ == question(final_message@),
{
    NextStepDecision {
        action: NextStepAction::AskUser,
        tool_name: None,
        arguments: None,
        reason: "filesystem loop needs more information from the user".to_owned(),
        final_message: Some(final_message.to_owned()),
    }
}

pub fn final_answer(final_message: &str) -> (r: NextStepDecision)
    ensures
        r@ == answer(final_message@),
{
    NextStepDecision {
        action: NextStepAction::FinalAnswer,
        tool_name: None,
        arguments: None,
        reason: "filesystem loop has enough information to answer the user".to_owned(),
        final_message: Some(final_message.to_owned()),
    }
}

pub fn fail(reason: &str) -> (r: NextStepDecision)
    ensures
        r@ == failure(reason@),
{
    NextStepDecision {
        action: NextStepAction::Fail,
        tool_name: None,
        arguments: None,
        reason: reason.to_owned(),
        final_message: Some(reason.to_owned()),
    }
}

/// The arguments of a tool that takes a path.
pub open spec fn path_argument(path: Seq<char>) -> JsonView {
    JsonView::Object(seq![field("path"@, JsonView::Text(path))])
}

/// The arguments of a tool that reads a file.
pub open spec fn read_arguments(path: Seq<char>) -> JsonView {
    JsonView::Object(
        seq![
            field("max_bytes"@, number(READ_MAX_BYTES as nat)),
            field("path"@, JsonView::Text(path)),
        ],
    )
}

/// The arguments of a search by name.
pub open spec fn find_arguments(name: Seq<char>, kind: Seq<char>) -> JsonView {
    JsonView::Object(
        seq![field("kind"@, JsonView::Text(kind)), field("name"@, JsonView::Text(name))],
    )
}

pub fn path_argument_value(path: &str) -> (r: Json)
    ensures
        r@ == path_argument(path@),
{
    let mut fields: Vec<JsonField> = Vec::new();
    push_field(&mut fields, "path", text_value(path));
    assert(fields_view(fields@) =~= path_argument(path@)->Object_0);
    object_value(fields)
}

pub fn read_arguments_value(path: &str) -> (r: Json)
    ensures
        r@ == read_arguments(path@),
{
    let mut fields: Vec<JsonField> = Vec::new();
    push_field(&mut fields, "max_bytes", number_value(READ_MAX_BYTES));
    push_field(&mut fields, "path", text_value(path));
    assert(fields_view(fields@) =~= read_arguments(path@)->Object_0);
    object_value(fields)
}

pub fn find_arguments_value(name: &str, kind: &str) -> (r: Json)
    ensures
        r@ == find_arguments(name@, kind@),
{
    let mut fields: Vec<JsonField> = Vec::new();
    push_field(&mut fields, "kind", text_value(kind));
    push_field(&mut fields, "name", text_value(name));
    assert(fields_view(fields@) =~= find_arguments(name@, kind@)->Object_0);
    object_value(fields)
}

/// A name without any directory.
pub open spec fn is_basename(path: Seq<char>) -> bool {
    path.len() > 0 && path != "."@ && path != ".."@ && !path.contains('/') && !path.contains('\\')
}

pub fn is_basename_candidate(path: &str) -> (r: bool)
    ensures
        r == is_basename(path@),
{
    !path.is_empty() && !str_eq(path, ".") && !str_eq(path, "..") && !contains_char(path, '/')
        && !contains_char(path, '\\')
}

/// The first path that a text names, and whether it is a bare name.
#[derive(Debug)]
pub struct GoalHints {
    pub explicit_path: Option<String>,
    pub basename_only: Option<String>,
}

#[verifier::ext_equal]
pub struct HintsView {
    pub path: Option<Seq<char>>,
    pub basename: Option<Seq<char>>,
}

impl View for GoalHints {
    type V = HintsView;

    open spec fn view(&self) -> HintsView {
        HintsView { path: opt_view(self.explicit_path), basename: opt_view(self.basename_only) }
    }
}

pub open spec fn hints_of(goal: Seq<char>, entries: Seq<Seq<char>>) -> HintsView {
    let paths = path_candidates(goal, entries);
    if paths.len() == 0 {
        HintsView { path: None, basename: None }
    } else {
        HintsView {
            path: Some(paths[0]),
            basename: if is_basename(paths[0]) {
                Some(paths[0])
            } else {
                None
            },
        }
    }
}

impl GoalHints {
    pub fn from_goal(goal: &str, workspace_entries: &Vec<String>) -> (r: Self)
        ensures
            r@ == hints_of(goal@, views(workspace_entries@)),
    {
        let paths: Vec<String> = extract_path_candidates(goal, workspace_entries);
        assert(views(paths@).len() == paths@.len());
        if paths.len() == 0 {
            return GoalHints { explicit_path: None, basename_only: None };
        }
        assert(views(paths@)[0] == paths@[0]@);
        let basename_only: Option<String> = if is_basename_candidate(paths[0].as_str()) {
            Some(paths[0].clone())
        } else {
            None
        };
        GoalHints { explicit_path: Some(paths[0].clone()), basename_only }
    }
}

/// The tool that the loop would use first.
pub open spec fn preferred(visible: Seq<Seq<char>>) -> Option<Seq<char>> {
    if visible.len() > 0 {
        Some(visible[0])
    } else {
        None
    }
}

/// What a search is for, given the tool that is to use what it finds.
pub open spec fn find_kind(tool: Option<Seq<char>>) -> Seq<char> {
    if tool == Some("fs.list_dir"@) {
        "directory"@
    } else if tool == Some("fs.read_text"@) {
        "file"@
    } else {
        "any"@
    }
}

/// The first visible tool.
pub fn preferred_tool(loop_state: &LoopState) -> (r: Option<&str>)
    ensures
        opt_str_view(r) == preferred(views(loop_state.visible_tools@)),
{
    assert(views(loop_state.visible_tools@).len() == loop_state.visible_tools@.len());
    if loop_state.visible_tools.len() > 0 {
        assert(views(loop_state.visible_tools@)[0] == loop_state.visible_tools@[0]@);
        Some(loop_state.visible_tools[0].as_str())
    } else {
        None
    }
}

pub fn find_kind_for_preferred_tool(tool: Option<&str>) -> (r: &'static str)
    ensures
        r@ == find_kind(opt_str_view(tool)),
{
    match tool {
        Some(tool) => if str_eq(tool, "fs.list_dir") {
            "directory"
        } else if str_eq(tool, "fs.read_text") {
            "file"
        } else {
            "any"
        },
        None => "any",
    }
}

pub fn tool_visible(loop_state: &LoopState, tool_name: &str) -> (r: bool)
    ensures
        r == views(loop_state.visible_tools@).contains(tool_name@),
{
    list_has(&loop_state.visible_tools, tool_name)
}

/// The first of the tools that is no search.
pub open spec fn first_other_than_find(visible: Seq<Seq<char>>) -> Option<Seq<char>>
    decreases visible.len(),
{
    if visible.len() == 0 {
        None
    } else if visible[0] != "fs.find"@ {
        Some(visible[0])
    } else {
        first_other_than_find(visible.skip(1))
    }
}

/// The tool for a path of that kind.
pub open spec fn follow_up(visible: Seq<Seq<char>>, kind: PathKind) -> Option<Seq<char>> {
    if kind == PathKind::File && visible.contains("fs.read_text"@) {
        Some("fs.read_text"@)
    } else if kind == PathKind::Directory && visible.contains("fs.list_dir"@) {
        Some("fs.list_dir"@)
    } else {
        first_other_than_find(visible)
    }
}

pub fn follow_up_tool(loop_state: &LoopState) -> (r: Option<&str>)
    ensures
        opt_str_view(r) == first_other_than_find(views(loop_state.visible_tools@)),
{
    let ghost all = views(loop_state.visible_tools@);
    let mut i: usize = 0;
    assert(all.skip(0) =~= all);
    while i < loop_state.visible_tools.len()
        invariant
            i <= loop_state.visible_tools.len(),
            all == views(loop_state.visible_tools@),
            first_other_than_find(all) == first_other_than_find(all.skip(i as int)),
        decreases loop_state.visible_tools.len() - i,
    {
        assert(all.skip(i as int)[0] == loop_state.visible_tools@[i as int]@);
        assert(all.skip(i as int).skip(1) =~= all.skip(i + 1));
        if !str_eq(loop_state.visible_tools[i].as_str(), "fs.find") {
            return Some(loop_state.visible_tools[i].as_str());
        }
        i = i + 1;
    }
    None
}

pub fn follow_up_tool_for_resolved_path(loop_state: &LoopState, kind: PathKind) -> (r: Option<&str>)
    ensures
        opt_str_view(r) == follow_up(views(loop_state.visible_tools@), kind),
{
    match kind {
        PathKind::File => {
            if tool_visible(loop_state, "fs.read_text") {
                return Some("fs.read_text");
            }
        },
        PathKind::Directory => {
            if tool_visible(loop_state, "fs.list_dir") {
                return Some("fs.list_dir");
            }
        },
        PathKind::Other => {},
    }
    follow_up_tool(loop_state)
}

/// The reasons for the four ways to go on with a path.
pub struct FollowUpReasons {
    pub read: &'static str,
    pub exists: &'static str,
    pub list: &'static str,
    pub inspect: &'static str,
}

/// How to go on with a path, given the tool for it.
pub open spec fn followed(
    tool: Option<Seq<char>>,
    path: Seq<char>,
    reasons: FollowUpReasons,
) -> DecisionView {
    match tool {
        None => tool_call("fs.inspect"@, path_argument(path), reasons.inspect@),
        Some(tool) => if tool == "fs.read_text"@ {
            tool_call(tool, read_arguments(path), reasons.read@)
        } else if tool == "fs.exists"@ {
            tool_call(tool, path_argument(path), reasons.exists@)
        } else if tool == "fs.list_dir"@ {
            tool_call(tool, path_argument(path), reasons.list@)
        } else if tool == "fs.inspect"@ {
            tool_call(tool, path_argument(path), reasons.inspect@)
        } else {
            failure(
                "filesystem loop cannot continue with unsupported follow-up tool `"@ + tool + "`"@,
            )
        },
    }
}

pub fn follow(tool: Option<&str>, path: &str, reasons: FollowUpReasons) -> (r: NextStepDecision)
    ensures
        r@ == followed(opt_str_view(tool), path@, reasons),
{
    match tool {
        None => call_tool("fs.inspect", path_argument_value(path), reasons.inspect),
        Some(tool) => if str_eq(tool, "fs.read_text") {
            call_tool(tool, read_arguments_value(path), reasons.read)
        } else if str_eq(tool, "fs.exists") {
            call_tool(tool, path_argument_value(path), reasons.exists)
        } else if str_eq(tool, "fs.list_dir") {
            call_tool(tool, path_argument_value(path), reasons.list)
        } else if str_eq(tool, "fs.inspect") {
            call_tool(tool, path_argument_value(path), reasons.inspect)
        } else {
            let mut text: String =
                "filesystem loop cannot continue with unsupported follow-up tool `".to_owned();
            text.append(tool);
            text.append("`");
            fail(text.as_str())
        },
    }
}

} // verus!
