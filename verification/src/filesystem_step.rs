//! What a loop over the filesystem does next.

use crate::ask_user::{ask_user_from_observation, has_error_type, payload_for, AskUserPayload};
use crate::candidates::{reply_selects_candidate, selected};
use crate::filesystem::{
    answer, ask_user, call_tool, fail, failure, final_answer, find_arguments, find_arguments_value,
    find_kind, find_kind_for_preferred_tool, follow, follow_up, follow_up_tool_for_resolved_path,
    followed, hints_of, path_argument, path_argument_value, preferred, preferred_tool, question,
    read_arguments, read_arguments_value, tool_call, tool_visible, FollowUpReasons, GoalHints,
    HintsView, PathKind,
};
use crate::json::{texts_of, Json, JsonView};
use crate::observation::{
    DecisionView, NextStepAction, NextStepDecision, ToolObservation, ToolObservationView,
};
use crate::path::{file_name, file_name_from_path};
use crate::split::{clone_opt, list_has};
use crate::state::LoopState;
use crate::text::{opt_str_view, opt_view, str_eq, views};
use vstd::prelude::*;

verus! {

pub open spec fn or_here(path: Option<Seq<char>>) -> Seq<char> {
    match path {
        Some(path) => path,
        None => "."@,
    }
}

/// The first step of a loop with these tools, given the path that the user named.
pub open spec fn first_step(visible: Seq<Seq<char>>, hints: HintsView) -> DecisionView {
    let tool = preferred(visible);
    let can_find = visible.contains("fs.find"@);
    match tool {
        Some(tool) => if hints.basename is Some && can_find && tool != "fs.list_dir"@ {
            tool_call(
                "fs.find"@,
                find_arguments(hints.basename->0, find_kind(Some(tool))),
                "Resolve the basename first before attempting a concrete filesystem action."@,
            )
        } else if tool == "fs.list_dir"@ {
            tool_call(
                tool,
                path_argument(or_here(hints.path)),
                "Use the shortlisted directory listing tool for the current grounded target."@,
            )
        } else if tool == "fs.inspect"@ {
            tool_call(
                tool,
                path_argument(or_here(hints.path)),
                "Use the shortlisted inspection tool to inspect the current grounded target."@,
            )
        } else if tool == "fs.exists"@ {
            match hints.path {
                Some(path) => tool_call(
                    tool,
                    path_argument(path),
                    "Check whether the grounded target exists."@,
                ),
                None => question(
                    "I still need a concrete path or file name before I can check whether it exists."@,
                ),
            }
        } else if tool == "fs.read_text"@ {
            match hints.path {
                Some(path) => tool_call(
                    tool,
                    read_arguments(path),
                    "Read the grounded file directly."@,
                ),
                None => match hints.basename {
                    Some(name) => if can_find {
                        tool_call(
                            "fs.find"@,
                            find_arguments(name, "file"@),
                            "Resolve the basename first before reading file contents."@,
                        )
                    } else {
                        question(
                            "I need a more specific path for `"@ + name
                                + "` before I can read it."@,
                        )
                    },
                    None => question("I still need a concrete file path before I can read it."@),
                },
            }
        } else if tool == "fs.find"@ {
            match hints.basename {
                Some(name) => tool_call(
                    tool,
                    find_arguments(name, "any"@),
                    "Resolve the basename inside the allowed workspace roots first."@,
                ),
                None => question("I still need a file or directory name to locate."@),
            }
        } else {
            failure("filesystem loop does not support the shortlisted tool `"@ + tool + "`"@)
        },
        None => failure("filesystem loop does not have any visible tools"@),
    }
}

pub fn initial_next_step(loop_state: &LoopState, hints: &GoalHints) -> (r: NextStepDecision)
    ensures
        r@ == first_step(views(loop_state.visible_tools@), hints@),
{
    let tool: &str = match preferred_tool(loop_state) {
        Some(tool) => tool,
        None => {
            return fail("filesystem loop does not have any visible tools");
        },
    };
    let can_find: bool = tool_visible(loop_state, "fs.find");
    if let Some(basename) = &hints.basename_only {
        if can_find && !str_eq(tool, "fs.list_dir") {
            return call_tool(
                "fs.find",
                find_arguments_value(
                    basename.as_str(),
                    find_kind_for_preferred_tool(Some(tool)),
                ),
                "Resolve the basename first before attempting a concrete filesystem action.",
            );
        }
    }
    if str_eq(tool, "fs.list_dir") {
        let path: &str = match &hints.explicit_path {
            Some(path) => path.as_str(),
            None => ".",
        };
        call_tool(
            tool,
            path_argument_value(path),
            "Use the shortlisted directory listing tool for the current grounded target.",
        )
    } else if str_eq(tool, "fs.inspect") {
        let path: &str = match &hints.explicit_path {
            Some(path) => path.as_str(),
            None => ".",
        };
        call_tool(
            tool,
            path_argument_value(path),
            "Use the shortlisted inspection tool to inspect the current grounded target.",
        )
    } else if str_eq(tool, "fs.exists") {
        match &hints.explicit_path {
            Some(path) => call_tool(
                tool,
                path_argument_value(path.as_str()),
                "Check whether the grounded target exists.",
            ),
            None => ask_user(
                "I still need a concrete path or file name before I can check whether it exists.",
            ),
        }
    } else if str_eq(tool, "fs.read_text") {
        match &hints.explicit_path {
            Some(path) => call_tool(
                tool,
                read_arguments_value(path.as_str()),
                "Read the grounded file directly.",
            ),
            None => match &hints.basename_only {
                Some(basename) => if can_find {
                    call_tool(
                        "fs.find",
                        find_arguments_value(basename.as_str(), "file"),
                        "Resolve the basename first before reading file contents.",
                    )
                } else {
                    let mut text: String = "I need a more specific path for `".to_owned();
                    text.append(basename.as_str());
                    text.append("` before I can read it.");
                    ask_user(text.as_str())
                },
                None => ask_user("I still need a concrete file path before I can read it."),
            },
        }
    } else if str_eq(tool, "fs.find") {
        match &hints.basename_only {
            Some(basename) => call_tool(
                tool,
                find_arguments_value(basename.as_str(), "any"),
                "Resolve the basename inside the allowed workspace roots first.",
            ),
            None => ask_user("I still need a file or directory name to locate."),
        }
    } else {
        let mut text: String =
            "filesystem loop does not support the shortlisted tool `".to_owned();
        text.append(tool);
        text.append("`");
        fail(text.as_str())
    }
}

/// The path that the observation resolved.
pub open spec fn found_path(o: ToolObservationView) -> Option<Seq<char>> {
    if o.ok && o.tool_name == "fs.find"@ {
        o.data.member_text("resolved_path"@)
    } else {
        None
    }
}

/// The candidate that the reply selected.
pub open spec fn chosen_path(
    o: ToolObservationView,
    reply: Option<Seq<char>>,
    entries: Seq<Seq<char>>,
) -> Option<Seq<char>> {
    if !o.ok && o.error_type == Some("multiple_candidates"@) {
        match (reply, o.data.member_items("matches"@)) {
            (Some(reply), Some(items)) => selected(reply, texts_of(items), entries),
            _ => None,
        }
    } else {
        None
    }
}

/// The path whose kind decides the next step.
pub open spec fn target(
    o: ToolObservationView,
    reply: Option<Seq<char>>,
    entries: Seq<Seq<char>>,
) -> Option<Seq<char>> {
    match found_path(o) {
        Some(path) => Some(path),
        None => chosen_path(o, reply, entries),
    }
}

fn found_path_of(observation: &ToolObservation) -> (r: Option<String>)
    ensures
        opt_view(r) == found_path(observation@),
{
    if observation.ok && str_eq(observation.tool_name.as_str(), "fs.find") {
        match observation.data.get_str("resolved_path") {
            Some(path) => Some(path.to_owned()),
            None => None,
        }
    } else {
        None
    }
}

fn chosen_path_of(
    observation: &ToolObservation,
    user_reply: Option<&str>,
    workspace_entries: &Vec<String>,
) -> (r: Option<String>)
    ensures
        opt_view(r) == chosen_path(
            observation@,
            opt_str_view(user_reply),
            views(workspace_entries@),
        ),
{
    if observation.ok || !has_error_type(observation, "multiple_candidates") {
        return None;
    }
    match user_reply {
        None => None,
        Some(reply) => match observation.data.get_texts("matches") {
            None => None,
            Some(matches) => reply_selects_candidate(reply, &matches, workspace_entries),
        },
    }
}

/// The path whose kind decides the next step after an observation.
pub fn path_to_probe(
    observation: &ToolObservation,
    user_reply: Option<&str>,
    workspace_entries: &Vec<String>,
) -> (r: Option<String>)
    ensures
        opt_view(r) == target(observation@, opt_str_view(user_reply), views(workspace_entries@)),
{
    match found_path_of(observation) {
        Some(path) => Some(path),
        None => chosen_path_of(observation, user_reply, workspace_entries),
    }
}

pub open spec fn found_reasons() -> FollowUpReasons {
    FollowUpReasons {
        read: "fs.find returned a unique candidate; read the resolved file path.",
        exists: "fs.find returned a unique candidate; confirm that the resolved path exists.",
        list: "fs.find returned a unique candidate; list the resolved directory.",
        inspect: "fs.find returned a unique candidate; inspect the resolved path.",
    }
}

pub open spec fn chosen_reasons() -> FollowUpReasons {
    FollowUpReasons {
        read: "The user selected one candidate path; read that file.",
        exists: "The user selected one candidate path; confirm its existence.",
        list: "The user selected one candidate path; list that directory.",
        inspect: "The user selected one candidate path; inspect it directly.",
    }
}

/// The tools of the loop whose success answers the user.
pub open spec fn answers(tool: Seq<char>) -> bool {
    tool == "fs.find"@ || tool == "fs.read_text"@ || tool == "fs.list_dir"@ || tool
        == "fs.inspect"@ || tool == "fs.exists"@ || tool == "fs.glob"@
}

/// The name under which a missing path is looked for again.
pub open spec fn recovery_name(o: ToolObservationView, hints: HintsView) -> Option<Seq<char>> {
    let named = match o.data.member_text("path"@) {
        Some(path) => file_name(path),
        None => None,
    };
    match named {
        Some(name) => Some(name),
        None => hints.basename,
    }
}

/// A missing path can be looked for by its name.
pub open spec fn recovers(o: ToolObservationView, visible: Seq<Seq<char>>, budget: u32) -> bool {
    o.error_type == Some("path_not_found"@) && o.tool_name != "fs.find"@ && budget > 0
        && visible.contains("fs.find"@)
}

/// The step after an observation. The summary is what the user is told of it.
pub open spec fn step_after(
    goal: Seq<char>,
    visible: Seq<Seq<char>>,
    recovery_budget: u32,
    hints: HintsView,
    o: ToolObservationView,
    reply: Option<Seq<char>>,
    entries: Seq<Seq<char>>,
    kind: PathKind,
    summary: Seq<char>,
    missing: Seq<Seq<char>>,
) -> DecisionView {
    if o.ok {
        match found_path(o) {
            Some(path) => followed(follow_up(visible, kind), path, found_reasons()),
            None => if answers(o.tool_name) {
                answer(summary)
            } else {
                failure("unexpected filesystem observation from `"@ + o.tool_name + "`"@)
            },
        }
    } else if o.error_type == Some("multiple_candidates"@) {
        match chosen_path(o, reply, entries) {
            Some(path) => followed(follow_up(visible, kind), path, chosen_reasons()),
            None => question(payload_for(goal, o, missing).final_message),
        }
    } else if recovers(o, visible, recovery_budget) && recovery_name(o, hints) is Some {
        tool_call(
            "fs.find"@,
            find_arguments(recovery_name(o, hints)->0, find_kind(preferred(visible))),
            "Recover from a missing path by grounding the basename within the workspace."@,
        )
    } else {
        answer(summary)
    }
}

/// What an observation is answered with: the kind of the path that
/// `path_to_probe` gives, what the user is told of the observation, and the fields
/// that it lists as missing.
pub struct ObservationAnswer<'a> {
    pub kind: PathKind,
    pub summary: &'a str,
    pub missing_information: &'a Vec<String>,
}

pub fn next_step_from_observation(
    loop_state: &LoopState,
    hints: &GoalHints,
    observation: &ToolObservation,
    user_reply: Option<&str>,
    workspace_entries: &Vec<String>,
    given: &ObservationAnswer,
) -> (r: NextStepDecision)
    ensures
        r@ == step_after(
            loop_state.goal@,
            views(loop_state.visible_tools@),
            loop_state.remaining_recovery_budget,
            hints@,
            observation@,
            opt_str_view(user_reply),
            views(workspace_entries@),
            given.kind,
            given.summary@,
            views(given.missing_information@),
        ),
{
    if observation.ok {
        if let Some(path) = found_path_of(observation) {
            return follow(
                follow_up_tool_for_resolved_path(loop_state, given.kind),
                path.as_str(),
                FollowUpReasons {
                    read: "fs.find returned a unique candidate; read the resolved file path.",
                    exists:
                        "fs.find returned a unique candidate; confirm that the resolved path exists.",
                    list: "fs.find returned a unique candidate; list the resolved directory.",
                    inspect: "fs.find returned a unique candidate; inspect the resolved path.",
                },
            );
        }
        let tool: &str = observation.tool_name.as_str();
        if str_eq(tool, "fs.find") || str_eq(tool, "fs.read_text") || str_eq(tool, "fs.list_dir")
            || str_eq(tool, "fs.inspect") || str_eq(tool, "fs.exists") || str_eq(tool, "fs.glob") {
            return final_answer(given.summary);
        }
        let mut text: String = "unexpected filesystem observation from `".to_owned();
        text.append(tool);
        text.append("`");
        return fail(text.as_str());
    }
    if has_error_type(observation, "multiple_candidates") {
        if let Some(path) = chosen_path_of(observation, user_reply, workspace_entries) {
            return follow(
                follow_up_tool_for_resolved_path(loop_state, given.kind),
                path.as_str(),
                FollowUpReasons {
                    read: "The user selected one candidate path; read that file.",
                    exists: "The user selected one candidate path; confirm its existence.",
                    list: "The user selected one candidate path; list that directory.",
                    inspect: "The user selected one candidate path; inspect it directly.",
                },
            );
        }
        let payload: AskUserPayload = ask_user_from_observation(
            loop_state.goal.as_str(),
            observation,
            given.missing_information,
        );
        return ask_user(payload.final_message.as_str());
    }
    if has_error_type(observation, "path_not_found") && !str_eq(
        observation.tool_name.as_str(),
        "fs.find",
    ) && loop_state.remaining_recovery_budget > 0 && tool_visible(loop_state, "fs.find") {
        let named: Option<String> = match observation.data.get_str("path") {
            Some(path) => file_name_from_path(path),
            None => None,
        };
        let name: Option<String> = match named {
            Some(name) => Some(name),
            None => clone_opt(&hints.basename_only),
        };
        if let Some(name) = name {
            return call_tool(
                "fs.find",
                find_arguments_value(
                    name.as_str(),
                    find_kind_for_preferred_tool(preferred_tool(loop_state)),
                ),
                "Recover from a missing path by grounding the basename within the workspace.",
            );
        }
    }
    final_answer(given.summary)
}

/// The text that names the user's target: the reply, or the goal.
pub open spec fn grounding_text(goal: Seq<char>, reply: Option<Seq<char>>) -> Seq<char> {
    match reply {
        Some(reply) => reply,
        None => goal,
    }
}

/// The step that is settled without a model.
pub open spec fn settled_step(
    state: LoopState,
    reply: Option<Seq<char>>,
    entries: Seq<Seq<char>>,
    given: ObservationAnswer,
) -> DecisionView {
    let hints = hints_of(grounding_text(state.goal@, reply), entries);
    match state.last_observation {
        Some(o) => step_after(
            state.goal@,
            views(state.visible_tools@),
            state.remaining_recovery_budget,
            hints,
            o@,
            reply,
            entries,
            given.kind,
            given.summary@,
            views(given.missing_information@),
        ),
        None => first_step(views(state.visible_tools@), hints),
    }
}

pub fn deterministic_next_step(
    loop_state: &LoopState,
    user_reply: Option<&str>,
    workspace_entries: &Vec<String>,
    given: &ObservationAnswer,
) -> (r: NextStepDecision)
    ensures
        r@ == settled_step(
            *loop_state,
            opt_str_view(user_reply),
            views(workspace_entries@),
            *given,
        ),
{
    let grounding_input: &str = match user_reply {
        Some(reply) => reply,
        None => loop_state.goal.as_str(),
    };
    let hints: GoalHints = GoalHints::from_goal(grounding_input, workspace_entries);
    match &loop_state.last_observation {
        Some(observation) => next_step_from_observation(
            loop_state,
            &hints,
            observation,
            user_reply,
            workspace_entries,
            given,
        ),
        None => initial_next_step(loop_state, &hints),
    }
}

/// The arguments that a tool needs.
pub open spec fn required_keys(tool: Seq<char>) -> Seq<Seq<char>> {
    if tool == "fs.find"@ {
        seq!["name"@]
    } else if tool == "fs.inspect"@ || tool == "fs.list_dir"@ || tool == "fs.read_text"@ || tool
        == "fs.exists"@ {
        seq!["path"@]
    } else if tool == "fs.glob"@ {
        seq!["pattern"@]
    } else {
        seq![]
    }
}

pub fn filesystem_required_argument_keys(tool_name: &str) -> (r: Vec<String>)
    ensures
        views(r@) == required_keys(tool_name@),
{
    let mut keys: Vec<String> = Vec::new();
    if str_eq(tool_name, "fs.find") {
        keys.push("name".to_owned());
    } else if str_eq(tool_name, "fs.inspect") || str_eq(tool_name, "fs.list_dir") || str_eq(
        tool_name,
        "fs.read_text",
    ) || str_eq(tool_name, "fs.exists") {
        keys.push("path".to_owned());
    } else if str_eq(tool_name, "fs.glob") {
        keys.push("pattern".to_owned());
    }
    assert(views(keys@) =~= required_keys(tool_name@));
    keys
}

/// All of the names are members of the value.
pub open spec fn has_members(value: JsonView, names: Seq<Seq<char>>) -> bool {
    forall|i: int| 0 <= i < names.len() ==> value.member(#[trigger] names[i]) is Some
}

/// A decision of the model that the loop can carry out: a tool call must be of a
/// visible tool, with all its arguments.
pub open spec fn acceptable(d: DecisionView, visible: Seq<Seq<char>>) -> bool {
    d.action == NextStepAction::CallTool ==> match (d.tool_name, d.arguments) {
        (Some(tool), Some(arguments)) => visible.contains(tool) && arguments is Object
            && has_members(arguments, required_keys(tool)),
        _ => false,
    }
}

fn holds_members(value: &Json, names: &Vec<String>) -> (r: bool)
    ensures
        r == has_members(value@, views(names@)),
{
    let ghost all = views(names@);
    let mut i: usize = 0;
    while i < names.len()
        invariant
            i <= names.len(),
            all == views(names@),
            forall|j: int| 0 <= j < i ==> value@.member(#[trigger] all[j]) is Some,
        decreases names.len() - i,
    {
        assert(all[i as int] == names@[i as int]@);
        if value.get(names[i].as_str()).is_none() {
            return false;
        }
        i = i + 1;
    }
    true
}

pub fn validate_router_decision(loop_state: &LoopState, decision: NextStepDecision) -> (r: Option<
    NextStepDecision,
>)
    ensures
        r == (if acceptable(decision@, views(loop_state.visible_tools@)) {
            Some(decision)
        } else {
            None
        }),
{
    let calls: bool = match decision.action {
        NextStepAction::CallTool => true,
        _ => false,
    };
    if calls {
        let fits: bool = match (&decision.tool_name, &decision.arguments) {
            (Some(tool), Some(arguments)) => {
                let keys: Vec<String> = filesystem_required_argument_keys(tool.as_str());
                list_has(&loop_state.visible_tools, tool.as_str()) && arguments.is_object()
                    && holds_members(arguments, &keys)
            },
            _ => false,
        };
        if !fits {
            return None;
        }
    }
    Some(decision)
}

/// The model is asked for the first step unless the user gave a bare name that can
/// be looked for.
pub open spec fn asks_model(
    state: LoopState,
    reply: Option<Seq<char>>,
    entries: Seq<Seq<char>>,
) -> bool {
    let hints = hints_of(grounding_text(state.goal@, reply), entries);
    state.last_observation is None && !(hints.basename is Some && views(
        state.visible_tools@,
    ).contains("fs.find"@))
}

pub fn router_is_asked(
    loop_state: &LoopState,
    user_reply: Option<&str>,
    workspace_entries: &Vec<String>,
) -> (r: bool)
    ensures
        r == asks_model(*loop_state, opt_str_view(user_reply), views(workspace_entries@)),
{
    if loop_state.last_observation.is_some() {
        return false;
    }
    let grounding_input: &str = match user_reply {
        Some(reply) => reply,
        None => loop_state.goal.as_str(),
    };
    let hints: GoalHints = GoalHints::from_goal(grounding_input, workspace_entries);
    !(hints.basename_only.is_some() && tool_visible(loop_state, "fs.find"))
}

/// The next step, given what the model decided where it was asked.
pub fn decide_filesystem_next_step(
    loop_state: &LoopState,
    user_reply: Option<&str>,
    workspace_entries: &Vec<String>,
    given: &ObservationAnswer,
    router_decision: Option<NextStepDecision>,
) -> (r: NextStepDecision)
    ensures
        r@ == (match router_decision {
            Some(d) if asks_model(
                *loop_state,
                opt_str_view(user_reply),
                views(workspace_entries@),
            ) && acceptable(d@, views(loop_state.visible_tools@)) => d@,
            _ => settled_step(
                *loop_state,
                opt_str_view(user_reply),
                views(workspace_entries@),
                *given,
            ),
        }),
{
    if router_is_asked(loop_state, user_reply, workspace_entries) {
        if let Some(proposed) = router_decision {
            if let Some(decision) = validate_router_decision(loop_state, proposed) {
                return decision;
            }
        }
    }
    deterministic_next_step(loop_state, user_reply, workspace_entries, given)
}

/// The directory that an observation moves the loop into.
pub open spec fn moved_to(o: ToolObservationView, current: Seq<char>) -> Option<Seq<char>> {
    if o.ok && o.tool_name == "fs.inspect"@ && o.data.member_text("kind"@) == Some("directory"@) {
        match o.data.member_text("path"@) {
            Some(path) if path.len() > 0 && path != current => Some(path),
            _ => None,
        }
    } else {
        None
    }
}

pub fn next_working_directory_from_observation(
    observation: &ToolObservation,
    current_working_directory: &str,
) -> (r: Option<String>)
    ensures
        opt_view(r) == moved_to(observation@, current_working_directory@),
{
    if !observation.ok || !str_eq(observation.tool_name.as_str(), "fs.inspect") {
        return None;
    }
    let is_directory: bool = match observation.data.get_str("kind") {
        Some(kind) => str_eq(kind, "directory"),
        None => false,
    };
    if !is_directory {
        return None;
    }
    match observation.data.get_str("path") {
        Some(path) => if !path.is_empty() && !str_eq(path, current_working_directory) {
            Some(path.to_owned())
        } else {
            None
        },
        None => None,
    }
}

} // verus!
