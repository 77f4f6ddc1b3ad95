//! What the next-step model is shown of a loop.

use crate::decision::RouteDecision;
use crate::number::{decimal, push_decimal};
use crate::observation::{
    steps_view, ResourceSelector, StepAction, StepObservation, StepObservationView, StepRecord,
    StepView, ToolObservation, ToolObservationView,
};
use crate::split::{clone_list, join_text, lemma_views_push, words_text};
use crate::state::{clone_tool, opt_tool, LoopContext, LoopState, LoopStatus};
use crate::text::{chars_of, join, string_from, views, words};
use vstd::prelude::*;

verus! {

/// How many steps the digest shows.
pub const DIGEST_STEPS: usize = 4;

/// How many characters of a text are shown.
pub const COMPACT_TEXT_CHARS: usize = 160;

/// A text on one line, cut to size.
pub open spec fn compact(text: Seq<char>) -> Seq<char> {
    let flat = join(words(text), " "@);
    if flat.len() <= 160 {
        flat
    } else {
        flat.take(157) + "..."@
    }
}

pub fn compact_text(text: &str) -> (r: String)
    ensures
        r@ == compact(text@),
{
    let parts: Vec<String> = words_text(text);
    let flat: String = join_text(&parts, " ");
    let chars: Vec<char> = chars_of(flat.as_str());
    if chars.len() <= COMPACT_TEXT_CHARS {
        return flat;
    }
    let mut out: String = string_from(&chars, 0, 157);
    assert(out@ =~= flat@.take(157));
    out.append("...");
    out
}

pub open spec fn action_name(action: StepAction) -> Seq<char> {
    match action {
        StepAction::CallTool => "call_tool"@,
        StepAction::AskUser => "ask_user"@,
        StepAction::FinalAnswer => "final_answer"@,
        StepAction::Fail => "fail"@,
        StepAction::Stop => "stop"@,
        StepAction::CompactBoundary => "compact_boundary"@,
    }
}

fn action_text(action: StepAction) -> (r: &'static str)
    ensures
        r@ == action_name(action),
{
    match action {
        StepAction::CallTool => "call_tool",
        StepAction::AskUser => "ask_user",
        StepAction::FinalAnswer => "final_answer",
        StepAction::Fail => "fail",
        StepAction::Stop => "stop",
        StepAction::CompactBoundary => "compact_boundary",
    }
}

pub open spec fn bool_text(b: bool) -> Seq<char> {
    if b {
        "true"@
    } else {
        "false"@
    }
}

/// An observation in one line.
pub open spec fn observation_digest(o: StepObservationView) -> Seq<char> {
    match o {
        StepObservationView::Tool(t) => "observation=tool ok="@ + bool_text(t.ok) + " terminal="@
            + bool_text(t.terminal) + " message="@ + compact(t.message),
        StepObservationView::AskUser { final_message } => "observation=ask_user message="@
            + compact(final_message),
        StepObservationView::FinalMessage { final_message } => "observation=final_message message="@
            + compact(final_message),
    }
}

fn push_bool(out: &mut String, b: bool)
    ensures
        final(out)@ == old(out)@ + bool_text(b),
{
    if b {
        out.append("true");
    } else {
        out.append("false");
    }
}

pub fn render_observation_digest(observation: &StepObservation) -> (r: String)
    ensures
        r@ == observation_digest(observation@),
{
    match observation {
        StepObservation::Tool(t) => {
            let mut out: String = "observation=tool ok=".to_owned();
            push_bool(&mut out, t.ok);
            out.append(" terminal=");
            push_bool(&mut out, t.terminal);
            out.append(" message=");
            let message: String = compact_text(t.message.as_str());
            out.append(message.as_str());
            out
        },
        StepObservation::AskUser { final_message } => {
            let mut out: String = "observation=ask_user message=".to_owned();
            let message: String = compact_text(final_message.as_str());
            out.append(message.as_str());
            out
        },
        StepObservation::FinalMessage { final_message } => {
            let mut out: String = "observation=final_message message=".to_owned();
            let message: String = compact_text(final_message.as_str());
            out.append(message.as_str());
            out
        },
    }
}

/// A step in one line.
pub open spec fn step_digest(step: StepView) -> Seq<char> {
    "- step "@ + decimal(step.step_index as nat) + ": action="@ + action_name(step.action)
        + " tool="@ + (match step.tool_name {
        Some(name) => name,
        None => "none"@,
    }) + " reason="@ + compact(step.decision_reason) + " "@ + (match step.observation {
        Some(o) => observation_digest(o),
        None => "observation=none"@,
    })
}

pub fn render_step_digest_line(step: &StepRecord) -> (r: String)
    ensures
        r@ == step_digest(step@),
{
    let mut out: String = "- step ".to_owned();
    push_decimal(&mut out, step.step_index as u64);
    out.append(": action=");
    out.append(action_text(step.action));
    out.append(" tool=");
    match &step.tool_name {
        Some(name) => out.append(name.as_str()),
        None => out.append("none"),
    }
    out.append(" reason=");
    let reason: String = compact_text(step.decision_reason.as_str());
    out.append(reason.as_str());
    out.append(" ");
    match &step.observation {
        Some(o) => {
            let digest: String = render_observation_digest(o);
            out.append(digest.as_str());
        },
        None => out.append("observation=none"),
    }
    out
}

/// The lines on the steps, or the line that there are none.
pub open spec fn step_lines(steps: Seq<StepView>) -> Seq<Seq<char>> {
    if steps.len() == 0 {
        seq!["- none"@]
    } else {
        steps.map_values(|s: StepView| step_digest(s))
    }
}

/// The items, each as a line of a list, or the line that there are none.
pub open spec fn item_lines(items: Seq<Seq<char>>) -> Seq<Seq<char>> {
    if items.len() == 0 {
        seq!["- none"@]
    } else {
        items.map_values(|s: Seq<char>| "- "@ + s)
    }
}

/// The last steps of the history.
pub open spec fn recent(steps: Seq<StepView>) -> Seq<StepView> {
    if steps.len() <= 4 {
        steps
    } else {
        steps.skip(steps.len() - 4)
    }
}

/// The digest of recent steps and of what is open.
pub open spec fn digest(
    steps: Seq<StepView>,
    blockers: Seq<Seq<char>>,
    assumptions: Seq<Seq<char>>,
) -> Seq<char> {
    join(
        seq!["Recent steps:"@] + step_lines(recent(steps)) + seq!["Unresolved blockers:"@]
            + item_lines(blockers) + seq!["Working assumptions:"@] + item_lines(assumptions),
        "\n"@,
    )
}

fn push_line(lines: &mut Vec<String>, line: &str)
    ensures
        views(final(lines)@) == views(old(lines)@) + seq![line@],
{
    let ghost before = views(lines@);
    let s: String = line.to_owned();
    proof {
        lemma_views_push(lines@, s);
    }
    lines.push(s);
    assert(views(lines@) =~= before + seq![line@]);
}

fn push_items(lines: &mut Vec<String>, items: &Vec<String>)
    ensures
        views(final(lines)@) == views(old(lines)@) + item_lines(views(items@)),
{
    let ghost before = views(lines@);
    let ghost all = views(items@);
    assert(all.len() == items@.len());
    if items.len() == 0 {
        push_line(lines, "- none");
        return ;
    }
    let mut i: usize = 0;
    assert(before =~= before + item_lines(all).take(0));
    while i < items.len()
        invariant
            i <= items.len(),
            items.len() > 0,
            all == views(items@),
            all.len() == items@.len(),
            views(lines@) == before + item_lines(all).take(i as int),
        decreases items.len() - i,
    {
        let mut line: String = "- ".to_owned();
        line.append(items[i].as_str());
        assert(item_lines(all)[i as int] == line@);
        push_line(lines, line.as_str());
        assert(before + item_lines(all).take(i as int) + seq![line@] =~= before + item_lines(
            all,
        ).take(i + 1));
        i = i + 1;
    }
    assert(item_lines(all).take(i as int) =~= item_lines(all));
}

fn push_steps(lines: &mut Vec<String>, history: &Vec<StepRecord>)
    ensures
        views(final(lines)@) == views(old(lines)@) + step_lines(recent(steps_view(history@))),
{
    let ghost before = views(lines@);
    let ghost steps = recent(steps_view(history@));
    if history.len() == 0 {
        push_line(lines, "- none");
        return ;
    }
    let from: usize = if history.len() <= DIGEST_STEPS {
        0
    } else {
        history.len() - DIGEST_STEPS
    };
    let mut i: usize = from;
    assert(before =~= before + step_lines(steps).take(0));
    while i < history.len()
        invariant
            from <= i <= history.len(),
            history.len() > 0,
            from == (if history.len() <= 4 {
                0
            } else {
                history.len() - 4
            }),
            steps == recent(steps_view(history@)),
            steps.len() == history.len() - from,
            views(lines@) == before + step_lines(steps).take(i - from),
        decreases history.len() - i,
    {
        assert(steps[i - from] == history@[i as int]@);
        let line: String = render_step_digest_line(&history[i]);
        assert(step_lines(steps)[i - from] == line@);
        push_line(lines, line.as_str());
        assert(before + step_lines(steps).take(i - from) + seq![line@] =~= before + step_lines(
            steps,
        ).take(i - from + 1));
        i = i + 1;
    }
    assert(step_lines(steps).take(i - from) =~= step_lines(steps));
}

pub fn history_digest(
    loop_state: &LoopState,
    unresolved_blockers: &Vec<String>,
    working_assumptions: &Vec<String>,
) -> (r: String)
    ensures
        r@ == digest(
            steps_view(loop_state.history@),
            views(unresolved_blockers@),
            views(working_assumptions@),
        ),
{
    let mut lines: Vec<String> = Vec::new();
    assert(views(lines@) =~= seq![]);
    push_line(&mut lines, "Recent steps:");
    push_steps(&mut lines, &loop_state.history);
    push_line(&mut lines, "Unresolved blockers:");
    push_items(&mut lines, unresolved_blockers);
    push_line(&mut lines, "Working assumptions:");
    push_items(&mut lines, working_assumptions);
    assert(views(lines@) =~= seq!["Recent steps:"@] + step_lines(
        recent(steps_view(loop_state.history@)),
    ) + seq!["Unresolved blockers:"@] + item_lines(views(unresolved_blockers@))
        + seq!["Working assumptions:"@] + item_lines(views(working_assumptions@)));
    join_text(&lines, "\n")
}

/// What stands in the way: a failed observation that is not the end, and a pause.
pub open spec fn blockers_of(
    observation: Option<ToolObservationView>,
    status: LoopStatus,
) -> Seq<Seq<char>> {
    let none = Seq::<Seq<char>>::empty();
    (match observation {
        Some(o) if !o.ok && !o.terminal => seq![
            "Latest observation may need follow-up: error_type="@ + (match o.error_type {
                Some(e) => e,
                None => "unknown_error"@,
            }) + " message="@ + compact(o.message),
        ],
        _ => none,
    }) + (if status == LoopStatus::AwaitingUser {
        seq!["The loop is awaiting a user reply and should continue from the existing state."@]
    } else {
        none
    })
}

pub fn unresolved_blockers(loop_state: &LoopState) -> (r: Vec<String>)
    ensures
        views(r@) == blockers_of(opt_tool(loop_state.last_observation), loop_state.status),
{
    let mut blockers: Vec<String> = Vec::new();
    assert(views(blockers@) =~= seq![]);
    if let Some(o) = &loop_state.last_observation {
        if !o.ok && !o.terminal {
            let mut line: String = "Latest observation may need follow-up: error_type=".to_owned();
            match &o.error_type {
                Some(e) => line.append(e.as_str()),
                None => line.append("unknown_error"),
            }
            line.append(" message=");
            let message: String = compact_text(o.message.as_str());
            line.append(message.as_str());
            push_line(&mut blockers, line.as_str());
        }
    }
    let waits: bool = match loop_state.status {
        LoopStatus::AwaitingUser => true,
        _ => false,
    };
    if waits {
        push_line(
            &mut blockers,
            "The loop is awaiting a user reply and should continue from the existing state.",
        );
    }
    assert(views(blockers@) =~= blockers_of(
        opt_tool(loop_state.last_observation),
        loop_state.status,
    ));
    blockers
}

/// What may be taken for granted for now.
pub open spec fn assumptions_of(
    observation: Option<ToolObservationView>,
    visible: Seq<Seq<char>>,
) -> Seq<Seq<char>> {
    let none = Seq::<Seq<char>>::empty();
    (match observation {
        Some(o) if o.ok && !o.terminal => seq![
            "The latest successful observation may still require another explicit tool step before completion."@,
        ],
        _ => none,
    }) + (if visible.len() > 0 {
        seq![
            "Any next tool call must stay within the currently visible tool set: "@ + join(
                visible,
                ", "@,
            ) + "."@,
        ]
    } else {
        none
    })
}

pub fn working_assumptions(loop_state: &LoopState) -> (r: Vec<String>)
    ensures
        views(r@) == assumptions_of(
            opt_tool(loop_state.last_observation),
            views(loop_state.visible_tools@),
        ),
{
    let mut assumptions: Vec<String> = Vec::new();
    assert(views(assumptions@) =~= seq![]);
    if let Some(o) = &loop_state.last_observation {
        if o.ok && !o.terminal {
            push_line(
                &mut assumptions,
                "The latest successful observation may still require another explicit tool step before completion.",
            );
        }
    }
    assert(views(loop_state.visible_tools@).len() == loop_state.visible_tools@.len());
    if loop_state.visible_tools.len() > 0 {
        let list: String = join_text(&loop_state.visible_tools, ", ");
        let mut line: String =
            "Any next tool call must stay within the currently visible tool set: ".to_owned();
        line.append(list.as_str());
        line.append(".");
        push_line(&mut assumptions, line.as_str());
    }
    assert(views(assumptions@) =~= assumptions_of(
        opt_tool(loop_state.last_observation),
        views(loop_state.visible_tools@),
    ));
    assumptions
}

/// What the next-step model is shown of a loop.
#[derive(Debug)]
pub struct ContextProjection {
    pub goal: String,
    pub intent_family: String,
    pub working_directory: String,
    pub remaining_step_budget: u32,
    pub remaining_recovery_budget: u32,
    pub visible_tools: Vec<String>,
    pub last_observation: Option<ToolObservation>,
    pub history_digest: String,
    pub unresolved_blockers: Vec<String>,
    pub working_assumptions: Vec<String>,
}

pub fn build_context_projection(loop_state: &LoopState) -> (r: ContextProjection)
    ensures
        r.goal@ == loop_state.goal@,
        r.intent_family@ == loop_state.route_decision.intent_family.name(),
        r.working_directory@ == loop_state.working_directory@,
        r.remaining_step_budget == loop_state.remaining_step_budget,
        r.remaining_recovery_budget == loop_state.remaining_recovery_budget,
        views(r.visible_tools@) == views(loop_state.visible_tools@),
        opt_tool(r.last_observation) == opt_tool(loop_state.last_observation),
        views(r.unresolved_blockers@) == blockers_of(
            opt_tool(loop_state.last_observation),
            loop_state.status,
        ),
        views(r.working_assumptions@) == assumptions_of(
            opt_tool(loop_state.last_observation),
            views(loop_state.visible_tools@),
        ),
        r.history_digest@ == digest(
            steps_view(loop_state.history@),
            views(r.unresolved_blockers@),
            views(r.working_assumptions@),
        ),
{
    let blockers: Vec<String> = unresolved_blockers(loop_state);
    let assumptions: Vec<String> = working_assumptions(loop_state);
    let digest: String = history_digest(loop_state, &blockers, &assumptions);
    ContextProjection {
        goal: loop_state.goal.clone(),
        intent_family: loop_state.route_decision.intent_family.as_str().to_owned(),
        working_directory: loop_state.working_directory.clone(),
        remaining_step_budget: loop_state.remaining_step_budget,
        remaining_recovery_budget: loop_state.remaining_recovery_budget,
        visible_tools: clone_list(&loop_state.visible_tools),
        last_observation: clone_tool(&loop_state.last_observation),
        history_digest: digest,
        unresolved_blockers: blockers,
        working_assumptions: assumptions,
    }
}

/// Every text is shown with at most 160 characters.
pub proof fn law_compact_text_is_short(text: Seq<char>)
    ensures
        compact(text).len() <= 160,
{
    reveal_strlit("...");
}

/// What a loop starts from, in the given directory.
pub fn build_loop_context(
    request_id: &str,
    session_id: &str,
    goal: &str,
    current_directory: Option<&str>,
    route_decision: &RouteDecision,
    visible_tools: Vec<String>,
    bound_resources: Vec<ResourceSelector>,
) -> (r: LoopContext)
    ensures
        r.request_id@ == request_id@,
        r.session_id@ == session_id@,
        r.goal@ == goal@,
        r.workspace_root@ == (match current_directory {
            Some(d) => d@,
            None => "."@,
        }),
        r.working_directory@ == r.workspace_root@,
        r.visible_tools == visible_tools,
        r.bound_resources == bound_resources,
        r.route_decision@ == route_decision@,
        r.last_observation is None,
{
    let working_directory: &str = match current_directory {
        Some(d) => d,
        None => ".",
    };
    LoopContext {
        request_id: request_id.to_owned(),
        session_id: session_id.to_owned(),
        goal: goal.to_owned(),
        workspace_root: working_directory.to_owned(),
        working_directory: working_directory.to_owned(),
        visible_tools,
        bound_resources,
        route_decision: route_decision.clone(),
        last_observation: None,
    }
}

} // verus!
