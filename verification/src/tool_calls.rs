//! The tool calls of a turn: which of them the loop answers itself, and what each of
//! them is answered.

use crate::approval::ApprovalDecision;
use crate::bytes::{byte_count, byte_len};
use crate::compact_laws::{answers, asks_for, paired};
use crate::events::{emit, events_view, EventView, LoopEvent};
use crate::json::{Json, JsonView};
use crate::json_text::{json_text, render_json};
use crate::loop_event::{args_summary, result_summary, summarize_tool_args, summarize_tool_result};
use crate::message::{
    lemma_messages_push, messages_view, Message, MessageView, ToolCallBlock, ToolCallView,
};
use crate::number::{decimal, push_decimal};
use crate::observation::{
    clone_selectors, selectors_view, DecisionView, NextStepAction, NextStepDecision,
    ResourceSelector, StepAction, StepObservation, StepObservationView, StepRecord, StepView,
    ToolObservation,
};
use crate::split::{clone_list, clone_opt, join_text, lemma_views_push, list_has};
use crate::state::{opt_tool, DeferredTools, LoopState};
use crate::text::{join, starts_with, starts_with_text, str_eq, views};
use crate::visible::{
    PSEUDO_AGENT, PSEUDO_TASK_CREATE, PSEUDO_TASK_GET, PSEUDO_TASK_LIST, PSEUDO_TASK_UPDATE,
    PSEUDO_TOOL_SEARCH,
};
use vstd::prelude::*;

verus! {

/// What is done with a tool call.
#[derive(Debug, Clone, Copy, PartialEq, Eq, Structural)]
pub enum ToolDispatch {
    /// The approval gate has denied it.
    Denied,
    /// It loads a tool's schema.
    ToolSearch,
    /// It goes to the task store.
    TaskTool,
    /// It starts another agent.
    Agent,
    /// The tool runs.
    Run,
}

pub open spec fn is_task_tool(name: Seq<char>) -> bool {
    name == PSEUDO_TASK_CREATE@ || name == PSEUDO_TASK_UPDATE@ || name == PSEUDO_TASK_LIST@ || name
        == PSEUDO_TASK_GET@
}

/// What is done with a call of that tool. A denied call goes no further, whatever
/// the tool.
pub open spec fn dispatch_of(name: Seq<char>, denied: bool) -> ToolDispatch {
    if denied {
        ToolDispatch::Denied
    } else if name == PSEUDO_TOOL_SEARCH@ {
        ToolDispatch::ToolSearch
    } else if is_task_tool(name) {
        ToolDispatch::TaskTool
    } else if name == PSEUDO_AGENT@ {
        ToolDispatch::Agent
    } else {
        ToolDispatch::Run
    }
}

pub fn dispatch_tool_call(tool_name: &str, decision: &ApprovalDecision) -> (r: ToolDispatch)
    ensures
        r == dispatch_of(tool_name@, decision is Deny),
{
    match decision {
        ApprovalDecision::Deny(_) => {
            return ToolDispatch::Denied;
        },
        ApprovalDecision::Approve => {},
    }
    if str_eq(tool_name, PSEUDO_TOOL_SEARCH) {
        ToolDispatch::ToolSearch
    } else if str_eq(tool_name, PSEUDO_TASK_CREATE) || str_eq(tool_name, PSEUDO_TASK_UPDATE)
        || str_eq(tool_name, PSEUDO_TASK_LIST) || str_eq(tool_name, PSEUDO_TASK_GET) {
        ToolDispatch::TaskTool
    } else if str_eq(tool_name, PSEUDO_AGENT) {
        ToolDispatch::Agent
    } else {
        ToolDispatch::Run
    }
}

pub open spec fn one_less(budget: u32) -> u32 {
    if budget == 0 {
        0
    } else {
        (budget - 1) as u32
    }
}

/// The answer to a call.
pub open spec fn tool_result(id: Seq<char>, content: Seq<char>, is_error: bool) -> MessageView {
    MessageView::ToolResult { tool_use_id: id, content, is_error }
}

/// Answers a call.
pub fn push_tool_result(messages: &mut Vec<Message>, id: &str, content: String, is_error: bool)
    ensures
        messages_view(final(messages)@) == messages_view(old(messages)@).push(
            tool_result(id@, content@, is_error),
        ),
        final(messages).len() == old(messages).len() + 1,
{
    let message: Message = Message::ToolResult { tool_use_id: id.to_owned(), content, is_error };
    proof {
        lemma_messages_push(messages@, message);
    }
    messages.push(message);
}

/// Answers a call that the approval gate has denied. It costs a step.
pub fn answer_denied(
    loop_state: &mut LoopState,
    messages: &mut Vec<Message>,
    id: &str,
    reason: &str,
)
    ensures
        *final(loop_state) == (LoopState {
            remaining_step_budget: one_less(old(loop_state).remaining_step_budget),
            ..*old(loop_state)
        }),
        messages_view(final(messages)@) == messages_view(old(messages)@).push(
            tool_result(id@, "[Tool denied] "@ + reason@, true),
        ),
{
    loop_state.remaining_step_budget = loop_state.remaining_step_budget.saturating_sub(1);
    let mut content: String = "[Tool denied] ".to_owned();
    content.append(reason);
    push_tool_result(messages, id, content, true);
}

/// The tool is withheld and not loaded yet.
pub open spec fn loads(deferred: Option<DeferredTools>, wanted: Seq<char>) -> bool {
    deferred matches Some(d) && views(d.deferred_names@).contains(wanted) && !views(
        d.loaded_names@,
    ).contains(wanted)
}

/// What a search for that tool is answered.
pub open spec fn search_answer(deferred: Option<DeferredTools>, wanted: Seq<char>) -> Seq<char> {
    match deferred {
        Some(d) => if views(d.deferred_names@).contains(wanted) {
            "Tool '"@ + wanted + "' schema will be available in the next turn."@
        } else {
            "Tool '"@ + wanted + "' is not in the deferred list. Available deferred tools: "@
                + join(views(d.deferred_names@), ", "@)
        },
        None => "All tools are already loaded. '"@ + wanted + "' is available."@,
    }
}

pub open spec fn wanted_tool(arguments: JsonView) -> Seq<char> {
    match arguments.member_text("tool_name"@) {
        Some(name) => name,
        None => ""@,
    }
}

/// The withheld tools and those loaded, after a search.
pub open spec fn deferred_after(
    before: Option<DeferredTools>,
    wanted: Seq<char>,
    after: Option<DeferredTools>,
) -> bool {
    match (before, after) {
        (Some(b), Some(a)) => a.deferred_names == b.deferred_names && views(a.loaded_names@) == (
        if loads(before, wanted) {
            views(b.loaded_names@).push(wanted)
        } else {
            views(b.loaded_names@)
        }),
        (None, None) => true,
        _ => false,
    }
}

/// Answers a search for a withheld tool, whose schema the next turn sends. It costs
/// a step.
pub fn answer_tool_search(
    loop_state: &mut LoopState,
    messages: &mut Vec<Message>,
    call: &ToolCallBlock,
)
    ensures
        ({
            let wanted = wanted_tool(call@.arguments);
            &&& *final(loop_state) == (LoopState {
                remaining_step_budget: one_less(old(loop_state).remaining_step_budget),
                deferred_tools: final(loop_state).deferred_tools,
                tool_schema_dirty: old(loop_state).tool_schema_dirty || loads(
                    old(loop_state).deferred_tools,
                    wanted,
                ),
                ..*old(loop_state)
            })
            &&& deferred_after(
                old(loop_state).deferred_tools,
                wanted,
                final(loop_state).deferred_tools,
            )
            &&& messages_view(final(messages)@) == messages_view(old(messages)@).push(
                tool_result(
                    call@.id,
                    search_answer(old(loop_state).deferred_tools, wanted),
                    false,
                ),
            )
        }),
{
    loop_state.remaining_step_budget = loop_state.remaining_step_budget.saturating_sub(1);
    let wanted: &str = match call.arguments.get_str("tool_name") {
        Some(name) => name,
        None => "",
    };
    let mut answer: String = String::new();
    let mut load: bool = false;
    match &loop_state.deferred_tools {
        Some(deferred) => {
            if list_has(&deferred.deferred_names, wanted) {
                load = !list_has(&deferred.loaded_names, wanted);
                answer.append("Tool '");
                answer.append(wanted);
                answer.append("' schema will be available in the next turn.");
                assert(answer@ =~= "Tool '"@ + wanted@
                    + "' schema will be available in the next turn."@);
            } else {
                answer.append("Tool '");
                answer.append(wanted);
                answer.append("' is not in the deferred list. Available deferred tools: ");
                let names: String = join_text(&deferred.deferred_names, ", ");
                answer.append(names.as_str());
                assert(answer@ =~= "Tool '"@ + wanted@
                    + "' is not in the deferred list. Available deferred tools: "@ + join(
                    views(deferred.deferred_names@),
                    ", "@,
                ));
            }
        },
        None => {
            answer.append("All tools are already loaded. '");
            answer.append(wanted);
            answer.append("' is available.");
            assert(answer@ =~= "All tools are already loaded. '"@ + wanted@ + "' is available."@);
        },
    }
    if load {
        let taken: Option<DeferredTools> = loop_state.deferred_tools.take();
        match taken {
            Some(deferred) => {
                let mut loaded: Vec<String> = deferred.loaded_names;
                let name: String = wanted.to_owned();
                proof {
                    lemma_views_push(loaded@, name);
                }
                loaded.push(name);
                loop_state.deferred_tools = Some(
                    DeferredTools { deferred_names: deferred.deferred_names, loaded_names: loaded },
                );
            },
            None => {},
        }
        loop_state.mark_tool_schema_dirty();
    }
    push_tool_result(messages, call.id.as_str(), answer, false);
}

/// Answers a call to the task store. It costs a step, and an answer that begins so
/// is an error.
pub fn answer_task_tool(
    loop_state: &mut LoopState,
    messages: &mut Vec<Message>,
    id: &str,
    answer: String,
)
    ensures
        *final(loop_state) == (LoopState {
            remaining_step_budget: one_less(old(loop_state).remaining_step_budget),
            ..*old(loop_state)
        }),
        messages_view(final(messages)@) == messages_view(old(messages)@).push(
            tool_result(id@, answer@, starts_with(answer@, "Error:"@)),
        ),
{
    loop_state.remaining_step_budget = loop_state.remaining_step_budget.saturating_sub(1);
    let is_error: bool = starts_with_text(answer.as_str(), "Error:");
    push_tool_result(messages, id, answer, is_error);
}

pub open spec fn start_event(step: u32, call: ToolCallView) -> EventView {
    EventView::ToolStart {
        step,
        tool_name: call.name,
        args_summary: args_summary(call.name, call.arguments),
        agent_id: None,
    }
}

/// Tells that a tool is about to run.
pub fn begin_tool_run(call: &ToolCallBlock, step: u32, events: &mut Vec<LoopEvent>)
    ensures
        events_view(final(events)@) == events_view(old(events)@).push(start_event(step, call@)),
{
    emit(
        events,
        LoopEvent::ToolStart {
            step,
            tool_name: call.name.clone(),
            args_summary: summarize_tool_args(call.name.as_str(), &call.arguments),
            agent_id: None,
        },
    );
}

/// Begins a call that starts another agent. It costs a step, whatever comes of it.
pub fn begin_agent_call(
    loop_state: &mut LoopState,
    call: &ToolCallBlock,
    step: u32,
    events: &mut Vec<LoopEvent>,
)
    ensures
        *final(loop_state) == (LoopState {
            remaining_step_budget: one_less(old(loop_state).remaining_step_budget),
            ..*old(loop_state)
        }),
        events_view(final(events)@) == events_view(old(events)@).push(start_event(step, call@)),
{
    loop_state.remaining_step_budget = loop_state.remaining_step_budget.saturating_sub(1);
    begin_tool_run(call, step, events);
}

/// Answers a call that started another agent with what that agent said.
pub fn end_agent_call(
    messages: &mut Vec<Message>,
    call: &ToolCallBlock,
    content: String,
    is_error: bool,
    elapsed_ms: u64,
    step: u32,
    events: &mut Vec<LoopEvent>,
)
    ensures
        messages_view(final(messages)@) == messages_view(old(messages)@).push(
            tool_result(call@.id, content@, is_error),
        ),
        events_view(final(events)@) == events_view(old(events)@).push(
            EventView::ToolEnd {
                step,
                tool_name: call@.name,
                elapsed_ms: Some(elapsed_ms),
                result_summary: None,
                agent_id: None,
            },
        ),
{
    emit(
        events,
        LoopEvent::ToolEnd {
            step,
            tool_name: call.name.clone(),
            elapsed_ms: Some(elapsed_ms),
            result_summary: None,
            agent_id: None,
        },
    );
    push_tool_result(messages, call.id.as_str(), content, is_error);
}

/// A file's content may be at most this many bytes long to be shown to the model.
pub const READ_RESULT_MAX_BYTES: usize = 100_000;

/// A tool's whole output as text: its message where there is no output, a text as it
/// is, and anything else as JSON.
pub open spec fn full_content(output: JsonView, message: Seq<char>) -> Seq<char> {
    match output {
        JsonView::Null => message,
        JsonView::Text(text) => text,
        other => json_text(other),
    }
}

pub fn full_tool_result_content(output: &Json, message: &str) -> (r: String)
    ensures
        r@ == full_content(output@, message@),
{
    match output {
        Json::Null => message.to_owned(),
        Json::Text(text) => text.clone(),
        _ => render_json(output),
    }
}

pub open spec fn too_large_message(bytes: nat) -> Seq<char> {
    "Error: file content is too large ("@ + decimal(bytes)
        + " chars) to include in context. Re-read with a smaller `max_bytes` parameter to retrieve a manageable portion of the file."@
}

/// What the model is shown of a tool's output, and whether it is an error. A file is
/// shown whole or, where it is too large, not at all; other outputs are shown as
/// they were stored.
pub open spec fn shown_result(
    tool_name: Seq<char>,
    full: Seq<char>,
    stored: Seq<char>,
    ok: bool,
) -> (Seq<char>, bool) {
    if tool_name == "Read"@ {
        if byte_len(full) > READ_RESULT_MAX_BYTES {
            (too_large_message(byte_len(full)), true)
        } else {
            (full, !ok)
        }
    } else {
        (stored, !ok)
    }
}

pub fn tool_result_for_message(tool_name: &str, full: &str, stored: &str, ok: bool) -> (r: (
    String,
    bool,
))
    ensures
        (r.0@, r.1) == shown_result(tool_name@, full@, stored@, ok),
{
    if str_eq(tool_name, "Read") {
        let total: usize = byte_count(full);
        if total > READ_RESULT_MAX_BYTES {
            let mut content: String = "Error: file content is too large (".to_owned();
            push_decimal(&mut content, total as u64);
            content.append(
                " chars) to include in context. Re-read with a smaller `max_bytes` parameter to retrieve a manageable portion of the file.",
            );
            (content, true)
        } else {
            (full.to_owned(), !ok)
        }
    } else {
        (stored.to_owned(), !ok)
    }
}

/// What a tool's observation means for the loop.
#[derive(Debug)]
pub struct InterpretedObservation {
    pub remaining_step_budget: u32,
    pub remaining_recovery_budget: u32,
    pub new_working_directory: Option<String>,
    pub budget_exhausted: bool,
    pub recovery_exhausted: bool,
}

/// One run of a tool.
#[derive(Debug)]
pub struct ToolRun {
    pub observation: ToolObservation,
    pub interpreted: InterpretedObservation,
    pub elapsed_ms: Option<u64>,
    /// The whole output.
    pub output: Json,
    /// The output as the step records it.
    pub recorded_output: Json,
    /// The output as text, as the result store gives it back.
    pub stored: String,
}

pub open spec fn directory_after(loop_state: LoopState, interpreted: InterpretedObservation) -> Seq<
    char,
> {
    match interpreted.new_working_directory {
        Some(directory) => directory@,
        None => loop_state.working_directory@,
    }
}

/// The record of one run of a tool.
pub open spec fn tool_step(
    loop_state: LoopState,
    call: ToolCallView,
    run: ToolRun,
    step: u32,
) -> StepView {
    StepView {
        step_index: step,
        action: StepAction::CallTool,
        tool_name: Some(call.name),
        decision: DecisionView {
            action: NextStepAction::CallTool,
            tool_name: Some(call.name),
            arguments: Some(call.arguments),
            reason: "LLM tool_use"@,
            final_message: None,
        },
        decision_reason: "LLM tool_use"@,
        visible_tools: views(loop_state.visible_tools@),
        bound_resources: selectors_view(loop_state.bound_resources@),
        raw_tool_output: Some(run.recorded_output@),
        observation: Some(StepObservationView::Tool(run.observation@)),
        elapsed_ms: run.elapsed_ms,
        remaining_step_budget: run.interpreted.remaining_step_budget,
        remaining_recovery_budget: run.interpreted.remaining_recovery_budget,
        working_directory: directory_after(loop_state, run.interpreted),
    }
}

impl StepRecord {
    /// The record of one run of a tool.
    pub fn tool_call(
        step_index: u32,
        decision: NextStepDecision,
        visible_tools: Vec<String>,
        bound_resources: Vec<ResourceSelector>,
        raw_tool_output: Json,
        observation: ToolObservation,
        elapsed_ms: Option<u64>,
        remaining_step_budget: u32,
        remaining_recovery_budget: u32,
        working_directory: String,
    ) -> (r: Self)
        ensures
            r@ == (StepView {
                step_index,
                action: StepAction::CallTool,
                tool_name: decision@.tool_name,
                decision: decision@,
                decision_reason: decision@.reason,
                visible_tools: views(visible_tools@),
                bound_resources: selectors_view(bound_resources@),
                raw_tool_output: Some(raw_tool_output@),
                observation: Some(StepObservationView::Tool(observation@)),
                elapsed_ms,
                remaining_step_budget,
                remaining_recovery_budget,
                working_directory: working_directory@,
            }),
    {
        StepRecord {
            step_index,
            action: StepAction::CallTool,
            tool_name: clone_opt(&decision.tool_name),
            decision_reason: decision.reason.clone(),
            decision,
            visible_tools,
            bound_resources,
            raw_tool_output: Some(raw_tool_output),
            observation: Some(StepObservation::Tool(observation)),
            elapsed_ms,
            remaining_step_budget,
            remaining_recovery_budget,
            working_directory,
        }
    }
}

pub open spec fn budget_warning(interpreted: InterpretedObservation) -> Seq<char> {
    "System: step budget exhausted (remaining: "@ + decimal(
        interpreted.remaining_step_budget as nat,
    ) + ", recovery: "@ + decimal(interpreted.remaining_recovery_budget as nat)
        + "). Please call final_answer or fail now."@
}

/// The messages that a run of a tool adds: its result, and a warning where a budget
/// is used up.
pub open spec fn run_messages(call: ToolCallView, run: ToolRun) -> Seq<MessageView> {
    let shown = shown_result(
        call.name,
        full_content(run.output@, run.observation@.message),
        run.stored@,
        run.observation.ok,
    );
    let result = tool_result(call.id, shown.0, shown.1);
    if run.interpreted.budget_exhausted || run.interpreted.recovery_exhausted {
        seq![result, MessageView::User { content: budget_warning(run.interpreted) }]
    } else {
        seq![result]
    }
}

pub open spec fn run_end_event(step: u32, call: ToolCallView, run: ToolRun) -> EventView {
    EventView::ToolEnd {
        step,
        tool_name: call.name,
        elapsed_ms: run.elapsed_ms,
        result_summary: result_summary(call.name, run.observation.ok, run.observation@.data),
        agent_id: None,
    }
}

/// Takes in one run of a tool: the step goes to the history, and the result to the
/// model.
pub fn record_tool_run(
    loop_state: &mut LoopState,
    messages: &mut Vec<Message>,
    turn_tool_ids: &mut Vec<String>,
    call: &ToolCallBlock,
    run: &ToolRun,
    step: u32,
    events: &mut Vec<LoopEvent>,
)
    ensures
        *final(loop_state) == (LoopState {
            step_index: step,
            remaining_step_budget: run.interpreted.remaining_step_budget,
            remaining_recovery_budget: run.interpreted.remaining_recovery_budget,
            working_directory: final(loop_state).working_directory,
            last_observation: final(loop_state).last_observation,
            history: final(loop_state).history,
            ..*old(loop_state)
        }),
        final(loop_state).working_directory@ == directory_after(*old(loop_state), run.interpreted),
        opt_tool(final(loop_state).last_observation) == Some(run.observation@),
        final(loop_state).history@ == old(loop_state).history@.push(
            final(loop_state).history@.last(),
        ),
        final(loop_state).history@.last()@ == tool_step(*old(loop_state), call@, *run, step),
        messages_view(final(messages)@) == messages_view(old(messages)@) + run_messages(
            call@,
            *run,
        ),
        views(final(turn_tool_ids)@) == views(old(turn_tool_ids)@).push(call@.id),
        events_view(final(events)@) == events_view(old(events)@).push(
            run_end_event(step, call@, *run),
        ),
{
    let ghost before = *loop_state;
    let ghost buffer = messages_view(messages@);
    emit(
        events,
        LoopEvent::ToolEnd {
            step,
            tool_name: call.name.clone(),
            elapsed_ms: run.elapsed_ms,
            result_summary: summarize_tool_result(
                call.name.as_str(),
                run.observation.ok,
                &run.observation.data,
            ),
            agent_id: None,
        },
    );
    let decision: NextStepDecision = NextStepDecision {
        action: NextStepAction::CallTool,
        tool_name: Some(call.name.clone()),
        arguments: Some(call.arguments.clone()),
        reason: "LLM tool_use".to_owned(),
        final_message: None,
    };
    let working_directory: String = match &run.interpreted.new_working_directory {
        Some(directory) => directory.clone(),
        None => loop_state.working_directory.clone(),
    };
    let record: StepRecord = StepRecord::tool_call(
        step,
        decision,
        clone_list(&loop_state.visible_tools),
        clone_selectors(&loop_state.bound_resources),
        run.recorded_output.clone(),
        run.observation.clone(),
        run.elapsed_ms,
        run.interpreted.remaining_step_budget,
        run.interpreted.remaining_recovery_budget,
        working_directory,
    );
    assert(record@ == tool_step(before, call@, *run, step));
    loop_state.record_step(record);
    let full: String = full_tool_result_content(&run.output, run.observation.message.as_str());
    let shown: (String, bool) = tool_result_for_message(
        call.name.as_str(),
        full.as_str(),
        run.stored.as_str(),
        run.observation.ok,
    );
    push_tool_result(messages, call.id.as_str(), shown.0, shown.1);
    let id: String = call.id.clone();
    proof {
        lemma_views_push(turn_tool_ids@, id);
    }
    turn_tool_ids.push(id);
    if run.interpreted.budget_exhausted || run.interpreted.recovery_exhausted {
        let mut content: String = "System: step budget exhausted (remaining: ".to_owned();
        push_decimal(&mut content, run.interpreted.remaining_step_budget as u64);
        content.append(", recovery: ");
        push_decimal(&mut content, run.interpreted.remaining_recovery_budget as u64);
        content.append("). Please call final_answer or fail now.");
        let message: Message = Message::User { content };
        proof {
            lemma_messages_push(messages@, message);
        }
        messages.push(message);
    }
    assert(messages_view(messages@) =~= buffer + run_messages(call@, *run));
}

/// An answer behind the answers to the same assistant message keeps every tool
/// result behind the call that it answers.
pub proof fn law_answer_keeps_pairs(
    messages: Seq<MessageView>,
    asking: int,
    id: Seq<char>,
    content: Seq<char>,
    is_error: bool,
)
    requires
        paired(messages),
        0 <= asking < messages.len(),
        asks_for(messages[asking], id),
        forall|k: int| asking < k < messages.len() ==> #[trigger] messages[k] is ToolResult,
    ensures
        paired(messages.push(tool_result(id, content, is_error))),
{
    let after = messages.push(tool_result(id, content, is_error));
    assert forall|i: int| 0 <= i < after.len() && #[trigger] after[i] is ToolResult implies exists|
        j: int,
    |
        answers(after, i, j) by {
        if i < messages.len() {
            assert(messages[i] is ToolResult);
            let j = choose|j: int| answers(messages, i, j);
            assert(answers(after, i, j)) by {
                assert forall|k: int| j < k < i implies #[trigger] after[k] is ToolResult by {
                    assert(messages[k] is ToolResult);
                }
            }
        } else {
            assert(answers(after, i, asking)) by {
                assert forall|k: int| asking < k < i implies #[trigger] after[k] is ToolResult by {
                    assert(messages[k] is ToolResult);
                }
            }
        }
    }
}

/// A message that is no tool result keeps every tool result behind its call.
pub proof fn law_message_keeps_pairs(messages: Seq<MessageView>, message: MessageView)
    requires
        paired(messages),
        !(message is ToolResult),
    ensures
        paired(messages.push(message)),
{
    let after = messages.push(message);
    assert forall|i: int| 0 <= i < after.len() && #[trigger] after[i] is ToolResult implies exists|
        j: int,
    |
        answers(after, i, j) by {
        assert(messages[i] is ToolResult);
        let j = choose|j: int| answers(messages, i, j);
        assert(answers(after, i, j)) by {
            assert forall|k: int| j < k < i implies #[trigger] after[k] is ToolResult by {
                assert(messages[k] is ToolResult);
            }
        }
    }
}

/// Every call is answered with exactly one tool result that bears its id, and a run
/// that uses up a budget is followed by a warning.
pub proof fn law_run_answers_its_call(call: ToolCallView, run: ToolRun)
    ensures
        run_messages(call, run).len() >= 1,
        run_messages(call, run)[0] matches MessageView::ToolResult { tool_use_id, .. }
            && tool_use_id == call.id,
        forall|i: int|
            1 <= i < run_messages(call, run).len() ==> (#[trigger] run_messages(
                call,
                run,
            )[i]) is User,
        run_messages(call, run).len() == 2 <==> run.interpreted.budget_exhausted
            || run.interpreted.recovery_exhausted,
{
}

} // verus!
