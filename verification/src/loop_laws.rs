//! What each move of a tool loop does.

use crate::approval::{ApprovalDecision, AutoApproveGate, ToolApprovalGate};
use crate::ask_user::{effective_ask_user_payload, payload_for, AskUserPayload};
use crate::attempt::{ModelResponse, ObservedResponse, PreCall, RetryPreflight};
use crate::cache_break::{SystemPromptBlock, ToolDefinition};
use crate::catalog::{CatalogDescriptor, RuntimeVisibleToolAvailabilitySnapshot};
use crate::compact::{microcompacted, with_cut_result};
use crate::compact_laws::law_when_nothing_collapses;
use crate::compaction::{retained_messages, summarizer_is_asked};
use crate::config::LoopRuntimeConfig;
use crate::decision::RouteDecision;
use crate::dispatch::{
    approved_scope_for_resume, finish_tool_invocation, prepare_approved_invocation,
    prepare_tool_invocation, ExecutionResourceScope, PreparedInvocation, RunRequest,
};
use crate::environment::{git_context_from_output, repo_name, GitContext};
use crate::events::{events_view, EventView};
use crate::history::CompactConfig;
use crate::json::Json;
use crate::message::{calls_view, messages_view, MessageView, ToolCallBlock};
use crate::observation::{ResourceSelector, StepAction, ToolObservation};
use crate::result::{CanonicalFact, ToolExecution, ToolFailure};
use crate::route::DirectRouteExecutionResult;
use crate::start::initialize_runtime_loop;
use crate::state::{LoopState, LoopStatus};
use crate::task::{AgentInstanceSpec, ConversationTurn, ResultStatus, TaskNode};
use crate::text::{starts_with, trim, views};
use crate::tool_call_laws::law_dispatch_by_name;
use crate::tool_calls::{ToolDispatch, ToolRun};
use crate::tool_loop::{next_schema_bytes, ToolLoop};
use crate::turn::{earlier_messages, turns_view, LoopEnd, ModelError};
use crate::turn_laws::{law_exhaustion_is_told, law_failed_call_is_told};
use crate::visible::definitions_view;
use crate::workers::{
    by_priority, choose_worker, place, register_worker, WorkerChoice, WorkerRegistryEntry,
};
use vstd::prelude::*;

verus! {

/// A loop for a request runs from its first step on, with the configured budgets, in the
/// given directory, and has seen nothing yet.
pub proof fn law_start(
    request_id: &str,
    session_id: &str,
    goal: &str,
    directory: Option<&str>,
    route: &RouteDecision,
    availability: &RuntimeVisibleToolAvailabilitySnapshot,
    bound: Vec<ResourceSelector>,
    config: &LoopRuntimeConfig,
    r: LoopState,
)
    requires
        call_ensures(
            initialize_runtime_loop,
            (request_id, session_id, goal, directory, route, availability, bound, config),
            r,
        ),
    ensures
        r.run_id@ == "loop-"@ + request_id@,
        r.request_id@ == request_id@,
        r.session_id@ == session_id@,
        r.goal@ == goal@,
        r.status == LoopStatus::LoopRunning,
        r.step_index == 0,
        r.remaining_step_budget == config.initial_step_budget,
        r.remaining_recovery_budget == config.initial_recovery_budget,
        directory matches Some(d) ==> r.working_directory@ == d@,
        directory is None ==> r.working_directory@ == "."@,
        r.history@.len() == 0,
        r.last_observation is None,
        r.awaiting_user is None,
        r.tool_schema_dirty,
{
}

/// A loop begins with the conversation so far and then what it works on, in the user's
/// name; it has told nothing and taken no step.
pub proof fn law_begin(
    state: LoopState,
    turns: &Vec<ConversationTurn>,
    reply: Option<&str>,
    r: ToolLoop,
)
    requires
        call_ensures(ToolLoop::begin, (state, turns, reply), r),
    ensures
        r.state == state,
        messages_view(r.messages@).len() > 0,
        messages_view(r.messages@).drop_last() == earlier_messages(turns_view(turns@)),
        reply matches Some(text) ==> messages_view(r.messages@).last() == (MessageView::User {
            content: text@,
        }),
        reply is None ==> messages_view(r.messages@).last() == (MessageView::User {
            content: state.goal@,
        }),
        r.events@.len() == 0,
        r.step == 0,
        r.pending@.len() == 0,
        !r.reactive_compact_used,
{
    let all = messages_view(r.messages@);
    assert(all.drop_last() =~= earlier_messages(turns_view(turns@)));
}

/// A turn is the next step, with nothing left of the one before. Without a step left, the
/// loop fails and says so.
pub proof fn law_open_turn(machine: &mut ToolLoop, sent: &Vec<ToolDefinition>, r: Option<LoopEnd>)
    requires
        old(machine).state.step_index < u32::MAX,
        call_ensures(ToolLoop::open_turn, (machine, sent), r),
    ensures
        r is Some <==> old(machine).state.remaining_step_budget == 0,
        r is None ==> {
            &&& final(machine).step == old(machine).state.step_index + 1
            &&& !final(machine).reactive_compact_used
            &&& !final(machine).tool_schema_frozen_emitted
            &&& final(machine).pending@.len() == 0
            &&& final(machine).turn_tool_ids@.len() == 0
            &&& final(machine).state == old(machine).state
            &&& final(machine).messages == old(machine).messages
            &&& final(machine).events == old(machine).events
        },
        r matches Some(end) ==> {
            &&& end.action == StepAction::Fail
            &&& end.status == ResultStatus::Error
            &&& starts_with(end.message@, "Step budget exhausted"@)
            &&& final(machine).state.status == LoopStatus::Failed
            &&& final(machine).state.history@.len() == old(machine).state.history@.len() + 1
            &&& final(machine).state.history@.last()@.decision_reason == "Step budget exhausted."@
            &&& final(machine).messages == old(machine).messages
        },
{
    law_exhaustion_is_told(old(machine).state);
}

/// A prompt that is too long is cut and compacted, once in a turn; every other error ends
/// the loop as a failure.
pub proof fn law_absorb_error(
    machine: &mut ToolLoop,
    error: &ModelError,
    max: usize,
    r: Option<LoopEnd>,
)
    requires
        old(machine).state.step_index < u32::MAX,
        call_ensures(ToolLoop::absorb_error, (machine, error, max), r),
    ensures
        r is None <==> (error is ContextWindowExceeded && !old(machine).reactive_compact_used),
        r is None ==> {
            &&& final(machine).reactive_compact_used
            &&& final(machine).messages@.len() == old(machine).messages@.len()
            &&& final(machine).state.status == old(machine).state.status
            &&& forall|i: int|
                0 <= i < old(machine).messages@.len() && !(messages_view(
                    old(machine).messages@,
                )[i] is ToolResult) ==> #[trigger] messages_view(final(machine).messages@)[i]
                    == messages_view(old(machine).messages@)[i]
        },
        r matches Some(end) ==> {
            &&& end.action == StepAction::Fail
            &&& end.status == ResultStatus::Error
            &&& starts_with(end.message@, "LLM call failed"@)
            &&& final(machine).state.status == LoopStatus::Failed
            &&& final(machine).messages == old(machine).messages
        },
{
    law_failed_call_is_told(*error, old(machine).state.goal@);
    let before = messages_view(old(machine).messages@);
    let after = messages_view(final(machine).messages@);
    assert(before.len() == old(machine).messages@.len());
    assert(after.len() == final(machine).messages@.len());
}

/// What the model said is kept as its message, with its calls; they are to be answered
/// where the turn does not end.
pub proof fn law_absorb_turn(
    machine: &mut ToolLoop,
    missing: &Vec<String>,
    text: &str,
    calls: Vec<ToolCallBlock>,
    r: Option<LoopEnd>,
)
    requires
        old(machine).state.step_index < u32::MAX,
        call_ensures(ToolLoop::absorb_turn, (machine, missing, text, calls), r),
    ensures
        messages_view(final(machine).messages@) == messages_view(old(machine).messages@).push(
            MessageView::Assistant { text: text@, tool_calls: calls_view(calls@) },
        ),
        r is None ==> final(machine).pending == calls && final(machine).state
            == old(machine).state,
        calls@.len() == 0 ==> r is Some,
        calls@.len() == 0 && text@.len() > 0 ==> r->0.message@ == text@ && r->0.action
            == StepAction::FinalAnswer && r->0.status == ResultStatus::Success
            && final(machine).state.status == LoopStatus::Succeeded,
        final(machine).events == old(machine).events,
{
    assert(calls_view(calls@).len() == calls@.len());
}

/// Calls are taken in their order. A denied call is answered with the reason, as an error,
/// and costs a step.
pub proof fn law_denied_call(
    machine: &mut ToolLoop,
    decision: &ApprovalDecision,
    r: (ToolCallBlock, ToolDispatch),
)
    requires
        old(machine).pending.len() > 0,
        call_ensures(ToolLoop::take_call, (machine, decision), r),
    ensures
        r.0 == old(machine).pending@[0],
        final(machine).pending@ == old(machine).pending@.skip(1),
        r.1 == ToolDispatch::Denied <==> decision is Deny,
        decision matches ApprovalDecision::Deny(reason) ==> {
            &&& messages_view(final(machine).messages@) == messages_view(
                old(machine).messages@,
            ).push(
                MessageView::ToolResult {
                    tool_use_id: r.0@.id,
                    content: "[Tool denied] "@ + reason@,
                    is_error: true,
                },
            )
            &&& old(machine).state.remaining_step_budget > 0
                ==> final(machine).state.remaining_step_budget
                == old(machine).state.remaining_step_budget - 1
            &&& final(machine).events == old(machine).events
        },
{
    law_dispatch_by_name(r.0@.name);
}

/// A call that was approved goes where its name says: a tool runs without a step being
/// counted yet, an agent costs one, and both are told of; a task tool goes to the store;
/// a search is answered at once, without an error.
pub proof fn law_approved_call(
    machine: &mut ToolLoop,
    decision: &ApprovalDecision,
    r: (ToolCallBlock, ToolDispatch),
)
    requires
        old(machine).pending.len() > 0,
        decision is Approve,
        call_ensures(ToolLoop::take_call, (machine, decision), r),
    ensures
        ({
            let name = r.0@.name;
            let said = messages_view(final(machine).messages@);
            let before = messages_view(old(machine).messages@);
            let told = events_view(final(machine).events@);
            let budget = old(machine).state.remaining_step_budget;
            &&& name == "tool_search"@ ==> r.1 == ToolDispatch::ToolSearch && said.len()
                == before.len() + 1 && (said.last() matches MessageView::ToolResult {
                tool_use_id,
                content,
                is_error,
            } && tool_use_id == r.0@.id && !is_error) && (budget > 0
                ==> final(machine).state.remaining_step_budget == budget - 1)
            &&& name == "task_create"@ || name == "task_update"@ || name == "task_list"@ || name
                == "task_get"@ ==> r.1 == ToolDispatch::TaskTool && said == before
                && final(machine).state == old(machine).state
            &&& name == "Agent"@ ==> r.1 == ToolDispatch::Agent && said == before && (budget > 0
                ==> final(machine).state.remaining_step_budget == budget - 1) && (told.last()
                matches EventView::ToolStart { tool_name, .. } && tool_name == name)
            &&& name != "tool_search"@ && name != "task_create"@ && name != "task_update"@ && name
                != "task_list"@ && name != "task_get"@ && name != "Agent"@ ==> r.1
                == ToolDispatch::Run && said == before && final(machine).state
                == old(machine).state && (told.last() matches EventView::ToolStart {
                tool_name,
                ..
            } && tool_name == name)
        }),
{
    law_dispatch_by_name(r.0@.name);
}

/// The store's answer is the result of a task call, an error where it begins with that
/// word, and costs a step.
pub proof fn law_answer_task(machine: &mut ToolLoop, call: &ToolCallBlock, answer: String)
    requires
        call_ensures(ToolLoop::answer_task, (machine, call, answer), ()),
    ensures
        messages_view(final(machine).messages@) == messages_view(old(machine).messages@).push(
            MessageView::ToolResult {
                tool_use_id: call@.id,
                content: answer@,
                is_error: starts_with(answer@, "Error:"@),
            },
        ),
        old(machine).state.remaining_step_budget > 0 ==> final(machine).state.remaining_step_budget
            == old(machine).state.remaining_step_budget - 1,
        final(machine).events == old(machine).events,
        final(machine).pending == old(machine).pending,
{
}

/// An agent's answer is the result of the call that started it, and its end is told.
pub proof fn law_answer_agent(
    machine: &mut ToolLoop,
    call: &ToolCallBlock,
    content: String,
    is_error: bool,
    elapsed_ms: u64,
)
    requires
        call_ensures(ToolLoop::answer_agent, (machine, call, content, is_error, elapsed_ms), ()),
    ensures
        messages_view(final(machine).messages@) == messages_view(old(machine).messages@).push(
            MessageView::ToolResult { tool_use_id: call@.id, content: content@, is_error },
        ),
        final(machine).state == old(machine).state,
        events_view(final(machine).events@).last() matches EventView::ToolEnd {
            tool_name,
            elapsed_ms: ms,
            ..
        } && tool_name == call@.name && ms == Some(elapsed_ms),
{
}

/// A tool run is answered, recorded as the last step, observed, and told; the budgets are
/// those that it left.
pub proof fn law_answer_run(machine: &mut ToolLoop, call: &ToolCallBlock, run: &ToolRun)
    requires
        call_ensures(ToolLoop::answer_run, (machine, call, run), ()),
    ensures
        ({
            let before = messages_view(old(machine).messages@);
            let said = messages_view(final(machine).messages@);
            let state = final(machine).state;
            &&& said.len() > before.len()
            &&& said.take(before.len() as int) == before
            &&& said[before.len() as int] matches MessageView::ToolResult { tool_use_id, .. }
                && tool_use_id == call@.id
            &&& state.step_index == old(machine).step
            &&& state.remaining_step_budget == run.interpreted.remaining_step_budget
            &&& state.remaining_recovery_budget == run.interpreted.remaining_recovery_budget
            &&& state.last_observation matches Some(o) && o@ == run.observation@
            &&& state.history@.len() == old(machine).state.history@.len() + 1
            &&& state.history@.last()@.tool_name == Some(call@.name)
            &&& state.history@.last()@.action == StepAction::CallTool
            &&& views(final(machine).turn_tool_ids@).last() == call@.id
            &&& events_view(final(machine).events@).len() == events_view(
                old(machine).events@,
            ).len() + 1
            &&& final(machine).pending == old(machine).pending
        }),
{
    let before = messages_view(old(machine).messages@);
    let said = messages_view(final(machine).messages@);
    assert(said.take(before.len() as int) =~= before);
}

/// The results of a turn are cut to the limit, each on its own; where tools have run, it
/// is told what their results take and whether that is more than 200000 tokens.
pub proof fn law_close_results(machine: &mut ToolLoop, max: usize)
    requires
        call_ensures(ToolLoop::close_results, (machine, max), ()),
    ensures
        ({
            let before = messages_view(old(machine).messages@);
            let after = messages_view(final(machine).messages@);
            let told = events_view(final(machine).events@);
            &&& after.len() == before.len()
            &&& forall|i: int|
                0 <= i < before.len() ==> #[trigger] after[i] == with_cut_result(
                    before[i],
                    max as int,
                )
            &&& old(machine).turn_tool_ids@.len() == 0 ==> told == events_view(old(machine).events@)
            &&& old(machine).turn_tool_ids@.len() > 0 ==> (told.last() matches
                EventView::ToolBudgetCheck { per_turn_tool_tokens, exceeded, .. } && exceeded == (
            per_turn_tool_tokens > 200000))
            &&& final(machine).state == old(machine).state
        }),
{
}

/// A prompt is compacted where its estimate is above the threshold, and that is told.
pub proof fn law_compaction_due(machine: &mut ToolLoop, estimate: u64, threshold: u64, r: bool)
    requires
        call_ensures(ToolLoop::compaction_due, (machine, estimate, threshold), r),
    ensures
        r <==> estimate > threshold,
        final(machine).messages == old(machine).messages,
        final(machine).state == old(machine).state,
        r ==> (events_view(final(machine).events@).last() matches EventView::CompactTriggered {
            estimated_tokens,
            ..
        } && estimated_tokens == estimate),
        !r ==> events_view(final(machine).events@) == events_view(old(machine).events@),
{
}

/// The middle tier does nothing below three fifths of the window, and nothing in a turn
/// whose prompt was compacted already. Where it runs, the stored summary has been looked
/// up, and what was known of the prompt's size is forgotten if anything was replaced.
pub proof fn law_compact_middle(
    machine: &mut ToolLoop,
    estimate: u64,
    window: u64,
    found: Option<&str>,
    r: bool,
)
    requires
        call_ensures(ToolLoop::compact_middle, (machine, estimate, window, found), r),
    ensures
        5 * estimate <= 3 * window ==> !r && *final(machine) == *old(machine),
        old(machine).reactive_compact_used ==> !r && *final(machine) == *old(machine),
        5 * estimate >= 3 * window + 5 && !old(machine).reactive_compact_used
            ==> final(machine).state.layer2_lookup_attempted_this_run,
        r ==> final(machine).state.committed is None && final(machine).settled_len
            == final(machine).messages.len(),
        5 * estimate >= 3 * window + 5 && !old(machine).reactive_compact_used
            && old(machine).messages.len() > old(machine).settled_len
            && old(machine).messages.len() > 2 && !(messages_view(old(machine).messages@)[2]
            is ToolResult) ==> r,
{
    assert(window * 60 == 60 * window);
    let all = messages_view(old(machine).messages@);
    assert(all.len() == old(machine).messages@.len());
    law_when_nothing_collapses(all, true);
    law_when_nothing_collapses(all, false);
}

/// A turn ends with the word that its step is complete; what a compaction took is told
/// before.
pub proof fn law_close_turn(machine: &mut ToolLoop, tokens: (u64, u64), now_ms: u64)
    requires
        call_ensures(ToolLoop::close_turn, (machine, tokens, now_ms), ()),
    ensures
        ({
            let told = events_view(final(machine).events@);
            let before = events_view(old(machine).events@);
            let used = tokens.0 > 0 || tokens.1 > 0;
            &&& told.last() == (EventView::StepComplete { step: old(machine).step })
            &&& used ==> told.len() == before.len() + 2 && (told[before.len() as int] matches
                EventView::TokenUsage { prompt_tokens, output_tokens, is_compaction, .. }
                && prompt_tokens == tokens.0 && output_tokens == tokens.1 && is_compaction)
            &&& used ==> final(machine).state.last_llm_call_at_ms == Some(now_ms)
            &&& !used ==> told.len() == before.len() + 1 && final(machine).state.last_llm_call_at_ms
                == old(machine).state.last_llm_call_at_ms
            &&& final(machine).messages == old(machine).messages
        }),
{
}

/// A response is noted with its time and its text.
pub proof fn law_absorb_response(
    machine: &mut ToolLoop,
    pre: &PreCall,
    streamed: &str,
    response: &ModelResponse,
    now_ms: u64,
    r: ObservedResponse,
)
    requires
        call_ensures(ToolLoop::absorb_response, (machine, pre, streamed, response, now_ms), r),
    ensures
        streamed@.len() > 0 ==> r.text@ == streamed@,
        streamed@.len() == 0 ==> r.text@ == response.output@,
        final(machine).state.last_llm_call_at_ms == Some(now_ms),
        final(machine).messages == old(machine).messages,
        final(machine).pending == old(machine).pending,
{
}

/// The prompt's fingerprint is taken before the call, with the routed model.
pub proof fn law_announce_call(
    machine: &mut ToolLoop,
    blocks: &Vec<SystemPromptBlock>,
    sent: &Vec<ToolDefinition>,
    model: Option<&str>,
)
    requires
        call_ensures(ToolLoop::announce_call, (machine, blocks, sent, model), ()),
    ensures
        final(machine).state.cache_break_detector@.current_fingerprint matches Some(f) && (
        match model {
            Some(name) => f.model == name@,
            None => f.model.len() == 0,
        }),
        events_view(final(machine).events@).last() matches EventView::ToolSchemaFrozen {
            hash,
            rebuilt,
            ..
        } && hash == old(machine).tool_schema_hash && (old(machine).tool_schema_frozen_emitted
            ==> !rebuilt) && (!old(machine).tool_schema_frozen_emitted ==> rebuilt
            == old(machine).tool_schema_rebuilt),
        final(machine).tool_schema_frozen_emitted,
        final(machine).messages == old(machine).messages,
{
    reveal_strlit("");
}

/// At least five messages stay, or as many as steps are kept.
pub proof fn law_retained_messages(config: &CompactConfig, r: usize)
    requires
        call_ensures(retained_messages, (config,), r),
    ensures
        r >= 5,
        r >= config.retain_tail_steps,
        r == 5 || r == config.retain_tail_steps,
{
}

/// The model is asked for a summary until it has failed too often in a row.
pub proof fn law_summarizer_is_asked(state: &LoopState, router: bool, limit: u32, r: bool)
    requires
        call_ensures(summarizer_is_asked, (state, router, limit), r),
    ensures
        r <==> router && state.consecutive_autocompact_failures < limit,
{
}

/// A task without a budget is refused; otherwise the first worker that is for it runs it.
pub proof fn law_choose_worker(spec: &AgentInstanceSpec, supports: &Vec<bool>, r: WorkerChoice)
    requires
        call_ensures(choose_worker, (spec, supports), r),
        supports@.len() <= usize::MAX,
    ensures
        r is Reject <==> spec.policy_bindings.budget_tokens == 0
            || spec.policy_bindings.time_budget_ms == 0,
        r matches WorkerChoice::Worker(i) ==> supports@[i as int] && forall|j: int|
            0 <= j < i ==> !#[trigger] supports@[j],
        r is Fallback ==> forall|j: int| 0 <= j < supports@.len() ==> !#[trigger] supports@[j],
{
    crate::task_laws::law_first_worker(supports@);
}

/// Automatic approval approves every call.
pub proof fn law_auto_approval(gate: &AutoApproveGate, name: &str, arguments: &Json, r: ApprovalDecision)
    requires
        call_ensures(<AutoApproveGate as ToolApprovalGate>::check, (gate, name, arguments), r),
    ensures
        r is Approve,
{
}

/// What a tool is run with: its own name and the merged arguments, under the policy, with
/// the capabilities of its resources and a key of its own.
pub proof fn law_prepared_run(
    catalog: &Vec<CatalogDescriptor>,
    request: &RunRequest,
    selector: &ResourceSelector,
    arguments: &Json,
    attachments: &Vec<String>,
    bound: &Vec<ResourceSelector>,
    summary: &str,
    r: PreparedInvocation,
)
    requires
        call_ensures(
            prepare_tool_invocation,
            (catalog, request, selector, arguments, attachments, bound, summary),
            r,
        ),
    ensures
        r.invocation@.tool_name == selector@.name,
        !r.invocation@.skip_policy_check,
        r.invocation@.invocation_key == request.task_id@ + ":"@ + "direct-route"@ + ":"@
            + selector@.display_key,
        r.invocation@.attachments == views(attachments@),
        r.invocation@.granted_capabilities == r.node@.capabilities,
        r.spec@.context.task_id == request.task_id@,
        r.node@.description == "Goal: "@ + request.goal@ + "\nStep: "@ + summary@,
{
}

/// An approved run is not put before the policy again, and keeps its input.
pub proof fn law_prepared_approval(
    catalog: &Vec<CatalogDescriptor>,
    task_id: &str,
    history: &Vec<ConversationTurn>,
    node: &TaskNode,
    tool: &str,
    input: &Json,
    r: PreparedInvocation,
)
    requires
        call_ensures(
            prepare_approved_invocation,
            (catalog, task_id, history, node, tool, input),
            r,
        ),
    ensures
        r.invocation@.skip_policy_check,
        r.invocation@.tool_name == tool@,
        r.invocation@.input == input@,
        r.invocation@.invocation_key == task_id@ + ":"@ + node@.node_id + ":approved"@,
        r.invocation@.attachments.len() == 0,
        r.node@ == node@,
        node@.capabilities.len() > 0 ==> r.invocation@.granted_capabilities == node@.capabilities,
{
}

/// An approved run may read its targets; it may write no more than before.
pub proof fn law_approved_scope(scope: &ExecutionResourceScope, r: ExecutionResourceScope, i: int)
    requires
        call_ensures(approved_scope_for_resume, (scope,), r),
    ensures
        r.working_directory@ == scope.working_directory@,
        views(r.effective_write_roots@) == views(scope.effective_write_roots@),
        views(r.resolved_targets@) == views(scope.resolved_targets@),
        0 <= i < scope.resolved_targets@.len() ==> views(r.effective_read_roots@).contains(
            views(scope.resolved_targets@)[i],
        ),
        0 <= i < scope.effective_read_roots@.len() ==> views(r.effective_read_roots@).contains(
            views(scope.effective_read_roots@)[i],
        ),
{
    crate::task_laws::lemma_with_new(
        views(scope.effective_read_roots@),
        views(scope.resolved_targets@),
    );
}

/// What is told of a tool run is what came of it.
pub proof fn law_finished_run(
    prepared: PreparedInvocation,
    canonical: &Option<CanonicalFact>,
    outcome: &Result<ToolExecution, ToolFailure>,
    r: DirectRouteExecutionResult,
)
    requires
        call_ensures(finish_tool_invocation, (prepared, canonical, outcome), r),
    ensures
        outcome is Ok <==> r@.result.status == ResultStatus::Success,
        outcome is Err ==> r@.result.confidence_percent == 0,
        r@.node == prepared.node@,
        r@.result.node_id == prepared.node@.node_id,
        r@.result.task_id == prepared.spec@.context.task_id,
        r@.terminal_step_action is None,
{
}

/// The schema that counts is the one that was written, and the one that was sent where
/// none was.
pub proof fn law_schema_bytes(written: Vec<u8>, sent: Vec<u8>, r: Vec<u8>)
    requires
        call_ensures(next_schema_bytes, (written, sent), r),
    ensures
        written@.len() > 0 ==> r == written,
        written@.len() == 0 ==> r == sent,
{
}

/// A question that the model asks is the one that the last observation calls for; without
/// an observation it is the model's own.
pub proof fn law_effective_question(
    goal: &str,
    last: Option<&ToolObservation>,
    missing: &Vec<String>,
    proposed: Option<AskUserPayload>,
    r: AskUserPayload,
)
    requires
        call_ensures(effective_ask_user_payload, (goal, last, missing, proposed), r),
    ensures
        last matches Some(o) ==> r@ == payload_for(goal@, o@, views(missing@)),
        last is None && proposed is Some ==> r@ == proposed->0@,
        last is None && proposed is None ==> r@.final_message
            == "I need more information before I can continue."@ && r@.resume_contract
            is NoAutomaticResume,
{
}

/// A repository is known by its branch; its address may be missing.
pub proof fn law_git_context(branch: Option<String>, remote: Option<String>, r: Option<GitContext>)
    requires
        call_ensures(git_context_from_output, (branch, remote), r),
    ensures
        r is Some <==> branch is Some,
        branch matches Some(b) ==> r->0@.branch == trim(b@),
        branch is Some && remote is Some ==> r->0@.remote_url == trim(remote->0@)
            && r->0@.repo_name == repo_name(trim(remote->0@)),
        branch is Some && remote is None ==> r->0@.remote_url.len() == 0,
{
    reveal_strlit("");
}

/// Workers of a higher priority are tried first, and of the same priority the earlier.
pub proof fn law_register_worker<W>(
    entries: &mut Vec<WorkerRegistryEntry<W>>,
    priority: u8,
    worker: W,
)
    requires
        by_priority(old(entries)@),
        call_ensures(register_worker::<W>, (entries, priority, worker), ()),
    ensures
        final(entries)@.len() == old(entries)@.len() + 1,
        forall|i: int, j: int|
            0 <= i <= j < final(entries)@.len() ==> (#[trigger] final(entries)@[i]).priority >= (
            #[trigger] final(entries)@[j]).priority,
        exists|k: int|
            0 <= k < final(entries)@.len() && #[trigger] final(entries)@[k] == (
            WorkerRegistryEntry { priority, worker }) && (forall|i: int|
                0 <= i < k ==> (#[trigger] final(entries)@[i]).priority >= priority) && (forall|
                i: int,
            |
                k < i < final(entries)@.len() ==> (#[trigger] final(entries)@[i]).priority
                    < priority),
{
    let before = old(entries)@;
    let after = final(entries)@;
    let k = place(before, priority);
    crate::task_laws::law_place_of_a_worker(before, priority);
    assert(after[k] == (WorkerRegistryEntry { priority, worker }));
    assert forall|i: int| 0 <= i < k implies (#[trigger] after[i]).priority >= priority by {
        assert(after[i] == before[i]);
    }
    assert forall|i: int| k < i < after.len() implies (#[trigger] after[i]).priority < priority by {
        assert(after[i] == before[i - 1]);
        assert(before[k].priority >= before[i - 1].priority);
    }
}

/// What a compaction of a prompt that was too long took is told as such.
pub proof fn law_conclude_reactive(machine: &mut ToolLoop, tokens: (u64, u64), now_ms: u64)
    requires
        call_ensures(ToolLoop::conclude_reactive, (machine, tokens, now_ms), ()),
    ensures
        events_view(final(machine).events@).last() matches EventView::TokenUsage {
            prompt_tokens,
            output_tokens,
            is_compaction,
            model_id,
            ..
        } && prompt_tokens == tokens.0 && output_tokens == tokens.1 && is_compaction && model_id
            is None,
        tokens.0 > 0 || tokens.1 > 0 ==> final(machine).state.last_llm_call_at_ms == Some(now_ms),
        final(machine).messages == old(machine).messages,
{
}

/// A response that was asked for again replaces the text of the first, and what it took is
/// told.
pub proof fn law_absorb_retry(
    machine: &mut ToolLoop,
    pre: &PreCall,
    primary: &str,
    preflight: &RetryPreflight,
    response: &ModelResponse,
    now_ms: u64,
    r: (u64, u64),
)
    requires
        call_ensures(
            ToolLoop::absorb_retry,
            (machine, pre, primary, preflight, response, now_ms),
            r,
        ),
    ensures
        ({
            let told = events_view(final(machine).events@);
            let n = events_view(old(machine).events@).len() as int;
            &&& told.len() == n + 3
            &&& told[n + 1] == (EventView::LlmTextReplace {
                step: old(machine).step,
                text: response.output@,
            })
            &&& told[n] matches EventView::TokenUsage { prompt_tokens, .. } && prompt_tokens
                == response.prompt_tokens
            &&& final(machine).state.last_llm_call_at_ms == Some(now_ms)
            &&& final(machine).messages == old(machine).messages
        }),
{
}

/// After more than five minutes without a call the old tool results are cleared, but for
/// the three most recent, and the gap is told in minutes.
pub proof fn law_cool_down<F: Fn(u64) -> u64>(
    machine: &mut ToolLoop,
    now_ms: u64,
    calibrate: F,
    r: Option<u64>,
)
    requires
        forall|raw: u64| call_requires(calibrate, (raw,)),
        call_ensures(ToolLoop::cool_down::<F>, (machine, now_ms, calibrate), r),
    ensures
        old(machine).state.last_llm_call_at_ms is None ==> r is None && *final(machine) == *old(
            machine,
        ),
        old(machine).state.last_llm_call_at_ms matches Some(last) ==> (r is Some <==> now_ms > last
            + 300000),
        r is Some ==> messages_view(final(machine).messages@) == microcompacted(
            messages_view(old(machine).messages@),
            3,
        ) && (events_view(final(machine).events@).last() matches
            EventView::TimeBasedMicrocompactRan { gap_minutes, freed_tokens, .. } && freed_tokens
            == r->0 && 60000 * gap_minutes <= now_ms - old(machine).state.last_llm_call_at_ms->0
            < 60000 * (gap_minutes + 1)),
        r is None ==> final(machine).messages == old(machine).messages,
{
}

/// The tools are sent as they were frozen, and built anew where there were none or they
/// have changed.
pub proof fn law_freeze(
    machine: &mut ToolLoop,
    fresh: Vec<ToolDefinition>,
    r: Vec<ToolDefinition>,
)
    requires
        call_ensures(ToolLoop::freeze, (machine, fresh), r),
    ensures
        old(machine).state.tool_schema_dirty || old(machine).state.frozen_tool_schema is None
            ==> definitions_view(r@) == definitions_view(fresh@)
            && final(machine).tool_schema_rebuilt,
        !old(machine).state.tool_schema_dirty && old(machine).state.frozen_tool_schema is Some
            ==> definitions_view(r@) == definitions_view(
            old(machine).state.frozen_tool_schema->0@,
        ) && !final(machine).tool_schema_rebuilt,
        !final(machine).state.tool_schema_dirty,
        final(machine).messages == old(machine).messages,
{
}

} // verus!
