//! What tasks are run with, and what their results say.

use crate::catalog::{capabilities_for, composed_tools, DescriptorView};
use crate::dispatch::{
    approved_capabilities, approved_spec, described_step, history_text, role_name, run_input,
    run_node, run_resources, run_result, run_spec, step_summary, RunRequest,
};
use crate::factory::{
    bindings_for, initial_profiles, instance_of, merged_capabilities, FactoryView, ProfileView,
};
use crate::json::{lemma_lookup_first, FieldView, JsonView};
use crate::json_text::json_text;
use crate::number::decimal;
use crate::observation::{SelectorView, StepAction};
use crate::result::{
    derived_evidence, failed, failure_code, failure_payload, output_data, rejected, sandbox_label,
    succeeded, success_payload, CanonicalFact, PolicyOutcome, SandboxProfile, ToolExecution,
    ToolFailure, ToolFailureKind,
};
use crate::split::with_new;
use crate::status_result::{not_enabled, status_payload, terminal_payload, terminal_result};
use crate::task::{
    evidence, turns_view, ConversationRole, NodeView, ResultStatus, SpecView, TaskNodeKind,
    TurnView,
};
use crate::text::{contains, join, starts_with, strip_prefix};
use crate::text_laws::lemma_begins;
use crate::workers::{fallback, first_marked, goal_of, place, WorkerRegistryEntry};
use vstd::prelude::*;

verus! {

/// The codes of failures: what the policy decided goes first.
pub proof fn law_failure_codes(kind: ToolFailureKind)
    ensures
        failure_code(kind, Some(PolicyOutcome::Deny)) == "policy_denied"@,
        failure_code(kind, Some(PolicyOutcome::RequireApproval)) == "approval_required"@,
        failure_code(kind, Some(PolicyOutcome::Allow)) == "execution_failed"@,
        failure_code(ToolFailureKind::ToolNotFound, None) == "tool_not_found"@,
        failure_code(ToolFailureKind::ToolAlreadyRegistered, None) == "tool_already_registered"@,
        failure_code(ToolFailureKind::InvalidDescriptor, None) == "invalid_descriptor"@,
        failure_code(ToolFailureKind::InputSchemaViolation, None) == "input_schema_violation"@,
        failure_code(ToolFailureKind::CapabilityDenied, None) == "capability_denied"@,
        failure_code(ToolFailureKind::Timeout, None) == "timeout"@,
        failure_code(ToolFailureKind::ExecutionFailed { retriable: true }, None)
            == "retriable_execution_failed"@,
        failure_code(ToolFailureKind::ExecutionFailed { retriable: false }, None)
            == "execution_failed"@,
{
}

/// The names of the sandboxes.
pub proof fn law_sandbox_names()
    ensures
        sandbox_label(SandboxProfile::NoIsolation) == "no_isolation"@,
        sandbox_label(SandboxProfile::ReadOnlyFs) == "read_only_fs"@,
        sandbox_label(SandboxProfile::PythonResearch) == "python_research"@,
        sandbox_label(SandboxProfile::ContainerRestricted) == "container_restricted"@,
{
}

/// A run that succeeded says so, for its task and node, with its output in the payload
/// and what it ran with as evidence.
pub proof fn law_success_is_told(
    spec: SpecView,
    node: NodeView,
    worker: Seq<char>,
    tool: Seq<char>,
    execution: ToolExecution,
    confidence: u32,
)
    ensures
        ({
            let r = succeeded(spec, node, worker, tool, execution, confidence);
            &&& r.status == ResultStatus::Success
            &&& r.task_id == spec.context.task_id
            &&& r.node_id == node.node_id
            &&& r.producer == spec.instance_id
            &&& r.schema_version == "result.v1"@
            &&& r.confidence_percent == confidence
            &&& r.payload == json_text(
                success_payload(
                    node,
                    worker,
                    tool,
                    execution.output@,
                    execution.attempts,
                    execution.elapsed_ms,
                ),
            )
            &&& r.evidence[0] == evidence("runtime"@, worker)
            &&& r.evidence[1] == evidence("tool"@, tool)
            &&& r.evidence[2] == evidence("output_fingerprint"@, execution.output_fingerprint@)
            &&& r.evidence[3] == evidence(
                "sandbox_profile"@,
                sandbox_label(execution.sandbox_profile),
            )
            &&& r.evidence[4] == evidence("tool_attempts"@, decimal(execution.attempts as nat))
            &&& r.evidence[5] == evidence(
                "policy"@,
                "budget_tokens="@ + decimal(spec.policy_bindings.budget_tokens as nat)
                    + ",time_budget_ms="@ + decimal(spec.policy_bindings.time_budget_ms as nat),
            )
        }),
{
}

/// What the payload of a success holds under each name.
pub proof fn law_success_payload(
    node: NodeView,
    worker: Seq<char>,
    tool: Seq<char>,
    output: JsonView,
    attempts: u32,
    elapsed_ms: u64,
)
    ensures
        ({
            let p = success_payload(node, worker, tool, output, attempts, elapsed_ms);
            &&& p.member_unsigned("attempts"@) == Some(attempts as nat)
            &&& p.member_unsigned("elapsed_ms"@) == Some(elapsed_ms as nat)
            &&& p.member_text("message"@) == Some(
                output.member_text("message"@).unwrap_or(node.description),
            )
            &&& p.member_text("node_id"@) == Some(node.node_id)
            &&& p.member("output"@) == Some(output)
            &&& p.member_text("summary"@) == Some(node.description)
            &&& p.member_text("tool_name"@) == Some(tool)
            &&& p.member_text("worker_id"@) == Some(worker)
        }),
{
    let p = success_payload(node, worker, tool, output, attempts, elapsed_ms);
    let fields = p->Object_0;
    reveal_strlit("attempts");
    reveal_strlit("elapsed_ms");
    reveal_strlit("message");
    reveal_strlit("node_id");
    reveal_strlit("output");
    reveal_strlit("summary");
    reveal_strlit("tool_name");
    reveal_strlit("worker_id");
    assert("attempts"@[0] == 'a' && "elapsed_ms"@[0] == 'e' && "message"@[0] == 'm' && "node_id"@[0]
        == 'n' && "output"@[0] == 'o' && "summary"@[0] == 's' && "tool_name"@[0] == 't'
        && "worker_id"@[0] == 'w');
    lemma_lookup_first(fields, "attempts"@, 0);
    lemma_lookup_first(fields, "elapsed_ms"@, 1);
    lemma_lookup_first(fields, "message"@, 2);
    lemma_lookup_first(fields, "node_id"@, 3);
    lemma_lookup_first(fields, "output"@, 4);
    lemma_lookup_first(fields, "summary"@, 5);
    lemma_lookup_first(fields, "tool_name"@, 6);
    lemma_lookup_first(fields, "worker_id"@, 7);
}

/// A run that failed says so, with no confidence, and names its code.
pub proof fn law_failure_is_told(
    spec: SpecView,
    node: NodeView,
    worker: Seq<char>,
    tool: Seq<char>,
    canonical: Option<CanonicalFact>,
    error: ToolFailure,
)
    ensures
        ({
            let r = failed(spec, node, worker, tool, canonical, error);
            let code = failure_code(error.kind, error.outcome());
            &&& r.status == ResultStatus::Error
            &&& r.task_id == spec.context.task_id
            &&& r.node_id == node.node_id
            &&& r.producer == spec.instance_id
            &&& r.confidence_percent == 0
            &&& r.payload == json_text(failure_payload(node, worker, tool, canonical, error))
            &&& r.evidence == seq![
                evidence("runtime"@, worker),
                evidence("tool"@, tool),
                evidence("tool_error"@, code),
            ]
        }),
{
}

/// What the payload of a failure holds under each name.
pub proof fn law_failure_payload(
    node: NodeView,
    worker: Seq<char>,
    tool: Seq<char>,
    canonical: Option<CanonicalFact>,
    error: ToolFailure,
)
    ensures
        ({
            let p = failure_payload(node, worker, tool, canonical, error);
            &&& p.member_text("error_code"@) == Some(failure_code(error.kind, error.outcome()))
            &&& p.member_text("message"@) == Some(error.message@)
            &&& p.member_text("node_id"@) == Some(node.node_id)
            &&& p.member_text("tool_name"@) == Some(tool)
            &&& p.member_text("worker_id"@) == Some(worker)
            &&& error.policy matches Some(policy) ==> p.member("policy_decision"@) == Some(
                policy.decision@,
            )
            &&& canonical matches Some(c) ==> p.member("canonical_execution"@) == Some(c.execution@)
                && p.member_text("digest"@) == Some(c.digest@)
        }),
{
    let p = failure_payload(node, worker, tool, canonical, error);
    let fields = p->Object_0;
    reveal_strlit("canonical_execution");
    reveal_strlit("digest");
    reveal_strlit("error_code");
    reveal_strlit("message");
    reveal_strlit("node_id");
    reveal_strlit("policy_decision");
    reveal_strlit("tool_name");
    reveal_strlit("worker_id");
    assert("canonical_execution"@[0] == 'c' && "digest"@[0] == 'd' && "error_code"@[0] == 'e'
        && "message"@[0] == 'm' && "node_id"@[0] == 'n' && "policy_decision"@[0] == 'p'
        && "tool_name"@[0] == 't' && "worker_id"@[0] == 'w');
    let k = if canonical is Some {
        2int
    } else {
        0int
    };
    let l = if error.policy is Some {
        4 + k
    } else {
        3 + k
    };
    if canonical is Some {
        lemma_lookup_first(fields, "canonical_execution"@, 0);
        lemma_lookup_first(fields, "digest"@, 1);
    }
    lemma_lookup_first(fields, "error_code"@, k);
    lemma_lookup_first(fields, "message"@, k + 1);
    lemma_lookup_first(fields, "node_id"@, k + 2);
    if error.policy is Some {
        lemma_lookup_first(fields, "policy_decision"@, k + 3);
    }
    lemma_lookup_first(fields, "tool_name"@, l);
    lemma_lookup_first(fields, "worker_id"@, l + 1);
}

/// What came of a run decides which of the two results it has; a success is told with a
/// confidence of 90.
pub proof fn law_run_results(
    spec: SpecView,
    node: NodeView,
    producer: Seq<char>,
    tool: Seq<char>,
    canonical: Option<CanonicalFact>,
    execution: ToolExecution,
    error: ToolFailure,
)
    ensures
        run_result(spec, node, producer, tool, canonical, Ok(execution)).status
            == ResultStatus::Success,
        run_result(spec, node, producer, tool, canonical, Ok(execution)).confidence_percent == 90,
        run_result(spec, node, producer, tool, canonical, Err(error)).status == ResultStatus::Error,
        run_result(spec, node, producer, tool, canonical, Err(error)).evidence[2] == evidence(
            "tool_error"@,
            failure_code(error.kind, error.outcome()),
        ),
{
}

/// A task without a budget is refused as an error of the policy.
pub proof fn law_rejection(spec: SpecView, node: NodeView)
    ensures
        rejected(spec, node).status == ResultStatus::Error,
        rejected(spec, node).confidence_percent == 0,
        rejected(spec, node).node_id == node.node_id,
        rejected(spec, node).task_id == spec.context.task_id,
        rejected(spec, node).evidence == seq![evidence("policy"@, "budget-exhausted"@)],
{
}

/// The evidence in an output: the skill, the validation, the paths that were created and
/// the scripts that were run, in that order.
pub proof fn law_evidence_in_an_output(output: JsonView, data: JsonView)
    ensures
        output.member("data"@) == Some(data) ==> output_data(output) == data,
        output.member("data"@) is None ==> output_data(output) == output,
        output_data(output).member_text("selected_skill"@) matches Some(skill) ==> derived_evidence(
            output,
        )[0] == evidence("selected_skill"@, skill),
        output_data(output).member_text("selected_skill"@) is None ==> (output_data(
            output,
        ).member_text("validation_status"@) matches Some(status) ==> derived_evidence(output)[0]
            == evidence("validation_status"@, status)),
{
}

/// A description names the goal and the step.
pub proof fn law_descriptions(goal: Seq<char>, step: Seq<char>, tool: Seq<char>)
    ensures
        described_step(goal, step) == "Goal: "@ + goal + "\nStep: "@ + step,
        step_summary(goal, tool) == "Executing tool `"@ + tool + "` for goal: "@ + goal,
        starts_with(not_enabled(tool), "tool `"@ + tool + "`"@),
{
    let front = "tool `"@ + tool + "`"@;
    let rest = "` is not enabled in the current runtime inventory"@;
    reveal_strlit("` is not enabled in the current runtime inventory");
    reveal_strlit("`");
    assert(rest =~= "`"@ + rest.skip(1));
    assert(not_enabled(tool) =~= front + rest.skip(1));
    lemma_begins(front, rest.skip(1));
}

/// The conversation is handed on turn by turn, each under its role.
pub proof fn law_conversation_text(turns: Seq<TurnView>, i: int)
    ensures
        role_name(ConversationRole::User) == "user"@,
        role_name(ConversationRole::Assistant) == "assistant"@,
        role_name(ConversationRole::System) == "system"@,
        turns.len() == 1 ==> history_text(turns) == role_name(turns[0].role) + ": "@
            + turns[0].content,
        turns.len() == 2 ==> history_text(turns) == role_name(turns[0].role) + ": "@
            + turns[0].content + "\n"@ + (role_name(turns[1].role) + ": "@ + turns[1].content),
        turns.len() == 0 ==> history_text(turns).len() == 0,
{
    let texts = turns.map_values(|t: TurnView| role_name(t.role) + ": "@ + t.content);
    reveal_with_fuel(join, 3);
    if turns.len() == 2 {
        assert(texts.drop_last()[0] == texts[0]);
        assert(history_text(turns) =~= texts[0] + "\n"@ + texts[1]);
    }
}

/// What a tool is run with, beside its own arguments.
pub proof fn law_run_input(request: RunRequest, node: NodeView)
    ensures
        ({
            let p = JsonView::Object(run_input(request, node));
            &&& p.member_unsigned("budget_tokens"@) == Some(8000nat)
            &&& p.member_unsigned("time_budget_ms"@) == Some(60000nat)
            &&& p.member_text("goal"@) == Some(request.goal@)
            &&& p.member_text("task_id"@) == Some(request.task_id@)
            &&& p.member_text("node_id"@) == Some(node.node_id)
            &&& p.member_text("summary"@) == Some(node.description)
            &&& p.member_text("conversation_history"@) == Some(
                history_text(turns_view(request.conversation_history@)),
            )
            &&& p.member("runtime_memory_sections"@) == Some(request.runtime_memory_sections@)
            &&& p.member_items("granted_capabilities"@) matches Some(items) && items.len()
                == node.capabilities.len() && forall|i: int|
                0 <= i < items.len() ==> #[trigger] items[i] == JsonView::Text(
                    node.capabilities[i],
                )
            &&& p.member_items("resource_selectors"@) matches Some(items) && items.len()
                == node.resources.len() && forall|i: int|
                0 <= i < items.len() ==> #[trigger] items[i] == JsonView::Text(
                    node.resources[i].display_key,
                )
        }),
{
    let fields = run_input(request, node);
    reveal_strlit("budget_tokens");
    reveal_strlit("conversation_history");
    reveal_strlit("goal");
    reveal_strlit("granted_capabilities");
    reveal_strlit("node_id");
    reveal_strlit("resource_selectors");
    reveal_strlit("runtime_memory_sections");
    reveal_strlit("summary");
    reveal_strlit("task_id");
    reveal_strlit("time_budget_ms");
    assert("budget_tokens"@[0] == 'b' && "conversation_history"@[0] == 'c' && "goal"@[0] == 'g'
        && "granted_capabilities"@[0] == 'g' && "node_id"@[0] == 'n' && "resource_selectors"@[0]
        == 'r' && "runtime_memory_sections"@[0] == 'r' && "summary"@[0] == 's' && "task_id"@[0]
        == 't' && "time_budget_ms"@[0] == 't');
    assert("goal"@[1] == 'o' && "granted_capabilities"@[1] == 'r' && "resource_selectors"@[1] == 'e'
        && "runtime_memory_sections"@[1] == 'u' && "task_id"@[1] == 'a' && "time_budget_ms"@[1]
        == 'i');
    lemma_lookup_first(fields, "budget_tokens"@, 0);
    lemma_lookup_first(fields, "conversation_history"@, 1);
    lemma_lookup_first(fields, "goal"@, 2);
    lemma_lookup_first(fields, "granted_capabilities"@, 3);
    lemma_lookup_first(fields, "node_id"@, 4);
    lemma_lookup_first(fields, "resource_selectors"@, 5);
    lemma_lookup_first(fields, "runtime_memory_sections"@, 6);
    lemma_lookup_first(fields, "summary"@, 7);
    lemma_lookup_first(fields, "task_id"@, 8);
    lemma_lookup_first(fields, "time_budget_ms"@, 9);
}

/// The node and the instance of a tool run: for the request's task, with the resources
/// and capabilities that were found, and with the budgets of a run.
pub proof fn law_run_nodes(
    request: RunRequest,
    goal: Seq<char>,
    summary: Seq<char>,
    resources: Seq<SelectorView>,
    capabilities: Seq<Seq<char>>,
)
    ensures
        ({
            let node = run_node(goal, summary, resources, capabilities);
            let spec = run_spec(request, node);
            &&& node.node_id == "direct-route"@
            &&& node.kind == TaskNodeKind::Execution
            &&& node.description == "Goal: "@ + goal + "\nStep: "@ + summary
            &&& node.resources == resources
            &&& node.capabilities == capabilities
            &&& node.budget_snapshot.token_budget == 8000
            &&& node.budget_snapshot.time_budget_ms == 60000
            &&& spec.instance_id == "direct-route:"@ + node.node_id
            &&& spec.context.task_id == request.task_id@
            &&& spec.context.node_id == node.node_id
            &&& spec.context.summary == node.description
            &&& spec.context.resources == resources
            &&& spec.context.conversation_history == turns_view(request.conversation_history@)
            &&& spec.capabilities == capabilities
            &&& spec.policy_bindings.budget_tokens == 8000
            &&& spec.policy_bindings.time_budget_ms == 60000
        }),
{
}

/// Resources are added behind the tool's own, each once.
pub proof fn law_run_resources(selector: SelectorView, bound: Seq<SelectorView>)
    ensures
        run_resources(selector, bound).len() > 0,
        run_resources(selector, bound)[0] == selector,
        run_resources(selector, seq![]) == seq![selector],
        forall|i: int|
            0 <= i < bound.len() ==> run_resources(selector, bound).contains(#[trigger] bound[i]),
        forall|i: int|
            0 <= i < run_resources(selector, bound).len() ==> (#[trigger] run_resources(
                selector,
                bound,
            )[i]) == selector || bound.contains(run_resources(selector, bound)[i]),
    decreases bound.len(),
{
    if bound.len() > 0 {
        let front = bound.drop_last();
        law_run_resources(selector, front);
        let before = run_resources(selector, front);
        let after = run_resources(selector, bound);
        assert forall|i: int| 0 <= i < bound.len() implies after.contains(#[trigger] bound[i]) by {
            if i < front.len() {
                assert(front[i] == bound[i]);
                let k = choose|k: int| 0 <= k < before.len() && before[k] == bound[i];
                assert(after[k] == bound[i]);
            } else if before.contains(bound.last()) {
                let k = choose|k: int| 0 <= k < before.len() && before[k] == bound[i];
                assert(after[k] == bound[i]);
            } else {
                assert(after[after.len() - 1] == bound[i]);
            }
        }
        assert forall|i: int| 0 <= i < after.len() implies (#[trigger] after[i]) == selector
            || bound.contains(after[i]) by {
            if i < before.len() {
                assert(after[i] == before[i]);
                if before[i] != selector {
                    let k = choose|k: int| 0 <= k < front.len() && front[k] == before[i];
                    assert(bound[k] == after[i]);
                }
            } else {
                assert(bound[bound.len() - 1] == after[i]);
            }
        }
    }
}

/// An approved task runs with its own capabilities, or those of its resources where it
/// has none, and with at least one token and one millisecond.
pub proof fn law_approved_runs(
    catalog: Seq<DescriptorView>,
    task_id: Seq<char>,
    history: Seq<TurnView>,
    node: NodeView,
    capabilities: Seq<Seq<char>>,
)
    ensures
        node.capabilities.len() > 0 ==> approved_capabilities(catalog, node) == node.capabilities,
        node.capabilities.len() == 0 ==> approved_capabilities(catalog, node) == capabilities_for(
            catalog,
            node.resources,
        ),
        ({
            let spec = approved_spec(task_id, history, node, capabilities);
            &&& spec.instance_id == "approval-resume:"@ + node.node_id
            &&& spec.context.task_id == task_id
            &&& spec.context.node_id == node.node_id
            &&& spec.context.summary == node.description
            &&& spec.context.resources == node.resources
            &&& spec.context.conversation_history == history
            &&& spec.capabilities == capabilities
            &&& spec.policy_bindings.budget_tokens >= 1
            &&& spec.policy_bindings.time_budget_ms >= 1
            &&& node.budget_snapshot.token_budget > 0 ==> spec.policy_bindings.budget_tokens
                == node.budget_snapshot.token_budget
            &&& node.budget_snapshot.time_budget_ms > 0 ==> spec.policy_bindings.time_budget_ms
                == node.budget_snapshot.time_budget_ms
        }),
{
}

/// The result that ends a loop carries its message, its status and how sure it is.
pub proof fn law_terminal_results(
    task_id: Seq<char>,
    name: Seq<char>,
    message: Seq<char>,
    action: StepAction,
    trace: Option<JsonView>,
)
    ensures
        ({
            let good = terminal_result(task_id, name, message, action, ResultStatus::Success, trace);
            let bad = terminal_result(task_id, name, message, action, ResultStatus::Error, trace);
            &&& good.result.status == ResultStatus::Success
            &&& good.result.confidence_percent == 88
            &&& bad.result.status == ResultStatus::Error
            &&& bad.result.confidence_percent == 0
            &&& good.result.task_id == task_id
            &&& good.result.node_id == "runtime-loop:"@ + name
            &&& good.node.node_id == "runtime-loop:"@ + name
            &&& good.node.description == message
            &&& good.terminal_step_action == Some(action)
            &&& bad.terminal_step_action == Some(action)
            &&& terminal_payload(name, message, trace).member_text("message"@) == Some(message)
            &&& terminal_payload(name, message, trace).member_text("runtime_loop"@) == Some(name)
            &&& status_payload(message).member_text("message"@) == Some(message)
            &&& good.result.payload == json_text(terminal_payload(name, message, trace))
        }),
{
    let fields = terminal_payload(name, message, trace)->Object_0;
    let others = status_payload(message)->Object_0;
    reveal_strlit("direct_route");
    reveal_strlit("message");
    reveal_strlit("probe_trace");
    reveal_strlit("runtime_loop");
    assert("direct_route"@[0] == 'd' && "message"@[0] == 'm' && "probe_trace"@[0] == 'p'
        && "runtime_loop"@[0] == 'r');
    lemma_lookup_first(fields, "message"@, 1);
    lemma_lookup_first(fields, "runtime_loop"@, 3);
    lemma_lookup_first(others, "message"@, 1);
}

/// A new worker stands behind those of the same or a higher priority, and before those of
/// a lower one.
pub proof fn law_place_of_a_worker<W>(entries: Seq<WorkerRegistryEntry<W>>, priority: u8)
    ensures
        ({
            let k = place(entries, priority);
            &&& 0 <= k <= entries.len()
            &&& forall|i: int| 0 <= i < k ==> (#[trigger] entries[i]).priority >= priority
            &&& k < entries.len() ==> entries[k].priority < priority
        }),
    decreases entries.len(),
{
    if entries.len() > 0 && entries[0].priority >= priority {
        let rest = entries.skip(1);
        law_place_of_a_worker(rest, priority);
        let k = place(entries, priority);
        assert forall|i: int| 0 <= i < k implies (#[trigger] entries[i]).priority >= priority by {
            if i > 0 {
                assert(rest[i - 1] == entries[i]);
            }
        }
        if k < entries.len() {
            assert(rest[k - 1] == entries[k]);
        }
    }
}

/// The first worker that is for a task runs it.
pub proof fn law_first_worker(marks: Seq<bool>)
    ensures
        match first_marked(marks) {
            Some(i) => 0 <= i < marks.len() && marks[i] && forall|j: int|
                0 <= j < i ==> !#[trigger] marks[j],
            None => forall|j: int| 0 <= j < marks.len() ==> !#[trigger] marks[j],
        },
    decreases marks.len(),
{
    if marks.len() > 0 && !marks[0] {
        let rest = marks.skip(1);
        law_first_worker(rest);
        match first_marked(rest) {
            Some(i) => {
                assert(rest[i] == marks[i + 1]);
                assert forall|j: int| 0 <= j < i + 1 implies !#[trigger] marks[j] by {
                    if j > 0 {
                        assert(rest[j - 1] == marks[j]);
                    }
                }
            },
            None => {
                assert forall|j: int| 0 <= j < marks.len() implies !#[trigger] marks[j] by {
                    if j > 0 {
                        assert(rest[j - 1] == marks[j]);
                    }
                }
            },
        }
    }
}

/// Where no worker is for a task, its goal is the answer, with a confidence of 50.
pub proof fn law_fallback_answer(spec: SpecView, node: NodeView)
    ensures
        fallback(spec, node).status == ResultStatus::Success,
        fallback(spec, node).confidence_percent == 50,
        fallback(spec, node).task_id == spec.context.task_id,
        fallback(spec, node).node_id == node.node_id,
        fallback(spec, node).payload == json_text(
            JsonView::Object(
                seq![
                    FieldView {
                        name: "message"@,
                        value: JsonView::Text(goal_of(node.description)),
                    },
                ],
            ),
        ),
        strip_prefix(node.description, "Goal: "@) is None ==> goal_of(node.description)
            == node.description,
{
}

/// The profiles that a factory begins with, what each of them is for, and its budgets.
pub proof fn law_initial_profiles()
    ensures
        ({
            let p = initial_profiles();
            &&& p.len() == 4
            &&& p[0].profile_id == "research"@
            &&& p[0].capability_prefixes == seq!["information."@, "research."@]
            &&& p[0].default_capabilities == seq!["information.read"@]
            &&& p[0].default_budget_tokens == 10000
            &&& p[0].default_time_budget_ms == 30000
            &&& p[1].profile_id == "data"@
            &&& p[1].capability_prefixes == seq!["data."@]
            &&& p[1].default_capabilities == seq!["data.read"@, "data.write"@]
            &&& p[1].default_budget_tokens == 12000
            &&& p[1].default_time_budget_ms == 35000
            &&& p[2].profile_id == "review"@
            &&& p[2].capability_prefixes == seq!["review."@, "validation."@]
            &&& p[2].default_capabilities == seq!["review.check"@]
            &&& p[2].default_budget_tokens == 8000
            &&& p[2].default_time_budget_ms == 20000
            &&& p[3].profile_id == "general"@
            &&& p[3].capability_prefixes.len() == 0
            &&& p[3].default_capabilities.len() == 0
            &&& p[3].default_budget_tokens == 8000
            &&& p[3].default_time_budget_ms == 20000
        }),
{
}

/// A profile counts the capabilities that begin with one of its prefixes.
pub proof fn law_profile_score(p: ProfileView, list: Seq<Seq<char>>, capability: Seq<char>, k: int)
    ensures
        p.score(seq![]) == 0,
        0 <= k < p.capability_prefixes.len() && starts_with(capability, p.capability_prefixes[k])
            ==> p.score(list.push(capability)) == p.score(list) + 1,
        (forall|i: int|
            0 <= i < p.capability_prefixes.len() ==> !starts_with(
                capability,
                #[trigger] p.capability_prefixes[i],
            )) ==> p.score(list.push(capability)) == p.score(list),
{
    assert(list.push(capability).drop_last() =~= list);
}

/// The profile that fits the most capabilities is taken; where none fits any, the
/// fallback is.
pub proof fn law_best_profile(
    factory: FactoryView,
    capabilities: Seq<Seq<char>>,
    p: ProfileView,
    i: int,
)
    requires
        factory.selects(capabilities, p),
        0 <= i < factory.profiles.len(),
    ensures
        factory.profiles[i].score(capabilities) <= p.score(capabilities),
        p.score(capabilities) == 0 ==> p.profile_id == factory.fallback,
{
}

/// The budgets of an instance: those of its profile, with 500 tokens and a second more for
/// each capability of its node; what does not execute gets at most 6000 tokens and 15
/// seconds.
pub proof fn law_instance_budgets(node: NodeView, profile: ProfileView)
    requires
        node.capabilities.len() < 0x1000_0000,
        profile.default_budget_tokens < 0x1000_0000_0000,
        profile.default_time_budget_ms < 0x1000_0000_0000,
    ensures
        ({
            let b = bindings_for(node, profile);
            let tokens = profile.default_budget_tokens + 500 * node.capabilities.len();
            let time = profile.default_time_budget_ms + 1000 * node.capabilities.len();
            &&& node.kind == TaskNodeKind::Execution ==> b.budget_tokens == tokens
                && b.time_budget_ms == time
            &&& node.kind != TaskNodeKind::Execution ==> b.budget_tokens <= 6000
                && b.time_budget_ms <= 15000
            &&& node.kind != TaskNodeKind::Execution && tokens <= 6000 ==> b.budget_tokens == tokens
            &&& node.kind != TaskNodeKind::Execution && time <= 15000 ==> b.time_budget_ms == time
            &&& node.kind != TaskNodeKind::Execution && tokens >= 6000 ==> b.budget_tokens == 6000
            &&& node.kind != TaskNodeKind::Execution && time >= 15000 ==> b.time_budget_ms == 15000
        }),
{
}

/// An instance is named after its profile and its node, and has the capabilities of both.
pub proof fn law_instances(
    task_id: Seq<char>,
    node: NodeView,
    profile: ProfileView,
    history: Seq<TurnView>,
)
    ensures
        ({
            let spec = instance_of(task_id, node, profile, history);
            &&& spec.instance_id == "agent-"@ + profile.profile_id + "-"@ + node.node_id
            &&& spec.context.task_id == task_id
            &&& spec.context.node_id == node.node_id
            &&& spec.context.summary == node.description
            &&& spec.context.conversation_history == history
            &&& forall|i: int|
                0 <= i < profile.default_capabilities.len() ==> spec.capabilities.contains(
                    #[trigger] profile.default_capabilities[i],
                )
            &&& forall|i: int|
                0 <= i < node.capabilities.len() ==> spec.capabilities.contains(
                    #[trigger] node.capabilities[i],
                )
            &&& spec.policy_bindings == bindings_for(node, profile)
        }),
{
    let first = with_new(seq![], profile.default_capabilities);
    lemma_with_new(Seq::<Seq<char>>::empty(), profile.default_capabilities);
    lemma_with_new(first, node.capabilities);
    let all = merged_capabilities(profile.default_capabilities, node.capabilities);
    assert forall|i: int| 0 <= i < profile.default_capabilities.len() implies all.contains(
        #[trigger] profile.default_capabilities[i],
    ) by {
        let k = choose|k: int| 0 <= k < first.len() && first[k] == profile.default_capabilities[i];
        assert(all.contains(first[k]));
    }
}

/// Adding what is new keeps what there was, in its place, and brings in all the rest.
pub proof fn lemma_with_new(list: Seq<Seq<char>>, more: Seq<Seq<char>>)
    ensures
        with_new(list, more).len() >= list.len(),
        forall|i: int| 0 <= i < list.len() ==> with_new(list, more)[i] == #[trigger] list[i],
        forall|i: int| 0 <= i < list.len() ==> with_new(list, more).contains(#[trigger] list[i]),
        forall|i: int| 0 <= i < more.len() ==> with_new(list, more).contains(#[trigger] more[i]),
        forall|i: int|
            0 <= i < with_new(list, more).len() ==> list.contains(
                #[trigger] with_new(list, more)[i],
            ) || more.contains(with_new(list, more)[i]),
    decreases more.len(),
{
    let after = with_new(list, more);
    if more.len() > 0 {
        let front = more.drop_last();
        lemma_with_new(list, front);
        let before = with_new(list, front);
        assert forall|i: int| 0 <= i < list.len() implies after[i] == #[trigger] list[i] by {
            assert(before[i] == list[i]);
        }
        assert forall|i: int| 0 <= i < more.len() implies after.contains(#[trigger] more[i]) by {
            if i < front.len() {
                assert(front[i] == more[i]);
                let k = choose|k: int| 0 <= k < before.len() && before[k] == more[i];
                assert(after[k] == more[i]);
            } else if before.contains(more.last()) {
                let k = choose|k: int| 0 <= k < before.len() && before[k] == more[i];
                assert(after[k] == more[i]);
            } else {
                assert(after[after.len() - 1] == more[i]);
            }
        }
        assert forall|i: int| 0 <= i < after.len() implies list.contains(#[trigger] after[i])
            || more.contains(after[i]) by {
            if i < before.len() {
                assert(after[i] == before[i]);
                if !list.contains(before[i]) {
                    let k = choose|k: int| 0 <= k < front.len() && front[k] == before[i];
                    assert(more[k] == after[i]);
                }
            } else {
                assert(more[more.len() - 1] == after[i]);
            }
        }
    }
    assert forall|i: int| 0 <= i < list.len() implies after.contains(#[trigger] list[i]) by {
        assert(after[i] == list[i]);
    }
    if more.len() == 0 {
        assert forall|i: int| 0 <= i < after.len() implies list.contains(#[trigger] after[i]) by {
            assert(list[i] == after[i]);
        }
    }
}

/// A loop sees the shortlisted tools that are enabled first, then the baseline, then every
/// other enabled tool.
pub proof fn law_tools_of_a_loop(
    candidates: Seq<Seq<char>>,
    enabled: Seq<Seq<char>>,
    baseline: Seq<Seq<char>>,
    tool: Seq<char>,
)
    ensures
        ({
            let visible = composed_tools(candidates, enabled, baseline);
            &&& forall|i: int|
                0 <= i < enabled.len() ==> visible.contains(#[trigger] enabled[i])
            &&& forall|i: int|
                0 <= i < baseline.len() ==> visible.contains(#[trigger] baseline[i])
            &&& forall|i: int|
                0 <= i < visible.len() ==> enabled.contains(#[trigger] visible[i])
                    || baseline.contains(visible[i])
            &&& enabled.contains(tool) ==> composed_tools(seq![tool], enabled, baseline).len() > 0
                && composed_tools(seq![tool], enabled, baseline)[0] == tool
        }),
{
    lemma_composed(candidates, enabled, baseline);
    if enabled.contains(tool) {
        let one = seq![tool];
        reveal_with_fuel(crate::catalog::with_enabled, 2);
        let none = Seq::<Seq<char>>::empty();
        assert(one.drop_last() =~= none);
        let first = crate::catalog::with_enabled(none, one, enabled);
        assert(first =~= one);
        lemma_with_new(first, baseline);
        lemma_with_new(with_new(first, baseline), enabled);
        assert(with_new(first, baseline)[0] == first[0]);
        assert(with_new(with_new(first, baseline), enabled)[0] == with_new(first, baseline)[0]);
    }
}

proof fn lemma_composed(
    candidates: Seq<Seq<char>>,
    enabled: Seq<Seq<char>>,
    baseline: Seq<Seq<char>>,
)
    ensures
        ({
            let visible = composed_tools(candidates, enabled, baseline);
            &&& forall|i: int|
                0 <= i < enabled.len() ==> visible.contains(#[trigger] enabled[i])
            &&& forall|i: int|
                0 <= i < baseline.len() ==> visible.contains(#[trigger] baseline[i])
            &&& forall|i: int|
                0 <= i < visible.len() ==> enabled.contains(#[trigger] visible[i])
                    || baseline.contains(visible[i])
        }),
{
    let none = Seq::<Seq<char>>::empty();
    let first = crate::catalog::with_enabled(none, candidates, enabled);
    let second = with_new(first, baseline);
    let visible = with_new(second, enabled);
    lemma_enabled_only(candidates, enabled);
    lemma_with_new(first, baseline);
    lemma_with_new(second, enabled);
    assert forall|i: int| 0 <= i < baseline.len() implies visible.contains(
        #[trigger] baseline[i],
    ) by {
        let k = choose|k: int| 0 <= k < second.len() && second[k] == baseline[i];
        assert(visible.contains(second[k]));
    }
    assert forall|i: int| 0 <= i < visible.len() implies enabled.contains(#[trigger] visible[i])
        || baseline.contains(visible[i]) by {
        if second.contains(visible[i]) {
            let k = choose|k: int| 0 <= k < second.len() && second[k] == visible[i];
            assert(first.contains(second[k]) || baseline.contains(second[k]));
            if first.contains(second[k]) {
                let j = choose|j: int| 0 <= j < first.len() && first[j] == second[k];
                assert(enabled.contains(first[j]));
            }
        }
    }
}

proof fn lemma_enabled_only(names: Seq<Seq<char>>, enabled: Seq<Seq<char>>)
    ensures
        forall|i: int|
            0 <= i < crate::catalog::with_enabled(seq![], names, enabled).len()
                ==> enabled.contains(
                #[trigger] crate::catalog::with_enabled(seq![], names, enabled)[i],
            ),
    decreases names.len(),
{
    if names.len() > 0 {
        lemma_enabled_only(names.drop_last(), enabled);
        let none = Seq::<Seq<char>>::empty();
        let before = crate::catalog::with_enabled(none, names.drop_last(), enabled);
        let after = crate::catalog::with_enabled(none, names, enabled);
        assert forall|i: int| 0 <= i < after.len() implies enabled.contains(#[trigger] after[i]) by {
            if i < before.len() {
                assert(after[i] == before[i]);
            }
        }
    }
}

} // verus!
