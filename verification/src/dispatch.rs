//! The tool runs of a loop, and those that were approved later.

use crate::catalog::{
    capabilities_for, catalog_view, route_capabilities, CatalogDescriptor, DescriptorView,
};
use crate::json::{lookup, FieldView, Json, JsonField, JsonView};
use crate::json_build::{
    array_value, field, fields_view, law_merged_lookup, lemma_ordered_by_neighbours,
    merge_json_object, merged, number, number_value, object_value, ordered, push_field, text_array,
    text_value,
};
use crate::json_text::{extract_result_message, result_message};
use crate::observation::{
    clone_selectors, selector_eq, selectors_view, ResourceSelector, SelectorView,
};
use crate::order::{lemma_before_at, text_before};
use crate::result::{
    failed, succeeded, tool_failure_result, tool_success_result, CanonicalFact, ToolExecution,
    ToolFailure,
};
use crate::route::{DirectRouteExecutionResult, ExecutionView};
use crate::split::{clone_list, extend_new, join_text, with_new};
use crate::task::{
    clone_turns, turns_view, AgentContext, AgentInstanceSpec, ContextView, ConversationRole,
    ConversationTurn, EnvelopeView, NodeBudgetSnapshot, NodeView, PolicyBindings, ResultEnvelope,
    SpecView, TaskNode, TaskNodeKind, TurnView,
};
use crate::text::{join, views};
use vstd::prelude::*;

verus! {

pub open spec fn described_step(goal: Seq<char>, step: Seq<char>) -> Seq<char> {
    "Goal: "@ + goal + "\nStep: "@ + step
}

pub fn step_description(goal: &str, step: &str) -> (r: String)
    ensures
        r@ == described_step(goal@, step@),
{
    let mut out: String = "Goal: ".to_owned();
    out.append(goal);
    out.append("\nStep: ");
    out.append(step);
    out
}

pub open spec fn step_summary(goal: Seq<char>, tool: Seq<char>) -> Seq<char> {
    "Executing tool `"@ + tool + "` for goal: "@ + goal
}

pub fn tool_loop_step_summary(goal: &str, tool_name: &str) -> (r: String)
    ensures
        r@ == step_summary(goal@, tool_name@),
{
    let mut out: String = "Executing tool `".to_owned();
    out.append(tool_name);
    out.append("` for goal: ");
    out.append(goal);
    out
}

pub open spec fn role_name(role: ConversationRole) -> Seq<char> {
    match role {
        ConversationRole::User => "user"@,
        ConversationRole::Assistant => "assistant"@,
        ConversationRole::System => "system"@,
    }
}

pub fn role_label(role: ConversationRole) -> (r: &'static str)
    ensures
        r@ == role_name(role),
{
    match role {
        ConversationRole::User => "user",
        ConversationRole::Assistant => "assistant",
        ConversationRole::System => "system",
    }
}

/// The conversation as text, one line for each turn.
pub open spec fn history_text(turns: Seq<TurnView>) -> Seq<char> {
    join(turns.map_values(|t: TurnView| role_name(t.role) + ": "@ + t.content), "\n"@)
}

pub fn render_conversation_history(history: &Vec<ConversationTurn>) -> (r: String)
    ensures
        r@ == history_text(turns_view(history@)),
{
    let ghost all = turns_view(history@).map_values(
        |t: TurnView| role_name(t.role) + ": "@ + t.content,
    );
    let mut lines: Vec<String> = Vec::new();
    let mut i: usize = 0;
    while i < history.len()
        invariant
            i <= history.len(),
            all == turns_view(history@).map_values(
                |t: TurnView| role_name(t.role) + ": "@ + t.content,
            ),
            lines.len() == i,
            forall|j: int| 0 <= j < i ==> (#[trigger] lines@[j])@ == all[j],
        decreases history.len() - i,
    {
        let mut line: String = role_label(history[i].role).to_owned();
        line.append(": ");
        line.append(history[i].content.as_str());
        assert(turns_view(history@)[i as int] == history@[i as int]@);
        lines.push(line);
        i = i + 1;
    }
    assert(views(lines@) =~= all);
    join_text(&lines, "\n")
}

/// The resources with each of the others that is not among them.
pub open spec fn with_resources(
    list: Seq<SelectorView>,
    more: Seq<SelectorView>,
) -> Seq<SelectorView>
    decreases more.len(),
{
    if more.len() == 0 {
        list
    } else {
        let before = with_resources(list, more.drop_last());
        if before.contains(more.last()) {
            before
        } else {
            before.push(more.last())
        }
    }
}

fn has_selector(list: &Vec<ResourceSelector>, selector: &ResourceSelector) -> (r: bool)
    ensures
        r == selectors_view(list@).contains(selector@),
{
    let ghost all = selectors_view(list@);
    let mut i: usize = 0;
    while i < list.len()
        invariant
            i <= list.len(),
            all == selectors_view(list@),
            forall|j: int| 0 <= j < i ==> #[trigger] all[j] != selector@,
        decreases list.len() - i,
    {
        assert(all[i as int] == list@[i as int]@);
        if selector_eq(&list[i], selector) {
            return true;
        }
        i = i + 1;
    }
    false
}

fn extend_resources(list: &mut Vec<ResourceSelector>, more: &Vec<ResourceSelector>)
    ensures
        selectors_view(final(list)@) == with_resources(
            selectors_view(old(list)@),
            selectors_view(more@),
        ),
{
    let ghost before = selectors_view(list@);
    let ghost all = selectors_view(more@);
    let mut i: usize = 0;
    assert(all.take(0) =~= seq![]);
    while i < more.len()
        invariant
            i <= more.len(),
            all == selectors_view(more@),
            selectors_view(list@) == with_resources(before, all.take(i as int)),
        decreases more.len() - i,
    {
        assert(all.take(i + 1).drop_last() =~= all.take(i as int));
        assert(all.take(i + 1).last() == more@[i as int]@);
        if !has_selector(list, &more[i]) {
            let s: ResourceSelector = more[i].clone();
            assert(selectors_view(list@.push(s)) =~= selectors_view(list@).push(s@));
            list.push(s);
        }
        i = i + 1;
    }
    assert(all.take(i as int) =~= all);
}

/// The display keys of the resources.
pub open spec fn display_keys(resources: Seq<SelectorView>) -> Seq<Seq<char>> {
    resources.map_values(|s: SelectorView| s.display_key)
}

fn display_keys_of(resources: &Vec<ResourceSelector>) -> (r: Vec<String>)
    ensures
        views(r@) == display_keys(selectors_view(resources@)),
{
    let ghost all = display_keys(selectors_view(resources@));
    let mut out: Vec<String> = Vec::new();
    let mut i: usize = 0;
    while i < resources.len()
        invariant
            i <= resources.len(),
            all == display_keys(selectors_view(resources@)),
            out.len() == i,
            forall|j: int| 0 <= j < i ==> (#[trigger] out@[j])@ == all[j],
        decreases resources.len() - i,
    {
        assert(selectors_view(resources@)[i as int] == resources@[i as int]@);
        out.push(resources[i].display_key.clone());
        i = i + 1;
    }
    assert(views(out@) =~= all);
    out
}

/// What a tool run needs: the tool, its input, and the key that names the run.
#[derive(Debug)]
pub struct ToolInvocation {
    pub tool_name: String,
    pub input: Json,
    pub skip_policy_check: bool,
    pub granted_capabilities: Vec<String>,
    pub invocation_key: String,
    pub attachments: Vec<String>,
}

#[verifier::ext_equal]
pub struct InvocationView {
    pub tool_name: Seq<char>,
    pub input: JsonView,
    pub skip_policy_check: bool,
    pub granted_capabilities: Seq<Seq<char>>,
    pub invocation_key: Seq<char>,
    pub attachments: Seq<Seq<char>>,
}

impl View for ToolInvocation {
    type V = InvocationView;

    open spec fn view(&self) -> InvocationView {
        InvocationView {
            tool_name: self.tool_name@,
            input: self.input@,
            skip_policy_check: self.skip_policy_check,
            granted_capabilities: views(self.granted_capabilities@),
            invocation_key: self.invocation_key@,
            attachments: views(self.attachments@),
        }
    }
}

/// A tool run that is about to be made: its node, its instance and the call.
#[derive(Debug)]
pub struct PreparedInvocation {
    pub node: TaskNode,
    pub spec: AgentInstanceSpec,
    pub invocation: ToolInvocation,
}

/// The request that a tool run is for.
pub struct RunRequest<'a> {
    pub task_id: &'a str,
    pub goal: &'a str,
    pub conversation_history: &'a Vec<ConversationTurn>,
    pub runtime_memory_sections: &'a Json,
}

/// The node of a direct tool run.
pub open spec fn run_node(
    goal: Seq<char>,
    summary: Seq<char>,
    resources: Seq<SelectorView>,
    capabilities: Seq<Seq<char>>,
) -> NodeView {
    NodeView {
        node_id: "direct-route"@,
        kind: TaskNodeKind::Execution,
        description: described_step(goal, summary),
        resources,
        capabilities,
        budget_snapshot: NodeBudgetSnapshot { token_budget: 8_000, time_budget_ms: 60_000 },
        capability_requirements_snapshot: capabilities,
    }
}

/// The instance of a direct tool run.
pub open spec fn run_spec(request: RunRequest, node: NodeView) -> SpecView {
    SpecView {
        instance_id: "direct-route:"@ + node.node_id,
        context: ContextView {
            task_id: request.task_id@,
            node_id: node.node_id,
            summary: node.description,
            resources: node.resources,
            conversation_history: turns_view(request.conversation_history@),
            runtime_memory_sections: request.runtime_memory_sections@,
        },
        capabilities: node.capabilities,
        policy_bindings: PolicyBindings { budget_tokens: 8_000, time_budget_ms: 60_000 },
    }
}

/// What the tool is told of the run besides its arguments.
pub open spec fn run_input(request: RunRequest, node: NodeView) -> Seq<FieldView> {
    seq![
        field("budget_tokens"@, number(8_000)),
        field(
            "conversation_history"@,
            JsonView::Text(history_text(turns_view(request.conversation_history@))),
        ),
        field("goal"@, JsonView::Text(request.goal@)),
        field("granted_capabilities"@, text_array(node.capabilities)),
        field("node_id"@, JsonView::Text(node.node_id)),
        field("resource_selectors"@, text_array(display_keys(node.resources))),
        field("runtime_memory_sections"@, request.runtime_memory_sections@),
        field("summary"@, JsonView::Text(node.description)),
        field("task_id"@, JsonView::Text(request.task_id@)),
        field("time_budget_ms"@, number(60_000)),
    ]
}

fn build_run_input(request: &RunRequest, node: &TaskNode) -> (r: Json)
    ensures
        r@ == JsonView::Object(run_input(*request, node@)),
{
    let history: String = render_conversation_history(request.conversation_history);
    let keys: Vec<String> = display_keys_of(&node.resources);
    let mut fields: Vec<JsonField> = Vec::new();
    push_field(&mut fields, "budget_tokens", number_value(8_000));
    push_field(&mut fields, "conversation_history", text_value(history.as_str()));
    push_field(&mut fields, "goal", text_value(request.goal));
    push_field(&mut fields, "granted_capabilities", array_value(&node.capabilities));
    push_field(&mut fields, "node_id", text_value(node.node_id.as_str()));
    push_field(&mut fields, "resource_selectors", array_value(&keys));
    push_field(&mut fields, "runtime_memory_sections", request.runtime_memory_sections.clone());
    push_field(&mut fields, "summary", text_value(node.description.as_str()));
    push_field(&mut fields, "task_id", text_value(request.task_id));
    push_field(&mut fields, "time_budget_ms", number_value(60_000));
    assert(fields_view(fields@) =~= run_input(*request, node@));
    object_value(fields)
}

/// The resources of a run: the tool's own, then the bound ones.
pub open spec fn run_resources(
    selector: SelectorView,
    bound: Seq<SelectorView>,
) -> Seq<SelectorView> {
    with_resources(seq![selector], bound)
}

/// Prepares the run of a tool with these arguments: the arguments go over what the
/// tool is told of the run.
pub fn prepare_tool_invocation(
    catalog: &Vec<CatalogDescriptor>,
    request: &RunRequest,
    selector: &ResourceSelector,
    arguments: &Json,
    attachments: &Vec<String>,
    bound_resources: &Vec<ResourceSelector>,
    step_summary: &str,
) -> (r: PreparedInvocation)
    ensures
        ({
            let resources = run_resources(selector@, selectors_view(bound_resources@));
            let capabilities = capabilities_for(catalog_view(catalog@), resources);
            let node = run_node(request.goal@, step_summary@, resources, capabilities);
            &&& r.node@ == node
            &&& r.spec@ == run_spec(*request, node)
            &&& r.invocation@ == InvocationView {
                tool_name: selector@.name,
                input: merged(JsonView::Object(run_input(*request, node)), arguments@),
                skip_policy_check: false,
                granted_capabilities: capabilities,
                invocation_key: request.task_id@ + ":"@ + node.node_id + ":"@
                    + selector@.display_key,
                attachments: views(attachments@),
            }
        }),
{
    let mut resources: Vec<ResourceSelector> = Vec::new();
    resources.push(selector.clone());
    assert(selectors_view(resources@) =~= seq![selector@]);
    extend_resources(&mut resources, bound_resources);
    let capabilities: Vec<String> = route_capabilities(catalog, &resources);
    let node: TaskNode = TaskNode {
        node_id: "direct-route".to_owned(),
        kind: TaskNodeKind::Execution,
        description: step_description(request.goal, step_summary),
        resources: clone_selectors(&resources),
        capabilities: clone_list(&capabilities),
        budget_snapshot: NodeBudgetSnapshot { token_budget: 8_000, time_budget_ms: 60_000 },
        capability_requirements_snapshot: clone_list(&capabilities),
    };
    let mut instance_id: String = "direct-route:".to_owned();
    instance_id.append(node.node_id.as_str());
    let spec: AgentInstanceSpec = AgentInstanceSpec {
        instance_id,
        context: AgentContext {
            task_id: request.task_id.to_owned(),
            node_id: node.node_id.clone(),
            summary: node.description.clone(),
            resources,
            conversation_history: clone_turns(request.conversation_history),
            runtime_memory_sections: request.runtime_memory_sections.clone(),
        },
        capabilities: clone_list(&capabilities),
        policy_bindings: PolicyBindings { budget_tokens: 8_000, time_budget_ms: 60_000 },
    };
    let mut input: Json = build_run_input(request, &node);
    merge_json_object(&mut input, arguments);
    let mut invocation_key: String = request.task_id.to_owned();
    invocation_key.append(":");
    invocation_key.append(node.node_id.as_str());
    invocation_key.append(":");
    invocation_key.append(selector.display_key.as_str());
    let invocation: ToolInvocation = ToolInvocation {
        tool_name: selector.name.clone(),
        input,
        skip_policy_check: false,
        granted_capabilities: capabilities,
        invocation_key,
        attachments: clone_list(attachments),
    };
    PreparedInvocation { node, spec, invocation }
}

/// The result of a run, given what the tool gave.
pub open spec fn run_result(
    spec: SpecView,
    node: NodeView,
    producer: Seq<char>,
    tool: Seq<char>,
    canonical: Option<CanonicalFact>,
    outcome: Result<ToolExecution, ToolFailure>,
) -> EnvelopeView {
    match outcome {
        Ok(execution) => succeeded(spec, node, producer, tool, execution, 90),
        Err(error) => failed(spec, node, producer, tool, canonical, error),
    }
}

fn build_run_result(
    spec: &AgentInstanceSpec,
    node: &TaskNode,
    producer: &str,
    tool: &str,
    canonical: &Option<CanonicalFact>,
    outcome: &Result<ToolExecution, ToolFailure>,
) -> (r: ResultEnvelope)
    ensures
        r@ == run_result(spec@, node@, producer@, tool@, *canonical, *outcome),
{
    match outcome {
        Ok(execution) => tool_success_result(spec, node, producer, tool, execution, 90),
        Err(error) => tool_failure_result(spec, node, producer, tool, canonical, error),
    }
}

/// The result of a direct tool run, given what the tool gave.
pub fn finish_tool_invocation(
    prepared: PreparedInvocation,
    canonical_execution: &Option<CanonicalFact>,
    outcome: &Result<ToolExecution, ToolFailure>,
) -> (r: DirectRouteExecutionResult)
    ensures
        ({
            let result = run_result(
                prepared.spec@,
                prepared.node@,
                "direct-route"@,
                prepared.invocation@.tool_name,
                *canonical_execution,
                *outcome,
            );
            r@ == ExecutionView {
                node: prepared.node@,
                result,
                message: result_message(result.payload),
                terminal_step_action: None,
            }
        }),
{
    let result: ResultEnvelope = build_run_result(
        &prepared.spec,
        &prepared.node,
        "direct-route",
        prepared.invocation.tool_name.as_str(),
        canonical_execution,
        outcome,
    );
    let message: String = extract_result_message(result.payload.as_str());
    DirectRouteExecutionResult {
        node: prepared.node,
        result,
        message,
        terminal_step_action: None,
    }
}

pub open spec fn at_least_one(n: u64) -> u64 {
    if n == 0 {
        1
    } else {
        n
    }
}

/// The capabilities of an approved run: the node's own, or those of its resources.
pub open spec fn approved_capabilities(
    catalog: Seq<DescriptorView>,
    node: NodeView,
) -> Seq<Seq<char>> {
    if node.capabilities.len() == 0 {
        capabilities_for(catalog, node.resources)
    } else {
        node.capabilities
    }
}

/// The instance of a run that was approved after its node had been held.
pub open spec fn approved_spec(
    task_id: Seq<char>,
    history: Seq<TurnView>,
    node: NodeView,
    capabilities: Seq<Seq<char>>,
) -> SpecView {
    SpecView {
        instance_id: "approval-resume:"@ + node.node_id,
        context: ContextView {
            task_id,
            node_id: node.node_id,
            summary: node.description,
            resources: node.resources,
            conversation_history: history,
            runtime_memory_sections: JsonView::Null,
        },
        capabilities,
        policy_bindings: PolicyBindings {
            budget_tokens: at_least_one(node.budget_snapshot.token_budget),
            time_budget_ms: at_least_one(node.budget_snapshot.time_budget_ms),
        },
    }
}

fn one_at_least(n: u64) -> (r: u64)
    ensures
        r == at_least_one(n),
{
    if n == 0 {
        1
    } else {
        n
    }
}

/// Prepares a run that was approved: the policy is not asked again.
pub fn prepare_approved_invocation(
    catalog: &Vec<CatalogDescriptor>,
    task_id: &str,
    conversation_history: &Vec<ConversationTurn>,
    node: &TaskNode,
    tool_name: &str,
    input: &Json,
) -> (r: PreparedInvocation)
    ensures
        ({
            let capabilities = approved_capabilities(catalog_view(catalog@), node@);
            &&& r.node@ == node@
            &&& r.spec@ == approved_spec(
                task_id@,
                turns_view(conversation_history@),
                node@,
                capabilities,
            )
            &&& r.invocation@ == InvocationView {
                tool_name: tool_name@,
                input: input@,
                skip_policy_check: true,
                granted_capabilities: capabilities,
                invocation_key: task_id@ + ":"@ + node@.node_id + ":approved"@,
                attachments: seq![],
            }
        }),
{
    assert(node@.capabilities.len() == node.capabilities@.len());
    let capabilities: Vec<String> = if node.capabilities.len() == 0 {
        route_capabilities(catalog, &node.resources)
    } else {
        clone_list(&node.capabilities)
    };
    let mut instance_id: String = "approval-resume:".to_owned();
    instance_id.append(node.node_id.as_str());
    let spec: AgentInstanceSpec = AgentInstanceSpec {
        instance_id,
        context: AgentContext {
            task_id: task_id.to_owned(),
            node_id: node.node_id.clone(),
            summary: node.description.clone(),
            resources: clone_selectors(&node.resources),
            conversation_history: clone_turns(conversation_history),
            runtime_memory_sections: Json::Null,
        },
        capabilities: clone_list(&capabilities),
        policy_bindings: PolicyBindings {
            budget_tokens: one_at_least(node.budget_snapshot.token_budget),
            time_budget_ms: one_at_least(node.budget_snapshot.time_budget_ms),
        },
    };
    let mut invocation_key: String = task_id.to_owned();
    invocation_key.append(":");
    invocation_key.append(node.node_id.as_str());
    invocation_key.append(":approved");
    let invocation: ToolInvocation = ToolInvocation {
        tool_name: tool_name.to_owned(),
        input: input.clone(),
        skip_policy_check: true,
        granted_capabilities: capabilities,
        invocation_key,
        attachments: Vec::new(),
    };
    assert(views(invocation.attachments@) =~= seq![]);
    PreparedInvocation { node: node.clone(), spec, invocation }
}

/// The result of an approved run, given what the tool gave.
pub fn finish_approved_invocation(
    prepared: &PreparedInvocation,
    canonical_execution: &Option<CanonicalFact>,
    outcome: &Result<ToolExecution, ToolFailure>,
) -> (r: ResultEnvelope)
    ensures
        r@ == run_result(
            prepared.spec@,
            prepared.node@,
            "approval-resume"@,
            prepared.invocation@.tool_name,
            *canonical_execution,
            *outcome,
        ),
{
    build_run_result(
        &prepared.spec,
        &prepared.node,
        "approval-resume",
        prepared.invocation.tool_name.as_str(),
        canonical_execution,
        outcome,
    )
}

/// What a command may touch.
#[derive(Debug)]
pub struct ExecutionResourceScope {
    pub working_directory: String,
    pub resolved_targets: Vec<String>,
    pub effective_read_roots: Vec<String>,
    pub effective_write_roots: Vec<String>,
}

/// The scope of an approved command: it may read its targets.
pub fn approved_scope_for_resume(scope: &ExecutionResourceScope) -> (r: ExecutionResourceScope)
    ensures
        r.working_directory@ == scope.working_directory@,
        views(r.resolved_targets@) == views(scope.resolved_targets@),
        views(r.effective_read_roots@) == with_new(
            views(scope.effective_read_roots@),
            views(scope.resolved_targets@),
        ),
        views(r.effective_write_roots@) == views(scope.effective_write_roots@),
{
    let mut read_roots: Vec<String> = clone_list(&scope.effective_read_roots);
    extend_new(&mut read_roots, &scope.resolved_targets);
    ExecutionResourceScope {
        working_directory: scope.working_directory.clone(),
        resolved_targets: clone_list(&scope.resolved_targets),
        effective_read_roots: read_roots,
        effective_write_roots: clone_list(&scope.effective_write_roots),
    }
}

/// The names of what a tool is told of its run stand in their order.
proof fn lemma_run_input_ordered(request: RunRequest, node: NodeView)
    ensures
        ordered(run_input(request, node)),
{
    reveal_strlit("budget_tokens");
    reveal_strlit("conversation_history");
    reveal_strlit("goal");
    reveal_strlit("granted_capabilities");
    reveal_strlit("node_id");
    reveal_strlit("resource_selectors");
    reveal_strlit("runtime_memory_sections");
    reveal_strlit("summary");
    reveal_strlit("task_id");
    reveal_strlit("time_budget_ms");
    lemma_before_at("budget_tokens"@, "conversation_history"@, 0);
    lemma_before_at("conversation_history"@, "goal"@, 0);
    lemma_before_at("goal"@, "granted_capabilities"@, 1);
    lemma_before_at("granted_capabilities"@, "node_id"@, 0);
    lemma_before_at("node_id"@, "resource_selectors"@, 0);
    lemma_before_at("resource_selectors"@, "runtime_memory_sections"@, 1);
    lemma_before_at("runtime_memory_sections"@, "summary"@, 0);
    lemma_before_at("summary"@, "task_id"@, 0);
    lemma_before_at("task_id"@, "time_budget_ms"@, 1);
    let fields = run_input(request, node);
    assert forall|i: int| 0 <= i < fields.len() - 1 implies text_before(
        (#[trigger] fields[i]).name,
        fields[i + 1].name,
    ) by {}
    lemma_ordered_by_neighbours(fields);
}

/// What the model gives as an argument goes before what the run would say under the
/// same name, and everything else that the run says is there.
pub proof fn law_arguments_win(
    request: RunRequest,
    node: NodeView,
    arguments: Seq<FieldView>,
    name: Seq<char>,
)
    requires
        ordered(arguments),
    ensures
        merged(
            JsonView::Object(run_input(request, node)),
            JsonView::Object(arguments),
        ).member(name) == (match lookup(arguments, name) {
            Some(value) => Some(value),
            None => lookup(run_input(request, node), name),
        }),
{
    lemma_run_input_ordered(request, node);
    law_merged_lookup(run_input(request, node), arguments, name);
}

} // verus!
