//! Task nodes, the agent instances that run them, and their results.

use crate::json::{Json, JsonView};
use crate::observation::{clone_selectors, selectors_view, ResourceSelector, SelectorView};
use crate::split::clone_list;
use crate::text::views;
use vstd::prelude::*;

verus! {

/// The schema of every result.
pub const RESULT_SCHEMA_VERSION: &'static str = "result.v1";

#[derive(Debug, Clone, Copy, PartialEq, Eq, Structural)]
pub enum ConversationRole {
    User,
    Assistant,
    System,
}

#[derive(Debug)]
pub struct ConversationTurn {
    pub role: ConversationRole,
    pub content: String,
}

pub struct TurnView {
    pub role: ConversationRole,
    pub content: Seq<char>,
}

impl View for ConversationTurn {
    type V = TurnView;

    open spec fn view(&self) -> TurnView {
        TurnView { role: self.role, content: self.content@ }
    }
}

impl Clone for ConversationTurn {
    fn clone(&self) -> (r: Self)
        ensures
            r@ == self@,
    {
        ConversationTurn { role: self.role, content: self.content.clone() }
    }
}

pub open spec fn turns_view(turns: Seq<ConversationTurn>) -> Seq<TurnView> {
    turns.map_values(|t: ConversationTurn| t@)
}

pub fn clone_turns(turns: &Vec<ConversationTurn>) -> (r: Vec<ConversationTurn>)
    ensures
        turns_view(r@) == turns_view(turns@),
{
    let mut out: Vec<ConversationTurn> = Vec::new();
    let mut i: usize = 0;
    while i < turns.len()
        invariant
            i <= turns.len(),
            out.len() == i,
            forall|j: int| 0 <= j < i ==> (#[trigger] out@[j])@ == turns@[j]@,
        decreases turns.len() - i,
    {
        out.push(turns[i].clone());
        i = i + 1;
    }
    assert(turns_view(out@) =~= turns_view(turns@));
    out
}

#[derive(Debug, Clone, Copy, PartialEq, Eq, Structural)]
pub enum TaskNodeKind {
    Execution,
    Validation,
    Aggregation,
}

#[derive(Debug, Clone, Copy, PartialEq, Eq, Structural)]
pub struct PolicyBindings {
    pub budget_tokens: u64,
    pub time_budget_ms: u64,
}

#[derive(Debug, Clone, Copy, PartialEq, Eq, Structural)]
pub struct NodeBudgetSnapshot {
    pub token_budget: u64,
    pub time_budget_ms: u64,
}

#[derive(Debug)]
pub struct TaskNode {
    pub node_id: String,
    pub kind: TaskNodeKind,
    pub description: String,
    pub resources: Vec<ResourceSelector>,
    pub capabilities: Vec<String>,
    pub budget_snapshot: NodeBudgetSnapshot,
    pub capability_requirements_snapshot: Vec<String>,
}

#[verifier::ext_equal]
pub struct NodeView {
    pub node_id: Seq<char>,
    pub kind: TaskNodeKind,
    pub description: Seq<char>,
    pub resources: Seq<SelectorView>,
    pub capabilities: Seq<Seq<char>>,
    pub budget_snapshot: NodeBudgetSnapshot,
    pub capability_requirements_snapshot: Seq<Seq<char>>,
}

impl View for TaskNode {
    type V = NodeView;

    open spec fn view(&self) -> NodeView {
        NodeView {
            node_id: self.node_id@,
            kind: self.kind,
            description: self.description@,
            resources: selectors_view(self.resources@),
            capabilities: views(self.capabilities@),
            budget_snapshot: self.budget_snapshot,
            capability_requirements_snapshot: views(self.capability_requirements_snapshot@),
        }
    }
}

impl Clone for TaskNode {
    fn clone(&self) -> (r: Self)
        ensures
            r@ == self@,
    {
        TaskNode {
            node_id: self.node_id.clone(),
            kind: self.kind,
            description: self.description.clone(),
            resources: clone_selectors(&self.resources),
            capabilities: clone_list(&self.capabilities),
            budget_snapshot: self.budget_snapshot,
            capability_requirements_snapshot: clone_list(&self.capability_requirements_snapshot),
        }
    }
}

/// A node without resources or capabilities and with empty budgets.
pub open spec fn status_node(node_id: Seq<char>, description: Seq<char>) -> NodeView {
    NodeView {
        node_id,
        kind: TaskNodeKind::Execution,
        description,
        resources: seq![],
        capabilities: seq![],
        budget_snapshot: NodeBudgetSnapshot { token_budget: 0, time_budget_ms: 0 },
        capability_requirements_snapshot: seq![],
    }
}

impl TaskNode {
    /// A node without resources or capabilities and with empty budgets.
    pub fn status(node_id: &str, description: &str) -> (r: Self)
        ensures
            r@ == status_node(node_id@, description@),
    {
        let r: TaskNode = TaskNode {
            node_id: node_id.to_owned(),
            kind: TaskNodeKind::Execution,
            description: description.to_owned(),
            resources: Vec::new(),
            capabilities: Vec::new(),
            budget_snapshot: NodeBudgetSnapshot { token_budget: 0, time_budget_ms: 0 },
            capability_requirements_snapshot: Vec::new(),
        };
        assert(r@ =~= status_node(node_id@, description@));
        r
    }
}

#[derive(Debug)]
pub struct AgentContext {
    pub task_id: String,
    pub node_id: String,
    pub summary: String,
    pub resources: Vec<ResourceSelector>,
    pub conversation_history: Vec<ConversationTurn>,
    pub runtime_memory_sections: Json,
}

#[verifier::ext_equal]
pub struct ContextView {
    pub task_id: Seq<char>,
    pub node_id: Seq<char>,
    pub summary: Seq<char>,
    pub resources: Seq<SelectorView>,
    pub conversation_history: Seq<TurnView>,
    pub runtime_memory_sections: JsonView,
}

impl View for AgentContext {
    type V = ContextView;

    open spec fn view(&self) -> ContextView {
        ContextView {
            task_id: self.task_id@,
            node_id: self.node_id@,
            summary: self.summary@,
            resources: selectors_view(self.resources@),
            conversation_history: turns_view(self.conversation_history@),
            runtime_memory_sections: self.runtime_memory_sections@,
        }
    }
}

/// An agent instance, ready to run a node.
#[derive(Debug)]
pub struct AgentInstanceSpec {
    pub instance_id: String,
    pub context: AgentContext,
    pub capabilities: Vec<String>,
    pub policy_bindings: PolicyBindings,
}

#[verifier::ext_equal]
pub struct SpecView {
    pub instance_id: Seq<char>,
    pub context: ContextView,
    pub capabilities: Seq<Seq<char>>,
    pub policy_bindings: PolicyBindings,
}

impl View for AgentInstanceSpec {
    type V = SpecView;

    open spec fn view(&self) -> SpecView {
        SpecView {
            instance_id: self.instance_id@,
            context: self.context@,
            capabilities: views(self.capabilities@),
            policy_bindings: self.policy_bindings,
        }
    }
}

#[derive(Debug, Clone, Copy, PartialEq, Eq, Structural)]
pub enum ResultStatus {
    Success,
    Error,
}

#[derive(Debug)]
pub struct EvidenceItem {
    pub kind: String,
    pub value: String,
}

pub struct EvidenceView {
    pub kind: Seq<char>,
    pub value: Seq<char>,
}

impl View for EvidenceItem {
    type V = EvidenceView;

    open spec fn view(&self) -> EvidenceView {
        EvidenceView { kind: self.kind@, value: self.value@ }
    }
}

pub open spec fn evidence_view(items: Seq<EvidenceItem>) -> Seq<EvidenceView> {
    items.map_values(|e: EvidenceItem| e@)
}

pub open spec fn evidence(kind: Seq<char>, value: Seq<char>) -> EvidenceView {
    EvidenceView { kind, value }
}

/// Adds a piece of evidence at the end.
pub fn push_evidence(items: &mut Vec<EvidenceItem>, kind: &str, value: &str)
    ensures
        evidence_view(final(items)@) == evidence_view(old(items)@).push(evidence(kind@, value@)),
{
    let item: EvidenceItem = EvidenceItem { kind: kind.to_owned(), value: value.to_owned() };
    assert(evidence_view(items@.push(item)) =~= evidence_view(items@).push(
        evidence(kind@, value@),
    ));
    items.push(item);
}

/// The result of running a node. The payload is the text of a JSON object, the
/// confidence a number of hundredths.
#[derive(Debug)]
pub struct ResultEnvelope {
    pub task_id: String,
    pub node_id: String,
    pub producer: String,
    pub schema_version: String,
    pub status: ResultStatus,
    pub payload: String,
    pub evidence: Vec<EvidenceItem>,
    pub confidence_percent: u32,
}

#[verifier::ext_equal]
pub struct EnvelopeView {
    pub task_id: Seq<char>,
    pub node_id: Seq<char>,
    pub producer: Seq<char>,
    pub schema_version: Seq<char>,
    pub status: ResultStatus,
    pub payload: Seq<char>,
    pub evidence: Seq<EvidenceView>,
    pub confidence_percent: u32,
}

impl View for ResultEnvelope {
    type V = EnvelopeView;

    open spec fn view(&self) -> EnvelopeView {
        EnvelopeView {
            task_id: self.task_id@,
            node_id: self.node_id@,
            producer: self.producer@,
            schema_version: self.schema_version@,
            status: self.status,
            payload: self.payload@,
            evidence: evidence_view(self.evidence@),
            confidence_percent: self.confidence_percent,
        }
    }
}

} // verus!
