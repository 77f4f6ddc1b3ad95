//! Workers in the order in which they are tried, and what is done without one.

use crate::json::{JsonField, JsonView};
use crate::json_build::{field, fields_view, object_value, push_field, text_value};
use crate::json_text::{json_text, render_json};
use crate::result::{policy_rejection_result, rejected};
use crate::task::{
    evidence, evidence_view, push_evidence, AgentInstanceSpec, EnvelopeView, EvidenceItem, NodeView,
    ResultEnvelope, ResultStatus, SpecView, TaskNode, RESULT_SCHEMA_VERSION,
};
use crate::text::{
    chars_of, contains, find, find_chars, lemma_find, occurs_at, string_from, strip_prefix,
    strip_prefix_text,
};
use vstd::prelude::*;

verus! {

/// A worker and how early it is tried.
#[derive(Debug)]
pub struct WorkerRegistryEntry<W> {
    pub priority: u8,
    pub worker: W,
}

/// A worker with a higher priority comes before one with a lower one.
pub open spec fn by_priority<W>(entries: Seq<WorkerRegistryEntry<W>>) -> bool {
    forall|i: int, j: int|
        0 <= i <= j < entries.len() ==> (#[trigger] entries[i]).priority >= (
        #[trigger] entries[j]).priority
}

/// Where a worker of that priority goes: behind all that are tried no later.
pub open spec fn place<W>(entries: Seq<WorkerRegistryEntry<W>>, priority: u8) -> int
    decreases entries.len(),
{
    if entries.len() == 0 || entries[0].priority < priority {
        0
    } else {
        1 + place(entries.skip(1), priority)
    }
}

proof fn lemma_place<W>(entries: Seq<WorkerRegistryEntry<W>>, priority: u8, i: int)
    requires
        0 <= i <= entries.len(),
        forall|j: int| 0 <= j < i ==> (#[trigger] entries[j]).priority >= priority,
        i < entries.len() ==> entries[i].priority < priority,
    ensures
        place(entries, priority) == i,
    decreases i,
{
    if i > 0 {
        assert(entries[0].priority >= priority);
        assert forall|j: int| 0 <= j < i - 1 implies (#[trigger] entries.skip(1)[j]).priority
            >= priority by {
            assert(entries.skip(1)[j] == entries[j + 1]);
        }
        if i < entries.len() {
            assert(entries.skip(1)[i - 1] == entries[i]);
        }
        lemma_place(entries.skip(1), priority, i - 1);
    }
}

/// Adds a worker behind all that are tried no later than it.
pub fn register_worker<W>(entries: &mut Vec<WorkerRegistryEntry<W>>, priority: u8, worker: W)
    requires
        by_priority(old(entries)@),
    ensures
        final(entries)@ == old(entries)@.insert(
            place(old(entries)@, priority),
            (WorkerRegistryEntry { priority, worker }),
        ),
        by_priority(final(entries)@),
        0 <= place(old(entries)@, priority) <= old(entries)@.len(),
{
    let ghost before = entries@;
    let mut i: usize = 0;
    while i < entries.len() && entries[i].priority >= priority
        invariant
            i <= entries.len(),
            entries@ == before,
            forall|j: int| 0 <= j < i ==> (#[trigger] before[j]).priority >= priority,
        decreases entries.len() - i,
    {
        i = i + 1;
    }
    proof {
        lemma_place(before, priority, i as int);
    }
    entries.insert(i, WorkerRegistryEntry { priority, worker });
    proof {
        let after = entries@;
        assert forall|a: int, b: int| 0 <= a <= b < after.len() implies (
        #[trigger] after[a]).priority >= (#[trigger] after[b]).priority by {
            let x = if a <= i {
                a
            } else {
                a - 1
            };
            let y = if b <= i {
                b
            } else {
                b - 1
            };
            if a < i {
                assert(after[a] == before[a]);
            } else if a > i {
                assert(after[a] == before[a - 1]);
            }
            if b < i {
                assert(after[b] == before[b]);
            } else if b > i {
                assert(after[b] == before[b - 1]);
            }
            if a == i && b > i {
                assert(before[i as int].priority >= before[b - 1].priority);
            }
        }
    }
}

/// What is done with a node.
#[derive(Debug, Clone, Copy, PartialEq, Eq, Structural)]
pub enum WorkerChoice {
    /// Its budgets do not let it run.
    Reject,
    /// The worker at that place runs it.
    Worker(usize),
    /// No worker is for it.
    Fallback,
}

/// The first place that is marked.
pub open spec fn first_marked(marks: Seq<bool>) -> Option<int>
    decreases marks.len(),
{
    if marks.len() == 0 {
        None
    } else if marks[0] {
        Some(0)
    } else {
        match first_marked(marks.skip(1)) {
            Some(i) => Some(i + 1),
            None => None,
        }
    }
}

proof fn lemma_first_marked(marks: Seq<bool>, i: int)
    requires
        0 <= i <= marks.len(),
        forall|j: int| 0 <= j < i ==> !#[trigger] marks[j],
        i < marks.len() ==> marks[i],
    ensures
        first_marked(marks) == (if i < marks.len() {
            Some(i)
        } else {
            None
        }),
    decreases i,
{
    if i > 0 {
        assert(!marks[0]);
        assert forall|j: int| 0 <= j < i - 1 implies !#[trigger] marks.skip(1)[j] by {
            assert(marks.skip(1)[j] == marks[j + 1]);
        }
        if i < marks.len() {
            assert(marks.skip(1)[i - 1] == marks[i]);
        }
        lemma_first_marked(marks.skip(1), i - 1);
    }
}

/// What is done with a node, given which of the workers support its capabilities.
pub fn choose_worker(spec: &AgentInstanceSpec, supports: &Vec<bool>) -> (r: WorkerChoice)
    ensures
        spec.policy_bindings.budget_tokens == 0 || spec.policy_bindings.time_budget_ms == 0 ==> r
            == WorkerChoice::Reject,
        spec.policy_bindings.budget_tokens > 0 && spec.policy_bindings.time_budget_ms > 0 ==> r == (
        match first_marked(supports@) {
            Some(i) => WorkerChoice::Worker(i as usize),
            None => WorkerChoice::Fallback,
        }),
        r matches WorkerChoice::Worker(i) ==> i < supports.len() && supports@[i as int],
{
    if spec.policy_bindings.budget_tokens == 0 || spec.policy_bindings.time_budget_ms == 0 {
        return WorkerChoice::Reject;
    }
    let mut i: usize = 0;
    while i < supports.len()
        invariant
            i <= supports.len(),
            spec.policy_bindings.budget_tokens > 0,
            spec.policy_bindings.time_budget_ms > 0,
            forall|j: int| 0 <= j < i ==> !#[trigger] supports@[j],
        decreases supports.len() - i,
    {
        if supports[i] {
            proof {
                lemma_first_marked(supports@, i as int);
            }
            return WorkerChoice::Worker(i);
        }
        i = i + 1;
    }
    proof {
        lemma_first_marked(supports@, i as int);
    }
    WorkerChoice::Fallback
}

/// The goal in a node's description: what stands between `Goal: ` and the step,
/// or the whole description where it is not of that form.
pub open spec fn goal_of(description: Seq<char>) -> Seq<char> {
    match strip_prefix(description, "Goal: "@) {
        Some(rest) => match find(rest, "\nStep: "@) {
            Some(i) => rest.take(i),
            None => description,
        },
        None => description,
    }
}

fn goal_text(description: &str) -> (r: String)
    ensures
        r@ == goal_of(description@),
{
    match strip_prefix_text(description, "Goal: ") {
        None => description.to_owned(),
        Some(rest) => {
            let chars: Vec<char> = chars_of(rest.as_str());
            let pattern: Vec<char> = chars_of("\nStep: ");
            match find_chars(&chars, &pattern) {
                Some(i) => {
                    let out: String = string_from(&chars, 0, i);
                    assert(out@ =~= rest@.take(i as int));
                    out
                },
                None => description.to_owned(),
            }
        },
    }
}

/// The result of a node that no worker is for: its goal, given back.
pub open spec fn fallback(spec: SpecView, node: NodeView) -> EnvelopeView {
    EnvelopeView {
        task_id: spec.context.task_id,
        node_id: node.node_id,
        producer: spec.instance_id,
        schema_version: "result.v1"@,
        status: ResultStatus::Success,
        payload: json_text(
            JsonView::Object(seq![field("message"@, JsonView::Text(goal_of(node.description)))]),
        ),
        evidence: seq![evidence("worker"@, "worker-fallback:no-matching-worker"@)],
        confidence_percent: 50,
    }
}

pub fn fallback_result(spec: &AgentInstanceSpec, node: &TaskNode) -> (r: ResultEnvelope)
    ensures
        r@ == fallback(spec@, node@),
{
    let goal: String = goal_text(node.description.as_str());
    let mut fields: Vec<JsonField> = Vec::new();
    push_field(&mut fields, "message", text_value(goal.as_str()));
    assert(fields_view(fields@) =~= seq![
        field("message"@, JsonView::Text(goal_of(node@.description))),
    ]);
    let mut items: Vec<EvidenceItem> = Vec::new();
    push_evidence(&mut items, "worker", "worker-fallback:no-matching-worker");
    assert(evidence_view(items@) =~= seq![
        evidence("worker"@, "worker-fallback:no-matching-worker"@),
    ]);
    ResultEnvelope {
        task_id: spec.context.task_id.clone(),
        node_id: node.node_id.clone(),
        producer: spec.instance_id.clone(),
        schema_version: RESULT_SCHEMA_VERSION.to_owned(),
        status: ResultStatus::Success,
        payload: render_json(&object_value(fields)),
        evidence: items,
        confidence_percent: 50,
    }
}

/// The result of a node, given which workers support it and what the chosen one
/// gave.
pub fn execute(
    spec: &AgentInstanceSpec,
    node: &TaskNode,
    supports: &Vec<bool>,
    worker_result: Option<ResultEnvelope>,
) -> (r: Option<ResultEnvelope>)
    ensures
        spec.policy_bindings.budget_tokens == 0 || spec.policy_bindings.time_budget_ms == 0 ==> (
        r matches Some(e) && e@ == rejected(spec@, node@)),
        spec.policy_bindings.budget_tokens > 0 && spec.policy_bindings.time_budget_ms > 0 ==> if first_marked(
            supports@,
        ) is Some {
            r == worker_result
        } else {
            r matches Some(e) && e@ == fallback(spec@, node@)
        },
{
    match choose_worker(spec, supports) {
        WorkerChoice::Reject => Some(policy_rejection_result(spec, node)),
        WorkerChoice::Worker(_) => worker_result,
        WorkerChoice::Fallback => Some(fallback_result(spec, node)),
    }
}

/// A description made of a goal and a step gives the goal back, unless the goal
/// itself holds the mark of a step.
pub proof fn law_goal_is_read_back(goal: Seq<char>, step: Seq<char>)
    requires
        !contains(goal, "\nStep: "@),
    ensures
        goal_of("Goal: "@ + goal + "\nStep: "@ + step) == goal,
{
    let description = "Goal: "@ + goal + "\nStep: "@ + step;
    let prefix = "Goal: "@;
    let mark = "\nStep: "@;
    let rest = goal + mark + step;
    let at = goal.len() as int;
    reveal_strlit("\nStep: ");
    assert(description =~= prefix + rest);
    assert(description.take(prefix.len() as int) =~= prefix);
    assert(description.subrange(0, prefix.len() as int) =~= prefix);
    assert(description.skip(prefix.len() as int) =~= rest);
    assert(rest.subrange(at, at + mark.len()) =~= mark);
    assert forall|j: int| 0 <= j < at implies !occurs_at(rest, mark, j) by {
        if occurs_at(rest, mark, j) {
            if j + mark.len() <= at {
                assert(goal.subrange(j, j + mark.len()) =~= rest.subrange(j, j + mark.len()));
                assert(occurs_at(goal, mark, j));
            } else {
                let k = at - j;
                assert(rest.subrange(j, j + mark.len())[k] == rest[at]);
                assert(rest[at] == mark[0]);
                assert(mark[0] == '\n');
                assert(mark[k] != '\n');
            }
        }
    }
    lemma_find(rest, mark, at);
    assert(rest.take(at) =~= goal);
}

} // verus!
