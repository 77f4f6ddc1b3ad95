//! The stages that each command of a loop went through.

use crate::json::{Json, JsonView};
use crate::observation::{steps_view, StepObservation, StepObservationView, StepRecord, StepView};
use crate::result::{PolicyFact, PolicyOutcome};
use crate::text::str_eq;
use vstd::prelude::*;

verus! {

#[derive(Debug, Clone, Copy, PartialEq, Eq, Structural)]
pub enum TraceStage {
    Canonicalized,
    PolicyDecided,
    ApprovalRequested,
    ApprovalResolved,
    ExecutionStarted,
    ExecutionFinished,
    ObservationRecorded,
}

/// What the policy said at a stage; where a step carries no decision, the command
/// counts as allowed.
#[derive(Debug)]
pub enum TracePolicy {
    Decided { outcome: PolicyOutcome, decision: Json },
    AllowedByPolicy,
}

pub enum TracePolicyView {
    Decided { outcome: PolicyOutcome, decision: JsonView },
    AllowedByPolicy,
}

impl View for TracePolicy {
    type V = TracePolicyView;

    open spec fn view(&self) -> TracePolicyView {
        match self {
            TracePolicy::Decided { outcome, decision } => TracePolicyView::Decided {
                outcome: *outcome,
                decision: decision@,
            },
            TracePolicy::AllowedByPolicy => TracePolicyView::AllowedByPolicy,
        }
    }
}

#[derive(Debug)]
pub struct TraceStageRecord {
    pub stage: TraceStage,
    pub policy: Option<TracePolicy>,
}

pub struct StageView {
    pub stage: TraceStage,
    pub policy: Option<TracePolicyView>,
}

impl View for TraceStageRecord {
    type V = StageView;

    open spec fn view(&self) -> StageView {
        StageView {
            stage: self.stage,
            policy: match self.policy {
                Some(p) => Some(p@),
                None => None,
            },
        }
    }
}

pub open spec fn stages_view(stages: Seq<TraceStageRecord>) -> Seq<StageView> {
    stages.map_values(|s: TraceStageRecord| s@)
}

/// The stages of one command.
#[derive(Debug)]
pub struct ExecutionTrace {
    pub tool_name: String,
    pub digest: String,
    pub stages: Vec<TraceStageRecord>,
}

#[verifier::ext_equal]
pub struct TraceView {
    pub tool_name: Seq<char>,
    pub digest: Seq<char>,
    pub stages: Seq<StageView>,
}

impl View for ExecutionTrace {
    type V = TraceView;

    open spec fn view(&self) -> TraceView {
        TraceView {
            tool_name: self.tool_name@,
            digest: self.digest@,
            stages: stages_view(self.stages@),
        }
    }
}

pub open spec fn opt_trace(t: Option<ExecutionTrace>) -> Option<TraceView> {
    match t {
        Some(t) => Some(t@),
        None => None,
    }
}

/// A command in its canonical form, by its tool and its digest.
#[derive(Debug)]
pub struct CanonicalRef {
    pub tool_name: String,
    pub digest: String,
}

/// What a step's output and arguments were read as.
#[derive(Debug)]
pub struct TraceFacts {
    pub policy: Option<PolicyFact>,
    /// The canonical command in the output.
    pub from_output: Option<CanonicalRef>,
    /// The canonical command that the arguments stand for.
    pub from_arguments: Option<CanonicalRef>,
}

/// The member of a step's output that holds the canonical command.
pub open spec fn canonical_member(payload: JsonView) -> Option<JsonView> {
    match payload.member("canonical_execution"@) {
        Some(v) => Some(v),
        None => match payload.member("data"@) {
            Some(data) => data.member("canonical_execution"@),
            None => None,
        },
    }
}

pub fn canonical_execution_from_payload(payload: &Json) -> (r: Option<&Json>)
    ensures
        match r {
            Some(v) => canonical_member(payload@) == Some(v@),
            None => canonical_member(payload@) is None,
        },
{
    match payload.get("canonical_execution") {
        Some(v) => Some(v),
        None => match payload.get("data") {
            Some(data) => data.get("canonical_execution"),
            None => None,
        },
    }
}

/// The member of a step's output that holds the policy's decision.
pub fn policy_decision_from_payload(payload: &Json) -> (r: Option<&Json>)
    ensures
        match r {
            Some(v) => payload@.member("policy_decision"@) == Some(v@),
            None => payload@.member("policy_decision"@) is None,
        },
{
    payload.get("policy_decision")
}

impl TraceFacts {
    pub open spec fn outcome(self) -> Option<PolicyOutcome> {
        match self.policy {
            Some(p) => Some(p.outcome),
            None => None,
        }
    }

    /// The command, from the output or else from the arguments.
    pub open spec fn canonical(self) -> Option<CanonicalRef> {
        match self.from_output {
            Some(c) => Some(c),
            None => self.from_arguments,
        }
    }
}

/// The step ran a command, as far as its record shows.
pub open spec fn executed(step: StepView, outcome: Option<PolicyOutcome>) -> bool {
    step.raw_tool_output is Some && outcome != Some(PolicyOutcome::Deny) && outcome != Some(
        PolicyOutcome::RequireApproval,
    )
}

/// The command of a step, where it is one.
pub open spec fn command_of(step: StepView, f: TraceFacts) -> Option<CanonicalRef> {
    if step.decision.tool_name == Some("command.run"@) {
        f.canonical()
    } else {
        None
    }
}

pub open spec fn plain_stage(stage: TraceStage) -> StageView {
    StageView { stage, policy: None }
}

/// The stages of a command: one whose approval was pending is resolved by being
/// run; else it is canonicalized, decided on, and run, held for approval or denied.
pub open spec fn stages_of(step: StepView, f: TraceFacts, pending: bool) -> Seq<StageView> {
    let ran = executed(step, f.outcome());
    let none = Seq::<StageView>::empty();
    (if ran && pending {
        seq![
            plain_stage(TraceStage::ApprovalResolved),
            plain_stage(TraceStage::ExecutionStarted),
            plain_stage(TraceStage::ExecutionFinished),
        ]
    } else {
        seq![
            plain_stage(TraceStage::Canonicalized),
            StageView {
                stage: TraceStage::PolicyDecided,
                policy: Some(
                    match f.policy {
                        Some(p) => TracePolicyView::Decided {
                            outcome: p.outcome,
                            decision: p.decision@,
                        },
                        None => TracePolicyView::AllowedByPolicy,
                    },
                ),
            },
        ] + (match f.outcome() {
            Some(PolicyOutcome::RequireApproval) => seq![
                plain_stage(TraceStage::ApprovalRequested),
            ],
            Some(PolicyOutcome::Deny) => none,
            _ => if ran {
                seq![
                    plain_stage(TraceStage::ExecutionStarted),
                    plain_stage(TraceStage::ExecutionFinished),
                ]
            } else {
                none
            },
        })
    }) + (if step.observation matches Some(StepObservationView::Tool(_)) {
        seq![plain_stage(TraceStage::ObservationRecorded)]
    } else {
        none
    })
}

/// The digests whose approval is pending after the first `n` steps.
pub open spec fn pending_after(steps: Seq<StepView>, facts: Seq<TraceFacts>, n: int) -> Set<
    Seq<char>,
>
    decreases n,
{
    if n <= 0 {
        Set::empty()
    } else {
        let before = pending_after(steps, facts, n - 1);
        match command_of(steps[n - 1], facts[n - 1]) {
            None => before,
            Some(c) => if executed(steps[n - 1], facts[n - 1].outcome()) {
                before.remove(c.digest@)
            } else if facts[n - 1].outcome() == Some(PolicyOutcome::RequireApproval) {
                before.insert(c.digest@)
            } else {
                before
            },
        }
    }
}

/// The trace of the step at `i`.
pub open spec fn trace_at(steps: Seq<StepView>, facts: Seq<TraceFacts>, i: int) -> Option<
    TraceView,
> {
    match command_of(steps[i], facts[i]) {
        None => None,
        Some(c) => Some(
            TraceView {
                tool_name: c.tool_name@,
                digest: c.digest@,
                stages: stages_of(
                    steps[i],
                    facts[i],
                    pending_after(steps, facts, i).contains(c.digest@),
                ),
            },
        ),
    }
}

fn push_stage(stages: &mut Vec<TraceStageRecord>, stage: TraceStage)
    ensures
        stages_view(final(stages)@) == stages_view(old(stages)@) + seq![plain_stage(stage)],
{
    let ghost before = stages_view(stages@);
    stages.push(TraceStageRecord { stage, policy: None });
    assert(stages_view(stages@) =~= before + seq![plain_stage(stage)]);
}

/// The list holds exactly the digests of the set, each once.
pub open spec fn holds(list: Seq<String>, set: Set<Seq<char>>) -> bool {
    &&& forall|i: int| 0 <= i < list.len() ==> set.contains((#[trigger] list[i])@)
    &&& forall|s: Seq<char>|
        set.contains(s) ==> exists|i: int| 0 <= i < list.len() && (#[trigger] list[i])@ == s
    &&& forall|i: int, j: int|
        0 <= i < j < list.len() ==> (#[trigger] list[i])@ != (#[trigger] list[j])@
}

/// Takes a digest out of the list; true where it was there.
fn take_digest(list: &mut Vec<String>, digest: &str, set: Ghost<Set<Seq<char>>>) -> (r: bool)
    requires
        holds(old(list)@, set@),
    ensures
        holds(final(list)@, set@.remove(digest@)),
        r == set@.contains(digest@),
{
    let ghost before = list@;
    let mut i: usize = 0;
    while i < list.len()
        invariant
            i <= list.len(),
            list@ == before,
            holds(before, set@),
            forall|j: int| 0 <= j < i ==> (#[trigger] before[j])@ != digest@,
        decreases list.len() - i,
    {
        if str_eq(list[i].as_str(), digest) {
            assert(set@.contains(before[i as int]@));
            let removed: String = list.remove(i);
            proof {
                let after = list@;
                let rest = set@.remove(digest@);
                assert(after =~= before.remove(i as int));
                assert forall|k: int| 0 <= k < after.len() implies rest.contains(
                    (#[trigger] after[k])@,
                ) by {
                    if k < i {
                        assert(after[k] == before[k]);
                    } else {
                        assert(after[k] == before[k + 1]);
                        assert(before[i as int]@ != before[k + 1]@);
                    }
                }
                assert forall|s: Seq<char>| rest.contains(s) implies exists|k: int|
                    0 <= k < after.len() && (#[trigger] after[k])@ == s by {
                    let k = choose|k: int| 0 <= k < before.len() && (#[trigger] before[k])@ == s;
                    if k < i {
                        assert(after[k] == before[k]);
                    } else {
                        assert(after[k - 1] == before[k]);
                    }
                }
                assert forall|a: int, b: int| 0 <= a < b < after.len() implies (
                #[trigger] after[a])@ != (#[trigger] after[b])@ by {
                    let x = if a < i {
                        a
                    } else {
                        a + 1
                    };
                    let y = if b < i {
                        b
                    } else {
                        b + 1
                    };
                    assert(after[a] == before[x] && after[b] == before[y]);
                }
            }
            return true;
        }
        i = i + 1;
    }
    proof {
        if set@.contains(digest@) {
            let k = choose|k: int| 0 <= k < before.len() && (#[trigger] before[k])@ == digest@;
            assert(before[k]@ == digest@);
        }
        assert(set@.remove(digest@) =~= set@);
    }
    false
}

/// Adds a digest to the list, unless it is there.
fn add_digest(list: &mut Vec<String>, digest: &str, set: Ghost<Set<Seq<char>>>)
    requires
        holds(old(list)@, set@),
    ensures
        holds(final(list)@, set@.insert(digest@)),
{
    let ghost before = list@;
    let mut i: usize = 0;
    while i < list.len()
        invariant
            i <= list.len(),
            list@ == before,
            holds(before, set@),
            forall|j: int| 0 <= j < i ==> (#[trigger] before[j])@ != digest@,
        decreases list.len() - i,
    {
        if str_eq(list[i].as_str(), digest) {
            assert(set@.contains(before[i as int]@));
            assert(set@.insert(digest@) =~= set@);
            return ;
        }
        i = i + 1;
    }
    list.push(digest.to_owned());
    proof {
        let after = list@;
        assert forall|s: Seq<char>| set@.insert(digest@).contains(s) implies exists|k: int|
            0 <= k < after.len() && (#[trigger] after[k])@ == s by {
            if s == digest@ {
                assert(after[before.len() as int]@ == s);
            } else {
                let k = choose|k: int| 0 <= k < before.len() && (#[trigger] before[k])@ == s;
                assert(after[k] == before[k]);
            }
        }
        assert forall|a: int, b: int| 0 <= a < b < after.len() implies (#[trigger] after[a])@ != (
        #[trigger] after[b])@ by {
            assert(after[a] == before[a]);
            if b < before.len() {
                assert(after[b] == before[b]);
            }
        }
    }
}

fn is_command(step: &StepRecord) -> (r: bool)
    ensures
        r == (step@.decision.tool_name == Some("command.run"@)),
{
    match &step.decision.tool_name {
        Some(name) => str_eq(name.as_str(), "command.run"),
        None => false,
    }
}

/// The stages of a step that is a command, and whether its approval is pending
/// afterwards.
fn build_stages(step: &StepRecord, facts: &TraceFacts, ran: bool, pending: bool) -> (r: Vec<
    TraceStageRecord,
>)
    requires
        ran == executed(step@, facts.outcome()),
    ensures
        stages_view(r@) == stages_of(step@, *facts, pending),
{
    let mut stages: Vec<TraceStageRecord> = Vec::new();
    assert(stages_view(stages@) =~= seq![]);
    if ran && pending {
        push_stage(&mut stages, TraceStage::ApprovalResolved);
        push_stage(&mut stages, TraceStage::ExecutionStarted);
        push_stage(&mut stages, TraceStage::ExecutionFinished);
    } else {
        push_stage(&mut stages, TraceStage::Canonicalized);
        let policy: TracePolicy = match &facts.policy {
            Some(p) => TracePolicy::Decided { outcome: p.outcome, decision: p.decision.clone() },
            None => TracePolicy::AllowedByPolicy,
        };
        let ghost before = stages_view(stages@);
        let decided: TraceStageRecord = TraceStageRecord {
            stage: TraceStage::PolicyDecided,
            policy: Some(policy),
        };
        assert(stages_view(stages@.push(decided)) =~= before.push(decided@));
        stages.push(decided);
        let outcome: Option<PolicyOutcome> = match &facts.policy {
            Some(p) => Some(p.outcome),
            None => None,
        };
        match outcome {
            Some(PolicyOutcome::RequireApproval) => {
                push_stage(&mut stages, TraceStage::ApprovalRequested);
            },
            Some(PolicyOutcome::Deny) => {},
            _ => {
                if ran {
                    push_stage(&mut stages, TraceStage::ExecutionStarted);
                    push_stage(&mut stages, TraceStage::ExecutionFinished);
                }
            },
        }
    }
    if let Some(StepObservation::Tool(_)) = &step.observation {
        push_stage(&mut stages, TraceStage::ObservationRecorded);
    }
    assert(stages_view(stages@) =~= stages_of(step@, *facts, pending));
    stages
}

/// The trace of each step of a history, given what its output and arguments were
/// read as.
pub fn project_execution_traces(history: &Vec<StepRecord>, facts: &Vec<TraceFacts>) -> (r: Vec<
    Option<ExecutionTrace>,
>)
    requires
        history.len() == facts.len(),
    ensures
        r.len() == history.len(),
        forall|i: int|
            0 <= i < history.len() ==> opt_trace(#[trigger] r@[i]) == trace_at(
                steps_view(history@),
                facts@,
                i,
            ),
{
    let ghost steps = steps_view(history@);
    let mut pending: Vec<String> = Vec::new();
    let mut out: Vec<Option<ExecutionTrace>> = Vec::new();
    let mut i: usize = 0;
    while i < history.len()
        invariant
            i <= history.len(),
            history.len() == facts.len(),
            steps == steps_view(history@),
            holds(pending@, pending_after(steps, facts@, i as int)),
            out.len() == i,
            forall|j: int| 0 <= j < i ==> opt_trace(#[trigger] out@[j]) == trace_at(steps, facts@, j),
        decreases history.len() - i,
    {
        let step: &StepRecord = &history[i];
        let fact: &TraceFacts = &facts[i];
        assert(steps[i as int] == step@);
        let command: Option<&CanonicalRef> = if is_command(step) {
            match &fact.from_output {
                Some(c) => Some(c),
                None => match &fact.from_arguments {
                    Some(c) => Some(c),
                    None => None,
                },
            }
        } else {
            None
        };
        match command {
            None => {
                out.push(None);
            },
            Some(c) => {
                let ghost set = pending_after(steps, facts@, i as int);
                let refused: bool = match &fact.policy {
                    Some(p) => match p.outcome {
                        PolicyOutcome::Allow => false,
                        PolicyOutcome::Deny => true,
                        PolicyOutcome::RequireApproval => true,
                    },
                    None => false,
                };
                let held: bool = match &fact.policy {
                    Some(p) => match p.outcome {
                        PolicyOutcome::RequireApproval => true,
                        _ => false,
                    },
                    None => false,
                };
                let ran: bool = step.raw_tool_output.is_some() && !refused;
                let mut was_pending: bool = false;
                if ran {
                    was_pending = take_digest(&mut pending, c.digest.as_str(), Ghost(set));
                } else if held {
                    add_digest(&mut pending, c.digest.as_str(), Ghost(set));
                }
                let stages: Vec<TraceStageRecord> = build_stages(step, fact, ran, was_pending);
                assert(stages_of(step@, *fact, was_pending) == stages_of(
                    step@,
                    *fact,
                    set.contains(c.digest@),
                ));
                let trace: ExecutionTrace = ExecutionTrace {
                    tool_name: c.tool_name.clone(),
                    digest: c.digest.clone(),
                    stages,
                };
                assert(trace@ =~= trace_at(steps, facts@, i as int)->0);
                out.push(Some(trace));
            },
        }
        i = i + 1;
    }
    out
}

/// A command that was held for approval and is then run is traced as resolved,
/// whatever other commands came between, as long as it was not run before.
pub proof fn law_approval_is_resolved(
    steps: Seq<StepView>,
    facts: Seq<TraceFacts>,
    held: int,
    ran: int,
)
    requires
        0 <= held < ran < steps.len(),
        steps.len() == facts.len(),
        command_of(steps[held], facts[held]) is Some,
        command_of(steps[ran], facts[ran]) is Some,
        command_of(steps[held], facts[held])->0.digest@ == command_of(
            steps[ran],
            facts[ran],
        )->0.digest@,
        facts[held].outcome() == Some(PolicyOutcome::RequireApproval),
        executed(steps[ran], facts[ran].outcome()),
        forall|k: int|
            held < k < ran ==> !(executed(#[trigger] steps[k], facts[k].outcome()) && (command_of(
                steps[k],
                facts[k],
            ) matches Some(c) && c.digest@ == command_of(steps[held], facts[held])->0.digest@)),
    ensures
        trace_at(steps, facts, ran) matches Some(t) && t.stages[0] == plain_stage(
            TraceStage::ApprovalResolved,
        ),
{
    lemma_stays_pending(steps, facts, held, ran);
}

proof fn lemma_stays_pending(steps: Seq<StepView>, facts: Seq<TraceFacts>, held: int, n: int)
    requires
        0 <= held < n <= steps.len(),
        steps.len() == facts.len(),
        command_of(steps[held], facts[held]) is Some,
        facts[held].outcome() == Some(PolicyOutcome::RequireApproval),
        forall|k: int|
            held < k < n ==> !(executed(#[trigger] steps[k], facts[k].outcome()) && (command_of(
                steps[k],
                facts[k],
            ) matches Some(c) && c.digest@ == command_of(steps[held], facts[held])->0.digest@)),
    ensures
        pending_after(steps, facts, n).contains(command_of(steps[held], facts[held])->0.digest@),
    decreases n,
{
    if n > held + 1 {
        lemma_stays_pending(steps, facts, held, n - 1);
        assert(steps[n - 1] == steps[n - 1]);
    }
}

} // verus!
