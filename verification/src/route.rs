//! How a request enters the runtime, and what came of it.

use crate::decision::{RouteDecision, RouteDecisionView};
use crate::observation::{selectors_view, ResourceSelector, SelectorView, StepAction};
use crate::task::{EnvelopeView, NodeView, ResultEnvelope, TaskNode};
use vstd::prelude::*;

verus! {

#[derive(Debug)]
pub enum FsCommandStep {
    ChangeDir { path: String },
    ListDir { path: Option<String> },
    ReadText { path: String },
    PrintWorkingDir,
    Inspect { path: String },
    Exists { path: String },
}

/// The loop that a request enters.
#[derive(Debug)]
pub enum DirectRouteKind {
    FilesystemLoop { commands: Option<Vec<FsCommandStep>> },
    ToolLoop,
}

#[derive(Debug)]
pub struct DirectRoutePlan {
    pub decision: RouteDecision,
    pub kind: DirectRouteKind,
    pub bound_resources: Vec<ResourceSelector>,
}

/// A node, its result and what the user is told; where the loop ended, how.
#[derive(Debug)]
pub struct DirectRouteExecutionResult {
    pub node: TaskNode,
    pub result: ResultEnvelope,
    pub message: String,
    pub terminal_step_action: Option<StepAction>,
}

#[verifier::ext_equal]
pub struct ExecutionView {
    pub node: NodeView,
    pub result: EnvelopeView,
    pub message: Seq<char>,
    pub terminal_step_action: Option<StepAction>,
}

impl View for DirectRouteExecutionResult {
    type V = ExecutionView;

    open spec fn view(&self) -> ExecutionView {
        ExecutionView {
            node: self.node@,
            result: self.result@,
            message: self.message@,
            terminal_step_action: self.terminal_step_action,
        }
    }
}

#[derive(Debug, Clone, Copy, PartialEq, Eq, Structural)]
pub enum EscalationAction {
    AskForMoreInfo,
    FallbackAnswer,
    EnterLimitedPlanning,
}

#[derive(Debug, Clone, Copy, PartialEq, Eq, Structural)]
pub enum EscalationReason {
    MissingArguments,
    RequiresMultiStep,
    NoEnabledRouteTarget,
    RouteModelUnavailable,
    RouteClassifierFailure,
    RouteParseGuardFailure,
    LowConfidence,
}

#[derive(Debug)]
pub struct RouteEscalationPlan {
    pub decision: RouteDecision,
    pub reason: EscalationReason,
    pub action: EscalationAction,
}

#[derive(Debug)]
pub enum RouteDecisionResult {
    Direct(DirectRoutePlan),
    Escalate(RouteEscalationPlan),
}

#[verifier::ext_equal]
pub enum RouteResultView {
    Direct { decision: RouteDecisionView, kind: DirectRouteKind, bound: Seq<SelectorView> },
    Escalate { decision: RouteDecisionView, reason: EscalationReason, action: EscalationAction },
}

impl View for RouteDecisionResult {
    type V = RouteResultView;

    open spec fn view(&self) -> RouteResultView {
        match self {
            RouteDecisionResult::Direct(plan) => RouteResultView::Direct {
                decision: plan.decision@,
                kind: plan.kind,
                bound: selectors_view(plan.bound_resources@),
            },
            RouteDecisionResult::Escalate(plan) => RouteResultView::Escalate {
                decision: plan.decision@,
                reason: plan.reason,
                action: plan.action,
            },
        }
    }
}

} // verus!
