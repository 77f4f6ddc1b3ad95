//! Steps that end a loop or pause it.

use crate::ask_user::{freeform_payload, AskUserPayload};
use crate::observation::{
    clone_selectors, opt_observation, selectors_view, terminal_step, DecisionView, NextStepAction,
    NextStepDecision, StepAction, StepObservation, StepObservationView, StepRecord,
};
use crate::split::clone_list;
use crate::state::{opt_payload, opt_tool, LoopState, LoopStatus};
use crate::text::{opt_str_view, views};
use vstd::prelude::*;

verus! {

/// The message that an observation carries.
pub open spec fn observed_message(observation: StepObservationView) -> Seq<char> {
    match observation {
        StepObservationView::Tool(t) => t.message,
        StepObservationView::AskUser { final_message } => final_message,
        StepObservationView::FinalMessage { final_message } => final_message,
    }
}

/// The decision behind a step that ends the loop or pauses it.
pub open spec fn decided(
    action: StepAction,
    reason: Seq<char>,
    observation: Option<StepObservationView>,
) -> DecisionView {
    DecisionView {
        action: match action {
            StepAction::CallTool | StepAction::CompactBoundary => NextStepAction::CallTool,
            StepAction::AskUser => NextStepAction::AskUser,
            StepAction::FinalAnswer => NextStepAction::FinalAnswer,
            StepAction::Fail | StepAction::Stop => NextStepAction::Fail,
        },
        tool_name: None,
        arguments: None,
        reason,
        final_message: match observation {
            Some(o) => Some(observed_message(o)),
            None => None,
        },
    }
}

pub fn terminal_decision(
    action: StepAction,
    reason: &str,
    observation: &Option<StepObservation>,
) -> (r: NextStepDecision)
    ensures
        r@ == decided(action, reason@, opt_observation(*observation)),
{
    let final_message: Option<String> = match observation {
        Some(StepObservation::AskUser { final_message }) => Some(final_message.clone()),
        Some(StepObservation::FinalMessage { final_message }) => Some(final_message.clone()),
        Some(StepObservation::Tool(t)) => Some(t.message.clone()),
        None => None,
    };
    NextStepDecision {
        action: match action {
            StepAction::CallTool => NextStepAction::CallTool,
            StepAction::CompactBoundary => NextStepAction::CallTool,
            StepAction::AskUser => NextStepAction::AskUser,
            StepAction::FinalAnswer => NextStepAction::FinalAnswer,
            StepAction::Fail => NextStepAction::Fail,
            StepAction::Stop => NextStepAction::Fail,
        },
        tool_name: None,
        arguments: None,
        reason: reason.to_owned(),
        final_message,
    }
}

/// What a step with that message observes.
pub open spec fn message_observation(
    action: StepAction,
    message: Option<Seq<char>>,
) -> Option<StepObservationView> {
    match message {
        Some(final_message) => Some(
            if action == StepAction::AskUser {
                StepObservationView::AskUser { final_message }
            } else {
                StepObservationView::FinalMessage { final_message }
            },
        ),
        None => None,
    }
}

/// The step budget that a step leaves: asking, stopping and marking a boundary
/// cost nothing.
pub open spec fn budget_after(action: StepAction, budget: u32) -> u32 {
    match action {
        StepAction::FinalAnswer | StepAction::Fail | StepAction::CallTool => if budget == 0 {
            0
        } else {
            (budget - 1) as u32
        },
        StepAction::AskUser | StepAction::Stop | StepAction::CompactBoundary => budget,
    }
}

pub open spec fn status_after(action: StepAction) -> LoopStatus {
    match action {
        StepAction::FinalAnswer => LoopStatus::Succeeded,
        StepAction::Fail => LoopStatus::Failed,
        StepAction::AskUser => LoopStatus::AwaitingUser,
        StepAction::CallTool | StepAction::CompactBoundary => LoopStatus::LoopRunning,
        StepAction::Stop => LoopStatus::Stopped,
    }
}

/// A loop before and after a step that ends or pauses it: the step stands last in
/// the history, its number follows, the budgets and the status are those of the
/// action, and nothing else has changed.
pub open spec fn ended(
    before: LoopState,
    action: StepAction,
    reason: Seq<char>,
    message: Option<Seq<char>>,
    after: LoopState,
) -> bool {
    let observation = message_observation(action, message);
    let step = after.history@.last();
    &&& after == LoopState {
        step_index: (before.step_index + 1) as u32,
        remaining_step_budget: budget_after(action, before.remaining_step_budget),
        working_directory: after.working_directory,
        last_observation: after.last_observation,
        history: after.history,
        awaiting_user: after.awaiting_user,
        status: status_after(action),
        ..before
    }
    &&& after.working_directory@ == before.working_directory@
    &&& opt_tool(after.last_observation) == opt_tool(before.last_observation)
    &&& after.history@ == before.history@.push(step)
    &&& step@ == terminal_step(
        (before.step_index + 1) as u32,
        action,
        decided(action, reason, observation),
        views(before.visible_tools@),
        selectors_view(before.bound_resources@),
        observation,
        budget_after(action, before.remaining_step_budget),
        before.remaining_recovery_budget,
        before.working_directory@,
    )
}

/// Records a step that ends the loop or pauses it, and gives that step.
pub fn record_terminal_step(
    loop_state: &mut LoopState,
    action: StepAction,
    reason: &str,
    final_message: Option<&str>,
) -> (r: StepRecord)
    requires
        old(loop_state).step_index < u32::MAX,
    ensures
        ended(*old(loop_state), action, reason@, opt_str_view(final_message), *final(loop_state)),
        r@ == final(loop_state).history@.last()@,
        opt_payload(final(loop_state).awaiting_user) == (match final_message {
            Some(message) => if action == StepAction::AskUser {
                Some(freeform_payload(message@))
            } else {
                None
            },
            None => None,
        }),
{
    let asks: bool = match action {
        StepAction::AskUser => true,
        _ => false,
    };
    let awaiting_user: Option<AskUserPayload> = match final_message {
        Some(message) => if asks {
            Some(AskUserPayload::freeform(message))
        } else {
            None
        },
        None => None,
    };
    let observation: Option<StepObservation> = match final_message {
        Some(message) => if asks {
            Some(StepObservation::AskUser { final_message: message.to_owned() })
        } else {
            Some(StepObservation::FinalMessage { final_message: message.to_owned() })
        },
        None => None,
    };
    let decision: NextStepDecision = terminal_decision(action, reason, &observation);
    let budget: u32 = match action {
        StepAction::FinalAnswer => loop_state.remaining_step_budget.saturating_sub(1),
        StepAction::Fail => loop_state.remaining_step_budget.saturating_sub(1),
        StepAction::CallTool => loop_state.remaining_step_budget.saturating_sub(1),
        _ => loop_state.remaining_step_budget,
    };
    let step: StepRecord = StepRecord::terminal(
        loop_state.step_index + 1,
        action,
        decision,
        clone_list(&loop_state.visible_tools),
        clone_selectors(&loop_state.bound_resources),
        observation,
        budget,
        loop_state.remaining_recovery_budget,
        loop_state.working_directory.clone(),
    );
    let copy: StepRecord = step.clone();
    loop_state.record_step(step);
    loop_state.awaiting_user = awaiting_user;
    loop_state.status = match action {
        StepAction::FinalAnswer => LoopStatus::Succeeded,
        StepAction::Fail => LoopStatus::Failed,
        StepAction::AskUser => LoopStatus::AwaitingUser,
        StepAction::CallTool => LoopStatus::LoopRunning,
        StepAction::CompactBoundary => LoopStatus::LoopRunning,
        StepAction::Stop => LoopStatus::Stopped,
    };
    copy
}

/// Pauses the loop with that question, and gives the step.
pub fn record_ask_user_step(
    loop_state: &mut LoopState,
    reason: &str,
    payload: AskUserPayload,
) -> (r: StepRecord)
    requires
        old(loop_state).step_index < u32::MAX,
    ensures
        ended(
            *old(loop_state),
            StepAction::AskUser,
            reason@,
            Some(payload.final_message@),
            *final(loop_state),
        ),
        r@ == final(loop_state).history@.last()@,
        final(loop_state).awaiting_user == Some(payload),
{
    let question: String = payload.final_message.clone();
    let step: StepRecord = record_terminal_step(
        loop_state,
        StepAction::AskUser,
        reason,
        Some(question.as_str()),
    );
    loop_state.awaiting_user = Some(payload);
    step
}

} // verus!
