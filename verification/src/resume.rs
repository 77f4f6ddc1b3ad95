//! Whether a reply resumes a paused loop.

use crate::ask_user::{resumes, AskUserPayload, AskUserResumeContract, ContractView};
use crate::split::join_text;
use crate::state::{opt_payload, LoopState, LoopStatus};
use crate::text::{join, trim, views};
use crate::trim::trim_text;
use vstd::prelude::*;

verus! {

/// Whether to resume the paused loop, and why.
#[derive(Debug)]
pub struct AwaitingUserResumeAssessment {
    pub should_resume: bool,
    pub reason: String,
}

#[verifier::ext_equal]
pub struct AssessmentView {
    pub should_resume: bool,
    pub reason: Seq<char>,
}

impl View for AwaitingUserResumeAssessment {
    type V = AssessmentView;

    open spec fn view(&self) -> AssessmentView {
        AssessmentView { should_resume: self.should_resume, reason: self.reason@ }
    }
}

/// What the model that judges replies came back with.
#[derive(Debug)]
pub enum ResumeGateReply {
    /// There is no such model.
    NoRouter,
    /// The call failed, with this error.
    CallFailed { error: String },
    /// The answer was not a decision; the error says why.
    InvalidPayload { error: String },
    Decision { resume_existing_loop: bool, reason: String },
}

pub const RESUME_GATE_SYSTEM_PROMPT: &'static str =
    "You are Roku's paused-loop resume gate. Return only valid JSON.";

/// The question to the model that judges replies.
pub open spec fn resume_prompt(
    goal: Seq<char>,
    final_message: Seq<char>,
    missing_fields: Seq<Seq<char>>,
    user_input: Seq<char>,
) -> Seq<char> {
    "Decide whether the latest user message should resume an existing paused runtime loop or start a fresh request.\n\nReturn only JSON with this shape:\n{\n  \"resume_existing_loop\": true,\n  \"reason\": \"short explanation\"\n}\n\nRules:\n- Resume only if the latest user message is best interpreted as answering the current paused clarification for the same task.\n- Do not resume if the latest user message appears to start a new task, switch topics, or issue a fresh standalone request.\n- When unsure, prefer `resume_existing_loop=false`.\n- The paused loop still needs these required fields: "@
        + (if missing_fields.len() == 0 {
        "(none)"@
    } else {
        join(missing_fields, ", "@)
    }) + ".\n\nPaused ask-user message:\n"@ + final_message + "\n\nLatest user reply:\n"@ + user_input
        + "\n\nPaused loop goal:\n"@ + goal
}

pub fn awaiting_user_resume_prompt(
    goal: &str,
    final_message: &str,
    missing_fields: &Vec<String>,
    user_input: &str,
) -> (r: String)
    ensures
        r@ == resume_prompt(goal@, final_message@, views(missing_fields@), user_input@),
{
    let mut out: String =
        "Decide whether the latest user message should resume an existing paused runtime loop or start a fresh request.\n\nReturn only JSON with this shape:\n{\n  \"resume_existing_loop\": true,\n  \"reason\": \"short explanation\"\n}\n\nRules:\n- Resume only if the latest user message is best interpreted as answering the current paused clarification for the same task.\n- Do not resume if the latest user message appears to start a new task, switch topics, or issue a fresh standalone request.\n- When unsure, prefer `resume_existing_loop=false`.\n- The paused loop still needs these required fields: ".to_owned();
    assert(views(missing_fields@).len() == missing_fields@.len());
    if missing_fields.len() == 0 {
        out.append("(none)");
    } else {
        let fields: String = join_text(missing_fields, ", ");
        out.append(fields.as_str());
    }
    out.append(".\n\nPaused ask-user message:\n");
    out.append(final_message);
    out.append("\n\nLatest user reply:\n");
    out.append(user_input);
    out.append("\n\nPaused loop goal:\n");
    out.append(goal);
    out
}

pub open spec fn assessed(should_resume: bool, reason: Seq<char>) -> AssessmentView {
    AssessmentView { should_resume, reason }
}

/// What follows from the judging model's reply.
pub open spec fn gate_assessment(gate: ResumeGateReply) -> AssessmentView {
    match gate {
        ResumeGateReply::NoRouter => assessed(
            false,
            "missing-input clarification requires a live router to distinguish resume from a fresh request"@,
        ),
        ResumeGateReply::CallFailed { error } => assessed(
            false,
            "resume gate could not produce a structured decision: "@ + error@,
        ),
        ResumeGateReply::InvalidPayload { error } => assessed(
            false,
            "resume gate returned an invalid decision payload: "@ + error@,
        ),
        ResumeGateReply::Decision { resume_existing_loop, reason } => assessed(
            resume_existing_loop,
            reason@,
        ),
    }
}

/// The fields that the pause waits for, where only a model can judge the reply.
pub open spec fn gate_fields(loop_state: LoopState, user_input: Seq<char>) -> Option<
    Seq<Seq<char>>,
> {
    if loop_state.status == LoopStatus::AwaitingUser && trim(user_input).len() > 0 {
        match opt_payload(loop_state.awaiting_user) {
            Some(payload) => match payload.resume_contract {
                ContractView::MissingRequiredInput { fields } => Some(fields),
                _ => None,
            },
            None => None,
        }
    } else {
        None
    }
}

/// Whether the reply resumes the loop, given what the judging model would say.
pub open spec fn resume_assessment(
    loop_state: LoopState,
    user_input: Seq<char>,
    entries: Seq<Seq<char>>,
    gate: ResumeGateReply,
) -> AssessmentView {
    if loop_state.status != LoopStatus::AwaitingUser {
        assessed(false, "loop is not currently awaiting user input"@)
    } else if trim(user_input).len() == 0 {
        assessed(false, "empty replies cannot resume a paused loop"@)
    } else {
        match opt_payload(loop_state.awaiting_user) {
            None => assessed(false, "paused loop is missing an awaiting-user payload"@),
            Some(payload) => match payload.resume_contract {
                ContractView::CandidateSelection { .. } => if resumes(
                    payload,
                    trim(user_input),
                    entries,
                ) {
                    assessed(
                        true,
                        "user reply selected one of the grounded candidates for the paused loop"@,
                    )
                } else {
                    assessed(
                        false,
                        "user reply did not explicitly select one of the grounded candidates"@,
                    )
                },
                ContractView::NoAutomaticResume => assessed(
                    false,
                    "freeform clarification pauses do not auto-resume; treat the next message as a fresh intake"@,
                ),
                ContractView::MissingRequiredInput { .. } => gate_assessment(gate),
            },
        }
    }
}

fn assessment(should_resume: bool, reason: &str) -> (r: AwaitingUserResumeAssessment)
    ensures
        r@ == assessed(should_resume, reason@),
{
    AwaitingUserResumeAssessment { should_resume, reason: reason.to_owned() }
}

/// The question to put to the judging model, where the reply needs it.
pub fn resume_gate_prompt(loop_state: &LoopState, user_input: &str) -> (r: Option<String>)
    ensures
        match gate_fields(*loop_state, user_input@) {
            Some(fields) => r is Some && r->0@ == resume_prompt(
                loop_state.goal@,
                opt_payload(loop_state.awaiting_user)->0.final_message,
                fields,
                trim(user_input@),
            ),
            None => r is None,
        },
{
    let trimmed: String = trim_text(user_input);
    if loop_state.status != LoopStatus::AwaitingUser || trimmed.as_str().is_empty() {
        return None;
    }
    match &loop_state.awaiting_user {
        Some(payload) => match &payload.resume_contract {
            AskUserResumeContract::MissingRequiredInput { fields } => Some(
                awaiting_user_resume_prompt(
                    loop_state.goal.as_str(),
                    payload.final_message.as_str(),
                    fields,
                    trimmed.as_str(),
                ),
            ),
            _ => None,
        },
        None => None,
    }
}

/// Whether the reply resumes the loop. The judging model's reply decides only where
/// the pause waits for missing input.
pub fn assess_awaiting_user_resume(
    loop_state: &LoopState,
    user_input: &str,
    workspace_entries: &Vec<String>,
    gate: &ResumeGateReply,
) -> (r: AwaitingUserResumeAssessment)
    ensures
        r@ == resume_assessment(*loop_state, user_input@, views(workspace_entries@), *gate),
{
    let trimmed: String = trim_text(user_input);
    if loop_state.status != LoopStatus::AwaitingUser {
        return assessment(false, "loop is not currently awaiting user input");
    }
    if trimmed.as_str().is_empty() {
        return assessment(false, "empty replies cannot resume a paused loop");
    }
    let payload: &AskUserPayload = match &loop_state.awaiting_user {
        Some(payload) => payload,
        None => {
            return assessment(false, "paused loop is missing an awaiting-user payload");
        },
    };
    match &payload.resume_contract {
        AskUserResumeContract::CandidateSelection { .. } => {
            if payload.can_resume(trimmed.as_str(), workspace_entries) {
                assessment(
                    true,
                    "user reply selected one of the grounded candidates for the paused loop",
                )
            } else {
                assessment(
                    false,
                    "user reply did not explicitly select one of the grounded candidates",
                )
            }
        },
        AskUserResumeContract::NoAutomaticResume => assessment(
            false,
            "freeform clarification pauses do not auto-resume; treat the next message as a fresh intake",
        ),
        AskUserResumeContract::MissingRequiredInput { .. } => match gate {
            ResumeGateReply::NoRouter => assessment(
                false,
                "missing-input clarification requires a live router to distinguish resume from a fresh request",
            ),
            ResumeGateReply::CallFailed { error } => {
                let mut reason: String =
                    "resume gate could not produce a structured decision: ".to_owned();
                reason.append(error.as_str());
                assessment(false, reason.as_str())
            },
            ResumeGateReply::InvalidPayload { error } => {
                let mut reason: String =
                    "resume gate returned an invalid decision payload: ".to_owned();
                reason.append(error.as_str());
                assessment(false, reason.as_str())
            },
            ResumeGateReply::Decision { resume_existing_loop, reason } => assessment(
                *resume_existing_loop,
                reason.as_str(),
            ),
        },
    }
}

/// Only a paused loop resumes, never on an empty reply, never from a free question,
/// and where the judging model decides, only if it decided for it.
pub proof fn law_resume_is_earned(
    loop_state: LoopState,
    user_input: Seq<char>,
    entries: Seq<Seq<char>>,
    gate: ResumeGateReply,
)
    requires
        resume_assessment(loop_state, user_input, entries, gate).should_resume,
    ensures
        loop_state.status == LoopStatus::AwaitingUser,
        trim(user_input).len() > 0,
        loop_state.awaiting_user is Some,
        !(loop_state.awaiting_user->0@.resume_contract is NoAutomaticResume),
        loop_state.awaiting_user->0@.resume_contract is MissingRequiredInput ==> gate is Decision
            && gate->resume_existing_loop,
{
}

} // verus!
