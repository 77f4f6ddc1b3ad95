//! The turns of a loop: how they begin, and how the model's answer ends them.

use crate::ask_user::{
    effective_ask_user_payload, freeform_payload, payload_for, AskUserPayload, PayloadView,
};
use crate::json::JsonView;
use crate::message::{
    calls_view, clone_calls, lemma_messages_push, messages_view, Message, MessageView,
    ToolCallBlock, ToolCallView,
};
use crate::number::{decimal, push_decimal};
use crate::observation::{StepAction, ToolObservation};
use crate::state::{opt_payload, opt_tool, LoopState};
use crate::task::{ConversationRole, ConversationTurn, ResultStatus, TurnView};
use crate::terminal::{ended, record_ask_user_step, record_terminal_step};
use crate::text::{opt_str_view, str_eq, views};
use vstd::prelude::*;

verus! {

/// How much a model is to think.
#[derive(Debug, Clone, Copy, PartialEq, Eq, Structural)]
pub enum ThinkingEffort {
    Off,
    Low,
    Medium,
    High,
}

pub open spec fn effort_named(name: Seq<char>) -> Option<ThinkingEffort> {
    if name == "low"@ {
        Some(ThinkingEffort::Low)
    } else if name == "medium"@ {
        Some(ThinkingEffort::Medium)
    } else if name == "high"@ {
        Some(ThinkingEffort::High)
    } else if name == "none"@ {
        Some(ThinkingEffort::Off)
    } else {
        None
    }
}

pub fn thinking_effort(name: Option<&str>) -> (r: Option<ThinkingEffort>)
    ensures
        r == (match opt_str_view(name) {
            Some(name) => effort_named(name),
            None => None,
        }),
{
    match name {
        Some(name) => if str_eq(name, "low") {
            Some(ThinkingEffort::Low)
        } else if str_eq(name, "medium") {
            Some(ThinkingEffort::Medium)
        } else if str_eq(name, "high") {
            Some(ThinkingEffort::High)
        } else if str_eq(name, "none") {
            Some(ThinkingEffort::Off)
        } else {
            None
        },
        None => None,
    }
}

/// The conversation so far as messages; what the system said is left out.
pub open spec fn earlier_messages(turns: Seq<TurnView>) -> Seq<MessageView>
    decreases turns.len(),
{
    if turns.len() == 0 {
        seq![]
    } else {
        let before = earlier_messages(turns.drop_last());
        let turn = turns.last();
        match turn.role {
            ConversationRole::User => before.push(MessageView::User { content: turn.content }),
            ConversationRole::Assistant => before.push(
                MessageView::Assistant { text: turn.content, tool_calls: seq![] },
            ),
            ConversationRole::System => before,
        }
    }
}

pub open spec fn turns_view(turns: Seq<ConversationTurn>) -> Seq<TurnView> {
    turns.map_values(|t: ConversationTurn| t@)
}

/// What the loop works on: the reply, where it resumes, and otherwise its goal.
pub open spec fn user_content(loop_state: LoopState, user_reply: Option<Seq<char>>) -> Seq<char> {
    match user_reply {
        Some(reply) => reply,
        None => loop_state.goal@,
    }
}

/// The messages that a loop begins with: the conversation so far, then what it
/// works on.
pub fn opening_messages(
    turns: &Vec<ConversationTurn>,
    loop_state: &LoopState,
    user_reply: Option<&str>,
) -> (r: Vec<Message>)
    ensures
        messages_view(r@) == earlier_messages(turns_view(turns@)).push(
            MessageView::User { content: user_content(*loop_state, opt_str_view(user_reply)) },
        ),
{
    let ghost all = turns_view(turns@);
    let mut out: Vec<Message> = Vec::new();
    let mut i: usize = 0;
    assert(all.take(0) =~= seq![]);
    assert(messages_view(out@) =~= seq![]);
    while i < turns.len()
        invariant
            i <= turns.len(),
            all == turns_view(turns@),
            messages_view(out@) == earlier_messages(all.take(i as int)),
        decreases turns.len() - i,
    {
        assert(all.take(i + 1).drop_last() =~= all.take(i as int));
        assert(all.take(i + 1).last() == turns@[i as int]@);
        match turns[i].role {
            ConversationRole::User => {
                let message: Message = Message::User { content: turns[i].content.clone() };
                proof {
                    lemma_messages_push(out@, message);
                }
                out.push(message);
            },
            ConversationRole::Assistant => {
                let message: Message = Message::Assistant {
                    text: turns[i].content.clone(),
                    tool_calls: Vec::new(),
                };
                proof {
                    lemma_messages_push(out@, message);
                    assert(message@->tool_calls =~= seq![]);
                }
                out.push(message);
            },
            ConversationRole::System => {},
        }
        i = i + 1;
    }
    assert(all.take(i as int) =~= all);
    let content: String = match user_reply {
        Some(reply) => reply.to_owned(),
        None => loop_state.goal.clone(),
    };
    let message: Message = Message::User { content };
    proof {
        lemma_messages_push(out@, message);
    }
    out.push(message);
    out
}

/// How a loop ended.
#[derive(Debug)]
pub struct LoopEnd {
    pub message: String,
    pub action: StepAction,
    pub status: ResultStatus,
}

/// The loop has ended with that message, and its last step says so.
pub open spec fn loop_ended(
    before: LoopState,
    action: StepAction,
    reason: Seq<char>,
    message: Seq<char>,
    after: LoopState,
    end: LoopEnd,
) -> bool {
    &&& ended(before, action, reason, Some(message), after)
    &&& end.message@ == message
    &&& end.action == action
    &&& end.status == (if action == StepAction::Fail {
        ResultStatus::Error
    } else {
        ResultStatus::Success
    })
}

fn end_with(loop_state: &mut LoopState, action: StepAction, reason: &str, message: &str) -> (r:
    LoopEnd)
    requires
        old(loop_state).step_index < u32::MAX,
        action == StepAction::FinalAnswer || action == StepAction::Fail,
    ensures
        loop_ended(*old(loop_state), action, reason@, message@, *final(loop_state), r),
        final(loop_state).awaiting_user is None,
{
    let step = record_terminal_step(loop_state, action, reason, Some(message));
    LoopEnd {
        message: message.to_owned(),
        action,
        status: if action == StepAction::Fail {
            ResultStatus::Error
        } else {
            ResultStatus::Success
        },
    }
}

/// Ends a loop that has no model: what it works on is its answer.
pub fn end_without_router(loop_state: &mut LoopState, user_reply: Option<&str>) -> (r: LoopEnd)
    requires
        old(loop_state).step_index < u32::MAX,
    ensures
        loop_ended(
            *old(loop_state),
            StepAction::FinalAnswer,
            "No LLM router available; echoing user input as final answer."@,
            user_content(*old(loop_state), opt_str_view(user_reply)),
            *final(loop_state),
            r,
        ),
        final(loop_state).awaiting_user is None,
{
    let message: String = match user_reply {
        Some(reply) => reply.to_owned(),
        None => loop_state.goal.clone(),
    };
    end_with(
        loop_state,
        StepAction::FinalAnswer,
        "No LLM router available; echoing user input as final answer.",
        message.as_str(),
    )
}

pub open spec fn exhausted_message(loop_state: LoopState) -> Seq<char> {
    "Step budget exhausted after "@ + decimal(loop_state.step_index as nat) + " steps; goal: "@
        + loop_state.goal@
}

/// Ends a loop whose step budget is used up.
pub fn end_if_budget_exhausted(loop_state: &mut LoopState) -> (r: Option<LoopEnd>)
    requires
        old(loop_state).step_index < u32::MAX,
    ensures
        old(loop_state).remaining_step_budget > 0 ==> r is None && *final(loop_state) == *old(
            loop_state,
        ),
        old(loop_state).remaining_step_budget == 0 ==> {
            &&& r is Some
            &&& loop_ended(
                *old(loop_state),
                StepAction::Fail,
                "Step budget exhausted."@,
                exhausted_message(*old(loop_state)),
                *final(loop_state),
                r->0,
            )
            &&& final(loop_state).awaiting_user is None
        },
{
    if loop_state.remaining_step_budget > 0 {
        return None;
    }
    let mut message: String = "Step budget exhausted after ".to_owned();
    push_decimal(&mut message, loop_state.step_index as u64);
    message.append(" steps; goal: ");
    message.append(loop_state.goal.as_str());
    Some(end_with(loop_state, StepAction::Fail, "Step budget exhausted.", message.as_str()))
}

/// Why a model call failed.
#[derive(Debug)]
pub enum ModelError {
    ContextWindowExceeded { detail: String },
    Other,
}

/// The prompt is compacted and the call made again: it was too long, and this has
/// not been tried in this turn.
pub open spec fn compacts_again(error: ModelError, reactive_compact_used: bool) -> bool {
    error is ContextWindowExceeded && !reactive_compact_used
}

pub open spec fn failure_message(error: ModelError, goal: Seq<char>) -> Seq<char> {
    match error {
        ModelError::ContextWindowExceeded { detail } =>
            "LLM call failed: context window still exceeded after reactive compact ("@ + detail@
            + "); goal: "@ + goal,
        ModelError::Other => "LLM call failed for goal: "@ + goal,
    }
}

pub open spec fn failure_reason(error: ModelError) -> Seq<char> {
    match error {
        ModelError::ContextWindowExceeded { .. } =>
            "LLM call failed: context window still exceeded after reactive compact."@,
        ModelError::Other => "LLM call failed."@,
    }
}

/// What follows from a failed model call: nothing yet where the prompt is to be
/// compacted, and otherwise the end of the loop.
pub fn absorb_model_error(
    loop_state: &mut LoopState,
    error: &ModelError,
    reactive_compact_used: bool,
) -> (r: Option<LoopEnd>)
    requires
        old(loop_state).step_index < u32::MAX,
    ensures
        compacts_again(*error, reactive_compact_used) ==> r is None && *final(loop_state) == *old(
            loop_state,
        ),
        !compacts_again(*error, reactive_compact_used) ==> {
            &&& r is Some
            &&& loop_ended(
                *old(loop_state),
                StepAction::Fail,
                failure_reason(*error),
                failure_message(*error, old(loop_state).goal@),
                *final(loop_state),
                r->0,
            )
            &&& final(loop_state).awaiting_user is None
        },
{
    match error {
        ModelError::ContextWindowExceeded { detail } => {
            if !reactive_compact_used {
                return None;
            }
            let mut message: String =
                "LLM call failed: context window still exceeded after reactive compact (".to_owned();
            message.append(detail.as_str());
            message.append("); goal: ");
            message.append(loop_state.goal.as_str());
            Some(
                end_with(
                    loop_state,
                    StepAction::Fail,
                    "LLM call failed: context window still exceeded after reactive compact.",
                    message.as_str(),
                ),
            )
        },
        ModelError::Other => {
            let mut message: String = "LLM call failed for goal: ".to_owned();
            message.append(loop_state.goal.as_str());
            Some(end_with(loop_state, StepAction::Fail, "LLM call failed.", message.as_str()))
        },
    }
}

/// How the model's answer ends the loop.
pub enum TurnEnd {
    /// It is a text without a tool call.
    Text { message: Seq<char> },
    FinalAnswer { message: Seq<char> },
    AskUser { question: Seq<char> },
    Fail { reason: Seq<char> },
}

pub open spec fn text_or(arguments: JsonView, key: Seq<char>, default: Seq<char>) -> Seq<char> {
    match arguments.member_text(key) {
        Some(text) => text,
        None => default,
    }
}

/// How one call ends the loop, if it does.
pub open spec fn call_end(call: ToolCallView) -> Option<TurnEnd> {
    if call.name == "final_answer"@ {
        Some(TurnEnd::FinalAnswer { message: text_or(call.arguments, "message"@, ""@) })
    } else if call.name == "ask_user"@ {
        Some(TurnEnd::AskUser { question: text_or(call.arguments, "question"@, ""@) })
    } else if call.name == "fail"@ {
        Some(
            TurnEnd::Fail {
                reason: text_or(call.arguments, "reason"@, "LLM reported failure."@),
            },
        )
    } else {
        None
    }
}

/// How the first of the calls that ends the loop does so.
pub open spec fn calls_end(calls: Seq<ToolCallView>) -> Option<TurnEnd>
    decreases calls.len(),
{
    if calls.len() == 0 {
        None
    } else {
        match calls_end(calls.drop_last()) {
            Some(end) => Some(end),
            None => call_end(calls.last()),
        }
    }
}

/// How the model's answer ends the loop, if it does.
pub open spec fn turn_end(text: Seq<char>, calls: Seq<ToolCallView>) -> Option<TurnEnd> {
    if calls.len() == 0 {
        Some(
            TurnEnd::Text {
                message: if text.len() == 0 {
                    "Runtime loop completed."@
                } else {
                    text
                },
            },
        )
    } else {
        calls_end(calls)
    }
}

/// The pause that the model's question leads to: what the last observation calls
/// for goes before the question.
pub open spec fn question_payload(
    loop_state: LoopState,
    missing_information: Seq<Seq<char>>,
    question: Seq<char>,
) -> PayloadView {
    match opt_tool(loop_state.last_observation) {
        Some(observation) => payload_for(loop_state.goal@, observation, missing_information),
        None => freeform_payload(question),
    }
}

/// The loop after the model's answer has ended it.
pub open spec fn answered(
    before: LoopState,
    missing_information: Seq<Seq<char>>,
    end: TurnEnd,
    after: LoopState,
    r: LoopEnd,
) -> bool {
    match end {
        TurnEnd::Text { message } => loop_ended(
            before,
            StepAction::FinalAnswer,
            "LLM produced a text response with no tool calls."@,
            message,
            after,
            r,
        ) && after.awaiting_user is None,
        TurnEnd::FinalAnswer { message } => loop_ended(
            before,
            StepAction::FinalAnswer,
            "LLM called final_answer."@,
            message,
            after,
            r,
        ) && after.awaiting_user is None,
        TurnEnd::AskUser { question } => {
            let payload = question_payload(before, missing_information, question);
            &&& loop_ended(
                before,
                StepAction::AskUser,
                "LLM called ask_user."@,
                payload.final_message,
                after,
                r,
            )
            &&& opt_payload(after.awaiting_user) == Some(payload)
        },
        TurnEnd::Fail { reason } => loop_ended(
            before,
            StepAction::Fail,
            "LLM called fail."@,
            reason,
            after,
            r,
        ) && after.awaiting_user is None,
    }
}

fn end_by_call(
    loop_state: &mut LoopState,
    missing_information: &Vec<String>,
    call: &ToolCallBlock,
) -> (r: Option<LoopEnd>)
    requires
        old(loop_state).step_index < u32::MAX,
    ensures
        match call_end(call@) {
            Some(end) => r is Some && answered(
                *old(loop_state),
                views(missing_information@),
                end,
                *final(loop_state),
                r->0,
            ),
            None => r is None && *final(loop_state) == *old(loop_state),
        },
{
    if str_eq(call.name.as_str(), "final_answer") {
        let message: &str = match call.arguments.get_str("message") {
            Some(text) => text,
            None => "",
        };
        Some(
            end_with(loop_state, StepAction::FinalAnswer, "LLM called final_answer.", message),
        )
    } else if str_eq(call.name.as_str(), "ask_user") {
        let question: &str = match call.arguments.get_str("question") {
            Some(text) => text,
            None => "",
        };
        let payload: AskUserPayload = {
            let last: Option<&ToolObservation> = match &loop_state.last_observation {
                Some(observation) => Some(observation),
                None => None,
            };
            effective_ask_user_payload(
                loop_state.goal.as_str(),
                last,
                missing_information,
                Some(AskUserPayload::freeform(question)),
            )
        };
        let message: String = payload.final_message.clone();
        let step = record_ask_user_step(loop_state, "LLM called ask_user.", payload);
        Some(LoopEnd { message, action: StepAction::AskUser, status: ResultStatus::Success })
    } else if str_eq(call.name.as_str(), "fail") {
        let reason: &str = match call.arguments.get_str("reason") {
            Some(text) => text,
            None => "LLM reported failure.",
        };
        Some(end_with(loop_state, StepAction::Fail, "LLM called fail.", reason))
    } else {
        None
    }
}

/// Takes in the model's answer: it becomes the next message, and where it is a text
/// or calls one of the tools that end the loop, the loop ends.
pub fn absorb_model_turn(
    loop_state: &mut LoopState,
    messages: &mut Vec<Message>,
    missing_information: &Vec<String>,
    text: &str,
    tool_calls: &Vec<ToolCallBlock>,
) -> (r: Option<LoopEnd>)
    requires
        old(loop_state).step_index < u32::MAX,
    ensures
        messages_view(final(messages)@) == messages_view(old(messages)@).push(
            MessageView::Assistant { text: text@, tool_calls: calls_view(tool_calls@) },
        ),
        match turn_end(text@, calls_view(tool_calls@)) {
            Some(end) => r is Some && answered(
                *old(loop_state),
                views(missing_information@),
                end,
                *final(loop_state),
                r->0,
            ),
            None => r is None && *final(loop_state) == *old(loop_state),
        },
{
    let message: Message = Message::Assistant {
        text: text.to_owned(),
        tool_calls: clone_calls(tool_calls),
    };
    proof {
        lemma_messages_push(messages@, message);
    }
    messages.push(message);
    let ghost calls = calls_view(tool_calls@);
    if tool_calls.len() == 0 {
        let message: &str = if text.is_empty() {
            "Runtime loop completed."
        } else {
            text
        };
        return Some(
            end_with(
                loop_state,
                StepAction::FinalAnswer,
                "LLM produced a text response with no tool calls.",
                message,
            ),
        );
    }
    let mut i: usize = 0;
    assert(calls.take(0) =~= seq![]);
    while i < tool_calls.len()
        invariant
            i <= tool_calls.len(),
            0 < tool_calls.len(),
            calls == calls_view(tool_calls@),
            calls_end(calls.take(i as int)) is None,
            *loop_state == *old(loop_state),
            loop_state.step_index < u32::MAX,
            messages_view(messages@) == messages_view(old(messages)@).push(
                MessageView::Assistant { text: text@, tool_calls: calls },
            ),
        decreases tool_calls.len() - i,
    {
        assert(calls.take(i + 1).drop_last() =~= calls.take(i as int));
        assert(calls.take(i + 1).last() == tool_calls@[i as int]@);
        let end: Option<LoopEnd> = end_by_call(loop_state, missing_information, &tool_calls[i]);
        if end.is_some() {
            proof {
                lemma_first_end(calls, i + 1);
            }
            return end;
        }
        i = i + 1;
    }
    assert(calls.take(i as int) =~= calls);
    None
}

proof fn lemma_first_end(calls: Seq<ToolCallView>, n: int)
    requires
        0 <= n <= calls.len(),
        calls_end(calls.take(n)) is Some,
    ensures
        calls_end(calls) == calls_end(calls.take(n)),
    decreases calls.len() - n,
{
    if n == calls.len() {
        assert(calls.take(n) =~= calls);
    } else {
        assert(calls.take(n + 1).drop_last() =~= calls.take(n));
        lemma_first_end(calls, n + 1);
    }
}

/// A call that ends the loop does so before any call behind it is looked at, and
/// where no call ends it, none is one of the tools that do.
pub proof fn law_first_ending_call_decides(text: Seq<char>, calls: Seq<ToolCallView>, i: int)
    requires
        0 <= i < calls.len(),
        forall|j: int| 0 <= j < i ==> call_end(#[trigger] calls[j]) is None,
    ensures
        call_end(calls[i]) is Some ==> turn_end(text, calls) == call_end(calls[i]),
        turn_end(text, calls) is None ==> call_end(calls[i]) is None,
{
    lemma_no_end(calls, i);
    assert(calls.take(i + 1).drop_last() =~= calls.take(i));
    assert(calls.take(i + 1).last() == calls[i]);
    if call_end(calls[i]) is Some {
        lemma_first_end(calls, i + 1);
    }
}

proof fn lemma_no_end(calls: Seq<ToolCallView>, n: int)
    requires
        0 <= n <= calls.len(),
        forall|j: int| 0 <= j < n ==> call_end(#[trigger] calls[j]) is None,
    ensures
        calls_end(calls.take(n)) is None,
    decreases n,
{
    if n > 0 {
        lemma_no_end(calls, n - 1);
        assert(calls.take(n).drop_last() =~= calls.take(n - 1));
        assert(calls.take(n).last() == calls[n - 1]);
    }
}

} // verus!
