//! What a loop begins with, and what it ends in.

use crate::json::JsonView;
use crate::message::{messages_view, Message, MessageView, ToolCallView};
use crate::number::decimal;
use crate::observation::{NextStepAction, StepAction, StepObservationView};
use crate::state::{LoopState, LoopStatus};
use crate::task::{ConversationRole, ConversationTurn, ResultStatus, TurnView};
use crate::terminal::{budget_after, ended, status_after};
use crate::text::{contains, ends_with, starts_with, views};
use crate::text_laws::{lemma_ends, lemma_holds};
use crate::turn::{
    answered, call_end, calls_end, earlier_messages, effort_named, exhausted_message,
    failure_message, failure_reason, opening_messages, turn_end, turns_view, user_content, LoopEnd,
    ModelError, ThinkingEffort, TurnEnd,
};
use vstd::prelude::*;

verus! {

/// The conversation so far is taken over turn by turn, in its order.
pub proof fn law_conversation_in_order(first: Seq<TurnView>, second: Seq<TurnView>)
    ensures
        earlier_messages(first + second) == earlier_messages(first) + earlier_messages(second),
    decreases second.len(),
{
    let all = first + second;
    if second.len() == 0 {
        assert(all =~= first);
        assert(earlier_messages(first) + earlier_messages(second) =~= earlier_messages(first));
    } else {
        law_conversation_in_order(first, second.drop_last());
        assert(all.drop_last() =~= first + second.drop_last());
        assert(all.last() == second.last());
        assert(earlier_messages(all) =~= earlier_messages(first) + earlier_messages(second));
    }
}

/// What the user said is a message of the user, what the assistant said is one of the
/// assistant without tool calls, and what the system said is left out.
pub proof fn law_conversation_keeps_roles(content: Seq<char>)
    ensures
        earlier_messages(seq![TurnView { role: ConversationRole::User, content }]) == seq![
            MessageView::User { content },
        ],
        earlier_messages(seq![TurnView { role: ConversationRole::Assistant, content }]) == seq![
            MessageView::Assistant { text: content, tool_calls: seq![] },
        ],
        earlier_messages(seq![TurnView { role: ConversationRole::System, content }]) == Seq::<
            MessageView,
        >::empty(),
{
    reveal_with_fuel(earlier_messages, 2);
    let user = seq![TurnView { role: ConversationRole::User, content }];
    let assistant = seq![TurnView { role: ConversationRole::Assistant, content }];
    let system = seq![TurnView { role: ConversationRole::System, content }];
    assert(user.drop_last() =~= seq![]);
    assert(assistant.drop_last() =~= seq![]);
    assert(system.drop_last() =~= seq![]);
    assert(earlier_messages(user) =~= seq![MessageView::User { content }]);
    assert(earlier_messages(assistant) =~= seq![
        MessageView::Assistant { text: content, tool_calls: seq![] },
    ]);
}

/// A loop works on the reply where there is one, and on its goal otherwise.
pub proof fn law_reply_goes_before_goal(state: LoopState, reply: Seq<char>)
    ensures
        user_content(state, Some(reply)) == reply,
        user_content(state, None) == state.goal@,
{
}

/// A loop begins with the conversation so far, and then with what it works on, as the
/// user's own message.
pub proof fn law_opening(
    turns: &Vec<ConversationTurn>,
    state: &LoopState,
    reply: Option<&str>,
    r: Vec<Message>,
)
    requires
        call_ensures(opening_messages, (turns, state, reply), r),
    ensures
        messages_view(r@).len() > 0,
        messages_view(r@).drop_last() == earlier_messages(turns_view(turns@)),
        reply matches Some(text) ==> messages_view(r@).last() == (MessageView::User {
            content: text@,
        }),
        reply is None ==> messages_view(r@).last() == (MessageView::User { content: state.goal@ }),
{
    let all = messages_view(r@);
    assert(all.drop_last() =~= earlier_messages(turns_view(turns@)));
}

/// A text without tool calls ends the loop with that text, and a turn with tool calls
/// is not ended by its text.
pub proof fn law_text_ends_the_loop(
    text: Seq<char>,
    other: Seq<char>,
    calls: Seq<ToolCallView>,
)
    ensures
        text.len() > 0 ==> turn_end(text, seq![]) == Some(TurnEnd::Text { message: text }),
        turn_end(seq![], seq![]) == Some(TurnEnd::Text { message: "Runtime loop completed."@ }),
        calls.len() > 0 ==> turn_end(text, calls) == turn_end(other, calls),
        calls.len() > 0 ==> !(turn_end(text, calls) matches Some(TurnEnd::Text { .. })),
{
    if calls.len() > 0 {
        lemma_call_ends(calls);
    }
}

proof fn lemma_call_ends(calls: Seq<ToolCallView>)
    ensures
        !(calls_end(calls) matches Some(TurnEnd::Text { .. })),
    decreases calls.len(),
{
    if calls.len() > 0 {
        lemma_call_ends(calls.drop_last());
    }
}

proof fn lemma_ending_names()
    ensures
        "final_answer"@ != "ask_user"@,
        "final_answer"@ != "fail"@,
        "ask_user"@ != "fail"@,
{
    reveal_strlit("final_answer");
    reveal_strlit("ask_user");
    reveal_strlit("fail");
    assert("final_answer"@.len() == 12 && "ask_user"@.len() == 8 && "fail"@.len() == 4);
}

/// Three calls end a turn, each with its own text: `final_answer` with `message`,
/// `ask_user` with `question` and `fail` with `reason`. No other call does.
pub proof fn law_calls_that_end_a_turn(id: Seq<char>, name: Seq<char>, arguments: JsonView)
    ensures
        call_end(ToolCallView { id, name: "final_answer"@, arguments }) == Some(
            TurnEnd::FinalAnswer {
                message: arguments.member_text("message"@).unwrap_or(""@),
            },
        ),
        call_end(ToolCallView { id, name: "ask_user"@, arguments }) == Some(
            TurnEnd::AskUser { question: arguments.member_text("question"@).unwrap_or(""@) },
        ),
        call_end(ToolCallView { id, name: "fail"@, arguments }) == Some(
            TurnEnd::Fail {
                reason: arguments.member_text("reason"@).unwrap_or("LLM reported failure."@),
            },
        ),
        name != "final_answer"@ && name != "ask_user"@ && name != "fail"@ ==> call_end(
            ToolCallView { id, name, arguments },
        ) is None,
{
    lemma_ending_names();
}

/// An answer ends the loop with success and a failure with an error. A question leaves
/// the loop waiting and costs no step; the others cost one.
pub proof fn law_endings(
    before: LoopState,
    missing: Seq<Seq<char>>,
    end: TurnEnd,
    after: LoopState,
    r: LoopEnd,
)
    requires
        before.step_index < u32::MAX,
        answered(before, missing, end, after, r),
    ensures
        match end {
            TurnEnd::Text { message } | TurnEnd::FinalAnswer { message } => {
                &&& r.message@ == message
                &&& r.action == StepAction::FinalAnswer
                &&& r.status == ResultStatus::Success
                &&& after.status == LoopStatus::Succeeded
                &&& after.awaiting_user is None
                &&& before.remaining_step_budget > 0 ==> after.remaining_step_budget
                    == before.remaining_step_budget - 1
            },
            TurnEnd::Fail { reason } => {
                &&& r.message@ == reason
                &&& r.action == StepAction::Fail
                &&& r.status == ResultStatus::Error
                &&& after.status == LoopStatus::Failed
                &&& after.awaiting_user is None
                &&& before.remaining_step_budget > 0 ==> after.remaining_step_budget
                    == before.remaining_step_budget - 1
            },
            TurnEnd::AskUser { question } => {
                &&& r.action == StepAction::AskUser
                &&& r.status == ResultStatus::Success
                &&& after.status == LoopStatus::AwaitingUser
                &&& after.awaiting_user is Some
                &&& r.message@ == after.awaiting_user->0@.final_message
                &&& after.remaining_step_budget == before.remaining_step_budget
                &&& before.last_observation is None ==> r.message@ == question
                    && after.awaiting_user->0@.resume_contract is NoAutomaticResume
            },
        },
        after.goal == before.goal,
        after.step_index == before.step_index + 1,
        after.history@.last()@.observation matches Some(o) && (match o {
            StepObservationView::AskUser { final_message } => end is AskUser && final_message
                == r.message@,
            StepObservationView::FinalMessage { final_message } => !(end is AskUser)
                && final_message == r.message@,
            StepObservationView::Tool(_) => false,
        }),
        after.history@.last()@.step_index == before.step_index + 1,
        after.history@.last()@.action == r.action,
{
}

/// What each kind of step leaves the loop in.
pub proof fn law_status_of_a_step(budget: u32)
    ensures
        status_after(StepAction::FinalAnswer) == LoopStatus::Succeeded,
        status_after(StepAction::Fail) == LoopStatus::Failed,
        status_after(StepAction::AskUser) == LoopStatus::AwaitingUser,
        status_after(StepAction::Stop) == LoopStatus::Stopped,
        status_after(StepAction::CallTool) == LoopStatus::LoopRunning,
        status_after(StepAction::CompactBoundary) == LoopStatus::LoopRunning,
        budget_after(StepAction::AskUser, budget) == budget,
        budget_after(StepAction::Stop, budget) == budget,
        budget_after(StepAction::CompactBoundary, budget) == budget,
        budget > 0 ==> budget_after(StepAction::CallTool, budget) == budget - 1,
        budget > 0 ==> budget_after(StepAction::FinalAnswer, budget) == budget - 1,
        budget > 0 ==> budget_after(StepAction::Fail, budget) == budget - 1,
        budget_after(StepAction::CallTool, 0) == 0,
{
}

/// The record of an ending step carries its reason, its message and the tools that were
/// visible.
pub proof fn law_ending_is_recorded(
    before: LoopState,
    action: StepAction,
    reason: Seq<char>,
    message: Seq<char>,
    after: LoopState,
)
    requires
        before.step_index < u32::MAX,
        ended(before, action, reason, Some(message), after),
    ensures
        ({
            let step = after.history@.last()@;
            &&& step.action == action
            &&& step.decision_reason == reason
            &&& step.decision.reason == reason
            &&& step.decision.final_message == Some(message)
            &&& step.decision.tool_name is None
            &&& step.tool_name is None
            &&& step.visible_tools == views(before.visible_tools@)
            &&& step.working_directory == before.working_directory@
            &&& step.remaining_recovery_budget == before.remaining_recovery_budget
            &&& step.remaining_step_budget == after.remaining_step_budget
            &&& action == StepAction::AskUser ==> step.decision.action == NextStepAction::AskUser
            &&& action == StepAction::FinalAnswer ==> step.decision.action
                == NextStepAction::FinalAnswer
            &&& action == StepAction::Fail || action == StepAction::Stop ==> step.decision.action
                == NextStepAction::Fail
        }),
{
}

/// A failed model call is told with the goal, and with the provider's detail where the
/// prompt stayed too long; a prompt that is too long is compacted once before that.
pub proof fn law_failed_call_is_told(error: ModelError, goal: Seq<char>)
    ensures
        starts_with(failure_message(error, goal), "LLM call failed"@),
        starts_with(failure_reason(error), "LLM call failed"@),
        ends_with(failure_message(error, goal), goal),
        error matches ModelError::ContextWindowExceeded { detail } ==> contains(
            failure_message(error, goal),
            detail@,
        ) && contains(
            failure_message(error, goal),
            "context window still exceeded after reactive compact"@,
        ),
{
    reveal_strlit("LLM call failed");
    reveal_strlit("LLM call failed for goal: ");
    reveal_strlit("LLM call failed.");
    reveal_strlit("LLM call failed: context window still exceeded after reactive compact (");
    reveal_strlit("LLM call failed: context window still exceeded after reactive compact.");
    reveal_strlit("context window still exceeded after reactive compact");
    let said = failure_message(error, goal);
    let begun = "LLM call failed"@;
    assert("LLM call failed for goal: "@.subrange(0, 15) =~= begun);
    assert("LLM call failed."@.subrange(0, 15) =~= begun);
    assert("LLM call failed: context window still exceeded after reactive compact ("@.subrange(
        0,
        15,
    ) =~= begun);
    assert("LLM call failed: context window still exceeded after reactive compact."@.subrange(
        0,
        15,
    ) =~= begun);
    assert(said.subrange(0, 15) =~= begun);
    match error {
        ModelError::ContextWindowExceeded { detail } => {
            let front =
                "LLM call failed: context window still exceeded after reactive compact ("@;
            let why = "context window still exceeded after reactive compact"@;
            assert(front =~= "LLM call failed"@ + seq![':', ' '] + why + seq![' ', '(']);
            lemma_holds(front, detail@, "); goal: "@ + goal);
            assert(said =~= front + detail@ + ("); goal: "@ + goal));
            lemma_ends(front + detail@ + "); goal: "@, goal);
            lemma_holds(
                "LLM call failed"@ + seq![':', ' '],
                why,
                seq![' ', '('] + detail@ + "); goal: "@ + goal,
            );
            assert(said =~= "LLM call failed"@ + seq![':', ' '] + why + (seq![' ', '('] + detail@
                + "); goal: "@ + goal));
        },
        ModelError::Other => {
            lemma_ends("LLM call failed for goal: "@, goal);
        },
    }
}

/// A loop without steps left says how many it took, and what for.
pub proof fn law_exhaustion_is_told(state: LoopState)
    ensures
        starts_with(exhausted_message(state), "Step budget exhausted"@),
        contains(exhausted_message(state), " "@ + decimal(state.step_index as nat) + " steps"@),
        ends_with(exhausted_message(state), state.goal@),
{
    reveal_strlit("Step budget exhausted");
    reveal_strlit("Step budget exhausted after ");
    reveal_strlit(" steps; goal: ");
    reveal_strlit(" steps");
    reveal_strlit(" ");
    let said = exhausted_message(state);
    let count = decimal(state.step_index as nat);
    assert(said.subrange(0, 21) =~= "Step budget exhausted"@);
    lemma_ends("Step budget exhausted after "@ + count + " steps; goal: "@, state.goal@);
    let front = "Step budget exhausted after "@.take(27);
    let rest = " steps; goal: "@.skip(6) + state.goal@;
    assert("Step budget exhausted after "@ =~= front + " "@);
    assert(" steps; goal: "@ =~= " steps"@ + " steps; goal: "@.skip(6));
    assert(said =~= front + (" "@ + count + " steps"@) + rest);
    lemma_holds(front, " "@ + count + " steps"@, rest);
}

/// The levels of thinking and their names.
pub proof fn law_efforts_by_name(name: Seq<char>)
    ensures
        effort_named("low"@) == Some(ThinkingEffort::Low),
        effort_named("medium"@) == Some(ThinkingEffort::Medium),
        effort_named("high"@) == Some(ThinkingEffort::High),
        effort_named("none"@) == Some(ThinkingEffort::Off),
        effort_named(name) is Some ==> name == "low"@ || name == "medium"@ || name == "high"@
            || name == "none"@,
{
    reveal_strlit("low");
    reveal_strlit("medium");
    reveal_strlit("high");
    reveal_strlit("none");
    assert("low"@[0] == 'l' && "medium"@[0] == 'm' && "high"@[0] == 'h' && "none"@[0] == 'n');
}

} // verus!
