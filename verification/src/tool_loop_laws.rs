//! What holds of every tool loop.

use crate::attempt::{middle_after, middle_outcome, session_summary};
use crate::compact::{collapsed, half_split};
use crate::compact_laws::{
    asks_for, law_collapse_leaves_a_summary, law_when_nothing_collapses, paired,
};
use crate::message::{MessageView, ToolCallView};
use crate::observation::StepAction;
use crate::state::{LoopState, LoopStatus};
use crate::tool_calls::{
    dispatch_of, law_answer_keeps_pairs, law_message_keeps_pairs, one_less, tool_result,
    ToolDispatch,
};
use crate::turn::{compacts_again, loop_ended, LoopEnd, ModelError};
use vstd::prelude::*;

verus! {

/// A prompt is compacted and sent again at most once in a turn: once that has been
/// tried, every error ends the loop. An error that is not about the prompt's length
/// always does.
pub proof fn law_one_reactive_compaction(error: ModelError, used: bool)
    ensures
        !compacts_again(error, true),
        compacts_again(error, used) ==> error is ContextWindowExceeded,
        error is ContextWindowExceeded ==> compacts_again(error, false),
{
}

/// A mid-water trigger on a buffer that has grown since its last compaction collapses
/// the older half, as long as that is not all tool results, and it does so with a
/// digest once the stored summary has been looked up.
pub proof fn law_later_triggers_collapse(
    state: LoopState,
    messages: Seq<MessageView>,
    found: Option<Seq<char>>,
)
    requires
        state.layer2_lookup_attempted_this_run,
        messages.len() > 2,
        exists|i: int|
            2 <= i <= 1 + (messages.len() as int) / 2 && !((#[trigger] messages[i]) is ToolResult),
    ensures
        middle_outcome(messages, true, session_summary(state, found) is Some) is Layer1,
        middle_after(messages, true, session_summary(state, found)) == collapsed(messages, None),
{
    law_when_nothing_collapses(messages, false);
}

/// A mid-water trigger on a buffer that has not grown since the last one changes
/// nothing, whatever stored summary comes with it.
pub proof fn law_unchanged_buffer_rests(
    messages: Seq<MessageView>,
    grown: bool,
    first: Option<Seq<char>>,
    second: Option<Seq<char>>,
)
    ensures
        ({
            let settled = middle_after(messages, grown, first);
            &&& middle_outcome(settled, false, second is Some) is Noop
            &&& middle_after(settled, false, second) == settled
        }),
{
    if half_split(messages) > 1 {
        law_collapse_leaves_a_summary(messages, first);
    }
}

/// A denied call is only denied: it starts no tool and no agent, loads no schema
/// and does not reach the task store.
pub proof fn law_denied_call_goes_no_further(name: Seq<char>)
    ensures
        dispatch_of(name, true) == ToolDispatch::Denied,
        dispatch_of(name, false) != ToolDispatch::Denied,
{
}

/// Every call that the loop answers without running a tool costs a step, so that
/// such calls alone exhaust the budget.
pub proof fn law_answers_cost_steps(budget: u32, answers: nat)
    ensures
        budget > 0 ==> one_less(budget) < budget,
        budget_left(budget, answers) == (if answers >= budget {
            0
        } else {
            (budget - answers) as u32
        }),
    decreases answers,
{
    if answers > 0 {
        law_answers_cost_steps(budget, (answers - 1) as nat);
    }
}

/// The budget after so many such answers.
pub open spec fn budget_left(budget: u32, answers: nat) -> u32
    decreases answers,
{
    if answers == 0 {
        budget
    } else {
        one_less(budget_left(budget, (answers - 1) as nat))
    }
}

/// A loop that has ended is no longer running, its step count has grown by one, and
/// its budget has not grown.
pub proof fn law_ended_loop_is_settled(
    before: LoopState,
    action: StepAction,
    reason: Seq<char>,
    message: Seq<char>,
    after: LoopState,
    end: LoopEnd,
)
    requires
        before.step_index < u32::MAX,
        action == StepAction::FinalAnswer || action == StepAction::Fail || action
            == StepAction::AskUser,
        loop_ended(before, action, reason, message, after, end),
    ensures
        after.status != LoopStatus::LoopRunning,
        after.step_index == before.step_index + 1,
        after.remaining_step_budget <= before.remaining_step_budget,
        after.history@.len() == before.history@.len() + 1,
        forall|i: int|
            0 <= i < before.history@.len() ==> (#[trigger] after.history@[i])
                == before.history@[i],
{
    assert forall|i: int| 0 <= i < before.history@.len() implies (#[trigger] after.history@[i])
        == before.history@[i] by {
        assert(after.history@ == before.history@.push(after.history@.last()));
    }
}

/// The answers of one turn, in the order of the calls.
pub open spec fn answers_to(calls: Seq<ToolCallView>, contents: Seq<(Seq<char>, bool)>) -> Seq<
    MessageView,
>
    decreases calls.len(),
{
    if calls.len() == 0 || contents.len() != calls.len() {
        seq![]
    } else {
        answers_to(calls.drop_last(), contents.drop_last()).push(
            tool_result(calls.last().id, contents.last().0, contents.last().1),
        )
    }
}

/// A turn whose calls are each answered, in order, keeps every tool result behind
/// the call that it answers.
pub proof fn law_turn_keeps_pairs(
    messages: Seq<MessageView>,
    text: Seq<char>,
    calls: Seq<ToolCallView>,
    contents: Seq<(Seq<char>, bool)>,
)
    requires
        paired(messages),
        contents.len() == calls.len(),
    ensures
        paired(
            messages.push(MessageView::Assistant { text, tool_calls: calls }) + answers_to(
                calls,
                contents,
            ),
        ),
{
    let asking = messages.push(MessageView::Assistant { text, tool_calls: calls });
    law_message_keeps_pairs(messages, MessageView::Assistant { text, tool_calls: calls });
    lemma_answers_keep_pairs(asking, messages.len() as int, calls, contents, calls.len() as int);
    assert(calls.take(calls.len() as int) =~= calls);
    assert(contents.take(calls.len() as int) =~= contents);
}

proof fn lemma_answers_keep_pairs(
    asking: Seq<MessageView>,
    at: int,
    calls: Seq<ToolCallView>,
    contents: Seq<(Seq<char>, bool)>,
    n: int,
)
    requires
        paired(asking),
        at == asking.len() - 1,
        at >= 0,
        asking[at] matches MessageView::Assistant { tool_calls, .. } && tool_calls == calls,
        0 <= n <= calls.len(),
        contents.len() == calls.len(),
    ensures
        paired(asking + answers_to(calls.take(n), contents.take(n))),
        answers_to(calls.take(n), contents.take(n)).len() == n,
        forall|k: int|
            0 <= k < n ==> (#[trigger] answers_to(calls.take(n), contents.take(n))[k]) is ToolResult,
    decreases n,
{
    let some = answers_to(calls.take(n), contents.take(n));
    if n == 0 {
        assert(asking + some =~= asking);
    } else {
        lemma_answers_keep_pairs(asking, at, calls, contents, n - 1);
        assert(calls.take(n).drop_last() =~= calls.take(n - 1));
        assert(contents.take(n).drop_last() =~= contents.take(n - 1));
        let before = asking + answers_to(calls.take(n - 1), contents.take(n - 1));
        let call = calls[n - 1];
        assert(before[at] == asking[at]);
        assert(asks_for(before[at], call.id)) by {
            let tool_calls = before[at]->tool_calls;
            assert(tool_calls[n - 1].id == call.id);
        }
        law_answer_keeps_pairs(before, at, call.id, contents[n - 1].0, contents[n - 1].1);
        assert(asking + some =~= before.push(
            tool_result(call.id, contents[n - 1].0, contents[n - 1].1),
        ));
    }
}

} // verus!
