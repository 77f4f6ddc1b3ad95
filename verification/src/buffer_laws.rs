//! What becomes of the messages in a buffer that is made smaller.

use crate::bytes::byte_len;
use crate::compact::{
    adjusted_split, cleared, collapse_outcome, collapsed, compacted, freed_tokens, has_thinking,
    is_summary, microcompacted, mid_summary, result_count, thinking_count, without_thinking,
    MidCompactOutcome,
};
use crate::compaction::{
    compaction_ran, failures_after, history_by_model, history_compacted, history_of, history_seeded,
    summary_events, HistoryView, SummarizerRun,
};
use crate::digest::messages_digest;
use crate::estimate::text_tokens;
use crate::events::EventView;
use crate::history::{steps_digest, CompactConfig};
use crate::message::{MessageView, ToolCallView};
use crate::state::LoopState;
use crate::summarizer::{
    judged, remote_summary, replies_view, summarized, JobView, OutcomeView, ReplyView,
    StructuredCompactError, VerdictView,
};
use crate::text::{contains, first_at, join, lemma_find, occurs_at, starts_with, trim, trim_start};
use crate::text_laws::lemma_begins;
use vstd::prelude::*;

verus! {

/// An old tool result that is longer than the placeholder is cleared: the placeholder
/// stands in its place, and it keeps its call and whether it failed.
pub proof fn law_old_results_are_cleared(
    messages: Seq<MessageView>,
    retain: int,
    i: int,
    id: Seq<char>,
    content: Seq<char>,
    is_error: bool,
)
    requires
        0 <= i < messages.len(),
        messages[i] == (MessageView::ToolResult { tool_use_id: id, content, is_error }),
        result_count(messages.skip(i + 1)) >= retain,
        byte_len(content) > byte_len("[Old tool result content cleared]"@),
    ensures
        microcompacted(messages, retain)[i] == (MessageView::ToolResult {
            tool_use_id: id,
            content: "[Old tool result content cleared]"@,
            is_error,
        }),
{
}

/// What is left of a result that is not cleared is all of it, and so is every other
/// message.
pub proof fn law_nothing_else_is_cleared(messages: Seq<MessageView>, retain: int, i: int)
    requires
        0 <= i < messages.len(),
    ensures
        microcompacted(messages, retain)[i] != messages[i] ==> {
            &&& messages[i] is ToolResult
            &&& result_count(messages.skip(i + 1)) >= retain
            &&& microcompacted(messages, retain)[i] == cleared(messages[i])
        },
{
}

/// The tool results of a buffer are counted one by one.
pub proof fn law_results_are_counted(messages: Seq<MessageView>, message: MessageView)
    ensures
        result_count(seq![]) == 0,
        message is ToolResult ==> result_count(seq![message] + messages) == result_count(messages)
            + 1,
        !(message is ToolResult) ==> result_count(seq![message] + messages) == result_count(
            messages,
        ),
{
    assert((seq![message] + messages).skip(1) =~= messages);
}

/// Clearing a result frees what it took beyond the placeholder.
pub proof fn law_freed_tokens(id: Seq<char>, content: Seq<char>, is_error: bool)
    ensures
        ({
            let left = text_tokens("[Old tool result content cleared]"@);
            let freed = freed_tokens(MessageView::ToolResult { tool_use_id: id, content, is_error });
            &&& text_tokens(content) >= left ==> freed == text_tokens(content) - left
            &&& text_tokens(content) < left ==> freed == 0
        }),
{
}

/// A thinking block at the start of what the assistant said is taken out with its tags
/// and the blanks behind it; the tool calls stay.
pub proof fn law_thinking_is_taken_out(
    thought: Seq<char>,
    rest: Seq<char>,
    calls: Seq<ToolCallView>,
)
    requires
        !contains(thought + "</thinking>"@.drop_last(), "</thinking>"@),
    ensures
        without_thinking(
            MessageView::Assistant {
                text: "<thinking>"@ + (thought + "</thinking>"@ + rest),
                tool_calls: calls,
            },
        ) == (MessageView::Assistant { text: trim_start(rest), tool_calls: calls }),
{
    reveal_strlit("<thinking>");
    reveal_strlit("</thinking>");
    let close = "</thinking>"@;
    let after = thought + close + rest;
    let text = "<thinking>"@ + after;
    lemma_begins("<thinking>"@, after);
    assert(text.skip("<thinking>"@.len() as int) =~= after);
    let at = thought.len() as int;
    assert(after.subrange(at, at + close.len()) =~= close);
    assert(occurs_at(after, close, at));
    let most = thought + close.drop_last();
    assert forall|j: int| 0 <= j < at implies !occurs_at(after, close, j) by {
        if occurs_at(after, close, j) {
            assert(most.subrange(j, j + close.len()) =~= after.subrange(j, j + close.len()));
            assert(occurs_at(most, close, j));
        }
    }
    assert(first_at(after, close, at));
    lemma_find(after, close, at);
    assert(after.skip(at + close.len()) =~= rest);
}

/// What has no thinking block at its start stays as it is, and only the assistant has
/// thoughts.
pub proof fn law_the_rest_is_kept(message: MessageView)
    ensures
        !(message is Assistant) ==> without_thinking(message) == message && !has_thinking(message),
        message matches MessageView::Assistant { text, .. } ==> (!starts_with(text, "<thinking>"@)
            ==> without_thinking(message) == message && !has_thinking(message)),
        has_thinking(message) <==> thinking_count(seq![message]) == 1,
        thinking_count(seq![message]) <= 1,
{
    reveal_with_fuel(thinking_count, 2);
    let one = seq![message];
    assert(one.drop_last() =~= seq![]);
}

/// The split moves back over tool results, and no further: everything that it passed is a
/// tool result.
pub proof fn law_split_passes_results_only(messages: Seq<MessageView>, split: int, i: int)
    requires
        adjusted_split(messages, split) < i <= split,
    ensures
        i < messages.len(),
        messages[i] is ToolResult,
    decreases split,
{
    if split > 1 && split < messages.len() && messages[split] is ToolResult {
        if i < split {
            law_split_passes_results_only(messages, split - 1, i);
        }
    }
}

/// A buffer with more than one message beyond the tail and the first is compacted: the
/// digest of what is discarded stands behind the first message, and the tail follows.
pub proof fn law_compaction_replaces_the_middle(messages: Seq<MessageView>, retain: int)
    requires
        0 <= retain,
        messages.len() > retain + 1,
        retain == 0 || !(messages[messages.len() - retain] is ToolResult),
    ensures
        compacted(messages, retain) == seq![
            messages[0],
            MessageView::User {
                content: messages_digest(messages.subrange(1, messages.len() - retain)),
            },
        ] + messages.skip(messages.len() - retain),
        messages.len() <= retain + 1 ==> compacted(messages, retain) == messages,
{
    let split = messages.len() - retain;
    assert(adjusted_split(messages, split) == split);
    assert(messages.take(1) =~= seq![messages[0]]);
    assert(compacted(messages, retain) =~= seq![
        messages[0],
        MessageView::User { content: messages_digest(messages.subrange(1, split)) },
    ] + messages.skip(split));
}

/// A short buffer is not compacted.
pub proof fn law_short_buffers_stay(messages: Seq<MessageView>, retain: int)
    requires
        messages.len() <= retain + 1,
    ensures
        compacted(messages, retain) == messages,
{
}

/// The middle tier replaces the older half behind the first message, where the half does
/// not end among tool results: with a stored summary, or with a digest.
pub proof fn law_collapse_replaces_the_older_half(
    messages: Seq<MessageView>,
    stored: Option<Seq<char>>,
)
    requires
        messages.len() >= 3,
        !(messages[1 + (messages.len() as int) / 2] is ToolResult),
    ensures
        ({
            let half = (messages.len() as int) / 2;
            let summary = mid_summary(messages.subrange(1, 1 + half), stored);
            &&& collapsed(messages, stored) == seq![
                messages[0],
                MessageView::User { content: summary },
            ] + messages.skip(1 + half)
            &&& stored is Some && half <= usize::MAX ==> collapse_outcome(messages, true) == (
            MidCompactOutcome::Layer2 { messages_replaced: half as usize })
            &&& stored is None && half <= usize::MAX ==> collapse_outcome(messages, false) == (
            MidCompactOutcome::Layer1 { messages_collapsed: half as usize })
        }),
{
    let split = 1 + (messages.len() as int) / 2;
    assert(adjusted_split(messages, split) == split);
    assert(messages.take(1) =~= seq![messages[0]]);
    let summary = mid_summary(messages.subrange(1, split), stored);
    assert(collapsed(messages, stored) =~= seq![
        messages[0],
        MessageView::User { content: summary },
    ] + messages.skip(split));
}

/// A summary counts where it is not blank and has its sections: a blank one is a failure
/// of the provider, one without its sections breaks the contract.
pub proof fn law_judgement(text: Seq<char>)
    ensures
        ({
            let whole = contains(text, "Goal:"@) && contains(text, "Accomplished:"@) && contains(
                text,
                "Key Decisions:"@,
            ) && contains(text, "Relevant Files:"@);
            &&& trim(text).len() == 0 ==> judged(text) == VerdictView::Rejected(
                StructuredCompactError::ProviderFailure,
            )
            &&& trim(text).len() > 0 && whole ==> judged(text) == VerdictView::Accepted(text)
            &&& trim(text).len() > 0 && !whole ==> judged(text) == VerdictView::Rejected(
                StructuredCompactError::ContractViolation,
            )
        }),
{
}

/// What a reply leads to: a text is judged and its tokens are added up, a failed call is a
/// failure of the provider, and a prompt that was too long is asked again without its
/// older half, three times at most.
pub proof fn law_replies(job: JobView, text: Seq<char>, prompt: int, output: int)
    requires
        0 <= job.prompt_tokens + prompt <= u64::MAX,
        0 <= job.output_tokens + output <= u64::MAX,
    ensures
        ({
            let reply = ReplyView::Generated { prompt_tokens: prompt, output_tokens: output, text };
            &&& job.verdict(reply) == Some(judged(text))
            &&& job.after(reply).prompt_tokens == job.prompt_tokens + prompt
            &&& job.after(reply).output_tokens == job.output_tokens + output
            &&& job.after(reply).pending == job.pending
            &&& job.verdict(ReplyView::Failed) == Some(
                VerdictView::Rejected(StructuredCompactError::ProviderFailure),
            )
            &&& job.after(ReplyView::Failed) == job
            &&& job.drop_oldest_retries >= 3 ==> job.verdict(ReplyView::ContextWindowExceeded)
                == Some(VerdictView::Rejected(StructuredCompactError::OverflowAfterRetries))
            &&& job.drop_oldest_retries < 3 ==> job.verdict(ReplyView::ContextWindowExceeded) is None
            &&& job.drop_oldest_retries < 3 ==> job.after(ReplyView::ContextWindowExceeded).pending
                == job.pending.skip((job.pending.len() as int + 1) / 2)
            &&& job.drop_oldest_retries < 3 ==> job.after(
                ReplyView::ContextWindowExceeded,
            ).drop_oldest_retries == job.drop_oldest_retries + 1
            &&& job.after(ReplyView::ContextWindowExceeded).discarded == job.discarded
        }),
{
}

/// The first reply that is not about the prompt's length decides.
pub proof fn law_first_verdict_decides(job: JobView, reply: ReplyView, more: Seq<ReplyView>)
    requires
        job.pending.len() > 0,
        job.verdict(reply) is Some,
    ensures
        job.run(seq![reply] + more) == (job.after(reply), job.verdict(reply)->0),
{
    assert((seq![reply] + more)[0] == reply);
}

/// An accepted text is the summary; otherwise the digest of what was discarded is.
pub proof fn law_summary_by_verdict(job: JobView, text: Seq<char>, error: StructuredCompactError)
    ensures
        job.summary(VerdictView::Accepted(text)) == text,
        job.summary(VerdictView::Rejected(error)) == messages_digest(job.discarded),
        job.outcome(VerdictView::Accepted(text)).succeeded,
        job.outcome(VerdictView::Accepted(text)).error is None,
        job.outcome(VerdictView::Accepted(text)).summary_text == Some(text),
        job.outcome(VerdictView::Accepted(text)).discarded_count == job.discarded.len(),
        !job.outcome(VerdictView::Rejected(error)).succeeded,
        job.discarded.len() != 1 ==> job.outcome(VerdictView::Rejected(error)).error == Some(error),
        job.outcome(VerdictView::Rejected(error)).prompt_tokens == job.prompt_tokens,
        job.outcome(VerdictView::Rejected(error)).output_tokens == job.output_tokens,
        job.outcome(VerdictView::Accepted(text)).prompt_tokens == job.prompt_tokens,
        job.outcome(VerdictView::Accepted(text)).output_tokens == job.output_tokens,
        job.outcome(VerdictView::Accepted(text)).drop_oldest_retries == job.drop_oldest_retries,
        job.outcome(VerdictView::Accepted(text)).thinking_stripped == job.thinking_stripped,
{
}

/// What an endpoint wrote is its summary, without the mark that the buffer gives it, and
/// without the messages that say nothing.
pub proof fn law_endpoint_text(text: Seq<char>)
    requires
        text.len() > 0,
        !starts_with(text, "[Conversation summary]\n"@),
    ensures
        remote_summary(seq![MessageView::User { content: text }]) == Some(text),
        remote_summary(seq![MessageView::Assistant { text, tool_calls: seq![] }]) == Some(text),
        remote_summary(
            seq![MessageView::User { content: "[Conversation summary]\n"@ + text }],
        ) == Some(text),
        remote_summary(seq![MessageView::User { content: seq![] }]) is None,
        remote_summary(seq![]) is None,
{
    reveal_with_fuel(crate::summarizer::message_texts, 2);
    reveal_with_fuel(join, 2);
    let mark = "[Conversation summary]\n"@;
    reveal_strlit("[Conversation summary]\n");
    let a = seq![MessageView::User { content: text }];
    let b = seq![MessageView::Assistant { text, tool_calls: seq![] }];
    let c = seq![MessageView::User { content: mark + text }];
    let d = seq![MessageView::User { content: Seq::<char>::empty() }];
    assert(a.drop_last() =~= seq![] && b.drop_last() =~= seq![] && c.drop_last() =~= seq![]
        && d.drop_last() =~= seq![]);
    lemma_begins(mark, text);
    assert((mark + text).skip(mark.len() as int) =~= text);
    let none = Seq::<Seq<char>>::empty();
    assert(none.push(text).len() == 1);
    assert(none.push(mark + text).len() == 1);
}

/// A success sets the count of failures in a row to zero, a failure adds one to it, and a
/// compaction that was not needed leaves it.
pub proof fn law_failures_in_a_row(failures: u32, outcome: OutcomeView)
    ensures
        outcome.succeeded ==> failures_after(failures, outcome) == 0,
        !outcome.succeeded && outcome.error is Some && failures < u32::MAX ==> failures_after(
            failures,
            outcome,
        ) == failures + 1,
        !outcome.succeeded && outcome.error is None ==> failures_after(failures, outcome)
            == failures,
{
}

/// What is told of a compaction with the model: the calls and their tokens, the breaker
/// where this failure trips it, and the end.
pub proof fn law_compaction_is_told(
    step: u32,
    outcome: OutcomeView,
    failures: u32,
    limit: u32,
    by_model: bool,
    elapsed_ms: u64,
)
    ensures
        ({
            let told = summary_events(step, outcome, failures, limit, by_model, elapsed_ms);
            let stripped = if outcome.thinking_stripped > 0 {
                1int
            } else {
                0int
            };
            let trips = failures < limit && failures_after(failures, outcome) >= limit
                && outcome.error is Some && !outcome.succeeded;
            &&& told.last() == (EventView::CompactComplete {
                step,
                llm_succeeded: by_model,
                elapsed_ms,
            })
            &&& told[stripped] == (EventView::AutoCompactSummarizerCalled {
                step,
                prompt_tokens: outcome.prompt_tokens as u64,
                output_tokens: outcome.output_tokens as u64,
                succeeded: outcome.succeeded,
                drop_oldest_retries: outcome.drop_oldest_retries as u32,
            })
            &&& stripped == 1 ==> told[0] == (EventView::ReasoningContentStripped {
                step,
                messages_stripped: outcome.thinking_stripped as u32,
            })
            &&& trips ==> told[stripped + 1] == (EventView::AutoCompactCircuitBreakerTripped {
                step,
                consecutive_failures: failures_after(failures, outcome),
            })
            &&& told.len() == stripped + 2 + (if trips {
                1int
            } else {
                0int
            })
        }),
{
}

/// A long history keeps its last steps behind a record of the compaction, and its summary
/// begins with what was summarized now.
pub proof fn law_history_is_compacted(
    state: LoopState,
    config: CompactConfig,
    text: Seq<char>,
)
    requires
        state.history@.len() > config.retain_tail_steps,
        trim(text).len() > 0,
    ensures
        ({
            let before = history_of(state);
            let gone = before.steps.len() - config.retain_tail_steps;
            let by_model = history_compacted(state, config, Some(text));
            let by_digest = history_compacted(state, config, None);
            &&& by_model.steps.len() == config.retain_tail_steps + 1
            &&& by_model.steps[0].decision_reason == crate::number::decimal(gone as nat)
            &&& by_model.steps.skip(1) == before.steps.skip(gone)
            &&& by_digest.steps.skip(1) == before.steps.skip(gone)
            &&& by_model.summary == crate::history::summary_after(
                text,
                before.summary,
                config.working_summary_max_chars as int,
            )
            &&& by_digest.summary == crate::history::summary_after(
                steps_digest(before.steps.take(gone)),
                before.summary,
                config.working_summary_max_chars as int,
            )
        }),
{
    let before = history_of(state);
    let gone = before.steps.len() - config.retain_tail_steps;
    let by_model = history_compacted(state, config, Some(text));
    let by_digest = history_compacted(state, config, None);
    assert(by_model.steps.skip(1) =~= before.steps.skip(gone));
    assert(by_digest.steps.skip(1) =~= before.steps.skip(gone));
}

/// A short history stays as it is. One without a summary takes over that of the messages.
pub proof fn law_history_is_seeded(
    state: LoopState,
    config: CompactConfig,
    before: HistoryView,
    discarded: nat,
    text: Seq<char>,
    reply: Option<Seq<char>>,
)
    ensures
        state.history@.len() <= config.retain_tail_steps ==> history_compacted(
            state,
            config,
            reply,
        ) == history_of(state),
        before.summary.len() == 0 ==> history_seeded(state, before, discarded, Some(text)).summary
            == text,
        before.summary.len() == 0 ==> history_seeded(
            state,
            before,
            discarded,
            Some(text),
        ).steps.skip(1) == before.steps,
        before.summary.len() > 0 ==> history_seeded(state, before, discarded, Some(text)) == before,
        history_seeded(state, before, discarded, None) == before,
{
    if before.summary.len() == 0 {
        let after = history_seeded(state, before, discarded, Some(text));
        assert(after.steps.skip(1) =~= before.steps);
    }
}

/// A compaction without the model keeps at least the last five messages, counts no
/// failure, takes no tokens, and says that the model did not summarize. With the model,
/// the buffer is what came of the summary.
pub proof fn law_compaction_of_a_loop(
    before: LoopState,
    messages: Seq<MessageView>,
    told: Seq<EventView>,
    config: CompactConfig,
    summarizer: Option<SummarizerRun>,
    limit: u32,
    step: u32,
    elapsed_ms: u64,
    after: LoopState,
    left: Seq<MessageView>,
    heard: Seq<EventView>,
    tokens: (u64, u64),
)
    requires
        compaction_ran(
            before,
            messages,
            told,
            config,
            summarizer,
            limit,
            step,
            elapsed_ms,
            after,
            left,
            heard,
            tokens,
        ),
    ensures
        ({
            let kept = if config.retain_tail_steps > 5 {
                config.retain_tail_steps as int
            } else {
                5
            };
            let asked = summarizer is Some && before.consecutive_autocompact_failures < limit;
            &&& !asked ==> {
                &&& left == compacted(messages, kept)
                &&& tokens == (0u64, 0u64)
                &&& after.consecutive_autocompact_failures
                    == before.consecutive_autocompact_failures
                &&& heard == told.push(
                    EventView::CompactComplete { step, llm_succeeded: false, elapsed_ms },
                )
            }
            &&& asked ==> {
                let done = summarized(
                    messages,
                    kept,
                    summarizer->0.remote,
                    replies_view(summarizer->0.replies@),
                );
                &&& left == done.0
                &&& tokens.0 == done.1.prompt_tokens
                &&& tokens.1 == done.1.output_tokens
                &&& done.1.succeeded ==> after.consecutive_autocompact_failures == 0
                &&& heard.len() > told.len()
                &&& heard.take(told.len() as int) == told
            }
            &&& after.committed is None
            &&& after.goal == before.goal
            &&& after.status == before.status
        }),
{
    assert(heard.take(told.len() as int) =~= told);
    assert(told + seq![EventView::CompactComplete { step, llm_succeeded: false, elapsed_ms }]
        =~= told.push(EventView::CompactComplete { step, llm_succeeded: false, elapsed_ms }));
}

/// The model summarized the history where its summary of the messages succeeded, the
/// history was long, and it wrote something.
pub proof fn law_history_by_model(
    state: LoopState,
    config: CompactConfig,
    succeeded: bool,
    text: Seq<char>,
)
    ensures
        history_by_model(state, config, succeeded, Some(text)) <==> succeeded
            && state.history@.len() > config.retain_tail_steps && trim(text).len() > 0,
        !history_by_model(state, config, succeeded, None),
{
}

/// Only what the user's messages can hold as a summary is one: it begins with a bracket.
pub proof fn law_what_is_no_summary(message: MessageView)
    ensures
        !(message is User) ==> !is_summary(message),
        message matches MessageView::User { content } ==> (content.len() == 0 || content[0] != '['
            ==> !is_summary(message)),
{
    if let MessageView::User { content } = message {
        reveal_strlit("[Session memory summary]\n");
        reveal_strlit("[Mid-tier context collapse — ");
        reveal_strlit("[");
        reveal_strlit("[Conversation summary]\n");
        lemma_first_char(content, "[Session memory summary]\n"@);
        lemma_first_char(content, "[Mid-tier context collapse — "@);
        lemma_first_char(content, "["@);
        lemma_first_char(content, "[Conversation summary]\n"@);
        assert("[Session memory summary]\n"@[0] == '[' && "[Mid-tier context collapse — "@[0] == '['
            && "["@[0] == '[' && "[Conversation summary]\n"@[0] == '[');
    }
}

proof fn lemma_first_char(s: Seq<char>, p: Seq<char>)
    ensures
        starts_with(s, p) && p.len() > 0 ==> s.len() > 0 && s[0] == p[0],
{
    if starts_with(s, p) && p.len() > 0 {
        assert(s.subrange(0, p.len() as int)[0] == s[0]);
    }
}

} // verus!
