//! One compaction of a loop: of its messages and of its history.

use crate::bytes::ellipsized;
use crate::compact::{compact_messages, compacted, compaction_split, is_compactable};
use crate::events::{emit, events_view, EventView, LoopEvent};
use crate::history::{
    compact_history, compact_history_with_llm, compacted_state, history_summary,
    seed_compact_summary_if_missing, summary_after, CompactConfig,
};
use crate::message::{messages_view, Message, MessageView};
use crate::observation::{boundary_step, steps_view, StepView};
use crate::state::LoopState;
use crate::summarizer::{
    compact_messages_with_structured_summary, replies_view, summarized, OutcomeView, RemoteReply,
    StructuredCompactOutcome, SummarizerReply,
};
use crate::text::{opt_view, trim};
use vstd::prelude::*;

verus! {

/// At least this many messages stay at the end of the buffer.
pub const MIN_RETAINED_MESSAGES: usize = 5;

/// A loop's history and the summary of what went before it.
#[verifier::ext_equal]
pub struct HistoryView {
    pub steps: Seq<StepView>,
    pub summary: Seq<char>,
}

pub open spec fn history_of(state: LoopState) -> HistoryView {
    HistoryView { steps: steps_view(state.history@), summary: state.working_summary@ }
}

/// The record that marks where steps or messages were discarded.
pub open spec fn boundary(state: LoopState, discarded: nat, summary: Seq<char>) -> StepView {
    boundary_step(
        state.step_index,
        discarded,
        ellipsized(summary, 200),
        state.remaining_step_budget,
        state.remaining_recovery_budget,
        state.working_directory@,
    )
}

/// The history with all but its last steps replaced by a summary: the model's,
/// where it gave one, and otherwise their digest.
pub open spec fn history_compacted(
    state: LoopState,
    config: CompactConfig,
    reply: Option<Seq<char>>,
) -> HistoryView {
    let before = history_of(state);
    if before.steps.len() <= config.retain_tail_steps {
        before
    } else {
        let split = before.steps.len() - config.retain_tail_steps;
        let text = history_summary(before.steps.take(split), reply);
        HistoryView {
            steps: seq![boundary(state, split as nat, text)] + before.steps.skip(split),
            summary: summary_after(
                text,
                before.summary,
                config.working_summary_max_chars as int,
            ),
        }
    }
}

/// The history with the messages' summary taken over, where it has none of its own.
pub open spec fn history_seeded(
    state: LoopState,
    before: HistoryView,
    discarded: nat,
    summary: Option<Seq<char>>,
) -> HistoryView {
    match summary {
        Some(text) => if before.summary.len() > 0 {
            before
        } else {
            HistoryView {
                steps: seq![boundary(state, discarded, text)] + before.steps,
                summary: text,
            }
        },
        None => before,
    }
}

/// The model summarized the history.
pub open spec fn history_by_model(
    state: LoopState,
    config: CompactConfig,
    succeeded: bool,
    reply: Option<Seq<char>>,
) -> bool {
    succeeded && state.history@.len() > config.retain_tail_steps && (match reply {
        Some(text) => trim(text).len() > 0,
        None => false,
    })
}

/// The failures in a row after a summary that succeeded, failed, or was not needed.
pub open spec fn failures_after(failures: u32, outcome: OutcomeView) -> u32 {
    if outcome.succeeded {
        0
    } else if outcome.error is Some {
        if failures == u32::MAX {
            u32::MAX
        } else {
            (failures + 1) as u32
        }
    } else {
        failures
    }
}

/// What a compaction with the model tells of itself.
pub open spec fn summary_events(
    step: u32,
    outcome: OutcomeView,
    failures_before: u32,
    limit: u32,
    llm_succeeded: bool,
    elapsed_ms: u64,
) -> Seq<EventView> {
    let failures = failures_after(failures_before, outcome);
    (if outcome.thinking_stripped > 0 {
        seq![
            EventView::ReasoningContentStripped {
                step,
                messages_stripped: outcome.thinking_stripped as u32,
            },
        ]
    } else {
        seq![]
    }) + seq![
        EventView::AutoCompactSummarizerCalled {
            step,
            prompt_tokens: outcome.prompt_tokens as u64,
            output_tokens: outcome.output_tokens as u64,
            succeeded: outcome.succeeded,
            drop_oldest_retries: outcome.drop_oldest_retries as u32,
        },
    ] + (if failures_before < limit && failures >= limit && outcome.error is Some
        && !outcome.succeeded {
        seq![
            EventView::AutoCompactCircuitBreakerTripped { step, consecutive_failures: failures },
        ]
    } else {
        seq![]
    }) + seq![EventView::CompactComplete { step, llm_succeeded, elapsed_ms }]
}

/// How many messages stay at the end of the buffer.
pub fn retained_messages(config: &CompactConfig) -> (r: usize)
    ensures
        r == config.retain_tail_steps || r == MIN_RETAINED_MESSAGES,
        r >= config.retain_tail_steps,
        r >= MIN_RETAINED_MESSAGES,
{
    if config.retain_tail_steps > MIN_RETAINED_MESSAGES {
        config.retain_tail_steps
    } else {
        MIN_RETAINED_MESSAGES
    }
}

/// The model is asked for a summary: there is one, and it has not failed too often.
pub fn summarizer_is_asked(loop_state: &LoopState, has_router: bool, limit: u32) -> (r: bool)
    ensures
        r == (has_router && loop_state.consecutive_autocompact_failures < limit),
{
    has_router && !loop_state.autocompact_circuit_breaker_tripped(limit)
}

proof fn lemma_compacted(
    before: LoopState,
    after: LoopState,
    config: CompactConfig,
    reply: Option<Seq<char>>,
)
    requires
        before.history@.len() > config.retain_tail_steps,
        compacted_state(
            before,
            before.history@.len() - config.retain_tail_steps,
            history_summary(
                steps_view(before.history@.take(before.history@.len() - config.retain_tail_steps)),
                reply,
            ),
            config.working_summary_max_chars as int,
            after,
        ),
    ensures
        history_of(after) == history_compacted(before, config, reply),
{
    let split = before.history@.len() - config.retain_tail_steps;
    assert(steps_view(before.history@).take(split) =~= steps_view(before.history@.take(split)));
    let want = history_compacted(before, config, reply);
    assert(steps_view(after.history@) =~= want.steps) by {
        assert forall|i: int| 0 <= i < after.history@.len() implies #[trigger] steps_view(
            after.history@,
        )[i] == want.steps[i] by {
            if i > 0 {
                assert(after.history@[i] == after.history@.skip(1)[i - 1]);
            }
        }
    }
}

proof fn lemma_seeded(before: LoopState, after: LoopState, discarded: nat, text: Seq<char>)
    requires
        before.working_summary@.len() == 0,
        after.working_summary@ == text,
        after.history@.len() == before.history@.len() + 1,
        after.history@.skip(1) == before.history@,
        after.history@[0]@ == boundary(before, discarded, text),
    ensures
        history_of(after) == history_seeded(before, history_of(before), discarded, Some(text)),
{
    let want = history_seeded(before, history_of(before), discarded, Some(text));
    assert(steps_view(after.history@) =~= want.steps) by {
        assert forall|i: int| 0 <= i < after.history@.len() implies #[trigger] steps_view(
            after.history@,
        )[i] == want.steps[i] by {
            if i > 0 {
                assert(after.history@[i] == after.history@.skip(1)[i - 1]);
            }
        }
    }
}

/// Ends a compaction whose messages the model was asked to summarize: the history
/// follows, the failures are counted, and the last call's token count is forgotten.
/// Gives the tokens that the summary took.
pub fn conclude_compaction(
    loop_state: &mut LoopState,
    outcome: &StructuredCompactOutcome,
    config: &CompactConfig,
    history_reply: &Option<String>,
    limit: u32,
    step: u32,
    elapsed_ms: u64,
    events: &mut Vec<LoopEvent>,
) -> (r: (u64, u64))
    ensures
        r == (outcome.prompt_tokens, outcome.output_tokens),
        *final(loop_state) == (LoopState {
            history: final(loop_state).history,
            working_summary: final(loop_state).working_summary,
            consecutive_autocompact_failures: failures_after(
                old(loop_state).consecutive_autocompact_failures,
                outcome@,
            ),
            committed: None,
            ..*old(loop_state)
        }),
        history_of(*final(loop_state)) == history_seeded(
            *old(loop_state),
            history_compacted(
                *old(loop_state),
                *config,
                if outcome.succeeded {
                    opt_view(*history_reply)
                } else {
                    None
                },
            ),
            outcome.discarded_count as nat,
            opt_view(outcome.summary_text),
        ),
        events_view(final(events)@) == events_view(old(events)@) + summary_events(
            step,
            outcome@,
            old(loop_state).consecutive_autocompact_failures,
            limit,
            history_by_model(
                *old(loop_state),
                *config,
                outcome.succeeded,
                opt_view(*history_reply),
            ),
            elapsed_ms,
        ),
{
    let ghost before = *loop_state;
    let ghost reply = if outcome.succeeded {
        opt_view(*history_reply)
    } else {
        None
    };
    if outcome.thinking_stripped > 0 {
        emit(
            events,
            LoopEvent::ReasoningContentStripped {
                step,
                messages_stripped: outcome.thinking_stripped,
            },
        );
    }
    emit(
        events,
        LoopEvent::AutoCompactSummarizerCalled {
            step,
            prompt_tokens: outcome.prompt_tokens,
            output_tokens: outcome.output_tokens,
            succeeded: outcome.succeeded,
            drop_oldest_retries: outcome.drop_oldest_retries,
        },
    );
    let mut llm_succeeded: bool = false;
    if outcome.succeeded {
        let text: Option<&str> = match history_reply {
            Some(text) => Some(text.as_str()),
            None => None,
        };
        llm_succeeded = compact_history_with_llm(loop_state, config, text);
        proof {
            if before.history@.len() > config.retain_tail_steps {
                lemma_compacted(before, *loop_state, *config, reply);
            }
        }
        loop_state.note_autocompact_success();
    } else {
        compact_history(loop_state, config);
        proof {
            if before.history@.len() > config.retain_tail_steps {
                lemma_compacted(before, *loop_state, *config, reply);
            }
        }
        if outcome.error.is_some() {
            let tripped: bool = loop_state.note_autocompact_failure(limit);
            if tripped {
                emit(
                    events,
                    LoopEvent::AutoCompactCircuitBreakerTripped {
                        step,
                        consecutive_failures: loop_state.consecutive_autocompact_failures,
                    },
                );
            }
        }
    }
    let ghost between = *loop_state;
    assert(history_of(between) == history_compacted(before, *config, reply));
    match &outcome.summary_text {
        Some(text) => {
            seed_compact_summary_if_missing(loop_state, outcome.discarded_count, text.as_str());
            proof {
                if between.working_summary@.len() == 0 {
                    lemma_seeded(between, *loop_state, outcome.discarded_count as nat, text@);
                }
            }
        },
        None => {},
    }
    emit(events, LoopEvent::CompactComplete { step, llm_succeeded, elapsed_ms });
    loop_state.invalidate_committed_baseline();
    proof {
        assert(events_view(events@) =~= events_view(old(events)@) + summary_events(
            step,
            outcome@,
            before.consecutive_autocompact_failures,
            limit,
            llm_succeeded,
            elapsed_ms,
        ));
    }
    (outcome.prompt_tokens, outcome.output_tokens)
}

/// Compacts messages and history without a model. True where messages were replaced.
pub fn mechanical_compaction(
    loop_state: &mut LoopState,
    messages: &mut Vec<Message>,
    config: &CompactConfig,
    step: u32,
    elapsed_ms: u64,
    events: &mut Vec<LoopEvent>,
) -> (r: bool)
    requires
        config.retain_tail_steps < usize::MAX,
    ensures
        r == (compaction_split(messages_view(old(messages)@), retained(*config)) > 1),
        messages_view(final(messages)@) == compacted(
            messages_view(old(messages)@),
            retained(*config),
        ),
        *final(loop_state) == (LoopState {
            history: final(loop_state).history,
            working_summary: final(loop_state).working_summary,
            committed: None,
            ..*old(loop_state)
        }),
        history_of(*final(loop_state)) == history_compacted(*old(loop_state), *config, None),
        events_view(final(events)@) == events_view(old(events)@).push(
            EventView::CompactComplete { step, llm_succeeded: false, elapsed_ms },
        ),
{
    let ghost before = *loop_state;
    let retain: usize = retained_messages(config);
    let replaced: bool = is_compactable(messages, retain);
    compact_messages(messages, retain);
    compact_history(loop_state, config);
    proof {
        if before.history@.len() > config.retain_tail_steps {
            lemma_compacted(before, *loop_state, *config, None);
        }
    }
    emit(events, LoopEvent::CompactComplete { step, llm_succeeded: false, elapsed_ms });
    loop_state.invalidate_committed_baseline();
    replaced
}

pub open spec fn retained(config: CompactConfig) -> int {
    if config.retain_tail_steps > MIN_RETAINED_MESSAGES {
        config.retain_tail_steps as int
    } else {
        MIN_RETAINED_MESSAGES as int
    }
}

/// What the summarizing model came back with, call by call.
#[derive(Debug)]
pub struct SummarizerRun {
    pub remote: RemoteReply,
    pub replies: Vec<SummarizerReply>,
    /// The summary of the discarded steps.
    pub history_reply: Option<String>,
}

/// A compaction ran: with what the model came back with, where it was asked, and
/// otherwise without it.
pub open spec fn compaction_ran(
    state_before: LoopState,
    messages_before: Seq<MessageView>,
    told_before: Seq<EventView>,
    config: CompactConfig,
    summarizer: Option<SummarizerRun>,
    limit: u32,
    step: u32,
    elapsed_ms: u64,
    state_after: LoopState,
    messages_after: Seq<MessageView>,
    told_after: Seq<EventView>,
    tokens: (u64, u64),
) -> bool {
    let failures = state_before.consecutive_autocompact_failures;
    let asked = summarizer is Some && failures < limit;
    let (spliced, outcome) = summarized(
        messages_before,
        retained(config),
        summarizer->0.remote,
        replies_view(summarizer->0.replies@),
    );
    let reply = opt_view(summarizer->0.history_reply);
    &&& messages_after == (if asked {
        spliced
    } else {
        compacted(messages_before, retained(config))
    })
    &&& state_after == (LoopState {
        history: state_after.history,
        working_summary: state_after.working_summary,
        consecutive_autocompact_failures: if asked {
            failures_after(failures, outcome)
        } else {
            failures
        },
        committed: None,
        ..state_before
    })
    &&& history_of(state_after) == (if asked {
        history_seeded(
            state_before,
            history_compacted(
                state_before,
                config,
                if outcome.succeeded {
                    reply
                } else {
                    None
                },
            ),
            outcome.discarded_count as nat,
            outcome.summary_text,
        )
    } else {
        history_compacted(state_before, config, None)
    })
    &&& asked ==> tokens.0 == outcome.prompt_tokens && tokens.1 == outcome.output_tokens
    &&& !asked ==> tokens == (0u64, 0u64)
    &&& told_after == told_before + (if asked {
        summary_events(
            step,
            outcome,
            failures,
            limit,
            history_by_model(state_before, config, outcome.succeeded, reply),
            elapsed_ms,
        )
    } else {
        seq![EventView::CompactComplete { step, llm_succeeded: false, elapsed_ms }]
    })
}

/// A compaction replaces some of the messages, given what the model came back with.
pub open spec fn messages_replaced(
    messages: Seq<MessageView>,
    config: CompactConfig,
    summarizer: Option<SummarizerRun>,
    failures: u32,
    limit: u32,
) -> bool {
    if summarizer is Some && failures < limit {
        summarized(
            messages,
            retained(config),
            summarizer->0.remote,
            replies_view(summarizer->0.replies@),
        ).1.discarded_count > 0
    } else {
        compaction_split(messages, retained(config)) > 1
    }
}

/// Compacts messages and history: with what the model came back with, where it is
/// asked, and otherwise without it. Tells whether messages were replaced, and gives the
/// tokens that this took.
pub fn run_compaction(
    loop_state: &mut LoopState,
    messages: &mut Vec<Message>,
    config: &CompactConfig,
    summarizer: Option<SummarizerRun>,
    limit: u32,
    step: u32,
    elapsed_ms: u64,
    events: &mut Vec<LoopEvent>,
) -> (r: (bool, (u64, u64)))
    requires
        config.retain_tail_steps < usize::MAX,
        old(messages).len() <= u32::MAX,
    ensures
        compaction_ran(
            *old(loop_state),
            messages_view(old(messages)@),
            events_view(old(events)@),
            *config,
            summarizer,
            limit,
            step,
            elapsed_ms,
            *final(loop_state),
            messages_view(final(messages)@),
            events_view(final(events)@),
            r.1,
        ),
        r.0 == messages_replaced(
            messages_view(old(messages)@),
            *config,
            summarizer,
            old(loop_state).consecutive_autocompact_failures,
            limit,
        ),
{
    let ghost told = events_view(events@);
    match summarizer {
        Some(run) => {
            if summarizer_is_asked(loop_state, true, limit) {
                let retain: usize = retained_messages(config);
                let outcome: StructuredCompactOutcome = compact_messages_with_structured_summary(
                    messages,
                    retain,
                    run.remote,
                    &run.replies,
                );
                let tokens: (u64, u64) = conclude_compaction(
                    loop_state,
                    &outcome,
                    config,
                    &run.history_reply,
                    limit,
                    step,
                    elapsed_ms,
                    events,
                );
                return (outcome.discarded_count > 0, tokens);
            }
        },
        None => {},
    }
    let replaced: bool = mechanical_compaction(
        loop_state,
        messages,
        config,
        step,
        elapsed_ms,
        events,
    );
    assert(events_view(events@) =~= told + seq![
        EventView::CompactComplete { step, llm_succeeded: false, elapsed_ms },
    ]);
    (replaced, (0, 0))
}

/// Compacting never makes the history longer and keeps its last steps as they were.
/// Seeding adds at most one boundary record, none where there is a summary already,
/// and leaves a summary wherever there was one to take over.
pub proof fn law_history_is_bounded(
    state: LoopState,
    config: CompactConfig,
    reply: Option<Seq<char>>,
    discarded: nat,
    summary: Option<Seq<char>>,
)
    ensures
        ({
            let after = history_compacted(state, config, reply);
            let seeded = history_seeded(state, after, discarded, summary);
            let before = history_of(state);
            &&& after.steps.len() <= before.steps.len()
            &&& before.steps.len() > config.retain_tail_steps ==> after.steps.skip(1)
                == before.steps.skip(before.steps.len() - config.retain_tail_steps)
            &&& seeded.steps.len() <= after.steps.len() + 1
            &&& after.summary.len() > 0 ==> seeded == after
            &&& summary is Some && summary->0.len() > 0 ==> seeded.summary.len() > 0
        }),
{
    let before = history_of(state);
    if before.steps.len() > config.retain_tail_steps {
        let after = history_compacted(state, config, reply);
        let split = before.steps.len() - config.retain_tail_steps;
        assert(after.steps.skip(1) =~= before.steps.skip(split));
    }
}

} // verus!
