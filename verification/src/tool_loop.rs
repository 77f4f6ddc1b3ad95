//! The tool loop, turn by turn.
//!
//! The calls to the model, the tools and the stores are made elsewhere: a
//! [`ToolLoop`] is told what came of each of them and says what follows.

use crate::approval::ApprovalDecision;
use crate::attempt::{
    absorb_response, absorb_retry, cache_cold, calibrated_event, committed_after, committed_view,
    decide_escalation, escalation, escalation_events, microcompact_if_cold, mid_compact_due,
    mid_events, mid_water, middle_after, middle_outcome, pair_of, raw_freed, response_events,
    response_usage, retry_values, run_mid_compact, session_summary, shown_text, Escalation,
    ModelResponse, ObservedResponse, PreCall, RetryPreflight,
};
use crate::cache_break::{
    block_texts, definition_texts, hash_tool_definitions, texts_hash, DetectorView, FingerprintView,
    SystemPromptBlock, ToolDefinition,
};
use crate::compact::{
    microcompacted, truncate_large_tool_results, with_cut_result, MICROCOMPACT_RETAIN_RECENT,
};
use crate::compaction::{compaction_ran, messages_replaced, run_compaction, SummarizerRun};
use crate::estimate::{
    capped, estimate_turn_tool_tokens, turn_tool_tokens, PER_TURN_TOOL_BUDGET_TOKENS,
};
use crate::events::{emit, emit_token_usage, events_view, usage_event, EventView, LoopEvent};
use crate::history::CompactConfig;
use crate::message::{calls_view, messages_view, Message, MessageView, ToolCallBlock};
use crate::observation::StepAction;
use crate::state::{opt_tool, LoopState};
use crate::task::ConversationTurn;
use crate::text::{opt_str_view, opt_view, starts_with, views};
use crate::tool_calls::{
    answer_denied, answer_task_tool, answer_tool_search, begin_agent_call, begin_tool_run,
    deferred_after, directory_after, dispatch_of, dispatch_tool_call, end_agent_call, loads,
    one_less, record_tool_run, run_end_event, run_messages, search_answer, start_event, tool_result,
    tool_step, wanted_tool, ToolDispatch, ToolRun,
};
use crate::turn::{
    absorb_model_error, absorb_model_turn, answered, compacts_again, earlier_messages,
    end_if_budget_exhausted, exhausted_message, failure_message, failure_reason, loop_ended,
    opening_messages, turn_end, turns_view, user_content, LoopEnd, ModelError,
};
use crate::visible::{
    clone_definitions, definitions_view, disallowed_after, opt_definitions, rebuilds,
    refresh_dirties, refresh_tool_loop_visible_tools, schema_sent, visible_after, LoopMode,
};
use vstd::prelude::*;

verus! {

/// The schema that counts towards the size of the next prompt: the one written for
/// it, or the one that this turn sent where that is empty.
pub fn next_schema_bytes(written: Vec<u8>, sent: Vec<u8>) -> (r: Vec<u8>)
    ensures
        r == (if written@.len() == 0 {
            sent
        } else {
            written
        }),
{
    if written.len() == 0 {
        sent
    } else {
        written
    }
}

/// A loop that is running.
#[derive(Debug)]
pub struct ToolLoop {
    pub state: LoopState,
    /// The conversation that the model is sent.
    pub messages: Vec<Message>,
    /// What the loop has told of itself.
    pub events: Vec<LoopEvent>,
    /// The step of this turn.
    pub step: u32,
    /// The prompt was too long in this turn and has been compacted.
    pub reactive_compact_used: bool,
    pub tool_schema_hash: u64,
    /// The schema was built anew for this turn.
    pub tool_schema_rebuilt: bool,
    /// A call of this turn has told of its schema.
    pub tool_schema_frozen_emitted: bool,
    /// The calls of this turn that are not answered yet.
    pub pending: Vec<ToolCallBlock>,
    /// The calls of this turn whose tools have run.
    pub turn_tool_ids: Vec<String>,
    /// How long the buffer was after messages in it were last replaced, and zero before.
    pub settled_len: usize,
}

impl ToolLoop {
    /// A loop before its first turn.
    pub fn begin(
        state: LoopState,
        turns: &Vec<ConversationTurn>,
        user_reply: Option<&str>,
    ) -> (r: Self)
        ensures
            r.state == state,
            messages_view(r.messages@) == earlier_messages(turns_view(turns@)).push(
                MessageView::User { content: user_content(state, opt_str_view(user_reply)) },
            ),
            r.events@.len() == 0,
            r.step == 0,
            !r.reactive_compact_used,
            r.tool_schema_hash == 0,
            !r.tool_schema_rebuilt,
            !r.tool_schema_frozen_emitted,
            r.pending@.len() == 0,
            r.turn_tool_ids@.len() == 0,
            r.settled_len == 0,
    {
        let messages: Vec<Message> = opening_messages(turns, &state, user_reply);
        ToolLoop {
            state,
            messages,
            events: Vec::new(),
            step: 0,
            reactive_compact_used: false,
            tool_schema_hash: 0,
            tool_schema_rebuilt: false,
            tool_schema_frozen_emitted: false,
            pending: Vec::new(),
            turn_tool_ids: Vec::new(),
            settled_len: 0,
        }
    }

    /// Takes over the tools that are offered in this turn.
    pub fn refresh(&mut self, mode: LoopMode, offered: &Vec<String>, read_only: &Vec<String>)
        ensures
            *final(self) == (ToolLoop { state: final(self).state, ..*old(self) }),
            final(self).state == (LoopState {
                observed_plan_mode: Some(mode == LoopMode::Plan),
                disallowed_tools: final(self).state.disallowed_tools,
                visible_tools: final(self).state.visible_tools,
                tool_schema_dirty: final(self).state.tool_schema_dirty,
                ..old(self).state
            }),
            views(final(self).state.disallowed_tools@) == disallowed_after(
                views(old(self).state.disallowed_tools@),
                mode == LoopMode::Plan,
            ),
            views(final(self).state.visible_tools@) == visible_after(
                views(offered@),
                views(read_only@),
                views(old(self).state.disallowed_tools@),
                mode == LoopMode::Plan,
            ),
            final(self).state.tool_schema_dirty == (old(self).state.tool_schema_dirty
                || refresh_dirties(
                old(self).state.observed_plan_mode,
                views(old(self).state.visible_tools@),
                views(offered@),
                views(read_only@),
                views(old(self).state.disallowed_tools@),
                mode == LoopMode::Plan,
            )),
    {
        refresh_tool_loop_visible_tools(&mut self.state, mode, offered, read_only);
    }

    /// Freezes the schema, and gives the definitions of this turn.
    pub fn freeze(&mut self, fresh: Vec<ToolDefinition>) -> (r: Vec<ToolDefinition>)
        ensures
            definitions_view(r@) == schema_sent(
                opt_definitions(old(self).state.frozen_tool_schema),
                old(self).state.tool_schema_dirty,
                definitions_view(fresh@),
            ),
            *final(self) == (ToolLoop {
                state: final(self).state,
                tool_schema_rebuilt: rebuilds(
                    opt_definitions(old(self).state.frozen_tool_schema),
                    old(self).state.tool_schema_dirty,
                ),
                ..*old(self)
            }),
            final(self).state == (LoopState {
                frozen_tool_schema: final(self).state.frozen_tool_schema,
                tool_schema_dirty: false,
                ..old(self).state
            }),
            opt_definitions(final(self).state.frozen_tool_schema) == Some(definitions_view(r@)),
    {
        self.tool_schema_rebuilt = self.state.tool_schema_rebuilds();
        self.state.freeze_or_reuse_tool_schema(fresh)
    }

    /// Begins a turn with the definitions that it sends, or ends the loop where the
    /// step budget is used up.
    pub fn open_turn(&mut self, sent: &Vec<ToolDefinition>) -> (r: Option<LoopEnd>)
        requires
            old(self).state.step_index < u32::MAX,
        ensures
            old(self).state.remaining_step_budget > 0 ==> {
                &&& r is None
                &&& *final(self) == (ToolLoop {
                    step: (old(self).state.step_index + 1) as u32,
                    reactive_compact_used: false,
                    tool_schema_hash: texts_hash(definition_texts(sent@)),
                    tool_schema_frozen_emitted: false,
                    pending: final(self).pending,
                    turn_tool_ids: final(self).turn_tool_ids,
                    ..*old(self)
                })
                &&& final(self).pending@.len() == 0
                &&& final(self).turn_tool_ids@.len() == 0
            },
            old(self).state.remaining_step_budget == 0 ==> {
                &&& r is Some
                &&& *final(self) == (ToolLoop { state: final(self).state, ..*old(self) })
                &&& loop_ended(
                    old(self).state,
                    StepAction::Fail,
                    "Step budget exhausted."@,
                    exhausted_message(old(self).state),
                    final(self).state,
                    r->0,
                )
                &&& final(self).state.awaiting_user is None
            },
    {
        let end: Option<LoopEnd> = end_if_budget_exhausted(&mut self.state);
        if end.is_some() {
            return end;
        }
        self.step = self.state.step_index + 1;
        self.reactive_compact_used = false;
        self.tool_schema_hash = hash_tool_definitions(sent);
        self.tool_schema_frozen_emitted = false;
        self.pending = Vec::new();
        self.turn_tool_ids = Vec::new();
        None
    }

    /// Clears old tool results where the provider's cache is cold anyway.
    pub fn cool_down<F: Fn(u64) -> u64>(&mut self, now_ms: u64, calibrate: F) -> (r: Option<u64>)
        requires
            forall|raw: u64| call_requires(calibrate, (raw,)),
        ensures
            !cache_cold(old(self).state.last_llm_call_at_ms, now_ms) ==> r is None && *final(self)
                == *old(self),
            cache_cold(old(self).state.last_llm_call_at_ms, now_ms) ==> {
                &&& r is Some
                &&& call_ensures(calibrate, (raw_freed(old(self).messages@),), r->0)
                &&& *final(self) == (ToolLoop {
                    state: final(self).state,
                    messages: final(self).messages,
                    events: final(self).events,
                    ..*old(self)
                })
                &&& messages_view(final(self).messages@) == microcompacted(
                    messages_view(old(self).messages@),
                    MICROCOMPACT_RETAIN_RECENT as int,
                )
                &&& final(self).state == (LoopState {
                    cache_break_detector: final(self).state.cache_break_detector,
                    committed: if r->0 > 0 {
                        None
                    } else {
                        old(self).state.committed
                    },
                    ..old(self).state
                })
                &&& final(self).state.cache_break_detector@ == (DetectorView {
                    compaction_pending: true,
                    ..old(self).state.cache_break_detector@
                })
                &&& events_view(final(self).events@) == events_view(old(self).events@).push(
                    EventView::TimeBasedMicrocompactRan {
                        step: old(self).step,
                        gap_minutes: ((now_ms - old(self).state.last_llm_call_at_ms->0) / 60_000)
                            as u64,
                        freed_tokens: r->0,
                    },
                )
            },
    {
        let step: u32 = self.step;
        microcompact_if_cold(
            &mut self.state,
            &mut self.messages,
            now_ms,
            calibrate,
            step,
            &mut self.events,
        )
    }

    /// Lets older messages give way where the prompt is large: once, and again after
    /// the buffer has grown. True where anything was replaced.
    pub fn compact_middle(
        &mut self,
        estimate: u64,
        context_window_tokens: u64,
        found: Option<&str>,
    ) -> (r: bool)
        ensures
            ({
                let due = !old(self).reactive_compact_used && estimate > mid_water(
                    context_window_tokens,
                );
                let summary = session_summary(old(self).state, opt_str_view(found));
                let grown = old(self).messages@.len() > old(self).settled_len;
                let outcome = middle_outcome(
                    messages_view(old(self).messages@),
                    grown,
                    summary is Some,
                );
                &&& !due ==> !r && *final(self) == *old(self)
                &&& due ==> {
                    &&& r == !(outcome is Noop)
                    &&& *final(self) == (ToolLoop {
                        state: final(self).state,
                        messages: final(self).messages,
                        events: final(self).events,
                        settled_len: if r {
                            final(self).messages.len()
                        } else {
                            old(self).settled_len
                        },
                        ..*old(self)
                    })
                    &&& messages_view(final(self).messages@) == middle_after(
                        messages_view(old(self).messages@),
                        grown,
                        summary,
                    )
                    &&& final(self).state == (LoopState {
                        layer2_lookup_attempted_this_run: true,
                        committed: if r {
                            None
                        } else {
                            old(self).state.committed
                        },
                        cache_break_detector: final(self).state.cache_break_detector,
                        ..old(self).state
                    })
                    &&& final(self).state.cache_break_detector@ == (DetectorView {
                        compaction_pending: r || old(
                            self,
                        ).state.cache_break_detector@.compaction_pending,
                        ..old(self).state.cache_break_detector@
                    })
                    &&& events_view(final(self).events@) == events_view(old(self).events@)
                        + mid_events(old(self).step, outcome)
                }
            }),
    {
        if !mid_compact_due(estimate, context_window_tokens, self.reactive_compact_used) {
            return false;
        }
        let step: u32 = self.step;
        let grown: bool = self.messages.len() > self.settled_len;
        let ran: bool = run_mid_compact(
            &mut self.state,
            &mut self.messages,
            grown,
            found,
            step,
            &mut self.events,
        );
        if ran {
            self.settled_len = self.messages.len();
        }
        ran
    }

    /// Notes the prompt of the call that is about to be made, and tells of its
    /// schema: only the first call of a turn can have built it anew.
    pub fn announce_call(
        &mut self,
        static_blocks: &Vec<SystemPromptBlock>,
        sent: &Vec<ToolDefinition>,
        routed_model: Option<&str>,
    )
        ensures
            *final(self) == (ToolLoop {
                state: final(self).state,
                events: final(self).events,
                tool_schema_frozen_emitted: true,
                ..*old(self)
            }),
            final(self).state == (LoopState {
                cache_break_detector: final(self).state.cache_break_detector,
                ..old(self).state
            }),
            final(self).state.cache_break_detector@ == (DetectorView {
                current_fingerprint: Some(
                    FingerprintView {
                        system_hash: texts_hash(block_texts(static_blocks@)),
                        tools_hash: texts_hash(definition_texts(sent@)),
                        model: match opt_str_view(routed_model) {
                            Some(model) => model,
                            None => ""@,
                        },
                    },
                ),
                ..old(self).state.cache_break_detector@
            }),
            events_view(final(self).events@) == events_view(old(self).events@).push(
                EventView::ToolSchemaFrozen {
                    step: old(self).step,
                    hash: old(self).tool_schema_hash,
                    rebuilt: !old(self).tool_schema_frozen_emitted
                        && old(self).tool_schema_rebuilt,
                },
            ),
    {
        let model: &str = match routed_model {
            Some(model) => model,
            None => "",
        };
        self.state.cache_break_detector.record_prompt_state(static_blocks, sent, model);
        emit(
            &mut self.events,
            LoopEvent::ToolSchemaFrozen {
                step: self.step,
                hash: self.tool_schema_hash,
                rebuilt: !self.tool_schema_frozen_emitted && self.tool_schema_rebuilt,
            },
        );
        self.tool_schema_frozen_emitted = true;
    }

    /// Takes in the response to a call.
    pub fn absorb_response(
        &mut self,
        pre: &PreCall,
        streamed: &str,
        response: &ModelResponse,
        now_ms: u64,
    ) -> (r: ObservedResponse)
        ensures
            r.text@ == shown_text(streamed@, response.output@),
            (r.calibration.0 as int, r.calibration.1 as int) == pair_of(
                pre.estimate,
                response.prompt_tokens,
            ),
            ({
                let report = old(self).state.cache_break_detector@.report(
                    response.cache_read_input_tokens,
                    response.model_id@,
                    response.provider@,
                );
                match r.cache_break {
                    Some(found) => report == Some(found@),
                    None => report is None,
                }
            }),
            *final(self) == (ToolLoop {
                state: final(self).state,
                events: final(self).events,
                ..*old(self)
            }),
            final(self).state == (LoopState {
                committed: final(self).state.committed,
                last_llm_call_at_ms: Some(now_ms),
                cache_break_detector: final(self).state.cache_break_detector,
                ..old(self).state
            }),
            committed_view(final(self).state.committed) == committed_after(
                committed_view(old(self).state.committed),
                *pre,
                pre.surface.tool_schema_bytes_len,
                pre.surface.tool_schema_hash,
                response.prompt_tokens,
                response.model_id@,
            ),
            final(self).state.cache_break_detector@
                == old(self).state.cache_break_detector@.after_response(
                response.cache_read_input_tokens,
            ),
            events_view(final(self).events@) == events_view(old(self).events@) + response_events(
                old(self).step,
                streamed@,
                *response,
                *pre,
                old(self).state.cache_break_detector@,
            ),
    {
        let step: u32 = self.step;
        absorb_response(
            &mut self.state,
            pre,
            streamed,
            response,
            now_ms,
            step,
            &mut self.events,
        )
    }

    /// Decides whether a cut-off answer is asked for again.
    pub fn escalate(
        &mut self,
        response: &ModelResponse,
        supports_cap: bool,
        ceiling: Option<u64>,
        initial_max_tokens: u64,
    ) -> (r: Escalation)
        ensures
            r == escalation(
                opt_view(response.finish_reason),
                supports_cap,
                ceiling,
                initial_max_tokens,
            ),
            *final(self) == (ToolLoop { events: final(self).events, ..*old(self) }),
            events_view(final(self).events@) == events_view(old(self).events@)
                + escalation_events(
                old(self).step,
                r,
                *response,
                initial_max_tokens,
                old(self).tool_schema_hash,
            ),
    {
        let step: u32 = self.step;
        let hash: u64 = self.tool_schema_hash;
        decide_escalation(
            response,
            supports_cap,
            ceiling,
            initial_max_tokens,
            hash,
            step,
            &mut self.events,
        )
    }

    /// Takes in the answer to the second call, and gives what to calibrate with.
    pub fn absorb_retry(
        &mut self,
        pre: &PreCall,
        primary_model_id: &str,
        preflight: &RetryPreflight,
        response: &ModelResponse,
        now_ms: u64,
    ) -> (r: (u64, u64))
        ensures
            ({
                let values = retry_values(
                    *pre,
                    response.model_id@ != primary_model_id@,
                    *preflight,
                    response.prompt_tokens,
                );
                &&& (r.0 as int, r.1 as int) == (values.0, values.1)
                &&& committed_view(final(self).state.committed) == committed_after(
                    committed_view(old(self).state.committed),
                    *pre,
                    values.2 as u64,
                    values.3 as u64,
                    response.prompt_tokens,
                    response.model_id@,
                )
            }),
            *final(self) == (ToolLoop {
                state: final(self).state,
                events: final(self).events,
                ..*old(self)
            }),
            final(self).state == (LoopState {
                committed: final(self).state.committed,
                last_llm_call_at_ms: Some(now_ms),
                ..old(self).state
            }),
            events_view(final(self).events@) == events_view(old(self).events@) + seq![
                response_usage(old(self).step, *response),
                EventView::LlmTextReplace { step: old(self).step, text: response.output@ },
                calibrated_event(old(self).step, pre.estimate, *response),
            ],
    {
        let step: u32 = self.step;
        absorb_retry(
            &mut self.state,
            pre,
            primary_model_id,
            preflight,
            response,
            now_ms,
            step,
            &mut self.events,
        )
    }

    /// Takes in that a call failed. Where the prompt was too long for the first time
    /// in this turn, it is to be compacted and the call made again; otherwise the
    /// loop ends.
    pub fn absorb_error(&mut self, error: &ModelError, tool_result_max_chars: usize) -> (r: Option<
        LoopEnd,
    >)
        requires
            old(self).state.step_index < u32::MAX,
        ensures
            compacts_again(*error, old(self).reactive_compact_used) ==> {
                &&& r is None
                &&& *final(self) == (ToolLoop {
                    state: final(self).state,
                    messages: final(self).messages,
                    events: final(self).events,
                    reactive_compact_used: true,
                    ..*old(self)
                })
                &&& final(self).state == (LoopState {
                    cache_break_detector: final(self).state.cache_break_detector,
                    ..old(self).state
                })
                &&& final(self).state.cache_break_detector@ == (DetectorView {
                    compaction_pending: true,
                    ..old(self).state.cache_break_detector@
                })
                &&& messages_view(final(self).messages@) == messages_view(
                    old(self).messages@,
                ).map_values(|m: MessageView| with_cut_result(m, tool_result_max_chars as int))
                &&& events_view(final(self).events@) == events_view(old(self).events@) + seq![
                    EventView::LlmDecisionComplete { step: old(self).step },
                    EventView::ReactiveCompactTriggered {
                        step: old(self).step,
                        detail: error->detail@,
                    },
                ]
            },
            !compacts_again(*error, old(self).reactive_compact_used) ==> {
                &&& r is Some
                &&& *final(self) == (ToolLoop {
                    state: final(self).state,
                    events: final(self).events,
                    ..*old(self)
                })
                &&& loop_ended(
                    old(self).state,
                    StepAction::Fail,
                    failure_reason(*error),
                    failure_message(*error, old(self).state.goal@),
                    final(self).state,
                    r->0,
                )
                &&& final(self).state.awaiting_user is None
                &&& events_view(final(self).events@) == events_view(old(self).events@).push(
                    EventView::LlmDecisionComplete { step: old(self).step },
                )
            },
    {
        let ghost told = events_view(self.events@);
        emit(&mut self.events, LoopEvent::LlmDecisionComplete { step: self.step });
        let used: bool = self.reactive_compact_used;
        let end: Option<LoopEnd> = absorb_model_error(&mut self.state, error, used);
        if end.is_some() {
            return end;
        }
        self.reactive_compact_used = true;
        self.state.cache_break_detector.notify_compaction();
        truncate_large_tool_results(&mut self.messages, tool_result_max_chars);
        let detail: String = match error {
            ModelError::ContextWindowExceeded { detail } => detail.clone(),
            ModelError::Other => String::new(),
        };
        emit(
            &mut self.events,
            LoopEvent::ReactiveCompactTriggered { step: self.step, detail },
        );
        assert(events_view(self.events@) =~= told + seq![
            EventView::LlmDecisionComplete { step: old(self).step },
            EventView::ReactiveCompactTriggered { step: old(self).step, detail: error->detail@ },
        ]);
        None
    }

    /// Notes what the compaction of a prompt that was too long has used.
    pub fn conclude_reactive(&mut self, tokens: (u64, u64), now_ms: u64)
        ensures
            *final(self) == (ToolLoop {
                state: (LoopState {
                    last_llm_call_at_ms: if tokens.0 > 0 || tokens.1 > 0 {
                        Some(now_ms)
                    } else {
                        old(self).state.last_llm_call_at_ms
                    },
                    ..old(self).state
                }),
                events: final(self).events,
                ..*old(self)
            }),
            events_view(final(self).events@) == events_view(old(self).events@).push(
                usage_event(old(self).step, tokens.0, tokens.1, None, 0, 0, true),
            ),
    {
        let step: u32 = self.step;
        emit_token_usage(&mut self.events, step, tokens.0, tokens.1, None, 0, 0, true);
        if tokens.0 > 0 || tokens.1 > 0 {
            self.state.record_llm_call_observed_at(now_ms);
        }
    }

    /// Takes in the model's answer. Where it does not end the loop, its calls are to
    /// be answered, in their order.
    pub fn absorb_turn(
        &mut self,
        missing_information: &Vec<String>,
        text: &str,
        tool_calls: Vec<ToolCallBlock>,
    ) -> (r: Option<LoopEnd>)
        requires
            old(self).state.step_index < u32::MAX,
        ensures
            *final(self) == (ToolLoop {
                state: final(self).state,
                messages: final(self).messages,
                pending: final(self).pending,
                ..*old(self)
            }),
            messages_view(final(self).messages@) == messages_view(old(self).messages@).push(
                MessageView::Assistant { text: text@, tool_calls: calls_view(tool_calls@) },
            ),
            match turn_end(text@, calls_view(tool_calls@)) {
                Some(end) => r is Some && answered(
                    old(self).state,
                    views(missing_information@),
                    end,
                    final(self).state,
                    r->0,
                ) && final(self).pending == old(self).pending,
                None => r is None && final(self).state == old(self).state && final(self).pending
                    == tool_calls,
            },
    {
        let end: Option<LoopEnd> = absorb_model_turn(
            &mut self.state,
            &mut self.messages,
            missing_information,
            text,
            &tool_calls,
        );
        if end.is_none() {
            self.pending = tool_calls;
        }
        end
    }

    /// Takes up the next call, given what the approval gate says of it. A denied
    /// call and a search for a tool are answered at once; for the others the answer
    /// is owed.
    pub fn take_call(&mut self, decision: &ApprovalDecision) -> (r: (ToolCallBlock, ToolDispatch))
        requires
            old(self).pending.len() > 0,
        ensures
            ({
                let before = *old(self);
                let after = *final(self);
                let call = before.pending@[0];
                &&& r.0 == call
                &&& r.1 == dispatch_of(call@.name, decision is Deny)
                &&& after == (ToolLoop {
                    state: after.state,
                    messages: after.messages,
                    events: after.events,
                    pending: after.pending,
                    ..before
                })
                &&& after.pending@ == before.pending@.skip(1)
                &&& match r.1 {
                    ToolDispatch::Denied => {
                        &&& after.state == (LoopState {
                            remaining_step_budget: one_less(before.state.remaining_step_budget),
                            ..before.state
                        })
                        &&& messages_view(after.messages@) == messages_view(
                            before.messages@,
                        ).push(tool_result(call@.id, "[Tool denied] "@ + decision->Deny_0@, true))
                        &&& after.events == before.events
                    },
                    ToolDispatch::ToolSearch => {
                        let wanted = wanted_tool(call@.arguments);
                        &&& after.state == (LoopState {
                            remaining_step_budget: one_less(before.state.remaining_step_budget),
                            deferred_tools: after.state.deferred_tools,
                            tool_schema_dirty: before.state.tool_schema_dirty || loads(
                                before.state.deferred_tools,
                                wanted,
                            ),
                            ..before.state
                        })
                        &&& deferred_after(
                            before.state.deferred_tools,
                            wanted,
                            after.state.deferred_tools,
                        )
                        &&& messages_view(after.messages@) == messages_view(
                            before.messages@,
                        ).push(
                            tool_result(
                                call@.id,
                                search_answer(before.state.deferred_tools, wanted),
                                false,
                            ),
                        )
                        &&& after.events == before.events
                    },
                    ToolDispatch::TaskTool => after.state == before.state && after.messages
                        == before.messages && after.events == before.events,
                    ToolDispatch::Agent => {
                        &&& after.state == (LoopState {
                            remaining_step_budget: one_less(before.state.remaining_step_budget),
                            ..before.state
                        })
                        &&& after.messages == before.messages
                        &&& events_view(after.events@) == events_view(before.events@).push(
                            start_event(before.step, call@),
                        )
                    },
                    ToolDispatch::Run => {
                        &&& after.state == before.state
                        &&& after.messages == before.messages
                        &&& events_view(after.events@) == events_view(before.events@).push(
                            start_event(before.step, call@),
                        )
                    },
                }
            }),
    {
        let step: u32 = self.step;
        let ghost all = self.pending@;
        let call: ToolCallBlock = self.pending.remove(0);
        assert(self.pending@ =~= all.skip(1));
        let dispatch: ToolDispatch = dispatch_tool_call(call.name.as_str(), decision);
        match dispatch {
            ToolDispatch::Denied => {
                match decision {
                    ApprovalDecision::Deny(reason) => {
                        answer_denied(
                            &mut self.state,
                            &mut self.messages,
                            call.id.as_str(),
                            reason.as_str(),
                        );
                    },
                    ApprovalDecision::Approve => {},
                }
            },
            ToolDispatch::ToolSearch => {
                answer_tool_search(&mut self.state, &mut self.messages, &call);
            },
            ToolDispatch::TaskTool => {},
            ToolDispatch::Agent => {
                begin_agent_call(&mut self.state, &call, step, &mut self.events);
            },
            ToolDispatch::Run => {
                begin_tool_run(&call, step, &mut self.events);
            },
        }
        (call, dispatch)
    }

    /// Answers a call to the task store.
    pub fn answer_task(&mut self, call: &ToolCallBlock, answer: String)
        ensures
            *final(self) == (ToolLoop {
                state: (LoopState {
                    remaining_step_budget: one_less(old(self).state.remaining_step_budget),
                    ..old(self).state
                }),
                messages: final(self).messages,
                ..*old(self)
            }),
            messages_view(final(self).messages@) == messages_view(old(self).messages@).push(
                tool_result(call@.id, answer@, starts_with(answer@, "Error:"@)),
            ),
    {
        answer_task_tool(&mut self.state, &mut self.messages, call.id.as_str(), answer);
    }

    /// Answers a call that started another agent.
    pub fn answer_agent(
        &mut self,
        call: &ToolCallBlock,
        content: String,
        is_error: bool,
        elapsed_ms: u64,
    )
        ensures
            *final(self) == (ToolLoop {
                messages: final(self).messages,
                events: final(self).events,
                ..*old(self)
            }),
            messages_view(final(self).messages@) == messages_view(old(self).messages@).push(
                tool_result(call@.id, content@, is_error),
            ),
            events_view(final(self).events@) == events_view(old(self).events@).push(
                EventView::ToolEnd {
                    step: old(self).step,
                    tool_name: call@.name,
                    elapsed_ms: Some(elapsed_ms),
                    result_summary: None,
                    agent_id: None,
                },
            ),
    {
        let step: u32 = self.step;
        end_agent_call(
            &mut self.messages,
            call,
            content,
            is_error,
            elapsed_ms,
            step,
            &mut self.events,
        );
    }

    /// Answers a call whose tool has run.
    pub fn answer_run(&mut self, call: &ToolCallBlock, run: &ToolRun)
        ensures
            *final(self) == (ToolLoop {
                state: final(self).state,
                messages: final(self).messages,
                events: final(self).events,
                turn_tool_ids: final(self).turn_tool_ids,
                ..*old(self)
            }),
            final(self).state == (LoopState {
                step_index: old(self).step,
                remaining_step_budget: run.interpreted.remaining_step_budget,
                remaining_recovery_budget: run.interpreted.remaining_recovery_budget,
                working_directory: final(self).state.working_directory,
                last_observation: final(self).state.last_observation,
                history: final(self).state.history,
                ..old(self).state
            }),
            final(self).state.working_directory@ == directory_after(
                old(self).state,
                run.interpreted,
            ),
            opt_tool(final(self).state.last_observation) == Some(run.observation@),
            final(self).state.history@ == old(self).state.history@.push(
                final(self).state.history@.last(),
            ),
            final(self).state.history@.last()@ == tool_step(
                old(self).state,
                call@,
                *run,
                old(self).step,
            ),
            messages_view(final(self).messages@) == messages_view(old(self).messages@)
                + run_messages(call@, *run),
            views(final(self).turn_tool_ids@) == views(old(self).turn_tool_ids@).push(call@.id),
            events_view(final(self).events@) == events_view(old(self).events@).push(
                run_end_event(old(self).step, call@, *run),
            ),
    {
        let step: u32 = self.step;
        record_tool_run(
            &mut self.state,
            &mut self.messages,
            &mut self.turn_tool_ids,
            call,
            run,
            step,
            &mut self.events,
        );
    }

    /// Ends the answers of a turn: tells what the tool results come to, where tools
    /// have run, and cuts results that are too long.
    pub fn close_results(&mut self, tool_result_max_chars: usize)
        ensures
            *final(self) == (ToolLoop {
                messages: final(self).messages,
                events: final(self).events,
                ..*old(self)
            }),
            messages_view(final(self).messages@) == messages_view(
                old(self).messages@,
            ).map_values(|m: MessageView| with_cut_result(m, tool_result_max_chars as int)),
            ({
                let tokens = capped(
                    turn_tool_tokens(
                        messages_view(old(self).messages@),
                        views(old(self).turn_tool_ids@),
                    ) as int,
                ) as u64;
                events_view(final(self).events@) == (if old(self).turn_tool_ids@.len() == 0 {
                    events_view(old(self).events@)
                } else {
                    events_view(old(self).events@).push(
                        EventView::ToolBudgetCheck {
                            step: old(self).step,
                            per_turn_tool_tokens: tokens,
                            exceeded: tokens > PER_TURN_TOOL_BUDGET_TOKENS,
                        },
                    )
                })
            }),
    {
        if self.turn_tool_ids.len() > 0 {
            let tokens: u64 = estimate_turn_tool_tokens(&self.messages, &self.turn_tool_ids);
            emit(
                &mut self.events,
                LoopEvent::ToolBudgetCheck {
                    step: self.step,
                    per_turn_tool_tokens: tokens,
                    exceeded: tokens > PER_TURN_TOOL_BUDGET_TOKENS,
                },
            );
        }
        truncate_large_tool_results(&mut self.messages, tool_result_max_chars);
    }

    /// The definitions that the next call would begin from: those built afresh where
    /// the schema is dirty, and otherwise the frozen ones, if there are any.
    pub fn next_definitions(&self, fresh: Vec<ToolDefinition>) -> (r: Option<Vec<ToolDefinition>>)
        ensures
            opt_definitions(r) == (if self.state.tool_schema_dirty {
                Some(definitions_view(fresh@))
            } else {
                opt_definitions(self.state.frozen_tool_schema)
            }),
    {
        if self.state.tool_schema_dirty {
            return Some(fresh);
        }
        match &self.state.frozen_tool_schema {
            Some(frozen) => Some(clone_definitions(frozen)),
            None => None,
        }
    }

    /// Whether the prompt has outgrown the threshold, so that it is to be compacted.
    pub fn compaction_due(&mut self, estimate: u64, threshold: u64) -> (r: bool)
        ensures
            r == (estimate > threshold),
            *final(self) == (ToolLoop { events: final(self).events, ..*old(self) }),
            events_view(final(self).events@) == (if r {
                events_view(old(self).events@).push(
                    EventView::CompactTriggered {
                        step: old(self).step,
                        estimated_tokens: estimate,
                    },
                )
            } else {
                events_view(old(self).events@)
            }),
    {
        if estimate > threshold {
            emit(
                &mut self.events,
                LoopEvent::CompactTriggered { step: self.step, estimated_tokens: estimate },
            );
            true
        } else {
            false
        }
    }

    /// Compacts messages and history, given what the summarizing model came back
    /// with, and gives the tokens that this took.
    pub fn compact(
        &mut self,
        config: &CompactConfig,
        summarizer: Option<SummarizerRun>,
        limit: u32,
        elapsed_ms: u64,
    ) -> (r: (u64, u64))
        requires
            config.retain_tail_steps < usize::MAX,
            old(self).messages.len() <= u32::MAX,
        ensures
            compaction_ran(
                old(self).state,
                messages_view(old(self).messages@),
                events_view(old(self).events@),
                *config,
                summarizer,
                limit,
                old(self).step,
                elapsed_ms,
                final(self).state,
                messages_view(final(self).messages@),
                events_view(final(self).events@),
                r,
            ),
            *final(self) == (ToolLoop {
                state: final(self).state,
                messages: final(self).messages,
                events: final(self).events,
                settled_len: if messages_replaced(
                    messages_view(old(self).messages@),
                    *config,
                    summarizer,
                    old(self).state.consecutive_autocompact_failures,
                    limit,
                ) {
                    final(self).messages.len()
                } else {
                    old(self).settled_len
                },
                ..*old(self)
            }),
    {
        let step: u32 = self.step;
        let (replaced, tokens): (bool, (u64, u64)) = run_compaction(
            &mut self.state,
            &mut self.messages,
            config,
            summarizer,
            limit,
            step,
            elapsed_ms,
            &mut self.events,
        );
        if replaced {
            self.settled_len = self.messages.len();
        }
        tokens
    }

    /// Ends a turn, given what its compaction has used.
    pub fn close_turn(&mut self, tokens: (u64, u64), now_ms: u64)
        ensures
            ({
                let compacted = tokens.0 > 0 || tokens.1 > 0;
                &&& *final(self) == (ToolLoop {
                    state: final(self).state,
                    events: final(self).events,
                    ..*old(self)
                })
                &&& final(self).state == (LoopState {
                    cache_break_detector: final(self).state.cache_break_detector,
                    last_llm_call_at_ms: if compacted {
                        Some(now_ms)
                    } else {
                        old(self).state.last_llm_call_at_ms
                    },
                    ..old(self).state
                })
                &&& final(self).state.cache_break_detector@ == (DetectorView {
                    compaction_pending: compacted || old(
                        self,
                    ).state.cache_break_detector@.compaction_pending,
                    ..old(self).state.cache_break_detector@
                })
                &&& events_view(final(self).events@) == events_view(old(self).events@) + (
                if compacted {
                    seq![
                        usage_event(old(self).step, tokens.0, tokens.1, None, 0, 0, true),
                        EventView::StepComplete { step: old(self).step },
                    ]
                } else {
                    seq![EventView::StepComplete { step: old(self).step }]
                })
            }),
    {
        let ghost told = events_view(self.events@);
        let step: u32 = self.step;
        if tokens.0 > 0 || tokens.1 > 0 {
            self.state.cache_break_detector.notify_compaction();
            emit_token_usage(&mut self.events, step, tokens.0, tokens.1, None, 0, 0, true);
            self.state.record_llm_call_observed_at(now_ms);
        }
        emit(&mut self.events, LoopEvent::StepComplete { step });
        assert(events_view(self.events@) =~= told + (if tokens.0 > 0 || tokens.1 > 0 {
            seq![
                usage_event(step, tokens.0, tokens.1, None, 0, 0, true),
                EventView::StepComplete { step },
            ]
        } else {
            seq![EventView::StepComplete { step }]
        }));
    }
}

} // verus!
