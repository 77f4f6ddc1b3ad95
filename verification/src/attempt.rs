//! Around one model call: what is compacted before it, and what is noted after it.

use crate::cache_break::{CacheBreakReport, DetectorView};
use crate::compact::{
    collapse_older_half, collapse_outcome, collapsed, microcompact_freed,
    microcompact_old_tool_results, microcompacted, mid_compact_messages, mid_compacted, mid_outcome,
    MidCompactOutcome, MICROCOMPACT_RETAIN_RECENT,
};
use crate::estimate::capped;
use crate::events::{emit, emit_token_usage, events_view, usage_event, EventView, LoopEvent};
use crate::message::{messages_view, Message, MessageView, ToolCallBlock};
use crate::pressure::{saturating_sub, CommittedBaseline, PromptTokenEstimate};
use crate::split::{clone_list, clone_opt};
use crate::state::{CommittedPrefix, LoopState, PromptSurface};
use crate::text::{opt_str_view, opt_view, str_eq};
use vstd::prelude::*;

verus! {

/// The provider's cache is cold once the last call is longer ago than this.
pub const CACHE_COLD_GAP_MS: u64 = 300_000;

/// The part of the context window, in percent, above which older messages give way.
pub const MID_WATER_TRIGGER_PERCENT: u128 = 60;

pub open spec fn cache_cold(last_call_at_ms: Option<u64>, now_ms: u64) -> bool {
    match last_call_at_ms {
        Some(last) => now_ms - last > CACHE_COLD_GAP_MS,
        None => false,
    }
}

/// The last call is so long ago that the provider's cache is cold. Before the first
/// call it never is.
pub fn time_based_microcompact_due(last_call_at_ms: Option<u64>, now_ms: u64) -> (r: bool)
    ensures
        r == cache_cold(last_call_at_ms, now_ms),
{
    match last_call_at_ms {
        Some(last) => now_ms.saturating_sub(last) > CACHE_COLD_GAP_MS,
        None => false,
    }
}

/// The tokens that clearing old tool results frees, before calibration.
pub open spec fn raw_freed(messages: Seq<Message>) -> u64 {
    capped(
        microcompact_freed(
            messages_view(messages),
            MICROCOMPACT_RETAIN_RECENT as int,
            messages.len() as int,
        ) as int,
    ) as u64
}

/// Clears old tool results where the provider's cache is cold anyway, and gives the
/// tokens that this freed.
pub fn microcompact_if_cold<F: Fn(u64) -> u64>(
    loop_state: &mut LoopState,
    messages: &mut Vec<Message>,
    now_ms: u64,
    calibrate: F,
    step: u32,
    events: &mut Vec<LoopEvent>,
) -> (r: Option<u64>)
    requires
        forall|raw: u64| call_requires(calibrate, (raw,)),
    ensures
        !cache_cold(old(loop_state).last_llm_call_at_ms, now_ms) ==> {
            &&& r is None
            &&& *final(loop_state) == *old(loop_state)
            &&& *final(messages) == *old(messages)
            &&& *final(events) == *old(events)
        },
        cache_cold(old(loop_state).last_llm_call_at_ms, now_ms) ==> {
            &&& r is Some
            &&& call_ensures(calibrate, (raw_freed(old(messages)@),), r->0)
            &&& messages_view(final(messages)@) == microcompacted(
                messages_view(old(messages)@),
                MICROCOMPACT_RETAIN_RECENT as int,
            )
            &&& *final(loop_state) == (LoopState {
                cache_break_detector: final(loop_state).cache_break_detector,
                committed: if r->0 > 0 {
                    None
                } else {
                    old(loop_state).committed
                },
                ..*old(loop_state)
            })
            &&& final(loop_state).cache_break_detector@ == (DetectorView {
                compaction_pending: true,
                ..old(loop_state).cache_break_detector@
            })
            &&& events_view(final(events)@) == events_view(old(events)@).push(
                EventView::TimeBasedMicrocompactRan {
                    step,
                    gap_minutes: ((now_ms - old(loop_state).last_llm_call_at_ms->0) / 60_000) as u64,
                    freed_tokens: r->0,
                },
            )
        },
{
    if !time_based_microcompact_due(loop_state.last_llm_call_at_ms, now_ms) {
        return None;
    }
    loop_state.cache_break_detector.notify_compaction();
    let freed: u64 = microcompact_old_tool_results(
        messages,
        MICROCOMPACT_RETAIN_RECENT,
        calibrate,
    );
    let gap_minutes: u64 = match loop_state.last_llm_call_at_ms {
        Some(last) => (now_ms - last) / 60_000,
        None => 0,
    };
    if freed > 0 {
        loop_state.invalidate_committed_baseline();
    }
    emit(
        events,
        LoopEvent::TimeBasedMicrocompactRan { step, gap_minutes, freed_tokens: freed },
    );
    Some(freed)
}

/// The estimate above which older messages give way.
pub open spec fn mid_water(context_window_tokens: u64) -> int {
    context_window_tokens * MID_WATER_TRIGGER_PERCENT / 100
}

/// Older messages give way before this call: the prompt is large, and the turn has
/// not been compacted already.
pub fn mid_compact_due(estimate: u64, context_window_tokens: u64, reactive_compact_used: bool) -> (r:
    bool)
    ensures
        r == (!reactive_compact_used && estimate > mid_water(context_window_tokens)),
{
    let threshold: u128 = (context_window_tokens as u128) * MID_WATER_TRIGGER_PERCENT / 100;
    !reactive_compact_used && (estimate as u128) > threshold
}

/// The session's stored summary is worth looking up: it has not been looked up in
/// this run, and there is a session.
pub fn session_summary_wanted(loop_state: &LoopState) -> (r: bool)
    ensures
        r == (!loop_state.layer2_lookup_attempted_this_run && loop_state.session_id@.len() > 0),
{
    !loop_state.layer2_lookup_attempted_this_run && !loop_state.session_id.as_str().is_empty()
}

/// The stored summary that counts: none where it was looked up before, and none
/// without a session.
pub open spec fn session_summary(loop_state: LoopState, found: Option<Seq<char>>) -> Option<
    Seq<char>,
> {
    if loop_state.layer2_lookup_attempted_this_run || loop_state.session_id@.len() == 0 {
        None
    } else {
        found
    }
}

/// What a mid-tier compaction tells of itself.
pub open spec fn mid_events(step: u32, outcome: MidCompactOutcome) -> Seq<EventView> {
    match outcome {
        MidCompactOutcome::Layer2 { messages_replaced } => seq![
            EventView::MidCompactLayer2Ran { step, messages_replaced },
        ],
        MidCompactOutcome::Layer1 { messages_collapsed } => seq![
            EventView::MidCompactLayer1Ran { step, messages_collapsed },
        ],
        MidCompactOutcome::Noop => seq![],
    }
}

/// The buffer after the middle tier: one that has grown since it was compacted is
/// collapsed again, its summary included.
pub open spec fn middle_after(
    messages: Seq<MessageView>,
    grown: bool,
    summary: Option<Seq<char>>,
) -> Seq<MessageView> {
    if grown {
        collapsed(messages, summary)
    } else {
        mid_compacted(messages, summary)
    }
}

pub open spec fn middle_outcome(
    messages: Seq<MessageView>,
    grown: bool,
    with_summary: bool,
) -> MidCompactOutcome {
    if grown {
        collapse_outcome(messages, with_summary)
    } else {
        mid_outcome(messages, with_summary)
    }
}

/// Lets older messages give way to the session's stored summary, or to a digest.
/// `grown` tells whether the buffer has grown since it was last compacted. True where
/// anything was replaced.
pub fn run_mid_compact(
    loop_state: &mut LoopState,
    messages: &mut Vec<Message>,
    grown: bool,
    found: Option<&str>,
    step: u32,
    events: &mut Vec<LoopEvent>,
) -> (r: bool)
    ensures
        ({
            let summary = session_summary(*old(loop_state), opt_str_view(found));
            let outcome = middle_outcome(messages_view(old(messages)@), grown, summary is Some);
            &&& r == !(outcome is Noop)
            &&& messages_view(final(messages)@) == middle_after(
                messages_view(old(messages)@),
                grown,
                summary,
            )
            &&& *final(loop_state) == (LoopState {
                layer2_lookup_attempted_this_run: true,
                committed: if r {
                    None
                } else {
                    old(loop_state).committed
                },
                cache_break_detector: final(loop_state).cache_break_detector,
                ..*old(loop_state)
            })
            &&& final(loop_state).cache_break_detector@ == (DetectorView {
                compaction_pending: r || old(loop_state).cache_break_detector@.compaction_pending,
                ..old(loop_state).cache_break_detector@
            })
            &&& events_view(final(events)@) == events_view(old(events)@) + mid_events(
                step,
                outcome,
            )
        }),
{
    let ghost told = events_view(events@);
    let wanted: bool = session_summary_wanted(loop_state);
    let summary: Option<&str> = if wanted {
        found
    } else {
        None
    };
    loop_state.layer2_lookup_attempted_this_run = true;
    let outcome: MidCompactOutcome = if grown {
        collapse_older_half(messages, summary)
    } else {
        mid_compact_messages(messages, summary)
    };
    let ran: bool = match outcome {
        MidCompactOutcome::Noop => false,
        _ => true,
    };
    if ran {
        loop_state.cache_break_detector.notify_compaction();
        loop_state.invalidate_committed_baseline();
    }
    match outcome {
        MidCompactOutcome::Layer2 { messages_replaced } => {
            emit(events, LoopEvent::MidCompactLayer2Ran { step, messages_replaced });
        },
        MidCompactOutcome::Layer1 { messages_collapsed } => {
            emit(events, LoopEvent::MidCompactLayer1Ran { step, messages_collapsed });
        },
        MidCompactOutcome::Noop => {},
    }
    assert(events_view(events@) =~= told + mid_events(step, outcome));
    ran
}

/// The last call's token count, where the next call starts with what that one sent.
pub fn validated_baseline(
    loop_state: &LoopState,
    surface: &PromptSurface,
    messages: usize,
    prefix_messages_hash: u64,
) -> (r: Option<CommittedBaseline>)
    ensures
        match (r, loop_state.committed) {
            (Some(b), Some(c)) => {
                &&& c.matches(*surface, messages as nat, prefix_messages_hash)
                &&& b.input_tokens == c.baseline.input_tokens
                &&& b.message_count == c.baseline.message_count
                &&& b.system_prompt_bytes == c.baseline.system_prompt_bytes
                &&& b.tool_schema_bytes_len == c.baseline.tool_schema_bytes_len
                &&& opt_view(b.model_id) == opt_view(c.baseline.model_id)
            },
            (None, Some(c)) => !c.matches(*surface, messages as nat, prefix_messages_hash),
            (Some(_), None) => false,
            (None, None) => true,
        },
{
    match &loop_state.committed {
        Some(c) => if c.is_valid_for(surface, messages, prefix_messages_hash) {
            Some(
                CommittedBaseline {
                    input_tokens: c.baseline.input_tokens,
                    message_count: c.baseline.message_count,
                    system_prompt_bytes: c.baseline.system_prompt_bytes,
                    tool_schema_bytes_len: c.baseline.tool_schema_bytes_len,
                    model_id: clone_opt(&c.baseline.model_id),
                },
            )
        } else {
            None
        },
        None => None,
    }
}

/// What a call sent, as far as its response is compared with it.
#[derive(Debug)]
pub struct PreCall {
    pub surface: PromptSurface,
    pub message_count: usize,
    pub prefix_messages_hash: u64,
    pub estimate: PromptTokenEstimate,
}

/// What a model call came back with.
#[derive(Debug)]
pub struct ModelResponse {
    pub output: String,
    pub tool_calls: Vec<ToolCallBlock>,
    pub prompt_tokens: u64,
    pub output_tokens: u64,
    pub cache_creation_input_tokens: u64,
    pub cache_read_input_tokens: u64,
    pub model_id: String,
    pub provider: String,
    pub finish_reason: Option<String>,
}

#[verifier::ext_equal]
pub struct CommittedView {
    pub input_tokens: u64,
    pub message_count: usize,
    pub system_prompt_bytes: u64,
    pub tool_schema_bytes_len: u64,
    pub model_id: Option<Seq<char>>,
    pub system_prompt_hash: u64,
    pub tool_schema_hash: u64,
    pub prefix_messages_hash: u64,
}

pub open spec fn committed_view(committed: Option<CommittedPrefix>) -> Option<CommittedView> {
    match committed {
        Some(c) => Some(
            CommittedView {
                input_tokens: c.baseline.input_tokens,
                message_count: c.baseline.message_count,
                system_prompt_bytes: c.baseline.system_prompt_bytes,
                tool_schema_bytes_len: c.baseline.tool_schema_bytes_len,
                model_id: opt_view(c.baseline.model_id),
                system_prompt_hash: c.system_prompt_hash,
                tool_schema_hash: c.tool_schema_hash,
                prefix_messages_hash: c.prefix_messages_hash,
            },
        ),
        None => None,
    }
}

/// What is known of the prompt after a response; a count of zero says nothing.
pub open spec fn committed_after(
    before: Option<CommittedView>,
    pre: PreCall,
    tool_schema_bytes_len: u64,
    tool_schema_hash: u64,
    prompt_tokens: u64,
    model_id: Seq<char>,
) -> Option<CommittedView> {
    if prompt_tokens == 0 {
        before
    } else {
        Some(
            CommittedView {
                input_tokens: prompt_tokens,
                message_count: pre.message_count,
                system_prompt_bytes: pre.surface.system_prompt_bytes,
                tool_schema_bytes_len,
                model_id: Some(model_id),
                system_prompt_hash: pre.surface.system_prompt_hash,
                tool_schema_hash,
                prefix_messages_hash: pre.prefix_messages_hash,
            },
        )
    }
}

/// The estimate and the count to calibrate with.
pub open spec fn pair_of(estimate: PromptTokenEstimate, observed: u64) -> (int, int) {
    (
        saturating_sub(
            estimate.raw_total_tokens as int,
            estimate.committed_baseline_tokens as int,
        ),
        saturating_sub(
            observed as int,
            estimate.committed_baseline_tokens as int,
        ),
    )
}

/// What the library keeps of a response.
#[derive(Debug)]
pub struct ObservedResponse {
    /// The text of the turn.
    pub text: String,
    /// The estimate and the count to calibrate the model's estimator with.
    pub calibration: (u64, u64),
    pub cache_break: Option<CacheBreakReport>,
}

/// The text of the turn: what was streamed, or all at once where nothing was.
pub open spec fn shown_text(streamed: Seq<char>, output: Seq<char>) -> Seq<char> {
    if streamed.len() == 0 {
        output
    } else {
        streamed
    }
}

pub open spec fn response_usage(step: u32, response: ModelResponse) -> EventView {
    usage_event(
        step,
        response.prompt_tokens,
        response.output_tokens,
        Some(response.model_id@),
        response.cache_creation_input_tokens,
        response.cache_read_input_tokens,
        false,
    )
}

pub open spec fn calibrated_event(
    step: u32,
    estimate: PromptTokenEstimate,
    response: ModelResponse,
) -> EventView {
    EventView::EstimatorCalibrated {
        step,
        estimated_prompt_tokens: estimate.total_tokens,
        prompt_tokens: response.prompt_tokens,
        model_id: response.model_id@,
    }
}

/// What a response lets the loop tell.
pub open spec fn response_events(
    step: u32,
    streamed: Seq<char>,
    response: ModelResponse,
    pre: PreCall,
    detector: DetectorView,
) -> Seq<EventView> {
    (if streamed.len() == 0 && response.output@.len() > 0 {
        seq![EventView::LlmTextDelta { step, text: response.output@, agent_id: None }]
    } else {
        seq![]
    }) + seq![
        EventView::LlmDecisionComplete { step },
        response_usage(step, response),
        calibrated_event(step, pre.estimate, response),
    ] + (match detector.report(
        response.cache_read_input_tokens,
        response.model_id@,
        response.provider@,
    ) {
        Some(report) => seq![
            EventView::CacheBreakDetected {
                step,
                tokens_lost: report.tokens_lost,
                component_changed: report.component_changed,
            },
        ],
        None => seq![],
    })
}

/// Takes in the response to a call: its token counts, its time, and whether the
/// provider's cache broke.
pub fn absorb_response(
    loop_state: &mut LoopState,
    pre: &PreCall,
    streamed: &str,
    response: &ModelResponse,
    now_ms: u64,
    step: u32,
    events: &mut Vec<LoopEvent>,
) -> (r: ObservedResponse)
    ensures
        r.text@ == shown_text(streamed@, response.output@),
        (r.calibration.0 as int, r.calibration.1 as int) == pair_of(
            pre.estimate,
            response.prompt_tokens,
        ),
        match r.cache_break {
            Some(report) => old(loop_state).cache_break_detector@.report(
                response.cache_read_input_tokens,
                response.model_id@,
                response.provider@,
            ) == Some(report@),
            None => old(loop_state).cache_break_detector@.report(
                response.cache_read_input_tokens,
                response.model_id@,
                response.provider@,
            ) is None,
        },
        *final(loop_state) == (LoopState {
            committed: final(loop_state).committed,
            last_llm_call_at_ms: Some(now_ms),
            cache_break_detector: final(loop_state).cache_break_detector,
            ..*old(loop_state)
        }),
        committed_view(final(loop_state).committed) == committed_after(
            committed_view(old(loop_state).committed),
            *pre,
            pre.surface.tool_schema_bytes_len,
            pre.surface.tool_schema_hash,
            response.prompt_tokens,
            response.model_id@,
        ),
        final(loop_state).cache_break_detector@
            == old(loop_state).cache_break_detector@.after_response(
            response.cache_read_input_tokens,
        ),
        events_view(final(events)@) == events_view(old(events)@) + response_events(
            step,
            streamed@,
            *response,
            *pre,
            old(loop_state).cache_break_detector@,
        ),
{
    let ghost told = events_view(events@);
    let ghost detector = loop_state.cache_break_detector@;
    let mut text: String = streamed.to_owned();
    if streamed.is_empty() {
        text = response.output.clone();
        if !response.output.as_str().is_empty() {
            emit(
                events,
                LoopEvent::LlmTextDelta { step, text: response.output.clone(), agent_id: None },
            );
        }
    }
    emit(events, LoopEvent::LlmDecisionComplete { step });
    emit_token_usage(
        events,
        step,
        response.prompt_tokens,
        response.output_tokens,
        Some(response.model_id.as_str()),
        response.cache_creation_input_tokens,
        response.cache_read_input_tokens,
        false,
    );
    let calibration: (u64, u64) = pre.estimate.calibration_pair(response.prompt_tokens);
    loop_state.record_observed_usage(
        pre.message_count,
        response.prompt_tokens,
        &pre.surface,
        pre.prefix_messages_hash,
        response.model_id.as_str(),
    );
    loop_state.record_llm_call_observed_at(now_ms);
    emit(
        events,
        LoopEvent::EstimatorCalibrated {
            step,
            estimated_prompt_tokens: pre.estimate.total_tokens,
            prompt_tokens: response.prompt_tokens,
            model_id: response.model_id.clone(),
        },
    );
    let cache_break: Option<CacheBreakReport> = loop_state.cache_break_detector.check_response(
        response.cache_read_input_tokens,
        response.model_id.as_str(),
        response.provider.as_str(),
    );
    match &cache_break {
        Some(report) => {
            emit(
                events,
                LoopEvent::CacheBreakDetected {
                    step,
                    tokens_lost: report.tokens_lost,
                    component_changed: clone_list(&report.component_changed),
                },
            );
        },
        None => {},
    }
    assert(events_view(events@) =~= told + response_events(
        step,
        streamed@,
        *response,
        *pre,
        detector,
    ));
    ObservedResponse { text, calibration, cache_break }
}

/// The finish reasons of an answer that was cut off at its limit.
pub open spec fn cut_off(finish_reason: Option<Seq<char>>) -> bool {
    finish_reason == Some("max_tokens"@) || finish_reason == Some("length"@)
}

pub fn is_cut_off(finish_reason: Option<&str>) -> (r: bool)
    ensures
        r == cut_off(opt_str_view(finish_reason)),
{
    match finish_reason {
        Some(reason) => str_eq(reason, "max_tokens") || str_eq(reason, "length"),
        None => false,
    }
}

/// What to do about an answer.
#[derive(Debug, Clone, Copy, PartialEq, Eq, Structural)]
pub enum Escalation {
    /// It is used as it is.
    Keep,
    /// It was cut off, and the provider cannot be asked for more.
    Unsupported,
    /// It is asked for again, once, with this limit.
    Retry { max_tokens: u64 },
}

/// Whether an answer is asked for again: it was cut off, the provider takes a
/// limit, and the model's ceiling is known and higher than the limit was.
pub open spec fn escalation(
    finish_reason: Option<Seq<char>>,
    supports_cap: bool,
    ceiling: Option<u64>,
    initial_max_tokens: u64,
) -> Escalation {
    if !cut_off(finish_reason) {
        Escalation::Keep
    } else if !supports_cap {
        Escalation::Unsupported
    } else {
        match ceiling {
            Some(ceiling) => if ceiling > initial_max_tokens {
                Escalation::Retry { max_tokens: ceiling }
            } else {
                Escalation::Keep
            },
            None => Escalation::Keep,
        }
    }
}

/// What the decision on an answer lets the loop tell. A second call sends the
/// schema of the first.
pub open spec fn escalation_events(
    step: u32,
    decision: Escalation,
    response: ModelResponse,
    initial_max_tokens: u64,
    tool_schema_hash: u64,
) -> Seq<EventView> {
    match decision {
        Escalation::Keep => seq![],
        Escalation::Unsupported => seq![
            EventView::OutputSlotEscalationUnsupported {
                step,
                model_id: response.model_id@,
                provider: response.provider@,
            },
        ],
        Escalation::Retry { max_tokens } => seq![
            EventView::OutputSlotEscalated {
                step,
                initial_max_tokens,
                escalated_max_tokens: max_tokens,
                model_id: response.model_id@,
            },
            EventView::ToolSchemaFrozen { step, hash: tool_schema_hash, rebuilt: false },
        ],
    }
}

/// Decides whether the answer is asked for again.
pub fn decide_escalation(
    response: &ModelResponse,
    supports_cap: bool,
    ceiling: Option<u64>,
    initial_max_tokens: u64,
    tool_schema_hash: u64,
    step: u32,
    events: &mut Vec<LoopEvent>,
) -> (r: Escalation)
    ensures
        r == escalation(
            opt_view(response.finish_reason),
            supports_cap,
            ceiling,
            initial_max_tokens,
        ),
        events_view(final(events)@) == events_view(old(events)@) + escalation_events(
            step,
            r,
            *response,
            initial_max_tokens,
            tool_schema_hash,
        ),
{
    let ghost told = events_view(events@);
    let finish_reason: Option<&str> = match &response.finish_reason {
        Some(reason) => Some(reason.as_str()),
        None => None,
    };
    let mut decision: Escalation = Escalation::Keep;
    if is_cut_off(finish_reason) {
        if !supports_cap {
            decision = Escalation::Unsupported;
            emit(
                events,
                LoopEvent::OutputSlotEscalationUnsupported {
                    step,
                    model_id: response.model_id.clone(),
                    provider: response.provider.clone(),
                },
            );
        } else if let Some(ceiling) = ceiling {
            if ceiling > initial_max_tokens {
                decision = Escalation::Retry { max_tokens: ceiling };
                emit(
                    events,
                    LoopEvent::OutputSlotEscalated {
                        step,
                        initial_max_tokens,
                        escalated_max_tokens: ceiling,
                        model_id: response.model_id.clone(),
                    },
                );
                emit(
                    events,
                    LoopEvent::ToolSchemaFrozen { step, hash: tool_schema_hash, rebuilt: false },
                );
            }
        }
    }
    assert(events_view(events@) =~= told + escalation_events(
        step,
        decision,
        *response,
        initial_max_tokens,
        tool_schema_hash,
    ));
    decision
}

/// How the prompt looks to the model that a second call was answered by.
#[derive(Debug)]
pub struct RetryPreflight {
    pub tool_schema_bytes_len: u64,
    pub tool_schema_hash: u64,
    pub estimate: PromptTokenEstimate,
}

/// What the answer to a second call is noted with: the pair to calibrate with, and
/// the size and the hash of the schema. Where another model gave the answer, the
/// size and the estimate are those for that model.
pub open spec fn retry_values(
    pre: PreCall,
    rerouted: bool,
    preflight: RetryPreflight,
    prompt_tokens: u64,
) -> (int, int, int, int) {
    let pair = pair_of(
        if rerouted {
            preflight.estimate
        } else {
            pre.estimate
        },
        prompt_tokens,
    );
    (
        pair.0,
        pair.1,
        if rerouted {
            preflight.tool_schema_bytes_len as int
        } else {
            pre.surface.tool_schema_bytes_len as int
        },
        preflight.tool_schema_hash as int,
    )
}

pub fn retry_preflight_values(
    pre: &PreCall,
    retry_model_id: &str,
    primary_model_id: &str,
    preflight: &RetryPreflight,
    retry_prompt_tokens: u64,
) -> (r: (u64, u64, u64, u64))
    ensures
        (r.0 as int, r.1 as int, r.2 as int, r.3 as int) == retry_values(
            *pre,
            retry_model_id@ != primary_model_id@,
            *preflight,
            retry_prompt_tokens,
        ),
{
    if str_eq(retry_model_id, primary_model_id) {
        let pair: (u64, u64) = pre.estimate.calibration_pair(retry_prompt_tokens);
        (pair.0, pair.1, pre.surface.tool_schema_bytes_len, preflight.tool_schema_hash)
    } else {
        let pair: (u64, u64) = preflight.estimate.calibration_pair(retry_prompt_tokens);
        (pair.0, pair.1, preflight.tool_schema_bytes_len, preflight.tool_schema_hash)
    }
}

/// Takes in the answer to a second call, and gives what to calibrate with.
pub fn absorb_retry(
    loop_state: &mut LoopState,
    pre: &PreCall,
    primary_model_id: &str,
    preflight: &RetryPreflight,
    response: &ModelResponse,
    now_ms: u64,
    step: u32,
    events: &mut Vec<LoopEvent>,
) -> (r: (u64, u64))
    ensures
        ({
            let values = retry_values(
                *pre,
                response.model_id@ != primary_model_id@,
                *preflight,
                response.prompt_tokens,
            );
            &&& (r.0 as int, r.1 as int) == (values.0, values.1)
            &&& committed_view(final(loop_state).committed) == committed_after(
                committed_view(old(loop_state).committed),
                *pre,
                values.2 as u64,
                values.3 as u64,
                response.prompt_tokens,
                response.model_id@,
            )
        }),
        *final(loop_state) == (LoopState {
            committed: final(loop_state).committed,
            last_llm_call_at_ms: Some(now_ms),
            ..*old(loop_state)
        }),
        events_view(final(events)@) == events_view(old(events)@) + seq![
            response_usage(step, *response),
            EventView::LlmTextReplace { step, text: response.output@ },
            calibrated_event(step, pre.estimate, *response),
        ],
{
    let ghost told = events_view(events@);
    emit_token_usage(
        events,
        step,
        response.prompt_tokens,
        response.output_tokens,
        Some(response.model_id.as_str()),
        response.cache_creation_input_tokens,
        response.cache_read_input_tokens,
        false,
    );
    let values: (u64, u64, u64, u64) = retry_preflight_values(
        pre,
        response.model_id.as_str(),
        primary_model_id,
        preflight,
        response.prompt_tokens,
    );
    let surface: PromptSurface = PromptSurface {
        system_prompt_bytes: pre.surface.system_prompt_bytes,
        tool_schema_bytes_len: values.2,
        system_prompt_hash: pre.surface.system_prompt_hash,
        tool_schema_hash: values.3,
        model_id: None,
    };
    loop_state.record_observed_usage(
        pre.message_count,
        response.prompt_tokens,
        &surface,
        pre.prefix_messages_hash,
        response.model_id.as_str(),
    );
    loop_state.record_llm_call_observed_at(now_ms);
    emit(events, LoopEvent::LlmTextReplace { step, text: response.output.clone() });
    emit(
        events,
        LoopEvent::EstimatorCalibrated {
            step,
            estimated_prompt_tokens: pre.estimate.total_tokens,
            prompt_tokens: response.prompt_tokens,
            model_id: response.model_id.clone(),
        },
    );
    assert(events_view(events@) =~= told + seq![
        response_usage(step, *response),
        EventView::LlmTextReplace { step, text: response.output@ },
        calibrated_event(step, pre.estimate, *response),
    ]);
    (values.0, values.1)
}

/// After a response the next call finds its token count again, if it starts with
/// the same messages, prompt, schema and model.
pub proof fn law_committed_prefix_is_found(
    committed: CommittedPrefix,
    before: Option<CommittedView>,
    pre: PreCall,
    prompt_tokens: u64,
    model_id: Seq<char>,
    surface: PromptSurface,
    messages: nat,
    prefix_messages_hash: u64,
)
    requires
        prompt_tokens > 0,
        committed_view(Some(committed)) == committed_after(
            before,
            pre,
            pre.surface.tool_schema_bytes_len,
            pre.surface.tool_schema_hash,
            prompt_tokens,
            model_id,
        ),
    ensures
        committed.matches(surface, messages, prefix_messages_hash) <==> {
            &&& messages >= pre.message_count
            &&& surface.system_prompt_bytes == pre.surface.system_prompt_bytes
            &&& surface.tool_schema_bytes_len == pre.surface.tool_schema_bytes_len
            &&& surface.system_prompt_hash == pre.surface.system_prompt_hash
            &&& surface.tool_schema_hash == pre.surface.tool_schema_hash
            &&& prefix_messages_hash == pre.prefix_messages_hash
            &&& opt_view(surface.model_id) == Some(model_id)
        },
{
}

/// The stored summary is taken up at most once in a run: once a mid-tier compaction
/// has asked for it, none that follows does.
pub proof fn law_session_summary_once(after: LoopState, found: Option<Seq<char>>)
    requires
        after.layer2_lookup_attempted_this_run,
    ensures
        session_summary(after, found) is None,
{
}

} // verus!
