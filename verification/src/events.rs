//! What a loop tells of itself while it runs.

use crate::text::{opt_str_view, opt_view, views};
use vstd::prelude::*;

verus! {

/// What a loop tells of itself while it runs. Costs and scales are not among it:
/// they follow from the counts and the model.
#[derive(Debug)]
pub enum LoopEvent {
    /// A tool is about to be called.
    ToolStart {
        step: u32,
        tool_name: String,
        args_summary: Option<String>,
        agent_id: Option<String>,
    },
    /// A tool call has come to an end.
    ToolEnd {
        step: u32,
        tool_name: String,
        elapsed_ms: Option<u64>,
        result_summary: Option<String>,
        agent_id: Option<String>,
    },
    /// The context has outgrown the threshold.
    CompactTriggered { step: u32, estimated_tokens: u64 },
    /// The provider has refused a prompt as too long.
    ReactiveCompactTriggered { step: u32, detail: String },
    /// A compaction is done; false where the model's summary was not used.
    CompactComplete { step: u32, llm_succeeded: bool, elapsed_ms: u64 },
    /// Thinking blocks were left out of what is summarized.
    ReasoningContentStripped { step: u32, messages_stripped: u32 },
    /// The summarizing model was called.
    AutoCompactSummarizerCalled {
        step: u32,
        prompt_tokens: u64,
        output_tokens: u64,
        succeeded: bool,
        drop_oldest_retries: u32,
    },
    /// The summarizing model has failed too often in a row.
    AutoCompactCircuitBreakerTripped { step: u32, consecutive_failures: u32 },
    /// Old tool results were cleared because the provider's cache is cold.
    TimeBasedMicrocompactRan { step: u32, gap_minutes: u64, freed_tokens: u64 },
    /// Older messages gave way to a digest.
    MidCompactLayer1Ran { step: u32, messages_collapsed: usize },
    /// Older messages gave way to the session's stored summary.
    MidCompactLayer2Ran { step: u32, messages_replaced: usize },
    /// The tool schema that a call is about to send.
    ToolSchemaFrozen { step: u32, hash: u64, rebuilt: bool },
    /// A piece of the model's text.
    LlmTextDelta { step: u32, text: String, agent_id: Option<String> },
    /// The text that takes the place of what was shown.
    LlmTextReplace { step: u32, text: String },
    /// The model has finished its turn.
    LlmDecisionComplete { step: u32 },
    /// An estimate was compared with what the provider counted.
    EstimatorCalibrated {
        step: u32,
        estimated_prompt_tokens: u64,
        prompt_tokens: u64,
        model_id: String,
    },
    /// The provider read much less from its cache than before.
    CacheBreakDetected { step: u32, tokens_lost: u64, component_changed: Vec<String> },
    /// A cut-off answer is asked for again with a larger limit.
    OutputSlotEscalated {
        step: u32,
        initial_max_tokens: u64,
        escalated_max_tokens: u64,
        model_id: String,
    },
    /// A cut-off answer cannot be asked for again.
    OutputSlotEscalationUnsupported { step: u32, model_id: String, provider: String },
    /// What the turn's tool results come to.
    ToolBudgetCheck { step: u32, per_turn_tool_tokens: u64, exceeded: bool },
    /// What one model call used.
    TokenUsage {
        step: u32,
        prompt_tokens: u64,
        output_tokens: u64,
        total_tokens: u64,
        model_id: Option<String>,
        cache_creation_input_tokens: u64,
        cache_read_input_tokens: u64,
        is_compaction: bool,
    },
    /// One turn of the loop is done.
    StepComplete { step: u32 },
}

#[verifier::ext_equal]
pub enum EventView {
    ToolStart {
        step: u32,
        tool_name: Seq<char>,
        args_summary: Option<Seq<char>>,
        agent_id: Option<Seq<char>>,
    },
    ToolEnd {
        step: u32,
        tool_name: Seq<char>,
        elapsed_ms: Option<u64>,
        result_summary: Option<Seq<char>>,
        agent_id: Option<Seq<char>>,
    },
    CompactTriggered { step: u32, estimated_tokens: u64 },
    ReactiveCompactTriggered { step: u32, detail: Seq<char> },
    CompactComplete { step: u32, llm_succeeded: bool, elapsed_ms: u64 },
    ReasoningContentStripped { step: u32, messages_stripped: u32 },
    AutoCompactSummarizerCalled {
        step: u32,
        prompt_tokens: u64,
        output_tokens: u64,
        succeeded: bool,
        drop_oldest_retries: u32,
    },
    AutoCompactCircuitBreakerTripped { step: u32, consecutive_failures: u32 },
    TimeBasedMicrocompactRan { step: u32, gap_minutes: u64, freed_tokens: u64 },
    MidCompactLayer1Ran { step: u32, messages_collapsed: usize },
    MidCompactLayer2Ran { step: u32, messages_replaced: usize },
    ToolSchemaFrozen { step: u32, hash: u64, rebuilt: bool },
    LlmTextDelta { step: u32, text: Seq<char>, agent_id: Option<Seq<char>> },
    LlmTextReplace { step: u32, text: Seq<char> },
    LlmDecisionComplete { step: u32 },
    EstimatorCalibrated {
        step: u32,
        estimated_prompt_tokens: u64,
        prompt_tokens: u64,
        model_id: Seq<char>,
    },
    CacheBreakDetected { step: u32, tokens_lost: u64, component_changed: Seq<Seq<char>> },
    OutputSlotEscalated {
        step: u32,
        initial_max_tokens: u64,
        escalated_max_tokens: u64,
        model_id: Seq<char>,
    },
    OutputSlotEscalationUnsupported { step: u32, model_id: Seq<char>, provider: Seq<char> },
    ToolBudgetCheck { step: u32, per_turn_tool_tokens: u64, exceeded: bool },
    TokenUsage {
        step: u32,
        prompt_tokens: u64,
        output_tokens: u64,
        total_tokens: u64,
        model_id: Option<Seq<char>>,
        cache_creation_input_tokens: u64,
        cache_read_input_tokens: u64,
        is_compaction: bool,
    },
    StepComplete { step: u32 },
}

impl View for LoopEvent {
    type V = EventView;

    open spec fn view(&self) -> EventView {
        match self {
            LoopEvent::ToolStart { step, tool_name, args_summary, agent_id } => EventView::ToolStart {
                step: *step,
                tool_name: tool_name@,
                args_summary: opt_view(*args_summary),
                agent_id: opt_view(*agent_id),
            },
            LoopEvent::ToolEnd { step, tool_name, elapsed_ms, result_summary, agent_id } => EventView::ToolEnd {
                step: *step,
                tool_name: tool_name@,
                elapsed_ms: *elapsed_ms,
                result_summary: opt_view(*result_summary),
                agent_id: opt_view(*agent_id),
            },
            LoopEvent::CompactTriggered { step, estimated_tokens } => EventView::CompactTriggered {
                step: *step,
                estimated_tokens: *estimated_tokens,
            },
            LoopEvent::ReactiveCompactTriggered { step, detail } => EventView::ReactiveCompactTriggered {
                step: *step,
                detail: detail@,
            },
            LoopEvent::CompactComplete { step, llm_succeeded, elapsed_ms } => EventView::CompactComplete {
                step: *step,
                llm_succeeded: *llm_succeeded,
                elapsed_ms: *elapsed_ms,
            },
            LoopEvent::ReasoningContentStripped { step, messages_stripped } => EventView::ReasoningContentStripped {
                step: *step,
                messages_stripped: *messages_stripped,
            },
            LoopEvent::AutoCompactSummarizerCalled { step, prompt_tokens, output_tokens, succeeded, drop_oldest_retries } => EventView::AutoCompactSummarizerCalled {
                step: *step,
                prompt_tokens: *prompt_tokens,
                output_tokens: *output_tokens,
                succeeded: *succeeded,
                drop_oldest_retries: *drop_oldest_retries,
            },
            LoopEvent::AutoCompactCircuitBreakerTripped { step, consecutive_failures } => EventView::AutoCompactCircuitBreakerTripped {
                step: *step,
                consecutive_failures: *consecutive_failures,
            },
            LoopEvent::TimeBasedMicrocompactRan { step, gap_minutes, freed_tokens } => EventView::TimeBasedMicrocompactRan {
                step: *step,
                gap_minutes: *gap_minutes,
                freed_tokens: *freed_tokens,
            },
            LoopEvent::MidCompactLayer1Ran { step, messages_collapsed } => EventView::MidCompactLayer1Ran {
                step: *step,
                messages_collapsed: *messages_collapsed,
            },
            LoopEvent::MidCompactLayer2Ran { step, messages_replaced } => EventView::MidCompactLayer2Ran {
                step: *step,
                messages_replaced: *messages_replaced,
            },
            LoopEvent::ToolSchemaFrozen { step, hash, rebuilt } => EventView::ToolSchemaFrozen {
                step: *step,
                hash: *hash,
                rebuilt: *rebuilt,
            },
            LoopEvent::LlmTextDelta { step, text, agent_id } => EventView::LlmTextDelta {
                step: *step,
                text: text@,
                agent_id: opt_view(*agent_id),
            },
            LoopEvent::LlmTextReplace { step, text } => EventView::LlmTextReplace {
                step: *step,
                text: text@,
            },
            LoopEvent::LlmDecisionComplete { step } => EventView::LlmDecisionComplete {
                step: *step,
            },
            LoopEvent::EstimatorCalibrated { step, estimated_prompt_tokens, prompt_tokens, model_id } => EventView::EstimatorCalibrated {
                step: *step,
                estimated_prompt_tokens: *estimated_prompt_tokens,
                prompt_tokens: *prompt_tokens,
                model_id: model_id@,
            },
            LoopEvent::CacheBreakDetected { step, tokens_lost, component_changed } => EventView::CacheBreakDetected {
                step: *step,
                tokens_lost: *tokens_lost,
                component_changed: views(component_changed@),
            },
            LoopEvent::OutputSlotEscalated { step, initial_max_tokens, escalated_max_tokens, model_id } => EventView::OutputSlotEscalated {
                step: *step,
                initial_max_tokens: *initial_max_tokens,
                escalated_max_tokens: *escalated_max_tokens,
                model_id: model_id@,
            },
            LoopEvent::OutputSlotEscalationUnsupported { step, model_id, provider } => EventView::OutputSlotEscalationUnsupported {
                step: *step,
                model_id: model_id@,
                provider: provider@,
            },
            LoopEvent::ToolBudgetCheck { step, per_turn_tool_tokens, exceeded } => EventView::ToolBudgetCheck {
                step: *step,
                per_turn_tool_tokens: *per_turn_tool_tokens,
                exceeded: *exceeded,
            },
            LoopEvent::TokenUsage { step, prompt_tokens, output_tokens, total_tokens, model_id, cache_creation_input_tokens, cache_read_input_tokens, is_compaction } => EventView::TokenUsage {
                step: *step,
                prompt_tokens: *prompt_tokens,
                output_tokens: *output_tokens,
                total_tokens: *total_tokens,
                model_id: opt_view(*model_id),
                cache_creation_input_tokens: *cache_creation_input_tokens,
                cache_read_input_tokens: *cache_read_input_tokens,
                is_compaction: *is_compaction,
            },
            LoopEvent::StepComplete { step } => EventView::StepComplete {
                step: *step,
            },
        }
    }
}

pub open spec fn events_view(events: Seq<LoopEvent>) -> Seq<EventView> {
    events.map_values(|e: LoopEvent| e@)
}

/// Adds an event at the end.
pub fn emit(events: &mut Vec<LoopEvent>, event: LoopEvent)
    ensures
        events_view(final(events)@) == events_view(old(events)@).push(event@),
{
    assert(events_view(events@.push(event)) =~= events_view(events@).push(event@));
    events.push(event);
}

/// The event on what one model call used.
pub open spec fn usage_event(
    step: u32,
    prompt_tokens: u64,
    output_tokens: u64,
    model_id: Option<Seq<char>>,
    cache_creation_input_tokens: u64,
    cache_read_input_tokens: u64,
    is_compaction: bool,
) -> EventView {
    EventView::TokenUsage {
        step,
        prompt_tokens,
        output_tokens,
        total_tokens: if prompt_tokens + output_tokens > u64::MAX {
            u64::MAX
        } else {
            (prompt_tokens + output_tokens) as u64
        },
        model_id,
        cache_creation_input_tokens,
        cache_read_input_tokens,
        is_compaction,
    }
}

/// Tells what one model call used.
pub fn emit_token_usage(
    events: &mut Vec<LoopEvent>,
    step: u32,
    prompt_tokens: u64,
    output_tokens: u64,
    model_id: Option<&str>,
    cache_creation_input_tokens: u64,
    cache_read_input_tokens: u64,
    is_compaction: bool,
)
    ensures
        events_view(final(events)@) == events_view(old(events)@).push(
            usage_event(
                step,
                prompt_tokens,
                output_tokens,
                opt_str_view(model_id),
                cache_creation_input_tokens,
                cache_read_input_tokens,
                is_compaction,
            ),
        ),
{
    let model: Option<String> = match model_id {
        Some(m) => Some(m.to_owned()),
        None => None,
    };
    emit(
        events,
        LoopEvent::TokenUsage {
            step,
            prompt_tokens,
            output_tokens,
            total_tokens: prompt_tokens.saturating_add(output_tokens),
            model_id: model,
            cache_creation_input_tokens,
            cache_read_input_tokens,
            is_compaction,
        },
    );
}

} // verus!
