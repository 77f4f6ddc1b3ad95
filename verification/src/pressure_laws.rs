//! What the counts around a model call promise.

use crate::attempt::{
    cache_cold, committed_after, cut_off, escalation, escalation_events, mid_events, mid_water,
    pair_of, response_events, session_summary, shown_text, CommittedView, Escalation, ModelResponse,
    PreCall,
};
use crate::cache_break::{
    block_texts, changed_components, definition_texts, is_break, DetectorView, FingerprintView,
    ReportView, SystemPromptBlock, ToolDefinition,
};
use crate::compact::MidCompactOutcome;
use crate::estimate::{cjk, high_count, skip_gaps, structured, text_tokens, turn_tool_tokens};
use crate::events::EventView;
use crate::message::MessageView;
use crate::number::decimal;
use crate::pressure::{raw_estimate, total, CommittedBaseline, PromptTokenEstimate};
use crate::state::LoopState;
use crate::text::{contains, starts_with};
use crate::text_laws::{lemma_begins, lemma_holds};
use vstd::prelude::*;
use vstd::utf8::encode_utf8;

verus! {

/// The estimate of a text is its bytes divided by two where it is structured, by three
/// where at least half of its first 256 bytes are not ASCII, and by four otherwise,
/// rounded up.
pub proof fn law_tokens_by_bytes(s: Seq<char>)
    ensures
        ({
            let n = encode_utf8(s).len() as int;
            let t = text_tokens(s) as int;
            &&& n == 0 ==> t == 0
            &&& n > 0 && structured(encode_utf8(s)) ==> 2 * t >= n > 2 * (t - 1)
            &&& n > 0 && !structured(encode_utf8(s)) && cjk(encode_utf8(s)) ==> 3 * t >= n > 3 * (t
                - 1)
            &&& n > 0 && !structured(encode_utf8(s)) && !cjk(encode_utf8(s)) ==> 4 * t >= n > 4 * (t
                - 1)
        }),
{
}

/// A text that begins with a brace is structured, and so is an array or a tag; a text
/// that begins with a letter is not.
pub proof fn law_structured_texts(bytes: Seq<u8>, rest: Seq<u8>)
    ensures
        structured(seq![0x7Bu8] + rest),
        structured(seq![0x5Bu8, 0x22u8] + rest),
        structured(seq![0x5Bu8, 0x7Bu8] + rest),
        structured(seq![0x3Cu8, 0x61u8] + rest),
        bytes.len() > 0 && 0x61 <= bytes[0] <= 0x7A ==> !structured(bytes),
        bytes.len() > 0 && 0x41 <= bytes[0] <= 0x5A ==> !structured(bytes),
        !structured(seq![]),
{
    reveal_with_fuel(crate::estimate::skip_gaps, 2);
    let object = seq![0x7Bu8] + rest;
    assert(object[0] == 0x7Bu8);
    let texts = seq![0x5Bu8, 0x22u8] + rest;
    assert(texts[0] == 0x5Bu8 && texts.skip(1)[0] == 0x22u8);
    let objects = seq![0x5Bu8, 0x7Bu8] + rest;
    assert(objects[0] == 0x5Bu8 && objects.skip(1)[0] == 0x7Bu8);
    let tag = seq![0x3Cu8, 0x61u8] + rest;
    assert(tag[0] == 0x3Cu8 && tag.skip(1)[0] == 0x61u8);
}

/// Half of the sampled bytes decide what counts as dense text.
pub proof fn law_dense_texts(bytes: Seq<u8>)
    ensures
        0 < bytes.len() <= 256 ==> (cjk(bytes) <==> 2 * high_count(bytes) >= bytes.len()),
        bytes.len() > 256 ==> (cjk(bytes) <==> 2 * high_count(bytes.take(256)) >= 256),
        bytes.len() == 0 ==> !cjk(bytes),
{
    if bytes.len() <= 256 {
        assert(bytes.take(bytes.len() as int) =~= bytes);
    }
}

/// The results of a turn's own calls are counted, each with its own tokens, and no
/// others.
pub proof fn law_turn_tokens(
    messages: Seq<MessageView>,
    ids: Seq<Seq<char>>,
    id: Seq<char>,
    content: Seq<char>,
    is_error: bool,
    other: MessageView,
)
    ensures
        turn_tool_tokens(seq![], ids) == 0,
        ids.contains(id) ==> turn_tool_tokens(
            messages.push(MessageView::ToolResult { tool_use_id: id, content, is_error }),
            ids,
        ) == turn_tool_tokens(messages, ids) + text_tokens(content),
        !ids.contains(id) ==> turn_tool_tokens(
            messages.push(MessageView::ToolResult { tool_use_id: id, content, is_error }),
            ids,
        ) == turn_tool_tokens(messages, ids),
        !(other is ToolResult) ==> turn_tool_tokens(messages.push(other), ids) == turn_tool_tokens(
            messages,
            ids,
        ),
{
    let result = MessageView::ToolResult { tool_use_id: id, content, is_error };
    assert(messages.push(result).drop_last() =~= messages);
    assert(messages.push(other).drop_last() =~= messages);
}

/// Each message adds four tokens of framing, and what the provider has counted already
/// is not counted again.
pub proof fn law_prompt_parts(
    counts: Seq<u64>,
    system: u64,
    schema: u64,
    b: CommittedBaseline,
)
    requires
        counts.len() < 0x1000_0000,
        total(counts) < 0x1000_0000_0000,
    ensures
        ({
            let fresh = raw_estimate(counts, Some(system), Some(schema), None);
            let known = raw_estimate(counts, Some(system), Some(schema), Some(b));
            &&& fresh.system_tokens == system
            &&& fresh.tool_schema_tokens == schema
            &&& fresh.message_tokens == total(counts)
            &&& fresh.framing_tokens == 4 * counts.len()
            &&& fresh.committed_baseline_tokens == 0
            &&& b.input_tokens > 0 && counts.len() >= b.message_count ==> {
                &&& known.committed_baseline_tokens == b.input_tokens
                &&& known.system_tokens == 0
                &&& known.tool_schema_tokens == 0
                &&& known.framing_tokens == 4 * (counts.len() - b.message_count)
                &&& known.message_tokens == total(counts.skip(b.message_count as int))
            }
            &&& b.input_tokens == 0 || counts.len() < b.message_count ==> known == fresh
        }),
{
    lemma_total_tail(counts, b.message_count as int);
}

proof fn lemma_total_tail(counts: Seq<u64>, from: int)
    ensures
        0 <= from <= counts.len() ==> total(counts.skip(from)) <= total(counts),
    decreases counts.len(),
{
    if 0 <= from < counts.len() {
        lemma_total_tail(counts.drop_last(), from);
        assert(counts.skip(from).drop_last() =~= counts.drop_last().skip(from));
        assert(counts.skip(from).last() == counts.last());
    } else if from == counts.len() {
        assert(counts.skip(from) =~= seq![]);
    }
}

/// A baseline is for the same prompt, the same tools and the same model, and only where
/// the provider counted something.
pub proof fn law_baseline_validity(
    b: CommittedBaseline,
    system: u64,
    schema: u64,
    model: Option<Seq<char>>,
)
    ensures
        b.valid_for(system, schema, model) <==> b.input_tokens != 0 && b.system_prompt_bytes
            == system && b.tool_schema_bytes_len == schema && crate::text::opt_view(b.model_id)
            == model,
{
}

/// The cache counts as cold after more than five minutes without a call, and not before
/// the first call.
pub proof fn law_cold_cache(last: u64, now: u64)
    ensures
        cache_cold(Some(last), now) <==> now > last + 300000,
        !cache_cold(None, now),
{
}

/// The middle tier begins at three fifths of the window.
pub proof fn law_mid_water(window: u64, estimate: int)
    ensures
        estimate > mid_water(window) <==> 100 * estimate >= 60 * window + 100 - (60 * window) % 100,
        5 * mid_water(window) <= 3 * window < 5 * (mid_water(window) + 1),
{
    assert(window * 60 == 60 * window);
}

/// A stored summary is used once in a run, and only for a session that has a name.
pub proof fn law_stored_summary(state: LoopState, found: Option<Seq<char>>)
    ensures
        session_summary(state, found) is Some ==> session_summary(state, found) == found
            && !state.layer2_lookup_attempted_this_run && state.session_id@.len() > 0,
        !state.layer2_lookup_attempted_this_run && state.session_id@.len() > 0 ==> session_summary(
            state,
            found,
        ) == found,
{
}

/// The middle tier tells which of its layers ran, and of how many messages.
pub proof fn law_mid_events(step: u32, n: usize)
    ensures
        mid_events(step, MidCompactOutcome::Layer2 { messages_replaced: n }) == seq![
            EventView::MidCompactLayer2Ran { step, messages_replaced: n },
        ],
        mid_events(step, MidCompactOutcome::Layer1 { messages_collapsed: n }) == seq![
            EventView::MidCompactLayer1Ran { step, messages_collapsed: n },
        ],
        mid_events(step, MidCompactOutcome::Noop).len() == 0,
{
}

/// What the provider counted for a call is kept with everything that it counted; a call
/// without a count leaves what was known.
pub proof fn law_committed_counts(
    before: Option<CommittedView>,
    pre: PreCall,
    schema_bytes: u64,
    schema_hash: u64,
    prompt_tokens: u64,
    model: Seq<char>,
)
    ensures
        ({
            let after = committed_after(
                before,
                pre,
                schema_bytes,
                schema_hash,
                prompt_tokens,
                model,
            );
            &&& prompt_tokens == 0 ==> after == before
            &&& prompt_tokens > 0 ==> {
                &&& after is Some
                &&& after->0.input_tokens == prompt_tokens
                &&& after->0.message_count == pre.message_count
                &&& after->0.system_prompt_bytes == pre.surface.system_prompt_bytes
                &&& after->0.system_prompt_hash == pre.surface.system_prompt_hash
                &&& after->0.prefix_messages_hash == pre.prefix_messages_hash
                &&& after->0.tool_schema_bytes_len == schema_bytes
                &&& after->0.tool_schema_hash == schema_hash
                &&& after->0.model_id == Some(model)
            }
        }),
{
}

/// The estimator is held against what the provider counted beyond the part that was
/// known.
pub proof fn law_calibration_pair(estimate: PromptTokenEstimate, observed: u64)
    ensures
        estimate.raw_total_tokens >= estimate.committed_baseline_tokens ==> pair_of(
            estimate,
            observed,
        ).0 == estimate.raw_total_tokens - estimate.committed_baseline_tokens,
        observed >= estimate.committed_baseline_tokens ==> pair_of(estimate, observed).1 == observed
            - estimate.committed_baseline_tokens,
        observed < estimate.committed_baseline_tokens ==> pair_of(estimate, observed).1 == 0,
{
}

/// What was streamed is the text of the turn; the whole output stands in where nothing
/// was streamed.
pub proof fn law_shown_text(streamed: Seq<char>, output: Seq<char>)
    ensures
        streamed.len() > 0 ==> shown_text(streamed, output) == streamed,
        shown_text(seq![], output) == output,
{
}

/// What is told of a response: its text where it was not streamed, that the model has
/// decided, and what the call took; each count is the provider's.
pub proof fn law_response_is_told(
    step: u32,
    streamed: Seq<char>,
    response: ModelResponse,
    pre: PreCall,
    detector: DetectorView,
)
    ensures
        ({
            let told = response_events(step, streamed, response, pre, detector);
            let text = if streamed.len() == 0 && response.output@.len() > 0 {
                1int
            } else {
                0int
            };
            &&& text == 1 ==> told[0] == (EventView::LlmTextDelta {
                step,
                text: response.output@,
                agent_id: None,
            })
            &&& told[text] == (EventView::LlmDecisionComplete { step })
            &&& told[text + 1] matches EventView::TokenUsage {
                step: s,
                prompt_tokens,
                output_tokens,
                total_tokens,
                model_id,
                cache_creation_input_tokens,
                cache_read_input_tokens,
                is_compaction,
            } && s == step && prompt_tokens == response.prompt_tokens && output_tokens
                == response.output_tokens && model_id == Some(response.model_id@)
                && cache_creation_input_tokens == response.cache_creation_input_tokens
                && cache_read_input_tokens == response.cache_read_input_tokens && !is_compaction
                && (response.prompt_tokens + response.output_tokens <= u64::MAX ==> total_tokens
                == response.prompt_tokens + response.output_tokens)
            &&& told[text + 2] == (EventView::EstimatorCalibrated {
                step,
                estimated_prompt_tokens: pre.estimate.total_tokens,
                prompt_tokens: response.prompt_tokens,
                model_id: response.model_id@,
            })
            &&& told.len() == text + 3 || told.len() == text + 4
            &&& told.len() == text + 4 <==> detector.report(
                response.cache_read_input_tokens,
                response.model_id@,
                response.provider@,
            ) is Some
        }),
{
}

/// A response was cut off where the provider says so, in either of its two words.
pub proof fn law_cut_off_responses(reason: Option<Seq<char>>)
    ensures
        cut_off(Some("max_tokens"@)),
        cut_off(Some("length"@)),
        !cut_off(None),
        cut_off(reason) ==> reason == Some("max_tokens"@) || reason == Some("length"@),
{
}

/// A response that was cut off is asked for again with the model's ceiling, where that is
/// more than was asked for and the provider can be told. Any other response is kept.
pub proof fn law_escalation(
    reason: Option<Seq<char>>,
    supports_cap: bool,
    ceiling: Option<u64>,
    initial: u64,
)
    ensures
        ({
            let decision = escalation(reason, supports_cap, ceiling, initial);
            let cut = reason == Some("max_tokens"@) || reason == Some("length"@);
            &&& !cut ==> decision is Keep
            &&& cut && !supports_cap ==> decision is Unsupported
            &&& decision matches Escalation::Retry { max_tokens } ==> cut && supports_cap && ceiling
                == Some(max_tokens) && max_tokens > initial
            &&& cut && supports_cap && ceiling is Some && ceiling->0 > initial ==> decision is Retry
        }),
{
}

/// What is told of an escalation names both limits and the model.
pub proof fn law_escalation_is_told(
    step: u32,
    response: ModelResponse,
    initial: u64,
    max_tokens: u64,
    hash: u64,
)
    ensures
        escalation_events(step, Escalation::Keep, response, initial, hash).len() == 0,
        escalation_events(step, Escalation::Retry { max_tokens }, response, initial, hash)[0] == (
        EventView::OutputSlotEscalated {
            step,
            initial_max_tokens: initial,
            escalated_max_tokens: max_tokens,
            model_id: response.model_id@,
        }),
        escalation_events(step, Escalation::Unsupported, response, initial, hash) == seq![
            EventView::OutputSlotEscalationUnsupported {
                step,
                model_id: response.model_id@,
                provider: response.provider@,
            },
        ],
{
}

/// The cache is broken where more than 2000 tokens and more than a twentieth of what was
/// cached are gone.
pub proof fn law_break_threshold(previous: u64, current: u64)
    ensures
        is_break(previous, current) <==> previous - current > 2000 && 20 * (previous - current)
            > previous,
{
}

/// A report gives the counts before and after, and what was lost between them.
pub proof fn law_report_counts(
    detector: DetectorView,
    tokens: u64,
    model: Seq<char>,
    provider: Seq<char>,
)
    ensures
        detector.report(tokens, model, provider) matches Some(report) ==> {
            &&& detector.previous_cache_read_tokens == Some(report.previous_tokens)
            &&& report.current_tokens == tokens
            &&& report.previous_tokens == tokens + report.tokens_lost
            &&& report.tokens_lost > 2000
            &&& report.model_id == model
            &&& report.provider == provider
            &&& detector.current_fingerprint is Some
        },
        detector.current_fingerprint is Some && !detector.compaction_pending
            && detector.previous_cache_read_tokens is Some && is_break(
            detector.previous_cache_read_tokens->0,
            tokens,
        ) ==> detector.report(tokens, model, provider) is Some,
{
}

/// What changed is named: the system prompt, the tools, the model from which to which;
/// where none of them did, that is said.
pub proof fn law_changed_components(p: FingerprintView, c: FingerprintView)
    ensures
        ({
            let found = changed_components(Some(p), c);
            let model = "model ("@ + p.model + " -> "@ + c.model + ")"@;
            &&& p.system_hash != c.system_hash ==> found[0] == "system_prompt"@
            &&& p.system_hash == c.system_hash && p.tools_hash != c.tools_hash ==> found[0]
                == "tool_schema"@
            &&& p.system_hash != c.system_hash && p.tools_hash != c.tools_hash ==> found[1]
                == "tool_schema"@
            &&& p.model != c.model ==> found.last() == model
            &&& p.system_hash == c.system_hash && p.tools_hash == c.tools_hash && p.model == c.model
                ==> found == seq!["unknown (fingerprint unchanged; likely message-level change)"@]
            &&& (p.system_hash != c.system_hash && p.tools_hash == c.tools_hash && p.model
                == c.model) ==> found.len() == 1
            &&& (p.system_hash == c.system_hash && p.tools_hash != c.tools_hash && p.model
                == c.model) ==> found.len() == 1
            &&& changed_components(None, c) == seq![
                "unknown (fingerprint unchanged; likely message-level change)"@,
            ]
        }),
{
    let found = changed_components(Some(p), c);
    let none = Seq::<Seq<char>>::empty();
    if p.system_hash == c.system_hash && p.tools_hash == c.tools_hash && p.model == c.model {
        assert(none + none + none =~= none);
    }
}

/// What a fingerprint is made of: every block's name and text, and of every tool its
/// name, its description and its parameters, in their order.
pub proof fn law_fingerprinted_texts(
    blocks: Seq<SystemPromptBlock>,
    block: SystemPromptBlock,
    tools: Seq<ToolDefinition>,
    tool: ToolDefinition,
)
    ensures
        block_texts(blocks.push(block)) == block_texts(blocks) + seq![block.id@, block.content@],
        definition_texts(tools.push(tool)) == definition_texts(tools) + seq![
            tool.name@,
            tool.description@,
            tool.parameters@,
        ],
        block_texts(seq![]).len() == 0,
        definition_texts(seq![]).len() == 0,
{
    assert(blocks.push(block).drop_last() =~= blocks);
    assert(tools.push(tool).drop_last() =~= tools);
    assert(block_texts(blocks.push(block)) =~= block_texts(blocks) + seq![
        block.id@,
        block.content@,
    ]);
    assert(definition_texts(tools.push(tool)) =~= definition_texts(tools) + seq![
        tool.name@,
        tool.description@,
        tool.parameters@,
    ]);
}

/// The sentence on a broken cache gives the counts, the provider and the model.
pub proof fn law_break_sentence(r: ReportView, percent: Seq<char>)
    ensures
        starts_with(
            r.sentence(percent),
            "cache_read_input_tokens dropped from "@ + decimal(r.previous_tokens as nat) + " to "@
                + decimal(r.current_tokens as nat) + " ("@ + percent + "% drop, "@ + decimal(
                r.tokens_lost as nat,
            ) + " tokens lost)"@,
        ),
        contains(r.sentence(percent), "provider: "@ + r.provider + ", model: "@ + r.model_id),
{
    let front = "cache_read_input_tokens dropped from "@ + decimal(r.previous_tokens as nat)
        + " to "@ + decimal(r.current_tokens as nat) + " ("@ + percent + "% drop, "@ + decimal(
        r.tokens_lost as nat,
    );
    reveal_strlit(" tokens lost); provider: ");
    reveal_strlit(" tokens lost)");
    reveal_strlit("provider: ");
    assert(" tokens lost); provider: "@ =~= " tokens lost)"@ + seq![';', ' '] + "provider: "@);
    let who = "provider: "@ + r.provider + ", model: "@ + r.model_id;
    assert(r.sentence(percent) =~= (front + " tokens lost)"@) + (seq![';', ' '] + who));
    lemma_begins(front + " tokens lost)"@, seq![';', ' '] + who);
    lemma_holds(front + " tokens lost)"@ + seq![';', ' '], who, seq![]);
    assert(r.sentence(percent) =~= front + " tokens lost)"@ + seq![';', ' '] + who + seq![]);
}

/// White space of JSON and of tags.
pub open spec fn all_gaps(bytes: Seq<u8>) -> bool {
    forall|i: int|
        0 <= i < bytes.len() ==> #[trigger] bytes[i] == 0x20 || bytes[i] == 0x09 || bytes[i] == 0x0D
            || bytes[i] == 0x0A
}

proof fn lemma_gaps_skipped(gaps: Seq<u8>, rest: Seq<u8>)
    requires
        all_gaps(gaps),
        rest.len() > 0 ==> !all_gaps(seq![rest[0]]),
    ensures
        skip_gaps(gaps + rest) == rest,
    decreases gaps.len(),
{
    if gaps.len() > 0 {
        assert(gaps[0] == (gaps + rest)[0]);
        assert((gaps + rest).skip(1) =~= gaps.skip(1) + rest);
        lemma_gaps_skipped(gaps.skip(1), rest);
    } else {
        assert(gaps + rest =~= rest);
        if rest.len() > 0 {
            assert(seq![rest[0]][0] == rest[0]);
            if crate::estimate::is_gap(rest[0]) {
                assert(all_gaps(seq![rest[0]]));
            }
        }
    }
}

/// The first two bytes that are no white space tell structured text: an opening brace
/// alone does; an opening bracket does before a quote, a bracket, a brace or a digit; an
/// opening angle bracket does before a slash, `!`, `?` or a letter. Nothing else does.
pub proof fn law_structured_by_first_bytes(
    gaps: Seq<u8>,
    first: u8,
    inner: Seq<u8>,
    next: u8,
    rest: Seq<u8>,
)
    requires
        all_gaps(gaps),
        all_gaps(inner),
        !all_gaps(seq![first]),
        !all_gaps(seq![next]),
    ensures
        structured(gaps + (seq![first] + (inner + (seq![next] + rest)))) <==> {
            ||| first == 0x7B
            ||| first == 0x5B && (next == 0x22 || next == 0x7B || next == 0x5B || next == 0x5D
                || 0x30 <= next <= 0x39)
            ||| first == 0x3C && (next == 0x2F || next == 0x21 || next == 0x3F || 0x61 <= next
                <= 0x7A || 0x41 <= next <= 0x5A)
        },
        structured(gaps + (seq![first] + inner)) <==> first == 0x7B,
        !structured(gaps),
{
    let tail = seq![next] + rest;
    let body = seq![first] + (inner + tail);
    assert(tail[0] == next);
    assert(body[0] == first);
    lemma_gaps_skipped(gaps, body);
    assert(body.skip(1) =~= inner + tail);
    lemma_gaps_skipped(inner, tail);
    let alone = seq![first] + inner;
    let none = Seq::<u8>::empty();
    assert(alone[0] == first);
    lemma_gaps_skipped(gaps, alone);
    assert(alone.skip(1) =~= inner + none);
    lemma_gaps_skipped(inner, none);
    assert(gaps + none =~= gaps);
    lemma_gaps_skipped(gaps, none);
}

} // verus!
