//! Compaction of a loop's history.

use crate::bytes::{byte_len, cut_text, ellipsized, lemma_floor, prefix_within, truncate};
use crate::digest::{flatten_text, flattened};
use crate::json::{Json, JsonField, JsonView};
use crate::json_build::{
    field, fields_view, number, number_value, object_value, push_field, text_value,
};
use crate::json_text::{json_text, render_json};
use crate::number::{decimal, push_decimal};
use crate::observation::{
    boundary_step, steps_view, StepObservation, StepObservationView, StepRecord, StepView,
};
use crate::pressure::total;
use crate::split::{join_text, lemma_views_push};
use crate::state::LoopState;
use crate::text::{chars_of, join, opt_str_view, string_from, trim, views};
use crate::trim::trim_text;
use vstd::prelude::*;

verus! {

/// How the history is compacted, and what the model that summarizes it may cost.
#[derive(Debug, Clone, Copy, PartialEq, Eq, Structural)]
pub struct CompactConfig {
    pub retain_tail_steps: usize,
    pub working_summary_max_chars: usize,
    pub llm_expected_output_tokens: u64,
    pub llm_budget_tokens_remaining: u64,
    /// In millionths of a dollar.
    pub llm_budget_cost_remaining_micro_usd: u64,
}

impl Default for CompactConfig {
    fn default() -> (r: Self)
        ensures
            r == (CompactConfig {
                retain_tail_steps: 8,
                working_summary_max_chars: 4_000,
                llm_expected_output_tokens: 2_048,
                llm_budget_tokens_remaining: 100_000,
                llm_budget_cost_remaining_micro_usd: 2_000_000,
            }),
    {
        CompactConfig {
            retain_tail_steps: 8,
            working_summary_max_chars: 4_000,
            llm_expected_output_tokens: 2_048,
            llm_budget_tokens_remaining: 100_000,
            llm_budget_cost_remaining_micro_usd: 2_000_000,
        }
    }
}

/// The message of an observation.
pub open spec fn observed_message(observation: StepObservationView) -> Seq<char> {
    match observation {
        StepObservationView::Tool(t) => t.message,
        StepObservationView::AskUser { final_message } => final_message,
        StepObservationView::FinalMessage { final_message } => final_message,
    }
}

fn message_of(observation: &StepObservation) -> (r: &str)
    ensures
        r@ == observed_message(observation@),
{
    match observation {
        StepObservation::Tool(t) => t.message.as_str(),
        StepObservation::AskUser { final_message } => final_message.as_str(),
        StepObservation::FinalMessage { final_message } => final_message.as_str(),
    }
}

/// What came of a step, with that much detail.
pub open spec fn outcome_with(observation: StepObservationView, detail: Seq<char>) -> Seq<char> {
    match observation {
        StepObservationView::Tool(t) => {
            let status = if t.ok {
                "ok"@
            } else {
                "error"@
            };
            if detail.len() == 0 {
                status
            } else {
                status + ": "@ + detail
            }
        },
        StepObservationView::AskUser { .. } => "ask_user: "@ + detail,
        StepObservationView::FinalMessage { .. } => "final: "@ + detail,
    }
}

fn outcome_of(observation: &StepObservation, detail: &str) -> (r: String)
    ensures
        r@ == outcome_with(observation@, detail@),
{
    let mut out: String = match observation {
        StepObservation::Tool(t) => {
            let status: &str = if t.ok {
                "ok"
            } else {
                "error"
            };
            if detail.is_empty() {
                return status.to_owned();
            }
            let mut out: String = status.to_owned();
            out.append(": ");
            out
        },
        StepObservation::AskUser { .. } => "ask_user: ".to_owned(),
        StepObservation::FinalMessage { .. } => "final: ".to_owned(),
    };
    out.append(detail);
    out
}

/// What came of a step, in a few words.
pub open spec fn outcome_text(observation: Option<StepObservationView>, max: int) -> Seq<char> {
    match observation {
        Some(seen) => outcome_with(seen, ellipsized(observed_message(seen), max)),
        None => "no observation"@,
    }
}

pub fn step_outcome_text(step: &StepRecord, max_detail_chars: usize) -> (r: String)
    ensures
        r@ == outcome_text(step@.observation, max_detail_chars as int),
{
    match &step.observation {
        Some(seen) => {
            let detail: String = truncate(message_of(seen), max_detail_chars);
            outcome_of(seen, detail.as_str())
        },
        None => "no observation".to_owned(),
    }
}

/// What a digest tells of one outcome has at most this many characters.
pub const OUTCOME_CHARS: usize = 200;

/// A message on one line, cut and marked with an ellipsis where it is too long.
pub open spec fn outcome_detail(message: Seq<char>) -> Seq<char> {
    let line = flattened(message);
    if line.len() <= OUTCOME_CHARS {
        line
    } else {
        line.take(OUTCOME_CHARS - 1) + "…"@
    }
}

/// What came of a step, on one line.
pub open spec fn outcome_line(observation: Option<StepObservationView>) -> Seq<char> {
    match observation {
        Some(seen) => outcome_with(seen, outcome_detail(observed_message(seen))),
        None => "no observation"@,
    }
}

fn outcome_line_text(step: &StepRecord) -> (r: String)
    ensures
        r@ == outcome_line(step@.observation),
{
    match &step.observation {
        Some(seen) => {
            let line: String = flatten_text(message_of(seen));
            let chars: Vec<char> = chars_of(line.as_str());
            if chars.len() <= OUTCOME_CHARS {
                return outcome_of(seen, line.as_str());
            }
            let mut detail: String = string_from(&chars, 0, OUTCOME_CHARS - 1);
            detail.append("…");
            outcome_of(seen, detail.as_str())
        },
        None => "no observation".to_owned(),
    }
}

/// The tool of a step.
pub open spec fn step_tool(step: StepView) -> Seq<char> {
    match step.tool_name {
        Some(name) => name,
        None => "unknown"@,
    }
}

fn tool_of(step: &StepRecord) -> (r: &str)
    ensures
        r@ == step_tool(step@),
{
    match &step.tool_name {
        Some(name) => name.as_str(),
        None => "unknown",
    }
}

/// The line on one discarded step.
pub open spec fn digest_line(step: StepView) -> Seq<char> {
    "Step "@ + decimal(step.step_index as nat) + ": "@ + flattened(step_tool(step)) + " — "@
        + ellipsized(flattened(step.decision_reason), 80) + " — "@ + outcome_line(step.observation)
}

/// The headline and the lines of the digest.
pub open spec fn digest_lines(count: nat, steps: Seq<StepView>) -> Seq<Seq<char>>
    decreases steps.len(),
{
    if steps.len() == 0 {
        seq!["[Compact summary — "@ + decimal(count) + " steps discarded]"@]
    } else {
        digest_lines(count, steps.drop_last()).push(digest_line(steps.last()))
    }
}

/// The digest of discarded steps: a headline, and one line for each.
pub open spec fn steps_digest(steps: Seq<StepView>) -> Seq<char> {
    join(digest_lines(steps.len(), steps), "\n"@)
}

pub fn summarize_discarded_steps(steps: &Vec<StepRecord>) -> (r: String)
    ensures
        r@ == steps_digest(steps_view(steps@)),
{
    let ghost all = steps_view(steps@);
    let mut lines: Vec<String> = Vec::new();
    let mut headline: String = "[Compact summary — ".to_owned();
    push_decimal(&mut headline, steps.len() as u64);
    headline.append(" steps discarded]");
    lines.push(headline);
    let mut i: usize = 0;
    assert(all.take(0) =~= seq![]);
    assert(views(lines@) =~= digest_lines(all.len(), all.take(0)));
    while i < steps.len()
        invariant
            i <= steps.len(),
            all == steps_view(steps@),
            views(lines@) == digest_lines(all.len(), all.take(i as int)),
        decreases steps.len() - i,
    {
        let step: &StepRecord = &steps[i];
        assert(all.take(i + 1).drop_last() =~= all.take(i as int));
        assert(all.take(i + 1).last() == step@);
        let mut line: String = "Step ".to_owned();
        push_decimal(&mut line, step.step_index as u64);
        line.append(": ");
        let tool: String = flatten_text(tool_of(step));
        line.append(tool.as_str());
        line.append(" — ");
        let reason: String = flatten_text(step.decision_reason.as_str());
        let reason: String = truncate(reason.as_str(), 80);
        line.append(reason.as_str());
        line.append(" — ");
        let outcome: String = outcome_line_text(step);
        line.append(outcome.as_str());
        proof {
            lemma_views_push(lines@, line);
        }
        lines.push(line);
        i = i + 1;
    }
    assert(all.take(i as int) =~= all);
    join_text(&lines, "\n")
}

/// The summary put before the one that is there, cut to size.
pub open spec fn summary_after(summary: Seq<char>, before: Seq<char>, max: int) -> Seq<char> {
    prefix_within(
        if before.len() == 0 {
            summary
        } else {
            summary + "\n\n"@ + before
        },
        max,
    )
}

/// A loop before and after the first `split` steps of its history have given way
/// to a summary: a boundary record stands first, the other steps stay, the summary
/// goes before the one that is there, and nothing else has changed.
pub open spec fn compacted_state(
    before: LoopState,
    split: int,
    summary: Seq<char>,
    max: int,
    after: LoopState,
) -> bool {
    &&& after == LoopState {
        history: after.history,
        working_summary: after.working_summary,
        ..before
    }
    &&& after.history@.len() == before.history@.len() - split + 1
    &&& after.history@.skip(1) == before.history@.skip(split)
    &&& after.history@[0]@ == boundary_step(
        before.step_index,
        split as nat,
        ellipsized(summary, 200),
        before.remaining_step_budget,
        before.remaining_recovery_budget,
        before.working_directory@,
    )
    &&& after.working_summary@ == summary_after(summary, before.working_summary@, max)
    &&& byte_len(after.working_summary@) <= max
}

/// Puts a boundary record first and adds the summary.
fn apply_compact_state(
    state: &mut LoopState,
    discarded: usize,
    summary: &str,
    config: &CompactConfig,
)
    ensures
        *final(state) == (LoopState {
            history: final(state).history,
            working_summary: final(state).working_summary,
            ..*old(state)
        }),
        final(state).history@.len() == old(state).history@.len() + 1,
        final(state).history@.skip(1) == old(state).history@,
        final(state).history@[0]@ == boundary_step(
            old(state).step_index,
            discarded as nat,
            ellipsized(summary@, 200),
            old(state).remaining_step_budget,
            old(state).remaining_recovery_budget,
            old(state).working_directory@,
        ),
        final(state).working_summary@ == summary_after(
            summary@,
            old(state).working_summary@,
            config.working_summary_max_chars as int,
        ),
        byte_len(final(state).working_summary@) <= config.working_summary_max_chars,
{
    let preview: String = truncate(summary, 200);
    let boundary: StepRecord = StepRecord::compact_boundary(
        state.step_index,
        discarded,
        preview.as_str(),
        state.remaining_step_budget,
        state.remaining_recovery_budget,
        state.working_directory.as_str(),
    );
    let ghost steps = state.history@;
    state.history.insert(0, boundary);
    assert(state.history@.skip(1) =~= steps);
    let mut joined: String = summary.to_owned();
    if !state.working_summary.as_str().is_empty() {
        joined.append("\n\n");
        joined.append(state.working_summary.as_str());
    }
    proof {
        lemma_floor(joined@, config.working_summary_max_chars as int);
    }
    state.working_summary = cut_text(joined.as_str(), config.working_summary_max_chars);
}

/// Takes the steps before the tail out of the history.
fn drain_history(state: &mut LoopState, split: usize) -> (r: Vec<StepRecord>)
    requires
        split <= old(state).history.len(),
    ensures
        *final(state) == (LoopState { history: final(state).history, ..*old(state) }),
        final(state).history@ == old(state).history@.skip(split as int),
        r@ == old(state).history@.take(split as int),
{
    let mut rest: Vec<StepRecord> = state.history.split_off(split);
    core::mem::swap(&mut state.history, &mut rest);
    assert(state.history@ =~= old(state).history@.skip(split as int));
    assert(rest@ =~= old(state).history@.take(split as int));
    rest
}

/// Replaces all but the last steps of the history by their digest.
pub fn compact_history(state: &mut LoopState, config: &CompactConfig)
    ensures
        old(state).history@.len() <= config.retain_tail_steps ==> *final(state) == *old(state),
        old(state).history@.len() > config.retain_tail_steps ==> {
            let split = old(state).history@.len() - config.retain_tail_steps;
            compacted_state(
                *old(state),
                split,
                steps_digest(steps_view(old(state).history@.take(split))),
                config.working_summary_max_chars as int,
                *final(state),
            )
        },
{
    if state.history.len() <= config.retain_tail_steps {
        return ;
    }
    let split: usize = state.history.len() - config.retain_tail_steps;
    let discarded: Vec<StepRecord> = drain_history(state, split);
    let summary: String = summarize_discarded_steps(&discarded);
    apply_compact_state(state, split, summary.as_str(), config);
}

/// One discarded step as the model is told of it.
pub open spec fn step_json(step: StepView) -> JsonView {
    JsonView::Object(
        seq![
            field("outcome"@, JsonView::Text(outcome_text(step.observation, 150))),
            field("reason"@, JsonView::Text(ellipsized(step.decision_reason, 100))),
            field("step"@, number(step.step_index as nat)),
            field("tool"@, JsonView::Text(step_tool(step))),
        ],
    )
}

fn step_json_value(step: &StepRecord) -> (r: Json)
    ensures
        r@ == step_json(step@),
{
    let outcome: String = step_outcome_text(step, 150);
    let reason: String = truncate(step.decision_reason.as_str(), 100);
    let mut fields: Vec<JsonField> = Vec::new();
    push_field(&mut fields, "outcome", text_value(outcome.as_str()));
    push_field(&mut fields, "reason", text_value(reason.as_str()));
    push_field(&mut fields, "step", number_value(step.step_index as u64));
    push_field(&mut fields, "tool", text_value(tool_of(step)));
    assert(fields_view(fields@) =~= step_json(step@)->Object_0);
    object_value(fields)
}

pub open spec fn steps_json(steps: Seq<StepView>) -> JsonView {
    JsonView::Array(steps.map_values(|s: StepView| step_json(s)))
}

/// The prompt that asks a model to summarize the discarded steps.
pub open spec fn history_prompt(steps: Seq<StepView>, max: nat) -> Seq<char> {
    "You are summarizing "@ + decimal(steps.len())
        + " agent execution steps that are being compacted from history.\nProduce a concise plain-text summary that captures:\n- Key actions taken and their outcomes\n- Any errors encountered\n- Important state changes or discoveries\n\nKeep the summary under "@
        + decimal(max) + " characters. Output plain text only.\n\nSteps:\n"@ + json_text(
        steps_json(steps),
    )
}

/// What the summarizing model is told it is.
pub const HISTORY_SUMMARY_SYSTEM_PROMPT: &'static str =
    "You are a concise summarizer for an agent runtime's execution history.";

/// The prompt that asks a model to summarize the steps that are to be discarded;
/// none where there are none.
pub fn history_summary_prompt(state: &LoopState, config: &CompactConfig) -> (r: Option<String>)
    ensures
        match r {
            Some(prompt) => state.history@.len() > config.retain_tail_steps && prompt@
                == history_prompt(
                steps_view(
                    state.history@.take(state.history@.len() - config.retain_tail_steps),
                ),
                config.working_summary_max_chars as nat,
            ),
            None => state.history@.len() <= config.retain_tail_steps,
        },
{
    if state.history.len() <= config.retain_tail_steps {
        return None;
    }
    let split: usize = state.history.len() - config.retain_tail_steps;
    let ghost discarded = steps_view(state.history@.take(split as int));
    let mut items: Vec<Json> = Vec::new();
    let mut i: usize = 0;
    while i < split
        invariant
            i <= split <= state.history.len(),
            discarded == steps_view(state.history@.take(split as int)),
            items.len() == i,
            forall|j: int| 0 <= j < i ==> (#[trigger] items@[j])@ == step_json(discarded[j]),
        decreases split - i,
    {
        assert(discarded[i as int] == state.history@[i as int]@);
        items.push(step_json_value(&state.history[i]));
        i = i + 1;
    }
    let list: Json = Json::Array(items);
    assert(list@->Array_0 =~= steps_json(discarded)->Array_0) by {
        assert forall|j: int| 0 <= j < items.len() implies #[trigger] list@->Array_0[j]
            == step_json(discarded[j]) by {
            assert(items@[j]@ == step_json(discarded[j]));
        }
    }
    let text: String = render_json(&list);
    let mut out: String = "You are summarizing ".to_owned();
    push_decimal(&mut out, split as u64);
    out.append(
        " agent execution steps that are being compacted from history.\nProduce a concise plain-text summary that captures:\n- Key actions taken and their outcomes\n- Any errors encountered\n- Important state changes or discoveries\n\nKeep the summary under ",
    );
    push_decimal(&mut out, config.working_summary_max_chars as u64);
    out.append(" characters. Output plain text only.\n\nSteps:\n");
    out.append(text.as_str());
    Some(out)
}

/// The summary of discarded steps: what the model wrote, unless that is blank or
/// nothing came, else the digest.
pub open spec fn history_summary(steps: Seq<StepView>, reply: Option<Seq<char>>) -> Seq<char> {
    match reply {
        Some(text) if trim(text).len() > 0 => text,
        _ => steps_digest(steps),
    }
}

/// Replaces all but the last steps of the history by what the model wrote of them,
/// or by their digest; true where it was the model's text.
pub fn compact_history_with_llm(
    state: &mut LoopState,
    config: &CompactConfig,
    reply: Option<&str>,
) -> (r: bool)
    ensures
        old(state).history@.len() <= config.retain_tail_steps ==> *final(state) == *old(state)
            && !r,
        old(state).history@.len() > config.retain_tail_steps ==> {
            let split = old(state).history@.len() - config.retain_tail_steps;
            compacted_state(
                *old(state),
                split,
                history_summary(
                    steps_view(old(state).history@.take(split)),
                    opt_str_view(reply),
                ),
                config.working_summary_max_chars as int,
                *final(state),
            )
        },
        old(state).history@.len() > config.retain_tail_steps ==> r == (match reply {
            Some(text) => trim(text@).len() > 0,
            None => false,
        }),
{
    if state.history.len() <= config.retain_tail_steps {
        return false;
    }
    let split: usize = state.history.len() - config.retain_tail_steps;
    let discarded: Vec<StepRecord> = drain_history(state, split);
    if let Some(text) = reply {
        let bare: String = trim_text(text);
        if !bare.as_str().is_empty() {
            apply_compact_state(state, split, text, config);
            return true;
        }
    }
    let mechanical: String = summarize_discarded_steps(&discarded);
    apply_compact_state(state, split, mechanical.as_str(), config);
    false
}

/// Takes over the summary of the messages where the history gave none: it becomes
/// the working summary, and a boundary record stands first in the history.
pub fn seed_compact_summary_if_missing(
    state: &mut LoopState,
    messages_discarded_count: usize,
    summary_text: &str,
)
    ensures
        old(state).working_summary@.len() > 0 ==> *final(state) == *old(state),
        old(state).working_summary@.len() == 0 ==> {
            &&& *final(state) == LoopState {
                history: final(state).history,
                working_summary: final(state).working_summary,
                ..*old(state)
            }
            &&& final(state).working_summary@ == summary_text@
            &&& final(state).history@.len() == old(state).history@.len() + 1
            &&& final(state).history@.skip(1) == old(state).history@
            &&& final(state).history@[0]@ == boundary_step(
                old(state).step_index,
                messages_discarded_count as nat,
                ellipsized(summary_text@, 200),
                old(state).remaining_step_budget,
                old(state).remaining_recovery_budget,
                old(state).working_directory@,
            )
        },
{
    if !state.working_summary.as_str().is_empty() {
        return ;
    }
    let preview: String = truncate(summary_text, 200);
    let boundary: StepRecord = StepRecord::compact_boundary(
        state.step_index,
        messages_discarded_count,
        preview.as_str(),
        state.remaining_step_budget,
        state.remaining_recovery_budget,
        state.working_directory.as_str(),
    );
    let ghost steps = state.history@;
    state.history.insert(0, boundary);
    assert(state.history@.skip(1) =~= steps);
    state.working_summary = summary_text.to_owned();
}

/// The sum of the characters of the texts.
pub open spec fn total_chars(list: Seq<Seq<char>>) -> nat
    decreases list.len(),
{
    if list.len() == 0 {
        0
    } else {
        total_chars(list.drop_last()) + list.last().len()
    }
}

/// The characters of a loop's context, given the sizes of its structured parts as
/// JSON.
pub open spec fn context_size(state: LoopState, json_sizes: Seq<u64>) -> nat {
    state.goal@.len() + state.working_summary@.len() + total_chars(
        views(state.visible_tools@),
    ) + total(json_sizes)
}

proof fn lemma_total_chars(list: Seq<Seq<char>>, k: int)
    requires
        0 <= k <= list.len(),
    ensures
        total_chars(list.take(k)) <= total_chars(list),
    decreases list.len() - k,
{
    if k < list.len() {
        lemma_total_chars(list, k + 1);
        assert(list.take(k + 1).drop_last() =~= list.take(k));
    } else {
        assert(list.take(k) =~= list);
    }
}

proof fn lemma_total(list: Seq<u64>, k: int)
    requires
        0 <= k <= list.len(),
    ensures
        total(list.take(k)) <= total(list),
    decreases list.len() - k,
{
    if k < list.len() {
        lemma_total(list, k + 1);
        assert(list.take(k + 1).drop_last() =~= list.take(k));
    } else {
        assert(list.take(k) =~= list);
    }
}

/// About how many tokens a loop's context takes: a quarter of its characters. The
/// sizes are those of the bound resources, the last observation and each step of
/// the history as JSON.
pub fn estimate_context_tokens(state: &LoopState, json_sizes: &Vec<u64>) -> (r: u64)
    requires
        context_size(*state, json_sizes@) <= u64::MAX,
    ensures
        r == context_size(*state, json_sizes@) / 4,
{
    let ghost tools = views(state.visible_tools@);
    let mut size: u64 = chars_of(state.goal.as_str()).len() as u64;
    size = size + chars_of(state.working_summary.as_str()).len() as u64;
    let ghost texts = state.goal@.len() + state.working_summary@.len();
    let mut i: usize = 0;
    assert(tools.take(0) =~= seq![]);
    while i < state.visible_tools.len()
        invariant
            i <= state.visible_tools.len(),
            tools == views(state.visible_tools@),
            texts == state.goal@.len() + state.working_summary@.len(),
            context_size(*state, json_sizes@) <= u64::MAX,
            size == texts + total_chars(tools.take(i as int)),
        decreases state.visible_tools.len() - i,
    {
        proof {
            lemma_total_chars(tools, i + 1);
            assert(tools.take(i + 1).drop_last() =~= tools.take(i as int));
            assert(tools.take(i + 1).last() == state.visible_tools@[i as int]@);
        }
        size = size + chars_of(state.visible_tools[i].as_str()).len() as u64;
        i = i + 1;
    }
    assert(tools.take(i as int) =~= tools);
    let ghost before = size as nat;
    let mut k: usize = 0;
    assert(json_sizes@.take(0) =~= seq![]);
    while k < json_sizes.len()
        invariant
            k <= json_sizes.len(),
            before + total(json_sizes@) <= u64::MAX,
            size == before + total(json_sizes@.take(k as int)),
        decreases json_sizes.len() - k,
    {
        proof {
            lemma_total(json_sizes@, k + 1);
            assert(json_sizes@.take(k + 1).drop_last() =~= json_sizes@.take(k as int));
        }
        size = size + json_sizes[k];
        k = k + 1;
    }
    assert(json_sizes@.take(k as int) =~= json_sizes@);
    size / 4
}

/// The context has outgrown the threshold.
pub fn should_compact(estimated_tokens: u64, threshold_tokens: u64) -> (r: bool)
    ensures
        r == (estimated_tokens > threshold_tokens),
{
    estimated_tokens > threshold_tokens
}

} // verus!
