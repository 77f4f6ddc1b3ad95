//! How many tokens a prompt will take.

use crate::estimate::capped;
use crate::text::{opt_str_view, opt_view, str_eq};
use vstd::prelude::*;

verus! {

/// The tokens that framing adds to each message.
pub const FRAMING_TOKENS_PER_MESSAGE: u64 = 4;

/// An estimate of a prompt's tokens, part by part.
#[derive(Debug, Clone, Copy, PartialEq, Eq, Structural)]
pub struct PromptTokenEstimate {
    pub system_tokens: u64,
    pub message_tokens: u64,
    pub framing_tokens: u64,
    pub tool_schema_tokens: u64,
    /// What the provider reported for the part that was sent before; zero where
    /// nothing is known to have been.
    pub committed_baseline_tokens: u64,
    /// The estimate after calibration.
    pub total_tokens: u64,
    /// The sum of the parts before calibration.
    pub raw_total_tokens: u64,
}

pub open spec fn saturating_sub(a: int, b: int) -> int {
    if a >= b {
        a - b
    } else {
        0
    }
}

impl PromptTokenEstimate {
    /// The pair of estimated and real tokens to calibrate with: both without the
    /// part that the provider reported before.
    pub fn calibration_pair(&self, observed_prompt_tokens: u64) -> (r: (u64, u64))
        ensures
            r.0 == saturating_sub(
                self.raw_total_tokens as int,
                self.committed_baseline_tokens as int,
            ),
            r.1 == saturating_sub(
                observed_prompt_tokens as int,
                self.committed_baseline_tokens as int,
            ),
    {
        if self.committed_baseline_tokens > 0 {
            (
                self.raw_total_tokens.saturating_sub(self.committed_baseline_tokens),
                observed_prompt_tokens.saturating_sub(self.committed_baseline_tokens),
            )
        } else {
            (self.raw_total_tokens, observed_prompt_tokens)
        }
    }
}

/// What the provider reported for the last call, and what that call looked like.
#[derive(Debug)]
pub struct CommittedBaseline {
    pub input_tokens: u64,
    /// The number of messages in that call.
    pub message_count: usize,
    pub system_prompt_bytes: u64,
    pub tool_schema_bytes_len: u64,
    pub model_id: Option<String>,
}

impl CommittedBaseline {
    /// The next call has the same system prompt size, tool schema size and model.
    pub open spec fn valid_for(
        self,
        system_prompt_bytes: u64,
        tool_schema_bytes_len: u64,
        model_id: Option<Seq<char>>,
    ) -> bool {
        &&& self.input_tokens > 0
        &&& self.system_prompt_bytes == system_prompt_bytes
        &&& self.tool_schema_bytes_len == tool_schema_bytes_len
        &&& opt_view(self.model_id) == model_id
    }

    pub fn is_valid_for(
        &self,
        current_system_prompt_bytes: u64,
        current_tool_schema_bytes_len: u64,
        current_model_id: Option<&str>,
    ) -> (r: bool)
        ensures
            r == self.valid_for(
                current_system_prompt_bytes,
                current_tool_schema_bytes_len,
                opt_str_view(current_model_id),
            ),
    {
        let same_model: bool = match (&self.model_id, current_model_id) {
            (Some(a), Some(b)) => str_eq(a.as_str(), b),
            (None, None) => true,
            _ => false,
        };
        self.input_tokens > 0 && self.system_prompt_bytes == current_system_prompt_bytes
            && self.tool_schema_bytes_len == current_tool_schema_bytes_len && same_model
    }
}

/// The sum of the counts.
pub open spec fn total(counts: Seq<u64>) -> nat
    decreases counts.len(),
{
    if counts.len() == 0 {
        0
    } else {
        total(counts.drop_last()) + counts.last() as nat
    }
}

/// The parts of an estimate before calibration.
#[derive(Debug, Clone, Copy, PartialEq, Eq, Structural)]
pub struct RawPromptEstimate {
    pub system_tokens: u64,
    pub message_tokens: u64,
    pub framing_tokens: u64,
    pub tool_schema_tokens: u64,
    pub committed_baseline_tokens: u64,
    /// The part that calibration scales.
    pub scalable_tokens: u64,
}

/// The baseline covers the first messages of the buffer.
pub open spec fn baseline_applies(baseline: Option<CommittedBaseline>, messages: nat) -> bool {
    baseline matches Some(b) && b.input_tokens > 0 && messages >= b.message_count
}

pub open spec fn or_zero(n: Option<u64>) -> u64 {
    match n {
        Some(n) => n,
        None => 0,
    }
}

/// The parts of the estimate, given the token count of each message, of the system
/// prompt and of the tool schema. Where a baseline applies, only the messages
/// behind it are counted.
pub open spec fn raw_estimate(
    counts: Seq<u64>,
    system: Option<u64>,
    schema: Option<u64>,
    baseline: Option<CommittedBaseline>,
) -> RawPromptEstimate {
    if baseline_applies(baseline, counts.len()) {
        let b = baseline->0;
        let tail = counts.skip(b.message_count as int);
        let message_tokens = capped(total(tail) as int);
        let framing_tokens = capped(tail.len() * FRAMING_TOKENS_PER_MESSAGE);
        RawPromptEstimate {
            system_tokens: 0,
            message_tokens: message_tokens as u64,
            framing_tokens: framing_tokens as u64,
            tool_schema_tokens: 0,
            committed_baseline_tokens: b.input_tokens,
            scalable_tokens: capped(message_tokens + framing_tokens) as u64,
        }
    } else {
        let message_tokens = capped(total(counts) as int);
        let framing_tokens = capped(counts.len() * FRAMING_TOKENS_PER_MESSAGE);
        RawPromptEstimate {
            system_tokens: or_zero(system),
            message_tokens: message_tokens as u64,
            framing_tokens: framing_tokens as u64,
            tool_schema_tokens: or_zero(schema),
            committed_baseline_tokens: 0,
            scalable_tokens: capped(
                or_zero(system) + message_tokens + framing_tokens + or_zero(schema),
            ) as u64,
        }
    }
}

impl RawPromptEstimate {
    /// The estimate, given what calibration made of the scalable part.
    pub open spec fn with_scaled(self, scaled: u64) -> PromptTokenEstimate {
        PromptTokenEstimate {
            system_tokens: self.system_tokens,
            message_tokens: self.message_tokens,
            framing_tokens: self.framing_tokens,
            tool_schema_tokens: self.tool_schema_tokens,
            committed_baseline_tokens: self.committed_baseline_tokens,
            total_tokens: capped(self.committed_baseline_tokens + scaled) as u64,
            raw_total_tokens: capped(self.committed_baseline_tokens + self.scalable_tokens) as u64,
        }
    }

    pub fn calibrated(self, scaled: u64) -> (r: PromptTokenEstimate)
        ensures
            r == self.with_scaled(scaled),
    {
        PromptTokenEstimate {
            system_tokens: self.system_tokens,
            message_tokens: self.message_tokens,
            framing_tokens: self.framing_tokens,
            tool_schema_tokens: self.tool_schema_tokens,
            committed_baseline_tokens: self.committed_baseline_tokens,
            total_tokens: self.committed_baseline_tokens.saturating_add(scaled),
            raw_total_tokens: self.committed_baseline_tokens.saturating_add(self.scalable_tokens),
        }
    }
}

fn sum_from(counts: &Vec<u64>, from: usize) -> (r: u64)
    requires
        from <= counts.len(),
    ensures
        r == capped(total(counts@.skip(from as int)) as int),
{
    let ghost tail = counts@.skip(from as int);
    let mut sum: u64 = 0;
    let mut i: usize = from;
    assert(tail.take(0) =~= seq![]);
    while i < counts.len()
        invariant
            from <= i <= counts.len(),
            tail == counts@.skip(from as int),
            sum == capped(total(tail.take(i - from)) as int),
        decreases counts.len() - i,
    {
        assert(tail.take(i + 1 - from).drop_last() =~= tail.take(i - from));
        assert(tail.take(i + 1 - from).last() == counts@[i as int]);
        sum = sum.saturating_add(counts[i]);
        i = i + 1;
    }
    assert(tail.take(i - from) =~= tail);
    sum
}

fn framing_for(messages: usize) -> (r: u64)
    ensures
        r == capped(messages * FRAMING_TOKENS_PER_MESSAGE),
{
    match (messages as u64).checked_mul(FRAMING_TOKENS_PER_MESSAGE) {
        Some(n) => n,
        None => u64::MAX,
    }
}

/// The parts of the estimate.
pub fn raw_prompt_estimate(
    message_counts: &Vec<u64>,
    system_tokens: Option<u64>,
    tool_schema_tokens: Option<u64>,
    baseline: &Option<CommittedBaseline>,
) -> (r: RawPromptEstimate)
    ensures
        r == raw_estimate(message_counts@, system_tokens, tool_schema_tokens, *baseline),
{
    let n: usize = message_counts.len();
    match baseline {
        Some(b) => {
            if b.input_tokens > 0 && n >= b.message_count {
                let message_tokens: u64 = sum_from(message_counts, b.message_count);
                let framing_tokens: u64 = framing_for(n - b.message_count);
                return RawPromptEstimate {
                    system_tokens: 0,
                    message_tokens,
                    framing_tokens,
                    tool_schema_tokens: 0,
                    committed_baseline_tokens: b.input_tokens,
                    scalable_tokens: message_tokens.saturating_add(framing_tokens),
                };
            }
        },
        None => {},
    }
    assert(message_counts@.skip(0) =~= message_counts@);
    let message_tokens: u64 = sum_from(message_counts, 0);
    let framing_tokens: u64 = framing_for(n);
    let system: u64 = match system_tokens {
        Some(n) => n,
        None => 0,
    };
    let schema: u64 = match tool_schema_tokens {
        Some(n) => n,
        None => 0,
    };
    RawPromptEstimate {
        system_tokens: system,
        message_tokens,
        framing_tokens,
        tool_schema_tokens: schema,
        committed_baseline_tokens: 0,
        scalable_tokens: system.saturating_add(message_tokens).saturating_add(
            framing_tokens,
        ).saturating_add(schema),
    }
}

/// Estimates a prompt's tokens, given the token count of each part. `calibrate`
/// scales the part that is only estimated.
pub fn estimate_prompt_tokens_calibrated<F: Fn(u64) -> u64>(
    message_counts: &Vec<u64>,
    system_tokens: Option<u64>,
    tool_schema_tokens: Option<u64>,
    baseline: &Option<CommittedBaseline>,
    calibrate: F,
) -> (r: PromptTokenEstimate)
    requires
        forall|raw: u64| call_requires(calibrate, (raw,)),
    ensures
        ({
            let raw = raw_estimate(message_counts@, system_tokens, tool_schema_tokens, *baseline);
            exists|scaled: u64|
                call_ensures(calibrate, (raw.scalable_tokens,), scaled) && r == raw.with_scaled(
                    scaled,
                )
        }),
{
    let raw: RawPromptEstimate = raw_prompt_estimate(
        message_counts,
        system_tokens,
        tool_schema_tokens,
        baseline,
    );
    let scaled: u64 = calibrate(raw.scalable_tokens);
    assert(call_ensures(calibrate, (raw.scalable_tokens,), scaled));
    raw.calibrated(scaled)
}

/// The total of [`estimate_prompt_tokens_calibrated`].
pub fn estimate_prompt_pressure<F: Fn(u64) -> u64>(
    message_counts: &Vec<u64>,
    system_tokens: Option<u64>,
    tool_schema_tokens: Option<u64>,
    baseline: &Option<CommittedBaseline>,
    calibrate: F,
) -> (r: u64)
    requires
        forall|raw: u64| call_requires(calibrate, (raw,)),
    ensures
        ({
            let raw = raw_estimate(message_counts@, system_tokens, tool_schema_tokens, *baseline);
            exists|scaled: u64|
                call_ensures(calibrate, (raw.scalable_tokens,), scaled) && r == raw.with_scaled(
                    scaled,
                ).total_tokens
        }),
{
    estimate_prompt_tokens_calibrated(
        message_counts,
        system_tokens,
        tool_schema_tokens,
        baseline,
        calibrate,
    ).total_tokens
}

/// The raw total is the sum of the parts, unless that exceeds the largest count.
pub proof fn law_raw_total_is_the_sum(
    counts: Seq<u64>,
    system: Option<u64>,
    schema: Option<u64>,
    baseline: Option<CommittedBaseline>,
    scaled: u64,
)
    ensures
        ({
            let e = raw_estimate(counts, system, schema, baseline).with_scaled(scaled);
            e.raw_total_tokens == capped(
                e.system_tokens + e.message_tokens + e.framing_tokens + e.tool_schema_tokens
                    + e.committed_baseline_tokens,
            )
        }),
{
}

/// Without a baseline the raw total never shrinks where the tool schema grows, and
/// it grows with it, unless that exceeds the largest count.
pub proof fn law_schema_widens_the_estimate(
    counts: Seq<u64>,
    system: Option<u64>,
    smaller: Option<u64>,
    larger: Option<u64>,
    scaled: u64,
)
    requires
        or_zero(smaller) <= or_zero(larger),
    ensures
        ({
            let a = raw_estimate(counts, system, smaller, None).with_scaled(scaled);
            let b = raw_estimate(counts, system, larger, None).with_scaled(scaled);
            &&& a.tool_schema_tokens == or_zero(smaller)
            &&& b.tool_schema_tokens == or_zero(larger)
            &&& a.raw_total_tokens <= b.raw_total_tokens
            &&& or_zero(smaller) < or_zero(larger) && b.raw_total_tokens < u64::MAX
                ==> a.raw_total_tokens < b.raw_total_tokens
        }),
{
}

/// With a baseline and nothing behind it, the estimate is what the provider
/// reported, as long as calibration leaves nothing at nothing.
pub proof fn law_baseline_without_tail(counts: Seq<u64>, b: CommittedBaseline)
    requires
        b.input_tokens > 0,
        counts.len() == b.message_count,
    ensures
        ({
            let raw = raw_estimate(counts, None, None, Some(b));
            raw.scalable_tokens == 0 && raw.with_scaled(0).total_tokens == b.input_tokens
                && raw.with_scaled(0).raw_total_tokens == b.input_tokens
        }),
{
    assert(counts.skip(b.message_count as int) =~= seq![]);
}

/// One pair of an estimate and what the provider reported.
#[derive(Debug, Clone, Copy, PartialEq, Eq, Structural)]
pub struct CalibrationSample {
    pub estimated: u64,
    pub observed: u64,
}

/// How many samples are kept.
pub const CAL_SAMPLE_CAP: usize = 8;

/// The recent samples that calibration goes by.
#[derive(Debug)]
pub struct EstimatorCalibration {
    pub samples: Vec<CalibrationSample>,
}

/// The samples after one more: a pair with a zero teaches nothing, and the oldest
/// sample goes where there would be too many.
pub open spec fn with_sample(samples: Seq<CalibrationSample>, estimated: u64, observed: u64) -> Seq<
    CalibrationSample,
> {
    let sample = CalibrationSample { estimated, observed };
    if estimated == 0 || observed == 0 {
        samples
    } else if samples.len() >= CAL_SAMPLE_CAP {
        samples.skip(1).push(sample)
    } else {
        samples.push(sample)
    }
}

/// A pair with a zero leaves the samples as they are; any other is the last of the
/// samples then, and there are never more than eight.
pub proof fn law_samples_are_recent(
    samples: Seq<CalibrationSample>,
    estimated: u64,
    observed: u64,
)
    requires
        samples.len() <= CAL_SAMPLE_CAP,
    ensures
        with_sample(samples, estimated, observed).len() <= 8,
        estimated == 0 || observed == 0 ==> with_sample(samples, estimated, observed) == samples,
        estimated != 0 && observed != 0 ==> {
            let after = with_sample(samples, estimated, observed);
            &&& after.last() == (CalibrationSample { estimated, observed })
            &&& after.len() == if samples.len() < 8 {
                samples.len() + 1
            } else {
                8
            }
        },
{
}

impl Default for EstimatorCalibration {
    fn default() -> (r: Self)
        ensures
            r.samples@ == Seq::<CalibrationSample>::empty(),
    {
        EstimatorCalibration { samples: Vec::new() }
    }
}

impl EstimatorCalibration {
    /// At most the kept number of samples, none of them with a zero.
    pub open spec fn well_formed(self) -> bool {
        &&& self.samples@.len() <= CAL_SAMPLE_CAP
        &&& forall|i: int|
            0 <= i < self.samples@.len() ==> (#[trigger] self.samples@[i]).estimated > 0
                && self.samples@[i].observed > 0
    }

    /// Takes in a pair of an estimate and what the provider reported.
    pub fn update(&mut self, estimated: u64, observed: u64)
        ensures
            final(self).samples@ == with_sample(old(self).samples@, estimated, observed),
            old(self).well_formed() ==> final(self).well_formed(),
    {
        if estimated == 0 || observed == 0 {
            return;
        }
        let ghost before = self.samples@;
        if self.samples.len() >= CAL_SAMPLE_CAP {
            let oldest: CalibrationSample = self.samples.remove(0);
            assert(self.samples@ =~= before.skip(1));
        }
        self.samples.push(CalibrationSample { estimated, observed });
        proof {
            if old(self).well_formed() {
                assert forall|i: int| 0 <= i < self.samples@.len() implies (
                #[trigger] self.samples@[i]).estimated > 0 && self.samples@[i].observed > 0 by {
                    if before.len() >= CAL_SAMPLE_CAP {
                        if i < before.len() - 1 {
                            assert(self.samples@[i] == before[i + 1]);
                        }
                    } else if i < before.len() {
                        assert(self.samples@[i] == before[i]);
                    }
                }
            }
        }
    }

    pub fn sample_count(&self) -> (r: usize)
        ensures
            r == self.samples@.len(),
    {
        self.samples.len()
    }
}

} // verus!
