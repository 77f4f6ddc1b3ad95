//! Detection of prompt-cache breaks between model calls.

use crate::number::{decimal, push_decimal};
use crate::split::{join_text, lemma_views_push};
use crate::text::{join, opt_str_view, str_eq, views};
use std::collections::hash_map::DefaultHasher;
use std::hash::Hasher;
use vstd::prelude::*;
use vstd::std_specs::hash::DefaultHasherAdditionalSpecFns;
use vstd::utf8::encode_utf8;

verus! {

/// A drop of the cached tokens must be larger than this to count.
pub const CACHE_BREAK_ABSOLUTE_THRESHOLD: u64 = 2_000;

/// A drop must also be larger than one in this many of the tokens cached before.
pub const CACHE_BREAK_RELATIVE_PARTS: u128 = 20;

/// One block of the static system prompt.
#[derive(Debug)]
pub struct SystemPromptBlock {
    pub id: String,
    pub content: String,
}

/// One tool as the model is told of it; the parameters are JSON text.
#[derive(Debug)]
pub struct ToolDefinition {
    pub name: String,
    pub description: String,
    pub parameters: String,
}

/// The parts of the prompt prefix, hashed.
#[derive(Debug)]
pub struct PromptStateFingerprint {
    pub system_hash: u64,
    pub tools_hash: u64,
    pub model: String,
}

#[verifier::ext_equal]
pub struct FingerprintView {
    pub system_hash: u64,
    pub tools_hash: u64,
    pub model: Seq<char>,
}

impl View for PromptStateFingerprint {
    type V = FingerprintView;

    open spec fn view(&self) -> FingerprintView {
        FingerprintView {
            system_hash: self.system_hash,
            tools_hash: self.tools_hash,
            model: self.model@,
        }
    }
}

impl Clone for PromptStateFingerprint {
    fn clone(&self) -> (r: Self)
        ensures
            r@ == self@,
    {
        PromptStateFingerprint {
            system_hash: self.system_hash,
            tools_hash: self.tools_hash,
            model: self.model.clone(),
        }
    }
}

pub open spec fn opt_fingerprint(f: Option<PromptStateFingerprint>) -> Option<FingerprintView> {
    match f {
        Some(f) => Some(f@),
        None => None,
    }
}

/// A detected cache break.
#[derive(Debug)]
pub struct CacheBreakReport {
    pub previous_tokens: u64,
    pub current_tokens: u64,
    pub tokens_lost: u64,
    /// The parts of the prefix that differ from the turn before.
    pub component_changed: Vec<String>,
    pub provider: String,
    pub model_id: String,
}

#[verifier::ext_equal]
pub struct ReportView {
    pub previous_tokens: u64,
    pub current_tokens: u64,
    pub tokens_lost: u64,
    pub component_changed: Seq<Seq<char>>,
    pub provider: Seq<char>,
    pub model_id: Seq<char>,
}

impl View for CacheBreakReport {
    type V = ReportView;

    open spec fn view(&self) -> ReportView {
        ReportView {
            previous_tokens: self.previous_tokens,
            current_tokens: self.current_tokens,
            tokens_lost: self.tokens_lost,
            component_changed: views(self.component_changed@),
            provider: self.provider@,
            model_id: self.model_id@,
        }
    }
}

impl ReportView {
    /// The sentence on the break, given the relative drop in percent.
    pub open spec fn sentence(self, percent: Seq<char>) -> Seq<char> {
        "cache_read_input_tokens dropped from "@ + decimal(self.previous_tokens as nat) + " to "@
            + decimal(self.current_tokens as nat) + " ("@ + percent + "% drop, "@ + decimal(
            self.tokens_lost as nat,
        ) + " tokens lost); provider: "@ + self.provider + ", model: "@ + self.model_id
    }
}

impl CacheBreakReport {
    pub fn reason(&self, percent: &str) -> (r: String)
        ensures
            r@ == self@.sentence(percent@),
    {
        let mut out: String = "cache_read_input_tokens dropped from ".to_owned();
        push_decimal(&mut out, self.previous_tokens);
        out.append(" to ");
        push_decimal(&mut out, self.current_tokens);
        out.append(" (");
        out.append(percent);
        out.append("% drop, ");
        push_decimal(&mut out, self.tokens_lost);
        out.append(" tokens lost); provider: ");
        out.append(self.provider.as_str());
        out.append(", model: ");
        out.append(self.model_id.as_str());
        out
    }

    /// The diagnostic on the break: a line each for the sentence, the tokens lost and
    /// the components that changed.
    pub fn diagnostic_text(&self, percent: &str) -> (r: String)
        ensures
            r@ == "reason: "@ + self@.sentence(percent@) + "\ntokens_lost: "@ + decimal(
                self.tokens_lost as nat,
            ) + "\ncomponent_changed: "@ + join(self@.component_changed, ", "@) + "\n"@,
    {
        let mut out: String = "reason: ".to_owned();
        let reason: String = self.reason(percent);
        out.append(reason.as_str());
        out.append("\ntokens_lost: ");
        push_decimal(&mut out, self.tokens_lost);
        out.append("\ncomponent_changed: ");
        let components: String = join_text(&self.component_changed, ", ");
        out.append(components.as_str());
        out.append("\n");
        out
    }
}

/// Compares each response's cached tokens with those of the turn before.
#[derive(Debug)]
pub struct CacheBreakDetector {
    /// The prefix of the turn before.
    pub previous_fingerprint: Option<PromptStateFingerprint>,
    /// The cached tokens of the turn before.
    pub previous_cache_read_tokens: Option<u64>,
    /// The prefix of this turn, until its response is checked.
    pub current_fingerprint: Option<PromptStateFingerprint>,
    /// A compaction has changed the buffer, so that the next response is not
    /// compared.
    pub compaction_pending: bool,
}

#[verifier::ext_equal]
pub struct DetectorView {
    pub previous_fingerprint: Option<FingerprintView>,
    pub previous_cache_read_tokens: Option<u64>,
    pub current_fingerprint: Option<FingerprintView>,
    pub compaction_pending: bool,
}

impl View for CacheBreakDetector {
    type V = DetectorView;

    open spec fn view(&self) -> DetectorView {
        DetectorView {
            previous_fingerprint: opt_fingerprint(self.previous_fingerprint),
            previous_cache_read_tokens: self.previous_cache_read_tokens,
            current_fingerprint: opt_fingerprint(self.current_fingerprint),
            compaction_pending: self.compaction_pending,
        }
    }
}

/// What hashing the texts one after the other writes.
pub open spec fn written(texts: Seq<Seq<char>>) -> Seq<Seq<u8>>
    decreases texts.len(),
{
    if texts.len() == 0 {
        seq![]
    } else {
        written(texts.drop_last()).push(encode_utf8(texts.last())).push(seq![0xFFu8])
    }
}

/// The hash of a list of texts.
pub open spec fn texts_hash(texts: Seq<Seq<char>>) -> u64 {
    DefaultHasher::spec_finish(written(texts))
}

/// Hashes one more text.
fn hash_text(hasher: &mut DefaultHasher, text: &str, before: Ghost<Seq<Seq<char>>>)
    requires
        old(hasher)@ == written(before@),
    ensures
        final(hasher)@ == written(before@.push(text@)),
{
    proof {
        assert(before@.push(text@).drop_last() =~= before@);
    }
    hasher.write(text.as_bytes());
    let end: [u8; 1] = [0xFF];
    hasher.write(&end);
    assert(end@ =~= seq![0xFFu8]);
}

/// The texts of the blocks, in the order in which they are hashed.
pub open spec fn block_texts(blocks: Seq<SystemPromptBlock>) -> Seq<Seq<char>>
    decreases blocks.len(),
{
    if blocks.len() == 0 {
        seq![]
    } else {
        block_texts(blocks.drop_last()).push(blocks.last().id@).push(blocks.last().content@)
    }
}

/// The texts of the definitions, in the order in which they are hashed.
pub open spec fn definition_texts(definitions: Seq<ToolDefinition>) -> Seq<Seq<char>>
    decreases definitions.len(),
{
    if definitions.len() == 0 {
        seq![]
    } else {
        definition_texts(definitions.drop_last()).push(definitions.last().name@).push(
            definitions.last().description@,
        ).push(definitions.last().parameters@)
    }
}

pub fn hash_blocks(blocks: &Vec<SystemPromptBlock>) -> (r: u64)
    ensures
        r == texts_hash(block_texts(blocks@)),
{
    let mut hasher: DefaultHasher = DefaultHasher::new();
    let mut i: usize = 0;
    assert(blocks@.take(0) =~= seq![]);
    while i < blocks.len()
        invariant
            i <= blocks.len(),
            hasher@ == written(block_texts(blocks@.take(i as int))),
        decreases blocks.len() - i,
    {
        let ghost before = block_texts(blocks@.take(i as int));
        assert(blocks@.take(i + 1).drop_last() =~= blocks@.take(i as int));
        assert(blocks@.take(i + 1).last() == blocks@[i as int]);
        hash_text(&mut hasher, blocks[i].id.as_str(), Ghost(before));
        hash_text(
            &mut hasher,
            blocks[i].content.as_str(),
            Ghost(before.push(blocks@[i as int].id@)),
        );
        i = i + 1;
    }
    assert(blocks@.take(i as int) =~= blocks@);
    hasher.finish()
}

pub fn hash_tool_definitions(definitions: &Vec<ToolDefinition>) -> (r: u64)
    ensures
        r == texts_hash(definition_texts(definitions@)),
{
    let mut hasher: DefaultHasher = DefaultHasher::new();
    let mut i: usize = 0;
    assert(definitions@.take(0) =~= seq![]);
    while i < definitions.len()
        invariant
            i <= definitions.len(),
            hasher@ == written(definition_texts(definitions@.take(i as int))),
        decreases definitions.len() - i,
    {
        let ghost before = definition_texts(definitions@.take(i as int));
        let ghost d = definitions@[i as int];
        assert(definitions@.take(i + 1).drop_last() =~= definitions@.take(i as int));
        assert(definitions@.take(i + 1).last() == d);
        hash_text(&mut hasher, definitions[i].name.as_str(), Ghost(before));
        hash_text(
            &mut hasher,
            definitions[i].description.as_str(),
            Ghost(before.push(d.name@)),
        );
        hash_text(
            &mut hasher,
            definitions[i].parameters.as_str(),
            Ghost(before.push(d.name@).push(d.description@)),
        );
        i = i + 1;
    }
    assert(definitions@.take(i as int) =~= definitions@);
    hasher.finish()
}

/// The drop from `previous` to `current` cached tokens counts as a break.
pub open spec fn is_break(previous: u64, current: u64) -> bool {
    let drop = previous - current;
    &&& drop > CACHE_BREAK_ABSOLUTE_THRESHOLD
    &&& drop * CACHE_BREAK_RELATIVE_PARTS > previous
}

/// The parts of the prefix that differ.
pub open spec fn changed_components(
    previous: Option<FingerprintView>,
    current: FingerprintView,
) -> Seq<Seq<char>> {
    let found = match previous {
        None => seq![],
        Some(p) => {
            let system = if p.system_hash != current.system_hash {
                seq!["system_prompt"@]
            } else {
                seq![]
            };
            let tools = if p.tools_hash != current.tools_hash {
                seq!["tool_schema"@]
            } else {
                seq![]
            };
            let model = if p.model != current.model {
                seq!["model ("@ + p.model + " -> "@ + current.model + ")"@]
            } else {
                seq![]
            };
            system + tools + model
        },
    };
    if found.len() == 0 {
        seq!["unknown (fingerprint unchanged; likely message-level change)"@]
    } else {
        found
    }
}

impl DetectorView {
    /// The detector after a response: what was recorded before the call, and the
    /// tokens, are what the next response is compared with.
    pub open spec fn after_response(self, tokens: u64) -> DetectorView {
        DetectorView {
            previous_fingerprint: self.current_fingerprint,
            previous_cache_read_tokens: Some(tokens),
            current_fingerprint: None,
            compaction_pending: false,
        }
    }

    /// The report on a response, where it shows a break.
    pub open spec fn report(self, tokens: u64, model_id: Seq<char>, provider: Seq<char>) -> Option<
        ReportView,
    > {
        match (self.current_fingerprint, self.previous_cache_read_tokens) {
            (Some(current), Some(previous)) => if !self.compaction_pending && is_break(
                previous,
                tokens,
            ) {
                Some(
                    ReportView {
                        previous_tokens: previous,
                        current_tokens: tokens,
                        tokens_lost: (previous - tokens) as u64,
                        component_changed: changed_components(self.previous_fingerprint, current),
                        provider,
                        model_id,
                    },
                )
            } else {
                None
            },
            _ => None,
        }
    }
}

fn diagnose(previous: &Option<PromptStateFingerprint>, current: &PromptStateFingerprint) -> (r: Vec<
    String,
>)
    ensures
        views(r@) == changed_components(opt_fingerprint(*previous), current@),
{
    let mut changed: Vec<String> = Vec::new();
    match previous {
        Some(p) => {
            if p.system_hash != current.system_hash {
                let part: String = "system_prompt".to_owned();
                proof {
                    lemma_views_push(changed@, part);
                }
                changed.push(part);
            }
            if p.tools_hash != current.tools_hash {
                let part: String = "tool_schema".to_owned();
                proof {
                    lemma_views_push(changed@, part);
                }
                changed.push(part);
            }
            if !str_eq(p.model.as_str(), current.model.as_str()) {
                let mut part: String = "model (".to_owned();
                part.append(p.model.as_str());
                part.append(" -> ");
                part.append(current.model.as_str());
                part.append(")");
                proof {
                    lemma_views_push(changed@, part);
                }
                changed.push(part);
            }
        },
        None => {},
    }
    assert(views(changed@).len() == changed@.len());
    if changed.len() == 0 {
        let part: String = "unknown (fingerprint unchanged; likely message-level change)".to_owned();
        proof {
            lemma_views_push(changed@, part);
        }
        changed.push(part);
    }
    assert(views(changed@) =~= changed_components(opt_fingerprint(*previous), current@));
    changed
}

impl Default for CacheBreakDetector {
    fn default() -> (r: Self)
        ensures
            r@ == (DetectorView {
                previous_fingerprint: None,
                previous_cache_read_tokens: None,
                current_fingerprint: None,
                compaction_pending: false,
            }),
    {
        CacheBreakDetector {
            previous_fingerprint: None,
            previous_cache_read_tokens: None,
            current_fingerprint: None,
            compaction_pending: false,
        }
    }
}

impl CacheBreakDetector {
    /// Notes the prompt prefix before a model call.
    pub fn record_prompt_state(
        &mut self,
        static_blocks: &Vec<SystemPromptBlock>,
        tool_definitions: &Vec<ToolDefinition>,
        model: &str,
    )
        ensures
            final(self)@ == (DetectorView {
                current_fingerprint: Some(
                    FingerprintView {
                        system_hash: texts_hash(block_texts(static_blocks@)),
                        tools_hash: texts_hash(definition_texts(tool_definitions@)),
                        model: model@,
                    },
                ),
                ..old(self)@
            }),
    {
        self.current_fingerprint = Some(
            PromptStateFingerprint {
                system_hash: hash_blocks(static_blocks),
                tools_hash: hash_tool_definitions(tool_definitions),
                model: model.to_owned(),
            },
        );
    }

    /// Compares a response's cached tokens with those of the turn before, and keeps
    /// them for the turn after.
    pub fn check_response(
        &mut self,
        cache_read_input_tokens: u64,
        model_id: &str,
        provider: &str,
    ) -> (r: Option<CacheBreakReport>)
        ensures
            final(self)@ == old(self)@.after_response(cache_read_input_tokens),
            match r {
                Some(report) => old(self)@.report(cache_read_input_tokens, model_id@, provider@)
                    == Some(report@),
                None => old(self)@.report(cache_read_input_tokens, model_id@, provider@) is None,
            },
    {
        let recorded: Option<PromptStateFingerprint> = self.current_fingerprint.take();
        let previous: Option<PromptStateFingerprint> = self.previous_fingerprint.take();
        let previous_tokens: Option<u64> = self.previous_cache_read_tokens;
        let compacted: bool = self.compaction_pending;
        self.compaction_pending = false;
        self.previous_cache_read_tokens = Some(cache_read_input_tokens);
        let current: PromptStateFingerprint = match recorded {
            Some(current) => current,
            None => {
                return None;
            },
        };
        self.previous_fingerprint = Some(current.clone());
        if compacted {
            return None;
        }
        let before: u64 = match previous_tokens {
            Some(n) => n,
            None => {
                return None;
            },
        };
        if before <= cache_read_input_tokens {
            return None;
        }
        let drop: u64 = before - cache_read_input_tokens;
        if drop <= CACHE_BREAK_ABSOLUTE_THRESHOLD || drop as u128 * CACHE_BREAK_RELATIVE_PARTS
            <= before as u128 {
            return None;
        }
        Some(
            CacheBreakReport {
                previous_tokens: before,
                current_tokens: cache_read_input_tokens,
                tokens_lost: drop,
                component_changed: diagnose(&previous, &current),
                provider: provider.to_owned(),
                model_id: model_id.to_owned(),
            },
        )
    }

    /// Notes that a compaction has changed the buffer.
    pub fn notify_compaction(&mut self)
        ensures
            final(self)@ == (DetectorView { compaction_pending: true, ..old(self)@ }),
    {
        self.compaction_pending = true;
    }

    /// The model of the turn whose response was checked last.
    pub fn previous_fingerprint_model(&self) -> (r: Option<&str>)
        ensures
            opt_str_view(r) == (match self@.previous_fingerprint {
                Some(f) => Some(f.model),
                None => None,
            }),
    {
        match &self.previous_fingerprint {
            Some(f) => Some(f.model.as_str()),
            None => None,
        }
    }
}

/// There is no report on a first response, on the one after a compaction, after a
/// turn without cached tokens, and where the cached tokens did not drop.
pub proof fn law_no_false_break(
    detector: DetectorView,
    tokens: u64,
    model_id: Seq<char>,
    provider: Seq<char>,
)
    ensures
        detector.previous_cache_read_tokens is None ==> detector.report(tokens, model_id, provider)
            is None,
        detector.compaction_pending ==> detector.report(tokens, model_id, provider) is None,
        detector.previous_cache_read_tokens == Some(0u64) ==> detector.report(
            tokens,
            model_id,
            provider,
        ) is None,
        detector.previous_cache_read_tokens matches Some(n) && n <= tokens ==> detector.report(
            tokens,
            model_id,
            provider,
        ) is None,
{
}

/// Every response sets the baseline for the next one, whatever was recorded before
/// its call: a response that reads no fewer tokens than the one before it shows no
/// break.
pub proof fn law_every_response_sets_the_baseline(
    detector: DetectorView,
    first: u64,
    recorded: Option<FingerprintView>,
    second: u64,
    model_id: Seq<char>,
    provider: Seq<char>,
)
    ensures
        ({
            let after = detector.after_response(first);
            &&& after.previous_cache_read_tokens == Some(first)
            &&& second >= first ==> (DetectorView {
                current_fingerprint: recorded,
                ..after
            }).report(second, model_id, provider) is None
        }),
{
}

/// A compaction skips one comparison only: the response after it sets the baseline
/// that the next one is compared with.
pub proof fn law_compaction_skips_one(
    detector: DetectorView,
    first: u64,
    current: FingerprintView,
)
    ensures
        ({
            let noted = DetectorView {
                current_fingerprint: Some(current),
                compaction_pending: true,
                ..detector
            };
            let after = noted.after_response(first);
            &&& after.previous_cache_read_tokens == Some(first)
            &&& after.previous_fingerprint == Some(current)
            &&& !after.compaction_pending
        }),
{
}

} // verus!
