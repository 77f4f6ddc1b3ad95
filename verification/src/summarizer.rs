//! Compaction of the message buffer with a structured summary from the model.
//!
//! The model calls are made elsewhere: a [`SummaryJob`] says what to ask, is told
//! what came back, and ends in an outcome.

use crate::compact::{
    adjust_split_for_tool_pairs, all_without_thinking, compaction_split, drain_middle,
    insert_summary, spliced, strip_thinking_content, thinking_count,
};
use crate::digest::{
    build_structured_summary_prompt, is_structured_summary, messages_digest,
    summarize_discarded_messages, summary_prompt, validate_structured_summary,
};
use crate::estimate::capped;
use crate::message::{clone_messages, messages_view, Message, MessageView};
use crate::split::{join_text, lemma_views_push};
use crate::summarizer_laws::law_failure_shrinks;
use crate::text::{join, opt_view, strip_prefix, strip_prefix_text, trim, views};
use crate::trim::trim_text;
use vstd::prelude::*;

verus! {

/// How often a summary is asked for again with the older half of the discarded
/// messages left out.
pub const MAX_DROP_OLDEST_RETRIES: u32 = 3;

/// Why no summary of the model could be used.
#[derive(Debug, Clone, Copy, PartialEq, Eq, Structural)]
pub enum StructuredCompactError {
    /// The prompt did not fit even after every retry.
    OverflowAfterRetries,
    /// The call failed, or returned nothing.
    ProviderFailure,
    /// The text lacks one of the sections.
    ContractViolation,
}

/// What one structured-summary compaction did.
#[derive(Debug)]
pub struct StructuredCompactOutcome {
    /// A summary of the model stands in the buffer.
    pub succeeded: bool,
    /// The prompt tokens of all calls.
    pub prompt_tokens: u64,
    /// The output tokens of all calls.
    pub output_tokens: u64,
    /// How often the older half was left out.
    pub drop_oldest_retries: u32,
    /// How many messages were taken out of the buffer.
    pub discarded_count: usize,
    /// Why the model's summary could not be used, where it could not.
    pub error: Option<StructuredCompactError>,
    /// How many of the discarded messages lost a thinking block.
    pub thinking_stripped: u32,
    /// The summary that stands in the buffer; none only where nothing was compacted.
    pub summary_text: Option<String>,
}

/// The contents of an outcome.
#[verifier::ext_equal]
pub struct OutcomeView {
    pub succeeded: bool,
    pub prompt_tokens: int,
    pub output_tokens: int,
    pub drop_oldest_retries: int,
    pub discarded_count: int,
    pub error: Option<StructuredCompactError>,
    pub thinking_stripped: int,
    pub summary_text: Option<Seq<char>>,
}

impl View for StructuredCompactOutcome {
    type V = OutcomeView;

    open spec fn view(&self) -> OutcomeView {
        OutcomeView {
            succeeded: self.succeeded,
            prompt_tokens: self.prompt_tokens as int,
            output_tokens: self.output_tokens as int,
            drop_oldest_retries: self.drop_oldest_retries as int,
            discarded_count: self.discarded_count as int,
            error: self.error,
            thinking_stripped: self.thinking_stripped as int,
            summary_text: opt_view(self.summary_text),
        }
    }
}

pub open spec fn nothing_compacted() -> OutcomeView {
    OutcomeView {
        succeeded: false,
        prompt_tokens: 0,
        output_tokens: 0,
        drop_oldest_retries: 0,
        discarded_count: 0,
        error: None,
        thinking_stripped: 0,
        summary_text: None,
    }
}

impl StructuredCompactOutcome {
    pub fn nothing_to_compact() -> (r: Self)
        ensures
            r@ == nothing_compacted(),
    {
        StructuredCompactOutcome {
            succeeded: false,
            prompt_tokens: 0,
            output_tokens: 0,
            drop_oldest_retries: 0,
            discarded_count: 0,
            error: None,
            thinking_stripped: 0,
            summary_text: None,
        }
    }
}

/// What a summary call came to.
#[derive(Debug)]
pub enum SummarizerReply {
    Generated { prompt_tokens: u64, output_tokens: u64, text: String },
    ContextWindowExceeded,
    /// Any other error, or a timeout.
    Failed,
}

/// What a compaction endpoint of the provider came to.
#[derive(Debug)]
pub enum RemoteReply {
    /// No provider has such an endpoint.
    Unsupported,
    Failed,
    Output { messages: Vec<Message>, prompt_tokens: u64, output_tokens: u64 },
}

pub enum ReplyView {
    Generated { prompt_tokens: int, output_tokens: int, text: Seq<char> },
    ContextWindowExceeded,
    Failed,
}

impl View for SummarizerReply {
    type V = ReplyView;

    open spec fn view(&self) -> ReplyView {
        match self {
            SummarizerReply::Generated { prompt_tokens, output_tokens, text } =>
                ReplyView::Generated {
                prompt_tokens: *prompt_tokens as int,
                output_tokens: *output_tokens as int,
                text: text@,
            },
            SummarizerReply::ContextWindowExceeded => ReplyView::ContextWindowExceeded,
            SummarizerReply::Failed => ReplyView::Failed,
        }
    }
}

pub open spec fn replies_view(replies: Seq<SummarizerReply>) -> Seq<ReplyView> {
    replies.map_values(|r: SummarizerReply| r@)
}

/// The verdict on a summary.
pub enum VerdictView {
    Accepted(Seq<char>),
    Rejected(StructuredCompactError),
}

#[derive(Debug)]
pub enum SummaryVerdict {
    Accepted(String),
    Rejected(StructuredCompactError),
}

impl View for SummaryVerdict {
    type V = VerdictView;

    open spec fn view(&self) -> VerdictView {
        match self {
            SummaryVerdict::Accepted(text) => VerdictView::Accepted(text@),
            SummaryVerdict::Rejected(error) => VerdictView::Rejected(*error),
        }
    }
}

/// The verdict on a text that the model returned.
pub open spec fn judged(text: Seq<char>) -> VerdictView {
    if trim(text).len() == 0 {
        VerdictView::Rejected(StructuredCompactError::ProviderFailure)
    } else if is_structured_summary(text) {
        VerdictView::Accepted(text)
    } else {
        VerdictView::Rejected(StructuredCompactError::ContractViolation)
    }
}

/// A compaction that waits for the model.
#[derive(Debug)]
pub struct SummaryJob {
    /// What a summary is to stand for, without thinking blocks.
    pub discarded: Vec<Message>,
    /// What the next prompt covers.
    pub pending: Vec<Message>,
    pub drop_oldest_retries: u32,
    pub prompt_tokens: u64,
    pub output_tokens: u64,
    pub thinking_stripped: u32,
}

#[verifier::ext_equal]
pub struct JobView {
    pub discarded: Seq<MessageView>,
    pub pending: Seq<MessageView>,
    pub drop_oldest_retries: int,
    pub prompt_tokens: int,
    pub output_tokens: int,
    pub thinking_stripped: int,
}

impl View for SummaryJob {
    type V = JobView;

    open spec fn view(&self) -> JobView {
        JobView {
            discarded: messages_view(self.discarded@),
            pending: messages_view(self.pending@),
            drop_oldest_retries: self.drop_oldest_retries as int,
            prompt_tokens: self.prompt_tokens as int,
            output_tokens: self.output_tokens as int,
            thinking_stripped: self.thinking_stripped as int,
        }
    }
}

impl JobView {
    /// The job of summarizing `discarded`, before the first call.
    pub open spec fn begun(discarded: Seq<MessageView>) -> JobView {
        JobView {
            discarded: all_without_thinking(discarded),
            pending: all_without_thinking(discarded),
            drop_oldest_retries: 0,
            prompt_tokens: 0,
            output_tokens: 0,
            thinking_stripped: thinking_count(discarded) as int,
        }
    }

    /// The job after a reply.
    pub open spec fn after(self, reply: ReplyView) -> JobView {
        match reply {
            ReplyView::Generated { prompt_tokens, output_tokens, .. } => JobView {
                prompt_tokens: capped(self.prompt_tokens + prompt_tokens),
                output_tokens: capped(self.output_tokens + output_tokens),
                ..self
            },
            ReplyView::ContextWindowExceeded => if self.drop_oldest_retries
                >= MAX_DROP_OLDEST_RETRIES {
                self
            } else {
                JobView {
                    drop_oldest_retries: self.drop_oldest_retries + 1,
                    pending: self.pending.skip((self.pending.len() as int + 1) / 2),
                    ..self
                }
            },
            ReplyView::Failed => self,
        }
    }

    /// The verdict that a reply leads to; none where the model is asked again.
    pub open spec fn verdict(self, reply: ReplyView) -> Option<VerdictView> {
        match reply {
            ReplyView::Generated { text, .. } => Some(judged(text)),
            ReplyView::ContextWindowExceeded => if self.drop_oldest_retries
                >= MAX_DROP_OLDEST_RETRIES {
                Some(VerdictView::Rejected(StructuredCompactError::OverflowAfterRetries))
            } else {
                None
            },
            ReplyView::Failed => Some(
                VerdictView::Rejected(StructuredCompactError::ProviderFailure),
            ),
        }
    }

    /// The job and the verdict once the replies have come in one after the other;
    /// a call that no reply answers has failed.
    pub open spec fn run(self, replies: Seq<ReplyView>) -> (JobView, VerdictView)
        decreases replies.len(),
    {
        if self.pending.len() == 0 {
            (self, VerdictView::Rejected(StructuredCompactError::OverflowAfterRetries))
        } else if replies.len() == 0 {
            (self, VerdictView::Rejected(StructuredCompactError::ProviderFailure))
        } else {
            match self.verdict(replies[0]) {
                Some(verdict) => (self.after(replies[0]), verdict),
                None => self.after(replies[0]).run(replies.skip(1)),
            }
        }
    }

    /// The summary that a verdict leaves in the buffer: the model's text, or the
    /// digest of everything that was discarded.
    pub open spec fn summary(self, verdict: VerdictView) -> Seq<char> {
        match verdict {
            VerdictView::Accepted(text) => text,
            VerdictView::Rejected(_) => messages_digest(self.discarded),
        }
    }

    /// A single message for which there is no summary of the model stays in the
    /// buffer: its digest would leave the buffer as long as it was.
    pub open spec fn leaves_alone(self, verdict: VerdictView) -> bool {
        verdict is Rejected && self.discarded.len() == 1
    }

    /// The buffer once the verdict has been carried out.
    pub open spec fn buffer(self, messages: Seq<MessageView>, verdict: VerdictView) -> Seq<
        MessageView,
    > {
        if self.leaves_alone(verdict) {
            messages
        } else {
            spliced(
                messages,
                (self.discarded.len() + 1) as int,
                summary_message(self.summary(verdict)),
            )
        }
    }

    pub open spec fn outcome(self, verdict: VerdictView) -> OutcomeView {
        let spent = OutcomeView {
            prompt_tokens: self.prompt_tokens,
            output_tokens: self.output_tokens,
            drop_oldest_retries: self.drop_oldest_retries,
            ..nothing_compacted()
        };
        if self.leaves_alone(verdict) {
            spent
        } else {
            OutcomeView {
                succeeded: verdict is Accepted,
                discarded_count: self.discarded.len() as int,
                error: match verdict {
                    VerdictView::Accepted(_) => None,
                    VerdictView::Rejected(error) => Some(error),
                },
                thinking_stripped: self.thinking_stripped,
                summary_text: Some(self.summary(verdict)),
                ..spent
            }
        }
    }
}

/// The message that carries a summary.
pub open spec fn summary_message(summary: Seq<char>) -> Seq<char> {
    "[Conversation summary]\n"@ + summary
}

/// Picks out what is to be summarized: everything between the first message and the
/// last `retain_tail` ones. The buffer changes only when the job is concluded.
pub fn begin_structured_summary(messages: &Vec<Message>, retain_tail: usize) -> (r: Option<
    SummaryJob,
>)
    requires
        retain_tail < usize::MAX,
        messages.len() <= u32::MAX,
    ensures
        ({
            let all = messages_view(messages@);
            let split = compaction_split(all, retain_tail as int);
            match r {
                Some(job) => {
                    &&& 1 < split <= all.len()
                    &&& job@ == JobView::begun(all.subrange(1, split))
                },
                None => split <= 1,
            }
        }),
{
    if messages.len() <= retain_tail + 1 {
        return None;
    }
    let split: usize = adjust_split_for_tool_pairs(messages, messages.len() - retain_tail);
    if split <= 1 {
        return None;
    }
    let mut discarded: Vec<Message> = clone_messages(messages, 1, split);
    assert(messages_view(discarded@).len() == discarded@.len());
    let thinking_stripped: u32 = strip_thinking_content(&mut discarded);
    let pending: Vec<Message> = clone_messages(&discarded, 0, discarded.len());
    assert(messages_view(pending@) =~= messages_view(discarded@));
    Some(
        SummaryJob {
            discarded,
            pending,
            drop_oldest_retries: 0,
            prompt_tokens: 0,
            output_tokens: 0,
            thinking_stripped,
        },
    )
}

impl SummaryJob {
    /// The prompt to send next, unless nothing is left to summarize.
    pub fn next_prompt(&self) -> (r: Option<String>)
        ensures
            opt_view(r) == (if self@.pending.len() == 0 {
                None
            } else {
                Some(summary_prompt(messages_digest(self@.pending)))
            }),
    {
        if self.pending.len() == 0 {
            None
        } else {
            let digest: String = summarize_discarded_messages(&self.pending);
            Some(build_structured_summary_prompt(digest.as_str()))
        }
    }

    /// Takes in what a call came to. Returns the verdict, or nothing where the
    /// model is to be asked again.
    pub fn absorb(&mut self, reply: &SummarizerReply) -> (r: Option<SummaryVerdict>)
        requires
            old(self).drop_oldest_retries <= MAX_DROP_OLDEST_RETRIES,
        ensures
            final(self)@ == old(self)@.after(reply@),
            final(self).drop_oldest_retries <= MAX_DROP_OLDEST_RETRIES,
            match r {
                Some(verdict) => old(self)@.verdict(reply@) == Some(verdict@),
                None => old(self)@.verdict(reply@) is None,
            },
    {
        match reply {
            SummarizerReply::Generated { prompt_tokens, output_tokens, text } => {
                self.prompt_tokens = self.prompt_tokens.saturating_add(*prompt_tokens);
                self.output_tokens = self.output_tokens.saturating_add(*output_tokens);
                let body: String = trim_text(text.as_str());
                if body.as_str().is_empty() {
                    Some(SummaryVerdict::Rejected(StructuredCompactError::ProviderFailure))
                } else if validate_structured_summary(text.as_str()) {
                    Some(SummaryVerdict::Accepted(text.clone()))
                } else {
                    Some(SummaryVerdict::Rejected(StructuredCompactError::ContractViolation))
                }
            },
            SummarizerReply::ContextWindowExceeded => {
                if self.drop_oldest_retries >= MAX_DROP_OLDEST_RETRIES {
                    return Some(
                        SummaryVerdict::Rejected(StructuredCompactError::OverflowAfterRetries),
                    );
                }
                self.drop_oldest_retries = self.drop_oldest_retries + 1;
                let ghost before = messages_view(self.pending@);
                let n: usize = self.pending.len();
                let drop: usize = n / 2 + n % 2;
                self.pending = self.pending.split_off(drop);
                assert(messages_view(self.pending@) =~= before.skip((n as int + 1) / 2));
                None
            },
            SummarizerReply::Failed => Some(
                SummaryVerdict::Rejected(StructuredCompactError::ProviderFailure),
            ),
        }
    }

    /// Puts the summary that the verdict leads to into the buffer, in place of what
    /// was to be summarized.
    pub fn conclude(self, messages: &mut Vec<Message>, verdict: SummaryVerdict) -> (r:
        StructuredCompactOutcome)
        requires
            old(messages).len() > self.discarded.len(),
        ensures
            r@ == self@.outcome(verdict@),
            messages_view(final(messages)@) == self@.buffer(
                messages_view(old(messages)@),
                verdict@,
            ),
    {
        assert(messages_view(self.discarded@).len() == self.discarded@.len());
        let (summary, succeeded, error): (String, bool, Option<StructuredCompactError>) = match verdict {
            SummaryVerdict::Accepted(text) => (text, true, None),
            SummaryVerdict::Rejected(error) => {
                if self.discarded.len() == 1 {
                    return StructuredCompactOutcome {
                        prompt_tokens: self.prompt_tokens,
                        output_tokens: self.output_tokens,
                        drop_oldest_retries: self.drop_oldest_retries,
                        ..StructuredCompactOutcome::nothing_to_compact()
                    };
                }
                (summarize_discarded_messages(&self.discarded), false, Some(error))
            },
        };
        let mut content: String = "[Conversation summary]\n".to_owned();
        content.append(summary.as_str());
        let ghost all = messages_view(messages@);
        let split: usize = self.discarded.len() + 1;
        drain_middle(messages, split);
        proof {
            let between = messages_view(messages@);
            assert(between.len() == messages@.len());
            assert(between.take(1) =~= all.take(1));
            assert(between.skip(1) =~= all.skip(split as int));
        }
        insert_summary(messages, content);
        StructuredCompactOutcome {
            succeeded,
            prompt_tokens: self.prompt_tokens,
            output_tokens: self.output_tokens,
            drop_oldest_retries: self.drop_oldest_retries,
            discarded_count: self.discarded.len(),
            error,
            thinking_stripped: self.thinking_stripped,
            summary_text: Some(summary),
        }
    }
}

pub open spec fn message_text(message: MessageView) -> Seq<char> {
    match message {
        MessageView::User { content } => content,
        MessageView::Assistant { text, .. } => text,
        MessageView::ToolResult { content, .. } => content,
    }
}

/// The texts of the messages that have one, in order.
pub open spec fn message_texts(messages: Seq<MessageView>) -> Seq<Seq<char>>
    decreases messages.len(),
{
    if messages.len() == 0 {
        seq![]
    } else if message_text(messages.last()).len() == 0 {
        message_texts(messages.drop_last())
    } else {
        message_texts(messages.drop_last()).push(message_text(messages.last()))
    }
}

/// The summary that a compaction endpoint returned: the texts of its messages,
/// without a summary marker at the start; none where there is no text.
pub open spec fn remote_summary(messages: Seq<MessageView>) -> Option<Seq<char>> {
    let texts = message_texts(messages);
    if texts.len() == 0 {
        None
    } else {
        let joined = join(texts, "\n"@);
        match strip_prefix(joined, "[Conversation summary]\n"@) {
            Some(rest) => Some(rest),
            None => Some(joined),
        }
    }
}

pub fn extract_summary_text(messages: &Vec<Message>) -> (r: Option<String>)
    ensures
        opt_view(r) == remote_summary(messages_view(messages@)),
{
    let ghost all = messages_view(messages@);
    let mut pieces: Vec<String> = Vec::new();
    let mut i: usize = 0;
    assert(views(pieces@) =~= message_texts(all.take(0)));
    while i < messages.len()
        invariant
            i <= messages.len(),
            all == messages_view(messages@),
            views(pieces@) == message_texts(all.take(i as int)),
        decreases messages.len() - i,
    {
        assert(all.take(i + 1).drop_last() =~= all.take(i as int));
        assert(all.take(i + 1).last() == messages@[i as int]@);
        let text: &String = match &messages[i] {
            Message::User { content } => content,
            Message::Assistant { text, .. } => text,
            Message::ToolResult { content, .. } => content,
        };
        if !text.as_str().is_empty() {
            let piece: String = text.clone();
            proof {
                lemma_views_push(pieces@, piece);
            }
            pieces.push(piece);
        }
        i = i + 1;
    }
    assert(all.take(i as int) =~= all);
    assert(views(pieces@).len() == pieces@.len());
    if pieces.len() == 0 {
        return None;
    }
    let joined: String = join_text(&pieces, "\n");
    match strip_prefix_text(joined.as_str(), "[Conversation summary]\n") {
        Some(rest) => Some(rest),
        None => Some(joined),
    }
}

/// The buffer and the outcome of a structured-summary compaction, given what the
/// compaction endpoint and then the summary calls came to.
pub open spec fn summarized(
    messages: Seq<MessageView>,
    retain: int,
    remote: RemoteReply,
    replies: Seq<ReplyView>,
) -> (Seq<MessageView>, OutcomeView) {
    let split = compaction_split(messages, retain);
    let job = JobView::begun(messages.subrange(1, split));
    let failed = VerdictView::Rejected(StructuredCompactError::ProviderFailure);
    let by_verdict = |done: JobView, verdict: VerdictView|
        (done.buffer(messages, verdict), done.outcome(verdict));
    if split <= 1 {
        (messages, nothing_compacted())
    } else {
        match remote {
            RemoteReply::Unsupported => {
                let (done, verdict) = job.run(replies);
                by_verdict(done, verdict)
            },
            RemoteReply::Failed => by_verdict(job, failed),
            RemoteReply::Output { messages: output, prompt_tokens, output_tokens } => {
                let inserted = messages_view(output@);
                match remote_summary(inserted) {
                    None => by_verdict(job, failed),
                    Some(text) => (
                        messages.take(1) + inserted + messages.skip(split),
                        OutcomeView {
                            succeeded: true,
                            prompt_tokens: prompt_tokens as int,
                            output_tokens: output_tokens as int,
                            drop_oldest_retries: 0,
                            discarded_count: split - 1,
                            error: None,
                            thinking_stripped: job.thinking_stripped,
                            summary_text: Some(text),
                        },
                    ),
                }
            },
        }
    }
}

/// Puts the messages of a compaction endpoint in place of those before the split.
fn replace_messages(messages: &mut Vec<Message>, split: usize, inserted: Vec<Message>)
    requires
        1 <= split <= old(messages).len(),
    ensures
        messages_view(final(messages)@) == messages_view(old(messages)@).take(1) + messages_view(
            inserted@,
        ) + messages_view(old(messages)@).skip(split as int),
{
    let ghost all = messages_view(messages@);
    let ghost between = messages_view(inserted@);
    let mut tail: Vec<Message> = messages.split_off(split);
    let ghost tail_view = messages_view(tail@);
    assert(tail_view =~= all.skip(split as int));
    messages.truncate(1);
    let mut moved: Vec<Message> = inserted;
    messages.append(&mut moved);
    messages.append(&mut tail);
    assert(messages_view(messages@) =~= all.take(1) + between + all.skip(split as int));
}

/// Whether the compaction endpoint succeeded; none where there is no such endpoint
/// and the summary calls decide. An output without any text is a failure.
pub open spec fn remote_success(remote: RemoteReply) -> Option<bool> {
    match remote {
        RemoteReply::Unsupported => None,
        RemoteReply::Failed => Some(false),
        RemoteReply::Output { messages, .. } => Some(
            remote_summary(messages_view(messages@)) is Some,
        ),
    }
}

pub fn remote_succeeded(remote: &RemoteReply) -> (r: Option<bool>)
    ensures
        r == remote_success(*remote),
{
    match remote {
        RemoteReply::Unsupported => None,
        RemoteReply::Failed => Some(false),
        RemoteReply::Output { messages, .. } => Some(extract_summary_text(messages).is_some()),
    }
}

/// Takes in what the compaction endpoint came to: either the compaction is done,
/// or the job goes on to the summary calls.
pub fn absorb_remote(job: SummaryJob, messages: &mut Vec<Message>, remote: RemoteReply) -> (r: Result<
    StructuredCompactOutcome,
    SummaryJob,
>)
    requires
        old(messages).len() > job.discarded.len(),
    ensures
        ({
            let before = messages_view(old(messages)@);
            let after = messages_view(final(messages)@);
            let failed = VerdictView::Rejected(StructuredCompactError::ProviderFailure);
            let has_failed = r is Ok && r->Ok_0@ == job@.outcome(failed) && after == job@.buffer(
                before,
                failed,
            );
            match remote {
                RemoteReply::Unsupported => r == Err::<StructuredCompactOutcome, SummaryJob>(job)
                    && after == before,
                RemoteReply::Failed => has_failed,
                RemoteReply::Output { messages: output, prompt_tokens, output_tokens } => {
                    let inserted = messages_view(output@);
                    match remote_summary(inserted) {
                        None => has_failed,
                        Some(text) => {
                            &&& r is Ok
                            &&& r->Ok_0@ == (OutcomeView {
                                succeeded: true,
                                prompt_tokens: prompt_tokens as int,
                                output_tokens: output_tokens as int,
                                drop_oldest_retries: 0,
                                discarded_count: job@.discarded.len() as int,
                                error: None,
                                thinking_stripped: job@.thinking_stripped,
                                summary_text: Some(text),
                            })
                            &&& after == before.take(1) + inserted + before.skip(
                                (job@.discarded.len() + 1) as int,
                            )
                        },
                    }
                },
            }
        }),
{
    assert(messages_view(job.discarded@).len() == job.discarded@.len());
    match remote {
        RemoteReply::Unsupported => Err(job),
        RemoteReply::Failed => Ok(
            job.conclude(
                messages,
                SummaryVerdict::Rejected(StructuredCompactError::ProviderFailure),
            ),
        ),
        RemoteReply::Output { messages: output, prompt_tokens, output_tokens } => {
            let text: String = match extract_summary_text(&output) {
                Some(text) => text,
                None => {
                    return Ok(
                        job.conclude(
                            messages,
                            SummaryVerdict::Rejected(StructuredCompactError::ProviderFailure),
                        ),
                    );
                },
            };
            let split: usize = job.discarded.len() + 1;
            replace_messages(messages, split, output);
            Ok(
                StructuredCompactOutcome {
                    succeeded: true,
                    prompt_tokens,
                    output_tokens,
                    drop_oldest_retries: 0,
                    discarded_count: job.discarded.len(),
                    error: None,
                    thinking_stripped: job.thinking_stripped,
                    summary_text: Some(text),
                },
            )
        },
    }
}

/// Compacts the buffer, given what the compaction endpoint and the summary calls
/// came to.
pub fn compact_messages_with_structured_summary(
    messages: &mut Vec<Message>,
    retain_tail: usize,
    remote: RemoteReply,
    replies: &Vec<SummarizerReply>,
) -> (r: StructuredCompactOutcome)
    requires
        retain_tail < usize::MAX,
        old(messages).len() <= u32::MAX,
    ensures
        (messages_view(final(messages)@), r@) == summarized(
            messages_view(old(messages)@),
            retain_tail as int,
            remote,
            replies_view(replies@),
        ),
        r.error is Some ==> final(messages).len() < old(messages).len(),
        r.summary_text is None ==> r.discarded_count == 0,
{
    proof {
        law_failure_shrinks(
            messages_view(messages@),
            retain_tail as int,
            remote,
            replies_view(replies@),
        );
    }
    let ghost all = messages_view(messages@);
    let ghost split = compaction_split(all, retain_tail as int);
    let begun: Option<SummaryJob> = begin_structured_summary(messages, retain_tail);
    let mut job: SummaryJob = match begun {
        Some(job) => job,
        None => {
            return StructuredCompactOutcome::nothing_to_compact();
        },
    };
    let ghost start = job@;
    proof {
        assert(messages_view(messages@).len() == messages@.len());
        assert(messages_view(job.discarded@).len() == job.discarded@.len());
    }
    let ghost remote_view = remote;
    match absorb_remote(job, messages, remote) {
        Ok(outcome) => {
            return outcome;
        },
        Err(same) => {
            job = same;
        },
    }
    let ghost all_replies = replies_view(replies@);
    let mut i: usize = 0;
    assert(all_replies.skip(0) =~= all_replies);
    while i < replies.len() && job.pending.len() > 0
        invariant
            i <= replies.len(),
            all_replies == replies_view(replies@),
            messages.len() > job.discarded.len(),
            messages_view(messages@) == all,
            job@.discarded == start.discarded,
            job.drop_oldest_retries <= MAX_DROP_OLDEST_RETRIES,
            job@.run(all_replies.skip(i as int)) == start.run(all_replies),
            split > 1,
            start == JobView::begun(all.subrange(1, split)),
            all == messages_view(old(messages)@),
            split == compaction_split(all, retain_tail as int),
            remote_view == remote,
            remote_view is Unsupported,
        decreases replies.len() - i,
    {
        assert(all_replies.skip(i as int)[0] == replies@[i as int]@);
        assert(all_replies.skip(i as int).skip(1) =~= all_replies.skip(i + 1));
        let verdict: Option<SummaryVerdict> = job.absorb(&replies[i]);
        assert(messages_view(job.discarded@).len() == job.discarded@.len());
        match verdict {
            Some(verdict) => {
                proof {
                    law_failure_shrinks(all, retain_tail as int, remote_view, all_replies);
                }
                return job.conclude(messages, verdict);
            },
            None => {},
        }
        i = i + 1;
    }
    let error: StructuredCompactError = if job.pending.len() == 0 {
        StructuredCompactError::OverflowAfterRetries
    } else {
        StructuredCompactError::ProviderFailure
    };
    job.conclude(messages, SummaryVerdict::Rejected(error))
}

} // verus!
