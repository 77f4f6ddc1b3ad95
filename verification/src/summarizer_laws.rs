//! What holds of every compaction with a structured summary.

use crate::compact::{all_without_thinking, compaction_split, has_summary, spliced};
use crate::compact_laws::{law_split_begins_cleanly, lemma_spliced_paired, paired};
use crate::digest::{is_structured_summary, messages_digest};
use crate::message::MessageView;
use crate::summarizer::{
    remote_success, summarized, summary_message, JobView, RemoteReply, ReplyView,
    StructuredCompactError, VerdictView, MAX_DROP_OLDEST_RETRIES,
};
use crate::text::trim;
use vstd::prelude::*;

verus! {

/// The older half is left out at most so often, whatever the replies are; what was
/// discarded stays as it is; and an accepted text has every section and is not
/// blank.
pub proof fn law_summary_run(job: JobView, replies: Seq<ReplyView>)
    requires
        0 <= job.drop_oldest_retries <= MAX_DROP_OLDEST_RETRIES,
    ensures
        ({
            let (done, verdict) = job.run(replies);
            &&& job.drop_oldest_retries <= done.drop_oldest_retries <= MAX_DROP_OLDEST_RETRIES
            &&& done.discarded == job.discarded
            &&& done.thinking_stripped == job.thinking_stripped
            &&& verdict matches VerdictView::Accepted(text) ==> is_structured_summary(text)
                && trim(text).len() > 0
        }),
    decreases replies.len(),
{
    if job.pending.len() > 0 && replies.len() > 0 {
        if job.verdict(replies[0]) is None {
            law_summary_run(job.after(replies[0]), replies.skip(1));
        }
    }
}

/// A prompt that overflows every time is given up after the last retry, or sooner
/// where nothing is left to leave out.
pub proof fn law_overflow_is_given_up(job: JobView, replies: Seq<ReplyView>)
    requires
        0 <= job.drop_oldest_retries <= MAX_DROP_OLDEST_RETRIES,
        replies.len() > MAX_DROP_OLDEST_RETRIES - job.drop_oldest_retries,
        forall|i: int| 0 <= i < replies.len() ==> (#[trigger] replies[i]) is ContextWindowExceeded,
    ensures
        job.run(replies).1 == VerdictView::Rejected(StructuredCompactError::OverflowAfterRetries),
    decreases replies.len(),
{
    assert(replies[0] is ContextWindowExceeded);
    if job.pending.len() > 0 && job.verdict(replies[0]) is None {
        assert forall|i: int| 0 <= i < replies.skip(1).len() implies (
        #[trigger] replies.skip(1)[i]) is ContextWindowExceeded by {
            assert(replies[i + 1] is ContextWindowExceeded);
        }
        law_overflow_is_given_up(job.after(replies[0]), replies.skip(1));
    }
}

/// Where the summary calls decide, the buffer keeps its first message and its tail,
/// and is shorter than before wherever more than one message was compacted. Then it
/// fails exactly with an error, and the digest of what was discarded stands in the
/// buffer. A single message gives way to the model's summary, and stays where there
/// is none.
pub proof fn law_structured_summary(
    messages: Seq<MessageView>,
    retain: int,
    remote: RemoteReply,
    replies: Seq<ReplyView>,
)
    requires
        retain >= 0,
        !(remote is Output),
    ensures
        ({
            let split = compaction_split(messages, retain);
            let (after, outcome) = summarized(messages, retain, remote, replies);
            &&& after.len() <= messages.len()
            &&& messages.len() > 0 ==> after.len() > 0 && after[0] == messages[0]
            &&& split <= 1 ==> after == messages && !outcome.succeeded && outcome.error is None
            &&& split == 2 && !outcome.succeeded ==> after == messages && outcome.error is None
                && outcome.summary_text is None
            &&& split > 2 || split == 2 && outcome.succeeded ==> {
                &&& after.skip(2) == messages.skip(split)
                &&& after.len() == messages.len() - split + 2
                &&& has_summary(after)
                &&& outcome.discarded_count == split - 1
                &&& outcome.succeeded == (outcome.error is None)
                &&& outcome.summary_text is Some
                &&& after[1] == (MessageView::User {
                    content: summary_message(outcome.summary_text->0),
                })
                &&& outcome.succeeded ==> is_structured_summary(outcome.summary_text->0)
                &&& !outcome.succeeded ==> outcome.summary_text == Some(
                    messages_digest(all_without_thinking(messages.subrange(1, split))),
                )
                &&& 0 <= outcome.drop_oldest_retries <= MAX_DROP_OLDEST_RETRIES
            }
        }),
{
    let split = compaction_split(messages, retain);
    if split > 1 {
        law_split_begins_cleanly(messages, messages.len() - retain);
        let job = JobView::begun(messages.subrange(1, split));
        law_summary_run(job, replies);
        let (after, outcome) = summarized(messages, retain, remote, replies);
        assert(job.discarded.len() == split - 1);
        assert(messages.take(1).len() == 1);
        if split > 2 || outcome.succeeded {
            assert(after.skip(2) =~= messages.skip(split));
            let text = outcome.summary_text->0;
            assert(summary_message(text).subrange(0, "[Conversation summary]\n"@.len() as int)
                =~= "[Conversation summary]\n"@);
        }
    }
}

/// Whatever the endpoint and the summary calls come to, a compaction that fails
/// leaves the buffer shorter than it was, and only one that compacts nothing has no
/// summary; it leaves the buffer as it was.
pub proof fn law_failure_shrinks(
    messages: Seq<MessageView>,
    retain: int,
    remote: RemoteReply,
    replies: Seq<ReplyView>,
)
    requires
        retain >= 0,
    ensures
        ({
            let (after, outcome) = summarized(messages, retain, remote, replies);
            &&& outcome.error is Some ==> after.len() < messages.len()
            &&& outcome.summary_text is None ==> outcome.discarded_count == 0 && after == messages
        }),
{
    let split = compaction_split(messages, retain);
    if split > 1 {
        law_split_begins_cleanly(messages, messages.len() - retain);
        assert(messages.take(1).len() == 1);
        let job = JobView::begun(messages.subrange(1, split));
        assert(job.discarded.len() == split - 1);
        law_summary_run(job, replies);
    }
}

/// Compaction with a structured summary leaves no tool result without the call that
/// it answers.
pub proof fn law_structured_summary_keeps_pairs(
    messages: Seq<MessageView>,
    retain: int,
    remote: RemoteReply,
    replies: Seq<ReplyView>,
)
    requires
        paired(messages),
        retain >= 0,
        !(remote is Output),
    ensures
        paired(summarized(messages, retain, remote, replies).0),
{
    let split = compaction_split(messages, retain);
    if split > 1 {
        law_split_begins_cleanly(messages, messages.len() - retain);
        let (after, outcome) = summarized(messages, retain, remote, replies);
        law_structured_summary(messages, retain, remote, replies);
        if split > 2 || outcome.succeeded {
            let text = summary_message(outcome.summary_text->0);
            assert(after =~= spliced(messages, split, text));
            lemma_spliced_paired(messages, split, text);
        }
    }
}

/// Where there is a compaction endpoint, it alone decides: the compaction succeeds
/// exactly where the endpoint did, whatever replies there are to summary calls.
pub proof fn law_endpoint_decides(
    messages: Seq<MessageView>,
    retain: int,
    remote: RemoteReply,
    replies: Seq<ReplyView>,
)
    requires
        compaction_split(messages, retain) > 1,
        !(remote is Unsupported),
    ensures
        summarized(messages, retain, remote, replies) == summarized(
            messages,
            retain,
            remote,
            seq![],
        ),
        Some(summarized(messages, retain, remote, replies).1.succeeded) == remote_success(remote),
{
}

} // verus!
