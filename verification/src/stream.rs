//! What a streamed answer comes to, piece by piece.

use crate::events::{emit, events_view, EventView, LoopEvent};
use crate::text::str_eq;
use vstd::prelude::*;

verus! {

/// A piece of a streamed answer.
#[derive(Debug)]
pub enum StreamChunk {
    TextDelta { text: String },
    ToolCallStart { id: String, name: String },
    ToolCallDelta { id: String, arguments_chunk: String },
    ToolCallDone { id: String },
    Done,
}

/// A tool call with the text of its arguments, as far as it has come.
#[derive(Debug)]
pub struct StreamedCall {
    pub id: String,
    pub name: String,
    pub arguments: String,
}

#[verifier::ext_equal]
pub struct StreamedCallView {
    pub id: Seq<char>,
    pub name: Seq<char>,
    pub arguments: Seq<char>,
}

impl View for StreamedCall {
    type V = StreamedCallView;

    open spec fn view(&self) -> StreamedCallView {
        StreamedCallView { id: self.id@, name: self.name@, arguments: self.arguments@ }
    }
}

pub open spec fn streamed_calls(calls: Seq<StreamedCall>) -> Seq<StreamedCallView> {
    calls.map_values(|c: StreamedCall| c@)
}

/// The text, the calls that have begun, by their ids, and those that are complete.
#[verifier::ext_equal]
pub struct StreamView {
    pub text: Seq<char>,
    pub pending: Map<Seq<char>, StreamedCallView>,
    pub finished: Seq<StreamedCallView>,
}

/// A streamed answer as far as it has come.
#[derive(Debug)]
pub struct StreamAccumulator {
    text: String,
    pending: Vec<StreamedCall>,
    finished: Vec<StreamedCall>,
}

/// The calls by their ids.
pub open spec fn by_id(calls: Seq<StreamedCall>) -> Map<Seq<char>, StreamedCallView>
    decreases calls.len(),
{
    if calls.len() == 0 {
        Map::empty()
    } else {
        by_id(calls.drop_last()).insert(calls.last().id@, calls.last()@)
    }
}

/// No two calls have the same id.
pub open spec fn distinct(calls: Seq<StreamedCall>) -> bool {
    forall|i: int, j: int|
        0 <= i < j < calls.len() ==> (#[trigger] calls[i]).id@ != (#[trigger] calls[j]).id@
}

proof fn lemma_by_id(calls: Seq<StreamedCall>)
    requires
        distinct(calls),
    ensures
        forall|i: int|
            0 <= i < calls.len() ==> by_id(calls).dom().contains((#[trigger] calls[i]).id@)
                && by_id(calls)[calls[i].id@] == calls[i]@,
        forall|id: Seq<char>| #[trigger]
            by_id(calls).dom().contains(id) ==> exists|i: int|
                0 <= i < calls.len() && (#[trigger] calls[i]).id@ == id,
    decreases calls.len(),
{
    if calls.len() > 0 {
        let front = calls.drop_last();
        assert(distinct(front)) by {
            assert forall|i: int, j: int| 0 <= i < j < front.len() implies (
            #[trigger] front[i]).id@ != (#[trigger] front[j]).id@ by {
                assert(calls[i].id@ != calls[j].id@);
            }
        }
        lemma_by_id(front);
        assert forall|i: int| 0 <= i < calls.len() implies by_id(calls).dom().contains(
            (#[trigger] calls[i]).id@,
        ) && by_id(calls)[calls[i].id@] == calls[i]@ by {
            if i < front.len() {
                assert(front[i] == calls[i]);
                assert(calls[i].id@ != calls[calls.len() - 1].id@);
            }
        }
        assert forall|id: Seq<char>| #[trigger] by_id(calls).dom().contains(id) implies exists|
            i: int,
        | 0 <= i < calls.len() && (#[trigger] calls[i]).id@ == id by {
            if id == calls.last().id@ {
                assert(calls[calls.len() - 1].id@ == id);
            } else {
                assert(by_id(front).dom().contains(id));
                let i = choose|i: int| 0 <= i < front.len() && (#[trigger] front[i]).id@ == id;
                assert(calls[i].id@ == id);
            }
        }
    }
}

/// The answer after one more piece. Text is appended. A call begins, anew where it
/// had begun; its arguments grow; it is complete. A piece of a call that has not
/// begun is passed over.
pub open spec fn after_chunk(before: StreamView, chunk: StreamChunk) -> StreamView {
    match chunk {
        StreamChunk::TextDelta { text } => StreamView { text: before.text + text@, ..before },
        StreamChunk::ToolCallStart { id, name } => StreamView {
            pending: before.pending.insert(
                id@,
                StreamedCallView { id: id@, name: name@, arguments: Seq::empty() },
            ),
            ..before
        },
        StreamChunk::ToolCallDelta { id, arguments_chunk } => if before.pending.dom().contains(
            id@,
        ) {
            StreamView {
                pending: before.pending.insert(
                    id@,
                    StreamedCallView {
                        arguments: before.pending[id@].arguments + arguments_chunk@,
                        ..before.pending[id@]
                    },
                ),
                ..before
            }
        } else {
            before
        },
        StreamChunk::ToolCallDone { id } => if before.pending.dom().contains(id@) {
            StreamView {
                pending: before.pending.remove(id@),
                finished: before.finished.push(before.pending[id@]),
                ..before
            }
        } else {
            before
        },
        StreamChunk::Done => before,
    }
}

/// What a piece lets the loop tell.
pub open spec fn chunk_events(step: u32, chunk: StreamChunk) -> Seq<EventView> {
    match chunk {
        StreamChunk::TextDelta { text } => seq![
            EventView::LlmTextDelta { step, text: text@, agent_id: None },
        ],
        _ => seq![],
    }
}

impl StreamAccumulator {
    pub closed spec fn well_formed(self) -> bool {
        &&& distinct(self.pending@)
        &&& forall|id: Seq<char>| #[trigger]
            by_id(self.pending@).dom().contains(id) ==> by_id(self.pending@)[id].id == id
    }

    pub closed spec fn contents(self) -> StreamView {
        StreamView {
            text: self.text@,
            pending: by_id(self.pending@),
            finished: streamed_calls(self.finished@),
        }
    }

    pub fn new() -> (r: Self)
        ensures
            r.well_formed(),
            r.contents() == (StreamView {
                text: Seq::empty(),
                pending: Map::empty(),
                finished: Seq::empty(),
            }),
    {
        let r: StreamAccumulator = StreamAccumulator {
            text: String::new(),
            pending: Vec::new(),
            finished: Vec::new(),
        };
        assert(streamed_calls(r.finished@) =~= seq![]);
        r
    }

    fn position(&self, id: &str) -> (r: Option<usize>)
        requires
            self.well_formed(),
        ensures
            match r {
                Some(i) => i < self.pending@.len() && self.pending@[i as int].id@ == id@
                    && by_id(self.pending@).dom().contains(id@) && by_id(self.pending@)[id@]
                    == self.pending@[i as int]@,
                None => !by_id(self.pending@).dom().contains(id@) && forall|j: int|
                    0 <= j < self.pending@.len() ==> (#[trigger] self.pending@[j]).id@ != id@,
            },
    {
        proof {
            lemma_by_id(self.pending@);
        }
        let mut i: usize = 0;
        while i < self.pending.len()
            invariant
                i <= self.pending.len(),
                distinct(self.pending@),
                forall|j: int| 0 <= j < i ==> (#[trigger] self.pending@[j]).id@ != id@,
            decreases self.pending.len() - i,
        {
            if str_eq(self.pending[i].id.as_str(), id) {
                proof {
                    lemma_by_id(self.pending@);
                }
                return Some(i);
            }
            i = i + 1;
        }
        None
    }

    /// Takes in one more piece.
    pub fn absorb(&mut self, chunk: StreamChunk, step: u32, events: &mut Vec<LoopEvent>)
        requires
            old(self).well_formed(),
        ensures
            final(self).well_formed(),
            final(self).contents() == after_chunk(old(self).contents(), chunk),
            events_view(final(events)@) == events_view(old(events)@) + chunk_events(step, chunk),
    {
        let ghost told = events_view(events@);
        let ghost before = self.pending@;
        proof {
            lemma_by_id(before);
            assert(told + Seq::<EventView>::empty() =~= told);
        }
        match chunk {
            StreamChunk::TextDelta { text } => {
                self.text.append(text.as_str());
                emit(events, LoopEvent::LlmTextDelta { step, text, agent_id: None });
                assert(events_view(events@) =~= told + chunk_events(step, chunk));
            },
            StreamChunk::ToolCallStart { id, name } => {
                let at: Option<usize> = self.position(id.as_str());
                let call: StreamedCall = StreamedCall { id, name, arguments: String::new() };
                let ghost new_call = call;
                match at {
                    Some(i) => {
                        self.pending.set(i, call);
                        proof {
                            lemma_replaced(before, i as int, new_call, self.pending@);
                        }
                    },
                    None => {
                        self.pending.push(call);
                        proof {
                            assert(self.pending@.drop_last() =~= before);
                            lemma_by_id(self.pending@);
                        }
                    },
                }
                assert(self.contents() == after_chunk(old(self).contents(), chunk));
            },
            StreamChunk::ToolCallDelta { id, arguments_chunk } => {
                match self.position(id.as_str()) {
                    Some(i) => {
                        let mut call: StreamedCall = StreamedCall {
                            id,
                            name: self.pending[i].name.clone(),
                            arguments: self.pending[i].arguments.clone(),
                        };
                        call.arguments.append(arguments_chunk.as_str());
                        let ghost new_call = call;
                        self.pending.set(i, call);
                        proof {
                            lemma_replaced(before, i as int, new_call, self.pending@);
                        }
                    },
                    None => {},
                }
                assert(self.contents() == after_chunk(old(self).contents(), chunk));
            },
            StreamChunk::ToolCallDone { id } => {
                match self.position(id.as_str()) {
                    Some(i) => {
                        let call: StreamedCall = self.pending.remove(i);
                        proof {
                            lemma_removed(before, i as int, self.pending@);
                            assert(streamed_calls(self.finished@.push(call)) =~= streamed_calls(
                                self.finished@,
                            ).push(call@));
                        }
                        self.finished.push(call);
                    },
                    None => {},
                }
                assert(self.contents() == after_chunk(old(self).contents(), chunk));
            },
            StreamChunk::Done => {},
        }
    }

    /// The text and the complete calls; a call that was not completed is dropped.
    pub fn finish(self) -> (r: (String, Vec<StreamedCall>))
        ensures
            r.0@ == self.contents().text,
            streamed_calls(r.1@) == self.contents().finished,
    {
        (self.text, self.finished)
    }
}

proof fn lemma_replaced(
    before: Seq<StreamedCall>,
    at: int,
    call: StreamedCall,
    after: Seq<StreamedCall>,
)
    requires
        distinct(before),
        0 <= at < before.len(),
        call.id@ == before[at].id@,
        after == before.update(at, call),
    ensures
        distinct(after),
        by_id(after) == by_id(before).insert(call.id@, call@),
        forall|id: Seq<char>| #[trigger]
            by_id(after).dom().contains(id) ==> by_id(after)[id].id == id,
{
    assert(distinct(after)) by {
        assert forall|i: int, j: int| 0 <= i < j < after.len() implies (
        #[trigger] after[i]).id@ != (#[trigger] after[j]).id@ by {
            assert(before[i].id@ != before[j].id@);
        }
    }
    lemma_by_id(before);
    lemma_by_id(after);
    let want = by_id(before).insert(call.id@, call@);
    assert forall|id: Seq<char>| by_id(after).dom().contains(id) <==> want.dom().contains(id) by {
        if by_id(after).dom().contains(id) {
            let i = choose|i: int| 0 <= i < after.len() && (#[trigger] after[i]).id@ == id;
            assert(before[i].id@ == id);
        }
        if want.dom().contains(id) {
            if id == call.id@ {
                assert(after[at].id@ == id);
            } else {
                let i = choose|i: int| 0 <= i < before.len() && (#[trigger] before[i]).id@ == id;
                assert(after[i].id@ == id);
            }
        }
    }
    assert forall|id: Seq<char>| by_id(after).dom().contains(id) implies by_id(after)[id]
        == want[id] && by_id(after)[id].id == id by {
        let i = choose|i: int| 0 <= i < after.len() && (#[trigger] after[i]).id@ == id;
        if i != at {
            assert(before[i] == after[i]);
            if i < at {
                assert(before[i].id@ != before[at].id@);
            } else {
                assert(before[at].id@ != before[i].id@);
            }
        }
    }
    assert(by_id(after) =~= want);
}

proof fn lemma_removed(before: Seq<StreamedCall>, at: int, after: Seq<StreamedCall>)
    requires
        distinct(before),
        0 <= at < before.len(),
        after == before.remove(at),
    ensures
        distinct(after),
        by_id(after) == by_id(before).remove(before[at].id@),
        forall|id: Seq<char>| #[trigger]
            by_id(after).dom().contains(id) ==> by_id(after)[id].id == id,
{
    assert forall|i: int| 0 <= i < after.len() implies (#[trigger] after[i]) == before[if i < at {
        i
    } else {
        i + 1
    }] by {}
    assert(distinct(after)) by {
        assert forall|i: int, j: int| 0 <= i < j < after.len() implies (
        #[trigger] after[i]).id@ != (#[trigger] after[j]).id@ by {
            let p = if i < at { i } else { i + 1 };
            let q = if j < at { j } else { j + 1 };
            assert(before[p].id@ != before[q].id@);
        }
    }
    lemma_by_id(before);
    lemma_by_id(after);
    let want = by_id(before).remove(before[at].id@);
    assert forall|id: Seq<char>| by_id(after).dom().contains(id) <==> want.dom().contains(id) by {
        if by_id(after).dom().contains(id) {
            let i = choose|i: int| 0 <= i < after.len() && (#[trigger] after[i]).id@ == id;
            let p = if i < at { i } else { i + 1 };
            assert(before[p].id@ == id);
            if p < at {
                assert(before[p].id@ != before[at].id@);
            } else {
                assert(before[at].id@ != before[p].id@);
            }
        }
        if want.dom().contains(id) {
            let p = choose|p: int| 0 <= p < before.len() && (#[trigger] before[p]).id@ == id;
            let i = if p < at { p } else { p - 1 };
            assert(after[i].id@ == id);
        }
    }
    assert forall|id: Seq<char>| by_id(after).dom().contains(id) implies by_id(after)[id]
        == want[id] && by_id(after)[id].id == id by {
        let i = choose|i: int| 0 <= i < after.len() && (#[trigger] after[i]).id@ == id;
        let p = if i < at { i } else { i + 1 };
        assert(before[p] == after[i]);
    }
    assert(by_id(after) =~= want);
}

/// A call that begins, gets its arguments in two pieces and is completed comes out
/// whole, behind the calls completed before it, and nothing of it stays pending.
pub proof fn law_streamed_call_is_whole(
    before: StreamView,
    id: String,
    name: String,
    first: String,
    second: String,
)
    ensures
        ({
            let begun = after_chunk(before, StreamChunk::ToolCallStart { id, name });
            let one = after_chunk(
                begun,
                StreamChunk::ToolCallDelta { id, arguments_chunk: first },
            );
            let two = after_chunk(one, StreamChunk::ToolCallDelta { id, arguments_chunk: second });
            let done = after_chunk(two, StreamChunk::ToolCallDone { id });
            &&& done.text == before.text
            &&& done.finished == before.finished.push(
                StreamedCallView { id: id@, name: name@, arguments: first@ + second@ },
            )
            &&& done.pending == before.pending.remove(id@)
        }),
{
    assert(Seq::<char>::empty() + first@ =~= first@);
    let begun = after_chunk(before, StreamChunk::ToolCallStart { id, name });
    let one = after_chunk(begun, StreamChunk::ToolCallDelta { id, arguments_chunk: first });
    let two = after_chunk(one, StreamChunk::ToolCallDelta { id, arguments_chunk: second });
    let done = after_chunk(two, StreamChunk::ToolCallDone { id });
    assert(done.pending =~= before.pending.remove(id@));
}

} // verus!
