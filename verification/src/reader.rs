//! Reading items out of a stream one at a time.
use crate::buffer::bytes_contents;
use crate::poll::Poll;
use crate::text::{text_debug, write_labelled, write_text_debug};
use bytes::Bytes;
use std::marker::PhantomData;
use vstd::prelude::*;

verus! {

/// Why a read from a stream failed.
#[derive(Debug, PartialEq)]
pub enum ReadError {
    /// The stream rejected the read; the text says why.
    ReadError(String),
}

impl ReadError {
    /// The error in words.
    pub fn message(&self) -> (message: String)
        ensures
            message@ == match *self {
                ReadError::ReadError(text) => "Failed to read from stream: "@ + text_debug(text@),
            },
    {
        match self {
            ReadError::ReadError(text) => {
                let quoted = write_text_debug(text.as_str());
                write_labelled("Failed to read from stream: ", quoted.as_str())
            },
        }
    }
}

/// What a stream answers to one read.
#[derive(Debug, PartialEq)]
pub struct ReadResult<T> {
    /// Whether the stream has ended.
    pub done: bool,
    /// The item that was read. A stream that has not ended gives one.
    pub value: Option<T>,
}

impl<T> ReadResult<T> {
    /// A stream that has not ended answers with an item.
    pub open spec fn wf(self) -> bool {
        self.done || self.value is Some
    }
}

/// What the owner of a stream reports to its reader.
#[derive(Debug, PartialEq)]
pub enum ReadEvent<T> {
    /// Somebody asks for the next item.
    Wanted,
    /// The read in flight was polled, with this outcome; a failure carries its text.
    Polled(Poll<Result<ReadResult<T>, String>>),
}

/// What the owner of a stream does next, on behalf of its reader.
#[derive(Debug, PartialEq)]
pub enum ReadAction<R> {
    /// Start a read, then poll it.
    StartRead,
    /// Poll the read in flight.
    PollRead,
    /// Give this to whoever asked.
    Return(Poll<R>),
}

/// What to do next about handing out one more item, if there is one.
pub type NextAction<T, E> = ReadAction<Option<Result<T, E>>>;

/// An event of a byte stream with the bytes themselves in place of their storage.
pub open spec fn event_bytes(event: ReadEvent<Vec<u8>>) -> ReadEvent<Seq<u8>> {
    match event {
        ReadEvent::Wanted => ReadEvent::Wanted,
        ReadEvent::Polled(Poll::Pending) => ReadEvent::Polled(Poll::Pending),
        ReadEvent::Polled(Poll::Ready(Err(text))) => ReadEvent::Polled(Poll::Ready(Err(text))),
        ReadEvent::Polled(Poll::Ready(Ok(result))) => ReadEvent::Polled(
            Poll::Ready(
                Ok(
                    ReadResult {
                        done: result.done,
                        value: match result.value {
                            Some(data) => Some(data@),
                            None => None,
                        },
                    },
                ),
            ),
        ),
    }
}

/// An action on a byte stream with the bytes themselves in place of their storage.
pub open spec fn action_bytes<E>(action: NextAction<Bytes, E>) -> NextAction<Seq<u8>, E> {
    match action {
        ReadAction::StartRead => ReadAction::StartRead,
        ReadAction::PollRead => ReadAction::PollRead,
        ReadAction::Return(Poll::Pending) => ReadAction::Return(Poll::Pending),
        ReadAction::Return(Poll::Ready(None)) => ReadAction::Return(Poll::Ready(None)),
        ReadAction::Return(Poll::Ready(Some(Err(err)))) => ReadAction::Return(
            Poll::Ready(Some(Err(err))),
        ),
        ReadAction::Return(Poll::Ready(Some(Ok(data)))) => ReadAction::Return(
            Poll::Ready(Some(Ok(bytes_contents(data)))),
        ),
    }
}

/// What a settled read gives to whoever asked: an item, or nothing more to come.
pub open spec fn read_outcome<T, E>(result: ReadResult<T>) -> Poll<Option<Result<T, E>>> {
    if result.done {
        Poll::Ready(None)
    } else {
        Poll::Ready(Some(Ok(result.value->0)))
    }
}

/// Whether a reader can be told of `event`: only a read in flight can be polled.
pub open spec fn reader_accepts<T>(pending: bool, event: ReadEvent<T>) -> bool {
    match event {
        ReadEvent::Wanted => true,
        ReadEvent::Polled(Poll::Ready(Ok(result))) => pending && result.wf(),
        ReadEvent::Polled(_) => pending,
    }
}

/// Whether a read is in flight once `event` has been dealt with. A read that failed counts
/// as in flight until it is answered after all.
pub open spec fn reader_pending<T>(event: ReadEvent<T>) -> bool {
    !(event matches ReadEvent::Polled(Poll::Ready(Ok(_))))
}

/// What is to be done about `event` by a reader that has a read in flight or not.
pub open spec fn reader_action<T>(pending: bool, event: ReadEvent<T>) -> NextAction<T, ReadError> {
    match event {
        ReadEvent::Wanted => if pending { ReadAction::PollRead } else { ReadAction::StartRead },
        ReadEvent::Polled(Poll::Pending) => ReadAction::Return(Poll::Pending),
        ReadEvent::Polled(Poll::Ready(Err(text))) => ReadAction::Return(
            Poll::Ready(Some(Err(ReadError::ReadError(text)))),
        ),
        ReadEvent::Polled(Poll::Ready(Ok(result))) => ReadAction::Return(read_outcome(result)),
    }
}

/// Reads the items of one stream, with at most one read in flight.
#[derive(Debug)]
pub struct StreamReader<T> {
    pending: bool,
    marker: PhantomData<T>,
}

impl<T> StreamReader<T> {
    /// Whether a read is in flight.
    pub closed spec fn pending(self) -> bool {
        self.pending
    }

    /// A reader that has not read anything yet.
    pub fn new() -> (reader: Self)
        ensures
            !reader.pending(),
    {
        StreamReader { pending: false, marker: PhantomData }
    }

    /// Decides what to do about `event`.
    pub fn poll_next(&mut self, event: ReadEvent<T>) -> (action: NextAction<T, ReadError>)
        requires
            reader_accepts(old(self).pending(), event),
        ensures
            final(self).pending() == reader_pending(event),
            action == reader_action(old(self).pending(), event),
    {
        match event {
            ReadEvent::Wanted => {
                if self.pending {
                    ReadAction::PollRead
                } else {
                    self.pending = true;
                    ReadAction::StartRead
                }
            },
            ReadEvent::Polled(Poll::Pending) => ReadAction::Return(Poll::Pending),
            ReadEvent::Polled(Poll::Ready(Err(text))) => {
                ReadAction::Return(Poll::Ready(Some(Err(ReadError::ReadError(text)))))
            },
            ReadEvent::Polled(Poll::Ready(Ok(result))) => {
                self.pending = false;
                if result.done {
                    ReadAction::Return(Poll::Ready(None))
                } else {
                    ReadAction::Return(Poll::Ready(Some(Ok(result.value.unwrap()))))
                }
            },
        }
    }
}

/// Whether a read is in flight after `events`, none being in flight before them.
pub open spec fn reader_pending_after<T>(events: Seq<ReadEvent<T>>) -> bool {
    events.len() > 0 && reader_pending(events.last())
}

/// A history that a fresh reader can go through.
pub open spec fn reader_history<T>(events: Seq<ReadEvent<T>>) -> bool
    decreases events.len(),
{
    events.len() == 0 || {
        &&& reader_history(events.drop_last())
        &&& reader_accepts(reader_pending_after(events.drop_last()), events.last())
    }
}

/// What a fresh reader does about each of `events`.
pub open spec fn reader_actions<T>(events: Seq<ReadEvent<T>>) -> Seq<NextAction<T, ReadError>>
    decreases events.len(),
{
    if events.len() == 0 {
        seq![]
    } else {
        reader_actions(events.drop_last()).push(
            reader_action(reader_pending_after(events.drop_last()), events.last()),
        )
    }
}

/// The items that the stream gave, first to last.
pub open spec fn items_read<T>(events: Seq<ReadEvent<T>>) -> Seq<T>
    decreases events.len(),
{
    if events.len() == 0 {
        seq![]
    } else {
        match events.last() {
            ReadEvent::Polled(Poll::Ready(Ok(result))) if !result.done => items_read(
                events.drop_last(),
            ).push(result.value->0),
            _ => items_read(events.drop_last()),
        }
    }
}

/// The items that were handed out, first to last.
pub open spec fn items_returned<T, E>(actions: Seq<NextAction<T, E>>) -> Seq<T>
    decreases actions.len(),
{
    if actions.len() == 0 {
        seq![]
    } else {
        match actions.last() {
            ReadAction::Return(Poll::Ready(Some(Ok(item)))) => items_returned(
                actions.drop_last(),
            ).push(item),
            _ => items_returned(actions.drop_last()),
        }
    }
}

/// How many reads were started.
pub open spec fn reads_started<T, E>(actions: Seq<NextAction<T, E>>) -> nat
    decreases actions.len(),
{
    if actions.len() == 0 {
        0
    } else {
        reads_started(actions.drop_last()) + if actions.last() is StartRead { 1nat } else { 0nat }
    }
}

/// How many reads were answered, be it with an item or with the end of the stream.
pub open spec fn reads_answered<T>(events: Seq<ReadEvent<T>>) -> nat
    decreases events.len(),
{
    if events.len() == 0 {
        0
    } else {
        reads_answered(events.drop_last()) + if events.last() matches ReadEvent::Polled(
            Poll::Ready(Ok(_)),
        ) {
            1nat
        } else {
            0nat
        }
    }
}

/// A reader hands out every item that its stream gives, once and in order, however often
/// it is asked again before an answer has come; and it has never more than one read in
/// flight.
pub proof fn reader_loses_nothing<T>(events: Seq<ReadEvent<T>>)
    requires
        reader_history(events),
    ensures
        items_returned(reader_actions(events)) == items_read(events),
        reads_started(reader_actions(events)) == reads_answered(events) + if reader_pending_after(
            events,
        ) {
            1nat
        } else {
            0nat
        },
    decreases events.len(),
{
    if events.len() > 0 {
        reader_loses_nothing(events.drop_last());
        assert(reader_actions(events).drop_last() == reader_actions(events.drop_last()));
    }
}

/// Once a read has failed, and as long as it is not answered after all, a reader hands out
/// nothing more and starts no other read.
pub proof fn failed_reader_starts_no_read<T>(
    before: Seq<ReadEvent<T>>,
    text: String,
    after: Seq<ReadEvent<T>>,
)
    requires
        reader_history(before.push(ReadEvent::Polled(Poll::Ready(Err(text)))) + after),
        forall|i: int|
            0 <= i < after.len() ==> !(#[trigger] after[i] matches ReadEvent::Polled(
                Poll::Ready(Ok(_)),
            )),
    ensures
        ({
            let events = before.push(ReadEvent::Polled(Poll::Ready(Err(text)))) + after;
            &&& reader_pending_after(events)
            &&& reads_started(reader_actions(events)) == reads_started(reader_actions(before))
            &&& items_returned(reader_actions(events)) == items_returned(reader_actions(before))
        }),
    decreases after.len(),
{
    let failed = before.push(ReadEvent::Polled(Poll::Ready(Err(text))));
    let events = failed + after;
    assert(reader_actions(events).drop_last() == reader_actions(events.drop_last()));
    if after.len() == 0 {
        assert(events == failed);
        assert(failed.drop_last() == before);
    } else {
        let shorter = after.drop_last();
        assert(events.drop_last() == failed + shorter);
        assert forall|i: int| 0 <= i < shorter.len() implies !(
        #[trigger] shorter[i] matches ReadEvent::Polled(Poll::Ready(Ok(_)))) by {
            assert(shorter[i] == after[i]);
        }
        failed_reader_starts_no_read(before, text, shorter);
        assert(events.last() == after[after.len() - 1]);
    }
}

/// Of what its stream answers, a reader keeps nothing to itself and adds nothing to it:
/// whoever asked learns of an item, of the end, of a failure and its text, or that there is
/// no answer yet, if and only if that is what a poll brought. It polls a read if and only if
/// one was started that was not answered yet, and starts one otherwise.
pub proof fn reader_passes_on_each_answer<T>(
    events: Seq<ReadEvent<T>>,
    event: ReadEvent<T>,
    item: T,
    text: String,
)
    requires
        reader_history(events.push(event)),
    ensures
        ({
            let action = reader_actions(events.push(event)).last();
            let started = reads_started(reader_actions(events));
            &&& action == ReadAction::Return(Poll::Ready(Some(Ok::<T, ReadError>(item)))) <==> (
            event matches ReadEvent::Polled(Poll::Ready(Ok(result))) && !result.done
                && result.value == Some(item))
            &&& action == ReadAction::Return(Poll::Ready(None::<Result<T, ReadError>>)) <==> (
            event matches ReadEvent::Polled(Poll::Ready(Ok(result))) && result.done)
            &&& action == ReadAction::Return(
                Poll::Ready(Some(Err::<T, ReadError>(ReadError::ReadError(text)))),
            ) <==> event == ReadEvent::<T>::Polled(Poll::Ready(Err(text)))
            &&& action == ReadAction::Return(Poll::<Option<Result<T, ReadError>>>::Pending)
                <==> event == ReadEvent::<T>::Polled(Poll::Pending)
            &&& action is PollRead <==> event is Wanted && started == reads_answered(events) + 1
            &&& action is StartRead <==> event is Wanted && started == reads_answered(events)
        }),
{
    let all = events.push(event);
    assert(all.drop_last() == events);
    reader_loses_nothing(events);
}

/// Somebody may ask a reader at any time, and a read can be polled, whatever comes of it, as
/// long as it was started and not answered.
pub proof fn reader_can_be_asked_at_any_time<T>(events: Seq<ReadEvent<T>>, event: ReadEvent<T>)
    requires
        reader_history(events),
        event matches ReadEvent::Polled(Poll::Ready(Ok(result))) ==> result.done
            || result.value is Some,
    ensures
        reader_history(events.push(event)) <==> event is Wanted || reads_started(
            reader_actions(events),
        ) == reads_answered(events) + 1,
{
    assert(events.push(event).drop_last() == events);
    reader_loses_nothing(events);
}

} // verus!
