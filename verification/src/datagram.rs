//! Reading datagrams so that giving up on a read loses none.
use crate::buffer::{bytes_contents, bytes_from_vec};
use crate::poll::Poll;
use crate::reader::{
    action_bytes, event_bytes, items_read, items_returned, read_outcome, reads_started, NextAction,
    ReadAction, ReadEvent,
};
use crate::text::{text_debug, write_labelled, write_text_debug};
use bytes::Bytes;
use vstd::prelude::*;

verus! {

/// Why a datagram could not be read.
#[derive(Debug, PartialEq)]
pub enum ReadDatagramError {
    /// The stream of datagrams rejected the read; the text says why.
    ReadError(String),
}

impl ReadDatagramError {
    /// The error in words.
    pub fn message(&self) -> (message: String)
        ensures
            message@ == match *self {
                ReadDatagramError::ReadError(text) => "Failed to read from datagram stream: "@
                    + text_debug(text@),
            },
    {
        match self {
            ReadDatagramError::ReadError(text) => {
                let quoted = write_text_debug(text.as_str());
                write_labelled("Failed to read from datagram stream: ", quoted.as_str())
            },
        }
    }
}

/// Whether a datagram reader can be told of `event`: only a read in flight can be polled,
/// and a reader that was stopped starts no other.
pub open spec fn datagrams_accept<T>(pending: bool, open: bool, event: ReadEvent<T>) -> bool {
    match event {
        ReadEvent::Wanted => pending || open,
        ReadEvent::Polled(Poll::Ready(Ok(result))) => pending && result.wf(),
        ReadEvent::Polled(_) => pending,
    }
}

/// Whether a read is in flight once `event` has been dealt with. A read that was answered
/// or that failed is over.
pub open spec fn datagrams_pending<T>(event: ReadEvent<T>) -> bool {
    !(event matches ReadEvent::Polled(Poll::Ready(_)))
}

/// What is to be done about `event` by a datagram reader that has a read in flight or not.
pub open spec fn datagrams_action<T>(pending: bool, event: ReadEvent<T>) -> NextAction<
    T,
    ReadDatagramError,
> {
    match event {
        ReadEvent::Wanted => if pending { ReadAction::PollRead } else { ReadAction::StartRead },
        ReadEvent::Polled(Poll::Pending) => ReadAction::Return(Poll::Pending),
        ReadEvent::Polled(Poll::Ready(Err(text))) => ReadAction::Return(
            Poll::Ready(Some(Err(ReadDatagramError::ReadError(text)))),
        ),
        ReadEvent::Polled(Poll::Ready(Ok(result))) => ReadAction::Return(read_outcome(result)),
    }
}

/// Cancellation safe datagram reader.
#[derive(Debug)]
pub struct Datagrams {
    pending: bool,
    open: bool,
}

impl Datagrams {
    /// Whether a read is in flight.
    pub closed spec fn pending(self) -> bool {
        self.pending
    }

    /// Whether the reader holds the lock on its stream.
    pub closed spec fn open(self) -> bool {
        self.open
    }

    /// A reader that holds the lock on its stream and has not read anything yet.
    pub fn new() -> (datagrams: Self)
        ensures
            !datagrams.pending(),
            datagrams.open(),
    {
        Datagrams { pending: false, open: true }
    }

    /// Stops reading. Returns whether the lock is now to be released and the stream to be
    /// cancelled, which happens once. A read in flight is left to finish.
    pub fn stop(&mut self) -> (release: bool)
        ensures
            release == old(self).open(),
            !final(self).open(),
            final(self).pending() == old(self).pending(),
    {
        let release = self.open;
        self.open = false;
        release
    }

    /// Decides what to do about `event`.
    pub fn poll_next(&mut self, event: ReadEvent<Vec<u8>>) -> (action: NextAction<
        Bytes,
        ReadDatagramError,
    >)
        requires
            datagrams_accept(old(self).pending(), old(self).open(), event),
        ensures
            final(self).open() == old(self).open(),
            final(self).pending() == datagrams_pending(event),
            action_bytes(action) == datagrams_action(old(self).pending(), event_bytes(event)),
            match event {
                ReadEvent::Wanted => action is PollRead || action is StartRead,
                ReadEvent::Polled(Poll::Pending) => action == ReadAction::Return(
                    Poll::<Option<Result<Bytes, ReadDatagramError>>>::Pending,
                ),
                ReadEvent::Polled(Poll::Ready(Err(text))) => action == ReadAction::Return(
                    Poll::Ready(
                        Some(Err::<Bytes, ReadDatagramError>(ReadDatagramError::ReadError(text))),
                    ),
                ),
                ReadEvent::Polled(Poll::Ready(Ok(result))) => match action {
                    ReadAction::Return(Poll::Ready(None)) => result.done,
                    ReadAction::Return(Poll::Ready(Some(Ok(datagram)))) => !result.done
                        && bytes_contents(datagram) == result.value->0@,
                    _ => false,
                },
            },
    {
        match event {
            ReadEvent::Wanted => {
                if self.pending {
                    ReadAction::PollRead
                } else {
                    self.pending = true;
                    ReadAction::StartRead
                }
            },
            ReadEvent::Polled(Poll::Pending) => ReadAction::Return(Poll::Pending),
            ReadEvent::Polled(Poll::Ready(settled)) => {
                self.pending = false;
                match settled {
                    Err(text) => ReadAction::Return(
                        Poll::Ready(Some(Err(ReadDatagramError::ReadError(text)))),
                    ),
                    Ok(result) => {
                        if result.done {
                            ReadAction::Return(Poll::Ready(None))
                        } else {
                            let data = bytes_from_vec(result.value.unwrap());
                            ReadAction::Return(Poll::Ready(Some(Ok(data))))
                        }
                    },
                }
            },
        }
    }
}

/// Whether a read is in flight after `events`, none being in flight before them.
pub open spec fn datagrams_pending_after<T>(events: Seq<ReadEvent<T>>) -> bool {
    events.len() > 0 && datagrams_pending(events.last())
}

/// A history that a datagram reader can go through, stopped somewhere or not.
pub open spec fn datagrams_history<T>(events: Seq<ReadEvent<T>>) -> bool
    decreases events.len(),
{
    events.len() == 0 || {
        &&& datagrams_history(events.drop_last())
        &&& datagrams_accept(datagrams_pending_after(events.drop_last()), true, events.last())
    }
}

/// What a fresh datagram reader does about each of `events`.
pub open spec fn datagrams_actions<T>(events: Seq<ReadEvent<T>>) -> Seq<
    NextAction<T, ReadDatagramError>,
>
    decreases events.len(),
{
    if events.len() == 0 {
        seq![]
    } else {
        datagrams_actions(events.drop_last()).push(
            datagrams_action(datagrams_pending_after(events.drop_last()), events.last()),
        )
    }
}

/// How many reads are over: answered with a datagram or with the end of the stream, or
/// failed.
pub open spec fn reads_settled<T>(events: Seq<ReadEvent<T>>) -> nat
    decreases events.len(),
{
    if events.len() == 0 {
        0
    } else {
        reads_settled(events.drop_last()) + if events.last() matches ReadEvent::Polled(
            Poll::Ready(_),
        ) {
            1nat
        } else {
            0nat
        }
    }
}

/// The datagram reader is cancellation safe: whoever asks for a datagram may give up and
/// ask again at any time, and still every datagram that the stream gives is handed out,
/// once and in order; there is never more than one read in flight.
pub proof fn datagrams_lose_nothing<T>(events: Seq<ReadEvent<T>>)
    requires
        datagrams_history(events),
    ensures
        items_returned(datagrams_actions(events)) == items_read(events),
        reads_started(datagrams_actions(events)) == reads_settled(events)
            + if datagrams_pending_after(events) {
            1nat
        } else {
            0nat
        },
    decreases events.len(),
{
    if events.len() > 0 {
        datagrams_lose_nothing(events.drop_last());
        assert(datagrams_actions(events).drop_last() == datagrams_actions(events.drop_last()));
    }
}

/// A datagram reader goes on after a failed read: asked again, it starts a new one.
pub proof fn datagrams_read_on_after_failure<T>(events: Seq<ReadEvent<T>>, text: String)
    requires
        datagrams_history(events),
        events.len() > 0,
        events.last() == ReadEvent::<T>::Polled(Poll::Ready(Err(text))),
    ensures
        datagrams_action(datagrams_pending_after(events), ReadEvent::<T>::Wanted) is StartRead,
{
}

/// Of what its stream answers, a datagram reader keeps nothing to itself and adds nothing to
/// it: whoever asked learns of a datagram, of the end, of a failure and its text, or that
/// there is no answer yet, if and only if that is what a poll brought. It polls a read if and
/// only if one was started that is not over yet, and starts one otherwise.
pub proof fn datagrams_pass_on_each_answer<T>(
    events: Seq<ReadEvent<T>>,
    event: ReadEvent<T>,
    datagram: T,
    text: String,
)
    requires
        datagrams_history(events.push(event)),
    ensures
        ({
            let action = datagrams_actions(events.push(event)).last();
            let started = reads_started(datagrams_actions(events));
            &&& action == ReadAction::Return(
                Poll::Ready(Some(Ok::<T, ReadDatagramError>(datagram))),
            ) <==> (event matches ReadEvent::Polled(Poll::Ready(Ok(result))) && !result.done
                && result.value == Some(datagram))
            &&& action == ReadAction::Return(Poll::Ready(None::<Result<T, ReadDatagramError>>))
                <==> (event matches ReadEvent::Polled(Poll::Ready(Ok(result))) && result.done)
            &&& action == ReadAction::Return(
                Poll::Ready(Some(Err::<T, ReadDatagramError>(ReadDatagramError::ReadError(text)))),
            ) <==> event == ReadEvent::<T>::Polled(Poll::Ready(Err(text)))
            &&& action == ReadAction::Return(Poll::<Option<Result<T, ReadDatagramError>>>::Pending)
                <==> event == ReadEvent::<T>::Polled(Poll::Pending)
            &&& action is PollRead <==> event is Wanted && started == reads_settled(events) + 1
            &&& action is StartRead <==> event is Wanted && started == reads_settled(events)
        }),
{
    let all = events.push(event);
    assert(all.drop_last() == events);
    datagrams_lose_nothing(events);
}

/// Somebody may ask for a datagram at any time, unless the reader was stopped and no read is
/// left to finish; and a read can be polled, whatever comes of it, as long as it is not over.
pub proof fn datagrams_can_be_asked_for_until_stopped<T>(
    pending: bool,
    open: bool,
    event: ReadEvent<T>,
)
    requires
        event matches ReadEvent::Polled(Poll::Ready(Ok(result))) ==> result.done
            || result.value is Some,
    ensures
        datagrams_accept(pending, open, event) <==> pending || open && event is Wanted,
{
}

} // verus!
