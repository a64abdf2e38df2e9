//! Opening a connection and what goes through it.
use crate::datagram::{
    datagrams_accept, datagrams_action, datagrams_pending, Datagrams, ReadDatagramError,
};
use crate::reader::{action_bytes, event_bytes, NextAction, ReadEvent, ReadResult};
use crate::stream::{RecvState, RecvStream, SendEvent, SendState, SendStream};
use bytes::Bytes;
use vstd::prelude::*;

verus! {

/// How far the opening of a connection has got.
#[derive(Debug, Clone, Copy, PartialEq, Eq, Structural)]
pub enum Stage {
    /// The transport is being created.
    Creating,
    /// The transport was created, and is getting ready.
    AwaitingReady,
    /// The connection was opened, or could not be.
    Settled,
}

/// What is told to a connection that is being opened. Failures carry their text.
#[derive(Debug)]
pub enum ConnectEvent {
    /// The transport was created, or could not be.
    Created(Result<(), String>),
    /// The transport is ready, or never will be.
    Ready(Result<(), String>),
}

/// What is to be done next to open a connection.
#[derive(Debug)]
pub enum ConnectAction {
    /// Create a transport to this address.
    Create(String),
    /// Wait until the transport is ready.
    AwaitReady,
    /// Lock the datagrams for writing and for reading, and both kinds of incoming streams for
    /// reading, and use the connection.
    Opened(Connection),
    /// Give up; the text says why.
    Failed(String),
}

/// Whether a connection that is being opened can be told of `event`.
pub open spec fn connect_accepts(stage: Stage, event: ConnectEvent) -> bool {
    match stage {
        Stage::Creating => event is Created,
        Stage::AwaitingReady => event is Ready,
        Stage::Settled => false,
    }
}

/// How far the opening of a connection has got once `event` has been dealt with.
pub open spec fn connect_stage(event: ConnectEvent) -> Stage {
    if event matches ConnectEvent::Created(Ok(())) {
        Stage::AwaitingReady
    } else {
        Stage::Settled
    }
}

/// Whether `action` is what `event` leads to.
pub open spec fn connect_leads_to(event: ConnectEvent, action: ConnectAction) -> bool {
    match event {
        ConnectEvent::Created(Ok(())) => action is AwaitReady,
        ConnectEvent::Ready(Ok(())) => action matches ConnectAction::Opened(connection)
            && connection.fresh(),
        ConnectEvent::Created(Err(text)) => action == ConnectAction::Failed(text),
        ConnectEvent::Ready(Err(text)) => action == ConnectAction::Failed(text),
    }
}

/// A connection that is being opened.
#[derive(Debug)]
pub struct Connecting {
    stage: Stage,
}

impl Connecting {
    /// How far it has got.
    pub closed spec fn stage(self) -> Stage {
        self.stage
    }

    /// Decides what `event` leads to.
    pub fn step(&mut self, event: ConnectEvent) -> (action: ConnectAction)
        requires
            connect_accepts(old(self).stage(), event),
        ensures
            final(self).stage() == connect_stage(event),
            connect_leads_to(event, action),
    {
        match event {
            ConnectEvent::Created(Ok(())) => {
                self.stage = Stage::AwaitingReady;
                ConnectAction::AwaitReady
            },
            ConnectEvent::Ready(Ok(())) => {
                self.stage = Stage::Settled;
                ConnectAction::Opened(Connection { incoming_datagrams: Datagrams::new() })
            },
            ConnectEvent::Created(Err(text)) => {
                self.stage = Stage::Settled;
                ConnectAction::Failed(text)
            },
            ConnectEvent::Ready(Err(text)) => {
                self.stage = Stage::Settled;
                ConnectAction::Failed(text)
            },
        }
    }
}

/// A connection is opened if and only if its transport was created and became ready;
/// otherwise the first failure is what is told.
pub proof fn opened_when_created_and_ready(
    created: Result<(), String>,
    ready: Result<(), String>,
    first: ConnectAction,
    second: ConnectAction,
)
    requires
        connect_leads_to(ConnectEvent::Created(created), first),
        connect_stage(ConnectEvent::Created(created)) is AwaitingReady ==> connect_leads_to(
            ConnectEvent::Ready(ready),
            second,
        ),
    ensures
        created is Err ==> first == ConnectAction::Failed(created->Err_0),
        created is Ok ==> (second is Opened <==> ready is Ok),
        created is Ok && ready is Err ==> second == ConnectAction::Failed(ready->Err_0),
        !(first is Opened),
{
}

/// A stream that can be written, which is new.
pub open spec fn new_send(stream: SendStream) -> bool {
    stream@ == (SendState { sending: false, open: true })
}

/// A stream that can be read, which is new.
pub open spec fn new_recv(stream: RecvStream) -> bool {
    stream@ == (RecvState { buffered: seq![], pending: false }) && stream@.wf()
}

/// A connection.
#[derive(Debug)]
pub struct Connection {
    incoming_datagrams: Datagrams,
}

impl Connection {
    /// The reader of the datagrams that come in.
    pub closed spec fn incoming_datagrams(self) -> Datagrams {
        self.incoming_datagrams
    }

    /// Whether the connection has just been opened.
    pub open spec fn fresh(self) -> bool {
        self.incoming_datagrams().open() && !self.incoming_datagrams().pending()
    }

    /// Begins to open a connection to `url`. Returns what is to be done first.
    pub fn connect(url: &str) -> (begun: (Connecting, ConnectAction))
        ensures
            begun.0.stage() is Creating,
            begun.1 matches ConnectAction::Create(address) && address@ == url@,
    {
        (Connecting { stage: Stage::Creating }, ConnectAction::Create(String::from_str(url)))
    }

    /// Closes the connection. Returns whether the lock on the incoming datagrams is now to be
    /// released and their stream to be cancelled, which happens once.
    pub fn close(&mut self) -> (release: bool)
        ensures
            release == old(self).incoming_datagrams().open(),
            !final(self).incoming_datagrams().open(),
            final(self).incoming_datagrams().pending() == old(
                self,
            ).incoming_datagrams().pending(),
    {
        self.incoming_datagrams.stop()
    }

    /// What came of opening a stream in one direction.
    pub fn open_uni<S>(&self, opened: Result<S, String>) -> (stream: Result<
        (S, SendStream),
        String,
    >)
        ensures
            match opened {
                Ok(handle) => stream matches Ok((same, send)) && same == handle && new_send(send),
                Err(text) => stream == Err::<(S, SendStream), String>(text),
            },
    {
        match opened {
            Ok(handle) => Ok((handle, SendStream::new())),
            Err(text) => Err(text),
        }
    }

    /// What came of opening a stream in both directions.
    pub fn open_bi<S>(&self, opened: Result<S, String>) -> (stream: Result<
        (S, SendStream, RecvStream),
        String,
    >)
        ensures
            match opened {
                Ok(handle) => stream matches Ok((same, send, recv)) && same == handle && new_send(
                    send,
                ) && new_recv(recv),
                Err(text) => stream == Err::<(S, SendStream, RecvStream), String>(text),
            },
    {
        match opened {
            Ok(handle) => Ok((handle, SendStream::new(), RecvStream::new())),
            Err(text) => Err(text),
        }
    }

    /// Accepts an incoming bidirectional stream, given what the connection answered when it
    /// was asked for one. There is none when no more can come.
    pub fn accept_bi<S>(&self, read: Result<ReadResult<S>, String>) -> (stream: Option<
        Result<(S, SendStream, RecvStream), String>,
    >)
        requires
            read matches Ok(result) ==> result.wf(),
        ensures
            match read {
                Err(text) => stream == Some(Err::<(S, SendStream, RecvStream), String>(text)),
                Ok(result) => if result.done {
                    stream is None
                } else {
                    stream matches Some(Ok((same, send, recv))) && same == result.value->0
                        && new_send(send) && new_recv(recv)
                },
            },
    {
        match read {
            Err(text) => Some(Err(text)),
            Ok(result) => {
                if result.done {
                    None
                } else {
                    Some(Ok((result.value.unwrap(), SendStream::new(), RecvStream::new())))
                }
            },
        }
    }

    /// Accepts an incoming unidirectional stream, given what the connection answered when it
    /// was asked for one. There is none when no more can come.
    pub fn accept_uni<S>(&self, read: Result<ReadResult<S>, String>) -> (stream: Option<
        Result<(S, RecvStream), String>,
    >)
        requires
            read matches Ok(result) ==> result.wf(),
        ensures
            match read {
                Err(text) => stream == Some(Err::<(S, RecvStream), String>(text)),
                Ok(result) => if result.done {
                    stream is None
                } else {
                    stream matches Some(Ok((same, recv))) && same == result.value->0 && new_recv(
                        recv,
                    )
                },
            },
    {
        match read {
            Err(text) => Some(Err(text)),
            Ok(result) => {
                if result.done {
                    None
                } else {
                    Some(Ok((result.value.unwrap(), RecvStream::new())))
                }
            },
        }
    }

    /// Sends data to a WebTransport connection: returns the datagram that is to be written.
    pub fn send_datagram(&self, data: &[u8]) -> (datagram: Vec<u8>)
        ensures
            datagram@ == data@,
    {
        vstd::slice::slice_to_vec(data)
    }

    /// What came of sending a datagram. Datagrams may get lost on the way, so one that could
    /// not be written is no failure either.
    pub fn datagram_sent(&self, _written: Result<(), String>) -> (result: Result<(), String>)
        ensures
            result == Ok::<(), String>(()),
    {
        Ok(())
    }

    /// Decides what to do about `event` when the next datagram is wanted.
    pub fn read_datagram(&mut self, event: ReadEvent<Vec<u8>>) -> (action: NextAction<
        Bytes,
        ReadDatagramError,
    >)
        requires
            datagrams_accept(
                old(self).incoming_datagrams().pending(),
                old(self).incoming_datagrams().open(),
                event,
            ),
        ensures
            final(self).incoming_datagrams().open() == old(self).incoming_datagrams().open(),
            final(self).incoming_datagrams().pending() == datagrams_pending(event),
            action_bytes(action) == datagrams_action(
                old(self).incoming_datagrams().pending(),
                event_bytes(event),
            ),
    {
        self.incoming_datagrams.poll_next(event)
    }
}

/// The streams and the reader of a connection that are new can be used at once: nothing is
/// buffered and nothing in flight, so that the first bytes are written, and the first are read,
/// without waiting for anything else.
pub proof fn new_streams_are_ready(send: SendStream, recv: RecvStream, connection: Connection)
    ensures
        new_send(send) ==> send@.ready(SendEvent::Wanted) && send@.open,
        new_recv(recv) ==> {
            &&& recv@.wf()
            &&& recv@.buffered.len() == 0
            &&& recv@.next_chunk(ReadEvent::Wanted) is StartRead
        },
        connection.fresh() ==> {
            let datagrams = connection.incoming_datagrams();
            &&& datagrams_accept(datagrams.pending(), datagrams.open(), ReadEvent::<Seq<u8>>::Wanted)
            &&& datagrams_action(datagrams.pending(), ReadEvent::<Seq<u8>>::Wanted) is StartRead
            &&& datagrams.open()
        },
{
}

/// The opening of a connection is told first of its transport and then of its readiness, and
/// of nothing once it has been opened or has failed.
pub proof fn connecting_takes_two_steps(
    stage: Stage,
    event: ConnectEvent,
    action: ConnectAction,
)
    requires
        connect_accepts(stage, event),
        connect_leads_to(event, action),
    ensures
        event is Created <==> stage is Creating,
        event is Ready <==> stage is AwaitingReady,
        action is AwaitReady <==> connect_stage(event) is AwaitingReady,
        action is Opened || action is Failed <==> connect_stage(event) is Settled,
        action is AwaitReady <==> (event matches ConnectEvent::Created(Ok(_))),
        action is Opened <==> (event matches ConnectEvent::Ready(Ok(_))),
        action matches ConnectAction::Opened(connection) ==> connection.fresh(),
        action matches ConnectAction::Failed(text) ==> event == ConnectEvent::Created(Err(text))
            || event == ConnectEvent::Ready(Err(text)),
        !(action is Create),
{
}

/// Whatever comes of creating a transport can be told, and then, if it was created, whatever
/// comes of its getting ready.
pub proof fn connecting_hears_every_outcome(
    created: Result<(), String>,
    ready: Result<(), String>,
)
    ensures
        connect_accepts(Stage::Creating, ConnectEvent::Created(created)),
        created is Ok ==> connect_accepts(
            connect_stage(ConnectEvent::Created(created)),
            ConnectEvent::Ready(ready),
        ),
{
}

} // verus!
