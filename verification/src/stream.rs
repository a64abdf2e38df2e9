//! The two halves of a stream of bytes.
use crate::buffer::{
    bytes_advance, bytes_as_slice, bytes_contents, bytes_from_vec, bytes_has_remaining, bytes_new,
    bytes_take,
};
use crate::poll::Poll;
use crate::reader::{
    action_bytes, event_bytes, reader_accepts, reader_action, reader_pending, NextAction,
    ReadAction, ReadError, ReadEvent, StreamReader,
};
use crate::text::write_labelled;
use bytes::Bytes;
use vstd::prelude::*;

verus! {

/// What matters of a [`RecvStream`]: the bytes that were read from the stream and not
/// handed out yet, and whether a read is in flight.
#[verifier::ext_equal]
pub struct RecvState {
    pub buffered: Seq<u8>,
    pub pending: bool,
}

impl RecvState {
    /// The stream is read only when every byte has been handed out.
    pub open spec fn wf(self) -> bool {
        self.pending ==> self.buffered.len() == 0
    }

    /// Whether the stream can be told of `event`: while bytes are left it is not polled.
    pub open spec fn accepts<T>(self, event: ReadEvent<T>) -> bool {
        if self.buffered.len() > 0 {
            event is Wanted
        } else {
            reader_accepts(self.pending, event)
        }
    }

    /// What is to be done about `event` when the next bytes are wanted. They come out of
    /// the buffer while it lasts.
    pub open spec fn next_chunk(self, event: ReadEvent<Seq<u8>>) -> NextAction<Seq<u8>, ReadError> {
        if self.buffered.len() > 0 {
            ReadAction::Return(Poll::Ready(Some(Ok(self.buffered))))
        } else {
            reader_action(self.pending, event)
        }
    }

    /// Whether a read is in flight once `event` has been dealt with.
    pub open spec fn pending_after<T>(self, event: ReadEvent<T>) -> bool {
        self.buffered.len() == 0 && reader_pending(event)
    }
}

/// The bytes that an action hands out, empty if it hands out none.
pub open spec fn chunk_of(action: NextAction<Seq<u8>, ReadError>) -> Seq<u8> {
    match action {
        ReadAction::Return(Poll::Ready(Some(Ok(chunk)))) => chunk,
        _ => seq![],
    }
}

/// An action that lends a buffer, with the bytes that it holds in its place.
pub open spec fn lent_bytes(action: NextAction<&mut Bytes, ReadError>) -> NextAction<
    Seq<u8>,
    ReadError,
> {
    match action {
        ReadAction::StartRead => ReadAction::StartRead,
        ReadAction::PollRead => ReadAction::PollRead,
        ReadAction::Return(Poll::Pending) => ReadAction::Return(Poll::Pending),
        ReadAction::Return(Poll::Ready(None)) => ReadAction::Return(Poll::Ready(None)),
        ReadAction::Return(Poll::Ready(Some(Err(err)))) => ReadAction::Return(
            Poll::Ready(Some(Err(err))),
        ),
        ReadAction::Return(Poll::Ready(Some(Ok(data)))) => ReadAction::Return(
            Poll::Ready(Some(Ok(bytes_contents(*data)))),
        ),
    }
}

/// What is to be done when bytes are to be copied into room for `capacity` of them, given
/// what is to be done about the next chunk. The end of the stream reads as no bytes.
pub open spec fn read_action(next: NextAction<Seq<u8>, ReadError>, capacity: nat) -> ReadAction<
    Result<nat, ReadError>,
> {
    match next {
        ReadAction::StartRead => ReadAction::StartRead,
        ReadAction::PollRead => ReadAction::PollRead,
        ReadAction::Return(Poll::Pending) => ReadAction::Return(Poll::Pending),
        ReadAction::Return(Poll::Ready(None)) => ReadAction::Return(Poll::Ready(Ok(0))),
        ReadAction::Return(Poll::Ready(Some(Err(err)))) => ReadAction::Return(
            Poll::Ready(Err(err)),
        ),
        ReadAction::Return(Poll::Ready(Some(Ok(chunk)))) => ReadAction::Return(
            Poll::Ready(Ok(copied(chunk.len(), capacity))),
        ),
    }
}

/// How many of `available` bytes go into room for `capacity` of them.
pub open spec fn copied(available: nat, capacity: nat) -> nat {
    if available < capacity {
        available
    } else {
        capacity
    }
}

/// One call on the receiving half: copying bytes into some room, or taking a chunk.
pub enum RecvCall {
    Read { event: ReadEvent<Seq<u8>>, capacity: nat },
    Chunk { event: ReadEvent<Seq<u8>> },
}

impl RecvCall {
    /// What was reported with the call.
    pub open spec fn event(self) -> ReadEvent<Seq<u8>> {
        match self {
            RecvCall::Read { event, .. } => event,
            RecvCall::Chunk { event } => event,
        }
    }

    /// The bytes that the stream gave with the call.
    pub open spec fn received(self) -> Seq<u8> {
        match self.event() {
            ReadEvent::Polled(Poll::Ready(Ok(result))) if !result.done => result.value->0,
            _ => seq![],
        }
    }
}

impl RecvState {
    /// How many bytes `call` hands out.
    pub open spec fn count(self, call: RecvCall) -> nat {
        let available = chunk_of(self.next_chunk(call.event())).len();
        match call {
            RecvCall::Read { capacity, .. } => copied(available, capacity),
            RecvCall::Chunk { .. } => available,
        }
    }

    /// The bytes that `call` hands out.
    pub open spec fn handed_out(self, call: RecvCall) -> Seq<u8> {
        chunk_of(self.next_chunk(call.event())).take(self.count(call) as int)
    }

    /// The state that `call` leaves.
    pub open spec fn after(self, call: RecvCall) -> RecvState {
        RecvState {
            buffered: chunk_of(self.next_chunk(call.event())).skip(self.count(call) as int),
            pending: self.pending_after(call.event()),
        }
    }
}

/// An action with its count as a number.
pub open spec fn action_count(action: ReadAction<Result<usize, ReadError>>) -> ReadAction<
    Result<nat, ReadError>,
> {
    match action {
        ReadAction::StartRead => ReadAction::StartRead,
        ReadAction::PollRead => ReadAction::PollRead,
        ReadAction::Return(Poll::Pending) => ReadAction::Return(Poll::Pending),
        ReadAction::Return(Poll::Ready(Err(err))) => ReadAction::Return(Poll::Ready(Err(err))),
        ReadAction::Return(Poll::Ready(Ok(count))) => ReadAction::Return(
            Poll::Ready(Ok(count as nat)),
        ),
    }
}

/// The half of a stream from which bytes are read.
#[derive(Debug)]
pub struct RecvStream {
    buf: Bytes,
    stream: StreamReader<Vec<u8>>,
}

impl View for RecvStream {
    type V = RecvState;

    closed spec fn view(&self) -> RecvState {
        RecvState { buffered: bytes_contents(self.buf), pending: self.stream.pending() }
    }
}

impl RecvStream {
    /// A stream of which nothing has been read yet.
    pub fn new() -> (stream: Self)
        ensures
            stream@ == (RecvState { buffered: seq![], pending: false }),
            stream@.wf(),
    {
        RecvStream { buf: bytes_new(), stream: StreamReader::new() }
    }

    /// Decides what to do about `event` when the next chunk of data is wanted. A chunk is
    /// lent: what is left of it when the loan ends is the next one.
    pub fn poll_read_chunk(&mut self, event: ReadEvent<Vec<u8>>) -> (action: NextAction<
        &mut Bytes,
        ReadError,
    >)
        requires
            old(self)@.wf(),
            old(self)@.accepts(event),
        ensures
            final(self)@.wf(),
            final(self)@.pending == old(self)@.pending_after(event),
            lent_bytes(action) == old(self)@.next_chunk(event_bytes(event)),
            match action {
                ReadAction::Return(Poll::Ready(Some(Ok(chunk)))) => final(self)@.buffered
                    == bytes_contents(*final(chunk)) && bytes_contents(*chunk) == old(self)@.buffered
                    + (RecvCall::Chunk { event: event_bytes(event) }).received(),
                _ => final(self)@.buffered == old(self)@.buffered,
            },
    {
        if bytes_has_remaining(&self.buf) {
            return ReadAction::Return(Poll::Ready(Some(Ok(&mut self.buf))));
        }
        match self.stream.poll_next(event) {
            ReadAction::StartRead => ReadAction::StartRead,
            ReadAction::PollRead => ReadAction::PollRead,
            ReadAction::Return(Poll::Pending) => ReadAction::Return(Poll::Pending),
            ReadAction::Return(Poll::Ready(None)) => ReadAction::Return(Poll::Ready(None)),
            ReadAction::Return(Poll::Ready(Some(Err(err)))) => ReadAction::Return(
                Poll::Ready(Some(Err(err))),
            ),
            ReadAction::Return(Poll::Ready(Some(Ok(data)))) => {
                self.buf = bytes_from_vec(data);
                ReadAction::Return(Poll::Ready(Some(Ok(&mut self.buf))))
            },
        }
    }

    /// Asks for one whole chunk.
    pub fn read_chunk(&mut self) -> (chunk: ReadChunk<'_>)
        ensures
            *chunk.stream == *old(self),
            *final(chunk.stream) == *final(self),
    {
        ReadChunk { stream: self }
    }

    /// Decides what to do about `event` when bytes are to be copied into `buf`.
    pub fn poll_read(&mut self, event: ReadEvent<Vec<u8>>, buf: &mut [u8]) -> (action: ReadAction<
        Result<usize, ReadError>,
    >)
        requires
            old(self)@.wf(),
            old(self)@.accepts(event),
        ensures
            final(self)@.wf(),
            action_count(action) == read_action(
                old(self)@.next_chunk(event_bytes(event)),
                old(buf)@.len(),
            ),
            ({
                let call = RecvCall::Read { event: event_bytes(event), capacity: old(buf)@.len() };
                &&& final(self)@ == old(self)@.after(call)
                &&& final(buf)@ == old(self)@.handed_out(call) + old(buf)@.skip(
                    old(self)@.count(call) as int,
                )
                &&& match action {
                    ReadAction::Return(Poll::Ready(Ok(count))) => {
                        &&& count <= old(buf)@.len()
                        &&& final(buf)@.take(count as int) + final(self)@.buffered == old(
                            self,
                        )@.buffered + call.received()
                        &&& final(buf)@.skip(count as int) == old(buf)@.skip(count as int)
                        &&& count < old(buf)@.len() ==> final(self)@.buffered.len() == 0
                    },
                    _ => {
                        &&& final(buf)@ == old(buf)@
                        &&& final(self)@.buffered == old(self)@.buffered
                        &&& call.received().len() == 0
                    },
                }
            }),
    {
        match self.poll_read_chunk(event) {
            ReadAction::StartRead => ReadAction::StartRead,
            ReadAction::PollRead => ReadAction::PollRead,
            ReadAction::Return(Poll::Pending) => ReadAction::Return(Poll::Pending),
            ReadAction::Return(Poll::Ready(None)) => ReadAction::Return(Poll::Ready(Ok(0))),
            ReadAction::Return(Poll::Ready(Some(Err(err)))) => ReadAction::Return(
                Poll::Ready(Err(err)),
            ),
            ReadAction::Return(Poll::Ready(Some(Ok(bytes)))) => {
                let len: usize = copy_prefix(bytes_as_slice(bytes), buf);
                bytes_advance(bytes, len);
                ReadAction::Return(Poll::Ready(Ok(len)))
            },
        }
    }
}

/// Copies as many bytes of `from` as `to` has room for and returns how many.
fn copy_prefix(from: &[u8], to: &mut [u8]) -> (count: usize)
    ensures
        count == copied(from@.len(), old(to)@.len()),
        final(to)@ == from@.take(count as int) + old(to)@.skip(count as int),
{
    let count: usize = if from.len() < to.len() { from.len() } else { to.len() };
    let mut i: usize = 0;
    while i < count
        invariant
            i <= count == copied(from@.len(), old(to)@.len()),
            to@ == from@.take(i as int) + old(to)@.skip(i as int),
        decreases count - i,
    {
        to[i] = from[i];
        i = i + 1;
    }
    count
}

/// A wish for one whole chunk of a stream.
pub struct ReadChunk<'a> {
    pub stream: &'a mut RecvStream,
}

impl<'a> ReadChunk<'a> {
    /// Decides what to do about `event`. A chunk is taken out of the stream whole.
    pub fn poll(&mut self, event: ReadEvent<Vec<u8>>) -> (action: NextAction<Bytes, ReadError>)
        requires
            old(self).stream@.wf(),
            old(self).stream@.accepts(event),
        ensures
            final(self).stream@.wf(),
            final(self).stream@ == old(self).stream@.after(
                RecvCall::Chunk { event: event_bytes(event) },
            ),
            *final(final(self).stream) == *final(old(self).stream),
            action_bytes(action) == old(self).stream@.next_chunk(event_bytes(event)),
            match action {
                ReadAction::Return(Poll::Ready(Some(Ok(chunk)))) => {
                    &&& bytes_contents(chunk) == old(self).stream@.buffered + (RecvCall::Chunk {
                        event: event_bytes(event),
                    }).received()
                    &&& final(self).stream@.buffered.len() == 0
                },
                _ => final(self).stream@.buffered == old(self).stream@.buffered,
            },
    {
        match self.stream.poll_read_chunk(event) {
            ReadAction::StartRead => ReadAction::StartRead,
            ReadAction::PollRead => ReadAction::PollRead,
            ReadAction::Return(Poll::Pending) => ReadAction::Return(Poll::Pending),
            ReadAction::Return(Poll::Ready(None)) => ReadAction::Return(Poll::Ready(None)),
            ReadAction::Return(Poll::Ready(Some(Err(err)))) => ReadAction::Return(
                Poll::Ready(Some(Err(err))),
            ),
            ReadAction::Return(Poll::Ready(Some(Ok(data)))) => ReadAction::Return(
                Poll::Ready(Some(Ok(bytes_take(data)))),
            ),
        }
    }
}

/// The state in which `calls` leave a fresh receiving half.
pub open spec fn recv_state_after(calls: Seq<RecvCall>) -> RecvState
    decreases calls.len(),
{
    if calls.len() == 0 {
        RecvState { buffered: seq![], pending: false }
    } else {
        recv_state_after(calls.drop_last()).after(calls.last())
    }
}

/// A history that a fresh receiving half can go through.
pub open spec fn recv_history(calls: Seq<RecvCall>) -> bool
    decreases calls.len(),
{
    calls.len() == 0 || {
        &&& recv_history(calls.drop_last())
        &&& recv_state_after(calls.drop_last()).accepts(calls.last().event())
    }
}

/// All the bytes that the stream gave during `calls`.
pub open spec fn bytes_received(calls: Seq<RecvCall>) -> Seq<u8>
    decreases calls.len(),
{
    if calls.len() == 0 {
        seq![]
    } else {
        bytes_received(calls.drop_last()) + calls.last().received()
    }
}

/// All the bytes that `calls` handed out.
pub open spec fn bytes_handed_out(calls: Seq<RecvCall>) -> Seq<u8>
    decreases calls.len(),
{
    if calls.len() == 0 {
        seq![]
    } else {
        bytes_handed_out(calls.drop_last()) + recv_state_after(calls.drop_last()).handed_out(
            calls.last(),
        )
    }
}

/// Whatever the sizes in which bytes are asked for, those handed out, followed by those
/// still buffered, are the bytes that the stream gave, each once and in order; and the
/// stream is read only when nothing is buffered.
pub proof fn recv_stream_keeps_every_byte(calls: Seq<RecvCall>)
    requires
        recv_history(calls),
    ensures
        bytes_handed_out(calls) + recv_state_after(calls).buffered == bytes_received(calls),
        recv_state_after(calls).wf(),
    decreases calls.len(),
{
    if calls.len() > 0 {
        let before = calls.drop_last();
        let state = recv_state_after(before);
        let call = calls.last();
        recv_stream_keeps_every_byte(before);
        let chunk = chunk_of(state.next_chunk(call.event()));
        assert(chunk == state.buffered + call.received());
        assert(chunk.take(state.count(call) as int) + chunk.skip(state.count(call) as int)
            == chunk);
    }
}

/// With room for a byte, reading none means that the stream has ended or has given an empty
/// chunk, and that nothing is buffered.
pub proof fn reading_nothing_means_the_end(
    state: RecvState,
    event: ReadEvent<Seq<u8>>,
    capacity: nat,
)
    requires
        state.accepts(event),
        capacity > 0,
        read_action(state.next_chunk(event), capacity) == ReadAction::Return(
            Poll::Ready(Ok::<nat, ReadError>(0)),
        ),
    ensures
        state.buffered.len() == 0,
        event matches ReadEvent::Polled(Poll::Ready(Ok(result))) && (result.done
            || result.value->0.len() == 0),
{
}

/// Why bytes could not be received.
#[derive(Debug, PartialEq)]
pub enum RecvError {
    /// The stream rejected the read; the text says why.
    ReadError(String),
}

impl RecvError {
    /// The error in words.
    pub fn message(&self) -> (message: String)
        ensures
            message@ == match *self {
                RecvError::ReadError(text) => "Failed to read from stream: "@ + text@,
            },
    {
        match self {
            RecvError::ReadError(text) => {
                write_labelled("Failed to read from stream: ", text.as_str())
            },
        }
    }
}

/// Why bytes could not be sent.
#[derive(Debug, PartialEq)]
pub enum SendError {
    /// The stream rejected the bytes; the text says why.
    SendFailed(String),
    /// The stream could not be closed; the text says why.
    CloseFailed(String),
}

impl SendError {
    /// The error in words.
    pub fn message(&self) -> (message: String)
        ensures
            message@ == match *self {
                SendError::SendFailed(text) => "Failed to send data to stream: "@ + text@,
                SendError::CloseFailed(text) => "Failed to close the stream: "@ + text@,
            },
    {
        match self {
            SendError::SendFailed(text) => {
                write_labelled("Failed to send data to stream: ", text.as_str())
            },
            SendError::CloseFailed(text) => {
                write_labelled("Failed to close the stream: ", text.as_str())
            },
        }
    }
}

impl Clone for SendError {
    fn clone(&self) -> (copy: Self)
        ensures
            copy == *self,
    {
        match self {
            SendError::SendFailed(text) => SendError::SendFailed(text.clone()),
            SendError::CloseFailed(text) => SendError::CloseFailed(text.clone()),
        }
    }
}

/// What the owner of a stream reports to its sending half.
#[derive(Debug, PartialEq)]
pub enum SendEvent {
    /// Somebody asks whether the stream is ready.
    Wanted,
    /// The write in flight was polled, with this outcome; a failure carries its text.
    Polled(Poll<Result<(), String>>),
}

/// What the owner of a stream does next to find out whether it is ready.
#[derive(Debug, PartialEq)]
pub enum ReadyAction {
    /// Poll the write in flight.
    PollWrite,
    /// Give this to whoever asked.
    Return(Poll<Result<(), SendError>>),
}

/// What the owner of a stream does next about bytes that are to be sent.
#[derive(Debug, PartialEq)]
pub enum WriteAction {
    /// Poll the write in flight.
    PollWrite,
    /// Start a write of `chunk` and report that `accepted` bytes were taken.
    StartWrite { chunk: Vec<u8>, accepted: usize },
    /// Give this to whoever asked.
    Return(Poll<Result<usize, SendError>>),
}

/// A write action with the bytes and the number themselves in place of their storage.
#[verifier::ext_equal]
pub enum WriteActionView {
    PollWrite,
    StartWrite { chunk: Seq<u8>, accepted: nat },
    Return(Poll<Result<nat, SendError>>),
}

impl View for WriteAction {
    type V = WriteActionView;

    open spec fn view(&self) -> WriteActionView {
        match *self {
            WriteAction::PollWrite => WriteActionView::PollWrite,
            WriteAction::StartWrite { chunk, accepted } => WriteActionView::StartWrite {
                chunk: chunk@,
                accepted: accepted as nat,
            },
            WriteAction::Return(Poll::Pending) => WriteActionView::Return(Poll::Pending),
            WriteAction::Return(Poll::Ready(Ok(count))) => WriteActionView::Return(
                Poll::Ready(Ok(count as nat)),
            ),
            WriteAction::Return(Poll::Ready(Err(err))) => WriteActionView::Return(
                Poll::Ready(Err(err)),
            ),
        }
    }
}

/// What matters of a [`SendStream`]: whether a write is in flight, and whether the stream
/// is still locked for writing.
pub struct SendState {
    pub sending: bool,
    pub open: bool,
}

impl SendState {
    /// Whether the stream can be told of `event`: only a write in flight can be polled.
    pub open spec fn accepts(self, event: SendEvent) -> bool {
        event is Polled ==> self.sending
    }

    /// What is to be done about `event` when somebody asks whether the stream is ready.
    pub open spec fn ready_action(self, event: SendEvent) -> ReadyAction {
        match event {
            SendEvent::Wanted => if self.sending {
                ReadyAction::PollWrite
            } else {
                ReadyAction::Return(Poll::Ready(Ok(())))
            },
            SendEvent::Polled(Poll::Pending) => ReadyAction::Return(Poll::Pending),
            SendEvent::Polled(Poll::Ready(Ok(()))) => ReadyAction::Return(Poll::Ready(Ok(()))),
            SendEvent::Polled(Poll::Ready(Err(text))) => ReadyAction::Return(
                Poll::Ready(Err(SendError::SendFailed(text))),
            ),
        }
    }

    /// What is to be done about `event` when `data` is to be sent. Once no write is in
    /// flight, all of it is taken.
    pub open spec fn write_action(self, event: SendEvent, data: Seq<u8>) -> WriteActionView {
        match self.ready_action(event) {
            ReadyAction::PollWrite => WriteActionView::PollWrite,
            ReadyAction::Return(Poll::Pending) => WriteActionView::Return(Poll::Pending),
            ReadyAction::Return(Poll::Ready(Err(err))) => WriteActionView::Return(
                Poll::Ready(Err(err)),
            ),
            ReadyAction::Return(Poll::Ready(Ok(()))) => WriteActionView::StartWrite {
                chunk: data,
                accepted: data.len(),
            },
        }
    }

    /// Whether `event` shows that no write is in flight.
    pub open spec fn ready(self, event: SendEvent) -> bool {
        self.ready_action(event) == ReadyAction::Return(Poll::Ready(Ok(())))
    }

    /// The state once `event` has been dealt with. A write that failed counts as in flight
    /// until it succeeds after all.
    pub open spec fn after_ready(self, event: SendEvent) -> SendState {
        SendState { sending: !self.ready(event), open: self.open }
    }
}

/// One call on the sending half: sending bytes once it is ready, sending them now, waiting
/// until it is ready or flushed, which is the same, or closing.
pub enum SendCall {
    Write { event: SendEvent, data: Seq<u8> },
    Chunk { data: Seq<u8> },
    Flush { event: SendEvent },
    Stop,
}

impl SendState {
    /// Whether the sending half can be called so.
    pub open spec fn allows(self, call: SendCall) -> bool {
        match call {
            SendCall::Write { event, .. } => self.accepts(event) && (self.ready(event)
                ==> self.open),
            SendCall::Chunk { .. } => !self.sending && self.open,
            SendCall::Flush { event } => self.accepts(event),
            SendCall::Stop => true,
        }
    }

    /// The state that `call` leaves.
    pub open spec fn after(self, call: SendCall) -> SendState {
        match call {
            SendCall::Write { .. } => SendState { sending: true, open: self.open },
            SendCall::Chunk { .. } => SendState { sending: true, open: self.open },
            SendCall::Flush { event } => self.after_ready(event),
            SendCall::Stop => SendState { sending: self.sending, open: false },
        }
    }

    /// Whether `call` starts a write.
    pub open spec fn starts(self, call: SendCall) -> bool {
        match call {
            SendCall::Write { event, .. } => self.ready(event),
            SendCall::Chunk { .. } => true,
            SendCall::Flush { .. } => false,
            SendCall::Stop => false,
        }
    }

    /// The chunk of which `call` has a write started, if it starts one.
    pub open spec fn chunk_started(self, call: SendCall) -> Option<Seq<u8>> {
        match call {
            SendCall::Write { event, data } => match self.write_action(event, data) {
                WriteActionView::StartWrite { chunk, .. } => Some(chunk),
                _ => None,
            },
            SendCall::Chunk { data } => Some(data),
            _ => None,
        }
    }

    /// The bytes of which `call` reports that they were taken, from the first on.
    pub open spec fn bytes_taken(self, call: SendCall) -> Seq<u8> {
        match call {
            SendCall::Write { event, data } => match self.write_action(event, data) {
                WriteActionView::StartWrite { accepted, .. } => data.take(accepted as int),
                _ => seq![],
            },
            SendCall::Chunk { data } => data,
            _ => seq![],
        }
    }
}

/// The half of a stream to which bytes are written.
#[derive(Debug)]
pub struct SendStream {
    sending: bool,
    open: bool,
}

impl View for SendStream {
    type V = SendState;

    closed spec fn view(&self) -> SendState {
        SendState { sending: self.sending, open: self.open }
    }
}

impl SendStream {
    /// A stream that is locked for writing and to which nothing has been written yet.
    pub fn new() -> (stream: Self)
        ensures
            stream@ == (SendState { sending: false, open: true }),
    {
        SendStream { sending: false, open: true }
    }

    /// Closes the sending stream. Returns whether the lock is now to be released and the
    /// stream to be closed, which happens once. A write in flight is left to finish.
    pub fn stop(&mut self) -> (release: bool)
        ensures
            release == old(self)@.open,
            final(self)@ == old(self)@.after(SendCall::Stop),
    {
        let release = self.open;
        self.open = false;
        release
    }

    /// Decides what to do about `event` when somebody asks whether bytes can be sent.
    pub fn poll_ready(&mut self, event: SendEvent) -> (action: ReadyAction)
        requires
            old(self)@.allows(SendCall::Flush { event }),
        ensures
            action == old(self)@.ready_action(event),
            final(self)@ == old(self)@.after(SendCall::Flush { event }),
    {
        match event {
            SendEvent::Wanted => {
                if self.sending {
                    ReadyAction::PollWrite
                } else {
                    ReadyAction::Return(Poll::Ready(Ok(())))
                }
            },
            SendEvent::Polled(Poll::Pending) => ReadyAction::Return(Poll::Pending),
            SendEvent::Polled(Poll::Ready(Ok(()))) => {
                self.sending = false;
                ReadyAction::Return(Poll::Ready(Ok(())))
            },
            SendEvent::Polled(Poll::Ready(Err(text))) => {
                ReadyAction::Return(Poll::Ready(Err(SendError::SendFailed(text))))
            },
        }
    }

    /// Sends `buf` as one chunk: returns the chunk of which a write is to be started.
    pub fn send_chunk(&mut self, buf: &[u8]) -> (chunk: Vec<u8>)
        requires
            old(self)@.allows(SendCall::Chunk { data: buf@ }),
        ensures
            chunk@ == buf@,
            Some(chunk@) == old(self)@.chunk_started(SendCall::Chunk { data: buf@ }),
            final(self)@ == old(self)@.after(SendCall::Chunk { data: buf@ }),
    {
        self.sending = true;
        vstd::slice::slice_to_vec(buf)
    }

    /// Decides what to do about `event` when `buf` is to be sent. Once no write is in
    /// flight, all of it is taken.
    pub fn poll_write(&mut self, event: SendEvent, buf: &[u8]) -> (action: WriteAction)
        requires
            old(self)@.allows(SendCall::Write { event, data: buf@ }),
        ensures
            final(self)@ == old(self)@.after(SendCall::Write { event, data: buf@ }),
            old(self)@.starts(SendCall::Write { event, data: buf@ }) <==> action is StartWrite,
            action@ == old(self)@.write_action(event, buf@),
    {
        match self.poll_ready(event) {
            ReadyAction::PollWrite => WriteAction::PollWrite,
            ReadyAction::Return(Poll::Pending) => WriteAction::Return(Poll::Pending),
            ReadyAction::Return(Poll::Ready(Err(err))) => WriteAction::Return(
                Poll::Ready(Err(err)),
            ),
            ReadyAction::Return(Poll::Ready(Ok(()))) => {
                let accepted: usize = buf.len();
                WriteAction::StartWrite { chunk: self.send_chunk(buf), accepted }
            },
        }
    }

    /// Decides what to do about `event` when somebody waits for the bytes to be sent.
    pub fn poll_flush(&mut self, event: SendEvent) -> (action: ReadyAction)
        requires
            old(self)@.allows(SendCall::Flush { event }),
        ensures
            action == old(self)@.ready_action(event),
            final(self)@ == old(self)@.after(SendCall::Flush { event }),
    {
        self.poll_ready(event)
    }

    /// Closes the stream without waiting for a write in flight. Returns whether the lock is
    /// now to be released and the stream to be closed, and what to give to whoever asked.
    pub fn poll_close(&mut self) -> (closing: (bool, Poll<Result<(), SendError>>))
        ensures
            closing.0 == old(self)@.open,
            closing.1 == Poll::Ready(Ok::<(), SendError>(())),
            final(self)@ == old(self)@.after(SendCall::Stop),
    {
        (self.stop(), Poll::Ready(Ok(())))
    }
}

/// The state in which `calls` leave a fresh sending half.
pub open spec fn send_state_after(calls: Seq<SendCall>) -> SendState
    decreases calls.len(),
{
    if calls.len() == 0 {
        SendState { sending: false, open: true }
    } else {
        send_state_after(calls.drop_last()).after(calls.last())
    }
}

/// A history that a fresh sending half can go through.
pub open spec fn send_history(calls: Seq<SendCall>) -> bool
    decreases calls.len(),
{
    calls.len() == 0 || {
        &&& send_history(calls.drop_last())
        &&& send_state_after(calls.drop_last()).allows(calls.last())
    }
}

/// How many writes `calls` started.
pub open spec fn writes_started(calls: Seq<SendCall>) -> nat
    decreases calls.len(),
{
    if calls.len() == 0 {
        0
    } else {
        writes_started(calls.drop_last()) + if send_state_after(calls.drop_last()).starts(
            calls.last(),
        ) {
            1nat
        } else {
            0nat
        }
    }
}

/// How many writes the stream took without complaint during `calls`.
pub open spec fn writes_done(calls: Seq<SendCall>) -> nat
    decreases calls.len(),
{
    if calls.len() == 0 {
        0
    } else {
        writes_done(calls.drop_last()) + match calls.last() {
            SendCall::Write { event: SendEvent::Polled(Poll::Ready(Ok(()))), .. } => 1nat,
            SendCall::Flush { event: SendEvent::Polled(Poll::Ready(Ok(()))) } => 1nat,
            _ => 0nat,
        }
    }
}

/// How many times `calls` release the lock and close the stream.
pub open spec fn releases(calls: Seq<SendCall>) -> nat
    decreases calls.len(),
{
    if calls.len() == 0 {
        0
    } else {
        releases(calls.drop_last()) + if calls.last() is Stop && send_state_after(
            calls.drop_last(),
        ).open {
            1nat
        } else {
            0nat
        }
    }
}

/// A sending half has at most one write in flight, and closes its stream at most once.
pub proof fn send_stream_writes_one_at_a_time(calls: Seq<SendCall>)
    requires
        send_history(calls),
    ensures
        writes_started(calls) == writes_done(calls) + if send_state_after(calls).sending {
            1nat
        } else {
            0nat
        },
        releases(calls) == if send_state_after(calls).open {
            0nat
        } else {
            1nat
        },
    decreases calls.len(),
{
    if calls.len() > 0 {
        send_stream_writes_one_at_a_time(calls.drop_last());
    }
}

/// When a flush succeeds, the stream has taken every write that was started.
pub proof fn flushed_means_sent(calls: Seq<SendCall>, event: SendEvent)
    requires
        send_history(calls.push(SendCall::Flush { event })),
        send_state_after(calls).ready(event),
    ensures
        writes_started(calls.push(SendCall::Flush { event })) == writes_done(
            calls.push(SendCall::Flush { event }),
        ),
{
    let flushed = calls.push(SendCall::Flush { event });
    send_stream_writes_one_at_a_time(flushed);
    assert(flushed.drop_last() == calls);
}

/// The bytes that are to be sent with a call.
pub open spec fn call_data(call: SendCall) -> Seq<u8> {
    match call {
        SendCall::Write { data, .. } => data,
        SendCall::Chunk { data } => data,
        _ => seq![],
    }
}

/// The chunks of the writes that `calls` started, first to last.
pub open spec fn chunks_started(calls: Seq<SendCall>) -> Seq<Seq<u8>>
    decreases calls.len(),
{
    if calls.len() == 0 {
        seq![]
    } else {
        match send_state_after(calls.drop_last()).chunk_started(calls.last()) {
            Some(chunk) => chunks_started(calls.drop_last()).push(chunk),
            None => chunks_started(calls.drop_last()),
        }
    }
}

/// The data of those of `calls` that started a write, first to last.
pub open spec fn data_started(calls: Seq<SendCall>) -> Seq<Seq<u8>>
    decreases calls.len(),
{
    if calls.len() == 0 {
        seq![]
    } else if send_state_after(calls.drop_last()).starts(calls.last()) {
        data_started(calls.drop_last()).push(call_data(calls.last()))
    } else {
        data_started(calls.drop_last())
    }
}

/// All the bytes of which `calls` reported that they were taken.
pub open spec fn all_bytes_taken(calls: Seq<SendCall>) -> Seq<u8>
    decreases calls.len(),
{
    if calls.len() == 0 {
        seq![]
    } else {
        all_bytes_taken(calls.drop_last()) + send_state_after(calls.drop_last()).bytes_taken(
            calls.last(),
        )
    }
}

/// Chunks one behind the other.
pub open spec fn joined(chunks: Seq<Seq<u8>>) -> Seq<u8>
    decreases chunks.len(),
{
    if chunks.len() == 0 {
        seq![]
    } else {
        joined(chunks.drop_last()) + chunks.last()
    }
}

/// The chunks that are written are the data of the calls that start a write, whole and in
/// order; one behind the other they are exactly the bytes that were reported as taken.
pub proof fn send_stream_sends_what_it_takes(calls: Seq<SendCall>)
    requires
        send_history(calls),
    ensures
        chunks_started(calls) == data_started(calls),
        chunks_started(calls).len() == writes_started(calls),
        joined(chunks_started(calls)) == all_bytes_taken(calls),
    decreases calls.len(),
{
    if calls.len() > 0 {
        let before = calls.drop_last();
        let state = send_state_after(before);
        let call = calls.last();
        send_stream_sends_what_it_takes(before);
        assert(call_data(call).take(call_data(call).len() as int) == call_data(call));
        if state.starts(call) {
            assert(chunks_started(calls).drop_last() == chunks_started(before));
        } else {
            assert(all_bytes_taken(calls) == all_bytes_taken(before));
        }
    }
}

/// What was reported with a call, if anything was.
pub open spec fn call_event(call: SendCall) -> Option<SendEvent> {
    match call {
        SendCall::Write { event, .. } => Some(event),
        SendCall::Flush { event } => Some(event),
        _ => None,
    }
}

/// Once a write has failed, and as long as it does not succeed after all, a sending half
/// never becomes ready again and starts no other write.
pub proof fn failed_send_stream_stays_busy(
    before: Seq<SendCall>,
    failure: SendCall,
    text: String,
    after: Seq<SendCall>,
)
    requires
        send_history(before.push(failure) + after),
        call_event(failure) == Some(SendEvent::Polled(Poll::Ready(Err(text)))),
        forall|i: int|
            0 <= i < after.len() ==> !(call_event(#[trigger] after[i]) matches Some(
                SendEvent::Polled(Poll::Ready(Ok(_))),
            )),
    ensures
        ({
            let calls = before.push(failure) + after;
            &&& send_state_after(calls).sending
            &&& forall|event: SendEvent|
                !(event matches SendEvent::Polled(Poll::Ready(Ok(_))))
                    ==> !#[trigger] send_state_after(calls).ready(event)
            &&& writes_started(calls) == writes_started(before)
        }),
    decreases after.len(),
{
    let failed = before.push(failure);
    let calls = failed + after;
    if after.len() == 0 {
        assert(calls == failed);
        assert(failed.drop_last() == before);
    } else {
        let shorter = after.drop_last();
        assert(calls.drop_last() == failed + shorter);
        assert forall|i: int| 0 <= i < shorter.len() implies !(call_event(
            #[trigger] shorter[i],
        ) matches Some(SendEvent::Polled(Poll::Ready(Ok(_))))) by {
            assert(shorter[i] == after[i]);
        }
        failed_send_stream_stays_busy(before, failure, text, shorter);
        assert(calls.last() == after[after.len() - 1]);
    }
}

/// A read reports exactly as many bytes as it hands out: as many as there is room for, or all
/// that there are. They are the first of what was buffered and what the stream just gave, and
/// what is behind them stays buffered. Whatever is not reported as read stays where it was.
pub proof fn read_reports_what_it_hands_out(
    state: RecvState,
    event: ReadEvent<Seq<u8>>,
    capacity: nat,
)
    requires
        state.wf(),
        state.accepts(event),
    ensures
        ({
            let call = RecvCall::Read { event, capacity };
            let handed_out = state.handed_out(call);
            let left = state.after(call).buffered;
            match read_action(state.next_chunk(event), capacity) {
                ReadAction::Return(Poll::Ready(Ok(count))) => {
                    &&& count == handed_out.len() == state.count(call)
                    &&& count <= capacity
                    &&& count < capacity ==> left.len() == 0
                    &&& handed_out + left == state.buffered + call.received()
                },
                _ => {
                    &&& handed_out.len() == 0
                    &&& left == state.buffered
                    &&& call.received().len() == 0
                },
            }
        }),
{
    let call = RecvCall::Read { event, capacity };
    let chunk = chunk_of(state.next_chunk(event));
    assert(chunk == state.buffered + call.received());
    assert(chunk.take(state.count(call) as int) + chunk.skip(state.count(call) as int) == chunk);
}

/// The bytes that whoever makes `call` gets to see: of a read, the beginning of the room, as
/// far as the read reports; of a chunk, the chunk.
pub open spec fn bytes_seen(state: RecvState, call: RecvCall) -> Seq<u8> {
    match call {
        RecvCall::Read { event, capacity } => match read_action(
            state.next_chunk(event),
            capacity,
        ) {
            ReadAction::Return(Poll::Ready(Ok(count))) => state.handed_out(call).take(count as int),
            _ => seq![],
        },
        RecvCall::Chunk { event } => match state.next_chunk(event) {
            ReadAction::Return(Poll::Ready(Some(Ok(chunk)))) => chunk,
            _ => seq![],
        },
    }
}

/// All the bytes that whoever makes `calls` gets to see.
pub open spec fn all_bytes_seen(calls: Seq<RecvCall>) -> Seq<u8>
    decreases calls.len(),
{
    if calls.len() == 0 {
        seq![]
    } else {
        all_bytes_seen(calls.drop_last()) + bytes_seen(
            recv_state_after(calls.drop_last()),
            calls.last(),
        )
    }
}

/// Whoever reads a stream, in whatever sizes, sees the bytes that it gave, each once and in
/// order, up to those that are still buffered.
pub proof fn reading_shows_every_byte(calls: Seq<RecvCall>)
    requires
        recv_history(calls),
    ensures
        all_bytes_seen(calls) + recv_state_after(calls).buffered == bytes_received(calls),
    decreases calls.len(),
{
    if calls.len() > 0 {
        let before = calls.drop_last();
        let state = recv_state_after(before);
        let call = calls.last();
        reading_shows_every_byte(before);
        recv_stream_keeps_every_byte(before);
        let chunk = chunk_of(state.next_chunk(call.event()));
        assert(chunk == state.buffered + call.received());
        assert(chunk.take(chunk.len() as int) == chunk);
        assert(bytes_seen(state, call) == state.handed_out(call));
        assert(state.handed_out(call) + state.after(call).buffered == chunk);
    }
}

/// How many reads of the stream `calls` started.
pub open spec fn stream_reads_started(calls: Seq<RecvCall>) -> nat
    decreases calls.len(),
{
    if calls.len() == 0 {
        0
    } else {
        stream_reads_started(calls.drop_last()) + if recv_state_after(
            calls.drop_last(),
        ).next_chunk(calls.last().event()) is StartRead {
            1nat
        } else {
            0nat
        }
    }
}

/// How many reads of the stream were answered during `calls`.
pub open spec fn stream_reads_answered(calls: Seq<RecvCall>) -> nat
    decreases calls.len(),
{
    if calls.len() == 0 {
        0
    } else {
        stream_reads_answered(calls.drop_last()) + if calls.last().event() matches
            ReadEvent::Polled(Poll::Ready(Ok(_))) {
            1nat
        } else {
            0nat
        }
    }
}

/// A receiving half has at most one read in flight, and knows whether it has one.
pub proof fn recv_stream_reads_one_at_a_time(calls: Seq<RecvCall>)
    requires
        recv_history(calls),
    ensures
        stream_reads_started(calls) == stream_reads_answered(calls) + if recv_state_after(
            calls,
        ).pending {
            1nat
        } else {
            0nat
        },
    decreases calls.len(),
{
    if calls.len() > 0 {
        recv_stream_reads_one_at_a_time(calls.drop_last());
        recv_stream_keeps_every_byte(calls.drop_last());
    }
}

/// While bytes are buffered, a receiving half hands out all of them, as one chunk, without a
/// look at the stream. Otherwise whoever asked learns of the bytes that the stream gave, of
/// its end, of a failure and its text, or that there is no answer yet, if and only if that is
/// what a poll brought; and the stream is polled if a read is in flight, else read.
pub proof fn recv_stream_passes_on_each_answer(
    state: RecvState,
    event: ReadEvent<Seq<u8>>,
    text: String,
)
    requires
        state.wf(),
        state.accepts(event),
    ensures
        ({
            let action = state.next_chunk(event);
            let waits = state.buffered.len() == 0;
            &&& state.buffered.len() > 0 ==> action == ReadAction::Return(
                Poll::Ready(Some(Ok::<Seq<u8>, ReadError>(state.buffered))),
            )
            &&& waits && (action matches ReadAction::Return(Poll::Ready(Some(Ok(_))))) <==> (
            event matches ReadEvent::Polled(Poll::Ready(Ok(result))) && !result.done)
            &&& waits ==> (action matches ReadAction::Return(Poll::Ready(Some(Ok(chunk))))
                ==> event matches ReadEvent::Polled(Poll::Ready(Ok(result))) && result.value
                == Some(chunk))
            &&& action == ReadAction::Return(Poll::Ready(None::<Result<Seq<u8>, ReadError>>))
                <==> (event matches ReadEvent::Polled(Poll::Ready(Ok(result))) && result.done)
            &&& action == ReadAction::Return(
                Poll::Ready(Some(Err::<Seq<u8>, ReadError>(ReadError::ReadError(text)))),
            ) <==> event == ReadEvent::<Seq<u8>>::Polled(Poll::Ready(Err(text)))
            &&& action == ReadAction::Return(Poll::<Option<Result<Seq<u8>, ReadError>>>::Pending)
                <==> event == ReadEvent::<Seq<u8>>::Polled(Poll::Pending)
            &&& action is PollRead <==> waits && event is Wanted && state.pending
            &&& action is StartRead <==> waits && event is Wanted && !state.pending
        }),
{
}

/// A read into some room looks at the stream, and learns of failures and of answers that are
/// not there yet, just as taking a chunk does. It reports no bytes at the end of the stream,
/// and with room for one at no other time but when the stream gave an empty chunk.
pub proof fn reads_and_chunks_agree(
    state: RecvState,
    event: ReadEvent<Seq<u8>>,
    capacity: nat,
    err: ReadError,
)
    requires
        state.wf(),
        state.accepts(event),
    ensures
        ({
            let chunk = state.next_chunk(event);
            let read = read_action(chunk, capacity);
            &&& read is StartRead <==> chunk is StartRead
            &&& read is PollRead <==> chunk is PollRead
            &&& read == ReadAction::Return(Poll::<Result<nat, ReadError>>::Pending) <==> chunk
                == ReadAction::Return(Poll::<Option<Result<Seq<u8>, ReadError>>>::Pending)
            &&& read == ReadAction::Return(Poll::Ready(Err::<nat, ReadError>(err))) <==> chunk
                == ReadAction::Return(Poll::Ready(Some(Err::<Seq<u8>, ReadError>(err))))
            &&& chunk == ReadAction::Return(Poll::Ready(None::<Result<Seq<u8>, ReadError>>))
                ==> read == ReadAction::Return(Poll::Ready(Ok::<nat, ReadError>(0)))
            &&& chunk matches ReadAction::Return(Poll::Ready(Some(Ok(bytes)))) ==> (read matches
                ReadAction::Return(Poll::Ready(Ok(count))) && (count == 0 <==> capacity == 0
                || bytes.len() == 0))
            &&& state.after(RecvCall::Read { event, capacity }).pending == state.after(
                RecvCall::Chunk { event },
            ).pending
        }),
{
}

/// Somebody may ask a receiving half at any time, and a read can be polled, whatever comes of
/// it, as long as it is in flight.
pub proof fn recv_stream_can_be_asked_at_any_time(state: RecvState, event: ReadEvent<Seq<u8>>)
    requires
        state.wf(),
        event matches ReadEvent::Polled(Poll::Ready(Ok(result))) ==> result.done
            || result.value is Some,
    ensures
        state.accepts(event) <==> event is Wanted || state.pending,
{
}

/// Whoever waits for a sending half learns that the write in flight failed, with the text of
/// the failure, or that it is not done yet, if and only if that is what a poll brought; and
/// that it is ready if and only if no write is in flight, or the poll brought that it is done.
/// The write is polled when one is in flight.
pub proof fn send_stream_passes_on_each_answer(state: SendState, event: SendEvent, text: String)
    requires
        state.accepts(event),
    ensures
        ({
            let action = state.ready_action(event);
            &&& action == ReadyAction::Return(Poll::Ready(Err(SendError::SendFailed(text))))
                <==> event == SendEvent::Polled(Poll::Ready(Err(text)))
            &&& action == ReadyAction::Return(Poll::Pending) <==> event == SendEvent::Polled(
                Poll::Pending,
            )
            &&& state.ready(event) <==> (event is Wanted && !state.sending || (
            event matches SendEvent::Polled(Poll::Ready(Ok(_)))))
            &&& action is PollWrite <==> event is Wanted && state.sending
            &&& !(action matches ReadyAction::Return(Poll::Ready(Err(SendError::CloseFailed(_)))))
            &&& state.after(SendCall::Flush { event }).sending <==> !state.ready(event)
        }),
{
}

/// Sending waits just as flushing does. As soon as a flush would succeed, all the bytes are
/// taken, and one write of all of them is started; until then none are.
pub proof fn writes_and_flushes_agree(
    state: SendState,
    event: SendEvent,
    data: Seq<u8>,
    err: SendError,
)
    requires
        state.accepts(event),
    ensures
        ({
            let flush = state.ready_action(event);
            let write = state.write_action(event, data);
            &&& write is PollWrite <==> flush is PollWrite
            &&& write == WriteActionView::Return(Poll::Pending) <==> flush == ReadyAction::Return(
                Poll::Pending,
            )
            &&& write == WriteActionView::Return(Poll::Ready(Err(err))) <==> flush
                == ReadyAction::Return(Poll::Ready(Err(err)))
            &&& (flush matches ReadyAction::Return(Poll::Ready(Ok(_)))) <==> write
                == (WriteActionView::StartWrite { chunk: data, accepted: data.len() })
            &&& write is StartWrite <==> state.starts(SendCall::Write { event, data })
            &&& state.after(SendCall::Write { event, data }).sending
        }),
{
}

/// A sending half that was not closed takes bytes as soon as no write is in flight, and then
/// has one in flight. Closing it leaves a write in flight alone, and closes it for good.
pub proof fn send_stream_takes_bytes_until_closed(state: SendState, event: SendEvent, data: Seq<u8>)
    ensures
        state.allows(SendCall::Flush { event }) <==> event is Wanted || state.sending,
        state.allows(SendCall::Chunk { data }) <==> !state.sending && state.open,
        state.open ==> (state.allows(SendCall::Write { event, data }) <==> event is Wanted
            || state.sending),
        state.allows(SendCall::Stop),
        state.after(SendCall::Chunk { data }) == (SendState { sending: true, open: state.open }),
        state.chunk_started(SendCall::Chunk { data }) == Some(data),
        state.after(SendCall::Stop) == (SendState { sending: state.sending, open: false }),
        state.after(SendCall::Flush { event }).open == state.open,
        state.after(SendCall::Write { event, data }).open == state.open,
{
}

} // verus!
