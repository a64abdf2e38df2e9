//! The work on one stream, beside the session that it belongs to.
use crate::buffer::{bytes_as_slice, bytes_contents, bytes_from_vec};
use crate::client::{Task, TaskView};
use crate::event::{Event, EventView};
use bytes::Bytes;
use vstd::prelude::*;

verus! {

/// How many bytes are written at a time.
pub const CHUNK_LEN: usize = 4;

/// How many milliseconds pass after each write.
pub const PAUSE_MILLIS: u64 = 100;

/// What is written in answer to a stream that the peer opened in both directions.
pub open spec fn greeting() -> Seq<u8> {
    vstd::utf8::encode_utf8("Hello"@)
}

/// How far a write gets that starts behind `sent` of `length` bytes.
pub open spec fn chunk_end(length: nat, sent: nat) -> nat {
    if sent + CHUNK_LEN < length {
        sent + CHUNK_LEN as nat
    } else {
        length
    }
}

/// Bytes that are sent one chunk after the other.
#[derive(Debug)]
pub struct ChunkedSend {
    data: Bytes,
    sent: usize,
}

/// Bytes, and how many of them were handed out to be written.
#[verifier::ext_equal]
pub struct ChunkedSendView {
    pub data: Seq<u8>,
    pub sent: nat,
}

impl ChunkedSendView {
    /// No more bytes are handed out than there are.
    pub open spec fn wf(self) -> bool {
        self.sent <= self.data.len()
    }

    /// Whether every byte was handed out.
    pub open spec fn done(self) -> bool {
        self.sent == self.data.len()
    }

    /// The bytes that are written next.
    pub open spec fn chunk(self) -> Seq<u8> {
        self.data.subrange(self.sent as int, chunk_end(self.data.len(), self.sent) as int)
    }

    /// What is left once the next bytes were handed out.
    pub open spec fn rest(self) -> ChunkedSendView {
        ChunkedSendView { data: self.data, sent: chunk_end(self.data.len(), self.sent) }
    }
}

impl View for ChunkedSend {
    type V = ChunkedSendView;

    closed spec fn view(&self) -> ChunkedSendView {
        ChunkedSendView { data: bytes_contents(self.data), sent: self.sent as nat }
    }
}

impl ChunkedSend {
    /// All of `data` is to be sent.
    pub fn new(data: Bytes) -> (send: Self)
        ensures
            send@ == (ChunkedSendView { data: bytes_contents(data), sent: 0 }),
            send@.wf(),
    {
        ChunkedSend { data, sent: 0 }
    }

    /// Hands out the bytes that are written next, if any are left.
    pub fn next_chunk(&mut self) -> (chunk: Option<Vec<u8>>)
        requires
            old(self)@.wf(),
        ensures
            final(self)@.wf(),
            match chunk {
                Some(chunk) => {
                    &&& !old(self)@.done()
                    &&& chunk@ == old(self)@.chunk()
                    &&& final(self)@ == old(self)@.rest()
                },
                None => old(self)@.done() && final(self)@ == old(self)@,
            },
    {
        let data = bytes_as_slice(&self.data);
        if self.sent == data.len() {
            return None;
        }
        let end: usize = if data.len() - self.sent > CHUNK_LEN {
            self.sent + CHUNK_LEN
        } else {
            data.len()
        };
        let chunk = vstd::slice::slice_to_vec(vstd::slice::slice_subrange(data, self.sent, end));
        self.sent = end;
        Some(chunk)
    }
}

/// What a task is told. Failures carry their text.
#[derive(Debug)]
pub enum TaskInput {
    /// The bytes were written, or could not be.
    Written(Result<(), String>),
    /// The pause is over.
    Paused,
    /// The sending half was dropped.
    Dropped,
    /// The stream was read to its end, or could not be.
    Received(Result<Vec<u8>, String>),
    /// The event was put into the queue, if anybody listens.
    Emitted,
}

/// An input with the bytes and texts themselves in place of their storage.
#[verifier::ext_equal]
pub enum TaskInputView {
    Written(Result<(), Seq<char>>),
    Paused,
    Dropped,
    Received(Result<Seq<u8>, Seq<char>>),
    Emitted,
}

impl View for TaskInput {
    type V = TaskInputView;

    open spec fn view(&self) -> TaskInputView {
        match *self {
            TaskInput::Written(Ok(())) => TaskInputView::Written(Ok(())),
            TaskInput::Written(Err(text)) => TaskInputView::Written(Err(text@)),
            TaskInput::Paused => TaskInputView::Paused,
            TaskInput::Dropped => TaskInputView::Dropped,
            TaskInput::Received(Ok(data)) => TaskInputView::Received(Ok(data@)),
            TaskInput::Received(Err(text)) => TaskInputView::Received(Err(text@)),
            TaskInput::Emitted => TaskInputView::Emitted,
        }
    }
}

/// What a task needs to have done next.
#[derive(Debug, PartialEq)]
pub enum TaskCommand {
    /// Write these bytes.
    Write(Vec<u8>),
    /// Let this many milliseconds pass.
    Pause(u64),
    /// Drop the sending half, which closes it.
    DropSend,
    /// Read the stream to its end.
    ReadToEnd,
    /// Put this event into the queue.
    Emit(Event),
    /// Nothing: the task is over. What is left of the stream is dropped.
    Finish(Result<(), String>),
}

/// A command with the bytes and texts themselves in place of their storage.
#[verifier::ext_equal]
pub enum TaskCommandView {
    Write(Seq<u8>),
    Pause(u64),
    DropSend,
    ReadToEnd,
    Emit(EventView),
    Finish(Result<(), Seq<char>>),
}

impl View for TaskCommand {
    type V = TaskCommandView;

    open spec fn view(&self) -> TaskCommandView {
        match *self {
            TaskCommand::Write(data) => TaskCommandView::Write(data@),
            TaskCommand::Pause(millis) => TaskCommandView::Pause(millis),
            TaskCommand::DropSend => TaskCommandView::DropSend,
            TaskCommand::ReadToEnd => TaskCommandView::ReadToEnd,
            TaskCommand::Emit(event) => TaskCommandView::Emit(event@),
            TaskCommand::Finish(Ok(())) => TaskCommandView::Finish(Ok(())),
            TaskCommand::Finish(Err(text)) => TaskCommandView::Finish(Err(text@)),
        }
    }
}

/// On which kind of stream a task works, and who opened it.
#[derive(Debug, Clone, Copy, PartialEq, Eq, Structural)]
pub enum TaskKind {
    OpenBi,
    OpenUni,
    IncomingBi,
    IncomingUni,
}

/// What a task is waiting to hear.
#[derive(Debug)]
enum TaskPhase {
    Writing(ChunkedSend),
    Pausing(ChunkedSend),
    Dropping,
    Reading,
    Emitting,
    Answering,
    Finished,
}

/// What a task is waiting to hear.
#[verifier::ext_equal]
pub enum TaskPhaseView {
    /// Whether a chunk was written; these bytes are left.
    Writing(ChunkedSendView),
    /// That a pause is over; these bytes are left.
    Pausing(ChunkedSendView),
    /// That the sending half was dropped.
    Dropping,
    /// What the stream holds.
    Reading,
    /// That what it holds was told.
    Emitting,
    /// Whether the answer was written.
    Answering,
    /// Nothing more.
    Finished,
}

impl View for TaskPhase {
    type V = TaskPhaseView;

    closed spec fn view(&self) -> TaskPhaseView {
        match *self {
            TaskPhase::Writing(send) => TaskPhaseView::Writing(send@),
            TaskPhase::Pausing(send) => TaskPhaseView::Pausing(send@),
            TaskPhase::Dropping => TaskPhaseView::Dropping,
            TaskPhase::Reading => TaskPhaseView::Reading,
            TaskPhase::Emitting => TaskPhaseView::Emitting,
            TaskPhase::Answering => TaskPhaseView::Answering,
            TaskPhase::Finished => TaskPhaseView::Finished,
        }
    }
}

/// A task: its kind, and what it is waiting to hear.
#[verifier::ext_equal]
pub struct TaskState {
    pub kind: TaskKind,
    pub phase: TaskPhaseView,
}

impl TaskState {
    /// Only tasks on streams that the client opened send, and no more than they were given.
    pub open spec fn wf(self) -> bool {
        let opened = self.kind is OpenBi || self.kind is OpenUni;
        match self.phase {
            TaskPhaseView::Writing(send) => opened && send.wf(),
            TaskPhaseView::Pausing(send) => opened && send.wf(),
            TaskPhaseView::Dropping => opened,
            _ => true,
        }
    }

    /// Whether `input` is an answer to what the task is waiting for.
    pub open spec fn accepts(self, input: TaskInputView) -> bool {
        match self.phase {
            TaskPhaseView::Writing(_) => input is Written,
            TaskPhaseView::Pausing(_) => input is Paused,
            TaskPhaseView::Dropping => input is Dropped,
            TaskPhaseView::Reading => input is Received,
            TaskPhaseView::Emitting => input is Emitted,
            TaskPhaseView::Answering => input is Written,
            TaskPhaseView::Finished => false,
        }
    }

    /// The same task, waiting to hear something else.
    pub open spec fn at(self, phase: TaskPhaseView) -> TaskState {
        TaskState { kind: self.kind, phase }
    }

    /// The task goes on sending, or drops the sending half when everything was sent.
    pub open spec fn send(self, send: ChunkedSendView) -> (TaskState, TaskCommandView) {
        if send.done() {
            (self.at(TaskPhaseView::Dropping), TaskCommandView::DropSend)
        } else {
            (self.at(TaskPhaseView::Writing(send.rest())), TaskCommandView::Write(send.chunk()))
        }
    }

    /// The task reads the stream.
    pub open spec fn read(self) -> (TaskState, TaskCommandView) {
        (self.at(TaskPhaseView::Reading), TaskCommandView::ReadToEnd)
    }

    /// The task tells what the stream held.
    pub open spec fn tell(self, data: Seq<u8>) -> (TaskState, TaskCommandView) {
        (
            self.at(TaskPhaseView::Emitting),
            TaskCommandView::Emit(
                if self.kind is IncomingUni {
                    EventView::UniStream(data)
                } else {
                    EventView::BiStream(data)
                },
            ),
        )
    }

    /// The task is over.
    pub open spec fn finish(self, result: Result<(), Seq<char>>) -> (TaskState, TaskCommandView) {
        (self.at(TaskPhaseView::Finished), TaskCommandView::Finish(result))
    }

    /// What `input` leads to: the next state, and what is to be done next.
    pub open spec fn next(self, input: TaskInputView) -> (TaskState, TaskCommandView)
        recommends
            self.accepts(input),
    {
        match (self.phase, input) {
            (TaskPhaseView::Writing(send), TaskInputView::Written(Ok(()))) => (
                self.at(TaskPhaseView::Pausing(send)),
                TaskCommandView::Pause(PAUSE_MILLIS),
            ),
            (TaskPhaseView::Pausing(send), _) => self.send(send),
            (TaskPhaseView::Dropping, _) => if self.kind is OpenBi {
                self.read()
            } else {
                self.finish(Ok(()))
            },
            (TaskPhaseView::Reading, TaskInputView::Received(Ok(data))) => self.tell(data),
            (TaskPhaseView::Reading, TaskInputView::Received(Err(text))) => self.finish(Err(text)),
            (TaskPhaseView::Emitting, _) => if self.kind is IncomingBi {
                (self.at(TaskPhaseView::Answering), TaskCommandView::Write(greeting()))
            } else {
                self.finish(Ok(()))
            },
            (_, TaskInputView::Written(Err(text))) => self.finish(Err(text)),
            _ => self.finish(Ok(())),
        }
    }
}

/// How a task begins: its first state, and what is to be done first.
pub open spec fn task_begun(task: TaskView) -> (TaskState, TaskCommandView) {
    let idle = |kind: TaskKind| TaskState { kind, phase: TaskPhaseView::Finished };
    match task {
        TaskView::OpenBi(data) => idle(TaskKind::OpenBi).send(ChunkedSendView { data, sent: 0 }),
        TaskView::OpenUni(data) => idle(TaskKind::OpenUni).send(ChunkedSendView { data, sent: 0 }),
        TaskView::IncomingBi => idle(TaskKind::IncomingBi).read(),
        TaskView::IncomingUni => idle(TaskKind::IncomingUni).read(),
    }
}

/// The work on one stream.
#[derive(Debug)]
pub struct StreamTask {
    kind: TaskKind,
    phase: TaskPhase,
}

impl View for StreamTask {
    type V = TaskState;

    closed spec fn view(&self) -> TaskState {
        TaskState { kind: self.kind, phase: self.phase@ }
    }
}

impl StreamTask {
    /// Begins a task. Returns what is to be done first.
    pub fn begin(task: Task) -> (begun: (StreamTask, TaskCommand))
        ensures
            (begun.0@, begun.1@) == task_begun(task@),
            begun.0@.wf(),
    {
        match task {
            Task::OpenBi(data) => {
                let mut task = StreamTask { kind: TaskKind::OpenBi, phase: TaskPhase::Finished };
                let first = task.send(ChunkedSend::new(data));
                (task, first)
            },
            Task::OpenUni(data) => {
                let mut task = StreamTask { kind: TaskKind::OpenUni, phase: TaskPhase::Finished };
                let first = task.send(ChunkedSend::new(data));
                (task, first)
            },
            Task::IncomingBi => (
                StreamTask { kind: TaskKind::IncomingBi, phase: TaskPhase::Reading },
                TaskCommand::ReadToEnd,
            ),
            Task::IncomingUni => (
                StreamTask { kind: TaskKind::IncomingUni, phase: TaskPhase::Reading },
                TaskCommand::ReadToEnd,
            ),
        }
    }

    fn send(&mut self, send: ChunkedSend) -> (command: TaskCommand)
        requires
            send@.wf(),
            old(self)@.kind is OpenBi || old(self)@.kind is OpenUni,
        ensures
            (final(self)@, command@) == old(self)@.send(send@),
            final(self)@.wf(),
    {
        let mut send = send;
        match send.next_chunk() {
            Some(chunk) => {
                self.phase = TaskPhase::Writing(send);
                TaskCommand::Write(chunk)
            },
            None => {
                self.phase = TaskPhase::Dropping;
                TaskCommand::DropSend
            },
        }
    }

    fn tell(&mut self, data: Vec<u8>) -> (command: TaskCommand)
        ensures
            (final(self)@, command@) == old(self)@.tell(data@),
    {
        self.phase = TaskPhase::Emitting;
        let data = bytes_from_vec(data);
        match self.kind {
            TaskKind::IncomingUni => TaskCommand::Emit(Event::UniStream(data)),
            _ => TaskCommand::Emit(Event::BiStream(data)),
        }
    }

    /// Decides what `input` leads to. Returns what is to be done next.
    pub fn step(&mut self, input: TaskInput) -> (command: TaskCommand)
        requires
            old(self)@.wf(),
            old(self)@.accepts(input@),
        ensures
            (final(self)@, command@) == old(self)@.next(input@),
            final(self)@.wf(),
            match input {
                TaskInput::Written(Err(text)) => command == TaskCommand::Finish(Err(text)),
                TaskInput::Received(Err(text)) => command == TaskCommand::Finish(Err(text)),
                TaskInput::Received(Ok(data)) => match command {
                    TaskCommand::Emit(Event::UniStream(told)) => bytes_contents(told) == data@,
                    TaskCommand::Emit(Event::BiStream(told)) => bytes_contents(told) == data@,
                    _ => false,
                },
                _ => !(command matches TaskCommand::Finish(Err(_))) && !(command is Emit),
            },
    {
        let mut phase = TaskPhase::Finished;
        std::mem::swap(&mut phase, &mut self.phase);
        match (phase, input) {
            (TaskPhase::Writing(send), TaskInput::Written(Ok(()))) => {
                self.phase = TaskPhase::Pausing(send);
                TaskCommand::Pause(PAUSE_MILLIS)
            },
            (TaskPhase::Pausing(send), _) => self.send(send),
            (TaskPhase::Dropping, _) => match self.kind {
                TaskKind::OpenBi => {
                    self.phase = TaskPhase::Reading;
                    TaskCommand::ReadToEnd
                },
                _ => TaskCommand::Finish(Ok(())),
            },
            (TaskPhase::Reading, TaskInput::Received(Ok(data))) => self.tell(data),
            (TaskPhase::Reading, TaskInput::Received(Err(text))) => TaskCommand::Finish(Err(text)),
            (TaskPhase::Emitting, _) => match self.kind {
                TaskKind::IncomingBi => {
                    self.phase = TaskPhase::Answering;
                    TaskCommand::Write("Hello".as_bytes_vec())
                },
                _ => TaskCommand::Finish(Ok(())),
            },
            (_, TaskInput::Written(Err(text))) => TaskCommand::Finish(Err(text)),
            _ => TaskCommand::Finish(Ok(())),
        }
    }
}

/// The state in which `inputs` leave a task.
pub open spec fn task_state_after(task: TaskView, inputs: Seq<TaskInputView>) -> TaskState
    decreases inputs.len(),
{
    if inputs.len() == 0 {
        task_begun(task).0
    } else {
        task_state_after(task, inputs.drop_last()).next(inputs.last()).0
    }
}

/// A history that a task can go through.
pub open spec fn task_history(task: TaskView, inputs: Seq<TaskInputView>) -> bool
    decreases inputs.len(),
{
    inputs.len() == 0 || {
        &&& task_history(task, inputs.drop_last())
        &&& task_state_after(task, inputs.drop_last()).accepts(inputs.last())
    }
}

/// The last command that a task gives in answer to `inputs`.
pub open spec fn task_command(task: TaskView, inputs: Seq<TaskInputView>) -> TaskCommandView {
    if inputs.len() == 0 {
        task_begun(task).1
    } else {
        task_state_after(task, inputs.drop_last()).next(inputs.last()).1
    }
}

/// All the bytes that a task has written in answer to `inputs`.
pub open spec fn bytes_written(task: TaskView, inputs: Seq<TaskInputView>) -> Seq<u8>
    decreases inputs.len(),
{
    let before = if inputs.len() == 0 {
        seq![]
    } else {
        bytes_written(task, inputs.drop_last())
    };
    match task_command(task, inputs) {
        TaskCommandView::Write(chunk) => before + chunk,
        _ => before,
    }
}

/// The events that a task has told in answer to `inputs`.
pub open spec fn task_events(task: TaskView, inputs: Seq<TaskInputView>) -> Seq<EventView>
    decreases inputs.len(),
{
    let before = if inputs.len() == 0 {
        seq![]
    } else {
        task_events(task, inputs.drop_last())
    };
    match task_command(task, inputs) {
        TaskCommandView::Emit(event) => before.push(event),
        _ => before,
    }
}

/// A task writes four bytes at a time, but for the last that are left, each byte once and
/// in order.
pub proof fn chunks_are_full_but_the_last(send: ChunkedSendView)
    requires
        send.wf(),
        !send.done(),
    ensures
        0 < send.chunk().len() <= CHUNK_LEN,
        send.chunk().len() == CHUNK_LEN || send.rest().done(),
        send.data.take(send.sent as int) + send.chunk() == send.data.take(send.rest().sent as int),
        send.rest().wf(),
{
}

/// The bytes that a task is to send.
pub open spec fn task_data(task: TaskView) -> Seq<u8> {
    match task {
        TaskView::OpenBi(data) => data,
        TaskView::OpenUni(data) => data,
        TaskView::IncomingBi => greeting(),
        TaskView::IncomingUni => seq![],
    }
}

/// What a task that waits in `state` has written of `task_data`.
spec fn written_by_phase(task: TaskView, state: TaskState, written: Seq<u8>) -> bool {
    let data = task_data(task);
    let opened = task is OpenBi || task is OpenUni;
    &&& state.wf()
    &&& state.kind is OpenBi == task is OpenBi
    &&& state.kind is OpenUni == task is OpenUni
    &&& state.kind is IncomingBi == task is IncomingBi
    &&& match state.phase {
        TaskPhaseView::Writing(send) => opened && send.data == data && written == data.take(
            send.sent as int,
        ),
        TaskPhaseView::Pausing(send) => opened && send.data == data && written == data.take(
            send.sent as int,
        ),
        TaskPhaseView::Dropping => opened && written == data,
        TaskPhaseView::Answering => task is IncomingBi && written == data,
        TaskPhaseView::Finished => written.is_prefix_of(data),
        TaskPhaseView::Reading => !(task is OpenUni) && written == if task is OpenBi {
            data
        } else {
            seq![]
        },
        TaskPhaseView::Emitting => !(task is OpenUni) && written == if task is OpenBi {
            data
        } else {
            seq![]
        },
    }
}

proof fn task_writes_by_phase(task: TaskView, inputs: Seq<TaskInputView>)
    requires
        task_history(task, inputs),
    ensures
        written_by_phase(task, task_state_after(task, inputs), bytes_written(task, inputs)),
        task_command(task, inputs) == TaskCommandView::Finish(Ok(())) ==> bytes_written(
            task,
            inputs,
        ) == task_data(task),
    decreases inputs.len(),
{
    let data = task_data(task);
    assert(data.take(0) == Seq::<u8>::empty());
    assert(data.take(data.len() as int) == data);
    assert(Seq::<u8>::empty() + data == data);
    if inputs.len() > 0 {
        task_writes_by_phase(task, inputs.drop_last());
        if let TaskPhaseView::Pausing(send) = task_state_after(task, inputs.drop_last()).phase {
            if !send.done() {
                chunks_are_full_but_the_last(send);
            }
        }
    } else if task is OpenBi || task is OpenUni {
        let send = ChunkedSendView { data, sent: 0 };
        if !send.done() {
            chunks_are_full_but_the_last(send);
        }
    }
}

/// A task never writes anything but what it is to send, from its beginning and in order.
pub proof fn task_writes_only_its_data(task: TaskView, inputs: Seq<TaskInputView>)
    requires
        task_history(task, inputs),
    ensures
        bytes_written(task, inputs).is_prefix_of(task_data(task)),
{
    task_writes_by_phase(task, inputs);
}

/// When a task drops its sending half, and when it is over without failure, it has written
/// all that it is to send.
pub proof fn task_writes_all_its_data(task: TaskView, inputs: Seq<TaskInputView>)
    requires
        task_history(task, inputs),
        task_command(task, inputs) is DropSend || task_command(task, inputs)
            == TaskCommandView::Finish(Ok(())),
    ensures
        bytes_written(task, inputs) == task_data(task),
{
    task_writes_by_phase(task, inputs);
}

/// How many writes and how many pauses a task has asked for in answer to `inputs`.
pub open spec fn writes_and_pauses(task: TaskView, inputs: Seq<TaskInputView>) -> (nat, nat)
    decreases inputs.len(),
{
    let (writes, pauses) = if inputs.len() == 0 {
        (0, 0)
    } else {
        writes_and_pauses(task, inputs.drop_last())
    };
    match task_command(task, inputs) {
        TaskCommandView::Write(_) => (writes + 1, pauses),
        TaskCommandView::Pause(_) => (writes, pauses + 1),
        _ => (writes, pauses),
    }
}

/// How many writes it takes to send `length` bytes.
pub open spec fn chunk_count(length: nat) -> nat {
    (length + CHUNK_LEN - 1) as nat / CHUNK_LEN as nat
}

/// How many writes and pauses a task that sends and waits in `phase` has asked for.
spec fn counted_by_phase(phase: TaskPhaseView, length: nat, writes: nat, pauses: nat) -> bool {
    let sent_in_chunks = |send: ChunkedSendView|
        {
            &&& send.data.len() == length
            &&& send.sent == if CHUNK_LEN * writes < length {
                CHUNK_LEN * writes
            } else {
                length as int
            }
            &&& CHUNK_LEN * (writes - 1) < length
        };
    match phase {
        TaskPhaseView::Writing(send) => sent_in_chunks(send) && writes == pauses + 1,
        TaskPhaseView::Pausing(send) => sent_in_chunks(send) && writes == pauses,
        TaskPhaseView::Finished => true,
        _ => writes == pauses == chunk_count(length),
    }
}

proof fn task_counts_by_phase(task: TaskView, inputs: Seq<TaskInputView>)
    requires
        task_history(task, inputs),
        task is OpenBi || task is OpenUni,
    ensures
        counted_by_phase(
            task_state_after(task, inputs).phase,
            task_data(task).len(),
            writes_and_pauses(task, inputs).0,
            writes_and_pauses(task, inputs).1,
        ),
    decreases inputs.len(),
{
    if inputs.len() > 0 {
        task_counts_by_phase(task, inputs.drop_last());
        task_writes_by_phase(task, inputs.drop_last());
    }
}

/// A task sends in as many writes as it takes, and lets a pause pass after each of them,
/// before it drops its sending half.
pub proof fn task_pauses_after_each_write(task: TaskView, inputs: Seq<TaskInputView>)
    requires
        task_history(task, inputs),
        task_command(task, inputs) is DropSend,
    ensures
        writes_and_pauses(task, inputs).0 == chunk_count(task_data(task).len()),
        writes_and_pauses(task, inputs).1 == chunk_count(task_data(task).len()),
{
    task_writes_by_phase(task, inputs);
    task_counts_by_phase(task, inputs);
}

/// What a task tells of the bytes that it has read.
pub open spec fn task_story(task: TaskView, data: Seq<u8>) -> EventView {
    if task is IncomingUni {
        EventView::UniStream(data)
    } else {
        EventView::BiStream(data)
    }
}

/// What a task has to tell after `inputs`: what it has read.
pub open spec fn task_stories(task: TaskView, inputs: Seq<TaskInputView>) -> Seq<EventView>
    decreases inputs.len(),
{
    if inputs.len() == 0 {
        seq![]
    } else {
        match inputs.last() {
            TaskInputView::Received(Ok(data)) => task_stories(task, inputs.drop_last()).push(
                task_story(task, data),
            ),
            _ => task_stories(task, inputs.drop_last()),
        }
    }
}

/// A task tells all that it has read, once, and nothing else.
pub proof fn task_tells_what_it_reads(task: TaskView, inputs: Seq<TaskInputView>)
    requires
        task_history(task, inputs),
    ensures
        task_events(task, inputs) == task_stories(task, inputs),
        task_state_after(task, inputs).kind is IncomingUni == task is IncomingUni,
    decreases inputs.len(),
{
    if inputs.len() > 0 {
        task_tells_what_it_reads(task, inputs.drop_last());
    }
}

/// Whether `input` is an answer to `command`.
pub open spec fn answers_task(command: TaskCommandView, input: TaskInputView) -> bool {
    match command {
        TaskCommandView::Write(_) => input is Written,
        TaskCommandView::Pause(_) => input is Paused,
        TaskCommandView::DropSend => input is Dropped,
        TaskCommandView::ReadToEnd => input is Received,
        TaskCommandView::Emit(_) => input is Emitted,
        TaskCommandView::Finish(_) => false,
    }
}

/// A task waits for an answer to what it asked for last, takes any such answer, and nothing
/// else; it is over when it says so.
pub proof fn task_waits_for_an_answer(
    task: TaskView,
    inputs: Seq<TaskInputView>,
    input: TaskInputView,
)
    requires
        task_history(task, inputs),
    ensures
        task_history(task, inputs.push(input)) <==> answers_task(
            task_command(task, inputs),
            input,
        ),
{
    assert(inputs.push(input).drop_last() == inputs);
    if inputs.len() > 0 {
        task_writes_by_phase(task, inputs.drop_last());
    }
}

/// The text of a failure, if `input` is one.
pub open spec fn task_failure(input: TaskInputView) -> Option<Seq<char>> {
    match input {
        TaskInputView::Written(Err(text)) => Some(text),
        TaskInputView::Received(Err(text)) => Some(text),
        _ => None,
    }
}

/// A task fails if and only if it is told of a failure, at once, and with its text.
pub proof fn task_fails_as_it_is_told(
    task: TaskView,
    inputs: Seq<TaskInputView>,
    text: Seq<char>,
)
    requires
        task_history(task, inputs),
    ensures
        task_command(task, inputs) == TaskCommandView::Finish(Err(text)) <==> inputs.len() > 0
            && task_failure(inputs.last()) == Some(text),
{
    if inputs.len() > 0 {
        task_writes_by_phase(task, inputs.drop_last());
    }
}

/// A task to which nothing failed ends well, and only when it has written all that it is to
/// send.
pub proof fn unfailed_task_sends_all(task: TaskView, inputs: Seq<TaskInputView>)
    requires
        task_history(task, inputs),
        task_command(task, inputs) is Finish,
        inputs.len() > 0 ==> task_failure(inputs.last()) is None,
    ensures
        inputs.len() > 0,
        task_command(task, inputs) matches TaskCommandView::Finish(Ok(_)),
        task is OpenBi ==> bytes_written(task, inputs) == task->OpenBi_0,
        task is OpenUni ==> bytes_written(task, inputs) == task->OpenUni_0,
        task is IncomingBi ==> bytes_written(task, inputs) == vstd::utf8::encode_utf8("Hello"@),
        task is IncomingUni ==> bytes_written(task, inputs).len() == 0,
{
    if let TaskCommandView::Finish(Err(text)) = task_command(task, inputs) {
        task_fails_as_it_is_told(task, inputs, text);
    }
    task_writes_by_phase(task, inputs);
}

/// How much a task that waits in `phase` has told.
spec fn events_by_phase(
    task: TaskView,
    phase: TaskPhaseView,
    command: TaskCommandView,
    events: Seq<EventView>,
) -> bool {
    match phase {
        TaskPhaseView::Emitting => events.len() == 1,
        TaskPhaseView::Answering => events.len() == 1,
        TaskPhaseView::Finished => {
            &&& command is Finish
            &&& (command matches TaskCommandView::Finish(Ok(_))) ==> events.len() == if task is
                OpenUni {
                0nat
            } else {
                1nat
            }
        },
        _ => events.len() == 0,
    }
}

proof fn task_tells_by_phase(task: TaskView, inputs: Seq<TaskInputView>)
    requires
        task_history(task, inputs),
    ensures
        events_by_phase(
            task,
            task_state_after(task, inputs).phase,
            task_command(task, inputs),
            task_events(task, inputs),
        ),
    decreases inputs.len(),
{
    task_writes_by_phase(task, inputs);
    if inputs.len() > 0 {
        task_tells_by_phase(task, inputs.drop_last());
        task_writes_by_phase(task, inputs.drop_last());
    }
}

/// A task on a stream that can be read is over without failure only when it has read the
/// stream to its end, once, and has told what it read. A task on one that cannot be read
/// never tells anything.
pub proof fn task_ends_well_when_it_has_told(task: TaskView, inputs: Seq<TaskInputView>)
    requires
        task_history(task, inputs),
        task_command(task, inputs) matches TaskCommandView::Finish(Ok(_)),
    ensures
        task_events(task, inputs) == task_stories(task, inputs),
        task_events(task, inputs).len() == if task is OpenUni {
            0nat
        } else {
            1nat
        },
{
    task_tells_by_phase(task, inputs);
    task_tells_what_it_reads(task, inputs);
}

/// Nothing that a task was told is a failure.
pub open spec fn task_unfailed(inputs: Seq<TaskInputView>) -> bool {
    forall|i: int| 0 <= i < inputs.len() ==> task_failure(#[trigger] inputs[i]) is None
}

proof fn task_unfailed_before(inputs: Seq<TaskInputView>)
    requires
        inputs.len() > 0,
        task_unfailed(inputs),
    ensures
        task_unfailed(inputs.drop_last()),
        task_failure(inputs.last()) is None,
{
    assert forall|i: int| 0 <= i < inputs.drop_last().len() implies task_failure(
        #[trigger] inputs.drop_last()[i],
    ) is None by {
        assert(inputs.drop_last()[i] == inputs[i]);
    }
}

/// What a task that sends `data` waits for after `count` answers, while it sends.
spec fn sends_by_count(phase: TaskPhaseView, data: Seq<u8>, count: nat) -> bool {
    let sent = |end: nat|
        ChunkedSendView {
            data,
            sent: if end < data.len() {
                end
            } else {
                data.len()
            },
        };
    let chunks = (data.len() + 3) / 4;
    if count >= 2 * chunks {
        count == 2 * chunks ==> phase is Dropping
    } else if count % 2 == 0 {
        phase == TaskPhaseView::Writing(sent(2 * count + 4))
    } else {
        phase == TaskPhaseView::Pausing(sent(2 * count + 2))
    }
}

proof fn task_sends_by_count(task: TaskView, inputs: Seq<TaskInputView>)
    requires
        task is OpenBi || task is OpenUni,
        task_history(task, inputs),
        task_unfailed(inputs),
    ensures
        sends_by_count(task_state_after(task, inputs).phase, task_data(task), inputs.len()),
        ({
            let chunks = (task_data(task).len() + 3) / 4;
            let phase = task_state_after(task, inputs).phase;
            &&& inputs.len() == 2 * chunks + 1 ==> if task is OpenBi {
                phase is Reading
            } else {
                phase is Finished
            }
            &&& inputs.len() == 2 * chunks + 2 ==> task is OpenBi && phase is Emitting
            &&& inputs.len() == 2 * chunks + 3 ==> task is OpenBi && phase is Finished
            &&& inputs.len() <= 2 * chunks + 3
        }),
    decreases inputs.len(),
{
    task_writes_by_phase(task, inputs);
    if inputs.len() > 0 {
        let before = inputs.drop_last();
        task_unfailed_before(inputs);
        task_sends_by_count(task, before);
        task_writes_by_phase(task, before);
    }
}

/// The bytes from `start` on, as many as are written at a time, or as many as are left.
pub open spec fn four_from(data: Seq<u8>, start: int) -> Seq<u8> {
    data.subrange(
        start,
        if start + 4 < data.len() {
            start + 4
        } else {
            data.len() as int
        },
    )
}

/// As long as nothing fails, a task that sends `data` writes four bytes after the other,
/// each time with a pause of a tenth of a second behind it, and drops its sending half
/// when there are no more.
pub proof fn task_sends_in_fours(task: TaskView, data: Seq<u8>, inputs: Seq<TaskInputView>)
    requires
        task == TaskView::OpenBi(data) || task == TaskView::OpenUni(data),
        task_history(task, inputs),
        task_unfailed(inputs),
    ensures
        ({
            let count = inputs.len();
            let chunks = (data.len() + 3) / 4;
            let command = task_command(task, inputs);
            &&& count < 2 * chunks && count % 2 == 0 ==> command == TaskCommandView::Write(
                four_from(data, 2 * count as int),
            )
            &&& count < 2 * chunks && count % 2 == 1 ==> command == TaskCommandView::Pause(100)
            &&& count == 2 * chunks ==> command is DropSend
        }),
{
    task_sends_by_count(task, inputs);
    if inputs.len() > 0 {
        let before = inputs.drop_last();
        task_unfailed_before(inputs);
        task_sends_by_count(task, before);
        task_writes_by_phase(task, before);
    }
}

/// As long as nothing fails, a task on a stream that the client opened in one direction is
/// over when its sending half was dropped.
pub proof fn open_uni_task_is_over_when_sent(data: Seq<u8>, inputs: Seq<TaskInputView>)
    requires
        task_history(TaskView::OpenUni(data), inputs),
        task_unfailed(inputs),
    ensures
        ({
            let chunks = (data.len() + 3) / 4;
            &&& inputs.len() <= 2 * chunks + 1
            &&& inputs.len() == 2 * chunks + 1 ==> (task_command(
                TaskView::OpenUni(data),
                inputs,
            ) matches TaskCommandView::Finish(Ok(_)))
        }),
{
    let task = TaskView::OpenUni(data);
    task_sends_by_count(task, inputs);
    task_tells_by_phase(task, inputs);
    if let TaskCommandView::Finish(Err(text)) = task_command(task, inputs) {
        task_fails_as_it_is_told(task, inputs, text);
    }
}

/// As long as nothing fails, a task on a stream that the client opened in both directions
/// reads the answer directly after it dropped its sending half, then tells it, and then is
/// over.
pub proof fn open_bi_task_reads_the_answer(data: Seq<u8>, inputs: Seq<TaskInputView>)
    requires
        task_history(TaskView::OpenBi(data), inputs),
        task_unfailed(inputs),
    ensures
        ({
            let count = inputs.len();
            let chunks = (data.len() + 3) / 4;
            let command = task_command(TaskView::OpenBi(data), inputs);
            &&& count <= 2 * chunks + 3
            &&& count == 2 * chunks + 1 ==> command is ReadToEnd
            &&& count == 2 * chunks + 2 ==> (inputs.last() matches TaskInputView::Received(
                Ok(answer),
            ) && command == TaskCommandView::Emit(EventView::BiStream(answer)))
            &&& count == 2 * chunks + 3 ==> (command matches TaskCommandView::Finish(Ok(_)))
        }),
{
    let task = TaskView::OpenBi(data);
    task_sends_by_count(task, inputs);
    task_tells_by_phase(task, inputs);
    if inputs.len() > 0 {
        let before = inputs.drop_last();
        task_unfailed_before(inputs);
        task_sends_by_count(task, before);
        task_writes_by_phase(task, before);
    }
    if let TaskCommandView::Finish(Err(text)) = task_command(task, inputs) {
        task_fails_as_it_is_told(task, inputs, text);
    }
}

proof fn incoming_task_by_count(task: TaskView, inputs: Seq<TaskInputView>)
    requires
        task is IncomingBi || task is IncomingUni,
        task_history(task, inputs),
        task_unfailed(inputs),
    ensures
        ({
            let state = task_state_after(task, inputs);
            &&& state.kind is IncomingBi <==> task is IncomingBi
            &&& state.kind is IncomingUni <==> task is IncomingUni
            &&& inputs.len() == 0 ==> state.phase is Reading
            &&& inputs.len() == 1 ==> state.phase is Emitting
            &&& inputs.len() == 2 ==> if task is IncomingBi {
                state.phase is Answering
            } else {
                state.phase is Finished
            }
            &&& inputs.len() == 3 ==> task is IncomingBi && state.phase is Finished
            &&& inputs.len() <= 3
        }),
    decreases inputs.len(),
{
    if inputs.len() > 0 {
        task_unfailed_before(inputs);
        incoming_task_by_count(task, inputs.drop_last());
    }
}

/// As long as nothing fails, a task on a stream that the peer opened reads it to its end,
/// then tells what it held, then greets the peer if it can, and then is over.
pub proof fn incoming_task_reads_tells_and_greets(task: TaskView, inputs: Seq<TaskInputView>)
    requires
        task is IncomingBi || task is IncomingUni,
        task_history(task, inputs),
        task_unfailed(inputs),
    ensures
        ({
            let count = inputs.len();
            let command = task_command(task, inputs);
            &&& count == 0 ==> command is ReadToEnd
            &&& count == 1 ==> (inputs[0] matches TaskInputView::Received(Ok(data)) && command
                == TaskCommandView::Emit(
                if task is IncomingBi {
                    EventView::BiStream(data)
                } else {
                    EventView::UniStream(data)
                },
            ))
            &&& count == 2 && task is IncomingBi ==> command == TaskCommandView::Write(
                vstd::utf8::encode_utf8("Hello"@),
            )
            &&& count == 2 && task is IncomingUni ==> (command matches TaskCommandView::Finish(Ok(_)))
            &&& count == 3 ==> (command matches TaskCommandView::Finish(Ok(_)))
            &&& count <= if task is IncomingBi {
                3nat
            } else {
                2nat
            }
        }),
{
    incoming_task_by_count(task, inputs);
    if inputs.len() > 0 {
        task_unfailed_before(inputs);
        incoming_task_by_count(task, inputs.drop_last());
    }
}

/// Bytes that are sent one chunk after the other are handed out as long as any are left,
/// four at a time, each once and in order.
pub proof fn chunked_send_hands_out_all(send: ChunkedSendView)
    requires
        send.wf(),
    ensures
        send.done() <==> send.sent == send.data.len(),
        !send.done() ==> {
            &&& send.chunk() == four_from(send.data, send.sent as int)
            &&& send.rest().data == send.data
            &&& send.rest().sent == send.sent + send.chunk().len()
            &&& send.rest().sent > send.sent
        },
{
}

} // verus!
