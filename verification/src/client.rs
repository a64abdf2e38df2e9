//! The course of one session, from connecting to its end.
use crate::buffer::bytes_contents;
use crate::event::{Action, ActionView, Event, EventView};
use bytes::Bytes;
use vstd::prelude::*;

verus! {

/// How many events, and how many actions, can wait to be taken.
pub const QUEUE_CAPACITY: usize = 128;

/// Work on one stream that goes on beside the session.
#[derive(Debug, PartialEq)]
pub enum Task {
    /// Send these bytes on a stream that was opened in both directions, then read the answer.
    OpenBi(Bytes),
    /// Send these bytes on a stream that was opened in one direction.
    OpenUni(Bytes),
    /// Read a stream in both directions that the peer opened, then answer.
    IncomingBi,
    /// Read a stream in one direction that the peer opened.
    IncomingUni,
}

/// A task with the bytes themselves in place of their storage.
#[verifier::ext_equal]
pub enum TaskView {
    OpenBi(Seq<u8>),
    OpenUni(Seq<u8>),
    IncomingBi,
    IncomingUni,
}

impl View for Task {
    type V = TaskView;

    open spec fn view(&self) -> TaskView {
        match *self {
            Task::OpenBi(data) => TaskView::OpenBi(bytes_contents(data)),
            Task::OpenUni(data) => TaskView::OpenUni(bytes_contents(data)),
            Task::IncomingBi => TaskView::IncomingBi,
            Task::IncomingUni => TaskView::IncomingUni,
        }
    }
}

/// What a session is told. Failures carry their text.
#[derive(Debug)]
pub enum Input {
    /// The connection was opened, or could not be.
    Connected(Result<(), String>),
    /// The event was put into the queue, or nobody listens any more.
    Emitted(Result<(), String>),
    /// Of what was waited for, somebody's wish came first.
    Action(Action),
    /// Of what was waited for, a stream in both directions came first.
    IncomingBi(Result<(), String>),
    /// Of what was waited for, a stream in one direction came first.
    IncomingUni(Result<(), String>),
    /// Of what was waited for, a datagram came first.
    IncomingDatagram(Result<Bytes, String>),
    /// Nothing of what was waited for can come any more.
    Exhausted,
    /// The datagram was sent, or could not be.
    DatagramSent(Result<(), String>),
    /// The stream was opened, or could not be.
    Opened(Result<(), String>),
    /// The task was started.
    Spawned,
    /// The connection was closed.
    Closed,
}

/// An input with the bytes and texts themselves in place of their storage.
#[verifier::ext_equal]
pub enum InputView {
    Connected(Result<(), Seq<char>>),
    Emitted(Result<(), Seq<char>>),
    Action(ActionView),
    IncomingBi(Result<(), Seq<char>>),
    IncomingUni(Result<(), Seq<char>>),
    IncomingDatagram(Result<Seq<u8>, Seq<char>>),
    Exhausted,
    DatagramSent(Result<(), Seq<char>>),
    Opened(Result<(), Seq<char>>),
    Spawned,
    Closed,
}

/// An outcome with the text of a failure in place of its storage.
pub open spec fn outcome(result: Result<(), String>) -> Result<(), Seq<char>> {
    match result {
        Ok(()) => Ok(()),
        Err(text) => Err(text@),
    }
}

impl View for Input {
    type V = InputView;

    open spec fn view(&self) -> InputView {
        match *self {
            Input::Connected(result) => InputView::Connected(outcome(result)),
            Input::Emitted(result) => InputView::Emitted(outcome(result)),
            Input::Action(action) => InputView::Action(action@),
            Input::IncomingBi(result) => InputView::IncomingBi(outcome(result)),
            Input::IncomingUni(result) => InputView::IncomingUni(outcome(result)),
            Input::IncomingDatagram(Ok(data)) => InputView::IncomingDatagram(
                Ok(bytes_contents(data)),
            ),
            Input::IncomingDatagram(Err(text)) => InputView::IncomingDatagram(Err(text@)),
            Input::Exhausted => InputView::Exhausted,
            Input::DatagramSent(result) => InputView::DatagramSent(outcome(result)),
            Input::Opened(result) => InputView::Opened(outcome(result)),
            Input::Spawned => InputView::Spawned,
            Input::Closed => InputView::Closed,
        }
    }
}

/// What a session needs to have done next.
#[derive(Debug, PartialEq)]
pub enum Command {
    /// Open the connection to this address.
    Connect(String),
    /// Put this event into the queue.
    Emit(Event),
    /// Wait for whatever comes first.
    Select,
    /// Send these bytes as a datagram.
    SendDatagram(Bytes),
    /// Open a stream in both directions.
    OpenBi,
    /// Open a stream in one direction.
    OpenUni,
    /// Begin such work on the stream that was just opened or accepted.
    Spawn(Task),
    /// Close the connection.
    Close,
    /// Nothing: the session is over.
    Finish,
}

/// A command with the bytes and texts themselves in place of their storage.
#[verifier::ext_equal]
pub enum CommandView {
    Connect(Seq<char>),
    Emit(EventView),
    Select,
    SendDatagram(Seq<u8>),
    OpenBi,
    OpenUni,
    Spawn(TaskView),
    Close,
    Finish,
}

impl View for Command {
    type V = CommandView;

    open spec fn view(&self) -> CommandView {
        match *self {
            Command::Connect(url) => CommandView::Connect(url@),
            Command::Emit(event) => CommandView::Emit(event@),
            Command::Select => CommandView::Select,
            Command::SendDatagram(data) => CommandView::SendDatagram(bytes_contents(data)),
            Command::OpenBi => CommandView::OpenBi,
            Command::OpenUni => CommandView::OpenUni,
            Command::Spawn(task) => CommandView::Spawn(task@),
            Command::Close => CommandView::Close,
            Command::Finish => CommandView::Finish,
        }
    }
}

/// What a session is waiting to hear.
#[derive(Debug)]
enum Phase {
    Connecting,
    Announcing,
    Selecting,
    SendingDatagram,
    OpeningBi(Bytes),
    OpeningUni(Bytes),
    Spawning,
    Relaying,
    Leaving(Option<String>),
    Closing(Option<String>),
    Failing,
    Finished,
}

/// What a session is waiting to hear.
#[verifier::ext_equal]
pub enum PhaseView {
    /// Whether the connection was opened.
    Connecting,
    /// Whether anybody learned that it was.
    Announcing,
    /// What comes first.
    Selecting,
    /// Whether a datagram was sent.
    SendingDatagram,
    /// Whether the stream for these bytes was opened.
    OpeningBi(Seq<u8>),
    /// Whether the stream for these bytes was opened.
    OpeningUni(Seq<u8>),
    /// That a task was started.
    Spawning,
    /// That a datagram was passed on.
    Relaying,
    /// That the end of the session was told; it failed for the reason given, if any.
    Leaving(Option<Seq<char>>),
    /// That the connection was closed; it failed for the reason given, if any.
    Closing(Option<Seq<char>>),
    /// That a failure was told.
    Failing,
    /// Nothing more.
    Finished,
}

/// A text, if any, in place of its storage.
spec fn reason(text: Option<String>) -> Option<Seq<char>> {
    match text {
        Some(text) => Some(text@),
        None => None,
    }
}

impl View for Phase {
    type V = PhaseView;

    closed spec fn view(&self) -> PhaseView {
        match *self {
            Phase::Connecting => PhaseView::Connecting,
            Phase::Announcing => PhaseView::Announcing,
            Phase::Selecting => PhaseView::Selecting,
            Phase::SendingDatagram => PhaseView::SendingDatagram,
            Phase::OpeningBi(data) => PhaseView::OpeningBi(bytes_contents(data)),
            Phase::OpeningUni(data) => PhaseView::OpeningUni(bytes_contents(data)),
            Phase::Spawning => PhaseView::Spawning,
            Phase::Relaying => PhaseView::Relaying,
            Phase::Leaving(text) => PhaseView::Leaving(reason(text)),
            Phase::Closing(text) => PhaseView::Closing(reason(text)),
            Phase::Failing => PhaseView::Failing,
            Phase::Finished => PhaseView::Finished,
        }
    }
}

/// A session: the address that it is with, and what it is waiting to hear.
#[verifier::ext_equal]
pub struct ClientState {
    pub url: Seq<char>,
    pub phase: PhaseView,
}

impl ClientState {
    /// Whether `input` is an answer to what the session is waiting for.
    pub open spec fn accepts(self, input: InputView) -> bool {
        match self.phase {
            PhaseView::Connecting => input is Connected,
            PhaseView::Announcing => input is Emitted,
            PhaseView::Selecting => {
                ||| input is Action
                ||| input is IncomingBi
                ||| input is IncomingUni
                ||| input is IncomingDatagram
                ||| input is Exhausted
            },
            PhaseView::SendingDatagram => input is DatagramSent,
            PhaseView::OpeningBi(_) => input is Opened,
            PhaseView::OpeningUni(_) => input is Opened,
            PhaseView::Spawning => input is Spawned,
            PhaseView::Relaying => input is Emitted,
            PhaseView::Leaving(_) => input is Emitted,
            PhaseView::Closing(_) => input is Closed,
            PhaseView::Failing => input is Emitted,
            PhaseView::Finished => false,
        }
    }

    /// The same session, waiting to hear something else.
    pub open spec fn at(self, phase: PhaseView) -> ClientState {
        ClientState { url: self.url, phase }
    }

    /// The session waits for whatever comes first.
    pub open spec fn select(self) -> (ClientState, CommandView) {
        (self.at(PhaseView::Selecting), CommandView::Select)
    }

    /// The session ends: first everybody is told, then the connection is closed.
    pub open spec fn leave(self, why: Option<Seq<char>>) -> (ClientState, CommandView) {
        (self.at(PhaseView::Leaving(why)), CommandView::Emit(EventView::Disconnected))
    }

    /// The session has failed, and says so.
    pub open spec fn fail(self, why: Seq<char>) -> (ClientState, CommandView) {
        (self.at(PhaseView::Failing), CommandView::Emit(EventView::Error(why)))
    }

    /// The session is over.
    pub open spec fn finish(self) -> (ClientState, CommandView) {
        (self.at(PhaseView::Finished), CommandView::Finish)
    }

    /// Starts `task`.
    pub open spec fn spawn(self, task: TaskView) -> (ClientState, CommandView) {
        (self.at(PhaseView::Spawning), CommandView::Spawn(task))
    }

    /// What somebody's wish leads to.
    pub open spec fn obey(self, action: ActionView) -> (ClientState, CommandView) {
        match action {
            ActionView::Datagram(data) => (
                self.at(PhaseView::SendingDatagram),
                CommandView::SendDatagram(data),
            ),
            ActionView::BiStream(data) => (
                self.at(PhaseView::OpeningBi(data)),
                CommandView::OpenBi,
            ),
            ActionView::UniStream(data) => (
                self.at(PhaseView::OpeningUni(data)),
                CommandView::OpenUni,
            ),
            ActionView::Disconnect => self.leave(None),
        }
    }

    /// What `input` leads to: the next state, and what is to be done next.
    pub open spec fn next(self, input: InputView) -> (ClientState, CommandView)
        recommends
            self.accepts(input),
    {
        match (self.phase, input) {
            (PhaseView::Connecting, InputView::Connected(Ok(()))) => (
                self.at(PhaseView::Announcing),
                CommandView::Emit(EventView::Connected(self.url)),
            ),
            (PhaseView::Connecting, InputView::Connected(Err(text))) => self.fail(text),
            (PhaseView::Announcing, InputView::Emitted(Ok(()))) => self.select(),
            (PhaseView::Announcing, InputView::Emitted(Err(text))) => (
                self.at(PhaseView::Closing(Some(text))),
                CommandView::Close,
            ),
            (PhaseView::Selecting, InputView::Action(action)) => self.obey(action),
            (PhaseView::Selecting, InputView::IncomingBi(Ok(()))) => self.spawn(
                TaskView::IncomingBi,
            ),
            (PhaseView::Selecting, InputView::IncomingBi(Err(text))) => self.leave(Some(text)),
            (PhaseView::Selecting, InputView::IncomingUni(Ok(()))) => self.spawn(
                TaskView::IncomingUni,
            ),
            (PhaseView::Selecting, InputView::IncomingUni(Err(text))) => self.leave(Some(text)),
            (PhaseView::Selecting, InputView::IncomingDatagram(Ok(data))) => (
                self.at(PhaseView::Relaying),
                CommandView::Emit(EventView::Datagram(data)),
            ),
            (PhaseView::Selecting, InputView::IncomingDatagram(Err(text))) => self.leave(
                Some(text),
            ),
            (PhaseView::Selecting, InputView::Exhausted) => self.leave(None),
            (PhaseView::SendingDatagram, InputView::DatagramSent(Ok(()))) => self.select(),
            (PhaseView::SendingDatagram, InputView::DatagramSent(Err(text))) => self.leave(
                Some(text),
            ),
            (PhaseView::OpeningBi(data), InputView::Opened(Ok(()))) => self.spawn(
                TaskView::OpenBi(data),
            ),
            (PhaseView::OpeningBi(_), InputView::Opened(Err(text))) => self.leave(Some(text)),
            (PhaseView::OpeningUni(data), InputView::Opened(Ok(()))) => self.spawn(
                TaskView::OpenUni(data),
            ),
            (PhaseView::OpeningUni(_), InputView::Opened(Err(text))) => self.leave(Some(text)),
            (PhaseView::Spawning, _) => self.select(),
            (PhaseView::Relaying, _) => self.select(),
            (PhaseView::Leaving(why), _) => (self.at(PhaseView::Closing(why)), CommandView::Close),
            (PhaseView::Closing(Some(text)), _) => self.fail(text),
            (PhaseView::Closing(None), _) => self.finish(),
            _ => self.finish(),
        }
    }
}

/// One session of a client.
#[derive(Debug)]
pub struct ClientInstance {
    url: String,
    phase: Phase,
}

impl View for ClientInstance {
    type V = ClientState;

    closed spec fn view(&self) -> ClientState {
        ClientState { url: self.url@, phase: self.phase@ }
    }
}

impl ClientInstance {
    /// Begins a session with `url`. Returns what is to be done first.
    pub fn connect(url: String) -> (begun: (ClientInstance, Command))
        ensures
            begun.0@ == (ClientState { url: url@, phase: PhaseView::Connecting }),
            begun.1@ == CommandView::Connect(url@),
    {
        let first = Command::Connect(url.clone());
        (ClientInstance { url, phase: Phase::Connecting }, first)
    }

    /// The address that the session is with.
    pub fn url(&self) -> (url: &str)
        ensures
            url@ == self@.url,
    {
        self.url.as_str()
    }

    fn select(&mut self) -> (command: Command)
        ensures
            (final(self)@, command@) == old(self)@.select(),
    {
        self.phase = Phase::Selecting;
        Command::Select
    }

    fn leave(&mut self, why: Option<String>) -> (command: Command)
        ensures
            (final(self)@, command@) == old(self)@.leave(reason(why)),
    {
        self.phase = Phase::Leaving(why);
        Command::Emit(Event::Disconnected)
    }

    fn fail(&mut self, why: String) -> (command: Command)
        ensures
            (final(self)@, command@) == old(self)@.fail(why@),
    {
        self.phase = Phase::Failing;
        Command::Emit(Event::Error(why))
    }

    fn spawn(&mut self, task: Task) -> (command: Command)
        ensures
            (final(self)@, command@) == old(self)@.spawn(task@),
    {
        self.phase = Phase::Spawning;
        Command::Spawn(task)
    }

    fn obey(&mut self, action: Action) -> (command: Command)
        ensures
            (final(self)@, command@) == old(self)@.obey(action@),
    {
        match action {
            Action::Datagram(data) => {
                self.phase = Phase::SendingDatagram;
                Command::SendDatagram(data)
            },
            Action::BiStream(data) => {
                self.phase = Phase::OpeningBi(data);
                Command::OpenBi
            },
            Action::UniStream(data) => {
                self.phase = Phase::OpeningUni(data);
                Command::OpenUni
            },
            Action::Disconnect => self.leave(None),
        }
    }

    /// Decides what `input` leads to. Returns what is to be done next.
    pub fn step(&mut self, input: Input) -> (command: Command)
        requires
            old(self)@.accepts(input@),
        ensures
            (final(self)@, command@) == old(self)@.next(input@),
            match input {
                Input::Connected(Ok(_)) => command@ == CommandView::Emit(
                    EventView::Connected(old(self)@.url),
                ),
                Input::Connected(Err(text)) => command matches Command::Emit(Event::Error(told))
                    && told@ == text@,
                Input::Action(Action::Datagram(data)) => command matches Command::SendDatagram(sent)
                    && bytes_contents(sent) == bytes_contents(data),
                Input::Action(Action::BiStream(_)) => command is OpenBi,
                Input::Action(Action::UniStream(_)) => command is OpenUni,
                Input::IncomingBi(Ok(_)) => command == Command::Spawn(Task::IncomingBi),
                Input::IncomingUni(Ok(_)) => command == Command::Spawn(Task::IncomingUni),
                Input::IncomingDatagram(Ok(data)) => command == Command::Emit(
                    Event::Datagram(data),
                ),
                Input::DatagramSent(Ok(_)) => command is Select,
                Input::Opened(Ok(_)) => command is Spawn,
                Input::Spawned => command is Select,
                Input::Emitted(_) => command is Select || command is Close || command is Finish,
                Input::Closed => command is Finish || (command matches Command::Emit(event)
                    && event is Error),
                _ => command == Command::Emit(Event::Disconnected),
            },
    {
        let mut phase = Phase::Finished;
        std::mem::swap(&mut phase, &mut self.phase);
        match (phase, input) {
            (Phase::Connecting, Input::Connected(Ok(()))) => {
                self.phase = Phase::Announcing;
                Command::Emit(Event::Connected(self.url.clone()))
            },
            (Phase::Connecting, Input::Connected(Err(text))) => self.fail(text),
            (Phase::Announcing, Input::Emitted(Ok(()))) => self.select(),
            (Phase::Announcing, Input::Emitted(Err(text))) => {
                self.phase = Phase::Closing(Some(text));
                Command::Close
            },
            (Phase::Selecting, Input::Action(action)) => self.obey(action),
            (Phase::Selecting, Input::IncomingBi(Ok(()))) => self.spawn(Task::IncomingBi),
            (Phase::Selecting, Input::IncomingBi(Err(text))) => self.leave(Some(text)),
            (Phase::Selecting, Input::IncomingUni(Ok(()))) => self.spawn(Task::IncomingUni),
            (Phase::Selecting, Input::IncomingUni(Err(text))) => self.leave(Some(text)),
            (Phase::Selecting, Input::IncomingDatagram(Ok(data))) => {
                self.phase = Phase::Relaying;
                Command::Emit(Event::Datagram(data))
            },
            (Phase::Selecting, Input::IncomingDatagram(Err(text))) => self.leave(Some(text)),
            (Phase::Selecting, Input::Exhausted) => self.leave(None),
            (Phase::SendingDatagram, Input::DatagramSent(Ok(()))) => self.select(),
            (Phase::SendingDatagram, Input::DatagramSent(Err(text))) => self.leave(Some(text)),
            (Phase::OpeningBi(data), Input::Opened(Ok(()))) => self.spawn(Task::OpenBi(data)),
            (Phase::OpeningBi(_), Input::Opened(Err(text))) => self.leave(Some(text)),
            (Phase::OpeningUni(data), Input::Opened(Ok(()))) => self.spawn(Task::OpenUni(data)),
            (Phase::OpeningUni(_), Input::Opened(Err(text))) => self.leave(Some(text)),
            (Phase::Spawning, _) => self.select(),
            (Phase::Relaying, _) => self.select(),
            (Phase::Leaving(why), _) => {
                self.phase = Phase::Closing(why);
                Command::Close
            },
            (Phase::Closing(Some(text)), _) => self.fail(text),
            _ => {
                self.phase = Phase::Finished;
                Command::Finish
            },
        }
    }
}

/// The state in which `inputs` leave a session with `url`.
pub open spec fn client_state_after(url: Seq<char>, inputs: Seq<InputView>) -> ClientState
    decreases inputs.len(),
{
    if inputs.len() == 0 {
        ClientState { url, phase: PhaseView::Connecting }
    } else {
        client_state_after(url, inputs.drop_last()).next(inputs.last()).0
    }
}

/// A history that a session with `url` can go through.
pub open spec fn client_history(url: Seq<char>, inputs: Seq<InputView>) -> bool
    decreases inputs.len(),
{
    inputs.len() == 0 || {
        &&& client_history(url, inputs.drop_last())
        &&& client_state_after(url, inputs.drop_last()).accepts(inputs.last())
    }
}

/// The commands that a session with `url` gives in answer to `inputs`.
pub open spec fn client_commands(url: Seq<char>, inputs: Seq<InputView>) -> Seq<CommandView>
    decreases inputs.len(),
{
    if inputs.len() == 0 {
        seq![CommandView::Connect(url)]
    } else {
        client_commands(url, inputs.drop_last()).push(
            client_state_after(url, inputs.drop_last()).next(inputs.last()).1,
        )
    }
}

/// The events that `commands` put into the queue.
pub open spec fn events_emitted(commands: Seq<CommandView>) -> Seq<EventView>
    decreases commands.len(),
{
    if commands.len() == 0 {
        seq![]
    } else {
        match commands.last() {
            CommandView::Emit(event) => events_emitted(commands.drop_last()).push(event),
            _ => events_emitted(commands.drop_last()),
        }
    }
}

/// How many times `commands` close the connection.
pub open spec fn closes(commands: Seq<CommandView>) -> nat
    decreases commands.len(),
{
    if commands.len() == 0 {
        0
    } else {
        closes(commands.drop_last()) + if commands.last() is Close {
            1nat
        } else {
            0nat
        }
    }
}

/// The datagrams that came in, as events.
pub open spec fn datagrams_in(inputs: Seq<InputView>) -> Seq<EventView>
    decreases inputs.len(),
{
    if inputs.len() == 0 {
        seq![]
    } else {
        match inputs.last() {
            InputView::IncomingDatagram(Ok(data)) => datagrams_in(inputs.drop_last()).push(
                EventView::Datagram(data),
            ),
            _ => datagrams_in(inputs.drop_last()),
        }
    }
}

/// The events of a session with `url` that is going on: it was opened, and these
/// datagrams came in.
pub open spec fn running_events(url: Seq<char>, datagrams: Seq<EventView>) -> Seq<EventView> {
    seq![EventView::Connected(url)] + datagrams
}

/// The events of a session with `url` that ran, these datagrams having come in, and ended.
pub open spec fn ended_events(url: Seq<char>, datagrams: Seq<EventView>) -> Seq<EventView> {
    running_events(url, datagrams).push(EventView::Disconnected)
}

/// `events` are `before` and then one failure.
pub open spec fn then_error(before: Seq<EventView>, events: Seq<EventView>) -> bool {
    events.len() > 0 && events.last() is Error && events.drop_last() == before
}

/// What can have been told when a session with `url` is over, these datagrams having come
/// in, and how often its connection was closed.
pub open spec fn finished_session(
    url: Seq<char>,
    datagrams: Seq<EventView>,
    events: Seq<EventView>,
    closes: nat,
) -> bool {
    // it ran and ended, with a failure or without
    ||| closes == 1 && (events == ended_events(url, datagrams) || then_error(
        ended_events(url, datagrams),
        events,
    ))
    // nobody was left to hear that it was opened
    ||| closes == 1 && datagrams.len() == 0 && then_error(
        seq![EventView::Connected(url)],
        events,
    )
    // it could not be opened
    ||| closes == 0 && datagrams.len() == 0 && then_error(seq![], events)
}

/// What has been told by a session that waits in `phase`.
spec fn told(
    url: Seq<char>,
    phase: PhaseView,
    datagrams: Seq<EventView>,
    events: Seq<EventView>,
    closes: nat,
) -> bool {
    match phase {
        PhaseView::Connecting => closes == 0 && datagrams.len() == 0 && events.len() == 0,
        PhaseView::Announcing => closes == 0 && datagrams.len() == 0 && events
            == seq![EventView::Connected(url)],
        PhaseView::Leaving(_) => closes == 0 && events == ended_events(url, datagrams),
        PhaseView::Closing(why) => closes == 1 && {
            ||| events == ended_events(url, datagrams)
            ||| why is Some && datagrams.len() == 0 && events == seq![EventView::Connected(url)]
        },
        PhaseView::Failing => finished_session(url, datagrams, events, closes),
        PhaseView::Finished => finished_session(url, datagrams, events, closes),
        _ => closes == 0 && events == running_events(url, datagrams),
    }
}

proof fn told_by_phase(url: Seq<char>, inputs: Seq<InputView>)
    requires
        client_history(url, inputs),
    ensures
        told(
            url,
            client_state_after(url, inputs).phase,
            datagrams_in(inputs),
            events_emitted(client_commands(url, inputs)),
            closes(client_commands(url, inputs)),
        ),
        client_state_after(url, inputs).url == url,
    decreases inputs.len(),
{
    reveal_with_fuel(events_emitted, 2);
    reveal_with_fuel(closes, 2);
    if inputs.len() > 0 {
        let before = inputs.drop_last();
        told_by_phase(url, before);
        let commands = client_commands(url, inputs);
        assert(commands.drop_last() == client_commands(url, before));
        let events = events_emitted(client_commands(url, before));
        if commands.last() is Emit {
            assert(events_emitted(commands).drop_last() == events);
        }
        assert(running_events(url, datagrams_in(before)) == seq![EventView::Connected(url)]
            + datagrams_in(before));
    }
}

/// A session tells what happens to it in order: first, if it comes to that, that it was
/// opened, then every datagram that came in, then that it is over, last a failure. That it
/// is over is told if and only if it ran, and exactly once; and a connection that was
/// opened is closed, exactly once.
pub proof fn session_tells_its_course(url: Seq<char>, inputs: Seq<InputView>)
    requires
        client_history(url, inputs),
        client_state_after(url, inputs).phase is Finished,
    ensures
        finished_session(
            url,
            datagrams_in(inputs),
            events_emitted(client_commands(url, inputs)),
            closes(client_commands(url, inputs)),
        ),
{
    told_by_phase(url, inputs);
}

/// The connection was opened.
pub open spec fn opened(inputs: Seq<InputView>) -> bool {
    inputs.len() > 0 && inputs[0] matches InputView::Connected(Ok(_))
}

/// The session was opened, and nobody was there any more to hear of it.
pub open spec fn nobody_listened(inputs: Seq<InputView>) -> bool {
    opened(inputs) && inputs.len() > 1 && inputs[1] matches InputView::Emitted(Err(_))
}

/// What has been told of its end by a session that waits in `phase`.
spec fn end_told(
    url: Seq<char>,
    phase: PhaseView,
    inputs: Seq<InputView>,
    events: Seq<EventView>,
    closes: nat,
) -> bool {
    let ended = ended_events(url, datagrams_in(inputs));
    match phase {
        PhaseView::Connecting => inputs.len() == 0,
        PhaseView::Announcing => inputs.len() == 1 && opened(inputs),
        PhaseView::Closing(_) => inputs.len() > 1 && if nobody_listened(inputs) {
            events == seq![EventView::Connected(url)]
        } else {
            opened(inputs) && events == ended
        },
        PhaseView::Failing => inputs.len() > 0 && end_known(url, inputs, events, closes),
        PhaseView::Finished => inputs.len() > 0 && end_known(url, inputs, events, closes),
        _ => inputs.len() > 1 && opened(inputs) && !nobody_listened(inputs),
    }
}

/// What was told when a session with `url` is over: that it failed to open; that it was
/// opened, to nobody; or that it ran and ended, with a failure or without.
pub open spec fn end_known(
    url: Seq<char>,
    inputs: Seq<InputView>,
    events: Seq<EventView>,
    closes: nat,
) -> bool {
    let ended = ended_events(url, datagrams_in(inputs));
    if !opened(inputs) {
        closes == 0 && then_error(seq![], events)
    } else if nobody_listened(inputs) {
        closes == 1 && then_error(seq![EventView::Connected(url)], events)
    } else {
        closes == 1 && (events == ended || then_error(ended, events))
    }
}

proof fn end_told_by_phase(url: Seq<char>, inputs: Seq<InputView>)
    requires
        client_history(url, inputs),
    ensures
        end_told(
            url,
            client_state_after(url, inputs).phase,
            inputs,
            events_emitted(client_commands(url, inputs)),
            closes(client_commands(url, inputs)),
        ),
    decreases inputs.len(),
{
    reveal_with_fuel(events_emitted, 2);
    reveal_with_fuel(closes, 2);
    told_by_phase(url, inputs);
    if inputs.len() > 0 {
        let before = inputs.drop_last();
        end_told_by_phase(url, before);
        told_by_phase(url, before);
        let commands = client_commands(url, inputs);
        assert(commands.drop_last() == client_commands(url, before));
        if commands.last() is Emit {
            assert(events_emitted(commands).drop_last() == events_emitted(
                client_commands(url, before),
            ));
        }
        if inputs.len() > 1 {
            assert(inputs[0] == before[0]);
        }
        if inputs.len() > 2 {
            assert(inputs[1] == before[1]);
        }
    }
}

/// A session that was opened, and of which anybody heard, tells exactly once that it is
/// over before it is; only one of which nobody heard fails without telling so.
pub proof fn session_tells_its_end(url: Seq<char>, inputs: Seq<InputView>)
    requires
        client_history(url, inputs),
        client_state_after(url, inputs).phase is Finished,
    ensures
        inputs.len() > 0,
        end_known(
            url,
            inputs,
            events_emitted(client_commands(url, inputs)),
            closes(client_commands(url, inputs)),
        ),
{
    end_told_by_phase(url, inputs);
}

/// When every event is heard, a session that was opened tells that it is over.
pub proof fn heard_session_tells_its_end(url: Seq<char>, inputs: Seq<InputView>)
    requires
        client_history(url, inputs),
        client_state_after(url, inputs).phase is Finished,
        forall|i: int|
            0 <= i < inputs.len() ==> !(#[trigger] inputs[i] matches InputView::Emitted(Err(_))),
    ensures
        ({
            let events = events_emitted(client_commands(url, inputs));
            let ended = ended_events(url, datagrams_in(inputs));
            ||| events == ended
            ||| then_error(ended, events)
            ||| !opened(inputs) && then_error(seq![], events)
        }),
{
    session_tells_its_end(url, inputs);
}

/// While a session waits for whatever comes first, it has told that it was opened and
/// every datagram that came in, in order, nothing else, and its connection is open.
pub proof fn running_session_relays_datagrams(url: Seq<char>, inputs: Seq<InputView>)
    requires
        client_history(url, inputs),
        client_state_after(url, inputs).phase is Selecting,
    ensures
        events_emitted(client_commands(url, inputs)) == running_events(url, datagrams_in(inputs)),
        closes(client_commands(url, inputs)) == 0,
{
    told_by_phase(url, inputs);
}

/// What a running session is asked to send, it sends, whatever the bytes: as a datagram, or
/// as the task of a stream that it opens for them.
pub proof fn wishes_are_granted(state: ClientState, data: Seq<u8>)
    requires
        state.phase is Selecting,
    ensures
        state.next(InputView::Action(ActionView::Datagram(data))).1 == CommandView::SendDatagram(
            data,
        ),
        state.next(InputView::Action(ActionView::BiStream(data))).1 is OpenBi,
        state.next(InputView::Action(ActionView::BiStream(data))).0.next(
            InputView::Opened(Ok(())),
        ).1 == CommandView::Spawn(TaskView::OpenBi(data)),
        state.next(InputView::Action(ActionView::UniStream(data))).1 is OpenUni,
        state.next(InputView::Action(ActionView::UniStream(data))).0.next(
            InputView::Opened(Ok(())),
        ).1 == CommandView::Spawn(TaskView::OpenUni(data)),
{
}

/// A running session that is asked to disconnect says that it is over, closes its
/// connection and is over, without a failure, whether anybody listens or not.
pub proof fn disconnecting_ends_the_session(state: ClientState, heard: Result<(), Seq<char>>)
    requires
        state.phase is Selecting,
    ensures
        ({
            let (leaving, first) = state.next(InputView::Action(ActionView::Disconnect));
            let (closing, second) = leaving.next(InputView::Emitted(heard));
            let (finished, third) = closing.next(InputView::Closed);
            &&& first == CommandView::Emit(EventView::Disconnected)
            &&& second is Close
            &&& third is Finish
            &&& finished.phase is Finished
        }),
{
}

/// A running session begins work on every stream that the peer opens, of the kind of the
/// stream, and then waits for whatever comes first again.
pub proof fn streams_of_the_peer_are_worked_on(state: ClientState)
    requires
        state.phase is Selecting,
    ensures
        ({
            let (started, command) = state.next(InputView::IncomingBi(Ok(())));
            &&& command == CommandView::Spawn(TaskView::IncomingBi)
            &&& started.next(InputView::Spawned) == (state, CommandView::Select)
        }),
        ({
            let (started, command) = state.next(InputView::IncomingUni(Ok(())));
            &&& command == CommandView::Spawn(TaskView::IncomingUni)
            &&& started.next(InputView::Spawned) == (state, CommandView::Select)
        }),
{
}

/// A running session that has sent a datagram, or passed one on, whether anybody listens or
/// not, is as it was.
pub proof fn datagrams_leave_the_session_running(
    state: ClientState,
    data: Seq<u8>,
    heard: Result<(), Seq<char>>,
)
    requires
        state.phase is Selecting,
    ensures
        ({
            let (sending, command) = state.next(InputView::Action(ActionView::Datagram(data)));
            &&& command == CommandView::SendDatagram(data)
            &&& sending.next(InputView::DatagramSent(Ok(()))) == (state, CommandView::Select)
        }),
        ({
            let (relaying, command) = state.next(InputView::IncomingDatagram(Ok(data)));
            &&& command == CommandView::Emit(EventView::Datagram(data))
            &&& relaying.next(InputView::Emitted(heard)) == (state, CommandView::Select)
        }),
{
}

/// The last command that a session with `url` gives in answer to `inputs`.
pub open spec fn client_command(url: Seq<char>, inputs: Seq<InputView>) -> CommandView {
    client_commands(url, inputs).last()
}

/// Whether `input` is an answer to `command`.
pub open spec fn answers_session(command: CommandView, input: InputView) -> bool {
    match command {
        CommandView::Connect(_) => input is Connected,
        CommandView::Emit(_) => input is Emitted,
        CommandView::Select => {
            ||| input is Action
            ||| input is IncomingBi
            ||| input is IncomingUni
            ||| input is IncomingDatagram
            ||| input is Exhausted
        },
        CommandView::SendDatagram(_) => input is DatagramSent,
        CommandView::OpenBi => input is Opened,
        CommandView::OpenUni => input is Opened,
        CommandView::Spawn(_) => input is Spawned,
        CommandView::Close => input is Closed,
        CommandView::Finish => false,
    }
}

/// The text of a failure of a running session, if `input` is one.
pub open spec fn session_failure(input: InputView) -> Option<Seq<char>> {
    match input {
        InputView::IncomingBi(Err(text)) => Some(text),
        InputView::IncomingUni(Err(text)) => Some(text),
        InputView::IncomingDatagram(Err(text)) => Some(text),
        InputView::DatagramSent(Err(text)) => Some(text),
        InputView::Opened(Err(text)) => Some(text),
        _ => None,
    }
}

/// Whether `input` ends a running session: somebody wants it to end, nothing more can come,
/// or something failed.
pub open spec fn ends_session(input: InputView) -> bool {
    ||| input == InputView::Action(ActionView::Disconnect)
    ||| input is Exhausted
    ||| session_failure(input) is Some
}

/// What a session that was told `inputs` waits for.
spec fn waits_by_inputs(inputs: Seq<InputView>, phase: PhaseView, command: CommandView) -> bool {
    let count = inputs.len();
    let last = inputs[count - 1];
    let second = inputs[count - 2];
    match phase {
        PhaseView::Connecting => count == 0 && command is Connect,
        PhaseView::Announcing => count == 1 && command is Emit && opened(inputs),
        PhaseView::Selecting => count > 1 && command is Select,
        PhaseView::SendingDatagram => count > 2 && command is SendDatagram,
        PhaseView::OpeningBi(data) => count > 2 && command is OpenBi && last == InputView::Action(
            ActionView::BiStream(data),
        ),
        PhaseView::OpeningUni(data) => count > 2 && command is OpenUni && last
            == InputView::Action(ActionView::UniStream(data)),
        PhaseView::Spawning => count > 2 && command is Spawn,
        PhaseView::Relaying => count > 2 && command is Emit && (
        last matches InputView::IncomingDatagram(Ok(_))),
        PhaseView::Leaving(why) => count > 2 && command is Emit && ends_session(last) && why
            == session_failure(last),
        PhaseView::Closing(why) => count > 1 && command is Close && last is Emitted && if count
            == 2 {
            last matches InputView::Emitted(Err(text)) && why == Some(text)
        } else {
            ends_session(second) && why == session_failure(second)
        },
        PhaseView::Failing => command is Emit && if count == 1 {
            last matches InputView::Connected(Err(_))
        } else {
            count > 2 && last is Closed
        },
        PhaseView::Finished => command is Finish,
    }
}

proof fn session_waits_by_inputs(url: Seq<char>, inputs: Seq<InputView>)
    requires
        client_history(url, inputs),
    ensures
        waits_by_inputs(
            inputs,
            client_state_after(url, inputs).phase,
            client_command(url, inputs),
        ),
        client_state_after(url, inputs).url == url,
        client_commands(url, inputs).len() == inputs.len() + 1,
    decreases inputs.len(),
{
    if inputs.len() > 0 {
        session_waits_by_inputs(url, inputs.drop_last());
    }
}

/// A session waits for an answer to what it asked for last, takes any such answer, and
/// nothing else; it is over when it says so.
pub proof fn session_waits_for_an_answer(
    url: Seq<char>,
    inputs: Seq<InputView>,
    input: InputView,
)
    requires
        client_history(url, inputs),
    ensures
        client_history(url, inputs.push(input)) <==> answers_session(
            client_command(url, inputs),
            input,
        ),
{
    session_waits_by_inputs(url, inputs);
    assert(inputs.push(input).drop_last() == inputs);
}

/// The tasks that `commands` start, first to last.
pub open spec fn tasks_spawned(commands: Seq<CommandView>) -> Seq<TaskView>
    decreases commands.len(),
{
    if commands.len() == 0 {
        seq![]
    } else {
        match commands.last() {
            CommandView::Spawn(task) => tasks_spawned(commands.drop_last()).push(task),
            _ => tasks_spawned(commands.drop_last()),
        }
    }
}

/// The work that there is on the streams that the peer opened, and on those that were opened
/// because of a wish, first to last.
pub open spec fn tasks_due(inputs: Seq<InputView>) -> Seq<TaskView>
    decreases inputs.len(),
{
    if inputs.len() == 0 {
        seq![]
    } else {
        let due = tasks_due(inputs.drop_last());
        match inputs.last() {
            InputView::IncomingBi(Ok(_)) => due.push(TaskView::IncomingBi),
            InputView::IncomingUni(Ok(_)) => due.push(TaskView::IncomingUni),
            InputView::Opened(Ok(_)) => match inputs[inputs.len() - 2] {
                InputView::Action(ActionView::BiStream(data)) => due.push(TaskView::OpenBi(data)),
                InputView::Action(ActionView::UniStream(data)) => due.push(TaskView::OpenUni(data)),
                _ => due,
            },
            _ => due,
        }
    }
}

/// A session begins work on each stream that is accepted or opened, of the kind of the stream
/// and with the bytes that were asked to be sent on it, in order, and on nothing else.
pub proof fn session_works_on_each_stream(url: Seq<char>, inputs: Seq<InputView>)
    requires
        client_history(url, inputs),
    ensures
        tasks_spawned(client_commands(url, inputs)) == tasks_due(inputs),
    decreases inputs.len(),
{
    reveal_with_fuel(tasks_spawned, 2);
    if inputs.len() > 0 {
        let before = inputs.drop_last();
        session_works_on_each_stream(url, before);
        session_waits_by_inputs(url, before);
        assert(client_commands(url, inputs).drop_last() == client_commands(url, before));
    }
}

/// The datagrams that `commands` send, first to last.
pub open spec fn datagrams_out(commands: Seq<CommandView>) -> Seq<Seq<u8>>
    decreases commands.len(),
{
    if commands.len() == 0 {
        seq![]
    } else {
        match commands.last() {
            CommandView::SendDatagram(data) => datagrams_out(commands.drop_last()).push(data),
            _ => datagrams_out(commands.drop_last()),
        }
    }
}

/// The datagrams that somebody asked to be sent, first to last.
pub open spec fn datagrams_wished(inputs: Seq<InputView>) -> Seq<Seq<u8>>
    decreases inputs.len(),
{
    if inputs.len() == 0 {
        seq![]
    } else {
        match inputs.last() {
            InputView::Action(ActionView::Datagram(data)) => datagrams_wished(
                inputs.drop_last(),
            ).push(data),
            _ => datagrams_wished(inputs.drop_last()),
        }
    }
}

/// A session sends the datagrams that it is asked to send, in order, and no others.
pub proof fn session_sends_each_datagram(url: Seq<char>, inputs: Seq<InputView>)
    requires
        client_history(url, inputs),
    ensures
        datagrams_out(client_commands(url, inputs)) == datagrams_wished(inputs),
    decreases inputs.len(),
{
    reveal_with_fuel(datagrams_out, 2);
    if inputs.len() > 0 {
        let before = inputs.drop_last();
        session_sends_each_datagram(url, before);
        session_waits_by_inputs(url, before);
        assert(client_commands(url, inputs).drop_last() == client_commands(url, before));
    }
}

/// A session opens a stream if and only if it was just asked to send on one, and of that kind.
pub proof fn session_opens_a_stream_for_each_wish(url: Seq<char>, inputs: Seq<InputView>)
    requires
        client_history(url, inputs),
        inputs.len() > 0,
    ensures
        client_command(url, inputs) is OpenBi <==> (inputs.last() matches InputView::Action(
            ActionView::BiStream(_),
        )),
        client_command(url, inputs) is OpenUni <==> (inputs.last() matches InputView::Action(
            ActionView::UniStream(_),
        )),
{
    session_waits_by_inputs(url, inputs.drop_last());
}

/// A session tells that it was opened, with its address, if and only if it just was, and a
/// datagram if and only if it just came in. What streams hold it leaves to their tasks.
pub proof fn session_tells_what_comes(
    url: Seq<char>,
    inputs: Seq<InputView>,
    address: Seq<char>,
    data: Seq<u8>,
)
    requires
        client_history(url, inputs),
        inputs.len() > 0,
    ensures
        client_command(url, inputs) == CommandView::Emit(EventView::Connected(address)) <==> (
        inputs.last() matches InputView::Connected(Ok(_))) && address == url,
        client_command(url, inputs) == CommandView::Emit(EventView::Datagram(data)) <==> inputs.last()
            == InputView::IncomingDatagram(Ok::<Seq<u8>, Seq<char>>(data)),
        client_command(url, inputs) matches CommandView::Emit(event) ==> !(event is UniStream)
            && !(event is BiStream),
        !(client_command(url, inputs) is Connect),
{
    session_waits_by_inputs(url, inputs.drop_last());
}

/// A session waits for whatever comes first as soon as it was told to somebody that it was
/// opened, and again as soon as it has dealt with what came, unless that ended it.
pub proof fn session_goes_on(url: Seq<char>, inputs: Seq<InputView>)
    requires
        client_history(url, inputs),
        inputs.len() > 0,
    ensures
        client_command(url, inputs) is Select <==> {
            ||| inputs.last() is Spawned
            ||| inputs.last() matches InputView::DatagramSent(Ok(_))
            ||| inputs.len() == 2 && opened(inputs) && (inputs.last() matches InputView::Emitted(
                Ok(_),
            ))
            ||| inputs.len() > 2 && inputs.last() is Emitted && (inputs[inputs.len()
                - 2] matches InputView::IncomingDatagram(Ok(_)))
        },
{
    let before = inputs.drop_last();
    session_waits_by_inputs(url, before);
    assert(before.len() > 0 ==> before[before.len() - 1] == inputs[inputs.len() - 2]);
}

/// A session tells that it is over if and only if something just ended it, and then, once that
/// was told, closes its connection. Otherwise it closes it only when nobody was left to hear
/// that it was opened.
pub proof fn session_ends_for_a_reason(url: Seq<char>, inputs: Seq<InputView>)
    requires
        client_history(url, inputs),
        inputs.len() > 0,
    ensures
        client_command(url, inputs) == CommandView::Emit(EventView::Disconnected) <==> ends_session(
            inputs.last(),
        ),
        client_command(url, inputs) is Close <==> {
            ||| inputs.len() == 2 && opened(inputs) && (inputs.last() matches InputView::Emitted(
                Err(_),
            ))
            ||| inputs.len() > 2 && inputs.last() is Emitted && ends_session(
                inputs[inputs.len() - 2],
            )
        },
{
    let before = inputs.drop_last();
    session_waits_by_inputs(url, before);
    assert(before.len() > 0 ==> before[before.len() - 1] == inputs[inputs.len() - 2]);
}

/// A session tells a failure if and only if there was one, with its text: as soon as the
/// connection could not be opened, or, of one that was opened, as soon as it was closed.
pub proof fn session_fails_as_it_was_told(
    url: Seq<char>,
    inputs: Seq<InputView>,
    text: Seq<char>,
)
    requires
        client_history(url, inputs),
        inputs.len() > 0,
    ensures
        client_command(url, inputs) == CommandView::Emit(EventView::Error(text)) <==> {
            ||| inputs.last() == InputView::Connected(Err(text))
            ||| inputs.last() is Closed && inputs.len() == 3 && inputs[1] == InputView::Emitted(
                Err(text),
            )
            ||| inputs.last() is Closed && inputs.len() > 3 && session_failure(
                inputs[inputs.len() - 3],
            ) == Some(text)
        },
{
    let before = inputs.drop_last();
    session_waits_by_inputs(url, before);
    assert(before.len() > 1 ==> before[before.len() - 2] == inputs[inputs.len() - 3]);
    assert(before.len() > 0 ==> before[before.len() - 1] == inputs[inputs.len() - 2]);
}

/// A session is over if and only if its failure was told or, without one, its connection was
/// closed.
pub proof fn session_is_over_at_the_end(url: Seq<char>, inputs: Seq<InputView>)
    requires
        client_history(url, inputs),
        inputs.len() > 0,
    ensures
        client_command(url, inputs) is Finish <==> {
            ||| inputs.last() is Closed && inputs.len() > 3 && session_failure(
                inputs[inputs.len() - 3],
            ) is None
            ||| inputs.last() is Emitted && inputs.len() > 2 && inputs[inputs.len() - 2] is Closed
            ||| inputs.last() is Emitted && inputs.len() == 2 && (
            inputs[0] matches InputView::Connected(Err(_)))
        },
{
    let before = inputs.drop_last();
    session_waits_by_inputs(url, before);
    assert(before.len() > 1 ==> before[before.len() - 2] == inputs[inputs.len() - 3]);
    assert(before.len() > 0 ==> before[before.len() - 1] == inputs[inputs.len() - 2]);
}

} // verus!
