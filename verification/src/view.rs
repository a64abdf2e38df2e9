//! What a person sees of a client and can do with it.
use crate::buffer::{bytes_contents, bytes_from_vec};
use crate::event::{Action, ActionView, Event, EventView};
use crate::text::{numbered, write_numbered};
use std::str::FromStr;
use url::Url;
use vstd::prelude::*;

verus! {

/// What `url` makes of a text: the address in its normal form, or what is wrong with it.
pub uninterp spec fn url_parse(text: Seq<char>) -> Result<Seq<char>, Seq<char>>;

/// Calls `Url::from_str` and writes out the address, or the error, with `Display`. The
/// result is named, not stated: it is that of the URL standard.
#[verifier::external_body]
pub(crate) fn parse_url(text: &str) -> (parsed: Result<String, String>)
    ensures
        parsed_view(parsed) == url_parse(text@),
{
    match Url::from_str(text) {
        Ok(url) => Ok(url.to_string()),
        Err(err) => Err(err.to_string()),
    }
}

/// What was made of a text, with the texts themselves in place of their storage.
pub open spec fn parsed_view(parsed: Result<String, String>) -> Result<Seq<char>, Seq<char>> {
    match parsed {
        Ok(url) => Ok(url@),
        Err(text) => Err(text@),
    }
}

/// What is shown beside the field for the address.
#[derive(Debug, PartialEq)]
pub enum ConnectControl {
    /// A button that connects to this address.
    Connect(String),
    /// What is wrong with the address.
    Invalid(String),
    /// That no address was entered.
    NoUrl,
}

/// What is shown beside the field for the address.
#[verifier::ext_equal]
pub enum ConnectControlView {
    Connect(Seq<char>),
    Invalid(Seq<char>),
    NoUrl,
}

impl View for ConnectControl {
    type V = ConnectControlView;

    open spec fn view(&self) -> ConnectControlView {
        match *self {
            ConnectControl::Connect(url) => ConnectControlView::Connect(url@),
            ConnectControl::Invalid(text) => ConnectControlView::Invalid(text@),
            ConnectControl::NoUrl => ConnectControlView::NoUrl,
        }
    }
}

/// The page: the address that was entered, if any, and the one that the client shown is
/// connected to, if any.
#[derive(Debug)]
pub struct App {
    url: Option<Result<String, String>>,
    client: Option<String>,
}

/// The page with the texts themselves in place of their storage.
#[verifier::ext_equal]
pub struct AppState {
    pub url: Option<Result<Seq<char>, Seq<char>>>,
    pub client: Option<Seq<char>>,
}

impl View for App {
    type V = AppState;

    closed spec fn view(&self) -> AppState {
        AppState {
            url: match self.url {
                Some(parsed) => Some(parsed_view(parsed)),
                None => None,
            },
            client: match self.client {
                Some(url) => Some(url@),
                None => None,
            },
        }
    }
}

impl AppState {
    /// What is shown beside the field for the address.
    pub open spec fn control(self) -> ConnectControlView {
        match self.url {
            Some(Ok(url)) => ConnectControlView::Connect(url),
            Some(Err(text)) => ConnectControlView::Invalid(text),
            None => ConnectControlView::NoUrl,
        }
    }
}

impl App {
    /// The page before anything was entered.
    pub fn new() -> (app: Self)
        ensures
            app@ == (AppState { url: None, client: None }),
    {
        App { url: None, client: None }
    }

    /// Takes what was entered as the address.
    pub fn enter_url(&mut self, text: &str)
        ensures
            final(self)@ == (AppState { url: Some(url_parse(text@)), client: old(self)@.client }),
    {
        self.set_url(parse_url(text));
    }

    /// Takes what was made of an address that was entered.
    pub fn set_url(&mut self, parsed: Result<String, String>)
        ensures
            final(self)@ == (AppState {
                url: Some(parsed_view(parsed)),
                client: old(self)@.client,
            }),
    {
        self.url = Some(parsed);
    }

    /// What is shown beside the field for the address.
    pub fn connect_control(&self) -> (control: ConnectControl)
        ensures
            control@ == self@.control(),
    {
        match &self.url {
            Some(Ok(url)) => ConnectControl::Connect(url.clone()),
            Some(Err(text)) => ConnectControl::Invalid(text.clone()),
            None => ConnectControl::NoUrl,
        }
    }

    /// Presses the button that connects, if there is one. Returns the address to connect to.
    pub fn connect(&mut self) -> (address: Option<String>)
        ensures
            match old(self)@.control() {
                ConnectControlView::Connect(url) => {
                    &&& address matches Some(address)
                    &&& address@ == url
                    &&& final(self)@ == (AppState { url: old(self)@.url, client: Some(url) })
                },
                _ => address is None && final(self)@ == old(self)@,
            },
            address is Some <==> (old(self)@.url matches Some(Ok(_))),
            final(self)@.url == old(self)@.url,
    {
        match &self.url {
            Some(Ok(url)) => {
                let address = url.clone();
                self.client = Some(url.clone());
                Some(address)
            },
            _ => None,
        }
    }

    /// Takes the client away, its session being over.
    pub fn close_client(&mut self)
        ensures
            final(self)@ == (AppState { url: old(self)@.url, client: None }),
    {
        self.client = None;
    }

    /// The address that the client shown is connected to, if one is shown.
    pub fn client(&self) -> (client: Option<&String>)
        ensures
            match self@.client {
                Some(url) => client matches Some(text) && text@ == url,
                None => client is None,
            },
    {
        self.client.as_ref()
    }
}

/// The lines of a list of texts.
pub open spec fn lines(messages: Seq<String>) -> Seq<Seq<char>> {
    messages.map_values(|message: String| message@)
}

/// Adds a message to a list, with the number of messages before it.
pub fn push_message(messages: &mut Vec<String>, msg: &str)
    ensures
        lines(final(messages)@) == lines(old(messages)@).push(
            numbered(old(messages)@.len(), msg@),
        ),
        final(messages)@.drop_last() == old(messages)@,
{
    let num: usize = messages.len();
    messages.push(write_numbered(num as u64, msg));
}

/// The list that pushing `messages` one after the other makes.
pub open spec fn pushed(messages: Seq<Seq<char>>) -> Seq<Seq<char>>
    decreases messages.len(),
{
    if messages.len() == 0 {
        seq![]
    } else {
        let before = pushed(messages.drop_last());
        before.push(numbered(before.len(), messages.last()))
    }
}

/// Messages that are pushed are kept in order and numbered from zero.
pub proof fn pushed_messages_are_numbered_from_zero(messages: Seq<Seq<char>>)
    ensures
        pushed(messages) == Seq::new(messages.len(), |i: int| numbered(i as nat, messages[i])),
    decreases messages.len(),
{
    if messages.len() > 0 {
        pushed_messages_are_numbered_from_zero(messages.drop_last());
    }
}

/// How many lines a log shows.
pub const LOG_LINES: usize = 32;

/// A log of events: the lines that are shown, and the number of the next one.
#[verifier::ext_equal]
pub struct LogState {
    pub lines: Seq<Seq<char>>,
    pub next: nat,
}

impl LogState {
    /// The log before anything happened.
    pub open spec fn empty() -> LogState {
        LogState { lines: seq![], next: 1 }
    }

    /// The log never shows too many lines.
    pub open spec fn wf(self) -> bool {
        self.lines.len() <= LOG_LINES && self.next >= 1
    }

    /// The log once `event` was added. The oldest line makes room for a new one.
    pub open spec fn after(self, event: EventView) -> LogState {
        let kept = if self.lines.len() >= LOG_LINES {
            self.lines.skip(1)
        } else {
            self.lines
        };
        LogState { lines: kept.push(numbered(self.next, event.words())), next: self.next + 1 }
    }
}

/// What the reader of the events does next.
#[derive(Debug, Clone, Copy, PartialEq, Eq, Structural)]
pub enum LogAction {
    /// Show the log and wait for the next event.
    Show,
    /// Take the client away and stop: the session is over.
    Leave,
}

/// The log of the events of a session.
#[derive(Debug)]
pub struct MessageLog {
    messages: Vec<String>,
    message_num: u32,
}

impl View for MessageLog {
    type V = LogState;

    closed spec fn view(&self) -> LogState {
        LogState { lines: lines(self.messages@), next: self.message_num as nat }
    }
}

impl MessageLog {
    /// The log before anything happened.
    pub fn new() -> (log: Self)
        ensures
            log@ == LogState::empty(),
    {
        MessageLog { messages: Vec::new(), message_num: 1 }
    }

    /// Takes notice of `event`. The end of the session is not logged.
    pub fn notice(&mut self, event: &Event) -> (action: LogAction)
        requires
            !(event@ is Disconnected) ==> old(self)@.next < i32::MAX,
        ensures
            action is Leave <==> event@ is Disconnected,
            final(self)@ == if event@ is Disconnected {
                old(self)@
            } else {
                old(self)@.after(event@)
            },
    {
        match event {
            Event::Disconnected => LogAction::Leave,
            _ => {
                let message = event.message();
                let line = write_numbered(self.message_num as u64, message.as_str());
                if self.messages.len() >= LOG_LINES {
                    self.messages.remove(0);
                }
                self.messages.push(line);
                self.message_num = self.message_num + 1;
                LogAction::Show
            },
        }
    }

    /// The number of the next line.
    pub fn next_number(&self) -> (number: u32)
        ensures
            number == self@.next,
    {
        self.message_num
    }

    /// The lines that are shown, oldest first.
    pub fn messages(&self) -> (messages: &Vec<String>)
        ensures
            lines(messages@) == self@.lines,
    {
        &self.messages
    }
}

/// The log after `events`, and whether it still takes notice of more.
pub open spec fn log_after(events: Seq<EventView>) -> (LogState, bool)
    decreases events.len(),
{
    if events.len() == 0 {
        (LogState::empty(), true)
    } else {
        let (log, listening) = log_after(events.drop_last());
        if !listening || events.last() is Disconnected {
            (log, false)
        } else {
            (log.after(events.last()), true)
        }
    }
}

/// One line for each of `events`, numbered from one.
pub open spec fn all_lines(events: Seq<EventView>) -> Seq<Seq<char>> {
    Seq::new(events.len(), |i: int| numbered((i + 1) as nat, events[i].words()))
}

/// A log shows the latest events of a session that is not over, oldest first, each with
/// its number in the session, and never more than it has room for.
pub proof fn log_shows_the_latest(events: Seq<EventView>)
    requires
        forall|i: int| 0 <= i < events.len() ==> !(#[trigger] events[i] is Disconnected),
    ensures
        log_after(events).1,
        log_after(events).0.next == events.len() + 1,
        log_after(events).0.wf(),
        log_after(events).0.lines == if events.len() <= LOG_LINES {
            all_lines(events)
        } else {
            all_lines(events).skip(events.len() - LOG_LINES)
        },
    decreases events.len(),
{
    if events.len() > 0 {
        let before = events.drop_last();
        assert forall|i: int| 0 <= i < before.len() implies !(#[trigger] before[i] is
            Disconnected) by {
            assert(before[i] == events[i]);
        }
        log_shows_the_latest(before);
        assert(all_lines(events) == all_lines(before).push(
            numbered(events.len(), events.last().words()),
        ));
    }
}

/// Whatever is told after the end of a session is not shown.
pub proof fn nothing_is_shown_after_the_end(before: Seq<EventView>, after: Seq<EventView>)
    ensures
        log_after(before.push(EventView::Disconnected) + after) == (log_after(before).0, false),
    decreases after.len(),
{
    let ended = before.push(EventView::Disconnected);
    let events = ended + after;
    if after.len() == 0 {
        assert(events == ended);
        assert(ended.drop_last() == before);
    } else {
        nothing_is_shown_after_the_end(before, after.drop_last());
        assert(events.drop_last() == ended + after.drop_last());
    }
}

/// A button of the box in which messages are written.
#[derive(Debug, Clone, Copy, PartialEq, Eq, Structural)]
pub enum Button {
    SendDatagram,
    SendUni,
    SendBi,
    SendDisconnect,
}

/// What pressing `button` asks of the client when `text` was written.
pub open spec fn wish(button: Button, text: Seq<char>) -> ActionView {
    match button {
        Button::SendDatagram => ActionView::Datagram(vstd::utf8::encode_utf8(text)),
        Button::SendUni => ActionView::UniStream(vstd::utf8::encode_utf8(text)),
        Button::SendBi => ActionView::BiStream(vstd::utf8::encode_utf8(text)),
        Button::SendDisconnect => ActionView::Disconnect,
    }
}

/// The box in which messages are written.
#[derive(Debug)]
pub struct MessageBox {
    text: String,
}

impl View for MessageBox {
    type V = Seq<char>;

    closed spec fn view(&self) -> Seq<char> {
        self.text@
    }
}

impl MessageBox {
    /// The box before anything was written.
    pub fn new() -> (message_box: Self)
        ensures
            message_box@ == Seq::<char>::empty(),
    {
        MessageBox { text: String::new() }
    }

    /// Takes what was written in place of what was there.
    pub fn write(&mut self, text: String)
        ensures
            final(self)@ == text@,
    {
        self.text = text;
    }

    /// What pressing `button` asks of the client. The text stays.
    pub fn press(&self, button: Button) -> (action: Action)
        ensures
            action@ == wish(button, self@),
            match button {
                Button::SendDatagram => action matches Action::Datagram(data) && bytes_contents(
                    data,
                ) == vstd::utf8::encode_utf8(self@),
                Button::SendUni => action matches Action::UniStream(data) && bytes_contents(data)
                    == vstd::utf8::encode_utf8(self@),
                Button::SendBi => action matches Action::BiStream(data) && bytes_contents(data)
                    == vstd::utf8::encode_utf8(self@),
                Button::SendDisconnect => action is Disconnect,
            },
    {
        match button {
            Button::SendDatagram => Action::Datagram(
                bytes_from_vec(self.text.as_str().as_bytes_vec()),
            ),
            Button::SendUni => Action::UniStream(bytes_from_vec(self.text.as_str().as_bytes_vec())),
            Button::SendBi => Action::BiStream(bytes_from_vec(self.text.as_str().as_bytes_vec())),
            Button::SendDisconnect => Action::Disconnect,
        }
    }
}

/// The button alone decides what is done with the text, whatever the text: it is sent as a
/// datagram, on a stream in one direction, or on one in both, and always as its UTF-8 bytes.
/// Only the button that disconnects leaves it alone.
pub proof fn the_button_decides_how_a_text_is_sent(text: Seq<char>, data: Seq<u8>)
    ensures
        wish(Button::SendDatagram, text) == ActionView::Datagram(data) <==> data
            == vstd::utf8::encode_utf8(text),
        wish(Button::SendUni, text) == ActionView::UniStream(data) <==> data
            == vstd::utf8::encode_utf8(text),
        wish(Button::SendBi, text) == ActionView::BiStream(data) <==> data
            == vstd::utf8::encode_utf8(text),
        wish(Button::SendDatagram, text) is Datagram,
        wish(Button::SendUni, text) is UniStream,
        wish(Button::SendBi, text) is BiStream,
        wish(Button::SendDisconnect, text) is Disconnect,
{
}

/// One can connect if and only if the address that was entered last is one, and then to that
/// address. Of one that is none the page says why.
pub proof fn one_can_connect_to_what_was_entered(app: AppState, text: Seq<char>)
    ensures
        app.control() == ConnectControlView::Connect(text) <==> app.url == Some(
            Ok::<Seq<char>, Seq<char>>(text),
        ),
        app.control() == ConnectControlView::Invalid(text) <==> app.url == Some(
            Err::<Seq<char>, Seq<char>>(text),
        ),
        app.control() is NoUrl <==> app.url is None,
{
}

/// A log that takes notice of an event shows it as its last line, with the next number. The
/// lines before stay as they are and where they are, but that the oldest of thirty-two goes.
pub proof fn log_adds_one_line(log: LogState, event: EventView)
    requires
        log.wf(),
    ensures
        ({
            let after = log.after(event);
            let dropped = log.lines.len() + 1 - after.lines.len();
            &&& after.wf()
            &&& after.next == log.next + 1
            &&& after.lines.last() == numbered(log.next, event.words())
            &&& dropped == if log.lines.len() == 32 {
                1int
            } else {
                0int
            }
            &&& after.lines.drop_last() == log.lines.skip(dropped)
        }),
{
}

} // verus!
