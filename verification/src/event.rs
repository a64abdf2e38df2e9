//! What happens to a client and what it is asked to do.
use crate::buffer::{bytes_contents, bytes_literal, write_bytes_debug};
use crate::text::write_labelled;
use bytes::Bytes;
use vstd::prelude::*;

verus! {

/// Something that happened to a client.
#[derive(Debug, PartialEq)]
pub enum Event {
    /// A datagram came in.
    Datagram(Bytes),
    /// A stream in one direction was read to its end.
    UniStream(Bytes),
    /// A stream in both directions was read to its end.
    BiStream(Bytes),
    /// The session failed; the text says why.
    Error(String),
    /// The session to this address was opened.
    Connected(String),
    /// The session is over.
    Disconnected,
}

/// An event with the bytes and texts themselves in place of their storage.
#[verifier::ext_equal]
pub enum EventView {
    Datagram(Seq<u8>),
    UniStream(Seq<u8>),
    BiStream(Seq<u8>),
    Error(Seq<char>),
    Connected(Seq<char>),
    Disconnected,
}

impl View for Event {
    type V = EventView;

    open spec fn view(&self) -> EventView {
        match *self {
            Event::Datagram(data) => EventView::Datagram(bytes_contents(data)),
            Event::UniStream(data) => EventView::UniStream(bytes_contents(data)),
            Event::BiStream(data) => EventView::BiStream(bytes_contents(data)),
            Event::Error(text) => EventView::Error(text@),
            Event::Connected(url) => EventView::Connected(url@),
            Event::Disconnected => EventView::Disconnected,
        }
    }
}

impl EventView {
    /// The event in words.
    pub open spec fn words(self) -> Seq<char> {
        match self {
            EventView::Datagram(data) => "Datagram "@ + bytes_literal(data),
            EventView::UniStream(data) => "UniStream "@ + bytes_literal(data),
            EventView::BiStream(data) => "BiStream "@ + bytes_literal(data),
            EventView::Error(text) => "Error "@ + text,
            EventView::Connected(url) => "Connected to "@ + url,
            EventView::Disconnected => "Disconnected"@,
        }
    }
}

impl Event {
    /// The event in words.
    pub fn message(&self) -> (message: String)
        ensures
            message@ == self@.words(),
    {
        match self {
            Event::Datagram(data) => {
                let literal = write_bytes_debug(data);
                write_labelled("Datagram ", literal.as_str())
            },
            Event::UniStream(data) => {
                let literal = write_bytes_debug(data);
                write_labelled("UniStream ", literal.as_str())
            },
            Event::BiStream(data) => {
                let literal = write_bytes_debug(data);
                write_labelled("BiStream ", literal.as_str())
            },
            Event::Error(text) => write_labelled("Error ", text.as_str()),
            Event::Connected(url) => write_labelled("Connected to ", url.as_str()),
            Event::Disconnected => String::from_str("Disconnected"),
        }
    }
}

/// Something that a client is asked to do.
#[derive(Debug, PartialEq)]
pub enum Action {
    /// Send these bytes as a datagram.
    Datagram(Bytes),
    /// Open a stream in one direction and send these bytes on it.
    UniStream(Bytes),
    /// Open a stream in both directions, send these bytes on it and read the answer.
    BiStream(Bytes),
    /// End the session.
    Disconnect,
}

/// An action with the bytes themselves in place of their storage.
#[verifier::ext_equal]
pub enum ActionView {
    Datagram(Seq<u8>),
    UniStream(Seq<u8>),
    BiStream(Seq<u8>),
    Disconnect,
}

impl View for Action {
    type V = ActionView;

    open spec fn view(&self) -> ActionView {
        match *self {
            Action::Datagram(data) => ActionView::Datagram(bytes_contents(data)),
            Action::UniStream(data) => ActionView::UniStream(bytes_contents(data)),
            Action::BiStream(data) => ActionView::BiStream(bytes_contents(data)),
            Action::Disconnect => ActionView::Disconnect,
        }
    }
}

/// An event in words begins with what happened and ends with what came with it: bytes in the
/// same form whatever they came with, and texts as they are.
pub proof fn words_begin_and_end_as_the_event(data: Seq<u8>, text: Seq<char>)
    ensures
        ({
            let words = EventView::Datagram(data).words();
            words.take(9) == "Datagram "@ && words.skip(9) == bytes_literal(data)
        }),
        ({
            let words = EventView::UniStream(data).words();
            words.take(10) == "UniStream "@ && words.skip(10) == bytes_literal(data)
        }),
        ({
            let words = EventView::BiStream(data).words();
            words.take(9) == "BiStream "@ && words.skip(9) == bytes_literal(data)
        }),
        ({
            let words = EventView::Error(text).words();
            words.take(6) == "Error "@ && words.skip(6) == text
        }),
        ({
            let words = EventView::Connected(text).words();
            words.take(13) == "Connected to "@ && words.skip(13) == text
        }),
        EventView::Disconnected.words() == "Disconnected"@,
{
    reveal_strlit("Datagram ");
    reveal_strlit("UniStream ");
    reveal_strlit("BiStream ");
    reveal_strlit("Error ");
    reveal_strlit("Connected to ");
}

} // verus!
