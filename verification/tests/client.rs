use bytes::Bytes;
use webtransport_client::client::{ClientInstance, Command, Input, Task};
use webtransport_client::event::{Action, Event};

fn bytes(data: &'static [u8]) -> Bytes {
    Bytes::from_static(data)
}

/// A session that waits for whatever comes first.
fn running() -> ClientInstance {
    let (mut client, first) = ClientInstance::connect("https://localhost:4433/".to_string());
    assert_eq!(first, Command::Connect("https://localhost:4433/".to_string()));
    assert_eq!(client.url(), "https://localhost:4433/");
    assert_eq!(
        client.step(Input::Connected(Ok(()))),
        Command::Emit(Event::Connected("https://localhost:4433/".to_string()))
    );
    assert_eq!(client.step(Input::Emitted(Ok(()))), Command::Select);
    client
}

/// The session says that it is over, closes, and fails for `why`, if anything.
fn ends(client: &mut ClientInstance, command: Command, why: Option<&str>) {
    assert_eq!(command, Command::Emit(Event::Disconnected));
    assert_eq!(client.step(Input::Emitted(Ok(()))), Command::Close);
    let mut next = client.step(Input::Closed);
    if let Some(text) = why {
        assert_eq!(next, Command::Emit(Event::Error(text.to_string())));
        next = client.step(Input::Emitted(Err("nobody listens".to_string())));
    }
    assert_eq!(next, Command::Finish);
}

#[test]
fn session_that_cannot_connect_only_fails() {
    let (mut client, _) = ClientInstance::connect("https://a/".to_string());
    assert_eq!(
        client.step(Input::Connected(Err("refused".to_string()))),
        Command::Emit(Event::Error("refused".to_string()))
    );
    assert_eq!(client.step(Input::Emitted(Ok(()))), Command::Finish);
}

#[test]
fn session_nobody_hears_of_closes_and_fails() {
    let (mut client, _) = ClientInstance::connect("https://a/".to_string());
    client.step(Input::Connected(Ok(())));
    assert_eq!(client.step(Input::Emitted(Err("deaf".to_string()))), Command::Close);
    assert_eq!(
        client.step(Input::Closed),
        Command::Emit(Event::Error("deaf".to_string()))
    );
    assert_eq!(client.step(Input::Emitted(Ok(()))), Command::Finish);
}

#[test]
fn session_ends_when_asked_to() {
    let mut client = running();
    let command = client.step(Input::Action(Action::Disconnect));
    ends(&mut client, command, None);
}

#[test]
fn session_ends_when_nothing_can_come() {
    let mut client = running();
    let command = client.step(Input::Exhausted);
    ends(&mut client, command, None);
}

#[test]
fn session_ends_with_each_failure() {
    let fail = || Err("broken".to_string());
    let waiting = [
        Input::IncomingBi(fail()),
        Input::IncomingUni(fail()),
        Input::IncomingDatagram(Err("broken".to_string())),
    ];
    for input in waiting {
        let mut client = running();
        let command = client.step(input);
        ends(&mut client, command, Some("broken"));
    }
    let asked = [
        (Action::Datagram(bytes(b"x")), Input::DatagramSent(fail())),
        (Action::BiStream(bytes(b"x")), Input::Opened(fail())),
        (Action::UniStream(bytes(b"x")), Input::Opened(fail())),
    ];
    for (action, input) in asked {
        let mut client = running();
        client.step(Input::Action(action));
        let command = client.step(input);
        ends(&mut client, command, Some("broken"));
    }
}

#[test]
fn session_passes_datagrams_on() {
    let mut client = running();
    for data in [&b"one"[..], &b"two"[..]] {
        assert_eq!(
            client.step(Input::IncomingDatagram(Ok(Bytes::copy_from_slice(data)))),
            Command::Emit(Event::Datagram(Bytes::copy_from_slice(data)))
        );
        // a datagram that nobody hears of is no failure
        assert_eq!(client.step(Input::Emitted(Err("full".to_string()))), Command::Select);
    }
    let command = client.step(Input::Action(Action::Disconnect));
    ends(&mut client, command, None);
}

#[test]
fn session_sends_what_it_is_asked_to() {
    let mut client = running();
    assert_eq!(
        client.step(Input::Action(Action::Datagram(bytes(b"d")))),
        Command::SendDatagram(bytes(b"d"))
    );
    assert_eq!(client.step(Input::DatagramSent(Ok(()))), Command::Select);
    assert_eq!(client.step(Input::Action(Action::BiStream(bytes(b"b")))), Command::OpenBi);
    assert_eq!(
        client.step(Input::Opened(Ok(()))),
        Command::Spawn(Task::OpenBi(bytes(b"b")))
    );
    assert_eq!(client.step(Input::Spawned), Command::Select);
    assert_eq!(client.step(Input::Action(Action::UniStream(bytes(b"u")))), Command::OpenUni);
    assert_eq!(
        client.step(Input::Opened(Ok(()))),
        Command::Spawn(Task::OpenUni(bytes(b"u")))
    );
    assert_eq!(client.step(Input::Spawned), Command::Select);
}

#[test]
fn session_takes_care_of_incoming_streams() {
    let mut client = running();
    assert_eq!(client.step(Input::IncomingBi(Ok(()))), Command::Spawn(Task::IncomingBi));
    assert_eq!(client.step(Input::Spawned), Command::Select);
    assert_eq!(client.step(Input::IncomingUni(Ok(()))), Command::Spawn(Task::IncomingUni));
    assert_eq!(client.step(Input::Spawned), Command::Select);
}

#[test]
fn events_in_words() {
    let data = Bytes::from_static(b"a\"b\n\x00\xff");
    assert_eq!(Event::Datagram(data.clone()).message(), "Datagram b\"a\\\"b\\n\\0\\xff\"");
    assert_eq!(Event::UniStream(data.clone()).message(), "UniStream b\"a\\\"b\\n\\0\\xff\"");
    assert_eq!(Event::BiStream(data).message(), "BiStream b\"a\\\"b\\n\\0\\xff\"");
    assert_eq!(Event::Error("why".to_string()).message(), "Error why");
    assert_eq!(
        Event::Connected("https://a/".to_string()).message(),
        "Connected to https://a/"
    );
    assert_eq!(Event::Disconnected.message(), "Disconnected");
}

#[test]
fn bytes_are_written_as_a_literal() {
    let text = |data: &'static [u8]| Event::Datagram(Bytes::from_static(data)).message();
    assert_eq!(text(b""), "Datagram b\"\"");
    assert_eq!(text(b" ~Az09"), "Datagram b\" ~Az09\"");
    assert_eq!(text(b"\r\n\t\\\"\0"), "Datagram b\"\\r\\n\\t\\\\\\\"\\0\"");
    assert_eq!(text(b"\x01\x1f\x7f\x80\xaf\xff"), "Datagram b\"\\x01\\x1f\\x7f\\x80\\xaf\\xff\"");
    for byte in 0..=255u8 {
        let expected = match byte {
            0 => "\\0".to_string(),
            b'\'' => "'".to_string(),
            _ => byte.escape_ascii().to_string(),
        };
        let message = Event::BiStream(Bytes::copy_from_slice(&[byte])).message();
        assert_eq!(message, format!("BiStream b\"{}\"", expected));
    }
}

#[test]
fn session_that_is_heard_tells_its_end_before_its_failure() {
    let mut client = running();
    let mut events = Vec::new();
    let mut command = client.step(Input::IncomingUni(Err("gone".to_string())));
    loop {
        command = match command {
            Command::Emit(event) => {
                events.push(event);
                client.step(Input::Emitted(Ok(())))
            }
            Command::Close => client.step(Input::Closed),
            Command::Finish => break,
            other => panic!("unexpected {:?}", other),
        };
    }
    assert_eq!(events, vec![Event::Disconnected, Event::Error("gone".to_string())]);
}
