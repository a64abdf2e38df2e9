use bytes::Bytes;
use webtransport_client::event::{Action, Event};
use webtransport_client::text::{write_labelled, write_numbered};
use webtransport_client::view::{
    push_message, App, Button, ConnectControl, LogAction, MessageBox, MessageLog,
};

#[test]
fn numbers_are_right_aligned() {
    assert_eq!(write_numbered(0, "a"), "    0 a");
    assert_eq!(write_numbered(42, "b c"), "   42 b c");
    assert_eq!(write_numbered(99999, ""), "99999 ");
    assert_eq!(write_numbered(1234567, "x"), "1234567 x");
    assert_eq!(write_numbered(u64::MAX, "x"), "18446744073709551615 x");
    for number in [0u64, 9, 10, 99, 100, 12345, 100000] {
        assert_eq!(write_numbered(number, "msg"), format!("{:>5} {}", number, "msg"));
    }
}

#[test]
fn labels_come_first() {
    assert_eq!(write_labelled("Error ", "why"), "Error why");
}

#[test]
fn pushed_messages_count_from_zero() {
    let mut messages = Vec::new();
    push_message(&mut messages, "first");
    push_message(&mut messages, "second");
    assert_eq!(messages, vec!["    0 first".to_string(), "    1 second".to_string()]);
}

#[test]
fn log_counts_from_one_and_keeps_the_latest() {
    let mut log = MessageLog::new();
    for i in 0..40u32 {
        let event = Event::Error(format!("e{}", i));
        assert_eq!(log.notice(&event), LogAction::Show);
        let shown = (i as usize + 1).min(32);
        assert_eq!(log.messages().len(), shown);
        assert_eq!(log.messages()[shown - 1], format!("{:>5} Error e{}", i + 1, i));
    }
    assert_eq!(log.messages()[0], "    9 Error e8");
    assert_eq!(log.next_number(), 41);
}

#[test]
fn log_ends_with_the_session() {
    let mut log = MessageLog::new();
    log.notice(&Event::Connected("https://a/".to_string()));
    log.notice(&Event::Datagram(Bytes::from_static(b"hi")));
    assert_eq!(log.notice(&Event::Disconnected), LogAction::Leave);
    assert_eq!(
        log.messages(),
        &vec!["    1 Connected to https://a/".to_string(), "    2 Datagram b\"hi\"".to_string()]
    );
}

#[test]
fn page_offers_to_connect_to_a_good_address() {
    let mut app = App::new();
    assert_eq!(app.connect_control(), ConnectControl::NoUrl);
    assert_eq!(app.connect(), None);

    app.enter_url("HTTPS://LocalHost:4433");
    let address = "https://localhost:4433/".to_string();
    assert_eq!(app.connect_control(), ConnectControl::Connect(address.clone()));
    assert_eq!(app.client(), None);
    assert_eq!(app.connect(), Some(address.clone()));
    assert_eq!(app.client(), Some(&address));

    app.close_client();
    assert_eq!(app.client(), None);
    assert_eq!(app.connect_control(), ConnectControl::Connect(address));
}

#[test]
fn page_says_what_is_wrong_with_an_address() {
    let mut app = App::new();
    app.enter_url("localhost");
    assert_eq!(
        app.connect_control(),
        ConnectControl::Invalid("relative URL without a base".to_string())
    );
    assert_eq!(app.connect(), None);
    app.enter_url("https://");
    assert_eq!(app.connect_control(), ConnectControl::Invalid("empty host".to_string()));
    app.set_url(Err("why".to_string()));
    assert_eq!(app.connect_control(), ConnectControl::Invalid("why".to_string()));
    app.set_url(Ok("https://b/".to_string()));
    assert_eq!(app.connect(), Some("https://b/".to_string()));
}

#[test]
fn buttons_ask_for_what_was_written() {
    let mut message_box = MessageBox::new();
    assert_eq!(message_box.press(Button::SendDatagram), Action::Datagram(Bytes::new()));
    message_box.write("h\u{e9}".to_string());
    let data = Bytes::from_static(b"h\xc3\xa9");
    assert_eq!(message_box.press(Button::SendDatagram), Action::Datagram(data.clone()));
    assert_eq!(message_box.press(Button::SendUni), Action::UniStream(data.clone()));
    assert_eq!(message_box.press(Button::SendBi), Action::BiStream(data));
    assert_eq!(message_box.press(Button::SendDisconnect), Action::Disconnect);
}
