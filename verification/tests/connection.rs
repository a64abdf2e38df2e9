use bytes::Bytes;
use webtransport_client::connection::{ConnectAction, ConnectEvent, Connection};
use webtransport_client::poll::Poll;
use webtransport_client::reader::{ReadAction, ReadEvent, ReadResult};
use webtransport_client::stream::{SendEvent, WriteAction};

fn opened() -> Connection {
    let (mut connecting, first) = Connection::connect("https://localhost:4433/");
    assert!(matches!(first, ConnectAction::Create(url) if url == "https://localhost:4433/"));
    let next = connecting.step(ConnectEvent::Created(Ok(())));
    assert!(matches!(next, ConnectAction::AwaitReady));
    match connecting.step(ConnectEvent::Ready(Ok(()))) {
        ConnectAction::Opened(connection) => connection,
        other => panic!("unexpected {:?}", other),
    }
}

#[test]
fn connection_opens_when_created_and_ready() {
    let mut connection = opened();
    assert_eq!(connection.read_datagram(ReadEvent::Wanted), ReadAction::StartRead);
    let read = ReadResult { done: false, value: Some(vec![1, 2]) };
    assert_eq!(
        connection.read_datagram(ReadEvent::Polled(Poll::Ready(Ok(read)))),
        ReadAction::Return(Poll::Ready(Some(Ok(Bytes::from_static(&[1, 2])))))
    );
}

#[test]
fn connection_tells_the_first_failure() {
    let (mut connecting, _) = Connection::connect("https://a/");
    let next = connecting.step(ConnectEvent::Created(Err("bad scheme".to_string())));
    assert!(matches!(next, ConnectAction::Failed(text) if text == "bad scheme"));

    let (mut connecting, _) = Connection::connect("https://a/");
    connecting.step(ConnectEvent::Created(Ok(())));
    let next = connecting.step(ConnectEvent::Ready(Err("refused".to_string())));
    assert!(matches!(next, ConnectAction::Failed(text) if text == "refused"));
}

#[test]
fn streams_are_opened_or_not() {
    let connection = opened();
    let (handle, mut send) = connection.open_uni(Ok(7u32)).unwrap();
    assert_eq!(handle, 7);
    assert_eq!(
        send.poll_write(SendEvent::Wanted, b"hi"),
        WriteAction::StartWrite { chunk: b"hi".to_vec(), accepted: 2 }
    );
    let (handle, _, mut recv) = connection.open_bi(Ok(8u32)).unwrap();
    assert_eq!(handle, 8);
    assert_eq!(recv.poll_read_chunk(ReadEvent::Wanted), ReadAction::StartRead);
    assert_eq!(connection.open_uni::<u32>(Err("full".to_string())).unwrap_err(), "full");
    assert_eq!(connection.open_bi::<u32>(Err("full".to_string())).unwrap_err(), "full");
}

#[test]
fn streams_are_accepted_until_no_more_come() {
    let connection = opened();
    let one = ReadResult { done: false, value: Some('b') };
    let (handle, _, _) = connection.accept_bi(Ok(one)).unwrap().unwrap();
    assert_eq!(handle, 'b');
    let one = ReadResult { done: false, value: Some('u') };
    let (handle, _) = connection.accept_uni(Ok(one)).unwrap().unwrap();
    assert_eq!(handle, 'u');

    let none: ReadResult<char> = ReadResult { done: true, value: None };
    assert!(connection.accept_bi(Ok(none)).is_none());
    let none: ReadResult<char> = ReadResult { done: true, value: None };
    assert!(connection.accept_uni(Ok(none)).is_none());

    let failed = || Err::<ReadResult<char>, String>("closed".to_string());
    assert_eq!(connection.accept_bi(failed()).unwrap().unwrap_err(), "closed");
    assert_eq!(connection.accept_uni(failed()).unwrap().unwrap_err(), "closed");
}

#[test]
fn connection_releases_its_datagrams_once() {
    let mut connection = opened();
    assert!(connection.close());
    assert!(!connection.close());
}

#[test]
fn lost_datagrams_are_no_failure() {
    let connection = opened();
    assert_eq!(connection.send_datagram(b"ping"), b"ping".to_vec());
    assert_eq!(connection.datagram_sent(Ok(())), Ok(()));
    assert_eq!(connection.datagram_sent(Err("dropped".to_string())), Ok(()));
}
