use bytes::Bytes;
use webtransport_client::datagram::{Datagrams, ReadDatagramError};
use webtransport_client::poll::Poll;
use webtransport_client::reader::{ReadAction, ReadEvent, ReadResult};

fn datagram(data: &[u8]) -> ReadEvent<Vec<u8>> {
    ReadEvent::Polled(Poll::Ready(Ok(ReadResult { done: false, value: Some(data.to_vec()) })))
}

#[test]
fn giving_up_loses_no_datagram() {
    let mut datagrams = Datagrams::new();
    assert_eq!(datagrams.poll_next(ReadEvent::Wanted), ReadAction::StartRead);
    assert_eq!(
        datagrams.poll_next(ReadEvent::Polled(Poll::Pending)),
        ReadAction::Return(Poll::Pending)
    );
    // whoever asked has gone; somebody else asks
    assert_eq!(datagrams.poll_next(ReadEvent::Wanted), ReadAction::PollRead);
    assert_eq!(
        datagrams.poll_next(datagram(b"one")),
        ReadAction::Return(Poll::Ready(Some(Ok(Bytes::from_static(b"one")))))
    );
    assert_eq!(datagrams.poll_next(ReadEvent::Wanted), ReadAction::StartRead);
    assert_eq!(
        datagrams.poll_next(datagram(b"")),
        ReadAction::Return(Poll::Ready(Some(Ok(Bytes::new()))))
    );
}

#[test]
fn datagrams_end() {
    let mut datagrams = Datagrams::new();
    datagrams.poll_next(ReadEvent::Wanted);
    let end = ReadEvent::Polled(Poll::Ready(Ok(ReadResult { done: true, value: None })));
    assert_eq!(datagrams.poll_next(end), ReadAction::Return(Poll::Ready(None)));
}

#[test]
fn datagrams_read_on_after_a_failure() {
    let mut datagrams = Datagrams::new();
    datagrams.poll_next(ReadEvent::Wanted);
    assert_eq!(
        datagrams.poll_next(ReadEvent::Polled(Poll::Ready(Err("lost".to_string())))),
        ReadAction::Return(Poll::Ready(Some(Err(ReadDatagramError::ReadError(
            "lost".to_string()
        )))))
    );
    assert_eq!(datagrams.poll_next(ReadEvent::Wanted), ReadAction::StartRead);
}

#[test]
fn datagrams_stop_once_and_finish_the_read_in_flight() {
    let mut datagrams = Datagrams::new();
    datagrams.poll_next(ReadEvent::Wanted);
    assert!(datagrams.stop());
    assert!(!datagrams.stop());
    assert_eq!(datagrams.poll_next(ReadEvent::Wanted), ReadAction::PollRead);
    assert_eq!(
        datagrams.poll_next(datagram(b"late")),
        ReadAction::Return(Poll::Ready(Some(Ok(Bytes::from_static(b"late")))))
    );
}

#[test]
fn read_datagram_error_quotes_its_text() {
    let err = ReadDatagramError::ReadError("a\tb".to_string());
    assert_eq!(err.message(), "Failed to read from datagram stream: \"a\\tb\"");
}
