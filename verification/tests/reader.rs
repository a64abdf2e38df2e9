use webtransport_client::poll::Poll;
use webtransport_client::reader::{
    NextAction, ReadAction, ReadError, ReadEvent, ReadResult, StreamReader,
};

fn item(value: u32) -> ReadEvent<u32> {
    ReadEvent::Polled(Poll::Ready(Ok(ReadResult { done: false, value: Some(value) })))
}

fn end() -> ReadEvent<u32> {
    ReadEvent::Polled(Poll::Ready(Ok(ReadResult { done: true, value: None })))
}

fn failure(text: &str) -> ReadEvent<u32> {
    ReadEvent::Polled(Poll::Ready(Err(text.to_string())))
}

#[test]
fn reader_starts_one_read_and_polls_it() {
    let mut reader = StreamReader::<u32>::new();
    assert_eq!(reader.poll_next(ReadEvent::Wanted), ReadAction::StartRead);
    assert_eq!(reader.poll_next(ReadEvent::Wanted), ReadAction::PollRead);
    assert_eq!(
        reader.poll_next(ReadEvent::Polled(Poll::Pending)),
        ReadAction::Return(Poll::Pending)
    );
    assert_eq!(reader.poll_next(ReadEvent::Wanted), ReadAction::PollRead);
}

#[test]
fn reader_hands_out_every_item_in_order() {
    let mut reader = StreamReader::new();
    let mut returned = Vec::new();
    let mut started = 0;
    for value in 1..=5u32 {
        for _ in 0..value {
            if reader.poll_next(ReadEvent::Wanted) == ReadAction::StartRead {
                started += 1;
            }
        }
        match reader.poll_next(item(value)) {
            ReadAction::Return(Poll::Ready(Some(Ok(item)))) => returned.push(item),
            other => panic!("unexpected {:?}", other),
        }
    }
    assert_eq!(returned, vec![1, 2, 3, 4, 5]);
    assert_eq!(started, 5);
}

#[test]
fn reader_reads_again_after_the_end() {
    let mut reader = StreamReader::new();
    reader.poll_next(ReadEvent::Wanted);
    assert_eq!(reader.poll_next(end()), ReadAction::Return(Poll::Ready(None)));
    assert_eq!(reader.poll_next(ReadEvent::Wanted), ReadAction::StartRead);
}

#[test]
fn end_wins_over_a_value() {
    let mut reader = StreamReader::new();
    reader.poll_next(ReadEvent::Wanted);
    let last = ReadEvent::Polled(Poll::Ready(Ok(ReadResult { done: true, value: Some(9u32) })));
    assert_eq!(reader.poll_next(last), ReadAction::Return(Poll::Ready(None)));
}

#[test]
fn failed_read_stays_in_flight() {
    let mut reader = StreamReader::new();
    reader.poll_next(ReadEvent::Wanted);
    let expected: NextAction<u32, ReadError> =
        ReadAction::Return(Poll::Ready(Some(Err(ReadError::ReadError("reset".to_string())))));
    assert_eq!(reader.poll_next(failure("reset")), expected);
    assert_eq!(reader.poll_next(ReadEvent::Wanted), ReadAction::PollRead);
    assert_eq!(
        reader.poll_next(ReadEvent::Polled(Poll::Pending)),
        ReadAction::Return(Poll::Pending)
    );
}

#[test]
fn read_error_quotes_its_text() {
    let err = ReadError::ReadError("say \"no\"\n".to_string());
    assert_eq!(err.message(), "Failed to read from stream: \"say \\\"no\\\"\\n\"");
}
