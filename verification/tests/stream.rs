use bytes::{Buf, Bytes};
use webtransport_client::poll::Poll;
use webtransport_client::reader::{ReadAction, ReadError, ReadEvent, ReadResult};
use webtransport_client::stream::{
    ReadyAction, RecvError, RecvStream, SendError, SendEvent, SendStream, WriteAction,
};

fn chunk(data: &[u8]) -> ReadEvent<Vec<u8>> {
    ReadEvent::Polled(Poll::Ready(Ok(ReadResult { done: false, value: Some(data.to_vec()) })))
}

fn end() -> ReadEvent<Vec<u8>> {
    ReadEvent::Polled(Poll::Ready(Ok(ReadResult { done: true, value: None })))
}

#[test]
fn bytes_come_out_as_they_went_in() {
    let mut stream = RecvStream::new();
    let mut out = Vec::new();
    for data in [&b"abcde"[..], &b"f"[..], &b"ghijklm"[..]] {
        let mut room = [0u8; 3];
        assert_eq!(stream.poll_read(ReadEvent::Wanted, &mut room), ReadAction::StartRead);
        let mut left = data.len();
        let mut event = chunk(data);
        while left > 0 {
            match stream.poll_read(event, &mut room) {
                ReadAction::Return(Poll::Ready(Ok(count))) => {
                    assert_eq!(count, left.min(3));
                    out.extend_from_slice(&room[..count]);
                    left -= count;
                }
                other => panic!("unexpected {:?}", other),
            }
            event = ReadEvent::Wanted;
        }
    }
    assert_eq!(out, b"abcdefghijklm");
}

#[test]
fn room_behind_the_bytes_is_left_alone() {
    let mut stream = RecvStream::new();
    let mut room = [9u8; 5];
    stream.poll_read(ReadEvent::Wanted, &mut room);
    assert_eq!(
        stream.poll_read(chunk(b"ab"), &mut room),
        ReadAction::Return(Poll::Ready(Ok(2)))
    );
    assert_eq!(room, [b'a', b'b', 9, 9, 9]);
}

#[test]
fn buffered_bytes_are_not_touched_without_room() {
    let mut stream = RecvStream::new();
    stream.poll_read(ReadEvent::Wanted, &mut []);
    assert_eq!(stream.poll_read(chunk(b"xy"), &mut []), ReadAction::Return(Poll::Ready(Ok(0))));
    let mut room = [0u8; 2];
    assert_eq!(
        stream.poll_read(ReadEvent::Wanted, &mut room),
        ReadAction::Return(Poll::Ready(Ok(2)))
    );
    assert_eq!(&room, b"xy");
}

#[test]
fn end_of_stream_and_empty_chunk_read_as_no_bytes() {
    let mut stream = RecvStream::new();
    let mut room = [0u8; 2];
    stream.poll_read(ReadEvent::Wanted, &mut room);
    assert_eq!(stream.poll_read(chunk(b""), &mut room), ReadAction::Return(Poll::Ready(Ok(0))));
    assert_eq!(stream.poll_read(ReadEvent::Wanted, &mut room), ReadAction::StartRead);
    assert_eq!(stream.poll_read(end(), &mut room), ReadAction::Return(Poll::Ready(Ok(0))));
    assert_eq!(room, [0, 0]);
}

#[test]
fn waiting_and_failing_while_reading() {
    let mut stream = RecvStream::new();
    let mut room = [0u8; 2];
    stream.poll_read(ReadEvent::Wanted, &mut room);
    assert_eq!(
        stream.poll_read(ReadEvent::Polled(Poll::Pending), &mut room),
        ReadAction::Return(Poll::Pending)
    );
    assert_eq!(stream.poll_read(ReadEvent::Wanted, &mut room), ReadAction::PollRead);
    assert_eq!(
        stream.poll_read(ReadEvent::Polled(Poll::Ready(Err("reset".to_string()))), &mut room),
        ReadAction::Return(Poll::Ready(Err(ReadError::ReadError("reset".to_string()))))
    );
}

#[test]
fn chunk_on_loan_keeps_what_is_left() {
    let mut stream = RecvStream::new();
    assert_eq!(stream.poll_read_chunk(ReadEvent::Wanted), ReadAction::StartRead);
    match stream.poll_read_chunk(chunk(b"hello")) {
        ReadAction::Return(Poll::Ready(Some(Ok(bytes)))) => {
            assert_eq!(&bytes[..], b"hello");
            bytes.advance(2);
        }
        other => panic!("unexpected {:?}", other),
    }
    assert_eq!(
        stream.read_chunk().poll(ReadEvent::Wanted),
        ReadAction::Return(Poll::Ready(Some(Ok(Bytes::from_static(b"llo")))))
    );
    assert_eq!(stream.poll_read_chunk(ReadEvent::Wanted), ReadAction::StartRead);
}

#[test]
fn chunks_are_taken_whole() {
    let mut stream = RecvStream::new();
    assert_eq!(stream.read_chunk().poll(ReadEvent::Wanted), ReadAction::StartRead);
    assert_eq!(
        stream.read_chunk().poll(ReadEvent::Polled(Poll::Pending)),
        ReadAction::Return(Poll::Pending)
    );
    assert_eq!(stream.read_chunk().poll(ReadEvent::Wanted), ReadAction::PollRead);
    assert_eq!(
        stream.read_chunk().poll(chunk(b"whole")),
        ReadAction::Return(Poll::Ready(Some(Ok(Bytes::from_static(b"whole")))))
    );
    stream.read_chunk().poll(ReadEvent::Wanted);
    assert_eq!(stream.read_chunk().poll(end()), ReadAction::Return(Poll::Ready(None)));
    stream.read_chunk().poll(ReadEvent::Wanted);
    assert_eq!(
        stream.read_chunk().poll(ReadEvent::Polled(Poll::Ready(Err("gone".to_string())))),
        ReadAction::Return(Poll::Ready(Some(Err(ReadError::ReadError("gone".to_string())))))
    );
}

#[test]
fn writes_go_one_at_a_time() {
    let mut stream = SendStream::new();
    assert_eq!(
        stream.poll_ready(SendEvent::Wanted),
        ReadyAction::Return(Poll::Ready(Ok(())))
    );
    assert_eq!(
        stream.poll_write(SendEvent::Wanted, b"abc"),
        WriteAction::StartWrite { chunk: b"abc".to_vec(), accepted: 3 }
    );
    assert_eq!(stream.poll_write(SendEvent::Wanted, b"de"), WriteAction::PollWrite);
    assert_eq!(
        stream.poll_write(SendEvent::Polled(Poll::Pending), b"de"),
        WriteAction::Return(Poll::Pending)
    );
    assert_eq!(
        stream.poll_write(SendEvent::Polled(Poll::Ready(Ok(()))), b"de"),
        WriteAction::StartWrite { chunk: b"de".to_vec(), accepted: 2 }
    );
}

#[test]
fn flush_waits_for_the_write_in_flight() {
    let mut stream = SendStream::new();
    assert_eq!(
        stream.poll_flush(SendEvent::Wanted),
        ReadyAction::Return(Poll::Ready(Ok(())))
    );
    assert_eq!(stream.send_chunk(b"x"), b"x".to_vec());
    assert_eq!(stream.poll_flush(SendEvent::Wanted), ReadyAction::PollWrite);
    assert_eq!(
        stream.poll_flush(SendEvent::Polled(Poll::Pending)),
        ReadyAction::Return(Poll::Pending)
    );
    assert_eq!(
        stream.poll_flush(SendEvent::Polled(Poll::Ready(Ok(())))),
        ReadyAction::Return(Poll::Ready(Ok(())))
    );
    assert_eq!(
        stream.poll_ready(SendEvent::Wanted),
        ReadyAction::Return(Poll::Ready(Ok(())))
    );
}

#[test]
fn failed_write_leaves_the_stream_busy() {
    let mut stream = SendStream::new();
    stream.send_chunk(b"x");
    let failed = SendError::SendFailed("reset".to_string());
    assert_eq!(
        stream.poll_write(SendEvent::Polled(Poll::Ready(Err("reset".to_string()))), b"y"),
        WriteAction::Return(Poll::Ready(Err(failed.clone())))
    );
    assert_eq!(stream.poll_ready(SendEvent::Wanted), ReadyAction::PollWrite);
    assert_eq!(
        stream.poll_ready(SendEvent::Polled(Poll::Ready(Err("reset".to_string())))),
        ReadyAction::Return(Poll::Ready(Err(failed)))
    );
}

#[test]
fn sending_half_closes_once_without_waiting() {
    let mut stream = SendStream::new();
    stream.send_chunk(b"x");
    assert_eq!(stream.poll_close(), (true, Poll::Ready(Ok(()))));
    assert_eq!(stream.poll_close(), (false, Poll::Ready(Ok(()))));
    assert!(!stream.stop());
    assert_eq!(stream.poll_write(SendEvent::Wanted, b"y"), WriteAction::PollWrite);
}

#[test]
fn stream_errors_in_words() {
    assert_eq!(
        RecvError::ReadError("a \"b\"".to_string()).message(),
        "Failed to read from stream: a \"b\""
    );
    assert_eq!(
        SendError::SendFailed("full".to_string()).message(),
        "Failed to send data to stream: full"
    );
    assert_eq!(
        SendError::CloseFailed("gone".to_string()).message(),
        "Failed to close the stream: gone"
    );
}

#[test]
fn chunks_written_are_the_bytes_taken() {
    let mut stream = SendStream::new();
    let mut written = vec![stream.send_chunk(b"one ")];
    let mut taken = 4;
    for data in [&b"two "[..], &b""[..], &b"three"[..]] {
        assert_eq!(stream.poll_write(SendEvent::Wanted, data), WriteAction::PollWrite);
        match stream.poll_write(SendEvent::Polled(Poll::Ready(Ok(()))), data) {
            WriteAction::StartWrite { chunk, accepted } => {
                written.push(chunk);
                taken += accepted;
            }
            other => panic!("unexpected {:?}", other),
        }
    }
    assert_eq!(written.concat(), b"one two three");
    assert_eq!(taken, 13);
}

#[test]
fn failed_stream_never_becomes_ready() {
    let mut stream = SendStream::new();
    stream.send_chunk(b"x");
    stream.poll_flush(SendEvent::Polled(Poll::Ready(Err("reset".to_string()))));
    for _ in 0..3 {
        assert_eq!(stream.poll_write(SendEvent::Wanted, b"y"), WriteAction::PollWrite);
        assert_eq!(
            stream.poll_write(SendEvent::Polled(Poll::Pending), b"y"),
            WriteAction::Return(Poll::Pending)
        );
    }
}
