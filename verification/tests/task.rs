use bytes::Bytes;
use webtransport_client::client::Task;
use webtransport_client::event::Event;
use webtransport_client::task::{ChunkedSend, StreamTask, TaskCommand, TaskInput};

/// Lets a task send all it has to, and returns the chunks and the command that comes next.
fn sends(task: &mut StreamTask, first: TaskCommand) -> (Vec<Vec<u8>>, TaskCommand) {
    let mut chunks = Vec::new();
    let mut command = first;
    loop {
        match command {
            TaskCommand::Write(chunk) => {
                chunks.push(chunk);
                assert_eq!(task.step(TaskInput::Written(Ok(()))), TaskCommand::Pause(100));
                command = task.step(TaskInput::Paused);
            }
            other => return (chunks, other),
        }
    }
}

#[test]
fn data_is_cut_into_fours() {
    let mut send = ChunkedSend::new(Bytes::from_static(b"0123456789"));
    assert_eq!(send.next_chunk(), Some(b"0123".to_vec()));
    assert_eq!(send.next_chunk(), Some(b"4567".to_vec()));
    assert_eq!(send.next_chunk(), Some(b"89".to_vec()));
    assert_eq!(send.next_chunk(), None);
    assert_eq!(send.next_chunk(), None);
    assert_eq!(ChunkedSend::new(Bytes::new()).next_chunk(), None);
}

#[test]
fn task_on_opened_bi_stream_sends_then_reads() {
    let (mut task, first) = StreamTask::begin(Task::OpenBi(Bytes::from_static(b"hello world!")));
    let (chunks, next) = sends(&mut task, first);
    assert_eq!(chunks, vec![b"hell".to_vec(), b"o wo".to_vec(), b"rld!".to_vec()]);
    assert_eq!(chunks.concat(), b"hello world!");
    assert_eq!(next, TaskCommand::DropSend);
    assert_eq!(task.step(TaskInput::Dropped), TaskCommand::ReadToEnd);
    assert_eq!(
        task.step(TaskInput::Received(Ok(b"answer".to_vec()))),
        TaskCommand::Emit(Event::BiStream(Bytes::from_static(b"answer")))
    );
    assert_eq!(task.step(TaskInput::Emitted), TaskCommand::Finish(Ok(())));
}

#[test]
fn task_on_opened_uni_stream_only_sends() {
    let (mut task, first) = StreamTask::begin(Task::OpenUni(Bytes::from_static(b"12345")));
    let (chunks, next) = sends(&mut task, first);
    assert_eq!(chunks, vec![b"1234".to_vec(), b"5".to_vec()]);
    assert_eq!(next, TaskCommand::DropSend);
    assert_eq!(task.step(TaskInput::Dropped), TaskCommand::Finish(Ok(())));
}

#[test]
fn nothing_to_send_is_not_written() {
    let (mut task, first) = StreamTask::begin(Task::OpenUni(Bytes::new()));
    assert_eq!(first, TaskCommand::DropSend);
    assert_eq!(task.step(TaskInput::Dropped), TaskCommand::Finish(Ok(())));
}

#[test]
fn task_on_incoming_bi_stream_answers() {
    let (mut task, first) = StreamTask::begin(Task::IncomingBi);
    assert_eq!(first, TaskCommand::ReadToEnd);
    assert_eq!(
        task.step(TaskInput::Received(Ok(b"q".to_vec()))),
        TaskCommand::Emit(Event::BiStream(Bytes::from_static(b"q")))
    );
    assert_eq!(task.step(TaskInput::Emitted), TaskCommand::Write(b"Hello".to_vec()));
    assert_eq!(task.step(TaskInput::Written(Ok(()))), TaskCommand::Finish(Ok(())));
}

#[test]
fn task_on_incoming_uni_stream_tells() {
    let (mut task, first) = StreamTask::begin(Task::IncomingUni);
    assert_eq!(first, TaskCommand::ReadToEnd);
    assert_eq!(
        task.step(TaskInput::Received(Ok(b"u".to_vec()))),
        TaskCommand::Emit(Event::UniStream(Bytes::from_static(b"u")))
    );
    assert_eq!(task.step(TaskInput::Emitted), TaskCommand::Finish(Ok(())));
}

#[test]
fn task_fails_where_its_stream_does() {
    let failed = || TaskCommand::Finish(Err("reset".to_string()));
    let (mut task, _) = StreamTask::begin(Task::OpenBi(Bytes::from_static(b"abcdefgh")));
    assert_eq!(task.step(TaskInput::Written(Err("reset".to_string()))), failed());

    let (mut task, first) = StreamTask::begin(Task::OpenBi(Bytes::from_static(b"a")));
    sends(&mut task, first);
    task.step(TaskInput::Dropped);
    assert_eq!(task.step(TaskInput::Received(Err("reset".to_string()))), failed());

    let (mut task, _) = StreamTask::begin(Task::IncomingUni);
    assert_eq!(task.step(TaskInput::Received(Err("reset".to_string()))), failed());

    let (mut task, _) = StreamTask::begin(Task::IncomingBi);
    task.step(TaskInput::Received(Ok(Vec::new())));
    task.step(TaskInput::Emitted);
    assert_eq!(task.step(TaskInput::Written(Err("reset".to_string()))), failed());
}
