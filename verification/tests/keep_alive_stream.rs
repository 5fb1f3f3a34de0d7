use cloud_hypervisor::keep_alive_stream::{
    KeepAliveEvent, KeepAlivePhase, KeepAliveStream, KeepAliveStreamAnswer,
    KeepAliveStreamMessage, KeepAliveWorker, NoMessage, StreamError,
};
use cloud_hypervisor::protocol::{Request, Response};

/// Lets the worker handle one message on a connection in memory.
fn handle(
    worker: &KeepAliveWorker,
    received: Result<KeepAliveStreamMessage, NoMessage>,
    input: &[u8],
    output: &mut Vec<u8>,
) -> (Option<KeepAliveStreamAnswer>, bool) {
    let mut phase = worker.advance(
        KeepAlivePhase::Receiving,
        KeepAliveEvent::Received(received),
    );
    let mut answer = None;
    loop {
        let (next, event) = match phase {
            KeepAlivePhase::Receiving => return (answer, true),
            KeepAlivePhase::Stopped => return (answer, false),
            KeepAlivePhase::Reading(mut buf, len) => {
                let n = len.min(input.len());
                buf[..n].copy_from_slice(&input[..n]);
                (
                    KeepAlivePhase::Reading(buf, len),
                    KeepAliveEvent::Transferred(Ok(n)),
                )
            }
            KeepAlivePhase::Writing(buf, len) => {
                output.extend(&buf[..len]);
                (
                    KeepAlivePhase::Writing(buf, len),
                    KeepAliveEvent::Transferred(Ok(len)),
                )
            }
            KeepAlivePhase::Flushing => {
                (KeepAlivePhase::Flushing, KeepAliveEvent::Flushed(Ok(())))
            }
            KeepAlivePhase::KeepingAlive(bytes) => {
                output.extend(&bytes);
                (
                    KeepAlivePhase::KeepingAlive(bytes),
                    KeepAliveEvent::Sent(false),
                )
            }
            KeepAlivePhase::Answering(sent) => {
                answer = Some(sent);
                return (answer, true);
            }
        };
        phase = worker.advance(next, event);
    }
}

#[test]
fn bytes_are_read_and_written() {
    let worker = KeepAliveWorker::new(true);
    let mut stream = KeepAliveStream::new();
    let mut output = Vec::new();

    let message = stream.begin_write(b"hello");
    let (answer, _) = handle(&worker, Ok(message), &[], &mut output);
    assert_eq!(stream.finish_write(Ok(answer.unwrap())), Ok(5));
    // The buffer still holds the longer text, but only the new one is written.
    let message = stream.begin_write(b"you");
    let (answer, _) = handle(&worker, Ok(message), &[], &mut output);
    assert_eq!(stream.finish_write(Ok(answer.unwrap())), Ok(3));
    assert_eq!(output, b"helloyou");

    let message = stream.begin_read(4);
    let (answer, _) = handle(&worker, Ok(message), b"abcdef", &mut output);
    assert_eq!(stream.finish_read(Ok(answer.unwrap())).unwrap(), b"abcd");
    let message = stream.begin_read(9);
    let (answer, _) = handle(&worker, Ok(message), b"xyz", &mut output);
    assert_eq!(stream.finish_read(Ok(answer.unwrap())).unwrap(), b"xyz");

    let (answer, running) = handle(
        &worker,
        Ok(KeepAliveStreamMessage::Flush),
        &[],
        &mut output,
    );
    assert!(running);
    assert_eq!(KeepAliveStream::finish_flush(Ok(answer.unwrap())), Ok(()));
}

#[test]
fn silence_is_broken_by_keep_alive_messages() {
    let mut output = Vec::new();
    let (answer, running) = handle(
        &KeepAliveWorker::new(true),
        Err(NoMessage::Timeout),
        &[],
        &mut output,
    );
    assert!(answer.is_none() && running);
    let mut expected = Vec::new();
    Request::keep_alive().write_to(&mut expected);
    assert_eq!(output, expected);

    let mut output = Vec::new();
    handle(
        &KeepAliveWorker::new(false),
        Err(NoMessage::Timeout),
        &[],
        &mut output,
    );
    let mut expected = Vec::new();
    Response::keep_alive().write_to(&mut expected);
    assert_eq!(output, expected);
    assert_eq!(KeepAliveWorker::new(false).keep_alive(), expected);
}

#[test]
fn worker_stops() {
    let worker = KeepAliveWorker::new(true);
    for received in [
        Ok(KeepAliveStreamMessage::Disconnect),
        Err(NoMessage::Disconnected),
    ] {
        let (answer, running) = handle(&worker, received, &[], &mut Vec::new());
        assert!(answer.is_none() && !running);
    }
    let phase = worker.advance(
        KeepAlivePhase::Answering(KeepAliveStreamAnswer::Flush(Ok(()))),
        KeepAliveEvent::Sent(false),
    );
    assert!(matches!(phase, KeepAlivePhase::Stopped));
}

#[test]
fn failures_are_handed_on() {
    let mut stream = KeepAliveStream::new();
    assert_eq!(
        stream.finish_read(Ok(KeepAliveStreamAnswer::Read(Err(StreamError::Io(5))))),
        Err(StreamError::Io(5))
    );
    assert_eq!(
        stream.finish_read(Ok(KeepAliveStreamAnswer::Flush(Ok(())))),
        Err(StreamError::UnexpectedAnswer)
    );
    assert_eq!(stream.finish_read(Err(())), Err(StreamError::Receive));
    assert_eq!(
        stream.finish_write(Ok(KeepAliveStreamAnswer::Write(Err(StreamError::Io(32))))),
        Err(StreamError::Io(32))
    );
    assert_eq!(
        stream.finish_write(Ok(KeepAliveStreamAnswer::Flush(Ok(())))),
        Err(StreamError::UnexpectedAnswer)
    );
    assert_eq!(stream.finish_write(Err(())), Err(StreamError::Receive));
    assert_eq!(
        KeepAliveStream::finish_flush(Ok(KeepAliveStreamAnswer::Flush(Err(StreamError::Io(1))))),
        Err(StreamError::Io(1))
    );
    assert_eq!(
        KeepAliveStream::finish_flush(Ok(KeepAliveStreamAnswer::Write(Ok((vec![], 0))))),
        Err(StreamError::UnexpectedAnswer)
    );
    assert_eq!(
        KeepAliveStream::finish_flush(Err(())),
        Err(StreamError::Receive)
    );

    let worker = KeepAliveWorker::new(true);
    let phase = worker.advance(
        KeepAlivePhase::Reading(vec![0; 4], 4),
        KeepAliveEvent::Transferred(Err(StreamError::Io(104))),
    );
    assert!(matches!(
        phase,
        KeepAlivePhase::Answering(KeepAliveStreamAnswer::Read(Err(StreamError::Io(104))))
    ));
}
