//! A stream that is intended to be used for the main connection of live migrations. If it
//! does not read or write often enough, it sends keep alive messages.
//!
//! The stream consists of a worker that owns the connection, and channels to send
//! messages to said worker and to receive answers from it. The connection and the channels
//! are handled by the caller, which reports each outcome back.

use vstd::prelude::*;

use crate::protocol::{header_bytes, Command, Request, Response, Status};

verus! {

/// The messages that are sent to the worker.
#[derive(Debug)]
pub enum KeepAliveStreamMessage {
    /// Read `len` bytes into `buf`.
    Read { len: usize, buf: Vec<u8> },
    /// Write `buf[..len]`.
    Write { len: usize, buf: Vec<u8> },
    /// Flush the connection.
    Flush,
    /// Stop listening for messages, i.e. stop the worker.
    Disconnect,
}

/// Why an operation failed.
#[derive(Clone, Copy, Debug, PartialEq, Eq, Structural)]
pub enum StreamError {
    /// The connection failed, with this error number.
    Io(i32),
    /// Unable to send a message to the worker.
    Send,
    /// Unable to receive an answer from the worker.
    Receive,
    /// Received an unexpected answer.
    UnexpectedAnswer,
}

/// The answers of the worker.
#[derive(Debug)]
pub enum KeepAliveStreamAnswer {
    /// Result of reading: the buffer and how many bytes were read.
    Read(Result<(Vec<u8>, usize), StreamError>),
    /// Result of writing: the buffer and how many bytes were written.
    Write(Result<(Vec<u8>, usize), StreamError>),
    /// Result of flushing.
    Flush(Result<(), StreamError>),
}

/// Why no message came.
#[derive(Clone, Copy, Debug, PartialEq, Eq, Structural)]
pub enum NoMessage {
    /// None came in time.
    Timeout,
    /// The other side is gone.
    Disconnected,
}

/// What the worker does.
#[derive(Debug)]
pub enum KeepAlivePhase {
    /// Waiting for a message.
    Receiving,
    /// Reading up to this many bytes into the buffer.
    Reading(Vec<u8>, usize),
    /// Writing the first bytes of the buffer.
    Writing(Vec<u8>, usize),
    /// Flushing.
    Flushing,
    /// Sending an answer.
    Answering(KeepAliveStreamAnswer),
    /// Sending a keep alive message, given its bytes.
    KeepingAlive(Vec<u8>),
    /// The worker has stopped.
    Stopped,
}

/// The answer to what the worker does.
#[derive(Debug)]
pub enum KeepAliveEvent {
    /// The message that came, or why there is none.
    Received(Result<KeepAliveStreamMessage, NoMessage>),
    /// How many bytes were read or written.
    Transferred(Result<usize, StreamError>),
    /// The result of a flush.
    Flushed(Result<(), StreamError>),
    /// Whether an answer or a keep alive message could be sent.
    Sent(bool),
}

/// `event` is an answer to what `phase` asks for.
pub open spec fn keep_alive_answers(phase: KeepAlivePhase, event: KeepAliveEvent) -> bool {
    match phase {
        KeepAlivePhase::Receiving => event is Received,
        KeepAlivePhase::Reading(_, _) | KeepAlivePhase::Writing(_, _) => event is Transferred,
        KeepAlivePhase::Flushing => event is Flushed,
        KeepAlivePhase::Answering(_) | KeepAlivePhase::KeepingAlive(_) => event is Sent,
        KeepAlivePhase::Stopped => false,
    }
}

/// A buffer has room for `len` bytes: it holds the bytes that it held before, followed by as
/// many zeroes as are missing.
pub open spec fn room_made(before: Seq<u8>, after: Seq<u8>, len: usize) -> bool {
    after == before + Seq::new(
        if before.len() < len {
            (len - before.len()) as nat
        } else {
            0
        },
        |i: int| 0u8,
    )
}

/// The bytes of the keep alive message of either side.
pub open spec fn keep_alive_bytes(is_sender: bool) -> Seq<u8> {
    header_bytes(
        if is_sender {
            Command::KeepAlive.spec_code()
        } else {
            Status::KeepAlive.spec_code()
        },
        seq![0u8, 0u8, 0u8, 0u8, 0u8, 0u8],
        0,
    )
}

/// `next` follows a phase of the worker on an answer.
pub open spec fn keep_alive_next(
    is_sender: bool,
    phase: KeepAlivePhase,
    event: KeepAliveEvent,
    next: KeepAlivePhase,
) -> bool {
    match (phase, event) {
        (KeepAlivePhase::Receiving, KeepAliveEvent::Received(received)) => match received {
            Ok(KeepAliveStreamMessage::Read { len, buf }) => next matches KeepAlivePhase::Reading(
                room,
                n,
            ) && n == len && room_made(buf@, room@, len),
            Ok(KeepAliveStreamMessage::Write { len, buf }) => next == KeepAlivePhase::Writing(
                buf,
                len,
            ),
            Ok(KeepAliveStreamMessage::Flush) => next is Flushing,
            Ok(KeepAliveStreamMessage::Disconnect) => next is Stopped,
            // The idea is to always send a keep alive message when this times out.
            Err(NoMessage::Timeout) => next matches KeepAlivePhase::KeepingAlive(bytes) && bytes@
                == keep_alive_bytes(is_sender),
            Err(NoMessage::Disconnected) => next is Stopped,
        },
        (KeepAlivePhase::Reading(buf, _), KeepAliveEvent::Transferred(result)) => next
            == KeepAlivePhase::Answering(
            KeepAliveStreamAnswer::Read(
                match result {
                    Ok(n) => Ok((buf, n)),
                    Err(e) => Err(e),
                },
            ),
        ),
        (KeepAlivePhase::Writing(buf, _), KeepAliveEvent::Transferred(result)) => next
            == KeepAlivePhase::Answering(
            KeepAliveStreamAnswer::Write(
                match result {
                    Ok(n) => Ok((buf, n)),
                    Err(e) => Err(e),
                },
            ),
        ),
        (KeepAlivePhase::Flushing, KeepAliveEvent::Flushed(result)) => next
            == KeepAlivePhase::Answering(KeepAliveStreamAnswer::Flush(result)),
        // The worker simply stops if anything bad happens. The other side will notice next
        // time it tries to send a message.
        (KeepAlivePhase::Answering(_), KeepAliveEvent::Sent(sent)) => if sent {
            next is Receiving
        } else {
            next is Stopped
        },
        // Whether a keep alive message could be sent does not matter.
        (KeepAlivePhase::KeepingAlive(_), KeepAliveEvent::Sent(_)) => next is Receiving,
        _ => next == phase,
    }
}

/// The worker that owns the connection.
#[derive(Clone, Copy, Debug)]
pub struct KeepAliveWorker {
    /// Is this running on the sender or receiver side?
    pub is_sender: bool,
}

impl KeepAliveWorker {
    /// Creates a worker for either side.
    pub fn new(is_sender: bool) -> (worker: Self)
        ensures
            worker.is_sender == is_sender,
    {
        KeepAliveWorker { is_sender }
    }

    fn make_room(buf: Vec<u8>, len: usize) -> (room: Vec<u8>)
        ensures
            room_made(buf@, room@, len),
    {
        let mut room: Vec<u8> = buf;
        if room.len() < len {
            room.resize(len, 0);
        }
        proof {
            let missing: nat = if buf@.len() < len {
                (len - buf@.len()) as nat
            } else {
                0
            };
            let expected = buf@ + Seq::new(missing, |i: int| 0u8);
            assert forall|i: int| 0 <= i < expected.len() implies room@[i] == expected[i] by {
                if buf@.len() < len && i < buf@.len() {
                    assert(room@.subrange(0, buf@.len() as int)[i] == buf@[i]);
                }
            }
            assert(room@ =~= expected);
        }
        room
    }

    /// The bytes of a keep alive message.
    pub fn keep_alive(&self) -> (bytes: Vec<u8>)
        ensures
            bytes@ == keep_alive_bytes(self.is_sender),
    {
        let mut bytes: Vec<u8> = Vec::new();
        if self.is_sender {
            Request::keep_alive().write_to(&mut bytes);
        } else {
            Response::keep_alive().write_to(&mut bytes);
        }
        assert(bytes@ =~= keep_alive_bytes(self.is_sender));
        bytes
    }

    /// Takes the answer to what the worker does into account.
    pub fn advance(&self, phase: KeepAlivePhase, event: KeepAliveEvent) -> (next: KeepAlivePhase)
        requires
            keep_alive_answers(phase, event),
        ensures
            keep_alive_next(self.is_sender, phase, event, next),
    {
        match (phase, event) {
            (KeepAlivePhase::Receiving, KeepAliveEvent::Received(received)) => match received {
                Ok(KeepAliveStreamMessage::Read { len, buf }) => KeepAlivePhase::Reading(
                    Self::make_room(buf, len),
                    len,
                ),
                Ok(KeepAliveStreamMessage::Write { len, buf }) => KeepAlivePhase::Writing(buf, len),
                Ok(KeepAliveStreamMessage::Flush) => KeepAlivePhase::Flushing,
                Ok(KeepAliveStreamMessage::Disconnect) => KeepAlivePhase::Stopped,
                Err(NoMessage::Timeout) => KeepAlivePhase::KeepingAlive(self.keep_alive()),
                Err(NoMessage::Disconnected) => KeepAlivePhase::Stopped,
            },
            (KeepAlivePhase::Reading(buf, _), KeepAliveEvent::Transferred(result)) => {
                KeepAlivePhase::Answering(
                    KeepAliveStreamAnswer::Read(
                        match result {
                            Ok(n) => Ok((buf, n)),
                            Err(e) => Err(e),
                        },
                    ),
                )
            },
            (KeepAlivePhase::Writing(buf, _), KeepAliveEvent::Transferred(result)) => {
                KeepAlivePhase::Answering(
                    KeepAliveStreamAnswer::Write(
                        match result {
                            Ok(n) => Ok((buf, n)),
                            Err(e) => Err(e),
                        },
                    ),
                )
            },
            (KeepAlivePhase::Flushing, KeepAliveEvent::Flushed(result)) => {
                KeepAlivePhase::Answering(KeepAliveStreamAnswer::Flush(result))
            },
            (KeepAlivePhase::Answering(_), KeepAliveEvent::Sent(sent)) => if sent {
                KeepAlivePhase::Receiving
            } else {
                KeepAlivePhase::Stopped
            },
            (KeepAlivePhase::KeepingAlive(_), KeepAliveEvent::Sent(_)) => KeepAlivePhase::Receiving,
            (phase, _) => phase,
        }
    }
}

/// The buffers of the stream, which get moved to and from the worker.
#[derive(Debug)]
pub struct KeepAliveStream {
    read_buf: Vec<u8>,
    write_buf: Vec<u8>,
}

impl KeepAliveStream {
    /// The scratch buffer for reads.
    pub closed spec fn spec_read_buf(self) -> Seq<u8> {
        self.read_buf@
    }

    /// The scratch buffer for writes.
    pub closed spec fn spec_write_buf(self) -> Seq<u8> {
        self.write_buf@
    }

    /// Creates a stream with empty buffers.
    pub fn new() -> (stream: Self)
        ensures
            stream.spec_read_buf().len() == 0,
            stream.spec_write_buf().len() == 0,
    {
        KeepAliveStream { read_buf: Vec::new(), write_buf: Vec::new() }
    }

    /// The message that asks the worker to read up to `len` bytes. It takes the scratch
    /// buffer along.
    pub fn begin_read(&mut self, len: usize) -> (message: KeepAliveStreamMessage)
        ensures
            message matches KeepAliveStreamMessage::Read { len: n, buf } && n == len && buf@ == old(
                self,
            ).spec_read_buf(),
            final(self).spec_read_buf().len() == 0,
            final(self).spec_write_buf() == old(self).spec_write_buf(),
    {
        let mut buf: Vec<u8> = Vec::new();
        // Move the buffer to avoid lifetime or ownership issues.
        std::mem::swap(&mut buf, &mut self.read_buf);
        KeepAliveStreamMessage::Read { len, buf }
    }

    /// The bytes that were read, given the answer of the worker or the failure to get one.
    pub fn finish_read(&mut self, answer: Result<KeepAliveStreamAnswer, ()>) -> (result: Result<
        Vec<u8>,
        StreamError,
    >)
        requires
            answer matches Ok(KeepAliveStreamAnswer::Read(Ok((buf, n)))) ==> n <= buf@.len(),
        ensures
            final(self).spec_write_buf() == old(self).spec_write_buf(),
            match answer {
                Ok(KeepAliveStreamAnswer::Read(Ok((buf, n)))) => final(self).spec_read_buf() == buf@
                    && (result matches Ok(bytes) && bytes@ == buf@.take(n as int)),
                Ok(KeepAliveStreamAnswer::Read(Err(e))) => final(self).spec_read_buf() == old(
                    self,
                ).spec_read_buf() && result == Err::<Vec<u8>, StreamError>(e),
                Ok(_) => final(self).spec_read_buf() == old(self).spec_read_buf() && result
                    == Err::<Vec<u8>, StreamError>(StreamError::UnexpectedAnswer),
                Err(_) => final(self).spec_read_buf() == old(self).spec_read_buf() && result
                    == Err::<Vec<u8>, StreamError>(StreamError::Receive),
            },
    {
        match answer {
            Ok(KeepAliveStreamAnswer::Read(result)) => match result {
                Ok((buf, n)) => {
                    let bytes: Vec<u8> = vstd::slice::slice_to_vec(
                        vstd::slice::slice_subrange(buf.as_slice(), 0, n),
                    );
                    self.read_buf = buf;
                    assert(bytes@ =~= buf@.take(n as int));
                    Ok(bytes)
                },
                Err(e) => Err(e),
            },
            Ok(_) => Err(StreamError::UnexpectedAnswer),
            Err(_) => Err(StreamError::Receive),
        }
    }

    /// The message that asks the worker to write bytes. It takes the scratch buffer along,
    /// which starts with these bytes.
    pub fn begin_write(&mut self, bytes: &[u8]) -> (message: KeepAliveStreamMessage)
        ensures
            message matches KeepAliveStreamMessage::Write { len, buf } && len == bytes@.len()
                && buf@ == bytes@ + (if old(self).spec_write_buf().len() < len {
                Seq::<u8>::empty()
            } else {
                old(self).spec_write_buf().skip(len as int)
            }),
            final(self).spec_write_buf().len() == 0,
            final(self).spec_read_buf() == old(self).spec_read_buf(),
    {
        let len: usize = bytes.len();
        let mut buf: Vec<u8> = Vec::new();
        // Move the buffer to avoid lifetime or ownership issues.
        std::mem::swap(&mut buf, &mut self.write_buf);
        let ghost before = buf@;
        if buf.len() < len {
            buf.resize(len, 0);
        }
        let ghost room = buf@;
        let mut i: usize = 0;
        assert(room =~= bytes@.take(0) + room.skip(0));
        while i < len
            invariant
                i <= len,
                len == bytes@.len(),
                len <= room.len(),
                buf@ == bytes@.take(i as int) + room.skip(i as int),
            decreases len - i,
        {
            buf.set(i, bytes[i]);
            i = i + 1;
            assert(buf@ =~= bytes@.take(i as int) + room.skip(i as int));
        }
        proof {
            assert(bytes@.take(i as int) =~= bytes@);
            if before.len() < len {
                assert(room.skip(len as int) =~= Seq::<u8>::empty());
            }
        }
        KeepAliveStreamMessage::Write { len, buf }
    }

    /// How many bytes were written, given the answer of the worker or the failure to get
    /// one.
    pub fn finish_write(&mut self, answer: Result<KeepAliveStreamAnswer, ()>) -> (result: Result<
        usize,
        StreamError,
    >)
        ensures
            final(self).spec_read_buf() == old(self).spec_read_buf(),
            match answer {
                Ok(KeepAliveStreamAnswer::Write(Ok((buf, n)))) => final(self).spec_write_buf()
                    == buf@ && result == Ok::<usize, StreamError>(n),
                Ok(KeepAliveStreamAnswer::Write(Err(e))) => final(self).spec_write_buf() == old(
                    self,
                ).spec_write_buf() && result == Err::<usize, StreamError>(e),
                Ok(_) => final(self).spec_write_buf() == old(self).spec_write_buf() && result
                    == Err::<usize, StreamError>(StreamError::UnexpectedAnswer),
                Err(_) => final(self).spec_write_buf() == old(self).spec_write_buf() && result
                    == Err::<usize, StreamError>(StreamError::Receive),
            },
    {
        match answer {
            Ok(KeepAliveStreamAnswer::Write(result)) => match result {
                Ok((buf, n)) => {
                    self.write_buf = buf;
                    Ok(n)
                },
                Err(e) => Err(e),
            },
            Ok(_) => Err(StreamError::UnexpectedAnswer),
            Err(_) => Err(StreamError::Receive),
        }
    }

    /// The result of a flush, given the answer of the worker or the failure to get one.
    pub fn finish_flush(answer: Result<KeepAliveStreamAnswer, ()>) -> (result: Result<
        (),
        StreamError,
    >)
        ensures
            result == match answer {
                Ok(KeepAliveStreamAnswer::Flush(result)) => result,
                Ok(_) => Err(StreamError::UnexpectedAnswer),
                Err(_) => Err(StreamError::Receive),
            },
    {
        match answer {
            Ok(KeepAliveStreamAnswer::Flush(result)) => result,
            Ok(_) => Err(StreamError::UnexpectedAnswer),
            Err(_) => Err(StreamError::Receive),
        }
    }
}

/// What the worker is asked to write are the bytes that were handed to the stream.
pub proof fn law_written_bytes_reach_worker(
    is_sender: bool,
    len: usize,
    buf: Vec<u8>,
    bytes: Seq<u8>,
    next: KeepAlivePhase,
)
    requires
        len == bytes.len(),
        len <= buf@.len(),
        buf@.take(len as int) == bytes,
        keep_alive_next(
            is_sender,
            KeepAlivePhase::Receiving,
            KeepAliveEvent::Received(Ok(KeepAliveStreamMessage::Write { len, buf })),
            next,
        ),
    ensures
        next matches KeepAlivePhase::Writing(written, n) && written@.take(n as int) == bytes,
{
}

/// A read gets a buffer with room for as many bytes as were asked for, which starts with what it
/// held before and is no longer than needed.
pub proof fn law_read_has_room(is_sender: bool, len: usize, buf: Vec<u8>, next: KeepAlivePhase)
    requires
        keep_alive_next(
            is_sender,
            KeepAlivePhase::Receiving,
            KeepAliveEvent::Received(Ok(KeepAliveStreamMessage::Read { len, buf })),
            next,
        ),
    ensures
        next matches KeepAlivePhase::Reading(room, n) && {
            &&& n == len
            &&& room@.len() >= len
            &&& room@.len() == len || room@.len() == buf@.len()
            &&& room@.len() >= buf@.len()
            &&& room@.take(buf@.len() as int) == buf@
            &&& forall|i: int| buf@.len() <= i < room@.len() ==> room@[i] == 0
        },
{
    if let KeepAlivePhase::Reading(room, _) = next {
        assert(room@.take(buf@.len() as int) =~= buf@);
    }
}

/// What the worker has done is what it answers: reading is answered as reading, writing as writing
/// and flushing as flushing, with the outcome that the connection gave and with the buffer that
/// came along.
pub proof fn law_answer_tells_outcome(
    is_sender: bool,
    buf: Vec<u8>,
    len: usize,
    transferred: Result<usize, StreamError>,
    flushed: Result<(), StreamError>,
    read: KeepAlivePhase,
    written: KeepAlivePhase,
    done: KeepAlivePhase,
)
    requires
        keep_alive_next(
            is_sender,
            KeepAlivePhase::Reading(buf, len),
            KeepAliveEvent::Transferred(transferred),
            read,
        ),
        keep_alive_next(
            is_sender,
            KeepAlivePhase::Writing(buf, len),
            KeepAliveEvent::Transferred(transferred),
            written,
        ),
        keep_alive_next(
            is_sender,
            KeepAlivePhase::Flushing,
            KeepAliveEvent::Flushed(flushed),
            done,
        ),
    ensures
        transferred matches Ok(n) ==> read == KeepAlivePhase::Answering(
            KeepAliveStreamAnswer::Read(Ok((buf, n))),
        ) && written == KeepAlivePhase::Answering(KeepAliveStreamAnswer::Write(Ok((buf, n)))),
        transferred matches Err(e) ==> read == KeepAlivePhase::Answering(
            KeepAliveStreamAnswer::Read(Err(e)),
        ) && written == KeepAlivePhase::Answering(KeepAliveStreamAnswer::Write(Err(e))),
        done == KeepAlivePhase::Answering(KeepAliveStreamAnswer::Flush(flushed)),
{
}

/// The worker stops if it is told to, if nobody is left to tell it anything, and if its answer
/// reaches nobody; and for no other reason.
pub proof fn law_worker_stops_when_left(
    is_sender: bool,
    phase: KeepAlivePhase,
    event: KeepAliveEvent,
    next: KeepAlivePhase,
)
    requires
        keep_alive_answers(phase, event),
        keep_alive_next(is_sender, phase, event, next),
    ensures
        next is Stopped <==> {
            ||| event == KeepAliveEvent::Received(Err(NoMessage::Disconnected))
            ||| event matches KeepAliveEvent::Received(Ok(message)) && message is Disconnect
            ||| phase is Answering && event == KeepAliveEvent::Sent(false)
        },
        next is KeepingAlive <==> event == KeepAliveEvent::Received(Err(NoMessage::Timeout)),
        next is Receiving <==> {
            ||| phase is Answering && event == KeepAliveEvent::Sent(true)
            ||| phase is KeepingAlive
        },
        next is Writing <==> (event matches KeepAliveEvent::Received(Ok(message)) && message is Write),
        next is Reading <==> (event matches KeepAliveEvent::Received(Ok(message)) && message is Read),
        next is Flushing <==> (event matches KeepAliveEvent::Received(Ok(message)) && message is Flush),
{
}

/// A keep alive message is a header without a payload: the sender's stands for a request and the
/// receiver's for a response that the other side throws away.
pub proof fn law_keep_alive_is_thrown_away(
    request: Request,
    response: Response,
    stream: Seq<u8>,
)
    requires
        request.decoded_from(keep_alive_bytes(true)),
        response.decoded_from(keep_alive_bytes(false)),
    ensures
        request.spec_command() == Command::KeepAlive,
        request.spec_length() == 0,
        response.spec_status() == Status::KeepAlive,
        response.spec_length() == 0,
        crate::protocol::keep_alive_len(
            keep_alive_bytes(true) + stream,
            Command::KeepAlive.spec_code(),
        ) == 16 + crate::protocol::keep_alive_len(stream, Command::KeepAlive.spec_code()),
        crate::protocol::keep_alive_len(
            keep_alive_bytes(false) + stream,
            Status::KeepAlive.spec_code(),
        ) == 16 + crate::protocol::keep_alive_len(stream, Status::KeepAlive.spec_code()),
{
    let padding = seq![0u8, 0u8, 0u8, 0u8, 0u8, 0u8];
    crate::protocol::lemma_header_parts(Command::KeepAlive.spec_code(), padding, 0);
    crate::protocol::lemma_header_parts(Status::KeepAlive.spec_code(), padding, 0);
    crate::protocol::law_request_rewrites_what_was_read(request, keep_alive_bytes(true));
    crate::protocol::law_response_rewrites_what_was_read(response, keep_alive_bytes(false));
    crate::protocol::law_request_keep_alive_is_skipped(request, stream);
    crate::protocol::law_response_keep_alive_is_skipped(response, stream);
}

/// The worker is quiet only as long as it is asked for something in time: whenever no message
/// comes in time, it sends a keep alive message and goes on.
pub proof fn law_timeout_sends_keep_alive(
    is_sender: bool,
    first: KeepAlivePhase,
    sent: bool,
    second: KeepAlivePhase,
)
    requires
        keep_alive_next(
            is_sender,
            KeepAlivePhase::Receiving,
            KeepAliveEvent::Received(Err(NoMessage::Timeout)),
            first,
        ),
        keep_alive_next(is_sender, first, KeepAliveEvent::Sent(sent), second),
    ensures
        first matches KeepAlivePhase::KeepingAlive(bytes) && bytes@ == keep_alive_bytes(is_sender),
        second is Receiving,
{
}

} // verus!
