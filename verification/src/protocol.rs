//! The messages of the live-migration protocol.
//!
//! Each message starts with a header of 16 bytes: a command or a status, padding, and the
//! length of the payload that follows. Either side may send keep alive messages at any
//! time; they carry no information and are thrown away when read.

use vstd::prelude::*;

use crate::wire::{get_le, le_bytes, le_value, lemma_le_bytes_len, lemma_le_bytes_of_value,
    lemma_le_value_of_bytes, lemma_pow256, put_le};

verus! {

/// Number of bytes of a message header.
pub const HEADER_SIZE: usize = 16;

/// Why a connection failed.
#[derive(Clone, Copy, Debug, PartialEq, Eq, Structural)]
pub enum SocketError {
    /// It ended before a message was complete.
    UnexpectedEof,
    /// The system reported this error number.
    Os(i32),
    /// Any other failure.
    Other,
}

/// Errors of a migration.
#[derive(Clone, Copy, Debug, PartialEq, Eq, Structural)]
pub enum MigratableError {
    /// The connection failed.
    MigrateSocket(SocketError),
    /// A message could not be deserialized.
    DeserializeError,
    /// The other side answered with an error.
    MigrateReceive,
    /// Sending the virtual machine failed.
    MigrateSend,
}

/// The commands of the live-migration protocol, each with the number that stands for it in
/// a message.
///
/// Receiver state machine:
///
/// ```text
/// [*]               -> Started:           Start
/// Started           -> MemoryFdsReceived: MemoryFd
/// MemoryFdsReceived -> MemoryFdsReceived: MemoryFd
/// Started           -> Configured:        Config
/// MemoryFdsReceived -> Configured:        Config
/// Configured        -> Configured:        Memory
/// Configured        -> StateReceived:     State
/// StateReceived     -> Completed:         Complete
/// ```
#[derive(Debug, Copy, Clone, PartialEq, Eq, Structural)]
pub enum Command {
    Invalid,
    Start,
    Config,
    State,
    Memory,
    Complete,
    Abandon,
    MemoryFd,
    KeepAlive,
}

impl Default for Command {
    fn default() -> (command: Self)
        ensures
            command == Command::Invalid,
    {
        Command::Invalid
    }
}

impl Command {
    /// The number that stands for the command in a message.
    pub open spec fn spec_code(self) -> u16 {
        match self {
            Command::Invalid => 0,
            Command::Start => 1,
            Command::Config => 2,
            Command::State => 3,
            Command::Memory => 4,
            Command::Complete => 5,
            Command::Abandon => 6,
            Command::MemoryFd => 7,
            Command::KeepAlive => 8,
        }
    }

    /// The number that stands for the command in a message.
    pub fn code(self) -> (code: u16)
        ensures
            code == self.spec_code(),
    {
        match self {
            Command::Invalid => 0,
            Command::Start => 1,
            Command::Config => 2,
            Command::State => 3,
            Command::Memory => 4,
            Command::Complete => 5,
            Command::Abandon => 6,
            Command::MemoryFd => 7,
            Command::KeepAlive => 8,
        }
    }

    /// The command that a number stands for.
    pub fn from_code(code: u16) -> (command: Option<Self>)
        ensures
            code <= 8 <==> command is Some,
            command matches Some(c) ==> c.spec_code() == code,
    {
        match code {
            0 => Some(Command::Invalid),
            1 => Some(Command::Start),
            2 => Some(Command::Config),
            3 => Some(Command::State),
            4 => Some(Command::Memory),
            5 => Some(Command::Complete),
            6 => Some(Command::Abandon),
            7 => Some(Command::MemoryFd),
            8 => Some(Command::KeepAlive),
            _ => None,
        }
    }
}

/// The status of a response, each with the number that stands for it in a message.
#[derive(Debug, Copy, Clone, PartialEq, Eq, Structural)]
pub enum Status {
    Invalid,
    Okay,
    Error,
    KeepAlive,
}

impl Default for Status {
    fn default() -> (status: Self)
        ensures
            status == Status::Invalid,
    {
        Status::Invalid
    }
}

impl Status {
    /// The number that stands for the status in a message.
    pub open spec fn spec_code(self) -> u16 {
        match self {
            Status::Invalid => 0,
            Status::Okay => 1,
            Status::Error => 2,
            Status::KeepAlive => 3,
        }
    }

    /// The number that stands for the status in a message.
    pub fn code(self) -> (code: u16)
        ensures
            code == self.spec_code(),
    {
        match self {
            Status::Invalid => 0,
            Status::Okay => 1,
            Status::Error => 2,
            Status::KeepAlive => 3,
        }
    }

    /// The status that a number stands for.
    pub fn from_code(code: u16) -> (status: Option<Self>)
        ensures
            code <= 3 <==> status is Some,
            status matches Some(s) ==> s.spec_code() == code,
    {
        match code {
            0 => Some(Status::Invalid),
            1 => Some(Status::Okay),
            2 => Some(Status::Error),
            3 => Some(Status::KeepAlive),
            _ => None,
        }
    }
}

/// The bytes of a header: a code of two bytes, six bytes of padding and a length of eight
/// bytes.
pub open spec fn header_bytes(code: u16, padding: Seq<u8>, length: u64) -> Seq<u8> {
    le_bytes(code as nat, 2) + padding + le_bytes(length as nat, 8)
}

/// The code of a header.
pub open spec fn header_code(bytes: Seq<u8>) -> nat {
    le_value(bytes.subrange(0, 2))
}

/// The padding of a header.
pub open spec fn header_padding(bytes: Seq<u8>) -> Seq<u8> {
    bytes.subrange(2, 8)
}

/// The length of a header.
pub open spec fn header_length(bytes: Seq<u8>) -> nat {
    le_value(bytes.subrange(8, 16))
}

/// The number of bytes that the keep alive messages at the start of a stream take, given the
/// code of a keep alive message.
pub open spec fn keep_alive_len(stream: Seq<u8>, keep_alive: u16) -> int
    decreases stream.len(),
{
    if stream.len() < HEADER_SIZE || header_code(stream.take(HEADER_SIZE as int)) != keep_alive {
        0
    } else {
        HEADER_SIZE + keep_alive_len(stream.skip(HEADER_SIZE as int), keep_alive)
    }
}

/// The header that follows the keep alive messages at the start of a stream.
pub open spec fn first_header(stream: Seq<u8>, keep_alive: u16) -> Seq<u8> {
    stream.subrange(
        keep_alive_len(stream, keep_alive),
        keep_alive_len(stream, keep_alive) + HEADER_SIZE,
    )
}

/// A stream holds a whole header behind its keep alive messages.
pub open spec fn has_header(stream: Seq<u8>, keep_alive: u16) -> bool {
    keep_alive_len(stream, keep_alive) + HEADER_SIZE <= stream.len()
}

proof fn lemma_keep_alive_len(stream: Seq<u8>, keep_alive: u16)
    ensures
        0 <= keep_alive_len(stream, keep_alive) <= stream.len(),
    decreases stream.len(),
{
    if !(stream.len() < HEADER_SIZE || header_code(stream.take(HEADER_SIZE as int)) != keep_alive) {
        lemma_keep_alive_len(stream.skip(HEADER_SIZE as int), keep_alive);
    }
}

pub proof fn lemma_header_parts(code: u16, padding: Seq<u8>, length: u64)
    requires
        padding.len() == 6,
    ensures
        header_bytes(code, padding, length).len() == 16,
        header_code(header_bytes(code, padding, length)) == code,
        header_padding(header_bytes(code, padding, length)) == padding,
        header_length(header_bytes(code, padding, length)) == length,
{
    let bytes = header_bytes(code, padding, length);
    lemma_le_bytes_len(code as nat, 2);
    lemma_le_bytes_len(length as nat, 8);
    lemma_pow256();
    assert(bytes.subrange(0, 2) =~= le_bytes(code as nat, 2));
    assert(bytes.subrange(2, 8) =~= padding);
    assert(bytes.subrange(8, 16) =~= le_bytes(length as nat, 8));
    lemma_le_value_of_bytes(code as nat, 2);
    lemma_le_value_of_bytes(length as nat, 8);
}

proof fn lemma_header_unique(bytes: Seq<u8>, code: u16, length: u64)
    requires
        bytes.len() == 16,
        header_code(bytes) == code,
        header_length(bytes) == length,
    ensures
        bytes == header_bytes(code, header_padding(bytes), length),
{
    lemma_le_bytes_of_value(bytes.subrange(0, 2));
    lemma_le_bytes_of_value(bytes.subrange(8, 16));
    assert(bytes =~= bytes.subrange(0, 2) + bytes.subrange(2, 8) + bytes.subrange(8, 16));
}

/// The position of the header behind the keep alive messages, if it is whole.
fn find_header(stream: &[u8], keep_alive: u16) -> (position: Option<usize>)
    ensures
        has_header(stream@, keep_alive) <==> position is Some,
        position matches Some(p) ==> p == keep_alive_len(stream@, keep_alive),
{
    let mut position: usize = 0;
    assert(stream@.skip(0) =~= stream@);
    while stream.len() - position >= HEADER_SIZE
        invariant
            position <= stream@.len(),
            keep_alive_len(stream@, keep_alive) == position + keep_alive_len(
                stream@.skip(position as int),
                keep_alive,
            ),
        decreases stream@.len() - position,
    {
        let code: u64 = get_le(stream, position, position + 2);
        proof {
            let rest = stream@.skip(position as int);
            assert(rest.take(HEADER_SIZE as int).subrange(0, 2) =~= stream@.subrange(
                position as int,
                position + 2,
            ));
            assert(rest.skip(HEADER_SIZE as int) =~= stream@.skip(position + HEADER_SIZE));
        }
        if code != keep_alive as u64 {
            return Some(position);
        }
        position = position + HEADER_SIZE;
    }
    None
}

fn put_header(out: &mut Vec<u8>, code: u16, padding: &[u8; 6], length: u64)
    ensures
        final(out)@ == old(out)@ + header_bytes(code, padding@, length),
{
    put_le(out, code as u64, 2);
    let mut i: usize = 0;
    while i < 6
        invariant
            i <= 6,
            out@ == old(out)@ + le_bytes(code as nat, 2) + padding@.take(i as int),
        decreases 6 - i,
    {
        let ghost before = out@;
        out.push(padding[i]);
        assert(padding@.take(i + 1) =~= padding@.take(i as int).push(padding@[i as int]));
        i = i + 1;
        assert(out@ =~= old(out)@ + le_bytes(code as nat, 2) + padding@.take(i as int));
    }
    assert(padding@.take(6) =~= padding@);
    put_le(out, length, 8);
    assert(out@ =~= old(out)@ + header_bytes(code, padding@, length));
}

fn get_padding(stream: &[u8], position: usize) -> (padding: [u8; 6])
    requires
        position + HEADER_SIZE <= stream@.len(),
    ensures
        padding@ == header_padding(stream@.subrange(position as int, position + HEADER_SIZE)),
{
    assert(stream.len() == stream@.len());
    let padding: [u8; 6] = [
        stream[position + 2],
        stream[position + 3],
        stream[position + 4],
        stream[position + 5],
        stream[position + 6],
        stream[position + 7],
    ];
    assert(padding@ =~= header_padding(
        stream@.subrange(position as int, position + HEADER_SIZE),
    ));
    padding
}

/// The header of a message from the sender.
#[derive(Copy, Clone, Debug)]
pub struct Request {
    command: Command,
    padding: [u8; 6],
    length: u64,
}

impl Request {
    /// The command of the request.
    pub closed spec fn spec_command(self) -> Command {
        self.command
    }

    /// The padding of the request.
    pub closed spec fn spec_padding(self) -> Seq<u8> {
        self.padding@
    }

    /// Length of payload for the command, without the header.
    pub closed spec fn spec_length(self) -> u64 {
        self.length
    }

    /// The bytes that are sent.
    pub open spec fn bytes(self) -> Seq<u8> {
        header_bytes(self.spec_command().spec_code(), self.spec_padding(), self.spec_length())
    }

    /// These bytes of a header stand for the request.
    pub open spec fn decoded_from(self, bytes: Seq<u8>) -> bool {
        &&& header_code(bytes) == self.spec_command().spec_code()
        &&& header_padding(bytes) == self.spec_padding()
        &&& header_length(bytes) == self.spec_length()
    }

    /// The request is as this command and length make it, with empty padding.
    pub open spec fn is_new(self, command: Command, length: u64) -> bool {
        &&& self.spec_command() == command
        &&& self.spec_length() == length
        &&& self.spec_padding() == seq![0u8, 0u8, 0u8, 0u8, 0u8, 0u8]
    }

    /// Creates a request.
    pub fn new(command: Command, length: u64) -> (request: Self)
        ensures
            request.is_new(command, length),
    {
        let request = Request { command, padding: [0, 0, 0, 0, 0, 0], length };
        assert(request.spec_padding() =~= seq![0u8, 0u8, 0u8, 0u8, 0u8, 0u8]);
        request
    }

    /// Creates a request to start a migration.
    pub fn start() -> (request: Self)
        ensures
            request.is_new(Command::Start, 0),
    {
        Self::new(Command::Start, 0)
    }

    /// Creates a request that hands over a state.
    pub fn state(length: u64) -> (request: Self)
        ensures
            request.is_new(Command::State, length),
    {
        Self::new(Command::State, length)
    }

    /// Creates a request that hands over a configuration.
    pub fn config(length: u64) -> (request: Self)
        ensures
            request.is_new(Command::Config, length),
    {
        Self::new(Command::Config, length)
    }

    /// Creates a request that hands over memory.
    pub fn memory(length: u64) -> (request: Self)
        ensures
            request.is_new(Command::Memory, length),
    {
        Self::new(Command::Memory, length)
    }

    /// Creates a request that hands over memory as a file descriptor.
    pub fn memory_fd(length: u64) -> (request: Self)
        ensures
            request.is_new(Command::MemoryFd, length),
    {
        Self::new(Command::MemoryFd, length)
    }

    /// Creates a request to complete a migration.
    pub fn complete() -> (request: Self)
        ensures
            request.is_new(Command::Complete, 0),
    {
        Self::new(Command::Complete, 0)
    }

    /// Creates a request to abandon a migration.
    pub fn abandon() -> (request: Self)
        ensures
            request.is_new(Command::Abandon, 0),
    {
        Self::new(Command::Abandon, 0)
    }

    /// Creates a keep alive message.
    pub fn keep_alive() -> (request: Self)
        ensures
            request.is_new(Command::KeepAlive, 0),
    {
        Self::new(Command::KeepAlive, 0)
    }

    /// The command of the request.
    pub fn command(&self) -> (command: Command)
        ensures
            command == self.spec_command(),
    {
        self.command
    }

    /// Length of payload for the command, without the header.
    pub fn length(&self) -> (length: u64)
        ensures
            length == self.spec_length(),
    {
        self.length
    }

    /// Reads a request from the start of a stream, and returns it with the number of
    /// bytes that were read. If we read a keep alive message, we throw it away and keep
    /// reading.
    pub fn read_from(stream: &[u8]) -> (result: Result<(Request, usize), MigratableError>)
        ensures
            result matches Err(e) ==> e == if has_header(
                stream@,
                Command::KeepAlive.spec_code(),
            ) {
                MigratableError::DeserializeError
            } else {
                MigratableError::MigrateSocket(SocketError::UnexpectedEof)
            },
            result is Ok <==> has_header(stream@, Command::KeepAlive.spec_code()) && header_code(
                first_header(stream@, Command::KeepAlive.spec_code()),
            ) <= 8,
            result matches Ok((request, read)) ==> {
                &&& request.decoded_from(first_header(stream@, Command::KeepAlive.spec_code()))
                &&& request.spec_command() != Command::KeepAlive
                &&& read == keep_alive_len(stream@, Command::KeepAlive.spec_code()) + HEADER_SIZE
            },
    {
        let position: usize = match find_header(stream, Command::KeepAlive.code()) {
            Some(position) => position,
            None => return Err(MigratableError::MigrateSocket(SocketError::UnexpectedEof)),
        };
        let ghost header = stream@.subrange(position as int, position + HEADER_SIZE);
        assert(stream.len() == stream@.len());
        let code: u64 = get_le(stream, position, position + 2);
        let length: u64 = get_le(stream, position + 8, position + 16);
        assert(header.subrange(0, 2) =~= stream@.subrange(position as int, position + 2));
        assert(header.subrange(8, 16) =~= stream@.subrange(position + 8, position + 16));
        proof {
            lemma_not_keep_alive(stream@, Command::KeepAlive.spec_code());
        }
        if code > 8 {
            return Err(MigratableError::DeserializeError);
        }
        match Command::from_code(code as u16) {
            Some(command) => Ok(
                (
                    Request { command, padding: get_padding(stream, position), length },
                    position + HEADER_SIZE,
                ),
            ),
            None => Err(MigratableError::DeserializeError),
        }
    }

    /// Appends the request to what is sent.
    pub fn write_to(&self, out: &mut Vec<u8>)
        ensures
            final(out)@ == old(out)@ + self.bytes(),
    {
        put_header(out, self.command.code(), &self.padding, self.length);
    }
}

proof fn lemma_not_keep_alive(stream: Seq<u8>, keep_alive: u16)
    requires
        has_header(stream, keep_alive),
    ensures
        header_code(first_header(stream, keep_alive)) != keep_alive,
    decreases stream.len(),
{
    let size = HEADER_SIZE as int;
    lemma_keep_alive_len(stream, keep_alive);
    if header_code(stream.take(size)) == keep_alive {
        let rest = stream.skip(size);
        lemma_keep_alive_len(rest, keep_alive);
        lemma_not_keep_alive(rest, keep_alive);
        assert(first_header(stream, keep_alive) =~= first_header(rest, keep_alive));
    } else {
        assert(first_header(stream, keep_alive) =~= stream.take(size));
    }
}

/// The header of a message from the receiver.
#[derive(Copy, Clone, Debug)]
pub struct Response {
    status: Status,
    padding: [u8; 6],
    length: u64,
}

impl Response {
    /// The status of the response.
    pub closed spec fn spec_status(self) -> Status {
        self.status
    }

    /// The padding of the response.
    pub closed spec fn spec_padding(self) -> Seq<u8> {
        self.padding@
    }

    /// Length of payload, without the header.
    pub closed spec fn spec_length(self) -> u64 {
        self.length
    }

    /// The bytes that are sent.
    pub open spec fn bytes(self) -> Seq<u8> {
        header_bytes(self.spec_status().spec_code(), self.spec_padding(), self.spec_length())
    }

    /// These bytes of a header stand for the response.
    pub open spec fn decoded_from(self, bytes: Seq<u8>) -> bool {
        &&& header_code(bytes) == self.spec_status().spec_code()
        &&& header_padding(bytes) == self.spec_padding()
        &&& header_length(bytes) == self.spec_length()
    }

    /// The response is as this status and length make it, with empty padding.
    pub open spec fn is_new(self, status: Status, length: u64) -> bool {
        &&& self.spec_status() == status
        &&& self.spec_length() == length
        &&& self.spec_padding() == seq![0u8, 0u8, 0u8, 0u8, 0u8, 0u8]
    }

    /// Creates a response.
    pub fn new(status: Status, length: u64) -> (response: Self)
        ensures
            response.is_new(status, length),
    {
        let response = Response { status, padding: [0, 0, 0, 0, 0, 0], length };
        assert(response.spec_padding() =~= seq![0u8, 0u8, 0u8, 0u8, 0u8, 0u8]);
        response
    }

    /// Creates a response that says that all went well.
    pub fn ok() -> (response: Self)
        ensures
            response.is_new(Status::Okay, 0),
    {
        Self::new(Status::Okay, 0)
    }

    /// Creates a response that says that something failed.
    pub fn error() -> (response: Self)
        ensures
            response.is_new(Status::Error, 0),
    {
        Self::new(Status::Error, 0)
    }

    /// Creates a keep alive message.
    pub fn keep_alive() -> (response: Self)
        ensures
            response.is_new(Status::KeepAlive, 0),
    {
        Self::new(Status::KeepAlive, 0)
    }

    /// The status of the response.
    pub fn status(&self) -> (status: Status)
        ensures
            status == self.spec_status(),
    {
        self.status
    }

    /// Length of payload, without the header.
    pub fn length(&self) -> (length: u64)
        ensures
            length == self.spec_length(),
    {
        self.length
    }

    /// Reads a response from the start of a stream, and returns it with the number of
    /// bytes that were read. If we read a keep alive message, we throw it away and keep
    /// reading.
    pub fn read_from(stream: &[u8]) -> (result: Result<(Response, usize), MigratableError>)
        ensures
            result matches Err(e) ==> e == if has_header(
                stream@,
                Status::KeepAlive.spec_code(),
            ) {
                MigratableError::DeserializeError
            } else {
                MigratableError::MigrateSocket(SocketError::UnexpectedEof)
            },
            result is Ok <==> has_header(stream@, Status::KeepAlive.spec_code()) && header_code(
                first_header(stream@, Status::KeepAlive.spec_code()),
            ) <= 3,
            result matches Ok((response, read)) ==> {
                &&& response.decoded_from(first_header(stream@, Status::KeepAlive.spec_code()))
                &&& response.spec_status() != Status::KeepAlive
                &&& read == keep_alive_len(stream@, Status::KeepAlive.spec_code()) + HEADER_SIZE
            },
    {
        let position: usize = match find_header(stream, Status::KeepAlive.code()) {
            Some(position) => position,
            None => return Err(MigratableError::MigrateSocket(SocketError::UnexpectedEof)),
        };
        let ghost header = stream@.subrange(position as int, position + HEADER_SIZE);
        assert(stream.len() == stream@.len());
        let code: u64 = get_le(stream, position, position + 2);
        let length: u64 = get_le(stream, position + 8, position + 16);
        assert(header.subrange(0, 2) =~= stream@.subrange(position as int, position + 2));
        assert(header.subrange(8, 16) =~= stream@.subrange(position + 8, position + 16));
        proof {
            lemma_not_keep_alive(stream@, Status::KeepAlive.spec_code());
        }
        if code > 3 {
            return Err(MigratableError::DeserializeError);
        }
        match Status::from_code(code as u16) {
            Some(status) => Ok(
                (
                    Response { status, padding: get_padding(stream, position), length },
                    position + HEADER_SIZE,
                ),
            ),
            None => Err(MigratableError::DeserializeError),
        }
    }

    /// Return the response if its status is `Ok`; return the caller-provided error for any
    /// other status.
    pub fn ok_or_error(self, error: MigratableError) -> (result: Result<Response, MigratableError>)
        ensures
            self.spec_status() == Status::Okay ==> result == Ok::<Response, MigratableError>(self),
            self.spec_status() != Status::Okay ==> result == Err::<Response, MigratableError>(error),
    {
        if self.status != Status::Okay {
            return Err(error);
        }
        Ok(self)
    }

    /// Appends the response to what is sent.
    pub fn write_to(&self, out: &mut Vec<u8>)
        ensures
            final(out)@ == old(out)@ + self.bytes(),
    {
        put_header(out, self.status.code(), &self.padding, self.length);
    }
}

/// A header has its fields where the protocol has them: the number of the command in the first two
/// bytes, padding in the next six, and the length of the payload in the last eight, each number
/// with its lowest byte first. A new request has no padding but zeroes.
pub proof fn law_request_layout(request: Request, command: Command, length: u64)
    ensures
        request.bytes().len() == 16,
        request.bytes().subrange(0, 2) == le_bytes(request.spec_command().spec_code() as nat, 2),
        request.bytes().subrange(2, 8) == request.spec_padding(),
        request.bytes().subrange(8, 16) == le_bytes(request.spec_length() as nat, 8),
        request.is_new(command, length) ==> request.spec_command() == command
            && request.spec_length() == length && forall|i: int|
            2 <= i < 8 ==> #[trigger] request.bytes()[i] == 0,
{
    let bytes = request.bytes();
    lemma_header_parts(
        request.spec_command().spec_code(),
        request.spec_padding(),
        request.spec_length(),
    );
    lemma_le_bytes_len(request.spec_command().spec_code() as nat, 2);
    lemma_le_bytes_len(request.spec_length() as nat, 8);
    assert(bytes.subrange(0, 2) =~= le_bytes(request.spec_command().spec_code() as nat, 2));
    assert(bytes.subrange(8, 16) =~= le_bytes(request.spec_length() as nat, 8));
    assert(bytes.subrange(2, 8) =~= request.spec_padding());
    assert forall|i: int| 2 <= i < 8 implies #[trigger] bytes[i] == request.spec_padding()[i - 2] by {
        assert(bytes.subrange(2, 8)[i - 2] == bytes[i]);
    }
}

/// A header has its fields where the protocol has them: the number of the status in the first two
/// bytes, padding in the next six, and the length of the payload in the last eight, each number
/// with its lowest byte first. A new response has no padding but zeroes.
pub proof fn law_response_layout(response: Response, status: Status, length: u64)
    ensures
        response.bytes().len() == 16,
        response.bytes().subrange(0, 2) == le_bytes(response.spec_status().spec_code() as nat, 2),
        response.bytes().subrange(2, 8) == response.spec_padding(),
        response.bytes().subrange(8, 16) == le_bytes(response.spec_length() as nat, 8),
        response.is_new(status, length) ==> response.spec_status() == status
            && response.spec_length() == length && forall|i: int|
            2 <= i < 8 ==> #[trigger] response.bytes()[i] == 0,
{
    let bytes = response.bytes();
    lemma_header_parts(
        response.spec_status().spec_code(),
        response.spec_padding(),
        response.spec_length(),
    );
    lemma_le_bytes_len(response.spec_status().spec_code() as nat, 2);
    lemma_le_bytes_len(response.spec_length() as nat, 8);
    assert(bytes.subrange(0, 2) =~= le_bytes(response.spec_status().spec_code() as nat, 2));
    assert(bytes.subrange(8, 16) =~= le_bytes(response.spec_length() as nat, 8));
    assert(bytes.subrange(2, 8) =~= response.spec_padding());
    assert forall|i: int| 2 <= i < 8 implies #[trigger] bytes[i] == response.spec_padding()[i
        - 2] by {
        assert(bytes.subrange(2, 8)[i - 2] == bytes[i]);
    }
}

/// No two commands and no two statuses have the same number, and the numbers leave no gap.
pub proof fn law_numbers_are_distinct(a: Command, b: Command, c: Status, d: Status)
    ensures
        a.spec_code() == b.spec_code() ==> a == b,
        c.spec_code() == d.spec_code() ==> c == d,
        a.spec_code() <= 8,
        c.spec_code() <= 3,
        a == Command::Invalid <==> a.spec_code() == 0,
        c == Status::Invalid <==> c.spec_code() == 0,
        a == Command::KeepAlive <==> a.spec_code() == 8,
        c == Status::KeepAlive <==> c.spec_code() == 3,
{
}

/// What is read of a written request is that request: its bytes take up a whole header and
/// stand for it, and for no other one.
pub proof fn law_request_round_trip(request: Request, other: Request)
    ensures
        request.bytes().len() == HEADER_SIZE,
        request.decoded_from(request.bytes()),
        other.decoded_from(request.bytes()) ==> other.spec_command() == request.spec_command()
            && other.spec_length() == request.spec_length() && other.spec_padding()
            == request.spec_padding(),
{
    lemma_header_parts(
        request.spec_command().spec_code(),
        request.spec_padding(),
        request.spec_length(),
    );
}

/// What is read of a written response is that response: its bytes take up a whole header
/// and stand for it, and for no other one.
pub proof fn law_response_round_trip(response: Response, other: Response)
    ensures
        response.bytes().len() == HEADER_SIZE,
        response.decoded_from(response.bytes()),
        other.decoded_from(response.bytes()) ==> other.spec_status() == response.spec_status()
            && other.spec_length() == response.spec_length() && other.spec_padding()
            == response.spec_padding(),
{
    lemma_header_parts(
        response.spec_status().spec_code(),
        response.spec_padding(),
        response.spec_length(),
    );
}

/// A request that was read has been written just so: writing it again gives the bytes that it
/// was read from.
pub proof fn law_request_rewrites_what_was_read(request: Request, bytes: Seq<u8>)
    requires
        bytes.len() == HEADER_SIZE,
        request.decoded_from(bytes),
    ensures
        request.bytes() == bytes,
{
    lemma_header_unique(bytes, request.spec_command().spec_code(), request.spec_length());
}

/// A response that was read has been written just so: writing it again gives the bytes that
/// it was read from.
pub proof fn law_response_rewrites_what_was_read(response: Response, bytes: Seq<u8>)
    requires
        bytes.len() == HEADER_SIZE,
        response.decoded_from(bytes),
    ensures
        response.bytes() == bytes,
{
    lemma_header_unique(bytes, response.spec_status().spec_code(), response.spec_length());
}

proof fn lemma_keep_alive_prefix(message: Seq<u8>, stream: Seq<u8>, keep_alive: u16)
    requires
        message.len() == HEADER_SIZE,
        header_code(message) == keep_alive,
    ensures
        keep_alive_len(message + stream, keep_alive) == HEADER_SIZE + keep_alive_len(
            stream,
            keep_alive,
        ),
        has_header(message + stream, keep_alive) == has_header(stream, keep_alive),
        has_header(stream, keep_alive) ==> first_header(message + stream, keep_alive)
            == first_header(stream, keep_alive),
{
    let size = HEADER_SIZE as int;
    assert((message + stream).take(size) =~= message);
    assert((message + stream).skip(size) =~= stream);
    lemma_keep_alive_len(stream, keep_alive);
    if has_header(stream, keep_alive) {
        assert(first_header(message + stream, keep_alive) =~= first_header(stream, keep_alive));
    }
}

/// Keep alive messages are invisible: one more of them in front of a stream of requests
/// changes nothing but the number of bytes that are read.
pub proof fn law_request_keep_alive_is_skipped(keep_alive: Request, stream: Seq<u8>)
    requires
        keep_alive.spec_command() == Command::KeepAlive,
    ensures
        ({
            let code = Command::KeepAlive.spec_code();
            let longer = keep_alive.bytes() + stream;
            &&& keep_alive_len(longer, code) == HEADER_SIZE + keep_alive_len(stream, code)
            &&& has_header(longer, code) == has_header(stream, code)
            &&& has_header(stream, code) ==> first_header(longer, code) == first_header(
                stream,
                code,
            )
        }),
{
    law_request_round_trip(keep_alive, keep_alive);
    lemma_keep_alive_prefix(keep_alive.bytes(), stream, Command::KeepAlive.spec_code());
}

/// Keep alive messages are invisible: one more of them in front of a stream of responses
/// changes nothing but the number of bytes that are read.
pub proof fn law_response_keep_alive_is_skipped(keep_alive: Response, stream: Seq<u8>)
    requires
        keep_alive.spec_status() == Status::KeepAlive,
    ensures
        ({
            let code = Status::KeepAlive.spec_code();
            let longer = keep_alive.bytes() + stream;
            &&& keep_alive_len(longer, code) == HEADER_SIZE + keep_alive_len(stream, code)
            &&& has_header(longer, code) == has_header(stream, code)
            &&& has_header(stream, code) ==> first_header(longer, code) == first_header(
                stream,
                code,
            )
        }),
{
    law_response_round_trip(keep_alive, keep_alive);
    lemma_keep_alive_prefix(keep_alive.bytes(), stream, Status::KeepAlive.spec_code());
}

proof fn lemma_message_is_read(bytes: Seq<u8>, rest: Seq<u8>, keep_alive: u16)
    requires
        bytes.len() == HEADER_SIZE,
        header_code(bytes) != keep_alive,
    ensures
        keep_alive_len(bytes + rest, keep_alive) == 0,
        has_header(bytes + rest, keep_alive),
        first_header(bytes + rest, keep_alive) == bytes,
{
    let size = HEADER_SIZE as int;
    assert((bytes + rest).take(size) =~= bytes);
    assert(first_header(bytes + rest, keep_alive) =~= bytes);
}

/// A request that was written is what is read next, whatever follows it in the stream.
pub proof fn law_written_request_is_read(request: Request, rest: Seq<u8>)
    requires
        request.spec_command() != Command::KeepAlive,
    ensures
        ({
            let code = Command::KeepAlive.spec_code();
            let stream = request.bytes() + rest;
            &&& has_header(stream, code)
            &&& keep_alive_len(stream, code) == 0
            &&& request.decoded_from(first_header(stream, code))
        }),
{
    law_request_round_trip(request, request);
    lemma_message_is_read(request.bytes(), rest, Command::KeepAlive.spec_code());
}

/// A response that was written is what is read next, whatever follows it in the stream.
pub proof fn law_written_response_is_read(response: Response, rest: Seq<u8>)
    requires
        response.spec_status() != Status::KeepAlive,
    ensures
        ({
            let code = Status::KeepAlive.spec_code();
            let stream = response.bytes() + rest;
            &&& has_header(stream, code)
            &&& keep_alive_len(stream, code) == 0
            &&& response.decoded_from(first_header(stream, code))
        }),
{
    law_response_round_trip(response, response);
    lemma_message_is_read(response.bytes(), rest, Status::KeepAlive.spec_code());
}

} // verus!
