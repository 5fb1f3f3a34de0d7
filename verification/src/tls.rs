//! The parts of an encrypted migration connection that do not touch the connection: the
//! name of the server, the progress of a handshake, and the buffer between guest memory
//! and the stream.

use rustls::pki_types::{InvalidDnsNameError, ServerName};
use vstd::prelude::*;

verus! {

/// The name of a server, as `rustls` checks it against a certificate.
#[verifier::external_type_specification]
#[verifier::external_body]
pub struct ExServerName<'a>(rustls::pki_types::ServerName<'a>);

/// The error of `rustls` for a name that is not a valid one.
#[verifier::external_type_specification]
#[verifier::external_body]
pub struct ExInvalidDnsNameError(rustls::pki_types::InvalidDnsNameError);

/// Errors of an encrypted connection.
#[derive(Debug)]
pub enum TlsError {
    /// The provided input could not be parsed because it is not a syntactically-valid DNS
    /// name.
    InvalidDnsName(InvalidDnsNameError),
    /// Protocol error.
    RustlsError,
    /// IO error.
    RustlsIoError,
    /// Error during TLS handshake.
    HandshakeError(String),
    /// Error handling PEM file.
    RustlsPemError,
}

/// What `rustls` makes of the name of a server.
pub uninterp spec fn parsed_server_name(hostname: Seq<char>) -> Result<
    ServerName<'static>,
    InvalidDnsNameError,
>;

/// Parses the name of a server with the `TryFrom<String>` of
/// `rustls::pki_types::ServerName`. The result is claimed to depend on the name alone.
#[verifier::external_body]
fn parse_server_name(hostname: &str) -> (result: Result<ServerName<'static>, InvalidDnsNameError>)
    ensures
        result == parsed_server_name(hostname@),
{
    ServerName::try_from(hostname.to_string())
}

/// Turns what `rustls` makes of the name of a server into the result for the caller.
pub fn server_name_result(parsed: Result<ServerName<'static>, InvalidDnsNameError>) -> (result:
    Result<ServerName<'static>, TlsError>)
    ensures
        match parsed {
            Ok(name) => result == Ok::<ServerName<'static>, TlsError>(name),
            Err(e) => result == Err::<ServerName<'static>, TlsError>(TlsError::InvalidDnsName(e)),
        },
{
    match parsed {
        Ok(name) => Ok(name),
        Err(e) => Err(TlsError::InvalidDnsName(e)),
    }
}

/// The name of the server that a client connects to.
pub fn server_name(hostname: &str) -> (result: Result<ServerName<'static>, TlsError>)
    ensures
        match parsed_server_name(hostname@) {
            Ok(name) => result == Ok::<ServerName<'static>, TlsError>(name),
            Err(e) => result == Err::<ServerName<'static>, TlsError>(TlsError::InvalidDnsName(e)),
        },
{
    server_name_result(parse_server_name(hostname))
}

/// Decides whether a handshake goes on, given how many bytes were read and written: a
/// connection on which nothing moves has ended.
pub fn handshake_step(read: usize, written: usize) -> (result: Result<(), TlsError>)
    ensures
        !(read == 0 && written == 0) ==> result == Ok::<(), TlsError>(()),
        (read == 0 && written == 0) ==> (result matches Err(TlsError::HandshakeError(message))
            && message@ == "EOF during TLS handshake"@),
{
    if read == 0 && written == 0 {
        return Err(TlsError::HandshakeError("EOF during TLS handshake".to_owned()));
    }
    Ok(())
}

/// The largest number of bytes that are moved at once.
pub const MAX_CHUNK: usize = 65536;

/// The buffer between guest memory and the stream. Allocating it for each transfer would
/// make it very slow.
#[derive(Debug)]
pub struct TransferBuffer {
    buf: Vec<u8>,
}

impl View for TransferBuffer {
    type V = Seq<u8>;

    closed spec fn view(&self) -> Seq<u8> {
        self.buf@
    }
}

/// The number of bytes that a transfer moves at once.
pub open spec fn chunk_len(len: usize) -> usize {
    if len < MAX_CHUNK {
        len
    } else {
        MAX_CHUNK
    }
}

impl TransferBuffer {
    /// Creates an empty buffer.
    pub fn new() -> (buffer: Self)
        ensures
            buffer@.len() == 0,
    {
        TransferBuffer { buf: Vec::new() }
    }

    /// Makes room for a transfer of up to `len` bytes, and returns how many are moved. The
    /// buffer never shrinks here, and keeps its bytes.
    pub fn begin(&mut self, len: usize) -> (chunk: usize)
        ensures
            chunk == chunk_len(len),
            chunk <= len,
            chunk <= 65536,
            chunk == len || chunk == 65536,
            chunk <= final(self)@.len(),
            final(self)@.len() == (if old(self)@.len() < chunk {
                chunk as nat
            } else {
                old(self)@.len()
            }),
            final(self)@.take(old(self)@.len() as int) == old(self)@,
            forall|i: int| old(self)@.len() <= i < final(self)@.len() ==> final(self)@[i] == 0,
    {
        let chunk: usize = if len < MAX_CHUNK {
            len
        } else {
            MAX_CHUNK
        };
        if self.buf.len() < chunk {
            self.buf.resize(chunk, 0);
        }
        assert(self@.take(old(self)@.len() as int) =~= old(self)@);
        chunk
    }

    /// The first `len` bytes of the buffer.
    pub fn chunk(&self, len: usize) -> (chunk: &[u8])
        requires
            len <= self@.len(),
        ensures
            chunk@ == self@.take(len as int),
    {
        vstd::slice::slice_subrange(self.buf.as_slice(), 0, len)
    }

    /// The first `len` bytes of the buffer, to be overwritten.
    pub fn chunk_mut(&mut self, len: usize) -> (chunk: &mut [u8])
        requires
            len <= old(self)@.len(),
        ensures
            chunk@ == old(self)@.take(len as int),
            final(self)@ == final(chunk)@ + old(self)@.skip(len as int),
    {
        let (chunk, _rest) = self.buf.as_mut_slice().split_at_mut(len);
        chunk
    }

    /// Ends a transfer of this number of bytes. The buffer is emptied if there were any.
    pub fn end(&mut self, moved: usize)
        ensures
            final(self)@ == if moved == 0 {
                old(self)@
            } else {
                Seq::<u8>::empty()
            },
    {
        if moved != 0 {
            self.buf.clear();
        }
    }
}

} // verus!
