//! The transport capability interfaces.
//!
//! `Connection` mirrors the part of a duplex byte-stream socket that the
//! request driver cares about: write, start a streaming read, receive the
//! next chunk, stop the read.  `ConnectionFactory` abstracts establishing a
//! `Connection` for an address and port.  The driver is generic over both,
//! so deterministic in-process doubles (`MockConnection`,
//! `MockConnectionFactory`) substitute for real sockets; the adapter that
//! forwards these operations to the process-wide I/O event loop performs
//! runtime I/O and therefore lives with the embedding application, tagged
//! here by `UvConnectionFactory`.
//!
//! Each trait carries spec hooks — the chunks a connection still delivers,
//! whether its write and read-start succeed, how its stream ends — whose
//! defaults leave everything unspecified; an implementation inside this
//! crate overrides them with the real criteria, and the driver's contract
//! is stated over them.

use vstd::prelude::*;
use vstd::string::StringExecFns;
use crate::address::Address;

verus! {

/// An error reported by the transport during write or read.
/// A read error whose `err_name` is exactly `"EOF"` is the in-band signal
/// for the normal end of the stream.
#[derive(Clone, Debug)]
pub struct TransportError {
    pub err_name: String,
    pub err_msg: String,
}

/// An error reported by the transport when a connection cannot be
/// established.
#[derive(Clone, Debug)]
pub enum ConnectError {
    GenericConnectErr(String, String),
    ConnectionRefused,
}

/// Whether a transport error is the end-of-stream sentinel.
pub open spec fn is_eof_error(e: TransportError) -> bool {
    e.err_name@ == "EOF"@
}

/// Decide whether a read error is the end-of-stream sentinel, by its name.
pub fn is_eof(e: &TransportError) -> (r: bool)
    ensures
        r == is_eof_error(*e),
{
    let sentinel = String::from_str("EOF");
    e.err_name == sentinel
}

fn clone_transport_error(e: &TransportError) -> (r: TransportError)
    ensures
        r == *e,
{
    let r = TransportError { err_name: e.err_name.clone(), err_msg: e.err_msg.clone() };
    proof {
        assert(r == *e);
    }
    r
}

fn clone_transport_error_option(e: &Option<TransportError>) -> (r: Option<TransportError>)
    ensures
        r == *e,
{
    match e {
        None => None,
        Some(inner) => Some(clone_transport_error(inner)),
    }
}

fn clone_connect_error(e: &ConnectError) -> (r: ConnectError)
    ensures
        r == *e,
{
    match e {
        ConnectError::GenericConnectErr(name, msg) => ConnectError::GenericConnectErr(
            name.clone(),
            msg.clone(),
        ),
        ConnectError::ConnectionRefused => ConnectError::ConnectionRefused,
    }
}

fn clone_bytes(v: &Vec<u8>) -> (r: Vec<u8>)
    ensures
        r@ == v@,
{
    let mut r: Vec<u8> = Vec::new();
    let mut i: usize = 0;
    while i < v.len()
        invariant
            i <= v@.len(),
            r@ == v@.subrange(0, i as int),
        decreases v@.len() - i,
    {
        r.push(v[i]);
        i = i + 1;
        proof {
            assert(r@ =~= v@.subrange(0, i as int));
        }
    }
    proof {
        assert(v@.subrange(0, v@.len() as int) =~= v@);
    }
    r
}

fn clone_chunks(v: &Vec<Vec<u8>>) -> (r: Vec<Vec<u8>>)
    ensures
        r@.len() == v@.len(),
        forall|i: int| 0 <= i < v@.len() ==> (#[trigger] r@[i])@ == v@[i]@,
{
    let mut r: Vec<Vec<u8>> = Vec::new();
    let mut i: usize = 0;
    while i < v.len()
        invariant
            i <= v@.len(),
            r@.len() == i,
            forall|j: int| 0 <= j < i ==> (#[trigger] r@[j])@ == v@[j]@,
        decreases v@.len() - i,
    {
        r.push(clone_bytes(&v[i]));
        i = i + 1;
    }
    r
}

/// The live subscription obtained from a successful `read_start_`.  It is
/// owned by the in-flight request alone and is surrendered by `read_stop_`,
/// so a read is stopped at most once per start.
pub struct ReadHandle {
    _private: (),
}

/// Make the subscription token for a read that has just been started.
pub fn make_read_handle() -> ReadHandle {
    ReadHandle { _private: () }
}

/// An abstract client socket connection: the bits of a TCP socket interface
/// the driver cares about, admitting mock implementations.
///
/// `stream_spec` is the sequence of chunks the connection still delivers
/// before its stream ends; `write_ok_spec` and `read_start_ok_spec` say
/// whether write and read-start succeed; `eof_at_end_spec` says whether
/// the stream ends in the end-of-stream sentinel or in a genuine error.
/// All four default to nothing in particular; an implementation inside
/// this crate overrides them, and the driver's behaviour is then fixed by
/// them.
pub trait Connection: Sized {
    /// The chunks still to be delivered, in order.
    open spec fn stream_spec(&self) -> Seq<Seq<u8>> {
        arbitrary()
    }

    /// Whether a write on this connection succeeds.
    open spec fn write_ok_spec(&self) -> bool {
        arbitrary()
    }

    /// Whether starting the streaming read succeeds.
    open spec fn read_start_ok_spec(&self) -> bool {
        arbitrary()
    }

    /// Whether the stream ends in the end-of-stream sentinel (rather than
    /// in a genuine read error).
    open spec fn eof_at_end_spec(&self) -> bool {
        arbitrary()
    }

    /// Send bytes; fails if the underlying transport reports any write
    /// error.
    fn write_(&mut self, data: Vec<u8>) -> (r: Result<(), TransportError>)
        ensures
            r is Ok <==> old(self).write_ok_spec(),
            final(self).stream_spec() == old(self).stream_spec(),
            final(self).read_start_ok_spec() == old(self).read_start_ok_spec(),
            final(self).eof_at_end_spec() == old(self).eof_at_end_spec(),
    ;

    /// Begin streaming delivery of received byte chunks.
    fn read_start_(&mut self) -> (r: Result<ReadHandle, TransportError>)
        ensures
            r is Ok <==> old(self).read_start_ok_spec(),
            final(self).stream_spec() == old(self).stream_spec(),
            final(self).eof_at_end_spec() == old(self).eof_at_end_spec(),
    ;

    /// Block until the next chunk, or an error; while chunks remain, the
    /// head of the stream is delivered, and once the stream is exhausted,
    /// the error named `"EOF"` signals the normal end exactly when the
    /// stream ends normally.
    fn recv_(&mut self, read_port: &ReadHandle) -> (r: Result<Vec<u8>, TransportError>)
        ensures
            old(self).stream_spec().len() > 0 ==> ({
                &&& r matches Ok(chunk)
                &&& chunk@ == old(self).stream_spec()[0]
                &&& final(self).stream_spec() == old(self).stream_spec().drop_first()
                &&& final(self).eof_at_end_spec() == old(self).eof_at_end_spec()
            }),
            old(self).stream_spec().len() == 0 ==> ({
                &&& r matches Err(e)
                &&& is_eof_error(e) == old(self).eof_at_end_spec()
            }),
    ;

    /// Terminate delivery, surrendering the subscription.
    fn read_stop_(&mut self, read_port: ReadHandle) -> Result<(), TransportError>;
}

/// Establishes a `Connection` given an address and a port.
///
/// `connect_ok_spec` fixes, per factory value, on which address/port pairs
/// a connection attempt succeeds, and `connection_spec` what the handed-out
/// connection behaves like: the factory is stateless and reusable across
/// requests, so repeated attempts agree.
pub trait ConnectionFactory: Sized {
    type Conn: Connection;

    /// Whether connecting to this address and port succeeds.  The default
    /// leaves the outcome unspecified; an implementation inside this crate
    /// overrides it with the real criterion.
    open spec fn connect_ok_spec(&self, ip: Address, port: u16) -> bool {
        arbitrary()
    }

    /// What the connection handed out for this address and port behaves
    /// like.  The default leaves it unspecified; an implementation inside
    /// this crate overrides it.
    open spec fn connection_spec(&self, ip: Address, port: u16) -> Self::Conn {
        arbitrary()
    }

    /// Establish a connection; fails exactly when the transport cannot
    /// reach the address and port, and otherwise hands out a connection
    /// that behaves as `connection_spec` says.
    fn connect(&self, ip: Address, port: u16) -> (r: Result<Self::Conn, ConnectError>)
        ensures
            r is Ok <==> self.connect_ok_spec(ip, port),
            r matches Ok(c) ==> ({
                &&& c.stream_spec() == self.connection_spec(ip, port).stream_spec()
                &&& c.write_ok_spec() == self.connection_spec(ip, port).write_ok_spec()
                &&& c.read_start_ok_spec() == self.connection_spec(ip, port).read_start_ok_spec()
                &&& c.eof_at_end_spec() == self.connection_spec(ip, port).eof_at_end_spec()
            }),
    ;
}

/// Tag for the connection factory backed by the process-wide I/O event
/// loop.  Socket work is runtime I/O, which this verified core cannot
/// perform itself; the embedding application interprets this tag by
/// supplying its own `ConnectionFactory` adapter over the real transport.
pub enum UvConnectionFactory {
    UvConnectionFactory,
}

/// A connection double driven by pre-programmed results: it reports the
/// scripted write, read-start and read-stop outcomes, delivers the
/// scripted chunks in order, then reports the scripted terminal error.
#[derive(Debug)]
pub struct MockConnection {
    /// `None` makes `write_` succeed; `Some(e)` makes it fail with `e`.
    pub write_error: Option<TransportError>,
    /// `None` makes `read_start_` succeed; `Some(e)` makes it fail with `e`.
    pub read_start_error: Option<TransportError>,
    /// `None` makes `read_stop_` succeed; `Some(e)` makes it fail with `e`.
    pub read_stop_error: Option<TransportError>,
    /// The chunks delivered by successive receives, in order.
    pub chunks: Vec<Vec<u8>>,
    /// The error returned once the chunks are exhausted; name it `"EOF"`
    /// for a stream that ends normally.
    pub terminal_error: TransportError,
    /// How many chunks have been delivered so far.
    pub delivered: usize,
}

/// The two doubles behave alike: same scripted outcomes, same chunk bytes
/// still to deliver, same terminal error.
pub open spec fn mock_connection_like(a: MockConnection, b: MockConnection) -> bool {
    &&& a.write_error == b.write_error
    &&& a.read_start_error == b.read_start_error
    &&& a.read_stop_error == b.read_stop_error
    &&& a.terminal_error == b.terminal_error
    &&& a.delivered == b.delivered
    &&& a.chunks@.map_values(|c: Vec<u8>| c@) == b.chunks@.map_values(|c: Vec<u8>| c@)
}

fn clone_mock_connection(c: &MockConnection) -> (r: MockConnection)
    ensures
        mock_connection_like(r, *c),
{
    let r = MockConnection {
        write_error: clone_transport_error_option(&c.write_error),
        read_start_error: clone_transport_error_option(&c.read_start_error),
        read_stop_error: clone_transport_error_option(&c.read_stop_error),
        chunks: clone_chunks(&c.chunks),
        terminal_error: clone_transport_error(&c.terminal_error),
        delivered: c.delivered,
    };
    proof {
        assert(r.chunks@.map_values(|ch: Vec<u8>| ch@) =~= c.chunks@.map_values(
            |ch: Vec<u8>| ch@,
        ));
    }
    r
}

impl Connection for MockConnection {
    open spec fn stream_spec(&self) -> Seq<Seq<u8>> {
        if self.delivered <= self.chunks@.len() {
            self.chunks@.map_values(|c: Vec<u8>| c@).skip(self.delivered as int)
        } else {
            Seq::empty()
        }
    }

    open spec fn write_ok_spec(&self) -> bool {
        self.write_error is None
    }

    open spec fn read_start_ok_spec(&self) -> bool {
        self.read_start_error is None
    }

    open spec fn eof_at_end_spec(&self) -> bool {
        is_eof_error(self.terminal_error)
    }

    fn write_(&mut self, data: Vec<u8>) -> (r: Result<(), TransportError>)
        ensures
            r matches Err(e) ==> old(self).write_error == Some(e),
            *final(self) == *old(self),
    {
        match &self.write_error {
            None => Ok(()),
            Some(e) => Err(clone_transport_error(e)),
        }
    }

    fn read_start_(&mut self) -> (r: Result<ReadHandle, TransportError>)
        ensures
            r matches Err(e) ==> old(self).read_start_error == Some(e),
            *final(self) == *old(self),
    {
        match &self.read_start_error {
            None => Ok(make_read_handle()),
            Some(e) => Err(clone_transport_error(e)),
        }
    }

    fn recv_(&mut self, read_port: &ReadHandle) -> (r: Result<Vec<u8>, TransportError>)
        ensures
            old(self).delivered < old(self).chunks@.len() ==> ({
                &&& r matches Ok(chunk)
                &&& chunk@ == old(self).chunks@[old(self).delivered as int]@
                &&& final(self).delivered == old(self).delivered + 1
            }),
            old(self).delivered >= old(self).chunks@.len() ==> ({
                &&& r matches Err(e)
                &&& e == old(self).terminal_error
                &&& *final(self) == *old(self)
            }),
    {
        if self.delivered < self.chunks.len() {
            let chunk = clone_bytes(&self.chunks[self.delivered]);
            self.delivered = self.delivered + 1;
            proof {
                assert(self.stream_spec() =~= old(self).stream_spec().drop_first());
            }
            Ok(chunk)
        } else {
            Err(clone_transport_error(&self.terminal_error))
        }
    }

    fn read_stop_(&mut self, read_port: ReadHandle) -> (r: Result<(), TransportError>)
        ensures
            r is Ok <==> old(self).read_stop_error is None,
            r matches Err(e) ==> old(self).read_stop_error == Some(e),
            *final(self) == *old(self),
    {
        match &self.read_stop_error {
            None => Ok(()),
            Some(e) => Err(clone_transport_error(e)),
        }
    }
}

/// A factory double whose `connect` hands out a copy of the scripted
/// result, whatever the address and port.
#[derive(Debug)]
pub struct MockConnectionFactory {
    /// The outcome of every connection attempt: a template connection, or
    /// the error to report.
    pub connect_result: Result<MockConnection, ConnectError>,
}

impl ConnectionFactory for MockConnectionFactory {
    type Conn = MockConnection;

    open spec fn connect_ok_spec(&self, ip: Address, port: u16) -> bool {
        self.connect_result is Ok
    }

    open spec fn connection_spec(&self, ip: Address, port: u16) -> MockConnection {
        match self.connect_result {
            Ok(template) => template,
            Err(_) => arbitrary(),
        }
    }

    fn connect(&self, ip: Address, port: u16) -> (r: Result<MockConnection, ConnectError>)
        ensures
            r matches Ok(c) ==> ({
                &&& self.connect_result matches Ok(template)
                &&& mock_connection_like(c, template)
            }),
            r matches Err(e) ==> ({
                &&& self.connect_result matches Err(scripted)
                &&& e == scripted
            }),
    {
        match &self.connect_result {
            Ok(template) => {
                let c = clone_mock_connection(template);
                proof {
                    assert(c.stream_spec() =~= self.connection_spec(ip, port).stream_spec());
                }
                Ok(c)
            },
            Err(e) => Err(clone_connect_error(e)),
        }
    }
}

} // verus!
