//! Stream and datagram sockets, and name resolution.
//!
//! The traits state what every backend owes its callers. A handle is a plain
//! value; the connections and queues it refers to live in the backend's
//! network, which each operation takes beside the handle. No operation is
//! retried: every failure goes to the caller.

use crate::poll::Poll;
use vstd::prelude::*;
use vstd::string::*;

pub mod laws;
pub mod model;
pub mod network;
pub mod resolver;

verus! {

/// `std::io::Error`, declared so that it can stand in [`Error::Io`]. Nothing
/// is claimed of it: the library carries it through and never looks inside.
#[verifier::external_type_specification]
#[verifier::external_body]
pub struct ExIoError(std::io::Error);

/// An IP address: the 32 bits of a version 4 address or the 128 bits of a
/// version 6 address, most significant octet first.
#[derive(Debug, Clone, Copy, PartialEq, Eq, Structural)]
pub enum IpAddr {
    V4(u32),
    V6(u128),
}

/// An IP address and a port.
#[derive(Debug, Clone, Copy, PartialEq, Eq, Structural)]
pub struct SocketAddr {
    pub ip: IpAddr,
    pub port: u16,
}

impl SocketAddr {
    /// The address made of `ip` and `port`.
    pub fn new(ip: IpAddr, port: u16) -> (addr: SocketAddr)
        ensures
            addr == (SocketAddr { ip, port }),
    {
        SocketAddr { ip, port }
    }
}

/// Socket errors.
#[derive(Debug)]
pub enum Error {
    AddressInUse,
    AddressNotAvailable,
    ConnectionRefused,
    ConnectionReset,
    ConnectionAborted,
    NotConnected,
    Timeout,
    Access,
    Io(std::io::Error),
    Other(String),
}

impl Error {
    /// The text that describes this error, where `detail` is the text of
    /// the error that `Io` carries.
    pub open spec fn text_with(&self, detail: Seq<char>) -> Seq<char> {
        match self {
            Error::AddressInUse => "address in use"@,
            Error::AddressNotAvailable => "address not available"@,
            Error::ConnectionRefused => "connection refused"@,
            Error::ConnectionReset => "connection reset"@,
            Error::ConnectionAborted => "connection aborted"@,
            Error::NotConnected => "not connected"@,
            Error::Timeout => "timeout"@,
            Error::Access => "access denied"@,
            Error::Io(_) => "I/O error: "@ + detail,
            Error::Other(s) => s@,
        }
    }

    /// Describes the error in words, with `detail` for the error that `Io`
    /// carries.
    pub fn to_string_with(&self, detail: &str) -> (s: String)
        ensures
            s@ == self.text_with(detail@),
    {
        match self {
            Error::AddressInUse => "address in use".to_owned(),
            Error::AddressNotAvailable => "address not available".to_owned(),
            Error::ConnectionRefused => "connection refused".to_owned(),
            Error::ConnectionReset => "connection reset".to_owned(),
            Error::ConnectionAborted => "connection aborted".to_owned(),
            Error::NotConnected => "not connected".to_owned(),
            Error::Timeout => "timeout".to_owned(),
            Error::Access => "access denied".to_owned(),
            Error::Io(_) => "I/O error: ".to_owned().concat(detail),
            Error::Other(s) => s.clone(),
        }
    }

    /// Describes the error in words. For `Io` the words are those of the
    /// standard library for the error it carries, behind `I/O error: `.
    pub fn to_string(&self) -> (s: String)
        ensures
            exists|detail: Seq<char>| s@ == self.text_with(detail),
            !(self is Io) ==> forall|detail: Seq<char>| s@ == self.text_with(detail),
    {
        match self {
            Error::Io(e) => {
                let detail = e.to_string();
                self.to_string_with(detail.as_str())
            },
            _ => self.to_string_with(""),
        }
    }
}

impl From<std::io::Error> for Error {
    fn from(e: std::io::Error) -> (r: Error) {
        Error::Io(e)
    }
}

impl vstd::std_specs::convert::FromSpecImpl<std::io::Error> for Error {
    open spec fn obeys_from_spec() -> bool {
        true
    }

    open spec fn from_spec(e: std::io::Error) -> Error {
        Error::Io(e)
    }
}

/// The smaller of two lengths.
pub open spec fn least(a: nat, b: nat) -> nat {
    if a <= b {
        a
    } else {
        b
    }
}

/// What one end of a connection observes.
pub struct Connection {
    /// The address of this end.
    pub local: SocketAddr,
    /// The address of the other end.
    pub peer: SocketAddr,
    /// The bytes that the peer has written and this end has not yet read,
    /// in the order in which they were written.
    pub unread: Seq<u8>,
    /// This end was shut down.
    pub shut: bool,
    /// The other end was shut down: it writes nothing more.
    pub peer_shut: bool,
}

impl Connection {
    /// Whether a read finds the end of the stream: nothing is left to read
    /// and nothing more can come.
    pub open spec fn at_end(self) -> bool {
        self.unread.len() == 0 && (self.shut || self.peer_shut)
    }

    /// This end after `n` bytes were read.
    pub open spec fn consume(self, n: nat) -> Connection {
        Connection { unread: self.unread.skip(n as int), ..self }
    }

    /// This end after the peer wrote `bytes`.
    pub open spec fn supply(self, bytes: Seq<u8>) -> Connection {
        Connection { unread: self.unread + bytes, ..self }
    }

    /// What `read` may do with a buffer that held `before` and holds `after`
    /// when it returns. A read that transfers `n` bytes takes the `n` oldest
    /// unread bytes into the front of the buffer and leaves the rest of the
    /// buffer alone; it may transfer fewer than there is room for, but
    /// transfers none only into an empty buffer or at the end of the stream.
    /// A read waits only where nothing is unread and more may come. A read
    /// that fails or waits changes nothing.
    pub open spec fn read_allows(
        self,
        before: Seq<u8>,
        result: Poll<Result<usize, Error>>,
        after: Seq<u8>,
        then: Connection,
    ) -> bool {
        match result {
            Poll::Ready(Ok(n)) => {
                &&& n <= before.len()
                &&& n <= self.unread.len()
                &&& after == self.unread.take(n as int) + before.skip(n as int)
                &&& then == self.consume(n as nat)
                &&& n == 0 ==> before.len() == 0 || self.at_end()
            },
            Poll::Ready(Err(_)) => after == before && then == self,
            Poll::Pending => {
                &&& after == before
                &&& then == self
                &&& before.len() > 0
                &&& self.unread.len() == 0
                &&& !self.at_end()
            },
        }
    }

    /// What `write` may do for the end that writes. After `shutdown` it
    /// fails with `NotConnected`. It never takes more bytes than it was
    /// given, and leaves what this end observes as it was.
    pub open spec fn write_allows(
        self,
        bytes: Seq<u8>,
        result: Poll<Result<usize, Error>>,
        then: Connection,
    ) -> bool {
        &&& then == self
        &&& self.shut ==> result == Poll::Ready(Err::<usize, Error>(Error::NotConnected))
        &&& result matches Poll::Ready(Ok(n)) ==> n <= bytes.len() && !self.shut
    }

    /// What `shutdown` may do. It either succeeds and leaves this end shut
    /// down, with what was unread still there to be read; or, on an end that
    /// was shut down before, fails with `NotConnected` and changes nothing.
    pub open spec fn shutdown_allows(self, result: Result<(), Error>, then: Connection) -> bool {
        match result {
            Ok(()) => then == (Connection { shut: true, ..self }),
            Err(Error::NotConnected) => self.shut && then == self,
            Err(_) => then == self,
        }
    }
}

/// The bytes that a write took, as the peer gets them.
pub open spec fn written(bytes: Seq<u8>, result: Poll<Result<usize, Error>>) -> Seq<u8> {
    match result {
        Poll::Ready(Ok(n)) => bytes.take(n as int),
        _ => Seq::empty(),
    }
}

/// A connected TCP stream.
pub trait TcpStream: Sized {
    /// The state that holds the connections of this backend.
    type Net;

    /// What this end observes, if it is an end of a connection.
    spec fn connection(&self, net: &Self::Net) -> Option<Connection>;

    /// Whether `other` is the other end of this end's connection.
    spec fn faces(&self, net: &Self::Net, other: &Self) -> bool;

    /// Read data from the stream. `Ok(0)` is the orderly end of the stream,
    /// not an error.
    fn read(&mut self, net: &mut Self::Net, buf: &mut [u8]) -> (r: Poll<Result<usize, Error>>)
        ensures
            *final(self) == *old(self),
            final(buf)@.len() == old(buf)@.len(),
            match old(self).connection(old(net)) {
                Some(c) => final(self).connection(final(net)) matches Some(then) && c.read_allows(
                    old(buf)@,
                    r,
                    final(buf)@,
                    then,
                ),
                None => {
                    &&& r matches Poll::Ready(Err(_))
                    &&& final(buf)@ == old(buf)@
                    &&& final(self).connection(final(net)) is None
                },
            },
    ;

    /// Write data to the stream. What is taken goes to the other end, behind
    /// what it has not yet read.
    fn write(&mut self, net: &mut Self::Net, buf: &[u8]) -> (r: Poll<Result<usize, Error>>)
        ensures
            *final(self) == *old(self),
            match old(self).connection(old(net)) {
                Some(c) => final(self).connection(final(net)) matches Some(then) && c.write_allows(
                    buf@,
                    r,
                    then,
                ),
                None => r matches Poll::Ready(Err(_)) && final(self).connection(final(net))
                    is None,
            },
            forall|other: Self| #[trigger]
                old(self).faces(old(net), &other) ==> other.connection(final(net)) == Some(
                    other.connection(old(net)).unwrap().supply(written(buf@, r)),
                ),
    ;

    /// Flush the stream. Nothing that either end observes changes.
    fn flush(&mut self, net: &mut Self::Net) -> (r: Poll<Result<(), Error>>)
        ensures
            *final(self) == *old(self),
            forall|any: Self| #[trigger]
                any.connection(final(net)) == any.connection(old(net)),
    ;

    /// Shutdown the stream. The other end finds the end of the stream once
    /// it has read what was written before.
    fn shutdown(&mut self, net: &mut Self::Net) -> (r: Result<(), Error>)
        ensures
            *final(self) == *old(self),
            match old(self).connection(old(net)) {
                Some(c) => final(self).connection(final(net)) matches Some(then)
                    && c.shutdown_allows(r, then),
                None => r is Err && final(self).connection(final(net)) is None,
            },
            forall|other: Self| #[trigger]
                old(self).faces(old(net), &other) && r is Ok ==> other.connection(final(net))
                    == Some(
                    Connection { peer_shut: true, ..other.connection(old(net)).unwrap() },
                ),
    ;

    /// Get the local address.
    fn local_addr(&self, net: &Self::Net) -> (r: Result<SocketAddr, Error>)
        ensures
            match self.connection(net) {
                Some(c) => r matches Ok(addr) ==> addr == c.local,
                None => r is Err,
            },
    ;

    /// Get the remote address.
    fn peer_addr(&self, net: &Self::Net) -> (r: Result<SocketAddr, Error>)
        ensures
            match self.connection(net) {
                Some(c) => r matches Ok(addr) ==> addr == c.peer,
                None => r is Err,
            },
    ;
}

/// A TCP socket that can connect to a remote address.
pub trait TcpConnect {
    /// The state that holds the connections of this backend.
    type Net;

    type Stream: TcpStream<Net = Self::Net>;

    /// Connect to a remote address, in one attempt. A stream that comes back
    /// is an end of a new connection to `addr`: open, with nothing to read.
    fn connect(&self, net: &mut Self::Net, addr: SocketAddr) -> (r: Poll<
        Result<Self::Stream, Error>,
    >)
        ensures
            match r {
                Poll::Ready(Ok(stream)) => {
                    &&& stream.connection(final(net)) matches Some(c)
                    &&& c.peer == addr
                    &&& c.unread.len() == 0
                    &&& !c.shut
                    &&& !c.peer_shut
                },
                _ => true,
            },
    ;
}

/// A TCP listener that accepts connections.
pub trait TcpListen: Sized {
    /// The state that holds the connections of this backend.
    type Net;

    type Stream: TcpStream<Net = Self::Net>;

    /// Whether a listener is bound to `addr`.
    spec fn taken(net: &Self::Net, addr: SocketAddr) -> bool;

    /// The address this listener is bound to, while it is.
    spec fn bound_to(&self, net: &Self::Net) -> Option<SocketAddr>;

    /// Bind to a local address. An address that a listener is bound to is
    /// refused with `AddressInUse`. Port 0 asks for a port that is free. The
    /// listener that comes back is bound to an address that was free, the
    /// one asked for if it named a port.
    fn bind(net: &mut Self::Net, addr: SocketAddr) -> (r: Result<Self, Error>)
        ensures
            addr.port != 0 && Self::taken(old(net), addr) ==> r matches Err(Error::AddressInUse),
            match r {
                Ok(listener) => {
                    &&& listener.bound_to(final(net)) matches Some(at)
                    &&& at.ip == addr.ip
                    &&& at.port != 0
                    &&& addr.port != 0 ==> at == addr
                    &&& !Self::taken(old(net), at)
                    &&& Self::taken(final(net), at)
                },
                Err(Error::AddressInUse) => addr.port != 0 && Self::taken(old(net), addr),
                Err(_) => true,
            },
    ;

    /// Accept a connection. The stream that comes back is this side's end
    /// of it, and the address is that of the side that connected.
    fn accept(&self, net: &mut Self::Net) -> (r: Poll<Result<(Self::Stream, SocketAddr), Error>>)
        ensures
            self.bound_to(final(net)) == self.bound_to(old(net)),
            match r {
                Poll::Ready(Ok((stream, from))) => {
                    &&& self.bound_to(old(net)) matches Some(at)
                    &&& stream.connection(final(net)) matches Some(c)
                    &&& c.local == at
                    &&& c.peer == from
                },
                Poll::Ready(Err(_)) => true,
                Poll::Pending => self.bound_to(old(net)) is Some,
            },
    ;

    /// Get the local address.
    fn local_addr(&self, net: &Self::Net) -> (r: Result<SocketAddr, Error>)
        ensures
            match self.bound_to(net) {
                Some(at) => r matches Ok(addr) ==> addr == at,
                None => r is Err,
            },
    ;
}

/// What a datagram socket observes.
pub struct Mailbox {
    /// The address of the socket.
    pub local: SocketAddr,
    /// The datagrams that have arrived and were not yet received, each with
    /// the address it came from, oldest first.
    pub waiting: Seq<(Seq<u8>, SocketAddr)>,
}

impl Mailbox {
    /// What `recv_from` may do with a buffer that held `before` and holds
    /// `after` when it returns. It takes the oldest datagram that waits:
    /// as much of it as the buffer has room for goes into the front of the
    /// buffer, the rest of it is lost, and its sender's address comes back
    /// with the number of bytes. It waits only where none waits. A call
    /// that fails or waits changes nothing.
    pub open spec fn recv_allows(
        self,
        before: Seq<u8>,
        result: Poll<Result<(usize, SocketAddr), Error>>,
        after: Seq<u8>,
        then: Mailbox,
    ) -> bool {
        match result {
            Poll::Ready(Ok((n, from))) => {
                &&& self.waiting.len() > 0
                &&& n == least(before.len(), self.waiting[0].0.len())
                &&& from == self.waiting[0].1
                &&& after == self.waiting[0].0.take(n as int) + before.skip(n as int)
                &&& then == (Mailbox { waiting: self.waiting.drop_first(), ..self })
            },
            Poll::Ready(Err(_)) => after == before && then == self,
            Poll::Pending => after == before && then == self && self.waiting.len() == 0,
        }
    }
}

/// A UDP socket.
pub trait UdpSocket: Sized {
    /// The state that holds the sockets of this backend.
    type Net;

    /// Whether a socket is bound to `addr`.
    spec fn taken(net: &Self::Net, addr: SocketAddr) -> bool;

    /// What this socket observes, while it is bound.
    spec fn mailbox(&self, net: &Self::Net) -> Option<Mailbox>;

    /// Bind to a local address. An address that a socket is bound to is
    /// refused with `AddressInUse`. Port 0 asks for a port that is free. The
    /// socket that comes back is bound to an address that was free, the one
    /// asked for if it named a port, and nothing waits for it.
    fn bind(net: &mut Self::Net, addr: SocketAddr) -> (r: Result<Self, Error>)
        ensures
            addr.port != 0 && Self::taken(old(net), addr) ==> r matches Err(Error::AddressInUse),
            match r {
                Ok(socket) => {
                    &&& socket.mailbox(final(net)) matches Some(m)
                    &&& m.waiting.len() == 0
                    &&& m.local.ip == addr.ip
                    &&& m.local.port != 0
                    &&& addr.port != 0 ==> m.local == addr
                    &&& !Self::taken(old(net), m.local)
                    &&& Self::taken(final(net), m.local)
                },
                Err(Error::AddressInUse) => addr.port != 0 && Self::taken(old(net), addr),
                Err(_) => true,
            },
    ;

    /// Send data to a remote address. A datagram is sent whole or not at
    /// all; that it was sent does not say that it arrives.
    fn send_to(&self, net: &mut Self::Net, buf: &[u8], addr: SocketAddr) -> (r: Poll<
        Result<usize, Error>,
    >)
        ensures
            r matches Poll::Ready(Ok(n)) ==> n == buf@.len() && self.mailbox(old(net)) is Some,
            self.mailbox(old(net)) is None ==> r matches Poll::Ready(Err(_)),
    ;

    /// Receive data and the sender's address.
    fn recv_from(&mut self, net: &mut Self::Net, buf: &mut [u8]) -> (r: Poll<
        Result<(usize, SocketAddr), Error>,
    >)
        ensures
            *final(self) == *old(self),
            final(buf)@.len() == old(buf)@.len(),
            match old(self).mailbox(old(net)) {
                Some(m) => final(self).mailbox(final(net)) matches Some(then) && m.recv_allows(
                    old(buf)@,
                    r,
                    final(buf)@,
                    then,
                ),
                None => {
                    &&& r matches Poll::Ready(Err(_))
                    &&& final(buf)@ == old(buf)@
                    &&& final(self).mailbox(final(net)) is None
                },
            },
    ;

    /// Get the local address.
    fn local_addr(&self, net: &Self::Net) -> (r: Result<SocketAddr, Error>)
        ensures
            match self.mailbox(net) {
                Some(m) => r matches Ok(addr) ==> addr == m.local,
                None => r is Err,
            },
    ;
}

/// DNS resolution.
pub trait Resolver {
    /// The addresses on record for `host`, if the host is known. A known
    /// host may have none.
    spec fn records(&self, host: Seq<char>) -> Option<Seq<IpAddr>>;

    /// Resolve a hostname to IP addresses. What comes back is what is on
    /// record, in the order of the record; a host that is not known is a
    /// failure, never an empty answer.
    fn resolve(&self, host: &str) -> (r: Poll<Result<Vec<IpAddr>, Error>>)
        ensures
            match r {
                Poll::Ready(Ok(addrs)) => self.records(host@) == Some(addrs@),
                Poll::Ready(Err(_)) => true,
                Poll::Pending => true,
            },
            self.records(host@) is None ==> !(r matches Poll::Ready(Ok(_))),
    ;
}

} // verus!
