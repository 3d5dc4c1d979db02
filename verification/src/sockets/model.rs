//! The in-process network as mathematics: what it holds, and what each
//! operation makes of it.

use crate::poll::Poll;
use crate::sockets::{least, Connection, Error, IpAddr, Mailbox, SocketAddr};
use vstd::prelude::*;

verus! {

/// The first port that is given out where port 0 is asked for.
pub const FIRST_DYNAMIC_PORT: u16 = 49152;

/// Which end of a connection a stream is.
#[derive(Debug, Clone, Copy, PartialEq, Eq, Structural)]
pub enum Side {
    /// The end that connected.
    Client,
    /// The end that was accepted.
    Server,
}

/// A listener: where it is bound, and whether it still is.
pub struct ListenerView {
    pub addr: SocketAddr,
    pub open: bool,
}

/// A connection: both of its ends.
pub struct LinkView {
    /// The address of the end that connected.
    pub client: SocketAddr,
    /// The listener that the connection was made to.
    pub listener: int,
    /// The listener has handed the connection out.
    pub accepted: bool,
    /// What the server has written and the client has not read.
    pub to_client: Seq<u8>,
    /// What the client has written and the server has not read.
    pub to_server: Seq<u8>,
    pub client_shut: bool,
    pub server_shut: bool,
}

/// A datagram socket: where it is bound, whether it still is, and what has
/// arrived for it.
pub struct SocketView {
    pub addr: SocketAddr,
    pub open: bool,
    pub waiting: Seq<(Seq<u8>, SocketAddr)>,
}

/// Everything a network holds.
pub struct NetworkView {
    pub listeners: Seq<ListenerView>,
    pub links: Seq<LinkView>,
    pub sockets: Seq<SocketView>,
}

impl Side {
    /// The other end.
    pub open spec fn other(self) -> Side {
        match self {
            Side::Client => Side::Server,
            Side::Server => Side::Client,
        }
    }
}

impl LinkView {
    /// A connection as `connect` makes it.
    pub open spec fn fresh(client: SocketAddr, listener: int) -> LinkView {
        LinkView {
            client,
            listener,
            accepted: false,
            to_client: Seq::empty(),
            to_server: Seq::empty(),
            client_shut: false,
            server_shut: false,
        }
    }

    /// What waits to be read at `side`.
    pub open spec fn unread(self, side: Side) -> Seq<u8> {
        match side {
            Side::Client => self.to_client,
            Side::Server => self.to_server,
        }
    }

    /// Whether `side` was shut down.
    pub open spec fn shut(self, side: Side) -> bool {
        match side {
            Side::Client => self.client_shut,
            Side::Server => self.server_shut,
        }
    }

    /// The connection with `unread` waiting at `side`.
    pub open spec fn with_unread(self, side: Side, unread: Seq<u8>) -> LinkView {
        match side {
            Side::Client => LinkView { to_client: unread, ..self },
            Side::Server => LinkView { to_server: unread, ..self },
        }
    }

    /// The connection with `side` shut down.
    pub open spec fn with_shut(self, side: Side) -> LinkView {
        match side {
            Side::Client => LinkView { client_shut: true, ..self },
            Side::Server => LinkView { server_shut: true, ..self },
        }
    }
}

impl NetworkView {
    /// A network without listeners, connections or sockets.
    pub open spec fn empty() -> NetworkView {
        NetworkView { listeners: Seq::empty(), links: Seq::empty(), sockets: Seq::empty() }
    }

    /// Whether `l` is a listener of this network.
    pub open spec fn has_listener(self, l: int) -> bool {
        0 <= l < self.listeners.len()
    }

    /// Whether `k` is a connection of this network.
    pub open spec fn has_link(self, k: int) -> bool {
        0 <= k < self.links.len() && self.has_listener(self.links[k].listener)
    }

    /// Whether `s` is a datagram socket of this network.
    pub open spec fn has_socket(self, s: int) -> bool {
        0 <= s < self.sockets.len()
    }

    /// The address that listener `l` is bound to, while it is.
    pub open spec fn listening(self, l: int) -> Option<SocketAddr> {
        if self.has_listener(l) && self.listeners[l].open {
            Some(self.listeners[l].addr)
        } else {
            None
        }
    }

    /// Whether listener `l` is bound to `addr`.
    pub open spec fn listens_at(self, l: int, addr: SocketAddr) -> bool {
        self.listening(l) == Some(addr)
    }

    /// Whether a listener is bound to `addr`.
    pub open spec fn taken(self, addr: SocketAddr) -> bool {
        exists|l: int| #[trigger] self.listens_at(l, addr)
    }

    /// Whether `l` is the first listener bound to `addr`.
    pub open spec fn answers(self, l: int, addr: SocketAddr) -> bool {
        &&& self.listens_at(l, addr)
        &&& forall|m: int| 0 <= m < l ==> !#[trigger] self.listens_at(m, addr)
    }

    /// What the end `side` of connection `k` observes.
    pub open spec fn connection(self, k: int, side: Side) -> Option<Connection> {
        if self.has_link(k) {
            let link = self.links[k];
            let server = self.listeners[link.listener].addr;
            Some(
                Connection {
                    local: if side is Client {
                        link.client
                    } else {
                        server
                    },
                    peer: if side is Client {
                        server
                    } else {
                        link.client
                    },
                    unread: link.unread(side),
                    shut: link.shut(side),
                    peer_shut: link.shut(side.other()),
                },
            )
        } else {
            None
        }
    }

    /// The least port from `from` on that no listener is bound to at `ip`.
    pub open spec fn free_port_from(self, ip: IpAddr, from: int) -> Option<u16>
        decreases 65536 - from,
    {
        if from < 0 || from > 65535 {
            None
        } else if !self.taken(SocketAddr { ip, port: from as u16 }) {
            Some(from as u16)
        } else {
            self.free_port_from(ip, from + 1)
        }
    }

    /// The address that `bind` gives for `addr`: `addr` itself if it names a
    /// port, and otherwise its IP address with the least dynamic port that
    /// is free there, if one is.
    pub open spec fn place(self, addr: SocketAddr) -> Option<SocketAddr> {
        if addr.port != 0 {
            Some(addr)
        } else {
            match self.free_port_from(addr.ip, FIRST_DYNAMIC_PORT as int) {
                Some(port) => Some(SocketAddr { ip: addr.ip, port }),
                None => None,
            }
        }
    }

    /// The result of `bind`, apart from the handle: `AddressInUse` where a
    /// listener is bound to the address, `AddressNotAvailable` where port 0
    /// is asked for and no dynamic port is free.
    pub open spec fn bind_result(self, addr: SocketAddr) -> Result<SocketAddr, Error> {
        match self.place(addr) {
            Some(at) => if self.taken(at) {
                Err(Error::AddressInUse)
            } else {
                Ok(at)
            },
            None => Err(Error::AddressNotAvailable),
        }
    }

    /// The network after `bind`.
    pub open spec fn bind(self, addr: SocketAddr) -> NetworkView {
        match self.bind_result(addr) {
            Ok(at) => NetworkView {
                listeners: self.listeners.push(ListenerView { addr: at, open: true }),
                ..self
            },
            Err(_) => self,
        }
    }

    /// The network after listener `l` was closed: its address is free, and
    /// the connections it has not handed out are shut down on its side.
    pub open spec fn close_listener(self, l: int) -> NetworkView {
        if self.has_listener(l) {
            NetworkView {
                listeners: self.listeners.update(
                    l,
                    ListenerView { addr: self.listeners[l].addr, open: false },
                ),
                links: Seq::new(
                    self.links.len(),
                    |k: int|
                        if self.links[k].listener == l && !self.links[k].accepted {
                            self.links[k].with_shut(Side::Server)
                        } else {
                            self.links[k]
                        },
                ),
                ..self
            }
        } else {
            self
        }
    }

    /// The result of `connect`, apart from the handle: the listener that
    /// takes the connection. An address without a port, on either side, is
    /// `AddressNotAvailable`; an address that no listener is bound to is
    /// `ConnectionRefused`.
    pub open spec fn connect_result(self, local: SocketAddr, addr: SocketAddr) -> Result<
        int,
        Error,
    > {
        if local.port == 0 || addr.port == 0 {
            Err(Error::AddressNotAvailable)
        } else if self.taken(addr) {
            Ok(choose|l: int| self.answers(l, addr))
        } else {
            Err(Error::ConnectionRefused)
        }
    }

    /// The network after `connect`.
    pub open spec fn connect(self, local: SocketAddr, addr: SocketAddr) -> NetworkView {
        match self.connect_result(local, addr) {
            Ok(l) => NetworkView { links: self.links.push(LinkView::fresh(local, l)), ..self },
            Err(_) => self,
        }
    }

    /// Whether connection `k` was made to listener `l` and waits to be
    /// handed out.
    pub open spec fn queued_at(self, l: int, k: int) -> bool {
        0 <= k < self.links.len() && self.links[k].listener == l && !self.links[k].accepted
    }

    /// Whether `k` is the oldest connection that waits at listener `l`.
    pub open spec fn next_at(self, l: int, k: int) -> bool {
        &&& self.queued_at(l, k)
        &&& forall|j: int| 0 <= j < k ==> !#[trigger] self.queued_at(l, j)
    }

    /// Whether a connection waits at listener `l`.
    pub open spec fn has_queued(self, l: int) -> bool {
        exists|k: int| #[trigger] self.queued_at(l, k)
    }

    /// The result of a step of `accept`, apart from the handle: the
    /// connection that is handed out. A listener that is not bound is
    /// `NotConnected`; one at which nothing waits has to wait.
    pub open spec fn accept_result(self, l: int) -> Poll<Result<int, Error>> {
        if self.listening(l) is None {
            Poll::Ready(Err(Error::NotConnected))
        } else if self.has_queued(l) {
            Poll::Ready(Ok(choose|k: int| self.next_at(l, k)))
        } else {
            Poll::Pending
        }
    }

    /// The network after a step of `accept`.
    pub open spec fn accept(self, l: int) -> NetworkView {
        match self.accept_result(l) {
            Poll::Ready(Ok(k)) => NetworkView {
                links: self.links.update(k, LinkView { accepted: true, ..self.links[k] }),
                ..self
            },
            _ => self,
        }
    }

    /// The result of a step of `read` at the end `side` of connection `k`
    /// into a buffer of `room` bytes: as many bytes as wait and fit; none
    /// into an empty buffer or at the end of the stream; a wait where none
    /// waits and more may come.
    pub open spec fn read_result(self, k: int, side: Side, room: nat) -> Poll<
        Result<usize, Error>,
    > {
        match self.connection(k, side) {
            None => Poll::Ready(Err(Error::NotConnected)),
            Some(c) => if c.unread.len() > 0 || room == 0 || c.at_end() {
                Poll::Ready(Ok(least(room, c.unread.len()) as usize))
            } else {
                Poll::Pending
            },
        }
    }

    /// The network after a step of `read` at the end `side` of connection
    /// `k` into a buffer of `room` bytes.
    pub open spec fn read(self, k: int, side: Side, room: nat) -> NetworkView {
        if self.has_link(k) {
            let unread = self.links[k].unread(side);
            NetworkView {
                links: self.links.update(
                    k,
                    self.links[k].with_unread(side, unread.skip(least(room, unread.len()) as int)),
                ),
                ..self
            }
        } else {
            self
        }
    }

    /// The result of `write` of `n` bytes at the end `side` of connection
    /// `k`: all of them are taken, unless this end was shut down, which is
    /// `NotConnected`, or the other end was, which is `ConnectionReset`.
    pub open spec fn write_result(self, k: int, side: Side, n: nat) -> Result<usize, Error> {
        match self.connection(k, side) {
            None => Err(Error::NotConnected),
            Some(c) => if c.shut {
                Err(Error::NotConnected)
            } else if c.peer_shut {
                Err(Error::ConnectionReset)
            } else {
                Ok(n as usize)
            },
        }
    }

    /// The network after `write` of `bytes` at the end `side` of connection
    /// `k`.
    pub open spec fn write(self, k: int, side: Side, bytes: Seq<u8>) -> NetworkView {
        if self.write_result(k, side, bytes.len()) is Ok {
            NetworkView {
                links: self.links.update(
                    k,
                    self.links[k].with_unread(
                        side.other(),
                        self.links[k].unread(side.other()) + bytes,
                    ),
                ),
                ..self
            }
        } else {
            self
        }
    }

    /// The network after `shutdown` at the end `side` of connection `k`.
    pub open spec fn shutdown(self, k: int, side: Side) -> NetworkView {
        if self.has_link(k) {
            NetworkView { links: self.links.update(k, self.links[k].with_shut(side)), ..self }
        } else {
            self
        }
    }

    /// What datagram socket `s` observes, while it is bound.
    pub open spec fn mailbox(self, s: int) -> Option<Mailbox> {
        if self.has_socket(s) && self.sockets[s].open {
            Some(Mailbox { local: self.sockets[s].addr, waiting: self.sockets[s].waiting })
        } else {
            None
        }
    }

    /// Whether datagram socket `s` is bound to `addr`.
    pub open spec fn receives_at(self, s: int, addr: SocketAddr) -> bool {
        self.has_socket(s) && self.sockets[s].open && self.sockets[s].addr == addr
    }

    /// Whether a datagram socket is bound to `addr`.
    pub open spec fn datagram_taken(self, addr: SocketAddr) -> bool {
        exists|s: int| #[trigger] self.receives_at(s, addr)
    }

    /// Whether `s` is the first datagram socket bound to `addr`.
    pub open spec fn collects(self, s: int, addr: SocketAddr) -> bool {
        &&& self.receives_at(s, addr)
        &&& forall|t: int| 0 <= t < s ==> !#[trigger] self.receives_at(t, addr)
    }

    /// The least port from `from` on that no datagram socket is bound to at
    /// `ip`.
    pub open spec fn free_datagram_port_from(
        self,
        ip: IpAddr,
        from: int,
    ) -> Option<u16>
        decreases 65536 - from,
    {
        if from < 0 || from > 65535 {
            None
        } else if !self.datagram_taken(SocketAddr { ip, port: from as u16 }) {
            Some(from as u16)
        } else {
            self.free_datagram_port_from(ip, from + 1)
        }
    }

    /// The address that binding a datagram socket gives for `addr`.
    pub open spec fn datagram_place(self, addr: SocketAddr) -> Option<SocketAddr> {
        if addr.port != 0 {
            Some(addr)
        } else {
            match self.free_datagram_port_from(addr.ip, FIRST_DYNAMIC_PORT as int) {
                Some(port) => Some(SocketAddr { ip: addr.ip, port }),
                None => None,
            }
        }
    }

    /// The result of binding a datagram socket, apart from the handle.
    pub open spec fn datagram_bind_result(self, addr: SocketAddr) -> Result<SocketAddr, Error> {
        match self.datagram_place(addr) {
            Some(at) => if self.datagram_taken(at) {
                Err(Error::AddressInUse)
            } else {
                Ok(at)
            },
            None => Err(Error::AddressNotAvailable),
        }
    }

    /// The network after a datagram socket was bound.
    pub open spec fn datagram_bind(self, addr: SocketAddr) -> NetworkView {
        match self.datagram_bind_result(addr) {
            Ok(at) => NetworkView {
                sockets: self.sockets.push(
                    SocketView { addr: at, open: true, waiting: Seq::empty() },
                ),
                ..self
            },
            Err(_) => self,
        }
    }

    /// The result of `send_to` of `n` bytes from socket `s` to `addr`: the
    /// datagram is sent whole, unless the socket is not bound, which is
    /// `NotConnected`, or `addr` has no port, which is
    /// `AddressNotAvailable`.
    pub open spec fn send_result(self, s: int, n: nat, addr: SocketAddr) -> Result<usize, Error> {
        if self.mailbox(s) is None {
            Err(Error::NotConnected)
        } else if addr.port == 0 {
            Err(Error::AddressNotAvailable)
        } else {
            Ok(n as usize)
        }
    }

    /// The network after `send_to` of `bytes` from socket `s` to `addr`: the
    /// datagram waits at the first socket bound to `addr`, behind those that
    /// wait there; where none is bound it is lost.
    pub open spec fn send(self, s: int, bytes: Seq<u8>, addr: SocketAddr) -> NetworkView {
        if self.send_result(s, bytes.len(), addr) is Ok && self.datagram_taken(addr) {
            let to = choose|t: int| self.collects(t, addr);
            NetworkView {
                sockets: self.sockets.update(
                    to,
                    SocketView {
                        waiting: self.sockets[to].waiting.push((bytes, self.sockets[s].addr)),
                        ..self.sockets[to]
                    },
                ),
                ..self
            }
        } else {
            self
        }
    }

    /// The result of a step of `recv_from` at socket `s` into a buffer of
    /// `room` bytes.
    pub open spec fn recv_result(self, s: int, room: nat) -> Poll<
        Result<(usize, SocketAddr), Error>,
    > {
        match self.mailbox(s) {
            None => Poll::Ready(Err(Error::NotConnected)),
            Some(m) => if m.waiting.len() > 0 {
                Poll::Ready(
                    Ok((least(room, m.waiting[0].0.len()) as usize, m.waiting[0].1)),
                )
            } else {
                Poll::Pending
            },
        }
    }

    /// The network after a step of `recv_from` at socket `s`.
    pub open spec fn recv(self, s: int) -> NetworkView {
        if self.mailbox(s) is Some && self.sockets[s].waiting.len() > 0 {
            NetworkView {
                sockets: self.sockets.update(
                    s,
                    SocketView {
                        waiting: self.sockets[s].waiting.drop_first(),
                        ..self.sockets[s]
                    },
                ),
                ..self
            }
        } else {
            self
        }
    }

    /// The network after datagram socket `s` was closed: its address is
    /// free, and what waited for it is dropped.
    pub open spec fn close_socket(self, s: int) -> NetworkView {
        if self.has_socket(s) {
            NetworkView {
                sockets: self.sockets.update(
                    s,
                    SocketView { addr: self.sockets[s].addr, open: false, waiting: Seq::empty() },
                ),
                ..self
            }
        } else {
            self
        }
    }
}

/// One operation on a network, as far as it can change what the network
/// holds.
pub enum Event {
    /// `bind` of a listener to an address.
    Bind(SocketAddr),
    /// `close` on a listener.
    CloseListener(int),
    /// `connect` from an address to an address.
    Connect(SocketAddr, SocketAddr),
    /// `accept` on a listener.
    Accept(int),
    /// `read` on an end of a connection, into a buffer with so much room.
    Read(int, Side, nat),
    /// `write` of bytes on an end of a connection.
    Write(int, Side, Seq<u8>),
    /// `shutdown` on an end of a connection.
    Shutdown(int, Side),
    /// `bind` of a datagram socket to an address.
    BindSocket(SocketAddr),
    /// `send_to` of bytes from a datagram socket to an address.
    SendTo(int, Seq<u8>, SocketAddr),
    /// `recv_from` on a datagram socket.
    RecvFrom(int),
    /// `close` on a datagram socket.
    CloseSocket(int),
}

impl NetworkView {
    /// The network after one operation.
    pub open spec fn step(self, event: Event) -> NetworkView {
        match event {
            Event::Bind(addr) => self.bind(addr),
            Event::CloseListener(l) => self.close_listener(l),
            Event::Connect(local, addr) => self.connect(local, addr),
            Event::Accept(l) => self.accept(l),
            Event::Read(k, side, room) => self.read(k, side, room),
            Event::Write(k, side, bytes) => self.write(k, side, bytes),
            Event::Shutdown(k, side) => self.shutdown(k, side),
            Event::BindSocket(addr) => self.datagram_bind(addr),
            Event::SendTo(s, bytes, addr) => self.send(s, bytes, addr),
            Event::RecvFrom(s) => self.recv(s),
            Event::CloseSocket(s) => self.close_socket(s),
        }
    }

    /// The network after a sequence of operations.
    pub open spec fn run(self, events: Seq<Event>) -> NetworkView
        decreases events.len(),
    {
        if events.len() == 0 {
            self
        } else {
            self.run(events.drop_last()).step(events.last())
        }
    }
}

impl NetworkView {
    /// At most one listener is the first that is bound to an address.
    pub proof fn answers_is_unique(self, l: int, m: int, addr: SocketAddr)
        requires
            self.answers(l, addr),
            self.answers(m, addr),
        ensures
            l == m,
    {
    }

    /// At most one connection is the oldest that waits at a listener.
    pub proof fn next_at_is_unique(self, l: int, j: int, k: int)
        requires
            self.next_at(l, j),
            self.next_at(l, k),
        ensures
            j == k,
    {
    }

    /// At most one datagram socket is the first that is bound to an address.
    pub proof fn collects_is_unique(self, s: int, t: int, addr: SocketAddr)
        requires
            self.collects(s, addr),
            self.collects(t, addr),
        ensures
            s == t,
    {
    }
}

impl NetworkView {
    /// A port that `free_port_from` gives is not below `from`, is free, and
    /// is the least such.
    pub proof fn free_port_is_least_free(self, ip: IpAddr, from: int)
        requires
            0 <= from,
        ensures
            match self.free_port_from(ip, from) {
                Some(port) => {
                    &&& from <= port
                    &&& !self.taken(SocketAddr { ip, port })
                    &&& forall|p: int|
                        from <= p < port ==> #[trigger] self.taken(
                            SocketAddr { ip, port: p as u16 },
                        )
                },
                None => forall|p: int|
                    from <= p <= 65535 ==> #[trigger] self.taken(SocketAddr { ip, port: p as u16 }),
            },
        decreases 65536 - from,
    {
        if from <= 65535 && self.taken(SocketAddr { ip, port: from as u16 }) {
            self.free_port_is_least_free(ip, from + 1);
        }
    }

    /// A port that `free_datagram_port_from` gives is not below `from`, is
    /// free, and is the least such.
    pub proof fn free_datagram_port_is_least_free(self, ip: IpAddr, from: int)
        requires
            0 <= from,
        ensures
            match self.free_datagram_port_from(ip, from) {
                Some(port) => {
                    &&& from <= port
                    &&& !self.datagram_taken(SocketAddr { ip, port })
                    &&& forall|p: int|
                        from <= p < port ==> #[trigger] self.datagram_taken(
                            SocketAddr { ip, port: p as u16 },
                        )
                },
                None => forall|p: int|
                    from <= p <= 65535 ==> #[trigger] self.datagram_taken(
                        SocketAddr { ip, port: p as u16 },
                    ),
            },
        decreases 65536 - from,
    {
        if from <= 65535 && self.datagram_taken(SocketAddr { ip, port: from as u16 }) {
            self.free_datagram_port_is_least_free(ip, from + 1);
        }
    }
}

} // verus!
