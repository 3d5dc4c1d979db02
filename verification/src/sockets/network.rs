//! An in-process network.
//!
//! The network owns every listener, connection and datagram socket. A
//! listener, a stream and a socket are handles into it. Buffers are
//! unbounded: a write is never slowed for want of room. A connection exists
//! from the moment `connect` returns, so what is written before `accept` is
//! there to be read after it. A handle that the network does not know is
//! not connected.

use crate::poll::Poll;
use crate::sockets::model::{
    LinkView, ListenerView, NetworkView, Side, SocketView, FIRST_DYNAMIC_PORT,
};
use crate::sockets::{
    least, written, Connection, Error, IpAddr, Mailbox, SocketAddr, TcpConnect, TcpListen,
    TcpStream, UdpSocket,
};
use vstd::prelude::*;

verus! {

struct Listener {
    addr: SocketAddr,
    open: bool,
}

struct Link {
    client: SocketAddr,
    listener: usize,
    accepted: bool,
    to_client: Vec<u8>,
    to_server: Vec<u8>,
    client_shut: bool,
    server_shut: bool,
}

struct Datagram {
    bytes: Vec<u8>,
    from: SocketAddr,
}

struct Socket {
    addr: SocketAddr,
    open: bool,
    waiting: Vec<Datagram>,
}

/// The state of the in-process network: every listener, connection and
/// datagram socket that was made in it.
pub struct Network {
    listeners: Vec<Listener>,
    links: Vec<Link>,
    sockets: Vec<Socket>,
}

impl View for Listener {
    type V = ListenerView;

    closed spec fn view(&self) -> ListenerView {
        ListenerView { addr: self.addr, open: self.open }
    }
}

impl View for Link {
    type V = LinkView;

    closed spec fn view(&self) -> LinkView {
        LinkView {
            client: self.client,
            listener: self.listener as int,
            accepted: self.accepted,
            to_client: self.to_client@,
            to_server: self.to_server@,
            client_shut: self.client_shut,
            server_shut: self.server_shut,
        }
    }
}

impl View for Socket {
    type V = SocketView;

    closed spec fn view(&self) -> SocketView {
        SocketView {
            addr: self.addr,
            open: self.open,
            waiting: Seq::new(
                self.waiting@.len(),
                |i: int| (self.waiting@[i].bytes@, self.waiting@[i].from),
            ),
        }
    }
}

impl View for Network {
    type V = NetworkView;

    closed spec fn view(&self) -> NetworkView {
        NetworkView {
            listeners: Seq::new(self.listeners@.len(), |l: int| self.listeners@[l]@),
            links: Seq::new(self.links@.len(), |k: int| self.links@[k]@),
            sockets: Seq::new(self.sockets@.len(), |s: int| self.sockets@[s]@),
        }
    }
}

/// Copies the first bytes of `bytes` into the front of `buf`, as many as
/// fit, and gives their number.
fn copy_front(bytes: &Vec<u8>, buf: &mut [u8]) -> (n: usize)
    ensures
        n == least(old(buf)@.len(), bytes@.len()),
        final(buf)@.len() == old(buf)@.len(),
        final(buf)@ == bytes@.take(n as int) + old(buf)@.skip(n as int),
{
    let n = if buf.len() <= bytes.len() {
        buf.len()
    } else {
        bytes.len()
    };
    let mut i: usize = 0;
    while i < n
        invariant
            i <= n,
            n <= bytes@.len(),
            n <= buf@.len(),
            buf@.len() == old(buf)@.len(),
            buf@ == bytes@.take(i as int) + old(buf)@.skip(i as int),
        decreases n - i,
    {
        buf[i] = bytes[i];
        i += 1;
    }
    n
}

/// Puts `bytes` behind what `unread` holds.
fn append(unread: &mut Vec<u8>, bytes: &[u8])
    ensures
        final(unread)@ == old(unread)@ + bytes@,
{
    let mut i: usize = 0;
    while i < bytes.len()
        invariant
            i <= bytes@.len(),
            unread@ == old(unread)@ + bytes@.take(i as int),
        decreases bytes@.len() - i,
    {
        unread.push(bytes[i]);
        i += 1;
    }
}

/// A copy of `bytes`.
fn copy_of(bytes: &[u8]) -> (v: Vec<u8>)
    ensures
        v@ == bytes@,
{
    let mut v: Vec<u8> = Vec::new();
    append(&mut v, bytes);
    v
}

impl Network {
    /// A network without listeners, connections or sockets.
    pub fn new() -> (net: Network)
        ensures
            net@ == NetworkView::empty(),
    {
        let net = Network { listeners: Vec::new(), links: Vec::new(), sockets: Vec::new() };
        assert(net@.listeners =~= Seq::empty());
        assert(net@.links =~= Seq::empty());
        assert(net@.sockets =~= Seq::empty());
        net
    }

    /// The first listener that is bound to `addr`, if one is.
    fn listener_at(&self, addr: SocketAddr) -> (found: Option<usize>)
        ensures
            match found {
                Some(l) => self@.answers(l as int, addr),
                None => !self@.taken(addr),
            },
    {
        let mut l: usize = 0;
        while l < self.listeners.len()
            invariant
                l <= self.listeners@.len(),
                forall|m: int| 0 <= m < l ==> !#[trigger] self@.listens_at(m, addr),
            decreases self.listeners@.len() - l,
        {
            if self.listeners[l].open && self.listeners[l].addr == addr {
                return Some(l);
            }
            l += 1;
        }
        None
    }

    /// The least dynamic port that no listener is bound to at `ip`.
    fn free_port(&self, ip: IpAddr) -> (found: Option<u16>)
        ensures
            found == self@.free_port_from(ip, FIRST_DYNAMIC_PORT as int),
    {
        let mut port: u16 = FIRST_DYNAMIC_PORT;
        loop
            invariant
                FIRST_DYNAMIC_PORT <= port,
                self@.free_port_from(ip, FIRST_DYNAMIC_PORT as int) == self@.free_port_from(
                    ip,
                    port as int,
                ),
            decreases 65535 - port,
        {
            if self.listener_at(SocketAddr { ip, port }).is_none() {
                return Some(port);
            }
            if port == 65535 {
                assert(self@.free_port_from(ip, 65536) is None);
                return None;
            }
            port += 1;
        }
    }

    /// Binds a listener and gives its number.
    fn bind_listener(&mut self, addr: SocketAddr) -> (r: Result<usize, Error>)
        ensures
            match r {
                Ok(l) => old(self)@.bind_result(addr) is Ok && l == old(self)@.listeners.len(),
                Err(e) => old(self)@.bind_result(addr) == Err::<SocketAddr, Error>(e),
            },
            final(self)@ == old(self)@.bind(addr),
    {
        let at = if addr.port != 0 {
            addr
        } else {
            match self.free_port(addr.ip) {
                Some(port) => SocketAddr { ip: addr.ip, port },
                None => {
                    return Err(Error::AddressNotAvailable);
                },
            }
        };
        if self.listener_at(at).is_some() {
            return Err(Error::AddressInUse);
        }
        let l = self.listeners.len();
        self.listeners.push(Listener { addr: at, open: true });
        assert(self@.listeners =~= old(self)@.bind(addr).listeners);
        Ok(l)
    }

    /// Closes listener `l`.
    fn close_listener(&mut self, l: usize)
        ensures
            final(self)@ == old(self)@.close_listener(l as int),
    {
        if l >= self.listeners.len() {
            return ;
        }
        self.listeners[l].open = false;
        let n = self.links.len();
        let mut k: usize = 0;
        while k < n
            invariant
                k <= n,
                n == self.links@.len(),
                n == old(self).links@.len(),
                self.listeners@ == old(self).listeners@.update(
                    l as int,
                    Listener { addr: old(self).listeners@[l as int].addr, open: false },
                ),
                l < old(self).listeners@.len(),
                self.sockets@ == old(self).sockets@,
                forall|j: int|
                    0 <= j < k ==> (#[trigger] self.links@[j])@ == old(self)@.close_listener(
                        l as int,
                    ).links[j],
                forall|j: int| k <= j < n ==> #[trigger] self.links@[j] == old(self).links@[j],
            decreases n - k,
        {
            if self.links[k].listener == l && !self.links[k].accepted {
                self.links[k].server_shut = true;
            }
            k += 1;
        }
        proof {
            assert(self@.listeners =~= old(self)@.close_listener(l as int).listeners);
            assert(self@.links =~= old(self)@.close_listener(l as int).links);
        }
    }

    /// Makes a connection from `local` to the listener at `addr` and gives
    /// its number.
    fn connect_from(&mut self, local: SocketAddr, addr: SocketAddr) -> (r: Result<usize, Error>)
        ensures
            match r {
                Ok(k) => {
                    &&& old(self)@.connect_result(local, addr) is Ok
                    &&& k == old(self)@.links.len()
                    &&& final(self)@.connection(k as int, Side::Client) == Some(
                        Connection {
                            local,
                            peer: addr,
                            unread: Seq::empty(),
                            shut: false,
                            peer_shut: false,
                        },
                    )
                },
                Err(e) => old(self)@.connect_result(local, addr) == Err::<int, Error>(e),
            },
            final(self)@ == old(self)@.connect(local, addr),
    {
        if local.port == 0 || addr.port == 0 {
            return Err(Error::AddressNotAvailable);
        }
        match self.listener_at(addr) {
            None => Err(Error::ConnectionRefused),
            Some(l) => {
                let k = self.links.len();
                self.links.push(
                    Link {
                        client: local,
                        listener: l,
                        accepted: false,
                        to_client: Vec::new(),
                        to_server: Vec::new(),
                        client_shut: false,
                        server_shut: false,
                    },
                );
                proof {
                    let chosen = choose|m: int| old(self)@.answers(m, addr);
                    old(self)@.answers_is_unique(l as int, chosen, addr);
                    assert(self@.links =~= old(self)@.connect(local, addr).links);
                }
                Ok(k)
            },
        }
    }

    /// The oldest connection that waits at listener `l`, if one does.
    fn next_at(&self, l: usize) -> (found: Option<usize>)
        ensures
            match found {
                Some(k) => self@.next_at(l as int, k as int),
                None => !self@.has_queued(l as int),
            },
    {
        let mut k: usize = 0;
        while k < self.links.len()
            invariant
                k <= self.links@.len(),
                forall|j: int| 0 <= j < k ==> !#[trigger] self@.queued_at(l as int, j),
            decreases self.links@.len() - k,
        {
            if self.links[k].listener == l && !self.links[k].accepted {
                return Some(k);
            }
            k += 1;
        }
        None
    }

    /// Hands out the oldest connection that waits at listener `l`: its
    /// number and the address of its client.
    fn accept_at(&mut self, l: usize) -> (r: Poll<Result<(usize, SocketAddr), Error>>)
        ensures
            match r {
                Poll::Ready(Ok((k, from))) => {
                    &&& old(self)@.accept_result(l as int) == Poll::Ready(
                        Ok::<int, Error>(k as int),
                    )
                    &&& old(self)@.next_at(l as int, k as int)
                    &&& from == old(self)@.links[k as int].client
                },
                Poll::Ready(Err(e)) => old(self)@.accept_result(l as int) == Poll::Ready(
                    Err::<int, Error>(e),
                ),
                Poll::Pending => old(self)@.accept_result(l as int) is Pending,
            },
            final(self)@ == old(self)@.accept(l as int),
    {
        if l >= self.listeners.len() || !self.listeners[l].open {
            return Poll::Ready(Err(Error::NotConnected));
        }
        match self.next_at(l) {
            None => Poll::Pending,
            Some(k) => {
                self.links[k].accepted = true;
                let from = self.links[k].client;
                proof {
                    let chosen = choose|j: int| old(self)@.next_at(l as int, j);
                    old(self)@.next_at_is_unique(l as int, k as int, chosen);
                    assert(self@.links =~= old(self)@.accept(l as int).links);
                }
                Poll::Ready(Ok((k, from)))
            },
        }
    }

    /// Whether `k` is a connection of this network.
    fn has_link(&self, k: usize) -> (b: bool)
        ensures
            b == self@.has_link(k as int),
    {
        k < self.links.len() && self.links[k].listener < self.listeners.len()
    }

    /// One step of reading at the end `side` of connection `k`.
    fn read_at(&mut self, k: usize, side: Side, buf: &mut [u8]) -> (r: Poll<Result<usize, Error>>)
        ensures
            r == old(self)@.read_result(k as int, side, old(buf)@.len()),
            r matches Poll::Ready(Ok(n)) ==> n == least(
                old(buf)@.len(),
                old(self)@.links[k as int].unread(side).len(),
            ),
            final(self)@ == old(self)@.read(k as int, side, old(buf)@.len()),
            final(buf)@.len() == old(buf)@.len(),
            final(buf)@ == match old(self)@.connection(k as int, side) {
                Some(c) => {
                    let n = least(old(buf)@.len(), c.unread.len()) as int;
                    c.unread.take(n) + old(buf)@.skip(n)
                },
                None => old(buf)@,
            },
    {
        if !self.has_link(k) {
            return Poll::Ready(Err(Error::NotConnected));
        }
        let at_end = self.links[k].client_shut || self.links[k].server_shut;
        let n = match side {
            Side::Client => {
                let n = copy_front(&self.links[k].to_client, buf);
                let rest = self.links[k].to_client.split_off(n);
                self.links[k].to_client = rest;
                n
            },
            Side::Server => {
                let n = copy_front(&self.links[k].to_server, buf);
                let rest = self.links[k].to_server.split_off(n);
                self.links[k].to_server = rest;
                n
            },
        };
        proof {
            let before = old(self)@.links[k as int].unread(side);
            assert(self@.links =~= old(self)@.read(k as int, side, old(buf)@.len()).links);
            assert(n == 0 ==> before.skip(0) =~= before);
        }
        if n > 0 || buf.len() == 0 || at_end {
            Poll::Ready(Ok(n))
        } else {
            Poll::Pending
        }
    }

    /// Writes at the end `side` of connection `k`.
    fn write_at(&mut self, k: usize, side: Side, buf: &[u8]) -> (r: Result<usize, Error>)
        ensures
            r == old(self)@.write_result(k as int, side, buf@.len()),
            r matches Ok(n) ==> n == buf@.len(),
            final(self)@ == old(self)@.write(k as int, side, buf@),
    {
        if !self.has_link(k) {
            return Err(Error::NotConnected);
        }
        match side {
            Side::Client => {
                if self.links[k].client_shut {
                    return Err(Error::NotConnected);
                }
                if self.links[k].server_shut {
                    return Err(Error::ConnectionReset);
                }
                append(&mut self.links[k].to_server, buf);
            },
            Side::Server => {
                if self.links[k].server_shut {
                    return Err(Error::NotConnected);
                }
                if self.links[k].client_shut {
                    return Err(Error::ConnectionReset);
                }
                append(&mut self.links[k].to_client, buf);
            },
        }
        assert(self@.links =~= old(self)@.write(k as int, side, buf@).links);
        Ok(buf.len())
    }

    /// Shuts down the end `side` of connection `k`.
    fn shutdown_at(&mut self, k: usize, side: Side) -> (r: Result<(), Error>)
        ensures
            r == if old(self)@.has_link(k as int) {
                Ok::<(), Error>(())
            } else {
                Err::<(), Error>(Error::NotConnected)
            },
            final(self)@ == old(self)@.shutdown(k as int, side),
    {
        if !self.has_link(k) {
            return Err(Error::NotConnected);
        }
        match side {
            Side::Client => {
                self.links[k].client_shut = true;
            },
            Side::Server => {
                self.links[k].server_shut = true;
            },
        }
        assert(self@.links =~= old(self)@.shutdown(k as int, side).links);
        Ok(())
    }

    /// The address of the end `side` of connection `k`, or of the other end.
    fn address_at(&self, k: usize, side: Side, of_peer: bool) -> (r: Result<SocketAddr, Error>)
        ensures
            r == match self@.connection(k as int, side) {
                Some(c) => Ok::<SocketAddr, Error>(
                    if of_peer {
                        c.peer
                    } else {
                        c.local
                    },
                ),
                None => Err::<SocketAddr, Error>(Error::NotConnected),
            },
    {
        if !self.has_link(k) {
            return Err(Error::NotConnected);
        }
        let client = self.links[k].client;
        let server = self.listeners[self.links[k].listener].addr;
        let of_client = match side {
            Side::Client => !of_peer,
            Side::Server => of_peer,
        };
        if of_client {
            Ok(client)
        } else {
            Ok(server)
        }
    }

    /// The first datagram socket that is bound to `addr`, if one is.
    fn socket_at(&self, addr: SocketAddr) -> (found: Option<usize>)
        ensures
            match found {
                Some(s) => self@.collects(s as int, addr),
                None => !self@.datagram_taken(addr),
            },
    {
        let mut s: usize = 0;
        while s < self.sockets.len()
            invariant
                s <= self.sockets@.len(),
                forall|t: int| 0 <= t < s ==> !#[trigger] self@.receives_at(t, addr),
            decreases self.sockets@.len() - s,
        {
            if self.sockets[s].open && self.sockets[s].addr == addr {
                return Some(s);
            }
            s += 1;
        }
        None
    }

    /// The least dynamic port that no datagram socket is bound to at `ip`.
    fn free_datagram_port(&self, ip: IpAddr) -> (found: Option<u16>)
        ensures
            found == self@.free_datagram_port_from(ip, FIRST_DYNAMIC_PORT as int),
    {
        let mut port: u16 = FIRST_DYNAMIC_PORT;
        loop
            invariant
                FIRST_DYNAMIC_PORT <= port,
                self@.free_datagram_port_from(ip, FIRST_DYNAMIC_PORT as int)
                    == self@.free_datagram_port_from(ip, port as int),
            decreases 65535 - port,
        {
            if self.socket_at(SocketAddr { ip, port }).is_none() {
                return Some(port);
            }
            if port == 65535 {
                assert(self@.free_datagram_port_from(ip, 65536) is None);
                return None;
            }
            port += 1;
        }
    }

    /// Binds a datagram socket and gives its number.
    fn bind_socket(&mut self, addr: SocketAddr) -> (r: Result<usize, Error>)
        ensures
            match r {
                Ok(s) => {
                    &&& old(self)@.datagram_bind_result(addr) is Ok
                    &&& s == old(self)@.sockets.len()
                },
                Err(e) => old(self)@.datagram_bind_result(addr) == Err::<SocketAddr, Error>(e),
            },
            final(self)@ == old(self)@.datagram_bind(addr),
    {
        let at = if addr.port != 0 {
            addr
        } else {
            match self.free_datagram_port(addr.ip) {
                Some(port) => SocketAddr { ip: addr.ip, port },
                None => {
                    return Err(Error::AddressNotAvailable);
                },
            }
        };
        if self.socket_at(at).is_some() {
            return Err(Error::AddressInUse);
        }
        let s = self.sockets.len();
        self.sockets.push(Socket { addr: at, open: true, waiting: Vec::new() });
        proof {
            assert(self.sockets@[s as int]@.waiting =~= Seq::empty());
            assert(self@.sockets =~= old(self)@.datagram_bind(addr).sockets);
        }
        Ok(s)
    }

    /// Sends a datagram from socket `s` to `addr`.
    fn send_from(&mut self, s: usize, buf: &[u8], addr: SocketAddr) -> (r: Result<usize, Error>)
        ensures
            r == old(self)@.send_result(s as int, buf@.len(), addr),
            r matches Ok(n) ==> n == buf@.len(),
            final(self)@ == old(self)@.send(s as int, buf@, addr),
    {
        if s >= self.sockets.len() || !self.sockets[s].open {
            return Err(Error::NotConnected);
        }
        if addr.port == 0 {
            return Err(Error::AddressNotAvailable);
        }
        let from = self.sockets[s].addr;
        match self.socket_at(addr) {
            None => {},
            Some(to) => {
                let bytes = copy_of(buf);
                self.sockets[to].waiting.push(Datagram { bytes, from });
                proof {
                    let chosen = choose|t: int| old(self)@.collects(t, addr);
                    old(self)@.collects_is_unique(to as int, chosen, addr);
                    let before = old(self).sockets@[to as int]@.waiting;
                    assert(self.sockets@[to as int]@.waiting =~= before.push((buf@, from)));
                    assert(self@.sockets =~= old(self)@.send(s as int, buf@, addr).sockets);
                }
            },
        }
        Ok(buf.len())
    }

    /// One step of receiving at datagram socket `s`.
    fn recv_at(&mut self, s: usize, buf: &mut [u8]) -> (r: Poll<Result<(usize, SocketAddr), Error>>)
        ensures
            r == old(self)@.recv_result(s as int, old(buf)@.len()),
            r matches Poll::Ready(Ok((n, _))) ==> n == least(
                old(buf)@.len(),
                old(self)@.sockets[s as int].waiting[0].0.len(),
            ),
            final(self)@ == old(self)@.recv(s as int),
            final(buf)@.len() == old(buf)@.len(),
            final(buf)@ == match r {
                Poll::Ready(Ok((n, _))) => old(self)@.sockets[s as int].waiting[0].0.take(n as int)
                    + old(buf)@.skip(n as int),
                _ => old(buf)@,
            },
    {
        if s >= self.sockets.len() || !self.sockets[s].open {
            return Poll::Ready(Err(Error::NotConnected));
        }
        if self.sockets[s].waiting.len() == 0 {
            return Poll::Pending;
        }
        let datagram = self.sockets[s].waiting.remove(0);
        let n = copy_front(&datagram.bytes, buf);
        proof {
            let before = old(self).sockets@[s as int]@.waiting;
            assert(self.sockets@[s as int]@.waiting =~= before.drop_first());
            assert(self@.sockets =~= old(self)@.recv(s as int).sockets);
        }
        Poll::Ready(Ok((n, datagram.from)))
    }

    /// Closes datagram socket `s`.
    fn close_socket(&mut self, s: usize)
        ensures
            final(self)@ == old(self)@.close_socket(s as int),
    {
        if s < self.sockets.len() {
            self.sockets[s].open = false;
            self.sockets[s].waiting.clear();
            proof {
                assert(self.sockets@[s as int]@.waiting =~= Seq::empty());
                assert(self@.sockets =~= old(self)@.close_socket(s as int).sockets);
            }
        }
    }

    /// The address that datagram socket `s` is bound to.
    fn socket_address(&self, s: usize) -> (r: Result<SocketAddr, Error>)
        ensures
            r == match self@.mailbox(s as int) {
                Some(m) => Ok::<SocketAddr, Error>(m.local),
                None => Err::<SocketAddr, Error>(Error::NotConnected),
            },
    {
        if s < self.sockets.len() && self.sockets[s].open {
            Ok(self.sockets[s].addr)
        } else {
            Err(Error::NotConnected)
        }
    }

    /// The address that listener `l` is bound to.
    fn listener_address(&self, l: usize) -> (r: Result<SocketAddr, Error>)
        ensures
            r == match self@.listening(l as int) {
                Some(at) => Ok::<SocketAddr, Error>(at),
                None => Err::<SocketAddr, Error>(Error::NotConnected),
            },
    {
        if l < self.listeners.len() && self.listeners[l].open {
            Ok(self.listeners[l].addr)
        } else {
            Err(Error::NotConnected)
        }
    }
}

/// A bound listener of a [`Network`].
#[derive(Debug)]
pub struct LocalListener {
    id: usize,
}

/// One end of a connection of a [`Network`].
#[derive(Debug)]
pub struct LocalStream {
    link: usize,
    side: Side,
}

/// Connects from a given local address to listeners of a [`Network`].
#[derive(Debug, Clone, Copy)]
pub struct LocalConnector {
    local: SocketAddr,
}

/// A bound datagram socket of a [`Network`].
#[derive(Debug)]
pub struct LocalSocket {
    id: usize,
}

impl Default for Network {
    fn default() -> (net: Network)
        ensures
            net@ == NetworkView::empty(),
    {
        Network::new()
    }
}

impl LocalListener {
    /// The number of the listener in its network.
    pub closed spec fn index(&self) -> int {
        self.id as int
    }

    /// Closes the listener. Its address is free again. Connections that it
    /// has handed out stay as they are; those that still waited are shut
    /// down on its side.
    pub fn close(self, net: &mut Network)
        ensures
            final(net)@ == old(net)@.close_listener(self.index()),
    {
        net.close_listener(self.id);
    }
}

impl LocalStream {
    /// The number of the connection in its network.
    pub closed spec fn link(&self) -> int {
        self.link as int
    }

    /// Which end of the connection this is.
    pub closed spec fn side(&self) -> Side {
        self.side
    }
}

impl LocalConnector {
    /// The address that connections are made from.
    pub closed spec fn local(&self) -> SocketAddr {
        self.local
    }

    /// A connector whose end of each connection has the address `local`.
    pub fn new(local: SocketAddr) -> (connector: LocalConnector)
        ensures
            connector.local() == local,
    {
        LocalConnector { local }
    }
}

impl LocalSocket {
    /// The number of the socket in its network.
    pub closed spec fn index(&self) -> int {
        self.id as int
    }

    /// Closes the socket. Its address is free again, and what waited for it
    /// is dropped.
    pub fn close(self, net: &mut Network)
        ensures
            final(net)@ == old(net)@.close_socket(self.index()),
    {
        net.close_socket(self.id);
    }
}

impl TcpStream for LocalStream {
    type Net = Network;

    open spec fn connection(&self, net: &Network) -> Option<Connection> {
        net@.connection(self.link(), self.side())
    }

    open spec fn faces(&self, net: &Network, other: &LocalStream) -> bool {
        &&& net@.has_link(self.link())
        &&& other.link() == self.link()
        &&& other.side() == self.side().other()
    }

    /// Never fails on an end of a connection: it transfers as many bytes as
    /// wait and fit, or finds the end of the stream, or waits.
    fn read(&mut self, net: &mut Network, buf: &mut [u8]) -> (r: Poll<Result<usize, Error>>)
        ensures
            r == old(net)@.read_result(old(self).link(), old(self).side(), old(buf)@.len()),
            final(net)@ == old(net)@.read(old(self).link(), old(self).side(), old(buf)@.len()),
    {
        let r = net.read_at(self.link, self.side, buf);
        proof {
            // A read that transfers nothing leaves the buffer and the
            // connection as they were.
            if let Some(c) = old(net)@.connection(self.link(), self.side()) {
                assert(c.unread.take(0) + old(buf)@.skip(0) =~= old(buf)@);
                assert(c.unread.skip(0) =~= c.unread);
            }
        }
        r
    }

    /// Completes at once. All bytes are taken, unless this end was shut
    /// down, which is `NotConnected`, or the other end was, which is
    /// `ConnectionReset`.
    fn write(&mut self, net: &mut Network, buf: &[u8]) -> (r: Poll<Result<usize, Error>>)
        ensures
            r == Poll::Ready(
                old(net)@.write_result(old(self).link(), old(self).side(), buf@.len()),
            ),
            final(net)@ == old(net)@.write(old(self).link(), old(self).side(), buf@),
    {
        let r = net.write_at(self.link, self.side, buf);
        proof {
            assert forall|other: LocalStream| #[trigger]
                self.faces(old(net), &other) implies other.connection(net) == Some(
                other.connection(old(net)).unwrap().supply(written(buf@, Poll::Ready(r))),
            ) by {
                let before = other.connection(old(net)).unwrap();
                let after = other.connection(net).unwrap();
                assert(after.unread =~= before.unread + written(buf@, Poll::Ready(r)));
            }
        }
        Poll::Ready(r)
    }

    /// Completes at once: nothing is held back on the writing side. Fails
    /// with `NotConnected` on an end that was shut down or is not an end of
    /// a connection.
    fn flush(&mut self, net: &mut Network) -> (r: Poll<Result<(), Error>>)
        ensures
            final(net)@ == old(net)@,
            r == Poll::Ready(
                match old(net)@.connection(old(self).link(), old(self).side()) {
                    Some(c) => if c.shut {
                        Err::<(), Error>(Error::NotConnected)
                    } else {
                        Ok::<(), Error>(())
                    },
                    None => Err::<(), Error>(Error::NotConnected),
                },
            ),
    {
        let shut = match self.side {
            Side::Client => net.has_link(self.link) && net.links[self.link].client_shut,
            Side::Server => net.has_link(self.link) && net.links[self.link].server_shut,
        };
        if !net.has_link(self.link) || shut {
            Poll::Ready(Err(Error::NotConnected))
        } else {
            Poll::Ready(Ok(()))
        }
    }

    /// Succeeds on every end of a connection, also on one that was shut
    /// down before.
    fn shutdown(&mut self, net: &mut Network) -> (r: Result<(), Error>)
        ensures
            r == if old(net)@.has_link(old(self).link()) {
                Ok::<(), Error>(())
            } else {
                Err::<(), Error>(Error::NotConnected)
            },
            final(net)@ == old(net)@.shutdown(old(self).link(), old(self).side()),
    {
        net.shutdown_at(self.link, self.side)
    }

    fn local_addr(&self, net: &Network) -> (r: Result<SocketAddr, Error>)
        ensures
            r == match self.connection(net) {
                Some(c) => Ok::<SocketAddr, Error>(c.local),
                None => Err::<SocketAddr, Error>(Error::NotConnected),
            },
    {
        net.address_at(self.link, self.side, false)
    }

    fn peer_addr(&self, net: &Network) -> (r: Result<SocketAddr, Error>)
        ensures
            r == match self.connection(net) {
                Some(c) => Ok::<SocketAddr, Error>(c.peer),
                None => Err::<SocketAddr, Error>(Error::NotConnected),
            },
    {
        net.address_at(self.link, self.side, true)
    }
}

impl TcpConnect for LocalConnector {
    type Net = Network;

    type Stream = LocalStream;

    /// Completes at once. The stream is the client's end of a new
    /// connection to the first listener bound to `addr`. Never `Timeout`.
    fn connect(&self, net: &mut Network, addr: SocketAddr) -> (r: Poll<Result<LocalStream, Error>>)
        ensures
            final(net)@ == old(net)@.connect(self.local(), addr),
            match r {
                Poll::Ready(Ok(stream)) => {
                    &&& old(net)@.connect_result(self.local(), addr) is Ok
                    &&& stream.link() == old(net)@.links.len()
                    &&& stream.side() == Side::Client
                },
                Poll::Ready(Err(e)) => old(net)@.connect_result(self.local(), addr) == Err::<
                    int,
                    Error,
                >(e),
                Poll::Pending => false,
            },
    {
        match net.connect_from(self.local, addr) {
            Ok(k) => Poll::Ready(Ok(LocalStream { link: k, side: Side::Client })),
            Err(e) => Poll::Ready(Err(e)),
        }
    }
}

impl TcpListen for LocalListener {
    type Net = Network;

    type Stream = LocalStream;

    open spec fn taken(net: &Network, addr: SocketAddr) -> bool {
        net@.taken(addr)
    }

    open spec fn bound_to(&self, net: &Network) -> Option<SocketAddr> {
        net@.listening(self.index())
    }

    /// Port 0 gives the least port from 49152 on that is free at the IP
    /// address, and `AddressNotAvailable` if none is.
    fn bind(net: &mut Network, addr: SocketAddr) -> (r: Result<LocalListener, Error>)
        ensures
            final(net)@ == old(net)@.bind(addr),
            match r {
                Ok(listener) => {
                    &&& old(net)@.bind_result(addr) is Ok
                    &&& listener.index() == old(net)@.listeners.len()
                },
                Err(e) => old(net)@.bind_result(addr) == Err::<SocketAddr, Error>(e),
            },
    {
        proof {
            old(net)@.free_port_is_least_free(addr.ip, FIRST_DYNAMIC_PORT as int);
        }
        match net.bind_listener(addr) {
            Ok(l) => {
                proof {
                    let at = old(net)@.bind_result(addr)->Ok_0;
                    assert(net@.listens_at(l as int, at));
                }
                Ok(LocalListener { id: l })
            },
            Err(e) => Err(e),
        }
    }

    /// Hands out the connections made to this listener in the order in
    /// which they were made. Fails with `NotConnected` once the listener is
    /// closed.
    fn accept(&self, net: &mut Network) -> (r: Poll<Result<(LocalStream, SocketAddr), Error>>)
        ensures
            final(net)@ == old(net)@.accept(self.index()),
            match r {
                Poll::Ready(Ok((stream, from))) => {
                    &&& old(net)@.accept_result(self.index()) == Poll::Ready(
                        Ok::<int, Error>(stream.link()),
                    )
                    &&& old(net)@.next_at(self.index(), stream.link())
                    &&& stream.side() == Side::Server
                },
                Poll::Ready(Err(e)) => old(net)@.accept_result(self.index()) == Poll::Ready(
                    Err::<int, Error>(e),
                ),
                Poll::Pending => old(net)@.accept_result(self.index()) is Pending,
            },
    {
        match net.accept_at(self.id) {
            Poll::Ready(Ok((k, from))) => Poll::Ready(
                Ok((LocalStream { link: k, side: Side::Server }, from)),
            ),
            Poll::Ready(Err(e)) => Poll::Ready(Err(e)),
            Poll::Pending => Poll::Pending,
        }
    }

    fn local_addr(&self, net: &Network) -> (r: Result<SocketAddr, Error>)
        ensures
            r == match self.bound_to(net) {
                Some(at) => Ok::<SocketAddr, Error>(at),
                None => Err::<SocketAddr, Error>(Error::NotConnected),
            },
    {
        net.listener_address(self.id)
    }
}

impl UdpSocket for LocalSocket {
    type Net = Network;

    open spec fn taken(net: &Network, addr: SocketAddr) -> bool {
        net@.datagram_taken(addr)
    }

    open spec fn mailbox(&self, net: &Network) -> Option<Mailbox> {
        net@.mailbox(self.index())
    }

    /// Port 0 gives the least port from 49152 on that is free at the IP
    /// address, and `AddressNotAvailable` if none is.
    fn bind(net: &mut Network, addr: SocketAddr) -> (r: Result<LocalSocket, Error>)
        ensures
            final(net)@ == old(net)@.datagram_bind(addr),
            match r {
                Ok(socket) => {
                    &&& old(net)@.datagram_bind_result(addr) is Ok
                    &&& socket.index() == old(net)@.sockets.len()
                },
                Err(e) => old(net)@.datagram_bind_result(addr) == Err::<SocketAddr, Error>(e),
            },
    {
        proof {
            old(net)@.free_datagram_port_is_least_free(addr.ip, FIRST_DYNAMIC_PORT as int);
        }
        match net.bind_socket(addr) {
            Ok(s) => {
                proof {
                    let at = old(net)@.datagram_bind_result(addr)->Ok_0;
                    assert(net@.receives_at(s as int, at));
                }
                Ok(LocalSocket { id: s })
            },
            Err(e) => Err(e),
        }
    }

    /// Completes at once. The datagram waits at the first socket bound to
    /// `addr`; where none is bound it is lost, and the call succeeds all the
    /// same.
    fn send_to(&self, net: &mut Network, buf: &[u8], addr: SocketAddr) -> (r: Poll<
        Result<usize, Error>,
    >)
        ensures
            r == Poll::Ready(old(net)@.send_result(self.index(), buf@.len(), addr)),
            final(net)@ == old(net)@.send(self.index(), buf@, addr),
    {
        Poll::Ready(net.send_from(self.id, buf, addr))
    }

    fn recv_from(&mut self, net: &mut Network, buf: &mut [u8]) -> (r: Poll<
        Result<(usize, SocketAddr), Error>,
    >)
        ensures
            r == old(net)@.recv_result(old(self).index(), old(buf)@.len()),
            final(net)@ == old(net)@.recv(old(self).index()),
    {
        net.recv_at(self.id, buf)
    }

    fn local_addr(&self, net: &Network) -> (r: Result<SocketAddr, Error>)
        ensures
            r == match self.mailbox(net) {
                Some(m) => Ok::<SocketAddr, Error>(m.local),
                None => Err::<SocketAddr, Error>(Error::NotConnected),
            },
    {
        net.socket_address(self.id)
    }
}

} // verus!
