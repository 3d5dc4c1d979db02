//! What holds of every connection, proved from what the operations may do
//! and from the model of the in-process network.

use crate::poll::Poll;
use crate::sockets::model::{Event, NetworkView, Side};
use crate::sockets::{least, Connection, Error, SocketAddr};
use vstd::prelude::*;

verus! {

/// Half-close, for every backend: after a `shutdown` that succeeded, what the
/// peer had written is still there to be read, and `write` fails with
/// `NotConnected` and changes nothing.
pub proof fn shutdown_keeps_unread_and_stops_writes(
    before: Connection,
    shut: Connection,
    bytes: Seq<u8>,
    wrote: Poll<Result<usize, Error>>,
    after: Connection,
)
    requires
        before.shutdown_allows(Ok(()), shut),
        shut.write_allows(bytes, wrote, after),
    ensures
        shut.shut,
        shut.unread == before.unread,
        wrote == Poll::Ready(Err::<usize, Error>(Error::NotConnected)),
        after == shut,
{
}

/// For every backend: a read after `shutdown` never waits. While bytes are
/// unread, a read into a buffer with room that succeeds takes some of them,
/// oldest first; once none is unread, it returns 0, the end of the stream.
pub proof fn shutdown_end_reads_to_the_end(
    end: Connection,
    before: Seq<u8>,
    got: Poll<Result<usize, Error>>,
    after: Seq<u8>,
    then: Connection,
)
    requires
        end.shut,
        before.len() > 0,
        end.read_allows(before, got, after, then),
    ensures
        !(got is Pending),
        match got {
            Poll::Ready(Ok(n)) => {
                &&& end.unread.len() > 0 ==> 1 <= n <= end.unread.len()
                &&& end.unread.len() == 0 ==> n == 0
                &&& after.take(n as int) == end.unread.take(n as int)
                &&& then.unread == end.unread.skip(n as int)
                &&& then.shut
            },
            _ => true,
        },
{
}

/// In the in-process network a read on an end that was shut down returns
/// all that fits of what is unread, and 0 once nothing is.
pub proof fn half_close(net: NetworkView, k: int, side: Side, bytes: Seq<u8>, room: nat)
    requires
        net.has_link(k),
    ensures
        ({
            let shut = net.shutdown(k, side);
            let unread = net.connection(k, side).unwrap().unread;
            &&& shut.connection(k, side) == Some(
                Connection { shut: true, ..net.connection(k, side).unwrap() },
            )
            &&& shut.write_result(k, side, bytes.len()) == Err::<usize, Error>(Error::NotConnected)
            &&& shut.write(k, side, bytes) == shut
            &&& shut.write_result(k, side.other(), bytes.len()) is Err
            &&& shut.write(k, side.other(), bytes) == shut
            &&& shut.read_result(k, side, room) == Poll::Ready(
                Ok::<usize, Error>(least(room, unread.len()) as usize),
            )
            &&& shut.read(k, side, room).connection(k, side).unwrap().unread == unread.skip(
                least(room, unread.len()) as int,
            )
            &&& shut.read(k, side, room).connection(k, side).unwrap().shut
        }),
{
}

/// The other end of a connection that was shut down on one side finds the
/// end of the stream once it has read what was written before.
pub proof fn peer_reads_to_the_end(net: NetworkView, k: int, side: Side, room: nat)
    requires
        net.has_link(k),
        room > 0,
    ensures
        ({
            let shut = net.shutdown(k, side);
            let unread = net.connection(k, side.other()).unwrap().unread;
            &&& shut.connection(k, side.other()) == Some(
                Connection { peer_shut: true, ..net.connection(k, side.other()).unwrap() },
            )
            &&& shut.read_result(k, side.other(), room) == Poll::Ready(
                Ok::<usize, Error>(least(room, unread.len()) as usize),
            )
        }),
{
}

/// Bytes keep their order: what is written on one end is read on the other
/// behind what was written before, and two writes arrive one behind the
/// other.
pub proof fn bytes_keep_their_order(
    net: NetworkView,
    k: int,
    side: Side,
    first: Seq<u8>,
    second: Seq<u8>,
)
    requires
        net.write_result(k, side, first.len()) is Ok,
    ensures
        net.write(k, side, first).write_result(k, side, second.len()) is Ok,
        net.write(k, side, first).write(k, side, second).connection(k, side.other()).unwrap().unread
            == net.connection(k, side.other()).unwrap().unread + first + second,
        net.write(k, side, first).connection(k, side) == net.connection(k, side),
{
    let before = net.connection(k, side.other()).unwrap().unread;
    let after = net.write(k, side, first).write(k, side, second).connection(
        k,
        side.other(),
    ).unwrap().unread;
    assert(after =~= before + first + second);
}

/// What one end writes into an empty direction is what the other end reads,
/// as far as the buffer has room.
pub proof fn written_is_read(net: NetworkView, k: int, side: Side, bytes: Seq<u8>, room: nat)
    requires
        net.write_result(k, side, bytes.len()) is Ok,
        net.connection(k, side.other()).unwrap().unread.len() == 0,
        bytes.len() > 0,
        room > 0,
    ensures
        ({
            let sent = net.write(k, side, bytes);
            &&& sent.connection(k, side.other()).unwrap().unread == bytes
            &&& sent.read_result(k, side.other(), room) == Poll::Ready(
                Ok::<usize, Error>(least(room, bytes.len()) as usize),
            )
        }),
{
    assert(net.write(k, side, bytes).connection(k, side.other()).unwrap().unread =~= bytes);
}

/// A connection is there as soon as `connect` has returned: its two ends
/// name each other's address, before and after the listener hands it out.
pub proof fn ends_name_each_other(net: NetworkView, local: SocketAddr, addr: SocketAddr)
    requires
        net.connect_result(local, addr) is Ok,
    ensures
        ({
            let k = net.links.len() as int;
            let l = net.connect_result(local, addr)->Ok_0;
            let made = net.connect(local, addr);
            let taken = made.accept(l);
            &&& net.answers(l, addr)
            &&& made.connection(k, Side::Client).unwrap().local == local
            &&& made.connection(k, Side::Client).unwrap().peer == addr
            &&& made.queued_at(l, k)
            &&& made.accept_result(l) is Ready
            &&& taken.connection(k, Side::Server).unwrap().peer == taken.connection(
                k,
                Side::Client,
            ).unwrap().local
            &&& taken.connection(k, Side::Server).unwrap().local == taken.connection(
                k,
                Side::Client,
            ).unwrap().peer
        }),
{
    let k = net.links.len() as int;
    let l = net.connect_result(local, addr)->Ok_0;
    let made = net.connect(local, addr);
    some_listener_answers(net, addr);
    assert(made.queued_at(l, k));
    some_link_is_next(made, l);
    assert(made.next_at(l, made.accept_result(l)->Ready_0->Ok_0));
}

/// Where a listener is bound to an address, one of them is the first.
pub proof fn some_listener_answers(net: NetworkView, addr: SocketAddr)
    requires
        net.taken(addr),
    ensures
        exists|l: int| net.answers(l, addr),
{
    let some = choose|l: int| net.listens_at(l, addr);
    first_listener_below(net, addr, some);
}

proof fn first_listener_below(net: NetworkView, addr: SocketAddr, upto: int)
    requires
        0 <= upto < net.listeners.len(),
        net.listens_at(upto, addr),
    ensures
        exists|l: int| net.answers(l, addr),
    decreases upto,
{
    if exists|m: int| 0 <= m < upto && net.listens_at(m, addr) {
        let m = choose|m: int| 0 <= m < upto && net.listens_at(m, addr);
        first_listener_below(net, addr, m);
    } else {
        assert(net.answers(upto, addr));
    }
}

/// Where a connection waits at a listener, one of them is the oldest.
pub proof fn some_link_is_next(net: NetworkView, l: int)
    requires
        net.has_queued(l),
    ensures
        exists|k: int| net.next_at(l, k),
{
    let some = choose|k: int| net.queued_at(l, k);
    first_link_below(net, l, some);
}

proof fn first_link_below(net: NetworkView, l: int, upto: int)
    requires
        net.queued_at(l, upto),
    ensures
        exists|k: int| net.next_at(l, k),
    decreases upto,
{
    if exists|j: int| 0 <= j < upto && net.queued_at(l, j) {
        let j = choose|j: int| 0 <= j < upto && net.queued_at(l, j);
        first_link_below(net, l, j);
    } else {
        assert(net.next_at(l, upto));
    }
}

/// A listener and the connections it has handed out do not depend on each
/// other: closing the listener leaves them as they are, and shutting one of
/// them down leaves the listener bound.
pub proof fn listener_and_connections_are_independent(
    net: NetworkView,
    l: int,
    k: int,
    side: Side,
    j: int,
    end: Side,
)
    requires
        net.has_link(k),
        net.links[k].accepted,
    ensures
        net.close_listener(l).connection(k, side) == net.connection(k, side),
        net.shutdown(j, end).listening(l) == net.listening(l),
{
}

/// An address is refused while a listener is bound to it, and can be bound
/// again once that listener is closed.
pub proof fn address_in_use(net: NetworkView, addr: SocketAddr)
    requires
        addr.port != 0,
        net.bind_result(addr) is Ok,
    ensures
        ({
            let l = net.listeners.len() as int;
            let bound = net.bind(addr);
            &&& bound.listening(l) == Some(addr)
            &&& bound.bind_result(addr) == Err::<SocketAddr, Error>(Error::AddressInUse)
            &&& bound.bind(addr) == bound
            &&& bound.close_listener(l).bind_result(addr) == Ok::<SocketAddr, Error>(addr)
        }),
{
    let l = net.listeners.len() as int;
    let bound = net.bind(addr);
    assert(bound.listens_at(l, addr));
    let closed = bound.close_listener(l);
    assert forall|m: int| !#[trigger] closed.listens_at(m, addr) by {
        if closed.listens_at(m, addr) {
            assert(net.listens_at(m, addr));
        }
    }
}

/// Datagrams are independent of each other and of who receives them: one
/// that is sent to an address where a socket is bound waits there, whole,
/// with its sender's address, behind those that came before; one that is
/// sent elsewhere changes nothing.
pub proof fn datagram_is_delivered_whole(
    net: NetworkView,
    s: int,
    bytes: Seq<u8>,
    addr: SocketAddr,
    t: int,
)
    requires
        net.send_result(s, bytes.len(), addr) is Ok,
    ensures
        net.collects(t, addr) ==> net.send(s, bytes, addr).mailbox(t).unwrap().waiting
            == net.mailbox(t).unwrap().waiting.push((bytes, net.mailbox(s).unwrap().local)),
        !net.collects(t, addr) ==> net.send(s, bytes, addr).mailbox(t) == net.mailbox(t),
        !net.datagram_taken(addr) ==> net.send(s, bytes, addr) == net,
{
    if net.datagram_taken(addr) {
        let some = choose|u: int| net.receives_at(u, addr);
        first_socket_below(net, addr, some);
        let to = choose|u: int| net.collects(u, addr);
        if net.collects(t, addr) {
            net.collects_is_unique(t, to, addr);
        }
    }
}

proof fn first_socket_below(net: NetworkView, addr: SocketAddr, upto: int)
    requires
        net.receives_at(upto, addr),
    ensures
        exists|s: int| net.collects(s, addr),
    decreases upto,
{
    if exists|t: int| 0 <= t < upto && net.receives_at(t, addr) {
        let t = choose|t: int| 0 <= t < upto && net.receives_at(t, addr);
        first_socket_below(net, addr, t);
    } else {
        assert(net.collects(upto, addr));
    }
}

/// Whatever is done to a network, a connection stays a connection between
/// the same two addresses, an end that was shut down stays shut down, and a
/// listener that was closed stays closed.
pub proof fn nothing_comes_back(net: NetworkView, events: Seq<Event>, k: int, side: Side, l: int)
    ensures
        net.has_listener(l) ==> {
            &&& net.run(events).has_listener(l)
            &&& net.run(events).listeners[l].addr == net.listeners[l].addr
            &&& !net.listeners[l].open ==> !net.run(events).listeners[l].open
        },
        net.has_link(k) ==> {
            &&& net.run(events).has_link(k)
            &&& net.run(events).connection(k, side).unwrap().local == net.connection(
                k,
                side,
            ).unwrap().local
            &&& net.run(events).connection(k, side).unwrap().peer == net.connection(
                k,
                side,
            ).unwrap().peer
            &&& net.links[k].shut(side) ==> net.run(events).links[k].shut(side)
        },
    decreases events.len(),
{
    if events.len() > 0 {
        let before = net.run(events.drop_last());
        nothing_comes_back(net, events.drop_last(), k, side, l);
        if net.has_link(k) {
            nothing_comes_back(net, events.drop_last(), k, side, net.links[k].listener);
            assert(before.links[k].listener == net.links[k].listener) by {
                link_keeps_its_listener(net, events.drop_last(), k);
            }
        }
        match events.last() {
            Event::Connect(local, addr) => {
                if before.connect_result(local, addr) is Ok {
                    some_listener_answers(before, addr);
                }
            },
            Event::Accept(j) => {
                if before.accept_result(j) is Ready && before.accept_result(j)->Ready_0 is Ok {
                    some_link_is_next(before, j);
                }
            },
            _ => {},
        }
    }
}

proof fn link_keeps_its_listener(net: NetworkView, events: Seq<Event>, k: int)
    requires
        0 <= k < net.links.len(),
    ensures
        k < net.run(events).links.len(),
        net.run(events).links[k].listener == net.links[k].listener,
        net.run(events).links[k].client == net.links[k].client,
    decreases events.len(),
{
    if events.len() > 0 {
        let before = net.run(events.drop_last());
        link_keeps_its_listener(net, events.drop_last(), k);
        match events.last() {
            Event::Accept(j) => {
                if before.accept_result(j) is Ready && before.accept_result(j)->Ready_0 is Ok {
                    some_link_is_next(before, j);
                }
            },
            _ => {},
        }
    }
}

/// After `shutdown`, at any later time: `write` on that end fails with
/// `NotConnected`, and nothing new arrives for it, so that what is unread
/// is what is left of what was unread at the shutdown.
pub proof fn shutdown_is_final(net: NetworkView, events: Seq<Event>, k: int, side: Side, n: nat)
    requires
        net.has_link(k),
        net.links[k].shut(side),
    ensures
        net.run(events).write_result(k, side, n) == Err::<usize, Error>(Error::NotConnected),
        exists|read: int|
            0 <= read <= net.links[k].unread(side).len() && net.run(events).links[k].unread(side)
                == net.links[k].unread(side).skip(read),
    decreases events.len(),
{
    nothing_comes_back(net, events, k, side, 0);
    if events.len() == 0 {
        assert(net.links[k].unread(side).skip(0) =~= net.links[k].unread(side));
    } else {
        let earlier = events.drop_last();
        let before = net.run(earlier);
        shutdown_is_final(net, earlier, k, side, n);
        nothing_comes_back(net, earlier, k, side, 0);
        let at_first = net.links[k].unread(side);
        let was = before.links[k].unread(side);
        let read = choose|read: int| 0 <= read <= at_first.len() && was == at_first.skip(read);
        match events.last() {
            Event::Read(j, end, room) => {
                // Only a read at this end takes from what is unread here.
                if j == k && end == side {
                    let m = least(room, was.len()) as int;
                    assert(was.skip(m) =~= at_first.skip(read + m));
                }
            },
            Event::Accept(j) => {
                if before.accept_result(j) is Ready && before.accept_result(j)->Ready_0 is Ok {
                    some_link_is_next(before, j);
                }
            },
            // A write at the other end is refused: this end is shut down.
            _ => {},
        }
    }
}

} // verus!
