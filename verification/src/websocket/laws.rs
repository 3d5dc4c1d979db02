//! What holds of every client, proved from what the operations may do.

use crate::poll::Poll;
use crate::websocket::model::{Event, Link};
use crate::websocket::{Error, Frame, Session};
use vstd::prelude::*;

verus! {

/// Closed is final: whatever is called on a closed client, it is closed
/// afterwards and has put nothing more on the wire.
pub proof fn closed_is_final(
    before: Session,
    message: Frame,
    sent: Poll<Result<(), Error>>,
    after_send: Session,
    got: Poll<Result<Frame, Error>>,
    after_recv: Session,
    shut: Poll<Result<(), Error>>,
    after_close: Session,
)
    requires
        before.closed,
        before.send_allows(message, sent, after_send),
        before.recv_allows(got, after_recv),
        before.close_allows(shut, after_close),
    ensures
        sent == Poll::Ready(Err::<(), Error>(Error::Closed)),
        got == Poll::Ready(Err::<Frame, Error>(Error::Closed)),
        after_send == before,
        after_recv == before,
        after_close.closed,
{
}

/// After `Close` was sent, `send` and `recv` fail with `Closed`.
pub proof fn nothing_after_close_sent(
    before: Session,
    after: Session,
    message: Frame,
    sent: Poll<Result<(), Error>>,
    after_send: Session,
    got: Poll<Result<Frame, Error>>,
    after_recv: Session,
)
    requires
        before.send_allows(Frame::Close, Poll::Ready(Ok::<(), Error>(())), after),
        after.send_allows(message, sent, after_send),
        after.recv_allows(got, after_recv),
    ensures
        sent == Poll::Ready(Err::<(), Error>(Error::Closed)),
        got == Poll::Ready(Err::<Frame, Error>(Error::Closed)),
{
}

/// A `Close` from the peer is handed out once, as a message and not as an
/// error; the `recv` and the `send` after it fail with `Closed`.
pub proof fn close_is_received_once(
    before: Session,
    after: Session,
    message: Frame,
    sent: Poll<Result<(), Error>>,
    after_send: Session,
    got: Poll<Result<Frame, Error>>,
    after_recv: Session,
)
    requires
        before.recv_allows(Poll::Ready(Ok::<Frame, Error>(Frame::Close)), after),
        after.send_allows(message, sent, after_send),
        after.recv_allows(got, after_recv),
    ensures
        !before.closed,
        got == Poll::Ready(Err::<Frame, Error>(Error::Closed)),
        sent == Poll::Ready(Err::<(), Error>(Error::Closed)),
{
}

/// `close` is idempotent: after a `close` that completed, another `close`
/// leaves the client closed, and both together put at most one `Close` on
/// the wire, and none if one was sent before.
pub proof fn close_twice(
    before: Session,
    first: Poll<Result<(), Error>>,
    between: Session,
    second: Poll<Result<(), Error>>,
    after: Session,
)
    requires
        before.close_allows(first, between),
        first is Ready,
        between.close_allows(second, after),
    ensures
        between.closed,
        after.closed,
        after.sent == before.sent || (after.sent == before.sent.push(Frame::Close)
            && !before.sent.contains(Frame::Close)),
{
    if between.sent != before.sent && after.sent != between.sent {
        assert(between.sent.last() == Frame::Close);
    }
}

/// Messages go on the wire in the order of the calls: each `send` that
/// succeeds puts its message behind all that were sent before.
pub proof fn sends_keep_their_order(
    before: Session,
    first: Frame,
    between: Session,
    second: Frame,
    after: Session,
)
    requires
        before.send_allows(first, Poll::Ready(Ok::<(), Error>(())), between),
        between.send_allows(second, Poll::Ready(Ok::<(), Error>(())), after),
    ensures
        after.sent == before.sent.push(first).push(second),
        !(first is Close),
{
}

/// In the in-process client closed is for good: whatever is done to a
/// closed client or to its connection, `send` and `recv` fail with `Closed`
/// ever after, and all that can still go on the wire is one `Close`, by
/// `close`, if none was sent before.
pub proof fn closed_for_good(link: Link, events: Seq<Event>)
    requires
        link.closed,
    ensures
        link.run(events).closed,
        link.run(events).send_result() == Err::<(), Error>(Error::Closed),
        link.run(events).recv_result() == Poll::Ready(Err::<Frame, Error>(Error::Closed)),
        link.run(events).sent == link.sent || (link.run(events).sent == link.sent.push(
            Frame::Close,
        ) && !link.sent.contains(Frame::Close)),
    decreases events.len(),
{
    if events.len() > 0 {
        let before = link.run(events.drop_last());
        closed_for_good(link, events.drop_last());
        if before.sent != link.sent {
            assert(before.sent.last() == Frame::Close);
        }
    }
}

/// The close handshake in the in-process client: a `send` of `Close` on an
/// open client whose transport holds succeeds and closes it; a `Close` that
/// has arrived is handed out by `recv` as a message, once, and closes it.
pub proof fn close_handshake(link: Link)
    requires
        !link.closed,
    ensures
        !link.broken ==> link.send_result() == Ok::<(), Error>(()) && link.send(
            Frame::Close,
        ).closed,
        link.arrived.len() > 0 && link.arrived[0] == Frame::Close ==> {
            &&& link.recv_result() == Poll::Ready(Ok::<Frame, Error>(Frame::Close))
            &&& link.recv().closed
            &&& link.recv().recv_result() == Poll::Ready(Err::<Frame, Error>(Error::Closed))
            &&& link.recv().send_result() == Err::<(), Error>(Error::Closed)
        },
{
}

/// What the in-process client does is what every client may do.
pub proof fn in_process_client_keeps_the_contract(link: Link, message: Frame)
    ensures
        link.session().send_allows(
            message,
            Poll::Ready(link.send_result()),
            link.send(message).session(),
        ),
        link.session().recv_allows(link.recv_result(), link.recv().session()),
        link.session().close_allows(Poll::Ready(Ok::<(), Error>(())), link.close().session()),
{
}

} // verus!
