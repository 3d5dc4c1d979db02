//! What holds of every channel and topic, proved from the model that the
//! operations' contracts are stated over.

use crate::messaging::model::{Event, FabricView};
use crate::messaging::{Error, Inbox, MessageView};
use crate::poll::Poll;
use vstd::prelude::*;

verus! {

/// After `k` receiving operations an inbox has lost its `k` oldest messages,
/// or all of them if it had fewer; whether it is closed does not change.
pub proof fn advance_by_skips(inbox: Inbox, k: nat)
    ensures
        inbox.advance_by(k).closed == inbox.closed,
        k <= inbox.pending.len() ==> inbox.advance_by(k).pending == inbox.pending.skip(k as int),
        k >= inbox.pending.len() ==> inbox.advance_by(k).pending == Seq::<MessageView>::empty(),
    decreases k,
{
    if k > 0 {
        advance_by_skips(inbox.advance(), (k - 1) as nat);
    }
}

/// An inbox is drained in order: the receive that follows `k` earlier ones
/// returns the message that was at position `k`, whichever of the three
/// receiving operations is used and whether or not the inbox is closed.
pub proof fn drains_in_order(inbox: Inbox, k: nat, timeout: u128, waited: u128)
    requires
        k < inbox.pending.len(),
    ensures
        inbox.advance_by(k).receive() == Poll::Ready(
            Ok::<MessageView, Error>(inbox.pending[k as int]),
        ),
        inbox.advance_by(k).receive_timeout(timeout, waited) == Poll::Ready(
            Ok::<MessageView, Error>(inbox.pending[k as int]),
        ),
        inbox.advance_by(k).try_receive() == Ok::<Option<MessageView>, Error>(
            Some(inbox.pending[k as int]),
        ),
{
    advance_by_skips(inbox, k);
}

/// Once a closed inbox is drained, every further receive fails with
/// `Closed`, however many came before it.
pub proof fn closed_once_drained(inbox: Inbox, k: nat, timeout: u128, waited: u128)
    requires
        inbox.closed,
        k >= inbox.pending.len(),
    ensures
        inbox.advance_by(k).receive() == Poll::Ready(Err::<MessageView, Error>(Error::Closed)),
        inbox.advance_by(k).receive_timeout(timeout, waited) == Poll::Ready(
            Err::<MessageView, Error>(Error::Closed),
        ),
        inbox.advance_by(k).try_receive() == Err::<Option<MessageView>, Error>(Error::Closed),
{
    advance_by_skips(inbox, k);
}

/// A drained inbox that is not closed makes `receive` wait and
/// `try_receive` return `None`; neither fails.
pub proof fn waits_once_drained(inbox: Inbox, k: nat)
    requires
        !inbox.closed,
        k >= inbox.pending.len(),
    ensures
        inbox.advance_by(k).receive() == Poll::<Result<MessageView, Error>>::Pending,
        inbox.advance_by(k).try_receive() == Ok::<Option<MessageView>, Error>(None),
{
    advance_by_skips(inbox, k);
}

/// `receive_timeout` ends in `Timeout` exactly when nothing waits, the inbox
/// is not closed and the time waited has reached the limit; before that, on
/// such an inbox, it waits.
pub proof fn timeout_boundary(inbox: Inbox, timeout: u128, waited: u128)
    ensures
        inbox.receive_timeout(timeout, waited) == Poll::Ready(
            Err::<MessageView, Error>(Error::Timeout),
        ) <==> inbox.pending.len() == 0 && !inbox.closed && waited >= timeout,
        inbox.receive_timeout(timeout, waited) == Poll::<Result<MessageView, Error>>::Pending
            <==> inbox.pending.len() == 0 && !inbox.closed && waited < timeout,
{
}

/// With a limit of zero `receive_timeout` never waits and does what
/// `try_receive` does: the same message if one waits, the same `Closed`, and
/// `Timeout` where `try_receive` returns `None`. Both leave the same inbox.
pub proof fn zero_timeout_is_try_receive(inbox: Inbox, waited: u128)
    ensures
        inbox.receive_timeout(0, waited) == match inbox.try_receive() {
            Ok(Some(m)) => Poll::Ready(Ok::<MessageView, Error>(m)),
            Ok(None) => Poll::Ready(Err::<MessageView, Error>(Error::Timeout)),
            Err(e) => Poll::Ready(Err::<MessageView, Error>(e)),
        },
{
}

/// Sending a sequence of messages on a channel whose ends are both held
/// puts them behind what was queued, in the order of sending, and leaves
/// both ends held.
pub proof fn send_all_appends(fabric: FabricView, c: int, messages: Seq<MessageView>)
    requires
        fabric.can_send(c),
    ensures
        fabric.send_all(c, messages).can_send(c),
        fabric.send_all(c, messages).pipe_inbox(c) == (Inbox {
            pending: fabric.pipe_inbox(c).pending + messages,
            closed: false,
        }),
    decreases messages.len(),
{
    if messages.len() > 0 {
        send_all_appends(fabric, c, messages.drop_last());
        assert((fabric.pipe_inbox(c).pending + messages.drop_last()).push(messages.last())
            =~= fabric.pipe_inbox(c).pending + messages);
    }
}

/// First in, first out: of the messages that one sender sends on a fresh
/// channel before any is received, the receive that follows `k` earlier
/// ones returns the one that was sent at position `k`.
pub proof fn fifo_per_channel(fabric: FabricView, c: int, messages: Seq<MessageView>, k: nat)
    requires
        fabric.can_send(c),
        fabric.pipes[c].queue.len() == 0,
        k < messages.len(),
    ensures
        fabric.send_all(c, messages).pipe_inbox(c).advance_by(k).receive() == Poll::Ready(
            Ok::<MessageView, Error>(messages[k as int]),
        ),
{
    send_all_appends(fabric, c, messages);
    drains_in_order(fabric.send_all(c, messages).pipe_inbox(c), k, 0, 0);
}

/// Giving up the sending end keeps what is queued and closes the inbox of
/// the receiving end: the receiver drains the queue in order and is told
/// `Closed` by every receive after that.
pub proof fn closed_propagation(fabric: FabricView, c: int, k: nat)
    requires
        fabric.has_pipe(c),
        fabric.pipes[c].receiver_held,
    ensures
        fabric.close_sender(c).pipe_inbox(c) == (Inbox {
            pending: fabric.pipe_inbox(c).pending,
            closed: true,
        }),
        k < fabric.pipe_inbox(c).pending.len() ==> fabric.close_sender(c).pipe_inbox(
            c,
        ).advance_by(k).receive() == Poll::Ready(
            Ok::<MessageView, Error>(fabric.pipe_inbox(c).pending[k as int]),
        ),
        k >= fabric.pipe_inbox(c).pending.len() ==> fabric.close_sender(c).pipe_inbox(
            c,
        ).advance_by(k).receive() == Poll::Ready(Err::<MessageView, Error>(Error::Closed)),
{
    let closed = fabric.close_sender(c).pipe_inbox(c);
    if k < closed.pending.len() {
        drains_in_order(closed, k, 0, 0);
    } else {
        closed_once_drained(closed, k, 0, 0);
    }
}

/// Giving up the receiving end drops what was queued, and the sending end is
/// refused from then on.
pub proof fn receiver_gone_refuses(fabric: FabricView, c: int, message: MessageView)
    requires
        fabric.has_pipe(c),
    ensures
        !fabric.close_receiver(c).can_send(c),
        fabric.close_receiver(c).send(c, message) == fabric.close_receiver(c),
        fabric.close_receiver(c).pipe_inbox(c) == Inbox::shut(),
{
}

/// Fan-out: a message published on a topic goes once to each subscriber,
/// behind what already waits for it.
pub proof fn publish_reaches_each_subscriber(
    fabric: FabricView,
    t: int,
    s: int,
    message: MessageView,
)
    requires
        fabric.has_cursor(t, s),
        fabric.topics[t].cursors[s].active,
    ensures
        fabric.publish(t, message).cursor_inbox(t, s) == fabric.cursor_inbox(t, s).deliver(
            message,
        ),
{
}

/// A message published on one topic changes nothing for the subscribers of
/// another, nor for any channel.
pub proof fn publish_stays_on_its_topic(
    fabric: FabricView,
    t: int,
    message: MessageView,
    u: int,
    s: int,
    c: int,
)
    requires
        u != t,
    ensures
        fabric.publish(t, message).cursor_inbox(u, s) == fabric.cursor_inbox(u, s),
        fabric.publish(t, message).pipe_inbox(c) == fabric.pipe_inbox(c),
        fabric.publish(t, message).pipe_outlet(c) == fabric.pipe_outlet(c),
{
}

/// Isolation: what one subscriber receives, and when, changes nothing for
/// another subscriber, of the same topic or of another.
pub proof fn subscribers_are_independent(fabric: FabricView, t: int, s: int, u: int, r: int)
    requires
        t != u || s != r,
    ensures
        fabric.take_from_cursor(t, s).cursor_inbox(u, r) == fabric.cursor_inbox(u, r),
        fabric.unsubscribe(t, s).cursor_inbox(u, r) == fabric.cursor_inbox(u, r),
{
}

/// No backfill: a subscriber that joins a topic starts with nothing, so a
/// message published before is not delivered to it; and its joining changes
/// nothing for those who subscribed before.
pub proof fn late_subscriber_starts_empty(fabric: FabricView, t: int, message: MessageView, s: int)
    requires
        fabric.has_topic(t),
    ensures
        ({
            let published = fabric.publish(t, message);
            let joined = published.subscribe(t);
            let late = published.topics[t].cursors.len() as int;
            &&& late == fabric.topics[t].cursors.len()
            &&& !published.has_cursor(t, late)
            &&& joined.cursor_inbox(t, late) == Inbox::fresh()
            &&& s != late ==> joined.cursor_inbox(t, s) == published.cursor_inbox(t, s)
        }),
{
}

/// Two subscribers that joined a topic before a message was published both
/// find it in their inbox, once, whichever of them receives first; one that
/// joins afterwards does not.
pub proof fn fan_out_isolation(fabric: FabricView, t: int, message: MessageView)
    requires
        fabric.has_topic(t),
    ensures
        ({
            let first = fabric.topics[t].cursors.len() as int;
            let second = first + 1;
            let third = first + 2;
            let published = fabric.subscribe(t).subscribe(t).publish(t, message);
            let one_took = published.take_from_cursor(t, first);
            let other_took = published.take_from_cursor(t, second);
            let joined = published.subscribe(t);
            &&& published.cursor_inbox(t, first) == Inbox::fresh().deliver(message)
            &&& published.cursor_inbox(t, second) == Inbox::fresh().deliver(message)
            &&& published.cursor_inbox(t, first).receive() == Poll::Ready(
                Ok::<MessageView, Error>(message),
            )
            &&& one_took.cursor_inbox(t, first) == Inbox::fresh()
            &&& one_took.cursor_inbox(t, second) == Inbox::fresh().deliver(message)
            &&& other_took.cursor_inbox(t, second) == Inbox::fresh()
            &&& other_took.cursor_inbox(t, first) == Inbox::fresh().deliver(message)
            &&& joined.cursor_inbox(t, third) == Inbox::fresh()
        }),
{
    assert(Inbox::fresh().deliver(message).pending.drop_first() =~= Seq::<MessageView>::empty());
}

/// After a subscriber unsubscribed nothing is delivered to it: its inbox is
/// empty and closed, and stays so whatever is published.
pub proof fn unsubscribed_gets_nothing(fabric: FabricView, t: int, s: int, message: MessageView)
    requires
        fabric.has_cursor(t, s),
    ensures
        fabric.unsubscribe(t, s).cursor_inbox(t, s) == Inbox::shut(),
        fabric.unsubscribe(t, s).publish(t, message).cursor_inbox(t, s) == Inbox::shut(),
        Inbox::shut().receive() == Poll::Ready(Err::<MessageView, Error>(Error::Closed)),
{
}

/// A topic's name is its identity: asking for a name twice gives the same
/// topic, and the second asking changes nothing.
pub proof fn topic_is_found_again(fabric: FabricView, name: Seq<char>, t: int, u: int)
    requires
        fabric.topic(name).first_named(t, name),
        fabric.topic(name).topic(name).first_named(u, name),
    ensures
        fabric.topic(name).knows(name),
        fabric.topic(name).topic(name) == fabric.topic(name),
        t == u,
{
}

/// Asking for a topic never makes two topics bear the same name.
pub proof fn names_stay_distinct(fabric: FabricView, name: Seq<char>)
    requires
        fabric.names_distinct(),
    ensures
        fabric.topic(name).names_distinct(),
{
}

/// Whatever is done to a fabric, its channels, topics and subscribers stay,
/// a topic keeps its name, an end that was given up stays given up, and a
/// subscriber that unsubscribed stays so.
pub proof fn nothing_comes_back(fabric: FabricView, events: Seq<Event>, c: int, t: int, s: int)
    ensures
        fabric.has_pipe(c) ==> {
            &&& fabric.run(events).has_pipe(c)
            &&& !fabric.pipes[c].sender_held ==> !fabric.run(events).pipes[c].sender_held
            &&& !fabric.pipes[c].receiver_held ==> !fabric.run(events).pipes[c].receiver_held
        },
        fabric.has_topic(t) ==> {
            &&& fabric.run(events).has_topic(t)
            &&& fabric.run(events).topics[t].name == fabric.topics[t].name
        },
        fabric.has_cursor(t, s) ==> {
            &&& fabric.run(events).has_cursor(t, s)
            &&& !fabric.topics[t].cursors[s].active ==> !fabric.run(
                events,
            ).topics[t].cursors[s].active
        },
    decreases events.len(),
{
    if events.len() > 0 {
        nothing_comes_back(fabric, events.drop_last(), c, t, s);
    }
}

/// No flapping: once the receiving end of a channel is told `Closed`, it is
/// told so by every later receive, whatever is done to the fabric in
/// between. The same holds of a subscriber.
pub proof fn closed_stays_closed(fabric: FabricView, events: Seq<Event>, c: int, t: int, s: int)
    ensures
        fabric.has_pipe(c) && fabric.pipe_inbox(c).receive() == Poll::Ready(
            Err::<MessageView, Error>(Error::Closed),
        ) ==> fabric.run(events).pipe_inbox(c).receive() == Poll::Ready(
            Err::<MessageView, Error>(Error::Closed),
        ),
        fabric.has_cursor(t, s) && fabric.cursor_inbox(t, s).receive() == Poll::Ready(
            Err::<MessageView, Error>(Error::Closed),
        ) ==> fabric.run(events).cursor_inbox(t, s).receive() == Poll::Ready(
            Err::<MessageView, Error>(Error::Closed),
        ),
    decreases events.len(),
{
    if events.len() > 0 {
        closed_stays_closed(fabric, events.drop_last(), c, t, s);
        nothing_comes_back(fabric, events.drop_last(), c, t, s);
    }
}

/// Once the sending end of a channel is refused, it is refused ever after.
pub proof fn refused_stays_refused(fabric: FabricView, events: Seq<Event>, c: int)
    requires
        fabric.has_pipe(c),
        !fabric.can_send(c),
    ensures
        !fabric.run(events).can_send(c),
{
    nothing_comes_back(fabric, events, c, 0, 0);
}

/// From a fabric in which no two topics bear the same name, no sequence of
/// operations leads to one in which two do.
pub proof fn names_are_unique(fabric: FabricView, events: Seq<Event>)
    requires
        fabric.names_distinct(),
    ensures
        fabric.run(events).names_distinct(),
    decreases events.len(),
{
    if events.len() > 0 {
        names_are_unique(fabric, events.drop_last());
        if let Event::Topic(name) = events.last() {
            names_stay_distinct(fabric.run(events.drop_last()), name);
        }
    }
}

/// Whether `message` is published on topic `t` by one of `events`.
pub open spec fn published(events: Seq<Event>, t: int, message: MessageView) -> bool {
    exists|i: int| 0 <= i < events.len() && #[trigger] events[i] == Event::Publish(t, message)
}

/// What waits for a subscriber was published on its topic after it
/// subscribed: a subscriber that starts with nothing never holds, and so
/// never receives, a message that is not published again.
pub proof fn only_what_was_published_since(
    fabric: FabricView,
    events: Seq<Event>,
    t: int,
    s: int,
    i: int,
)
    requires
        fabric.has_cursor(t, s),
        fabric.topics[t].cursors[s].queue.len() == 0,
        0 <= i < fabric.run(events).cursor_inbox(t, s).pending.len(),
    ensures
        published(events, t, fabric.run(events).cursor_inbox(t, s).pending[i]),
    decreases events.len(),
{
    if events.len() > 0 {
        let earlier = events.drop_last();
        let was = fabric.run(earlier).cursor_inbox(t, s).pending;
        nothing_comes_back(fabric, earlier, 0, t, s);
        // The message was in the inbox before the last operation, at `j`,
        // unless that operation published it.
        let came_last = events.last() matches Event::Publish(u, _) && u == t && i == was.len();
        if !came_last {
            let j = if events.last() == Event::Take(t, s) && was.len() > 0 {
                i + 1
            } else {
                i
            };
            only_what_was_published_since(fabric, earlier, t, s, j);
        }
    }
}

} // verus!
