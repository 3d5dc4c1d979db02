//! An in-process messaging fabric.
//!
//! The fabric owns every queue. A channel's ends and a topic's subscribers
//! are handles into it. Queues are unbounded: a send or a publish is never
//! slowed or refused for want of room. An end is given up by `close`, a
//! subscription by `unsubscribe`; what still waited for it is dropped.
//! A handle that the fabric does not know behaves as one whose other side
//! is gone.

use crate::messaging::model::{CursorView, FabricView, PipeView, TopicView};
use crate::messaging::{
    taken, Channel, Error, Inbox, Message, MessageView, Messaging, Outlet, Receiver, Sender,
    Subscriber, Topic,
};
use crate::poll::Poll;
use vstd::prelude::*;

verus! {

struct Pipe {
    queue: Vec<Message>,
    sender_held: bool,
    receiver_held: bool,
}

struct Cursor {
    queue: Vec<Message>,
    active: bool,
}

struct TopicState {
    name: String,
    cursors: Vec<Cursor>,
}

/// The state of the in-process messaging system: every channel and topic
/// that was made in it.
pub struct Fabric {
    pipes: Vec<Pipe>,
    topics: Vec<TopicState>,
}

spec fn queue_view(queue: Seq<Message>) -> Seq<MessageView> {
    Seq::new(queue.len(), |i: int| queue[i]@)
}

impl View for Pipe {
    type V = PipeView;

    closed spec fn view(&self) -> PipeView {
        PipeView {
            queue: queue_view(self.queue@),
            sender_held: self.sender_held,
            receiver_held: self.receiver_held,
        }
    }
}

impl View for Cursor {
    type V = CursorView;

    closed spec fn view(&self) -> CursorView {
        CursorView { queue: queue_view(self.queue@), active: self.active }
    }
}

impl View for TopicState {
    type V = TopicView;

    closed spec fn view(&self) -> TopicView {
        TopicView {
            name: self.name@,
            cursors: Seq::new(self.cursors@.len(), |s: int| self.cursors@[s]@),
        }
    }
}

impl View for Fabric {
    type V = FabricView;

    closed spec fn view(&self) -> FabricView {
        FabricView {
            pipes: Seq::new(self.pipes@.len(), |c: int| self.pipes@[c]@),
            topics: Seq::new(self.topics@.len(), |t: int| self.topics@[t]@),
        }
    }
}

/// Takes the oldest message off `queue`, if there is one.
fn take_oldest(queue: &mut Vec<Message>) -> (m: Option<Message>)
    ensures
        old(queue)@.len() == 0 ==> m is None && final(queue)@ == old(queue)@,
        old(queue)@.len() > 0 ==> m == Some(old(queue)@[0]) && queue_view(final(queue)@)
            == queue_view(old(queue)@).drop_first(),
{
    if queue.len() > 0 {
        let m = queue.remove(0);
        Some(m)
    } else {
        None
    }
}

/// Puts `message` behind what `queue` holds.
fn put_last(queue: &mut Vec<Message>, message: Message)
    ensures
        queue_view(final(queue)@) == queue_view(old(queue)@).push(message@),
{
    queue.push(message);
}

impl Fabric {
    /// A fabric without channels or topics.
    pub fn new() -> (fabric: Fabric)
        ensures
            fabric@ == FabricView::empty(),
    {
        let fabric = Fabric { pipes: Vec::new(), topics: Vec::new() };
        assert(fabric@.pipes =~= Seq::empty());
        assert(fabric@.topics =~= Seq::empty());
        fabric
    }

    /// Adds a channel and gives its number.
    fn open_pipe(&mut self) -> (c: usize)
        ensures
            c == old(self)@.pipes.len(),
            final(self)@ == old(self)@.open_pipe(),
    {
        let c = self.pipes.len();
        self.pipes.push(Pipe { queue: Vec::new(), sender_held: true, receiver_held: true });
        proof {
            assert(queue_view(Seq::<Message>::empty()) =~= Seq::empty());
            assert(self@.pipes =~= old(self)@.open_pipe().pipes);
        }
        c
    }

    /// Sends on channel `c`: accepted while both ends are held.
    fn send_on(&mut self, c: usize, message: Message) -> (r: Result<(), Error>)
        ensures
            r == if old(self)@.can_send(c as int) {
                Ok::<(), Error>(())
            } else {
                Err::<(), Error>(Error::Closed)
            },
            final(self)@ == old(self)@.send(c as int, message@),
    {
        if c < self.pipes.len() && self.pipes[c].sender_held && self.pipes[c].receiver_held {
            put_last(&mut self.pipes[c].queue, message);
            assert(self@.pipes =~= old(self)@.send(c as int, message@).pipes);
            Ok(())
        } else {
            Err(Error::Closed)
        }
    }

    /// Takes the oldest message that waits on channel `c`.
    fn take_from_pipe(&mut self, c: usize) -> (r: Result<Option<Message>, Error>)
        ensures
            taken(r) == old(self)@.pipe_inbox(c as int).try_receive(),
            final(self)@ == old(self)@.take_from_pipe(c as int),
            final(self)@.pipe_inbox(c as int) == old(self)@.pipe_inbox(c as int).advance(),
    {
        if c < self.pipes.len() && self.pipes[c].receiver_held {
            match take_oldest(&mut self.pipes[c].queue) {
                Some(m) => {
                    assert(self@.pipes =~= old(self)@.take_from_pipe(c as int).pipes);
                    Ok(Some(m))
                },
                None => {
                    assert(self@.pipes =~= old(self)@.pipes);
                    if self.pipes[c].sender_held {
                        Ok(None)
                    } else {
                        Err(Error::Closed)
                    }
                },
            }
        } else {
            Err(Error::Closed)
        }
    }

    /// Gives up the sending end of channel `c`.
    fn close_sender(&mut self, c: usize)
        ensures
            final(self)@ == old(self)@.close_sender(c as int),
    {
        if c < self.pipes.len() {
            self.pipes[c].sender_held = false;
            assert(self@.pipes =~= old(self)@.close_sender(c as int).pipes);
        }
    }

    /// Gives up the receiving end of channel `c` and drops what waited.
    fn close_receiver(&mut self, c: usize)
        ensures
            final(self)@ == old(self)@.close_receiver(c as int),
    {
        if c < self.pipes.len() {
            self.pipes[c].receiver_held = false;
            self.pipes[c].queue.clear();
            proof {
                assert(queue_view(self.pipes@[c as int].queue@) =~= Seq::empty());
                assert(self@.pipes =~= old(self)@.close_receiver(c as int).pipes);
            }
        }
    }

    /// The first topic that bears `name`, if one does.
    fn find_topic(&self, name: &String) -> (found: Option<usize>)
        ensures
            match found {
                Some(t) => self@.first_named(t as int, name@),
                None => !self@.knows(name@),
            },
    {
        let mut t: usize = 0;
        while t < self.topics.len()
            invariant
                t <= self.topics@.len(),
                forall|u: int| 0 <= u < t ==> #[trigger] self@.topics[u].name != name@,
            decreases self.topics@.len() - t,
        {
            if self.topics[t].name == *name {
                return Some(t);
            }
            t += 1;
        }
        None
    }

    /// Adds a topic and gives its number.
    fn open_topic(&mut self, name: String) -> (t: usize)
        ensures
            t == old(self)@.topics.len(),
            final(self)@ == old(self)@.open_topic(name@),
    {
        let t = self.topics.len();
        self.topics.push(TopicState { name, cursors: Vec::new() });
        proof {
            assert(self.topics@[t as int]@.cursors =~= Seq::empty());
            assert(self@.topics =~= old(self)@.open_topic(name@).topics);
        }
        t
    }

    /// Publishes on topic `t`: each subscriber gets a copy.
    fn publish_on(&mut self, t: usize, message: &Message) -> (r: Result<(), Error>)
        ensures
            r == if old(self)@.has_topic(t as int) {
                Ok::<(), Error>(())
            } else {
                Err::<(), Error>(Error::Closed)
            },
            final(self)@ == old(self)@.publish(t as int, message@),
    {
        if t >= self.topics.len() {
            return Err(Error::Closed);
        }
        let n = self.topics[t].cursors.len();
        let mut s: usize = 0;
        while s < n
            invariant
                s <= n,
                t < self.topics@.len(),
                self.topics@.len() == old(self).topics@.len(),
                self.pipes@ == old(self).pipes@,
                self.topics@[t as int].name == old(self).topics@[t as int].name,
                self.topics@[t as int].cursors@.len() == n,
                old(self).topics@[t as int].cursors@.len() == n,
                forall|u: int|
                    0 <= u < self.topics@.len() && u != t ==> self.topics@[u]
                        == old(self).topics@[u],
                forall|k: int|
                    0 <= k < s ==> (#[trigger] self.topics@[t as int].cursors@[k])@
                        == old(self).topics@[t as int].cursors@[k]@.offer(message@),
                forall|k: int|
                    s <= k < n ==> #[trigger] self.topics@[t as int].cursors@[k]
                        == old(self).topics@[t as int].cursors@[k],
            decreases n - s,
        {
            if self.topics[t].cursors[s].active {
                let copy = message.duplicate();
                put_last(&mut self.topics[t].cursors[s].queue, copy);
            }
            s += 1;
        }
        proof {
            assert(self.topics@[t as int]@.cursors =~= old(self).topics@[t as int]@.offer(
                message@,
            ).cursors);
            assert(self@.topics =~= old(self)@.publish(t as int, message@).topics);
        }
        Ok(())
    }

    /// Adds a subscriber to topic `t` and gives its number.
    fn subscribe_to(&mut self, t: usize) -> (r: Result<usize, Error>)
        ensures
            match r {
                Ok(s) => {
                    &&& old(self)@.has_topic(t as int)
                    &&& s == old(self)@.topics[t as int].cursors.len()
                },
                Err(e) => !old(self)@.has_topic(t as int) && e == Error::Closed,
            },
            final(self)@ == old(self)@.subscribe(t as int),
    {
        if t < self.topics.len() {
            let s = self.topics[t].cursors.len();
            self.topics[t].cursors.push(Cursor { queue: Vec::new(), active: true });
            proof {
                assert(queue_view(Seq::<Message>::empty()) =~= Seq::empty());
                let before = old(self).topics@[t as int]@.cursors;
                assert(self.topics@[t as int]@.cursors =~= before.push(CursorView::fresh()));
                assert(self@.topics =~= old(self)@.subscribe(t as int).topics);
            }
            Ok(s)
        } else {
            Err(Error::Closed)
        }
    }

    /// Ends the subscription `s` of topic `t` and drops what waited for it.
    fn unsubscribe_from(&mut self, t: usize, s: usize)
        ensures
            final(self)@ == old(self)@.unsubscribe(t as int, s as int),
    {
        if t < self.topics.len() && s < self.topics[t].cursors.len() {
            self.topics[t].cursors[s].active = false;
            self.topics[t].cursors[s].queue.clear();
            proof {
                let before = old(self).topics@[t as int]@.cursors;
                let emptied = self.topics@[t as int].cursors@[s as int].queue@;
                assert(queue_view(emptied) =~= Seq::empty());
                assert(self.topics@[t as int]@.cursors =~= before.update(
                    s as int,
                    CursorView::gone(),
                ));
                assert(self@.topics =~= old(self)@.unsubscribe(t as int, s as int).topics);
            }
        }
    }

    /// Takes the oldest message that waits for subscriber `s` of topic `t`.
    fn take_from_cursor(&mut self, t: usize, s: usize) -> (r: Result<Option<Message>, Error>)
        ensures
            taken(r) == old(self)@.cursor_inbox(t as int, s as int).try_receive(),
            final(self)@ == old(self)@.take_from_cursor(t as int, s as int),
            final(self)@.cursor_inbox(t as int, s as int) == old(self)@.cursor_inbox(
                t as int,
                s as int,
            ).advance(),
    {
        if t < self.topics.len() && s < self.topics[t].cursors.len()
            && self.topics[t].cursors[s].active {
            match take_oldest(&mut self.topics[t].cursors[s].queue) {
                Some(m) => {
                    proof {
                        assert(self.topics@[t as int]@.cursors =~= old(self)@.take_from_cursor(
                            t as int,
                            s as int,
                        ).topics[t as int].cursors);
                        assert(self@.topics =~= old(self)@.take_from_cursor(
                            t as int,
                            s as int,
                        ).topics);
                    }
                    Ok(Some(m))
                },
                None => {
                    proof {
                        let before = old(self).topics@[t as int]@.cursors;
                        assert(self.topics@[t as int]@.cursors =~= before);
                        assert(self@.topics =~= old(self)@.topics);
                    }
                    Ok(None)
                },
            }
        } else {
            Err(Error::Closed)
        }
    }
}

impl Default for Fabric {
    fn default() -> (fabric: Fabric)
        ensures
            fabric@ == FabricView::empty(),
    {
        Fabric::new()
    }
}

/// Makes channels in a [`Fabric`].
#[derive(Debug, Clone, Copy)]
pub struct LocalChannel;

/// The sending end of a channel of a [`Fabric`].
#[derive(Debug)]
pub struct LocalSender {
    pipe: usize,
}

/// The receiving end of a channel of a [`Fabric`].
#[derive(Debug)]
pub struct LocalReceiver {
    pipe: usize,
}

/// A topic of a [`Fabric`]. It may be copied: all copies publish to and
/// subscribe on the same topic.
#[derive(Debug, Clone, Copy)]
pub struct LocalTopic {
    topic: usize,
}

/// One subscription to a topic of a [`Fabric`].
#[derive(Debug)]
pub struct LocalSubscriber {
    topic: usize,
    slot: usize,
}

/// What a step of `receive` makes of what `try_receive` found.
fn or_wait(found: Result<Option<Message>, Error>) -> (r: Poll<Result<Message, Error>>)
    ensures
        r == match found {
            Ok(Some(m)) => Poll::Ready(Ok::<Message, Error>(m)),
            Ok(None) => Poll::Pending,
            Err(e) => Poll::Ready(Err::<Message, Error>(e)),
        },
{
    match found {
        Ok(Some(m)) => Poll::Ready(Ok(m)),
        Ok(None) => Poll::Pending,
        Err(e) => Poll::Ready(Err(e)),
    }
}

/// What a step of `receive_timeout` makes of what `try_receive` found.
fn or_wait_until(found: Result<Option<Message>, Error>, timeout: u128, waited: u128) -> (r: Poll<
    Result<Message, Error>,
>)
    ensures
        r == match found {
            Ok(Some(m)) => Poll::Ready(Ok::<Message, Error>(m)),
            Ok(None) => if waited >= timeout {
                Poll::Ready(Err::<Message, Error>(Error::Timeout))
            } else {
                Poll::Pending
            },
            Err(e) => Poll::Ready(Err::<Message, Error>(e)),
        },
{
    match found {
        Ok(Some(m)) => Poll::Ready(Ok(m)),
        Ok(None) => if waited >= timeout {
            Poll::Ready(Err(Error::Timeout))
        } else {
            Poll::Pending
        },
        Err(e) => Poll::Ready(Err(e)),
    }
}

impl Messaging for Fabric {
    type Channel = LocalChannel;

    type Topic = LocalTopic;

    open spec fn topic_name(&self, topic: &LocalTopic) -> Option<Seq<char>> {
        if self@.has_topic(topic.index()) && self@.first_named(
            topic.index(),
            self@.topics[topic.index()].name,
        ) {
            Some(self@.topics[topic.index()].name)
        } else {
            None
        }
    }

    fn channel(&self) -> LocalChannel {
        LocalChannel
    }

    /// Always succeeds at once. A name that no topic bears yet gets a new
    /// topic without subscribers; otherwise nothing changes and the first
    /// topic of that name comes back.
    fn topic(&mut self, name: &str) -> (r: Poll<Result<LocalTopic, Error>>)
        ensures
            final(self)@ == old(self)@.topic(name@),
            r matches Poll::Ready(Ok(t)) && final(self)@.first_named(t.index(), name@),
            old(self)@.names_distinct() ==> final(self)@.names_distinct(),
    {
        let owned = name.to_owned();
        let t = match self.find_topic(&owned) {
            Some(t) => t,
            None => self.open_topic(owned),
        };
        Poll::Ready(Ok(LocalTopic { topic: t }))
    }
}

impl LocalSender {
    /// The number of the channel in its fabric.
    pub closed spec fn channel(&self) -> int {
        self.pipe as int
    }

    /// Gives up the sending end. What was sent stays queued for the
    /// receiving end, which is told `Closed` once it has drained the queue.
    pub fn close(self, fabric: &mut Fabric)
        ensures
            final(fabric)@ == old(fabric)@.close_sender(self.channel()),
    {
        fabric.close_sender(self.pipe);
    }
}

impl LocalReceiver {
    /// The number of the channel in its fabric.
    pub closed spec fn channel(&self) -> int {
        self.pipe as int
    }

    /// Gives up the receiving end. What still waited is dropped, and the
    /// sending end is refused with `Closed` from then on.
    pub fn close(self, fabric: &mut Fabric)
        ensures
            final(fabric)@ == old(fabric)@.close_receiver(self.channel()),
    {
        fabric.close_receiver(self.pipe);
    }
}

impl LocalTopic {
    /// The number of the topic in its fabric.
    pub closed spec fn index(&self) -> int {
        self.topic as int
    }
}

impl LocalSubscriber {
    /// The number of the topic in its fabric.
    pub closed spec fn topic(&self) -> int {
        self.topic as int
    }

    /// The number of the subscription among those of its topic.
    pub closed spec fn slot(&self) -> int {
        self.slot as int
    }
}

impl Channel for LocalChannel {
    type Fabric = Fabric;

    type Sender = LocalSender;

    type Receiver = LocalReceiver;

    /// Both ends bear the number of the new channel.
    fn create(&self, fabric: &mut Fabric) -> (ends: (LocalSender, LocalReceiver))
        ensures
            final(fabric)@ == old(fabric)@.open_pipe(),
            ends.0.channel() == old(fabric)@.pipes.len(),
            ends.1.channel() == old(fabric)@.pipes.len(),
    {
        let c = fabric.open_pipe();
        (LocalSender { pipe: c }, LocalReceiver { pipe: c })
    }
}

impl Sender for LocalSender {
    type Fabric = Fabric;

    open spec fn outlet(&self, fabric: &Fabric) -> Outlet {
        fabric@.pipe_outlet(self.channel())
    }

    /// Completes at once. The message is queued while both ends are held,
    /// and refused with `Closed` as soon as one of them is not.
    fn send(&self, fabric: &mut Fabric, message: Message) -> (r: Poll<Result<(), Error>>)
        ensures
            r == Poll::Ready(
                if old(fabric)@.can_send(self.channel()) {
                    Ok::<(), Error>(())
                } else {
                    Err::<(), Error>(Error::Closed)
                },
            ),
            final(fabric)@ == old(fabric)@.send(self.channel(), message@),
    {
        Poll::Ready(fabric.send_on(self.pipe, message))
    }
}

impl Receiver for LocalReceiver {
    type Fabric = Fabric;

    open spec fn inbox(&self, fabric: &Fabric) -> Inbox {
        fabric@.pipe_inbox(self.channel())
    }

    fn receive(&self, fabric: &mut Fabric) -> (r: Poll<Result<Message, Error>>)
        ensures
            final(fabric)@ == old(fabric)@.take_from_pipe(self.channel()),
    {
        or_wait(fabric.take_from_pipe(self.pipe))
    }

    fn receive_timeout(&self, fabric: &mut Fabric, timeout: u128, waited: u128) -> (r: Poll<
        Result<Message, Error>,
    >)
        ensures
            final(fabric)@ == old(fabric)@.take_from_pipe(self.channel()),
    {
        or_wait_until(fabric.take_from_pipe(self.pipe), timeout, waited)
    }

    fn try_receive(&self, fabric: &mut Fabric) -> (r: Result<Option<Message>, Error>)
        ensures
            final(fabric)@ == old(fabric)@.take_from_pipe(self.channel()),
    {
        fabric.take_from_pipe(self.pipe)
    }
}

impl Receiver for LocalSubscriber {
    type Fabric = Fabric;

    open spec fn inbox(&self, fabric: &Fabric) -> Inbox {
        fabric@.cursor_inbox(self.topic(), self.slot())
    }

    fn receive(&self, fabric: &mut Fabric) -> (r: Poll<Result<Message, Error>>)
        ensures
            final(fabric)@ == old(fabric)@.take_from_cursor(self.topic(), self.slot()),
    {
        or_wait(fabric.take_from_cursor(self.topic, self.slot))
    }

    fn receive_timeout(&self, fabric: &mut Fabric, timeout: u128, waited: u128) -> (r: Poll<
        Result<Message, Error>,
    >)
        ensures
            final(fabric)@ == old(fabric)@.take_from_cursor(self.topic(), self.slot()),
    {
        or_wait_until(fabric.take_from_cursor(self.topic, self.slot), timeout, waited)
    }

    fn try_receive(&self, fabric: &mut Fabric) -> (r: Result<Option<Message>, Error>)
        ensures
            final(fabric)@ == old(fabric)@.take_from_cursor(self.topic(), self.slot()),
    {
        fabric.take_from_cursor(self.topic, self.slot)
    }
}

impl Subscriber for LocalSubscriber {
    /// Always succeeds at once.
    fn unsubscribe(self, fabric: &mut Fabric) -> (r: Poll<Result<(), Error>>)
        ensures
            r == Poll::Ready(Ok::<(), Error>(())),
            final(fabric)@ == old(fabric)@.unsubscribe(self.topic(), self.slot()),
    {
        fabric.unsubscribe_from(self.topic, self.slot);
        Poll::Ready(Ok(()))
    }
}

impl Topic for LocalTopic {
    type Fabric = Fabric;

    type Subscriber = LocalSubscriber;

    open spec fn delivers_to(&self, fabric: &Fabric, subscriber: &LocalSubscriber) -> bool {
        &&& subscriber.topic() == self.index()
        &&& fabric@.has_cursor(subscriber.topic(), subscriber.slot())
        &&& fabric@.topics[subscriber.topic()].cursors[subscriber.slot()].active
    }

    /// Completes at once, and succeeds on every topic of the fabric, with or
    /// without subscribers.
    fn publish(&self, fabric: &mut Fabric, message: Message) -> (r: Poll<Result<(), Error>>)
        ensures
            r == Poll::Ready(
                if old(fabric)@.has_topic(self.index()) {
                    Ok::<(), Error>(())
                } else {
                    Err::<(), Error>(Error::Closed)
                },
            ),
            final(fabric)@ == old(fabric)@.publish(self.index(), message@),
    {
        Poll::Ready(fabric.publish_on(self.topic, &message))
    }

    /// Completes at once, and succeeds on every topic of the fabric.
    fn subscribe(&self, fabric: &mut Fabric) -> (r: Poll<Result<LocalSubscriber, Error>>)
        ensures
            final(fabric)@ == old(fabric)@.subscribe(self.index()),
            match r {
                Poll::Ready(Ok(s)) => {
                    &&& old(fabric)@.has_topic(self.index())
                    &&& s.topic() == self.index()
                    &&& s.slot() == old(fabric)@.topics[self.index()].cursors.len()
                },
                Poll::Ready(Err(e)) => !old(fabric)@.has_topic(self.index()) && e == Error::Closed,
                Poll::Pending => false,
            },
    {
        match fabric.subscribe_to(self.topic) {
            Ok(slot) => Poll::Ready(Ok(LocalSubscriber { topic: self.topic, slot })),
            Err(e) => Poll::Ready(Err(e)),
        }
    }
}

} // verus!
