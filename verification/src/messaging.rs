//! Point-to-point channels and publish/subscribe topics.
//!
//! The traits state what every backend owes its callers. A handle is a plain
//! value; the queues it refers to live in the backend's fabric, which each
//! operation takes beside the handle.

use crate::poll::Poll;
use vstd::prelude::*;
use vstd::string::*;

pub mod laws;
pub mod local;
pub mod model;

verus! {

/// Messaging errors.
#[derive(Debug)]
pub enum Error {
    /// The other side is gone and nothing is left to deliver.
    Closed,
    /// The time allowed for the operation has passed.
    Timeout,
    /// Any other failure, with the backend's description.
    Other(String),
}

impl Error {
    /// The text that describes this error.
    pub open spec fn text(&self) -> Seq<char> {
        match self {
            Error::Closed => "channel closed"@,
            Error::Timeout => "timeout"@,
            Error::Other(msg) => "messaging error: "@ + msg@,
        }
    }

    /// Describes the error in words.
    pub fn to_string(&self) -> (s: String)
        ensures
            s@ == self.text(),
    {
        match self {
            Error::Closed => "channel closed".to_owned(),
            Error::Timeout => "timeout".to_owned(),
            Error::Other(msg) => "messaging error: ".to_owned().concat(msg.as_str()),
        }
    }
}

/// What a message carries: its payload and its headers in order.
pub struct MessageView {
    pub data: Seq<u8>,
    pub metadata: Seq<(Seq<char>, Seq<char>)>,
}

/// A message with payload and metadata.
#[derive(Debug, Clone)]
pub struct Message {
    /// Message payload.
    pub data: Vec<u8>,
    /// Headers in the order in which they were added. A key may occur more
    /// than once; a later pair does not replace an earlier one.
    pub metadata: Vec<(String, String)>,
}

impl View for Message {
    type V = MessageView;

    open spec fn view(&self) -> MessageView {
        MessageView {
            data: self.data@,
            metadata: Seq::new(
                self.metadata@.len(),
                |i: int| (self.metadata@[i].0@, self.metadata@[i].1@),
            ),
        }
    }
}

impl Message {
    /// A message with the given payload and no headers.
    pub fn new(data: Vec<u8>) -> (m: Message)
        ensures
            m@ == (MessageView { data: data@, metadata: Seq::empty() }),
    {
        let m = Message { data, metadata: Vec::new() };
        assert(m@.metadata =~= Seq::empty());
        m
    }

    /// The same message with one more header, after those it already has.
    pub fn with_metadata(self, key: String, value: String) -> (m: Message)
        ensures
            m@ == (MessageView {
                data: self@.data,
                metadata: self@.metadata.push((key@, value@)),
            }),
    {
        let mut m = self;
        m.metadata.push((key, value));
        assert(m@.metadata =~= self@.metadata.push((key@, value@)));
        m
    }

    /// A second message that carries the same payload and headers.
    pub fn duplicate(&self) -> (m: Message)
        ensures
            m@ == self@,
    {
        let mut data: Vec<u8> = Vec::new();
        let mut i: usize = 0;
        while i < self.data.len()
            invariant
                i <= self.data@.len(),
                data@ == self.data@.subrange(0, i as int),
            decreases self.data@.len() - i,
        {
            data.push(self.data[i]);
            i += 1;
        }
        assert(data@ =~= self.data@);
        let mut metadata: Vec<(String, String)> = Vec::new();
        let mut j: usize = 0;
        while j < self.metadata.len()
            invariant
                j <= self.metadata@.len(),
                metadata@.len() == j,
                forall|k: int|
                    0 <= k < j ==> metadata@[k].0@ == self.metadata@[k].0@ && metadata@[k].1@
                        == self.metadata@[k].1@,
            decreases self.metadata@.len() - j,
        {
            let key = self.metadata[j].0.clone();
            let value = self.metadata[j].1.clone();
            metadata.push((key, value));
            j += 1;
        }
        let m = Message { data, metadata };
        assert(m@.metadata =~= self@.metadata);
        m
    }
}

/// What a receiving end can observe of the queue behind it.
pub struct Inbox {
    /// The messages that wait for this end, oldest first.
    pub pending: Seq<MessageView>,
    /// No further message will be queued for this end.
    pub closed: bool,
}

impl Inbox {
    /// An inbox that holds nothing and can still be filled.
    pub open spec fn fresh() -> Inbox {
        Inbox { pending: Seq::empty(), closed: false }
    }

    /// An inbox that holds nothing and never will.
    pub open spec fn shut() -> Inbox {
        Inbox { pending: Seq::empty(), closed: true }
    }

    /// The inbox with one more message behind those that already wait.
    pub open spec fn deliver(self, message: MessageView) -> Inbox {
        Inbox { pending: self.pending.push(message), closed: self.closed }
    }

    /// The result of a step of `receive`: the oldest message if one waits,
    /// `Closed` once the inbox is drained and closed, and otherwise a wait.
    pub open spec fn receive(self) -> Poll<Result<MessageView, Error>> {
        if self.pending.len() > 0 {
            Poll::Ready(Ok(self.pending[0]))
        } else if self.closed {
            Poll::Ready(Err(Error::Closed))
        } else {
            Poll::Pending
        }
    }

    /// The result of a step of `receive_timeout` when `waited` of the
    /// `timeout` has gone by: as `receive`, but the wait ends in `Timeout`
    /// as soon as `waited` reaches `timeout`, and not before.
    pub open spec fn receive_timeout(self, timeout: u128, waited: u128) -> Poll<
        Result<MessageView, Error>,
    > {
        if self.pending.len() > 0 {
            Poll::Ready(Ok(self.pending[0]))
        } else if self.closed {
            Poll::Ready(Err(Error::Closed))
        } else if waited >= timeout {
            Poll::Ready(Err(Error::Timeout))
        } else {
            Poll::Pending
        }
    }

    /// The result of `try_receive`: the oldest message if one waits, `None`
    /// if none does, and `Closed` once the inbox is drained and closed.
    pub open spec fn try_receive(self) -> Result<Option<MessageView>, Error> {
        if self.pending.len() > 0 {
            Ok(Some(self.pending[0]))
        } else if self.closed {
            Err(Error::Closed)
        } else {
            Ok(None)
        }
    }

    /// The inbox after any of the three receiving operations: without its
    /// oldest message if it had one, unchanged otherwise.
    pub open spec fn advance(self) -> Inbox {
        if self.pending.len() > 0 {
            Inbox { pending: self.pending.drop_first(), closed: self.closed }
        } else {
            self
        }
    }

    /// The inbox after `n` receiving operations.
    pub open spec fn advance_by(self, n: nat) -> Inbox
        decreases n,
    {
        if n == 0 {
            self
        } else {
            self.advance().advance_by((n - 1) as nat)
        }
    }
}

/// What a sending end can observe of the queue in front of it.
pub struct Outlet {
    /// The messages accepted for delivery and not yet received, oldest first.
    pub queued: Seq<MessageView>,
    /// The receiving end has been given up.
    pub receiver_gone: bool,
}

impl Outlet {
    /// An outlet with nothing queued, whose receiving end is held.
    pub open spec fn fresh() -> Outlet {
        Outlet { queued: Seq::empty(), receiver_gone: false }
    }

    /// What `send` may do with `message`. A message that is accepted goes
    /// behind those already queued. Once the receiving end is gone a backend
    /// either refuses with `Closed` or accepts and discards; it says which.
    /// A step that does not accept leaves the queue as it was.
    pub open spec fn admits(
        self,
        message: MessageView,
        result: Poll<Result<(), Error>>,
        after: Outlet,
    ) -> bool {
        match result {
            Poll::Ready(Ok(())) => if self.receiver_gone {
                after == self
            } else {
                after == (Outlet { queued: self.queued.push(message), receiver_gone: false })
            },
            Poll::Ready(Err(Error::Closed)) => self.receiver_gone && after == self,
            _ => after == self,
        }
    }
}

/// A received message as the contracts see it.
pub open spec fn delivered(r: Poll<Result<Message, Error>>) -> Poll<Result<MessageView, Error>> {
    match r {
        Poll::Ready(Ok(m)) => Poll::Ready(Ok(m@)),
        Poll::Ready(Err(e)) => Poll::Ready(Err(e)),
        Poll::Pending => Poll::Pending,
    }
}

/// The result of `try_receive` as the contracts see it.
pub open spec fn taken(r: Result<Option<Message>, Error>) -> Result<Option<MessageView>, Error> {
    match r {
        Ok(Some(m)) => Ok(Some(m@)),
        Ok(None) => Ok(None),
        Err(e) => Err(e),
    }
}

/// A message sender.
pub trait Sender {
    /// The state that holds the queues of this backend.
    type Fabric;

    /// The queue in front of this end.
    spec fn outlet(&self, fabric: &Self::Fabric) -> Outlet;

    /// Send a message. It is accepted for delivery or refused; nothing more
    /// is acknowledged.
    fn send(&self, fabric: &mut Self::Fabric, message: Message) -> (r: Poll<Result<(), Error>>)
        ensures
            self.outlet(old(fabric)).admits(message@, r, self.outlet(final(fabric))),
    ;
}

/// A message receiver.
pub trait Receiver {
    /// The state that holds the queues of this backend.
    type Fabric;

    /// The queue behind this end.
    spec fn inbox(&self, fabric: &Self::Fabric) -> Inbox;

    /// One step of receiving with no limit on the wait.
    fn receive(&self, fabric: &mut Self::Fabric) -> (r: Poll<Result<Message, Error>>)
        ensures
            delivered(r) == self.inbox(old(fabric)).receive(),
            self.inbox(final(fabric)) == self.inbox(old(fabric)).advance(),
    ;

    /// One step of receiving with a limit on the wait. `timeout` is the limit
    /// and `waited` the time that has passed since the wait began, both in
    /// nanoseconds.
    fn receive_timeout(&self, fabric: &mut Self::Fabric, timeout: u128, waited: u128) -> (r: Poll<
        Result<Message, Error>,
    >)
        ensures
            delivered(r) == self.inbox(old(fabric)).receive_timeout(timeout, waited),
            self.inbox(final(fabric)) == self.inbox(old(fabric)).advance(),
    ;

    /// Receive a message if one waits, without ever waiting.
    fn try_receive(&self, fabric: &mut Self::Fabric) -> (r: Result<Option<Message>, Error>)
        ensures
            taken(r) == self.inbox(old(fabric)).try_receive(),
            self.inbox(final(fabric)) == self.inbox(old(fabric)).advance(),
    ;
}

/// A channel for point-to-point messaging.
pub trait Channel {
    /// The state that holds the queues of this backend.
    type Fabric;

    /// The sender type.
    type Sender: Sender<Fabric = Self::Fabric>;

    /// The receiver type.
    type Receiver: Receiver<Fabric = Self::Fabric>;

    /// Create a new channel: a sending and a receiving end with an empty
    /// queue between them.
    fn create(&self, fabric: &mut Self::Fabric) -> (ends: (Self::Sender, Self::Receiver))
        ensures
            ends.0.outlet(final(fabric)) == Outlet::fresh(),
            ends.1.inbox(final(fabric)) == Inbox::fresh(),
    ;
}

/// A subscriber that receives messages from a topic.
pub trait Subscriber: Receiver + Sized {
    /// Unsubscribe from the topic. What waited for this subscriber is
    /// dropped, and nothing is delivered to it from then on.
    fn unsubscribe(self, fabric: &mut Self::Fabric) -> (r: Poll<Result<(), Error>>)
        ensures
            r is Ready ==> self.inbox(final(fabric)) == Inbox::shut(),
            r is Pending ==> self.inbox(final(fabric)) == self.inbox(old(fabric)),
    ;
}

/// A topic for publish/subscribe messaging.
pub trait Topic {
    /// The state that holds the queues of this backend.
    type Fabric;

    /// The subscriber type.
    type Subscriber: Subscriber<Fabric = Self::Fabric>;

    /// Whether what is published on this topic is delivered to `subscriber`.
    spec fn delivers_to(&self, fabric: &Self::Fabric, subscriber: &Self::Subscriber) -> bool;

    /// Publish a message to all subscribers: each subscriber of this topic
    /// gets it once, behind what already waits for it, and no other
    /// subscriber's queue changes.
    fn publish(&self, fabric: &mut Self::Fabric, message: Message) -> (r: Poll<Result<(), Error>>)
        ensures
            forall|s: Self::Subscriber| #[trigger]
                s.inbox(final(fabric)) == if r is Ready && r->Ready_0 is Ok && self.delivers_to(
                    old(fabric),
                    &s,
                ) {
                    s.inbox(old(fabric)).deliver(message@)
                } else {
                    s.inbox(old(fabric))
                },
    ;

    /// Subscribe to receive messages. The new subscriber starts with nothing:
    /// what was published before is not delivered to it.
    fn subscribe(&self, fabric: &mut Self::Fabric) -> (r: Poll<Result<Self::Subscriber, Error>>)
        ensures
            match r {
                Poll::Ready(Ok(s)) => s.inbox(final(fabric)) == Inbox::fresh()
                    && self.delivers_to(final(fabric), &s),
                _ => true,
            },
    ;
}

/// A messaging system that provides channels and topics.
pub trait Messaging: Sized {
    /// The channel type.
    type Channel: Channel<Fabric = Self>;

    /// The topic type.
    type Topic: Topic<Fabric = Self>;

    /// The name under which `topic` is known here, if it is known.
    spec fn topic_name(&self, topic: &Self::Topic) -> Option<Seq<char>>;

    /// Create a new channel.
    fn channel(&self) -> Self::Channel;

    /// Get or create a topic by name. The topic that comes back bears the
    /// name; it is the one that bore it before, if there was one; and every
    /// topic known before keeps its name.
    fn topic(&mut self, name: &str) -> (r: Poll<Result<Self::Topic, Error>>)
        ensures
            match r {
                Poll::Ready(Ok(t)) => {
                    &&& final(self).topic_name(&t) == Some(name@)
                    &&& forall|u: Self::Topic| #[trigger]
                        old(self).topic_name(&u) == Some(name@) ==> u == t
                },
                _ => true,
            },
            forall|u: Self::Topic| #[trigger]
                old(self).topic_name(&u) is Some ==> final(self).topic_name(&u)
                    == old(self).topic_name(&u),
    ;
}

} // verus!
