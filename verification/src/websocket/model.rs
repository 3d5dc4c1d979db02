//! The in-process client and its directory as mathematics: what they hold,
//! and what each operation makes of it.

use crate::poll::Poll;
use crate::websocket::{Error, Frame, Message, Session};
use vstd::prelude::*;

verus! {

/// Everything an in-process client holds.
pub struct Link {
    /// The client is closed.
    pub closed: bool,
    /// The transport is broken: nothing can be put on the wire, and nothing
    /// arrives any more.
    pub broken: bool,
    /// What was put on the wire, in order.
    pub sent: Seq<Frame>,
    /// What has arrived and was not yet handed out, oldest first.
    pub arrived: Seq<Frame>,
}

impl Link {
    /// A connection as `connect` makes it.
    pub open spec fn fresh() -> Link {
        Link { closed: false, broken: false, sent: Seq::empty(), arrived: Seq::empty() }
    }

    /// What a caller observes of the client.
    pub open spec fn session(self) -> Session {
        Session { closed: self.closed, sent: self.sent }
    }

    /// The result of `send`: `Closed` on a closed client, `SendFailed` on a
    /// broken transport, success otherwise.
    pub open spec fn send_result(self) -> Result<(), Error> {
        if self.closed {
            Err(Error::Closed)
        } else if self.broken {
            Err(Error::SendFailed)
        } else {
            Ok(())
        }
    }

    /// The connection after `send`. A failed write closes the client.
    pub open spec fn send(self, message: Frame) -> Link {
        if self.closed {
            self
        } else if self.broken {
            Link { closed: true, ..self }
        } else {
            Link { closed: message is Close, sent: self.sent.push(message), ..self }
        }
    }

    /// The result of a step of `recv`: `Closed` on a closed client, else the
    /// oldest message that has arrived, else `Closed` if the transport is
    /// broken, else a wait.
    pub open spec fn recv_result(self) -> Poll<Result<Frame, Error>> {
        if self.closed {
            Poll::Ready(Err(Error::Closed))
        } else if self.arrived.len() > 0 {
            Poll::Ready(Ok(self.arrived[0]))
        } else if self.broken {
            Poll::Ready(Err(Error::Closed))
        } else {
            Poll::Pending
        }
    }

    /// The connection after a step of `recv`. A `Close` that is handed out
    /// closes the client, and so does a broken transport once nothing is
    /// left to hand out.
    pub open spec fn recv(self) -> Link {
        if self.closed {
            self
        } else if self.arrived.len() > 0 {
            Link { closed: self.arrived[0] is Close, arrived: self.arrived.drop_first(), ..self }
        } else if self.broken {
            Link { closed: true, ..self }
        } else {
            self
        }
    }

    /// Whether `close` puts a `Close` on the wire: only if none was sent
    /// before and the transport can carry it.
    pub open spec fn close_sends(self) -> bool {
        !self.sent.contains(Frame::Close) && !self.broken
    }

    /// The connection after `close`.
    pub open spec fn close(self) -> Link {
        Link {
            closed: true,
            sent: if self.close_sends() {
                self.sent.push(Frame::Close)
            } else {
                self.sent
            },
            ..self
        }
    }

    /// The connection after `message` arrived from the peer. A broken
    /// transport carries nothing.
    pub open spec fn deliver(self, message: Frame) -> Link {
        if self.broken {
            self
        } else {
            Link { arrived: self.arrived.push(message), ..self }
        }
    }

    /// The connection after its transport broke.
    pub open spec fn sever(self) -> Link {
        Link { broken: true, ..self }
    }
}

/// One operation on a client or on its connection, as far as it can change
/// what the client holds.
pub enum Event {
    /// `send` of a message.
    Send(Frame),
    /// `recv`.
    Recv,
    /// `close`.
    Close,
    /// A message arrives from the peer.
    Deliver(Frame),
    /// The transport breaks.
    Sever,
}

impl Link {
    /// The connection after one operation.
    pub open spec fn step(self, event: Event) -> Link {
        match event {
            Event::Send(message) => self.send(message),
            Event::Recv => self.recv(),
            Event::Close => self.close(),
            Event::Deliver(message) => self.deliver(message),
            Event::Sever => self.sever(),
        }
    }

    /// The connection after a sequence of operations.
    pub open spec fn run(self, events: Seq<Event>) -> Link
        decreases events.len(),
    {
        if events.len() == 0 {
            self
        } else {
            self.run(events.drop_last()).step(events.last())
        }
    }
}

/// The view of each message of `messages`.
pub open spec fn frames(messages: Seq<Message>) -> Seq<Frame> {
    Seq::new(messages.len(), |i: int| messages[i]@)
}

/// What a directory holds: each address with whether the server there
/// completes the upgrade, in the order in which they were entered.
pub struct DirectoryView {
    pub endpoints: Seq<(Seq<char>, bool)>,
}

impl DirectoryView {
    /// Whether a server is entered under `url`.
    pub open spec fn knows(self, url: Seq<char>) -> bool {
        exists|i: int| 0 <= i < self.endpoints.len() && (#[trigger] self.endpoints[i]).0 == url
    }

    /// Whether `i` is the first entry under `url`.
    pub open spec fn first_at(self, i: int, url: Seq<char>) -> bool {
        &&& 0 <= i < self.endpoints.len()
        &&& self.endpoints[i].0 == url
        &&& forall|j: int| 0 <= j < i ==> (#[trigger] self.endpoints[j]).0 != url
    }

    /// Whether the first server entered under `url` completes the upgrade.
    pub open spec fn upgrades(self, url: Seq<char>) -> bool {
        exists|i: int| self.first_at(i, url) && self.endpoints[i].1
    }
}

} // verus!
