//! An in-process WebSocket client and the directory it connects through.
//!
//! The client holds both directions of its connection. The peer is played
//! from outside: `deliver` makes a message arrive, `sent` shows what was put
//! on the wire, and `sever` breaks the transport.

use crate::poll::Poll;
use crate::websocket::model::{frames, DirectoryView, Link};
use crate::websocket::{
    received, Error, Frame, Message, Session, WebSocketClient, WebSocketConnector,
};
use vstd::prelude::*;

verus! {

/// A client whose connection lives in this process.
pub struct LocalClient {
    closed: bool,
    broken: bool,
    sent: Vec<Message>,
    arrived: Vec<Message>,
}

impl View for LocalClient {
    type V = Link;

    closed spec fn view(&self) -> Link {
        Link {
            closed: self.closed,
            broken: self.broken,
            sent: frames(self.sent@),
            arrived: frames(self.arrived@),
        }
    }
}

impl LocalClient {
    /// An open client with nothing sent and nothing arrived.
    fn open() -> (client: LocalClient)
        ensures
            client@ == Link::fresh(),
    {
        let client = LocalClient {
            closed: false,
            broken: false,
            sent: Vec::new(),
            arrived: Vec::new(),
        };
        assert(client@.arrived =~= Seq::empty());
        client
    }

    /// A message arrives from the peer.
    pub fn deliver(&mut self, message: Message)
        ensures
            final(self)@ == old(self)@.deliver(message@),
    {
        if !self.broken {
            self.arrived.push(message);
            assert(self@.arrived =~= old(self)@.arrived.push(message@));
        }
    }

    /// The transport breaks.
    pub fn sever(&mut self)
        ensures
            final(self)@ == old(self)@.sever(),
    {
        self.broken = true;
    }

    /// What was put on the wire, in order.
    pub fn sent(&self) -> (messages: &Vec<Message>)
        ensures
            frames(messages@) == self@.sent,
    {
        &self.sent
    }

    /// Whether the client is closed.
    pub fn is_closed(&self) -> (closed: bool)
        ensures
            closed == self@.closed,
    {
        self.closed
    }
}

/// Whether a `Close` is among `messages`.
fn holds_close(messages: &Vec<Message>) -> (found: bool)
    ensures
        found == frames(messages@).contains(Frame::Close),
{
    let mut i: usize = 0;
    while i < messages.len()
        invariant
            i <= messages@.len(),
            forall|j: int| 0 <= j < i ==> frames(messages@)[j] != Frame::Close,
        decreases messages@.len() - i,
    {
        if let Message::Close = messages[i] {
            assert(frames(messages@)[i as int] == Frame::Close);
            return true;
        }
        i += 1;
    }
    false
}

impl WebSocketClient for LocalClient {
    open spec fn session(&self) -> Session {
        self@.session()
    }

    /// Completes at once.
    fn send(&mut self, msg: Message) -> (r: Poll<Result<(), Error>>)
        ensures
            r == Poll::Ready(old(self)@.send_result()),
            final(self)@ == old(self)@.send(msg@),
    {
        if self.closed {
            Poll::Ready(Err(Error::Closed))
        } else if self.broken {
            self.closed = true;
            Poll::Ready(Err(Error::SendFailed))
        } else {
            if let Message::Close = msg {
                self.closed = true;
            }
            self.sent.push(msg);
            assert(self@.sent =~= old(self)@.sent.push(msg@));
            Poll::Ready(Ok(()))
        }
    }

    fn recv(&mut self) -> (r: Poll<Result<Message, Error>>)
        ensures
            received(r) == old(self)@.recv_result(),
            final(self)@ == old(self)@.recv(),
    {
        if self.closed {
            Poll::Ready(Err(Error::Closed))
        } else if self.arrived.len() > 0 {
            let msg = self.arrived.remove(0);
            assert(self@.arrived =~= old(self)@.arrived.drop_first());
            if let Message::Close = msg {
                self.closed = true;
            }
            Poll::Ready(Ok(msg))
        } else if self.broken {
            self.closed = true;
            Poll::Ready(Err(Error::Closed))
        } else {
            Poll::Pending
        }
    }

    /// Always succeeds at once.
    fn close(&mut self) -> (r: Poll<Result<(), Error>>)
        ensures
            r == Poll::Ready(Ok::<(), Error>(())),
            final(self)@ == old(self)@.close(),
    {
        if !self.broken && !holds_close(&self.sent) {
            self.sent.push(Message::Close);
            assert(self@.sent =~= old(self)@.sent.push(Frame::Close));
        }
        self.closed = true;
        Poll::Ready(Ok(()))
    }
}

/// One address of a [`Directory`] and how the server there answers.
struct Endpoint {
    url: String,
    upgrades: bool,
}

/// The servers that an in-process client can connect to.
pub struct Directory {
    endpoints: Vec<Endpoint>,
}

impl View for Directory {
    type V = DirectoryView;

    closed spec fn view(&self) -> DirectoryView {
        DirectoryView {
            endpoints: Seq::new(
                self.endpoints@.len(),
                |i: int| (self.endpoints@[i].url@, self.endpoints@[i].upgrades),
            ),
        }
    }
}

impl Directory {
    /// A directory without servers.
    pub fn new() -> (directory: Directory)
        ensures
            directory@.endpoints == Seq::<(Seq<char>, bool)>::empty(),
    {
        let directory = Directory { endpoints: Vec::new() };
        directory
    }

    /// Enters a server under `url`. One that does not upgrade answers the
    /// handshake without switching protocols.
    pub fn serve(&mut self, url: String, upgrades: bool)
        ensures
            final(self)@.endpoints == old(self)@.endpoints.push((url@, upgrades)),
    {
        self.endpoints.push(Endpoint { url, upgrades });
    }
}

impl Default for Directory {
    fn default() -> (directory: Directory)
        ensures
            directory@.endpoints == Seq::<(Seq<char>, bool)>::empty(),
    {
        Directory::new()
    }
}

impl WebSocketConnector for Directory {
    type Client = LocalClient;

    /// Completes at once. Fails with `ConnectionFailed` where no server is
    /// entered under `url`, and with `Protocol` where the first one entered
    /// does not upgrade; both carry the address.
    fn connect(&self, url: &str) -> (r: Poll<Result<LocalClient, Error>>)
        ensures
            match r {
                Poll::Ready(Ok(client)) => self@.upgrades(url@) && client@ == Link::fresh(),
                Poll::Ready(Err(Error::ConnectionFailed(at))) => !self@.knows(url@) && at@ == url@,
                Poll::Ready(Err(Error::Protocol(at))) => self@.knows(url@) && !self@.upgrades(url@)
                    && at@ == url@,
                _ => false,
            },
    {
        let wanted = url.to_owned();
        let mut i: usize = 0;
        while i < self.endpoints.len()
            invariant
                i <= self.endpoints@.len(),
                wanted@ == url@,
                forall|j: int| 0 <= j < i ==> (#[trigger] self@.endpoints[j]).0 != url@,
            decreases self.endpoints@.len() - i,
        {
            if self.endpoints[i].url == wanted {
                assert(self@.first_at(i as int, url@));
                if self.endpoints[i].upgrades {
                    return Poll::Ready(Ok(LocalClient::open()));
                } else {
                    return Poll::Ready(Err(Error::Protocol(wanted)));
                }
            }
            i += 1;
        }
        Poll::Ready(Err(Error::ConnectionFailed(wanted)))
    }
}

} // verus!
