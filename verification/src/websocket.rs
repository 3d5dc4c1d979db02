//! A WebSocket client: whole messages in both directions over one
//! connection, and the close handshake.
//!
//! The contract has no close code or reason: `Close` carries nothing. Ping
//! and pong are handed to the caller like any other message; no backend
//! answers them by itself.

use crate::poll::Poll;
use vstd::prelude::*;
use vstd::string::*;

pub mod laws;
pub mod local;
pub mod model;

verus! {

/// WebSocket errors.
#[derive(Debug)]
pub enum Error {
    /// The connection could not be set up.
    ConnectionFailed(String),
    /// The transport did not take the message.
    SendFailed,
    /// The client is closed.
    Closed,
    /// The peer answered, but not as the upgrade requires.
    Protocol(String),
    /// Any other failure, with the backend's description.
    Other(String),
}

impl Error {
    /// The text that describes this error.
    pub open spec fn text(&self) -> Seq<char> {
        match self {
            Error::ConnectionFailed(msg) => "connection failed: "@ + msg@,
            Error::SendFailed => "send failed"@,
            Error::Closed => "connection closed"@,
            Error::Protocol(msg) => "protocol error: "@ + msg@,
            Error::Other(msg) => msg@,
        }
    }

    /// Describes the error in words.
    pub fn to_string(&self) -> (s: String)
        ensures
            s@ == self.text(),
    {
        match self {
            Error::ConnectionFailed(msg) => "connection failed: ".to_owned().concat(msg.as_str()),
            Error::SendFailed => "send failed".to_owned(),
            Error::Closed => "connection closed".to_owned(),
            Error::Protocol(msg) => "protocol error: ".to_owned().concat(msg.as_str()),
            Error::Other(msg) => msg.clone(),
        }
    }
}

/// What a message carries.
pub enum Frame {
    Text(Seq<char>),
    Binary(Seq<u8>),
    Ping(Seq<u8>),
    Pong(Seq<u8>),
    Close,
}

/// A WebSocket message.
#[derive(Debug, Clone, PartialEq, Eq)]
pub enum Message {
    /// Text message.
    Text(String),
    /// Binary message.
    Binary(Vec<u8>),
    /// Ping message.
    Ping(Vec<u8>),
    /// Pong message.
    Pong(Vec<u8>),
    /// Close message.
    Close,
}

impl View for Message {
    type V = Frame;

    open spec fn view(&self) -> Frame {
        match self {
            Message::Text(s) => Frame::Text(s@),
            Message::Binary(b) => Frame::Binary(b@),
            Message::Ping(b) => Frame::Ping(b@),
            Message::Pong(b) => Frame::Pong(b@),
            Message::Close => Frame::Close,
        }
    }
}

/// What a caller can observe of a client: whether it is closed, and the
/// messages it has put on the wire, in the order of the calls.
pub struct Session {
    pub closed: bool,
    pub sent: Seq<Frame>,
}

impl Session {
    /// A client as `connect` hands it out: open, with nothing sent.
    pub open spec fn fresh() -> Session {
        Session { closed: false, sent: Seq::empty() }
    }

    /// What `send` may do. A closed client refuses with `Closed` and stays
    /// as it is. An open one either puts the message on the wire behind
    /// those before it, and is closed from then on if the message is
    /// `Close`; or fails and puts nothing on the wire; or has to wait.
    pub open spec fn send_allows(
        self,
        message: Frame,
        result: Poll<Result<(), Error>>,
        after: Session,
    ) -> bool {
        if self.closed {
            result == Poll::Ready(Err::<(), Error>(Error::Closed)) && after == self
        } else {
            match result {
                Poll::Ready(Ok(())) => after == (Session {
                    closed: message is Close,
                    sent: self.sent.push(message),
                }),
                Poll::Ready(Err(_)) => after.sent == self.sent,
                Poll::Pending => after == self,
            }
        }
    }

    /// What `recv` may do. A closed client refuses with `Closed` and stays
    /// as it is. An open one either hands out a message, and is closed from
    /// then on if the message is `Close`; or fails; or has to wait. It puts
    /// nothing on the wire.
    pub open spec fn recv_allows(self, result: Poll<Result<Frame, Error>>, after: Session) -> bool {
        if self.closed {
            result == Poll::Ready(Err::<Frame, Error>(Error::Closed)) && after == self
        } else {
            match result {
                Poll::Ready(Ok(message)) => after == (Session {
                    closed: message is Close,
                    sent: self.sent,
                }),
                Poll::Ready(Err(_)) => after.sent == self.sent,
                Poll::Pending => after == self,
            }
        }
    }

    /// What `close` may do. When it completes the client is closed. It puts
    /// at most one `Close` on the wire and nothing else, and no `Close` if
    /// one was sent before. A closed client stays closed.
    pub open spec fn close_allows(self, result: Poll<Result<(), Error>>, after: Session) -> bool {
        &&& result is Ready ==> after.closed
        &&& result is Pending ==> after == self
        &&& self.closed ==> after.closed
        &&& after.sent == self.sent || (after.sent == self.sent.push(Frame::Close)
            && !self.sent.contains(Frame::Close))
    }
}

/// A received message as the contracts see it.
pub open spec fn received(r: Poll<Result<Message, Error>>) -> Poll<Result<Frame, Error>> {
    match r {
        Poll::Ready(Ok(m)) => Poll::Ready(Ok(m@)),
        Poll::Ready(Err(e)) => Poll::Ready(Err(e)),
        Poll::Pending => Poll::Pending,
    }
}

/// A WebSocket client connection.
pub trait WebSocketClient {
    /// What can be observed of this client.
    spec fn session(&self) -> Session;

    /// Send a message.
    fn send(&mut self, msg: Message) -> (r: Poll<Result<(), Error>>)
        ensures
            old(self).session().send_allows(msg@, r, final(self).session()),
    ;

    /// Receive the next message.
    fn recv(&mut self) -> (r: Poll<Result<Message, Error>>)
        ensures
            old(self).session().recv_allows(received(r), final(self).session()),
    ;

    /// Close the connection.
    fn close(&mut self) -> (r: Poll<Result<(), Error>>)
        ensures
            old(self).session().close_allows(r, final(self).session()),
    ;
}

/// A WebSocket client connector.
pub trait WebSocketConnector {
    type Client: WebSocketClient;

    /// Connect to a WebSocket server. A client that comes back is open and
    /// has sent nothing.
    fn connect(&self, url: &str) -> (r: Poll<Result<Self::Client, Error>>)
        ensures
            match r {
                Poll::Ready(Ok(client)) => client.session() == Session::fresh(),
                _ => true,
            },
    ;
}

} // verus!
