use pith::poll::Poll;
use pith::websocket::local::{Directory, LocalClient};
use pith::websocket::{Error, Message, WebSocketClient, WebSocketConnector};

fn text(s: &str) -> String {
    s.to_string()
}

fn connected(url: &str) -> LocalClient {
    let mut directory = Directory::new();
    directory.serve(text(url), true);
    match directory.connect(url) {
        Poll::Ready(Ok(client)) => client,
        other => panic!("expected a client, got {:?}", other.is_ready()),
    }
}

fn next(client: &mut LocalClient) -> Message {
    match client.recv() {
        Poll::Ready(Ok(m)) => m,
        Poll::Ready(Err(e)) => panic!("expected a message, got {:?}", e),
        Poll::Pending => panic!("expected a message, had to wait"),
    }
}

#[test]
fn websocket_error_texts() {
    assert_eq!(Error::ConnectionFailed(text("no route")).to_string(), "connection failed: no route");
    assert_eq!(Error::SendFailed.to_string(), "send failed");
    assert_eq!(Error::Closed.to_string(), "connection closed");
    assert_eq!(Error::Protocol(text("bad upgrade")).to_string(), "protocol error: bad upgrade");
    assert_eq!(Error::Other(text("boom")).to_string(), "boom");
}

#[test]
fn connect_to_unknown_address_fails() {
    let directory = Directory::new();
    match directory.connect("ws://nowhere/") {
        Poll::Ready(Err(Error::ConnectionFailed(at))) => assert_eq!(at, "ws://nowhere/"),
        _ => panic!("expected ConnectionFailed"),
    }
}

#[test]
fn connect_without_upgrade_is_a_protocol_error() {
    let mut directory = Directory::new();
    directory.serve(text("ws://plain/"), false);
    match directory.connect("ws://plain/") {
        Poll::Ready(Err(Error::Protocol(at))) => assert_eq!(at, "ws://plain/"),
        _ => panic!("expected Protocol"),
    }
}

#[test]
fn first_entry_of_an_address_decides() {
    let mut directory = Directory::new();
    directory.serve(text("ws://a/"), true);
    directory.serve(text("ws://a/"), false);
    assert!(matches!(directory.connect("ws://a/"), Poll::Ready(Ok(_))));
}

#[test]
fn fresh_client_is_open_and_waits() {
    let mut client = connected("ws://echo/");
    assert!(!client.is_closed());
    assert!(client.sent().is_empty());
    assert!(matches!(client.recv(), Poll::Pending));
}

#[test]
fn sends_go_on_the_wire_in_order() {
    let mut client = connected("ws://echo/");
    assert!(matches!(client.send(Message::Text(text("one"))), Poll::Ready(Ok(()))));
    assert!(matches!(client.send(Message::Binary(vec![2])), Poll::Ready(Ok(()))));
    assert!(matches!(client.send(Message::Ping(vec![3])), Poll::Ready(Ok(()))));
    assert_eq!(
        client.sent(),
        &vec![Message::Text(text("one")), Message::Binary(vec![2]), Message::Ping(vec![3])]
    );
}

#[test]
fn messages_arrive_in_order_and_ping_is_surfaced() {
    let mut client = connected("ws://echo/");
    client.deliver(Message::Ping(vec![1]));
    client.deliver(Message::Text(text("hello")));
    client.deliver(Message::Pong(vec![2]));
    assert_eq!(next(&mut client), Message::Ping(vec![1]));
    assert_eq!(next(&mut client), Message::Text(text("hello")));
    assert_eq!(next(&mut client), Message::Pong(vec![2]));
    assert!(matches!(client.recv(), Poll::Pending));
    assert!(client.sent().is_empty());
}

#[test]
fn sending_close_closes_the_client() {
    let mut client = connected("ws://echo/");
    client.deliver(Message::Text(text("late")));
    assert!(matches!(client.send(Message::Close), Poll::Ready(Ok(()))));
    assert!(client.is_closed());
    assert!(matches!(client.recv(), Poll::Ready(Err(Error::Closed))));
    assert!(matches!(client.send(Message::Text(text("x"))), Poll::Ready(Err(Error::Closed))));
    assert!(matches!(client.recv(), Poll::Ready(Err(Error::Closed))));
    assert_eq!(client.sent(), &vec![Message::Close]);
}

#[test]
fn received_close_is_delivered_once() {
    let mut client = connected("ws://echo/");
    client.deliver(Message::Close);
    client.deliver(Message::Text(text("after")));
    assert_eq!(next(&mut client), Message::Close);
    assert!(matches!(client.recv(), Poll::Ready(Err(Error::Closed))));
    assert!(matches!(client.recv(), Poll::Ready(Err(Error::Closed))));
    assert!(matches!(client.send(Message::Binary(vec![1])), Poll::Ready(Err(Error::Closed))));
}

#[test]
fn close_is_idempotent_and_sends_one_close() {
    let mut client = connected("ws://echo/");
    assert!(matches!(client.send(Message::Text(text("bye"))), Poll::Ready(Ok(()))));
    assert!(matches!(client.close(), Poll::Ready(Ok(()))));
    assert!(matches!(client.close(), Poll::Ready(Ok(()))));
    assert_eq!(client.sent(), &vec![Message::Text(text("bye")), Message::Close]);
    assert!(matches!(client.send(Message::Text(text("x"))), Poll::Ready(Err(Error::Closed))));
}

#[test]
fn close_after_received_close_answers_once() {
    let mut client = connected("ws://echo/");
    client.deliver(Message::Close);
    assert_eq!(next(&mut client), Message::Close);
    assert!(client.sent().is_empty());
    assert!(matches!(client.close(), Poll::Ready(Ok(()))));
    assert!(matches!(client.close(), Poll::Ready(Ok(()))));
    assert_eq!(client.sent(), &vec![Message::Close]);
}

#[test]
fn close_after_sent_close_sends_no_second() {
    let mut client = connected("ws://echo/");
    assert!(matches!(client.send(Message::Close), Poll::Ready(Ok(()))));
    assert!(matches!(client.close(), Poll::Ready(Ok(()))));
    assert_eq!(client.sent(), &vec![Message::Close]);
}

#[test]
fn broken_transport_fails_the_send_and_closes() {
    let mut client = connected("ws://echo/");
    client.sever();
    assert!(matches!(client.send(Message::Text(text("x"))), Poll::Ready(Err(Error::SendFailed))));
    assert!(client.is_closed());
    assert!(matches!(client.send(Message::Text(text("y"))), Poll::Ready(Err(Error::Closed))));
    assert!(client.sent().is_empty());
}

#[test]
fn broken_transport_hands_out_what_arrived_then_closes() {
    let mut client = connected("ws://echo/");
    client.deliver(Message::Binary(vec![1]));
    client.sever();
    client.deliver(Message::Binary(vec![2]));
    assert_eq!(next(&mut client), Message::Binary(vec![1]));
    assert!(matches!(client.recv(), Poll::Ready(Err(Error::Closed))));
    assert!(client.is_closed());
    assert!(matches!(client.close(), Poll::Ready(Ok(()))));
    assert!(client.sent().is_empty());
}
