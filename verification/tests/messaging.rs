use pith::messaging::local::{Fabric, LocalChannel};
use pith::messaging::{Channel, Error, Message, Messaging, Receiver, Sender, Subscriber, Topic};
use pith::poll::Poll;

fn text(s: &str) -> String {
    s.to_string()
}

fn payload(r: Poll<Result<Message, Error>>) -> Vec<u8> {
    match r {
        Poll::Ready(Ok(m)) => m.data,
        other => panic!("expected a message, got {:?}", other),
    }
}

fn ready_topic(fabric: &mut Fabric, name: &str) -> pith::messaging::local::LocalTopic {
    match fabric.topic(name) {
        Poll::Ready(Ok(t)) => t,
        other => panic!("expected a topic, got {:?}", other),
    }
}

fn ready_subscriber(
    topic: &pith::messaging::local::LocalTopic,
    fabric: &mut Fabric,
) -> pith::messaging::local::LocalSubscriber {
    match topic.subscribe(fabric) {
        Poll::Ready(Ok(s)) => s,
        other => panic!("expected a subscriber, got {:?}", other),
    }
}

#[test]
fn new_message_has_payload_and_no_headers() {
    let m = Message::new(b"hi".to_vec());
    assert_eq!(m.data, b"hi".to_vec());
    assert!(m.metadata.is_empty());
}

#[test]
fn with_metadata_appends_in_order_and_keeps_duplicates() {
    let m = Message::new(vec![1, 2, 3])
        .with_metadata(text("k"), text("v1"))
        .with_metadata(text("other"), text("x"))
        .with_metadata(text("k"), text("v2"));
    assert_eq!(m.data, vec![1, 2, 3]);
    assert_eq!(
        m.metadata,
        vec![(text("k"), text("v1")), (text("other"), text("x")), (text("k"), text("v2"))]
    );
}

#[test]
fn duplicate_carries_the_same_payload_and_headers() {
    let m = Message::new(vec![9, 8]).with_metadata(text("a"), text("b"));
    let d = m.duplicate();
    assert_eq!(d.data, m.data);
    assert_eq!(d.metadata, m.metadata);
}

#[test]
fn error_texts() {
    assert_eq!(Error::Closed.to_string(), "channel closed");
    assert_eq!(Error::Timeout.to_string(), "timeout");
    assert_eq!(Error::Other(text("broker down")).to_string(), "messaging error: broker down");
}

#[test]
fn channel_is_first_in_first_out() {
    let mut fabric = Fabric::new();
    let (tx, rx) = fabric.channel().create(&mut fabric);
    for i in 0u8..5 {
        assert!(matches!(tx.send(&mut fabric, Message::new(vec![i])), Poll::Ready(Ok(()))));
    }
    for i in 0u8..5 {
        assert_eq!(payload(rx.receive(&mut fabric)), vec![i]);
    }
    assert!(matches!(rx.receive(&mut fabric), Poll::Pending));
}

#[test]
fn channels_do_not_share_a_queue() {
    let mut fabric = Fabric::new();
    let (tx1, rx1) = LocalChannel.create(&mut fabric);
    let (tx2, rx2) = LocalChannel.create(&mut fabric);
    assert!(tx1.send(&mut fabric, Message::new(vec![1])).is_ready());
    assert!(tx2.send(&mut fabric, Message::new(vec![2])).is_ready());
    assert_eq!(payload(rx2.receive(&mut fabric)), vec![2]);
    assert_eq!(payload(rx1.receive(&mut fabric)), vec![1]);
}

#[test]
fn try_receive_on_empty_open_channel_is_none() {
    let mut fabric = Fabric::new();
    let (tx, rx) = LocalChannel.create(&mut fabric);
    assert!(matches!(rx.try_receive(&mut fabric), Ok(None)));
    assert!(tx.send(&mut fabric, Message::new(vec![7])).is_ready());
    match rx.try_receive(&mut fabric) {
        Ok(Some(m)) => assert_eq!(m.data, vec![7]),
        other => panic!("expected a message, got {:?}", other),
    }
    assert!(matches!(rx.try_receive(&mut fabric), Ok(None)));
}

#[test]
fn closed_sender_drains_then_closed() {
    let mut fabric = Fabric::new();
    let (tx, rx) = LocalChannel.create(&mut fabric);
    assert!(tx.send(&mut fabric, Message::new(vec![1])).is_ready());
    assert!(tx.send(&mut fabric, Message::new(vec![2])).is_ready());
    tx.close(&mut fabric);
    assert_eq!(payload(rx.receive(&mut fabric)), vec![1]);
    assert_eq!(payload(rx.receive_timeout(&mut fabric, 10, 0)), vec![2]);
    for _ in 0..3 {
        assert!(matches!(rx.receive(&mut fabric), Poll::Ready(Err(Error::Closed))));
        assert!(matches!(rx.try_receive(&mut fabric), Err(Error::Closed)));
        assert!(matches!(rx.receive_timeout(&mut fabric, 10, 0), Poll::Ready(Err(Error::Closed))));
    }
}

#[test]
fn closed_receiver_refuses_the_sender() {
    let mut fabric = Fabric::new();
    let (tx, rx) = LocalChannel.create(&mut fabric);
    assert!(matches!(tx.send(&mut fabric, Message::new(vec![1])), Poll::Ready(Ok(()))));
    rx.close(&mut fabric);
    assert!(matches!(tx.send(&mut fabric, Message::new(vec![2])), Poll::Ready(Err(Error::Closed))));
    assert!(matches!(tx.send(&mut fabric, Message::new(vec![3])), Poll::Ready(Err(Error::Closed))));
}

#[test]
fn receive_timeout_waits_until_the_limit_and_not_beyond() {
    let mut fabric = Fabric::new();
    let (_tx, rx) = LocalChannel.create(&mut fabric);
    assert!(matches!(rx.receive_timeout(&mut fabric, 1_000, 0), Poll::Pending));
    assert!(matches!(rx.receive_timeout(&mut fabric, 1_000, 999), Poll::Pending));
    assert!(matches!(rx.receive_timeout(&mut fabric, 1_000, 1_000), Poll::Ready(Err(Error::Timeout))));
    assert!(matches!(rx.receive_timeout(&mut fabric, 1_000, 5_000), Poll::Ready(Err(Error::Timeout))));
}

#[test]
fn receive_timeout_zero_is_an_immediate_check() {
    let mut fabric = Fabric::new();
    let (tx, rx) = LocalChannel.create(&mut fabric);
    assert!(matches!(rx.try_receive(&mut fabric), Ok(None)));
    assert!(matches!(rx.receive_timeout(&mut fabric, 0, 0), Poll::Ready(Err(Error::Timeout))));
    assert!(tx.send(&mut fabric, Message::new(vec![4])).is_ready());
    assert_eq!(payload(rx.receive_timeout(&mut fabric, 0, 0)), vec![4]);
    tx.close(&mut fabric);
    assert!(matches!(rx.receive_timeout(&mut fabric, 0, 0), Poll::Ready(Err(Error::Closed))));
    assert!(matches!(rx.try_receive(&mut fabric), Err(Error::Closed)));
}

#[test]
fn topic_delivers_to_both_subscribers() {
    let mut fabric = Fabric::new();
    let topic = ready_topic(&mut fabric, "events");
    let s1 = ready_subscriber(&topic, &mut fabric);
    let s2 = ready_subscriber(&topic, &mut fabric);
    let message = Message::new(b"hi".to_vec()).with_metadata(text("k"), text("v"));
    assert!(matches!(topic.publish(&mut fabric, message), Poll::Ready(Ok(()))));
    for s in [&s1, &s2] {
        match s.receive(&mut fabric) {
            Poll::Ready(Ok(m)) => {
                assert_eq!(m.data, b"hi".to_vec());
                assert_eq!(m.metadata, vec![(text("k"), text("v"))]);
            }
            other => panic!("expected a message, got {:?}", other),
        }
    }
    assert!(matches!(s1.receive(&mut fabric), Poll::Pending));
    assert!(matches!(s2.receive(&mut fabric), Poll::Pending));
}

#[test]
fn late_subscriber_sees_nothing_published_before() {
    let mut fabric = Fabric::new();
    let topic = ready_topic(&mut fabric, "events");
    let s1 = ready_subscriber(&topic, &mut fabric);
    assert!(topic.publish(&mut fabric, Message::new(vec![1])).is_ready());
    let s3 = ready_subscriber(&topic, &mut fabric);
    assert!(matches!(s3.try_receive(&mut fabric), Ok(None)));
    assert!(topic.publish(&mut fabric, Message::new(vec![2])).is_ready());
    assert_eq!(payload(s3.receive(&mut fabric)), vec![2]);
    assert_eq!(payload(s1.receive(&mut fabric)), vec![1]);
    assert_eq!(payload(s1.receive(&mut fabric)), vec![2]);
}

#[test]
fn subscribers_receive_independently() {
    let mut fabric = Fabric::new();
    let topic = ready_topic(&mut fabric, "events");
    let s1 = ready_subscriber(&topic, &mut fabric);
    let s2 = ready_subscriber(&topic, &mut fabric);
    for i in 0u8..3 {
        assert!(topic.publish(&mut fabric, Message::new(vec![i])).is_ready());
    }
    for i in 0u8..3 {
        assert_eq!(payload(s1.receive(&mut fabric)), vec![i]);
    }
    for i in 0u8..3 {
        assert_eq!(payload(s2.receive(&mut fabric)), vec![i]);
    }
}

#[test]
fn publish_without_subscribers_succeeds_and_is_not_kept() {
    let mut fabric = Fabric::new();
    let topic = ready_topic(&mut fabric, "quiet");
    assert!(matches!(topic.publish(&mut fabric, Message::new(vec![1])), Poll::Ready(Ok(()))));
    let s = ready_subscriber(&topic, &mut fabric);
    assert!(matches!(s.try_receive(&mut fabric), Ok(None)));
}

#[test]
fn unsubscribe_stops_delivery() {
    let mut fabric = Fabric::new();
    let topic = ready_topic(&mut fabric, "events");
    let s1 = ready_subscriber(&topic, &mut fabric);
    let s2 = ready_subscriber(&topic, &mut fabric);
    assert!(topic.publish(&mut fabric, Message::new(vec![1])).is_ready());
    assert!(matches!(s1.unsubscribe(&mut fabric), Poll::Ready(Ok(()))));
    assert!(topic.publish(&mut fabric, Message::new(vec![2])).is_ready());
    assert_eq!(payload(s2.receive(&mut fabric)), vec![1]);
    assert_eq!(payload(s2.receive(&mut fabric)), vec![2]);
}

#[test]
fn topic_name_is_its_identity() {
    let mut fabric = Fabric::new();
    let a = ready_topic(&mut fabric, "a");
    let b = ready_topic(&mut fabric, "b");
    let a_again = ready_topic(&mut fabric, "a");
    let on_a = ready_subscriber(&a, &mut fabric);
    let on_b = ready_subscriber(&b, &mut fabric);
    assert!(a_again.publish(&mut fabric, Message::new(vec![5])).is_ready());
    assert_eq!(payload(on_a.receive(&mut fabric)), vec![5]);
    assert!(matches!(on_b.receive(&mut fabric), Poll::Pending));
}

#[test]
fn handle_of_another_fabric_is_closed() {
    let mut one = Fabric::new();
    let mut other = Fabric::new();
    let (tx, rx) = LocalChannel.create(&mut one);
    assert!(matches!(tx.send(&mut other, Message::new(vec![1])), Poll::Ready(Err(Error::Closed))));
    assert!(matches!(rx.receive(&mut other), Poll::Ready(Err(Error::Closed))));
    let topic = ready_topic(&mut one, "events");
    assert!(matches!(topic.publish(&mut other, Message::new(vec![1])), Poll::Ready(Err(Error::Closed))));
    assert!(matches!(topic.subscribe(&mut other), Poll::Ready(Err(Error::Closed))));
}
