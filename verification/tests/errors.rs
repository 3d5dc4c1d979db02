use pith::blobstore;
use pith::blobstore::ObjectMeta;
use pith::encoding::DecodeError;
use pith::messaging::local::Fabric;
use pith::messaging::{Messaging, Topic};
use pith::poll::Poll;
use pith::sockets::network::{LocalConnector, Network};
use pith::sockets::resolver::HostTable;
use pith::sockets::{IpAddr, Resolver, SocketAddr, TcpConnect};
use pith::websocket::local::Directory;
use pith::websocket::WebSocketConnector;

#[test]
fn blobstore_error_texts() {
    let name = "photos".to_string();
    assert_eq!(
        blobstore::Error::ContainerNotFound(name.clone()).to_string(),
        "container not found: photos"
    );
    assert_eq!(blobstore::Error::ObjectNotFound(name.clone()).to_string(), "object not found: photos");
    assert_eq!(
        blobstore::Error::ContainerExists(name.clone()).to_string(),
        "container already exists: photos"
    );
    assert_eq!(blobstore::Error::Store("disk full".to_string()).to_string(), "store error: disk full");
    assert_eq!(blobstore::Error::Store(String::new()).to_string(), "store error: ");
}

#[test]
fn object_meta_holds_its_fields() {
    let meta = ObjectMeta { name: "a.txt".to_string(), size: 12, created_at: Some(1_700_000_000) };
    let copy = meta.clone();
    assert_eq!(copy.name, "a.txt");
    assert_eq!(copy.size, 12);
    assert_eq!(copy.created_at, Some(1_700_000_000));
}

#[test]
fn decode_error_texts() {
    assert_eq!(DecodeError::InvalidLength.to_string(), "invalid length");
    assert_eq!(DecodeError::InvalidPadding.to_string(), "invalid padding");
    assert_eq!(DecodeError::InvalidUtf8.to_string(), "invalid UTF-8");
}

#[test]
fn decode_error_shows_the_character_as_debug_does() {
    assert_eq!(DecodeError::InvalidCharacter('x').to_string(), "invalid character: 'x'");
    assert_eq!(DecodeError::InvalidCharacter('\n').to_string(), "invalid character: '\\n'");
    assert_eq!(DecodeError::InvalidCharacter('\'').to_string(), "invalid character: '\\''");
    assert_eq!(DecodeError::InvalidCharacter('é').to_string(), "invalid character: 'é'");
}

#[test]
fn decode_errors_compare_by_value() {
    assert_eq!(DecodeError::InvalidCharacter('a'), DecodeError::InvalidCharacter('a'));
    assert_ne!(DecodeError::InvalidCharacter('a'), DecodeError::InvalidCharacter('b'));
    assert_ne!(DecodeError::InvalidLength, DecodeError::InvalidPadding);
}

#[test]
fn poll_tells_ready_from_pending() {
    let ready: Poll<u8> = Poll::Ready(3);
    let pending: Poll<u8> = Poll::Pending;
    assert!(ready.is_ready());
    assert!(!ready.is_pending());
    assert!(pending.is_pending());
    assert!(!pending.is_ready());
}

#[test]
fn decode_error_text_with_a_given_rendering() {
    assert_eq!(
        DecodeError::InvalidCharacter('x').to_string_showing("<x>"),
        "invalid character: <x>"
    );
    assert_eq!(DecodeError::InvalidLength.to_string_showing("<x>"), "invalid length");
    assert_eq!(DecodeError::InvalidPadding.to_string_showing(""), "invalid padding");
    assert_eq!(DecodeError::InvalidUtf8.to_string_showing("y"), "invalid UTF-8");
}

#[test]
fn default_backends_are_empty() {
    let mut fabric = Fabric::default();
    match fabric.topic("first") {
        Poll::Ready(Ok(topic)) => assert!(topic.publish(&mut fabric, pith::messaging::Message::new(vec![])).is_ready()),
        other => panic!("expected a topic, got {:?}", other),
    }
    let mut net = Network::default();
    let to = SocketAddr::new(IpAddr::V4(1), 80);
    let from = SocketAddr::new(IpAddr::V4(2), 5000);
    assert!(matches!(
        LocalConnector::new(from).connect(&mut net, to),
        Poll::Ready(Err(pith::sockets::Error::ConnectionRefused))
    ));
    assert!(matches!(
        Directory::default().connect("ws://anywhere/"),
        Poll::Ready(Err(pith::websocket::Error::ConnectionFailed(_)))
    ));
    assert!(matches!(HostTable::default().resolve("anywhere"), Poll::Ready(Err(_))));
}
