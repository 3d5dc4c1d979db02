use pith::poll::Poll;
use pith::sockets::model::FIRST_DYNAMIC_PORT;
use pith::sockets::network::{LocalConnector, LocalListener, LocalSocket, LocalStream, Network};
use pith::sockets::resolver::HostTable;
use pith::sockets::{
    Error, IpAddr, Resolver, SocketAddr, TcpConnect, TcpListen, TcpStream, UdpSocket,
};

const LOCALHOST: IpAddr = IpAddr::V4(0x7f00_0001);

fn at(port: u16) -> SocketAddr {
    SocketAddr::new(LOCALHOST, port)
}

fn connect(net: &mut Network, from: SocketAddr, to: SocketAddr) -> LocalStream {
    match LocalConnector::new(from).connect(net, to) {
        Poll::Ready(Ok(stream)) => stream,
        other => panic!("expected a stream, got {:?}", other),
    }
}

fn accept(net: &mut Network, listener: &LocalListener) -> (LocalStream, SocketAddr) {
    match listener.accept(net) {
        Poll::Ready(Ok(pair)) => pair,
        other => panic!("expected a connection, got {:?}", other),
    }
}

fn pair(net: &mut Network) -> (LocalStream, LocalStream) {
    let listener = LocalListener::bind(net, at(8080)).unwrap();
    let client = connect(net, at(50000), at(8080));
    let (server, _) = accept(net, &listener);
    (client, server)
}

#[test]
fn socket_error_texts() {
    assert_eq!(Error::AddressInUse.to_string(), "address in use");
    assert_eq!(Error::AddressNotAvailable.to_string(), "address not available");
    assert_eq!(Error::ConnectionRefused.to_string(), "connection refused");
    assert_eq!(Error::ConnectionReset.to_string(), "connection reset");
    assert_eq!(Error::ConnectionAborted.to_string(), "connection aborted");
    assert_eq!(Error::NotConnected.to_string(), "not connected");
    assert_eq!(Error::Timeout.to_string(), "timeout");
    assert_eq!(Error::Access.to_string(), "access denied");
    assert_eq!(Error::Other("boom".to_string()).to_string(), "boom");
    let io = std::io::Error::new(std::io::ErrorKind::Other, "disk gone");
    assert_eq!(Error::Io(io).to_string(), "I/O error: disk gone");
}

#[test]
fn socket_error_text_with_a_given_detail() {
    let io = std::io::Error::new(std::io::ErrorKind::Other, "disk gone");
    assert_eq!(Error::Io(io).to_string_with("no route"), "I/O error: no route");
    assert_eq!(Error::Timeout.to_string_with("no route"), "timeout");
    assert_eq!(Error::Other("boom".to_string()).to_string_with("no route"), "boom");
}

#[test]
fn io_error_converts_to_io_variant() {
    let e: Error = std::io::Error::new(std::io::ErrorKind::Other, "x").into();
    assert!(matches!(e, Error::Io(_)));
}

#[test]
fn ping_crosses_a_connection() {
    let mut net = Network::new();
    let listener = LocalListener::bind(&mut net, at(0)).unwrap();
    let bound = listener.local_addr(&net).unwrap();
    assert_eq!(bound, at(FIRST_DYNAMIC_PORT));
    let mut client = connect(&mut net, at(50000), bound);
    let (mut server, from) = accept(&mut net, &listener);
    assert_eq!(from, at(50000));
    assert_eq!(server.peer_addr(&net).unwrap(), client.local_addr(&net).unwrap());
    assert_eq!(client.peer_addr(&net).unwrap(), bound);
    assert_eq!(server.local_addr(&net).unwrap(), bound);
    assert!(matches!(client.write(&mut net, b"ping"), Poll::Ready(Ok(4))));
    let mut buf = [0u8; 4];
    assert!(matches!(server.read(&mut net, &mut buf), Poll::Ready(Ok(4))));
    assert_eq!(&buf, b"ping");
    assert!(matches!(server.write(&mut net, b"pong"), Poll::Ready(Ok(4))));
    let mut back = [0u8; 4];
    assert!(matches!(client.read(&mut net, &mut back), Poll::Ready(Ok(4))));
    assert_eq!(&back, b"pong");
}

#[test]
fn bind_refuses_an_address_in_use() {
    let mut net = Network::new();
    let first = LocalListener::bind(&mut net, at(8080)).unwrap();
    assert!(matches!(LocalListener::bind(&mut net, at(8080)), Err(Error::AddressInUse)));
    assert!(LocalListener::bind(&mut net, at(8081)).is_ok());
    first.close(&mut net);
    assert!(LocalListener::bind(&mut net, at(8080)).is_ok());
}

#[test]
fn port_zero_gives_the_least_free_dynamic_port() {
    let mut net = Network::new();
    let a = LocalListener::bind(&mut net, at(0)).unwrap();
    let taken = LocalListener::bind(&mut net, at(FIRST_DYNAMIC_PORT + 1)).unwrap();
    let b = LocalListener::bind(&mut net, at(0)).unwrap();
    assert_eq!(a.local_addr(&net).unwrap(), at(FIRST_DYNAMIC_PORT));
    assert_eq!(taken.local_addr(&net).unwrap(), at(FIRST_DYNAMIC_PORT + 1));
    assert_eq!(b.local_addr(&net).unwrap(), at(FIRST_DYNAMIC_PORT + 2));
    let elsewhere = LocalListener::bind(&mut net, SocketAddr::new(IpAddr::V6(1), 0)).unwrap();
    assert_eq!(
        elsewhere.local_addr(&net).unwrap(),
        SocketAddr::new(IpAddr::V6(1), FIRST_DYNAMIC_PORT)
    );
}

#[test]
fn connect_is_refused_where_nothing_listens() {
    let mut net = Network::new();
    let connector = LocalConnector::new(at(50000));
    assert!(matches!(connector.connect(&mut net, at(8080)), Poll::Ready(Err(Error::ConnectionRefused))));
    let listener = LocalListener::bind(&mut net, at(8080)).unwrap();
    assert!(matches!(connector.connect(&mut net, at(8080)), Poll::Ready(Ok(_))));
    listener.close(&mut net);
    assert!(matches!(connector.connect(&mut net, at(8080)), Poll::Ready(Err(Error::ConnectionRefused))));
}

#[test]
fn connect_without_a_port_is_not_available() {
    let mut net = Network::new();
    let _listener = LocalListener::bind(&mut net, at(8080)).unwrap();
    assert!(matches!(
        LocalConnector::new(at(50000)).connect(&mut net, at(0)),
        Poll::Ready(Err(Error::AddressNotAvailable))
    ));
    assert!(matches!(
        LocalConnector::new(at(0)).connect(&mut net, at(8080)),
        Poll::Ready(Err(Error::AddressNotAvailable))
    ));
}

#[test]
fn accept_waits_and_then_hands_out_in_order() {
    let mut net = Network::new();
    let listener = LocalListener::bind(&mut net, at(8080)).unwrap();
    assert!(matches!(listener.accept(&mut net), Poll::Pending));
    let _a = connect(&mut net, at(50001), at(8080));
    let _b = connect(&mut net, at(50002), at(8080));
    assert_eq!(accept(&mut net, &listener).1, at(50001));
    assert_eq!(accept(&mut net, &listener).1, at(50002));
    assert!(matches!(listener.accept(&mut net), Poll::Pending));
}

#[test]
fn written_before_accept_is_read_after_it() {
    let mut net = Network::new();
    let listener = LocalListener::bind(&mut net, at(8080)).unwrap();
    let mut client = connect(&mut net, at(50000), at(8080));
    assert!(matches!(client.write(&mut net, b"early"), Poll::Ready(Ok(5))));
    let (mut server, _) = accept(&mut net, &listener);
    let mut buf = [0u8; 8];
    assert!(matches!(server.read(&mut net, &mut buf), Poll::Ready(Ok(5))));
    assert_eq!(&buf[..5], b"early");
    assert_eq!(&buf[5..], &[0, 0, 0]);
}

#[test]
fn read_is_partial_and_keeps_the_order() {
    let mut net = Network::new();
    let (mut client, mut server) = pair(&mut net);
    assert!(matches!(client.write(&mut net, b"abc"), Poll::Ready(Ok(3))));
    assert!(matches!(client.write(&mut net, b"defg"), Poll::Ready(Ok(4))));
    let mut buf = [0u8; 5];
    assert!(matches!(server.read(&mut net, &mut buf), Poll::Ready(Ok(5))));
    assert_eq!(&buf, b"abcde");
    assert!(matches!(server.read(&mut net, &mut buf), Poll::Ready(Ok(2))));
    assert_eq!(&buf, b"fgcde");
    assert!(matches!(server.read(&mut net, &mut buf), Poll::Pending));
    let mut none: [u8; 0] = [];
    assert!(matches!(server.read(&mut net, &mut none), Poll::Ready(Ok(0))));
}

#[test]
fn shutdown_stops_writes_and_keeps_unread_bytes() {
    let mut net = Network::new();
    let (mut client, mut server) = pair(&mut net);
    assert!(matches!(server.write(&mut net, b"last words"), Poll::Ready(Ok(10))));
    assert!(client.shutdown(&mut net).is_ok());
    assert!(matches!(client.write(&mut net, b"x"), Poll::Ready(Err(Error::NotConnected))));
    assert!(matches!(client.flush(&mut net), Poll::Ready(Err(Error::NotConnected))));
    let mut buf = [0u8; 6];
    assert!(matches!(client.read(&mut net, &mut buf), Poll::Ready(Ok(6))));
    assert_eq!(&buf, b"last w");
    assert!(matches!(client.read(&mut net, &mut buf), Poll::Ready(Ok(4))));
    assert_eq!(&buf[..4], b"ords");
    assert!(matches!(client.read(&mut net, &mut buf), Poll::Ready(Ok(0))));
    assert!(matches!(client.read(&mut net, &mut buf), Poll::Ready(Ok(0))));
}

#[test]
fn shutdown_twice_does_not_fail() {
    let mut net = Network::new();
    let (mut client, _server) = pair(&mut net);
    assert!(client.shutdown(&mut net).is_ok());
    assert!(client.shutdown(&mut net).is_ok());
    assert!(matches!(client.write(&mut net, b"x"), Poll::Ready(Err(Error::NotConnected))));
}

#[test]
fn peer_of_a_shut_end_reads_to_the_end_and_cannot_write() {
    let mut net = Network::new();
    let (mut client, mut server) = pair(&mut net);
    assert!(matches!(client.write(&mut net, b"bye"), Poll::Ready(Ok(3))));
    assert!(client.shutdown(&mut net).is_ok());
    let mut buf = [0u8; 8];
    assert!(matches!(server.read(&mut net, &mut buf), Poll::Ready(Ok(3))));
    assert_eq!(&buf[..3], b"bye");
    assert!(matches!(server.read(&mut net, &mut buf), Poll::Ready(Ok(0))));
    assert!(matches!(server.write(&mut net, b"late"), Poll::Ready(Err(Error::ConnectionReset))));
    assert!(matches!(server.flush(&mut net), Poll::Ready(Ok(()))));
}

#[test]
fn closing_the_listener_keeps_accepted_connections() {
    let mut net = Network::new();
    let listener = LocalListener::bind(&mut net, at(8080)).unwrap();
    let mut client = connect(&mut net, at(50000), at(8080));
    let (mut server, _) = accept(&mut net, &listener);
    let mut waiting = connect(&mut net, at(50001), at(8080));
    listener.close(&mut net);
    assert!(matches!(client.write(&mut net, b"still"), Poll::Ready(Ok(5))));
    let mut buf = [0u8; 5];
    assert!(matches!(server.read(&mut net, &mut buf), Poll::Ready(Ok(5))));
    assert_eq!(&buf, b"still");
    assert_eq!(server.local_addr(&net).unwrap(), at(8080));
    assert!(matches!(waiting.write(&mut net, b"x"), Poll::Ready(Err(Error::ConnectionReset))));
    assert!(matches!(waiting.read(&mut net, &mut buf), Poll::Ready(Ok(0))));
}

#[test]
fn stream_of_another_network_is_not_connected() {
    let mut one = Network::new();
    let mut other = Network::new();
    let (mut client, _server) = pair(&mut one);
    let mut buf = [0u8; 1];
    assert!(matches!(client.read(&mut other, &mut buf), Poll::Ready(Err(Error::NotConnected))));
    assert!(matches!(client.write(&mut other, b"x"), Poll::Ready(Err(Error::NotConnected))));
    assert!(matches!(client.shutdown(&mut other), Err(Error::NotConnected)));
    assert!(matches!(client.local_addr(&other), Err(Error::NotConnected)));
    assert!(matches!(client.peer_addr(&other), Err(Error::NotConnected)));
}

#[test]
fn datagrams_carry_their_sender() {
    let mut net = Network::new();
    let a = LocalSocket::bind(&mut net, at(9000)).unwrap();
    let mut b = LocalSocket::bind(&mut net, at(9001)).unwrap();
    let c = LocalSocket::bind(&mut net, at(0)).unwrap();
    assert_eq!(c.local_addr(&net).unwrap(), at(FIRST_DYNAMIC_PORT));
    assert!(matches!(a.send_to(&mut net, b"from a", at(9001)), Poll::Ready(Ok(6))));
    assert!(matches!(c.send_to(&mut net, b"from c", at(9001)), Poll::Ready(Ok(6))));
    let mut buf = [0u8; 16];
    match b.recv_from(&mut net, &mut buf) {
        Poll::Ready(Ok((n, from))) => {
            assert_eq!(&buf[..n], b"from a");
            assert_eq!(from, at(9000));
        }
        other => panic!("expected a datagram, got {:?}", other),
    }
    match b.recv_from(&mut net, &mut buf) {
        Poll::Ready(Ok((n, from))) => {
            assert_eq!(&buf[..n], b"from c");
            assert_eq!(from, at(FIRST_DYNAMIC_PORT));
        }
        other => panic!("expected a datagram, got {:?}", other),
    }
    assert!(matches!(b.recv_from(&mut net, &mut buf), Poll::Pending));
}

#[test]
fn datagram_longer_than_the_buffer_is_cut() {
    let mut net = Network::new();
    let a = LocalSocket::bind(&mut net, at(9000)).unwrap();
    let mut b = LocalSocket::bind(&mut net, at(9001)).unwrap();
    assert!(matches!(a.send_to(&mut net, b"abcdef", at(9001)), Poll::Ready(Ok(6))));
    assert!(matches!(a.send_to(&mut net, b"xy", at(9001)), Poll::Ready(Ok(2))));
    let mut buf = [0u8; 4];
    assert!(matches!(b.recv_from(&mut net, &mut buf), Poll::Ready(Ok((4, _)))));
    assert_eq!(&buf, b"abcd");
    assert!(matches!(b.recv_from(&mut net, &mut buf), Poll::Ready(Ok((2, _)))));
    assert_eq!(&buf, b"xycd");
}

#[test]
fn datagram_to_nobody_is_lost_without_error() {
    let mut net = Network::new();
    let a = LocalSocket::bind(&mut net, at(9000)).unwrap();
    assert!(matches!(a.send_to(&mut net, b"hello", at(9999)), Poll::Ready(Ok(5))));
    assert!(matches!(a.send_to(&mut net, b"hello", at(0)), Poll::Ready(Err(Error::AddressNotAvailable))));
    let mut late = LocalSocket::bind(&mut net, at(9999)).unwrap();
    let mut buf = [0u8; 8];
    assert!(matches!(late.recv_from(&mut net, &mut buf), Poll::Pending));
}

#[test]
fn datagram_bind_refuses_an_address_in_use() {
    let mut net = Network::new();
    let a = LocalSocket::bind(&mut net, at(9000)).unwrap();
    assert!(matches!(LocalSocket::bind(&mut net, at(9000)), Err(Error::AddressInUse)));
    assert!(LocalListener::bind(&mut net, at(9000)).is_ok());
    a.close(&mut net);
    let again = LocalSocket::bind(&mut net, at(9000)).unwrap();
    assert_eq!(again.local_addr(&net).unwrap(), at(9000));
}

#[test]
fn closed_datagram_socket_is_not_connected() {
    let mut net = Network::new();
    let a = LocalSocket::bind(&mut net, at(9000)).unwrap();
    let mut b = LocalSocket::bind(&mut net, at(9001)).unwrap();
    a.close(&mut net);
    let mut other = Network::new();
    let mut buf = [0u8; 4];
    assert!(matches!(b.recv_from(&mut other, &mut buf), Poll::Ready(Err(Error::NotConnected))));
    assert!(matches!(b.send_to(&mut other, b"x", at(9000)), Poll::Ready(Err(Error::NotConnected))));
    assert!(matches!(b.local_addr(&other), Err(Error::NotConnected)));
    assert!(matches!(b.send_to(&mut net, b"x", at(9000)), Poll::Ready(Ok(1))));
}

#[test]
fn resolver_answers_from_its_table() {
    let mut table = HostTable::new();
    table.enter("example.test".to_string(), vec![IpAddr::V4(0x0a00_0001), IpAddr::V6(1)]);
    table.enter("empty.test".to_string(), vec![]);
    match table.resolve("example.test") {
        Poll::Ready(Ok(addrs)) => assert_eq!(addrs, vec![IpAddr::V4(0x0a00_0001), IpAddr::V6(1)]),
        other => panic!("expected addresses, got {:?}", other),
    }
    match table.resolve("empty.test") {
        Poll::Ready(Ok(addrs)) => assert!(addrs.is_empty()),
        other => panic!("expected no addresses, got {:?}", other),
    }
    match table.resolve("nowhere.test") {
        Poll::Ready(Err(e)) => assert_eq!(e.to_string(), "unknown host: nowhere.test"),
        other => panic!("expected a failure, got {:?}", other),
    }
}

#[test]
fn resolver_record_is_replaced_by_a_later_one() {
    let mut table = HostTable::new();
    table.enter("a.test".to_string(), vec![IpAddr::V4(1)]);
    table.enter("b.test".to_string(), vec![IpAddr::V4(2)]);
    table.enter("a.test".to_string(), vec![IpAddr::V4(3)]);
    assert!(matches!(table.resolve("a.test"), Poll::Ready(Ok(v)) if v == vec![IpAddr::V4(3)]));
    assert!(matches!(table.resolve("b.test"), Poll::Ready(Ok(v)) if v == vec![IpAddr::V4(2)]));
}
