use typestate_tcp::ConnectionError;
use typestate_tcp::EchoTransport;
use typestate_tcp::IoError;
use typestate_tcp::TcpConnection;
use typestate_tcp::Transport;
use typestate_tcp::echo_step;

#[test]
fn scenario_echo_round_trip() {
    // create -> connect to a running echo responder -> send "Hello Rust!"
    // -> receive into a 1024-byte buffer -> close
    let handle = TcpConnection::new();
    let mut conn = handle.set_host(Ok(EchoTransport::new())).unwrap();

    let sent = conn.send("Hello Rust!".as_bytes()).unwrap();
    assert_eq!(sent, 11);

    let mut buf = vec![0u8; 1024];
    let read = conn.receive(&mut buf).unwrap();
    assert_eq!(read, 11);
    assert_eq!(&buf[..read], "Hello Rust!".as_bytes());
    assert_eq!(buf.len(), 1024);
    assert!(buf[read..].iter().all(|b| *b == 0));

    let _disconnected = conn.close();
}

#[test]
fn connect_nothing_listening_gives_error_and_no_handle() {
    let r = TcpConnection::<_, EchoTransport>::connect(Err(ConnectionError::Refused));
    assert_eq!(r.unwrap_err(), ConnectionError::Refused);
}

#[test]
fn connect_surfaces_each_error_kind() {
    for e in [
        ConnectionError::Unresolvable,
        ConnectionError::Refused,
        ConnectionError::Unreachable,
        ConnectionError::Failed,
    ] {
        let r = TcpConnection::<_, EchoTransport>::connect(Err(e));
        assert_eq!(r.unwrap_err(), e);
        let handle = TcpConnection::<_, EchoTransport>::new();
        let r = handle.set_host(Err(e));
        assert_eq!(r.unwrap_err(), e);
    }
}

#[test]
fn close_then_reconnect_behaves_like_connect() {
    let conn = TcpConnection::connect(Ok(EchoTransport::new())).unwrap();
    let disconnected = conn.close();
    let mut conn = disconnected.reconnect(Ok(EchoTransport::new())).unwrap();
    assert_eq!(conn.send(b"again").unwrap(), 5);
    let mut buf = vec![0u8; 8];
    assert_eq!(conn.receive(&mut buf).unwrap(), 5);
    assert_eq!(&buf[..5], b"again");
    let _ = conn.close();
}

#[test]
fn reconnect_fails_when_address_unreachable() {
    let conn = TcpConnection::connect(Ok(EchoTransport::new())).unwrap();
    let disconnected = conn.close();
    let r = disconnected.reconnect(Err(ConnectionError::Unreachable));
    assert_eq!(r.unwrap_err(), ConnectionError::Unreachable);
}

#[test]
fn scenario_peer_closes_after_one_exchange() {
    // The peer echoes one exchange and then closes its side; the echoed
    // bytes stay readable, and once drained every receive returns Ok(0).
    let mut transport = EchoTransport::new();
    assert_eq!(transport.write(b"bye").unwrap(), 3);
    transport.close_peer();

    let mut conn = TcpConnection::connect(Ok(transport)).unwrap();
    let mut buf = vec![0u8; 16];
    assert_eq!(conn.receive(&mut buf).unwrap(), 3);
    assert_eq!(&buf[..3], b"bye");
    assert_eq!(conn.receive(&mut buf).unwrap(), 0);
    assert_eq!(conn.receive(&mut buf).unwrap(), 0);
    let _ = conn.close();
}

#[test]
fn send_after_peer_closed_fails() {
    let mut transport = EchoTransport::new();
    transport.close_peer();
    let mut conn = TcpConnection::connect(Ok(transport)).unwrap();
    assert_eq!(conn.send(b"x").unwrap_err(), IoError::PeerClosed);
    let _ = conn.close();
}

#[test]
fn receive_with_small_buffer_keeps_rest_pending() {
    let mut conn = TcpConnection::connect(Ok(EchoTransport::new())).unwrap();
    assert_eq!(conn.send(b"abcdef").unwrap(), 6);
    let mut buf = vec![0u8; 4];
    assert_eq!(conn.receive(&mut buf).unwrap(), 4);
    assert_eq!(&buf[..], b"abcd");
    assert_eq!(conn.receive(&mut buf).unwrap(), 2);
    assert_eq!(&buf[..2], b"ef");
    assert_eq!(&buf[2..], b"cd");
    let _ = conn.close();
}

#[test]
fn echo_transport_round_trip_directly() {
    let mut t = EchoTransport::new();
    assert_eq!(t.write(b"ping").unwrap(), 4);
    let mut buf = vec![0u8; 4];
    assert_eq!(t.read(&mut buf).unwrap(), 4);
    assert_eq!(&buf[..], b"ping");
    assert_eq!(t.read(&mut buf).unwrap(), 0);
}

#[test]
fn echo_step_replies_with_what_was_read() {
    let buf = b"hello world".to_vec();
    let reply = echo_step(&buf, 5).unwrap();
    assert_eq!(reply, b"hello".to_vec());
}

#[test]
fn echo_step_zero_read_ends_session() {
    let buf = vec![7u8; 8];
    assert!(echo_step(&buf, 0).is_none());
}

/// A transport whose peer is gone in a disorderly way: every operation fails.
#[derive(Debug)]
struct FailingTransport;

impl Transport for FailingTransport {
    fn write(&mut self, _data: &[u8]) -> Result<usize, IoError> {
        Err(IoError::Failed)
    }

    fn read(&mut self, _buf: &mut Vec<u8>) -> Result<usize, IoError> {
        Err(IoError::Failed)
    }
}

#[test]
fn io_failure_is_surfaced_and_the_handle_stays_usable() {
    let mut conn = TcpConnection::connect(Ok(FailingTransport)).unwrap();
    assert_eq!(conn.send(b"x").unwrap_err(), IoError::Failed);
    let mut buf = vec![0u8; 4];
    assert_eq!(conn.receive(&mut buf).unwrap_err(), IoError::Failed);
    let disconnected = conn.close();
    let r = disconnected.reconnect(Err(ConnectionError::Refused));
    assert_eq!(r.unwrap_err(), ConnectionError::Refused);
}
