//! Fallback composition of transports, and the byte-stream adapters.

use swarm_transport::addr::Multiaddr;
use swarm_transport::conn::RawConnection;
use swarm_transport::deferred::{ConnStream, DeferredConn};
use swarm_transport::either::{EitherSocket, EitherStream, EitherTransportFuture};
use swarm_transport::errors::IoFailure;
use swarm_transport::memory::{MemoryConn, MemoryDial, MemoryTransport};
use swarm_transport::transport::{or_transport, DeniedTransport, Transport};

fn mem_transport(addr: &[u8], payload: Vec<u8>) -> MemoryTransport {
    MemoryTransport::new(
        addr.to_vec(),
        MemoryDial::connecting(MemoryConn::new(payload)),
        vec![],
    )
}

#[test]
fn or_transport_dial_prefers_first() {
    let a = mem_transport(b"/memory/1", vec![1, 2, 3]);
    let b = mem_transport(b"/memory/2", vec![9]);
    let dial = or_transport(a, b)
        .dial(Multiaddr::new(b"/memory/1".to_vec()))
        .unwrap();
    assert!(matches!(dial, EitherTransportFuture::First(_)));
    let mut conn = dial.resolve().unwrap();
    assert_eq!(conn, EitherSocket::First(MemoryConn::new(vec![1, 2, 3])));
    assert_eq!(conn.read_byte(), Some(1));
    assert_eq!(conn.read_byte(), Some(2));
    assert_eq!(conn.read_byte(), Some(3));
    assert_eq!(conn.read_byte(), None);
}

#[test]
fn or_transport_dial_falls_back_to_second() {
    let a = mem_transport(b"/memory/1", vec![1]);
    let b = mem_transport(b"/memory/2", vec![9]);
    let dial = or_transport(a, b)
        .dial(Multiaddr::new(b"/memory/2".to_vec()))
        .unwrap();
    assert!(matches!(dial, EitherTransportFuture::Second(_)));
    let conn = dial.resolve().unwrap();
    assert_eq!(conn, EitherSocket::Second(MemoryConn::new(vec![9])));
}

#[test]
fn or_transport_dial_returns_address_on_double_failure() {
    let a = mem_transport(b"/memory/1", vec![]);
    let b = mem_transport(b"/memory/2", vec![]);
    let addr = Multiaddr::new(b"/memory/9".to_vec());
    let (t, addr) = or_transport(a, b).dial(addr).unwrap_err();
    assert_eq!(addr.as_bytes().as_slice(), &b"/memory/9"[..]);
    // the transport handed back behaves identically on a retry with the same
    // address
    let (t, addr) = t.dial(addr).unwrap_err();
    assert_eq!(addr.as_bytes().as_slice(), &b"/memory/9"[..]);
    // and still dials what the first side supports
    let dial = t.dial(Multiaddr::new(b"/memory/1".to_vec())).unwrap();
    assert!(matches!(dial, EitherTransportFuture::First(_)));
}

#[test]
fn scenario_fallback_with_denied_transport() {
    let t = mem_transport(b"/memory/2", vec![7]);
    let combined = or_transport(t, DeniedTransport);
    let (combined, addr) = combined
        .dial(Multiaddr::new(b"/memory/1".to_vec()))
        .unwrap_err();
    assert_eq!(addr.as_bytes().as_slice(), &b"/memory/1"[..]);
    let dial = combined
        .dial(Multiaddr::new(b"/memory/2".to_vec()))
        .unwrap();
    let conn = dial.resolve().unwrap();
    assert_eq!(conn, EitherSocket::First(MemoryConn::new(vec![7])));
}

#[test]
fn denied_transport_denies_everything() {
    let (_, addr) = DeniedTransport
        .dial(Multiaddr::new(b"/memory/1".to_vec()))
        .unwrap_err();
    assert_eq!(addr.as_bytes().as_slice(), &b"/memory/1"[..]);
    let (_, addr) = DeniedTransport.listen_on(addr).unwrap_err();
    assert_eq!(addr.as_bytes().as_slice(), &b"/memory/1"[..]);
}

#[test]
fn or_transport_listener_wraps_accepted_connections() {
    let t = MemoryTransport::new(
        b"/memory/5".to_vec(),
        MemoryDial::failing(),
        vec![Ok(MemoryConn::new(vec![4])), Err(IoFailure)],
    );
    let mut listener = or_transport(DeniedTransport, t)
        .listen_on(Multiaddr::new(b"/memory/5".to_vec()))
        .unwrap();
    assert!(matches!(listener, EitherStream::Second(_)));
    let first = listener.next_conn().unwrap().unwrap();
    assert_eq!(first, EitherSocket::Second(MemoryConn::new(vec![4])));
    assert!(listener.next_conn().unwrap().is_err());
    assert!(listener.next_conn().is_none());
}

#[test]
fn connection_write_and_shutdown() {
    let mut conn = MemoryConn::new(vec![]);
    conn.write_byte(10).unwrap();
    conn.write_byte(20).unwrap();
    assert!(conn.flush().is_ok());
    assert_eq!(conn.sent().as_slice(), &[10u8, 20][..]);
    conn.shutdown();
    assert!(conn.write_byte(30).is_err());
    assert!(conn.flush().is_err());
    assert_eq!(conn.sent().as_slice(), &[10u8, 20][..]);
}

#[test]
fn either_socket_dispatches_to_active_variant() {
    let mut sock: EitherSocket<MemoryConn, MemoryConn> =
        EitherSocket::First(MemoryConn::new(vec![1]));
    assert_eq!(sock.read_byte(), Some(1));
    assert_eq!(sock.read_byte(), None);
    sock.write_byte(2).unwrap();
    sock.shutdown();
    match sock {
        EitherSocket::First(c) => {
            assert_eq!(c.sent().as_slice(), &[2u8][..]);
        }
        EitherSocket::Second(_) => unreachable!(),
    }
}

#[test]
fn multiaddr_round_trip() {
    let addr = Multiaddr::new(b"/memory/1".to_vec());
    let copy = addr.duplicate();
    assert_eq!(copy.as_bytes(), addr.as_bytes());
    assert!(addr.matches_bytes(&b"/memory/1".to_vec()));
    assert!(!addr.matches_bytes(&b"/memory/2".to_vec()));
}
