//! The negotiation driver: dial and listen through an upgraded node.

use swarm_transport::addr::Multiaddr;
use swarm_transport::deferred::DeferredConn;
use swarm_transport::either::{
    EitherConnUpgrFuture, EitherSocket, EitherTransportFuture, EitherUpgradeIdentifier,
};
use swarm_transport::errors::{ConnectError, IoFailure};
use swarm_transport::memory::{MemoryConn, MemoryDial, MemoryTransport};
use swarm_transport::node::complete_upgrade;
use swarm_transport::transport::{or_transport, with_upgrade, DeniedTransport, Transport};
use swarm_transport::upgrade::{ConnectionUpgrade, IdentityUpgrade, PlainText};

/// The negotiation outcome a dialer and a listener agree on, simulated: the
/// first locally advertised protocol whose name the remote peer also
/// advertises, names compared byte-exactly.
fn pick_protocol<T: Clone>(candidates: &[(Vec<u8>, T)], remote: &[&[u8]]) -> Option<T> {
    for (name, id) in candidates {
        if remote.iter().any(|r| *r == name.as_slice()) {
            return Some(id.clone());
        }
    }
    None
}

#[test]
fn scenario_plaintext_dial_and_listen() {
    // dialer side: negotiation chooses /plaintext/1.0.0 and the upgraded
    // connection is the raw connection unchanged
    let raw = MemoryConn::new(vec![11, 22]);
    let t = MemoryTransport::new(
        b"/memory/1".to_vec(),
        MemoryDial::connecting(raw.clone()),
        vec![],
    );
    let node = with_upgrade(t, PlainText);
    let dial = node.dial(Multiaddr::new(b"/memory/1".to_vec())).unwrap();
    let (conn, candidates, st) = dial.resolve_transport().unwrap();
    assert_eq!(candidates.len(), 1);
    assert_eq!(candidates[0].0.as_slice(), &b"/plaintext/1.0.0"[..]);
    let id = pick_protocol(&candidates, &[&b"/plaintext/1.0.0"[..]]).unwrap();
    let fut = st.negotiated(conn, id);
    let upgraded = complete_upgrade(fut).unwrap();
    assert_eq!(upgraded, raw);

    // listener side: same protocol, same identity transform
    let raw2 = MemoryConn::new(vec![33]);
    let t2 = MemoryTransport::new(
        b"/memory/1".to_vec(),
        MemoryDial::failing(),
        vec![Ok(raw2.clone())],
    );
    let node2 = with_upgrade(t2, PlainText);
    let mut listener = node2
        .listen_on(Multiaddr::new(b"/memory/1".to_vec()))
        .unwrap();
    let (conn2, candidates2, st2) = listener.accept_next().unwrap().unwrap();
    assert_eq!(candidates2.len(), 1);
    assert_eq!(candidates2[0].0.as_slice(), &b"/plaintext/1.0.0"[..]);
    let id2 = pick_protocol(&candidates2, &[&b"/plaintext/1.0.0"[..]]).unwrap();
    let fut2 = st2.negotiated(conn2, id2);
    assert_eq!(complete_upgrade(fut2).unwrap(), raw2);
}

#[test]
fn scenario_choice_listener_selects_second_protocol() {
    let raw = MemoryConn::new(vec![7, 8]);
    let t = MemoryTransport::new(
        b"/memory/4".to_vec(),
        MemoryDial::failing(),
        vec![Ok(raw.clone())],
    );
    let u1 = IdentityUpgrade { name: b"/stack/one".to_vec() };
    let u2 = IdentityUpgrade { name: b"/stack/two".to_vec() };
    let node = with_upgrade(t, u1).or_upgrade(u2);
    let mut listener = node
        .listen_on(Multiaddr::new(b"/memory/4".to_vec()))
        .unwrap();
    let (conn, candidates, st) = listener.accept_next().unwrap().unwrap();
    assert_eq!(candidates.len(), 2);
    // the dialing peer advertises only the second stack's protocol
    let id = pick_protocol(&candidates, &[&b"/stack/two"[..]]).unwrap();
    assert!(matches!(id, EitherUpgradeIdentifier::Second(())));
    let fut = st.negotiated(conn.clone(), id);
    assert!(matches!(fut, EitherConnUpgrFuture::Second(_)));
    let upgraded = complete_upgrade(fut).unwrap();
    // the result matches applying the second upgrade directly
    let direct = complete_upgrade(
        IdentityUpgrade { name: b"/stack/two".to_vec() }.upgrade(conn, ()),
    )
    .unwrap();
    assert_eq!(upgraded, EitherSocket::Second(direct));
}

#[test]
fn upgraded_node_returns_address_and_node_on_unsupported_address() {
    let t = MemoryTransport::new(
        b"/memory/1".to_vec(),
        MemoryDial::connecting(MemoryConn::new(vec![])),
        vec![],
    );
    let node = with_upgrade(t, PlainText);
    let (node, addr) = node.dial(Multiaddr::new(b"/memory/8".to_vec())).unwrap_err();
    assert_eq!(addr.as_bytes().as_slice(), &b"/memory/8"[..]);
    // the upgrade set is preserved: the returned node still dials its own
    // address and advertises the same protocol
    let dial = node.dial(Multiaddr::new(b"/memory/1".to_vec())).unwrap();
    let (_, candidates, _) = dial.resolve_transport().unwrap();
    assert_eq!(candidates[0].0.as_slice(), &b"/plaintext/1.0.0"[..]);
}

#[test]
fn transport_io_failure_fails_the_dial() {
    let t = MemoryTransport::new(b"/memory/1".to_vec(), MemoryDial::failing(), vec![]);
    let node = with_upgrade(t, PlainText);
    let dial = node.dial(Multiaddr::new(b"/memory/1".to_vec())).unwrap();
    assert_eq!(dial.resolve_transport().unwrap_err(), ConnectError::TransportIo);
}

#[test]
fn negotiation_failure_is_fatal_and_structured() {
    let t = MemoryTransport::new(
        b"/memory/1".to_vec(),
        MemoryDial::connecting(MemoryConn::new(vec![])),
        vec![],
    );
    let node = with_upgrade(t, PlainText);
    let dial = node.dial(Multiaddr::new(b"/memory/1".to_vec())).unwrap();
    let (_, candidates, st) = dial.resolve_transport().unwrap();
    // the remote peer shares no protocol name
    assert!(pick_protocol(&candidates, &[&b"/other/1"[..]]).is_none());
    assert_eq!(st.negotiation_failed(), ConnectError::Negotiation);
}

#[test]
fn upgrade_handshake_failure_maps_to_upgrade_error() {
    assert_eq!(complete_upgrade(MemoryDial::failing()), Err(ConnectError::Upgrade));
}

#[test]
fn listener_keeps_producing_after_one_failed_accept() {
    let c1 = MemoryConn::new(vec![1]);
    let c2 = MemoryConn::new(vec![2]);
    let t = MemoryTransport::new(
        b"/memory/6".to_vec(),
        MemoryDial::failing(),
        vec![Ok(c1.clone()), Err(IoFailure), Ok(c2.clone())],
    );
    let node = with_upgrade(t, PlainText);
    let mut listener = node
        .listen_on(Multiaddr::new(b"/memory/6".to_vec()))
        .unwrap();
    let (got1, _, _) = listener.accept_next().unwrap().unwrap();
    assert_eq!(got1, c1);
    let failed = listener.accept_next().unwrap();
    assert_eq!(failed.unwrap_err(), ConnectError::TransportIo);
    let (got2, _, _) = listener.accept_next().unwrap().unwrap();
    assert_eq!(got2, c2);
    assert!(listener.accept_next().is_none());
}

#[test]
fn dial_splits_into_transport_future_and_negotiation_state() {
    let raw = MemoryConn::new(vec![5]);
    let t = MemoryTransport::new(
        b"/memory/1".to_vec(),
        MemoryDial::connecting(raw.clone()),
        vec![],
    );
    let node = with_upgrade(t, PlainText);
    let dial = node.dial(Multiaddr::new(b"/memory/1".to_vec())).unwrap();
    let (inner, st) = dial.begin();
    let conn = inner.resolve().unwrap();
    assert_eq!(conn, raw);
    let fut = st.negotiated(conn, ());
    assert_eq!(complete_upgrade(fut).unwrap(), raw);
}

#[test]
fn upgraded_node_composes_as_a_transport() {
    let raw = MemoryConn::new(vec![42]);
    let t = MemoryTransport::new(
        b"/memory/1".to_vec(),
        MemoryDial::connecting(raw.clone()),
        vec![],
    );
    let node = with_upgrade(t, PlainText);
    let combined = or_transport(node, DeniedTransport);
    let dial = combined
        .dial(Multiaddr::new(b"/memory/1".to_vec()))
        .unwrap();
    match dial {
        EitherTransportFuture::First(upgraded_dial) => {
            let (conn, _, st) = upgraded_dial.resolve_transport().unwrap();
            let fut = st.negotiated(conn, ());
            assert_eq!(complete_upgrade(fut).unwrap(), raw);
        }
        EitherTransportFuture::Second(_) => panic!("the denied side must not be tried"),
    }
}
