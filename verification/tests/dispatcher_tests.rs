use hezardastan_core::dispatcher::{
    dispatch_policy, route, DispatchAction, DispatchEvent, PeerAddr, Session, SessionState,
    SessionTable,
};
use hezardastan_core::protocols::common::{ProtocolType, TransportKind};

#[test]
fn test_route_by_transport_kind() {
    assert_eq!(route(TransportKind::Stream), ProtocolType::OtlsWs);
    assert_eq!(route(TransportKind::Datagram), ProtocolType::AoQuic);
}

#[test]
fn test_dispatch_policy_only_bind_failure_is_fatal() {
    assert_eq!(dispatch_policy(DispatchEvent::BindFailed), DispatchAction::Abort);
    assert_eq!(dispatch_policy(DispatchEvent::AcceptFailed), DispatchAction::Continue);
    assert_eq!(dispatch_policy(DispatchEvent::SessionFailed), DispatchAction::Continue);
    assert_eq!(dispatch_policy(DispatchEvent::SessionDone), DispatchAction::Continue);
}

#[test]
fn test_peer_addr_key_distinguishes_peers() {
    let a = PeerAddr { ip: 0x7F000001, port: 1000 };
    let b = PeerAddr { ip: 0x7F000001, port: 1001 };
    let c = PeerAddr { ip: 0x7F000002, port: 1000 };
    assert_ne!(a.key(), b.key());
    assert_ne!(a.key(), c.key());
    assert_ne!(b.key(), c.key());
    assert_eq!(a.key(), PeerAddr { ip: 0x7F000001, port: 1000 }.key());
}

#[test]
fn test_session_table_demultiplexes_by_peer() {
    let mut table = SessionTable::new();
    let alice = PeerAddr { ip: 0x0A000001, port: 5000 };
    let bob = PeerAddr { ip: 0x0A000002, port: 5000 };

    assert!(table.lookup(alice).is_none());
    let s1 = table.ensure_entry(alice);
    assert_eq!(s1.peer, alice);
    assert_eq!(s1.kind, TransportKind::Datagram);
    assert_eq!(s1.state, SessionState::Handshaking);
    assert_eq!(table.len(), 1);

    // The same peer maps to the same entry; a new peer gets its own.
    let s1_again = table.ensure_entry(alice);
    assert_eq!(s1_again.id, s1.id);
    let s2 = table.ensure_entry(bob);
    assert_ne!(s2.id, s1.id);
    assert_eq!(table.len(), 2);

    assert_eq!(table.lookup(alice).unwrap().id, s1.id);

    // Pruning an idle peer removes only that peer's entry.
    let removed = table.remove(alice);
    assert_eq!(removed.unwrap().id, s1.id);
    assert!(table.lookup(alice).is_none());
    assert_eq!(table.lookup(bob).unwrap().id, s2.id);
    assert_eq!(table.len(), 1);
}

#[test]
fn test_session_close_is_idempotent() {
    let peer = PeerAddr { ip: 0x7F000001, port: 8443 };
    let mut session = Session::new(7, TransportKind::Stream, peer);
    assert_eq!(session.state, SessionState::Handshaking);

    assert!(session.close());
    assert_eq!(session.state, SessionState::Closed);

    // A repeated close call is a no-op, not an error.
    assert!(!session.close());
    assert_eq!(session.state, SessionState::Closed);
}

#[test]
fn test_session_two_phase_shutdown() {
    let peer = PeerAddr { ip: 0x7F000001, port: 8443 };
    let mut session = Session::new(8, TransportKind::Stream, peer);
    session.begin_close();
    assert_eq!(session.state, SessionState::Closing);
    session.finish_close();
    assert_eq!(session.state, SessionState::Closed);
    // Beginning a close on a closed session keeps it closed.
    session.begin_close();
    assert_eq!(session.state, SessionState::Closed);
}
