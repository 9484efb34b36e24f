use hezardastan_core::dispatcher::{PeerAddr, Session, SessionState};
use hezardastan_core::obfuscation::ObfuscatedProtocol;
use hezardastan_core::protocols::common::TransportKind;
use hezardastan_core::protocols::otls_ws::OtlsWsProtocol;
use hezardastan_core::security::traffic_obfuscation::Obfuscator;

#[test]
fn test_ping_end_to_end_through_otls_ws() {
    // A client sends "ping" through an OTLS/WS session: the server-side
    // round trip yields exactly "ping" at the application layer, while the
    // wire bytes differ from the payload.
    let protocol = OtlsWsProtocol::new();
    let engine = Obfuscator::new();
    let peer = PeerAddr { ip: 0x7F000001, port: 55000 };
    let mut session = Session::new(1, TransportKind::Stream, peer);
    protocol.handle_tcp_stream(&mut session).unwrap();
    assert_eq!(session.state, SessionState::Open);

    for _ in 0..64 {
        let wire = protocol.seal_payload(&engine, b"ping");
        // The fixed prefix alone makes the wire longer than the payload; the
        // noise and mimicry stages can only add to that.
        assert!(wire.len() > b"ping".len());
        assert_ne!(wire, b"ping".to_vec());

        let received = protocol.open_payload(&engine, &wire).unwrap();
        assert_eq!(received, b"ping".to_vec());
    }

    assert!(session.close());
}

#[test]
fn test_hundred_concurrent_sessions_complete_independently() {
    // 100 concurrent sessions complete independently; a forced handshake
    // failure in one does not delay or block completion of the others.
    let rt = tokio::runtime::Runtime::new().unwrap();
    rt.block_on(async {
        let mut handles = Vec::new();
        for i in 0..100u32 {
            handles.push(tokio::spawn(async move {
                let protocol = OtlsWsProtocol::new();
                let engine = Obfuscator::new();
                let peer = PeerAddr { ip: 0x0A000000 + i, port: 40000 };
                // Session 17 is forced to fail its handshake: it is handed
                // the transport kind the protocol does not support.
                let kind = if i == 17 { TransportKind::Datagram } else { TransportKind::Stream };
                let mut session = Session::new(i as u64, kind, peer);
                let handshake = protocol.handle_tcp_stream(&mut session);
                if handshake.is_err() {
                    return (i, false);
                }
                let payload = format!("session {} payload", i).into_bytes();
                let wire = protocol.seal_payload(&engine, &payload);
                let back = protocol.open_payload(&engine, &wire).unwrap();
                assert_eq!(back, payload);
                session.close();
                (i, true)
            }));
        }
        let mut completed = 0u32;
        let mut failed = Vec::new();
        for h in handles {
            let (i, ok) = h.await.unwrap();
            if ok {
                completed += 1;
            } else {
                failed.push(i);
            }
        }
        assert_eq!(completed, 99);
        assert_eq!(failed, vec![17]);
    });
}
