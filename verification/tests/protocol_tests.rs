use hezardastan_core::dispatcher::{PeerAddr, Session, SessionState};
use hezardastan_core::obfuscation::ObfuscatedProtocol;
use hezardastan_core::protocols::aoquic::{encode_frame, AoQuicProtocol, FrameBuffer};
use hezardastan_core::protocols::common::{ProtocolError, TransportKind};
use hezardastan_core::protocols::otls_ws::{
    build_handshake_request, parse_handshake_host, OtlsWsProtocol,
};
use hezardastan_core::security::traffic_obfuscation::Obfuscator;

#[test]
fn test_handshake_request_shape() {
    let req = build_handshake_request(b"www.example.com");
    let text = String::from_utf8(req.clone()).unwrap();
    assert_eq!(
        text,
        "GET / HTTP/1.1\r\nHost: www.example.com\r\nUpgrade: websocket\r\nConnection: Upgrade\r\n\r\n"
    );
    assert_eq!(parse_handshake_host(&req), Some(b"www.example.com".to_vec()));
}

#[test]
fn test_handshake_parse_rejects_other_traffic() {
    assert_eq!(parse_handshake_host(b""), None);
    assert_eq!(parse_handshake_host(b"GET / HTTP/1.1\r\n\r\n"), None);
    assert_eq!(
        parse_handshake_host(b"POST / HTTP/1.1\r\nHost: a\r\nUpgrade: websocket\r\nConnection: Upgrade\r\n\r\n"),
        None
    );
    // Right head, wrong tail.
    assert_eq!(parse_handshake_host(b"GET / HTTP/1.1\r\nHost: a\r\n\r\n"), None);
}

#[test]
fn test_otlsws_protocol_name() {
    let protocol = OtlsWsProtocol::new();
    assert_eq!(protocol.name(), "OTLS/WS");
}

#[test]
fn test_aoquic_protocol_name() {
    let protocol = AoQuicProtocol::new();
    assert_eq!(protocol.name(), "AOQUIC");
}

#[test]
fn test_otlsws_handles_tcp_stream_successfully() {
    let protocol = OtlsWsProtocol::new();
    let peer = PeerAddr { ip: 0x7F000001, port: 443 };
    let mut session = Session::new(1, TransportKind::Stream, peer);
    assert_eq!(session.state, SessionState::Handshaking);

    let result = protocol.handle_tcp_stream(&mut session);

    assert!(result.is_ok());
    assert_eq!(session.state, SessionState::Open);
}

#[test]
fn test_otlsws_rejects_udp_packets() {
    let protocol = OtlsWsProtocol::new();
    let dummy_peer = PeerAddr { ip: 0x7F000001, port: 12345 };
    let dummy_buf: Vec<u8> = vec![];

    let result = protocol.handle_udp_packet(&dummy_buf, dummy_peer);

    assert!(result.is_err());
    assert!(matches!(
        result.unwrap_err(),
        ProtocolError::ProtocolViolation(_)
    ));
}

#[test]
fn test_otlsws_rejects_datagram_session() {
    let protocol = OtlsWsProtocol::new();
    let peer = PeerAddr { ip: 0x7F000001, port: 12345 };
    let mut session = Session::new(2, TransportKind::Datagram, peer);

    let result = protocol.handle_tcp_stream(&mut session);

    assert!(matches!(
        result.unwrap_err(),
        ProtocolError::ProtocolViolation(_)
    ));
    assert_eq!(session.state, SessionState::Handshaking);
}

#[test]
fn test_aoquic_rejects_tcp_stream() {
    let protocol = AoQuicProtocol::new();
    let result = protocol.handle_tcp_stream();
    assert!(matches!(
        result.unwrap_err(),
        ProtocolError::ProtocolViolation(_)
    ));
}

#[test]
fn test_check_transport_is_symmetric() {
    let otls = OtlsWsProtocol::new();
    let aoquic = AoQuicProtocol::new();
    assert!(otls.check_transport(TransportKind::Stream).is_ok());
    assert!(otls.check_transport(TransportKind::Datagram).is_err());
    assert!(aoquic.check_transport(TransportKind::Datagram).is_ok());
    assert!(aoquic.check_transport(TransportKind::Stream).is_err());
}

#[test]
fn test_frame_buffer_not_ready_on_partial_data() {
    let mut buffer = FrameBuffer::new();
    // A frame announcing 4 body bytes, split across datagrams.
    assert_eq!(buffer.try_next_frame(), None);
    buffer.push_datagram(&[0, 4, b'a']);
    assert_eq!(buffer.try_next_frame(), None);
    buffer.push_datagram(&[b'b', b'c']);
    assert_eq!(buffer.try_next_frame(), None);
    buffer.push_datagram(&[b'd']);
    assert_eq!(buffer.try_next_frame(), Some(b"abcd".to_vec()));
    assert_eq!(buffer.try_next_frame(), None);
}

#[test]
fn test_frame_buffer_keeps_following_bytes() {
    let mut buffer = FrameBuffer::new();
    let mut bytes = encode_frame(b"one");
    bytes.extend(encode_frame(b"two"));
    buffer.push_datagram(&bytes);
    assert_eq!(buffer.try_next_frame(), Some(b"one".to_vec()));
    assert_eq!(buffer.try_next_frame(), Some(b"two".to_vec()));
    assert_eq!(buffer.try_next_frame(), None);
}

#[test]
fn test_encode_frame_layout() {
    let frame = encode_frame(b"hi");
    assert_eq!(frame, vec![0u8, 2, b'h', b'i']);
    let big = encode_frame(&vec![7u8; 300]);
    assert_eq!(big[0], 1);
    assert_eq!(big[1], 44);
    assert_eq!(big.len(), 302);
}

#[test]
fn test_aoquic_datagram_to_frame() {
    let protocol = AoQuicProtocol::new();
    let engine = Obfuscator::new();
    let mut assembly = FrameBuffer::new();

    let wire = protocol.seal_payload(&engine, b"datagram payload");
    let framed = encode_frame(&wire);

    // First half of the frame: not ready, nothing consumed or exposed.
    let (a, b) = framed.split_at(framed.len() / 2);
    assert_eq!(protocol.handle_udp_packet(&mut assembly, a), None);
    // Second half completes the frame.
    let frame = protocol.handle_udp_packet(&mut assembly, b).unwrap();
    let payload = protocol.open_payload(&engine, &frame).unwrap();
    assert_eq!(payload, b"datagram payload".to_vec());
}
