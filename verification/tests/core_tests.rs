use hezardastan_core::add;
use hezardastan_core::protocols::common::{Packet, ProtocolType};

#[test]
fn test_add_two_numbers() {
    // Positive numbers
    assert_eq!(add(2, 3), 5);

    // Zero
    assert_eq!(add(0, 7), 7);

    // Negative numbers
    assert_eq!(add(-1, -4), -5);

    // Positive and negative
    assert_eq!(add(10, -3), 7);
}

#[test]
fn test_add_large_numbers() {
    assert_eq!(add(1000, 2000), 3000);
}

#[test]
fn test_protocol_type_from_str() {
    assert_eq!(ProtocolType::from_str("otls-ws"), Some(ProtocolType::OtlsWs));
    assert_eq!(ProtocolType::from_str("aoquic"), Some(ProtocolType::AoQuic));
    assert_eq!(ProtocolType::from_str("OTLS-WS"), Some(ProtocolType::OtlsWs));
    assert_eq!(ProtocolType::from_str("AoQuIc"), Some(ProtocolType::AoQuic));
    assert_eq!(ProtocolType::from_str("wireguard"), None);
    assert_eq!(ProtocolType::from_str(""), None);
}

#[test]
fn test_protocol_type_to_string_repr() {
    assert_eq!(ProtocolType::OtlsWs.to_string_repr(), "otls-ws");
    assert_eq!(ProtocolType::AoQuic.to_string_repr(), "aoquic");
}

#[test]
fn test_protocol_type_string_round_trip() {
    for p in [ProtocolType::OtlsWs, ProtocolType::AoQuic] {
        assert_eq!(ProtocolType::from_str(p.to_string_repr()), Some(p.clone()));
    }
}

#[test]
fn test_tunnel_config_carries_its_fields() {
    let mut params = std::collections::HashMap::new();
    params.insert("path".to_string(), "/ws".to_string());
    let config = hezardastan_core::protocols::common::TunnelConfig {
        server_address: "203.0.113.10".to_string(),
        server_port: 8443,
        user_id: "user-1".to_string(),
        protocol_type: ProtocolType::OtlsWs,
        protocol_params: params,
        enable_kill_switch: true,
        mimic_domain: "www.example.com".to_string(),
    };
    let copy = config.clone();
    assert_eq!(copy.server_port, 8443);
    assert_eq!(copy.protocol_type, ProtocolType::OtlsWs);
    assert_eq!(copy.protocol_params.get("path").map(String::as_str), Some("/ws"));
    assert!(copy.enable_kill_switch);
    assert_eq!(copy.mimic_domain, "www.example.com");
}

#[test]
fn test_packet_new() {
    let p = Packet::new(vec![1u8, 2, 3]);
    assert_eq!(p.data, vec![1u8, 2, 3]);
    assert!(p.metadata.is_none());
}
