use iroh_http_server::base32::base32_encode;
use iroh_http_server::error::ConnectionServeError;
use iroh_http_server::identity::{validate_http_connection, EndpointId};

#[test]
fn base32_matches_the_rfc_examples() {
    for (plain, text) in [
        ("", ""),
        ("f", "my"),
        ("fo", "mzxq"),
        ("foo", "mzxw6"),
        ("foob", "mzxw6yq"),
        ("fooba", "mzxw6ytb"),
        ("foobar", "mzxw6ytboi"),
    ] {
        assert_eq!(base32_encode(plain.as_bytes()), text);
    }
}

#[test]
fn base32_uses_the_whole_alphabet() {
    let bytes = [
        0x00, 0x44, 0x32, 0x14, 0xc7, 0x42, 0x54, 0xb6, 0x35, 0xcf, 0x84, 0x65, 0x3a, 0x56, 0xd7,
        0xc6, 0x75, 0xbe, 0x77, 0xdf,
    ];
    assert_eq!(base32_encode(&bytes), "abcdefghijklmnopqrstuvwxyz234567");
}

#[test]
fn base32_length_grows_with_the_input() {
    let mut last = 0;
    for len in 1..=64 {
        let text = base32_encode(&vec![0xffu8; len]);
        assert_eq!(text.len(), (8 * len + 4) / 5);
        assert!(text.len() > last);
        last = text.len();
    }
}

#[test]
fn a_peer_is_named_in_both_forms() {
    let id = EndpointId::from_bytes([0u8; 32]);
    let identity = validate_http_connection(b"h", b"h", id).unwrap();
    assert_eq!(identity.endpoint_id, id);
    assert_eq!(identity.legacy_node_id, "a".repeat(52));
    let (endpoint_id, node_id) = identity.extensions();
    assert_eq!(endpoint_id.0.as_bytes(), &[0u8; 32]);
    assert_eq!(*node_id.0, "a".repeat(52));
    assert_eq!(
        endpoint_id,
        iroh_http_server::identity::RemoteEndpointId(id)
    );
}

#[test]
fn different_peers_have_different_names() {
    let mut bytes = [9u8; 32];
    let first = validate_http_connection(b"h", b"h", EndpointId::from_bytes(bytes)).unwrap();
    bytes[31] = 8;
    let second = validate_http_connection(b"h", b"h", EndpointId::from_bytes(bytes)).unwrap();
    assert_ne!(first.endpoint_id, second.endpoint_id);
    assert_ne!(first.legacy_node_id, second.legacy_node_id);
}

#[test]
fn another_protocol_is_refused_and_closed() {
    let id = EndpointId::from_bytes([1u8; 32]);
    for negotiated in [&b"http-duplex"[..], &b"htt"[..], &b""[..], &b"HTTP"[..]] {
        let refusal = validate_http_connection(negotiated, b"http", id).unwrap_err();
        assert!(matches!(
            refusal.error,
            ConnectionServeError::UnexpectedAlpn { actual } if actual == negotiated
        ));
        let close = refusal.close.expect("closed");
        assert_eq!(close.code, 0);
        assert_eq!(close.reason, "unexpected ALPN");
    }
}
