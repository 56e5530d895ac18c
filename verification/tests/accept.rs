use iroh_http_server::accept::{accept_loop, AcceptAction, AcceptEvent, AcceptLoop, AcceptStart};
use iroh_http_server::error::ConnectionServeError;
use iroh_http_server::identity::EndpointId;
use iroh_http_server::options::ServeOptions;
use iroh_http_server::server::{serve, EndpointSettings};

const ALPN: &[u8] = b"http";

fn running(options: ServeOptions) -> AcceptLoop {
    let endpoint = EndpointSettings {
        max_header_size: 65_536,
        compression: None,
    };
    match accept_loop(serve(endpoint, options).config) {
        AcceptStart::Running(accept, runtime) => {
            assert_eq!(runtime.options().max_concurrency, 1024);
            accept
        }
        AcceptStart::Refused(error) => panic!("refused: {}", error.message()),
    }
}

#[test]
fn an_invalid_configuration_is_refused_at_once() {
    let endpoint = EndpointSettings {
        max_header_size: 65_536,
        compression: None,
    };
    let options = ServeOptions {
        max_total_connections: Some(0),
        ..ServeOptions::default()
    };
    assert!(matches!(
        accept_loop(serve(endpoint, options).config),
        AcceptStart::Refused(ConnectionServeError::InvalidOptions {
            option: "max_total_connections",
            ..
        })
    ));
}

#[test]
fn connections_are_taken_until_the_stop() {
    let mut accept = running(ServeOptions::default());
    assert!(matches!(
        accept.on_event(AcceptEvent::HandshakeFailed, ALPN),
        AcceptAction::Accept
    ));
    let id = EndpointId::from_bytes([0u8; 32]);
    match accept.on_event(
        AcceptEvent::Connected {
            negotiated: ALPN.to_vec(),
            remote_id: id,
        },
        ALPN,
    ) {
        AcceptAction::Serve(identity) => {
            assert_eq!(identity.endpoint_id, id);
            assert_eq!(identity.legacy_node_id, "a".repeat(52));
        }
        other => panic!("expected to serve, got {other:?}"),
    }
    match accept.on_event(
        AcceptEvent::Connected {
            negotiated: b"http-duplex".to_vec(),
            remote_id: id,
        },
        ALPN,
    ) {
        AcceptAction::Reject(refusal) => assert!(matches!(
            refusal.error,
            ConnectionServeError::UnexpectedAlpn { actual } if actual == b"http-duplex"
        )),
        other => panic!("expected to reject, got {other:?}"),
    }
    assert!(matches!(
        accept.on_event(AcceptEvent::ShutdownRequested, ALPN),
        AcceptAction::Shutdown {
            endpoint_closed: false
        }
    ));
    assert!(matches!(
        accept.on_event(AcceptEvent::Drained(true), ALPN),
        AcceptAction::Done { drained: true }
    ));
}

#[test]
fn a_closed_endpoint_ends_the_loop() {
    let mut accept = running(ServeOptions::default());
    assert!(matches!(
        accept.on_event(AcceptEvent::EndpointClosed, ALPN),
        AcceptAction::Shutdown {
            endpoint_closed: true
        }
    ));
    assert!(matches!(
        accept.on_event(AcceptEvent::Drained(false), ALPN),
        AcceptAction::Done { drained: false }
    ));
}
