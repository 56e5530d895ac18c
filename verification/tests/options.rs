use iroh_http_server::error::ConnectionServeError;
use iroh_http_server::options::{
    CompressionOptions, ConnectionServeOptions, ServeOptions, DEFAULT_MAX_REQUEST_BODY_BYTES,
    DEFAULT_MAX_RESPONSE_BODY_BYTES,
};
use iroh_http_server::server::{serve, serve_with_events, EndpointSettings};
use iroh_http_server::time::Duration;

fn rejected(options: ConnectionServeOptions) -> (&'static str, &'static str) {
    match options.validate() {
        Err(ConnectionServeError::InvalidOptions { option, reason }) => (option, reason),
        other => panic!("expected a rejected option, got {:?}", other),
    }
}

#[test]
fn options_reject_zero_concurrency_without_panicking() {
    let mut options = ConnectionServeOptions::default();
    options.max_concurrency = 0;
    let error = options
        .validate()
        .expect_err("zero concurrency must be rejected before tower construction");
    assert!(matches!(
        error,
        ConnectionServeError::InvalidOptions {
            option: "max_concurrency",
            ..
        }
    ));
}

#[test]
fn options_reject_unbounded_connection_configuration() {
    let mut per_peer = ConnectionServeOptions::default();
    per_peer.max_connections_per_peer = 0;
    let mut total = ConnectionServeOptions::default();
    total.max_total_connections = 0;
    let mut idle = ConnectionServeOptions::default();
    idle.connection_idle_timeout = Duration::from_secs(0);
    for (option, options) in [
        ("max_connections_per_peer", per_peer),
        ("max_total_connections", total),
        ("connection_idle_timeout", idle),
    ] {
        let error = options
            .validate()
            .expect_err("unsafe connection option must be rejected");
        assert!(matches!(
            error,
            ConnectionServeError::InvalidOptions {
                option: rejected,
                ..
            } if rejected == option
        ));
    }
}

#[test]
fn options_reject_admission_counts_above_tokio_limit_without_panicking() {
    let mut per_peer = ConnectionServeOptions::default();
    per_peer.max_connections_per_peer = usize::MAX;
    let mut total = ConnectionServeOptions::default();
    total.max_total_connections = usize::MAX;
    let mut concurrency = ConnectionServeOptions::default();
    concurrency.max_concurrency = usize::MAX;
    for (option, options) in [
        ("max_connections_per_peer", per_peer),
        ("max_total_connections", total),
        ("max_concurrency", concurrency),
    ] {
        let error = options
            .validate()
            .expect_err("oversized admission count must be rejected");
        assert!(matches!(
            error,
            ConnectionServeError::InvalidOptions {
                option: rejected,
                ..
            } if rejected == option
        ));
    }
}

#[test]
fn options_reject_header_limits_below_hyper_floor() {
    let mut options = ConnectionServeOptions::default();
    options.max_header_size = 8191;
    let error = options
        .validate()
        .expect_err("misleading sub-Hyper header limit must be rejected");
    assert!(matches!(
        error,
        ConnectionServeError::InvalidOptions {
            option: "max_header_size",
            ..
        }
    ));
    options.max_header_size = 0;
    assert!(options.validate().is_ok());
    options.max_header_size = 8192;
    assert!(options.validate().is_ok());
}

#[test]
fn admission_counts_are_bounded_by_the_semaphore_exactly() {
    let limit = tokio::sync::Semaphore::MAX_PERMITS;
    let mut options = ConnectionServeOptions::default();
    options.max_concurrency = limit;
    options.max_connections_per_peer = limit;
    options.max_total_connections = limit;
    assert!(options.validate().is_ok());
    options.max_concurrency = limit + 1;
    assert_eq!(
        rejected(options),
        ("max_concurrency", "exceeds Tokio's semaphore permit limit")
    );
    options.max_total_connections = limit + 1;
    assert_eq!(
        rejected(options),
        (
            "max_total_connections",
            "exceeds Tokio's supported admission limit"
        )
    );
}

#[test]
fn the_first_fault_is_reported() {
    let mut options = ConnectionServeOptions::default();
    options.max_header_size = 1;
    options.max_concurrency = 0;
    options.connection_idle_timeout = Duration::from_millis(0);
    assert_eq!(
        rejected(options),
        ("connection_idle_timeout", "must be greater than zero")
    );
    options.max_connections_per_peer = usize::MAX;
    options.max_total_connections = 0;
    assert_eq!(
        rejected(options),
        ("max_total_connections", "must be greater than zero")
    );
}

#[test]
fn options_are_accepted_exactly_in_range() {
    let limit = tokio::sync::Semaphore::MAX_PERMITS;
    for concurrency in [0, 1, 1024, limit, limit + 1, usize::MAX] {
        for header in [0, 1, 8191, 8192, 65_536, usize::MAX] {
            for drain in [0, 1, 30_000, u64::MAX] {
                let mut options = ConnectionServeOptions::default();
                options.max_concurrency = concurrency;
                options.max_header_size = header;
                options.drain_timeout = Duration::from_millis(drain);
                let built = iroh_http_server::connection::ConnectionServeRuntime::new(options);
                assert_eq!(
                    built.is_ok(),
                    (1..=limit).contains(&concurrency) && (header == 0 || header >= 8192)
                );
            }
        }
    }
}

#[test]
fn per_peer_connection_limit_config() {
    let opts = ServeOptions {
        max_connections_per_peer: Some(2),
        request_timeout_ms: Some(30_000),
        max_request_body_wire_bytes: Some(1024 * 1024),
        ..Default::default()
    };
    assert_eq!(opts.max_connections_per_peer, Some(2));
    assert_eq!(opts.request_timeout_ms, Some(30_000));
    assert_eq!(opts.max_request_body_wire_bytes, Some(1024 * 1024));
}

#[test]
fn documented_defaults() {
    let options = ConnectionServeOptions::default();
    assert_eq!(options.max_connections_per_peer, 8);
    assert_eq!(options.max_total_connections, 1024);
    assert_eq!(options.connection_idle_timeout, Duration::from_secs(60));
    assert_eq!(options.max_concurrency, 1024);
    assert_eq!(options.request_timeout, None);
    assert_eq!(options.request_head_timeout, Some(Duration::from_secs(15)));
    assert_eq!(options.body_idle_timeout, Some(Duration::from_secs(30)));
    assert_eq!(options.max_request_body_wire_bytes, None);
    assert_eq!(options.max_request_body_decoded_bytes, None);
    assert_eq!(options.drain_timeout, Duration::from_secs(30));
    assert!(options.load_shed);
    assert_eq!(options.max_header_size, 64 * 1024);
    assert_eq!(options.compression, None);
    assert!(options.decompression);
    assert_eq!(DEFAULT_MAX_REQUEST_BODY_BYTES, 16 * 1024 * 1024);
    assert_eq!(DEFAULT_MAX_RESPONSE_BODY_BYTES, 256 * 1024 * 1024);
}

#[test]
fn unset_serve_options_come_to_the_connection_defaults() {
    let cycle = serve(
        EndpointSettings {
            max_header_size: 64 * 1024,
            compression: None,
        },
        ServeOptions::default(),
    );
    assert_eq!(cycle.config.connection, ConnectionServeOptions::default());
    assert_eq!(cycle.drain_timeout, Duration::from_millis(30_000));
    assert!(!cycle.report_events);
}

#[test]
fn set_serve_options_are_taken_over() {
    let compression = Some(CompressionOptions {
        min_body_bytes: 512,
        level: Some(3),
    });
    let cycle = serve_with_events(
        EndpointSettings {
            max_header_size: 100_000,
            compression,
        },
        ServeOptions {
            max_concurrency: Some(2),
            request_timeout_ms: Some(5),
            request_head_timeout_ms: Some(6),
            body_idle_timeout_ms: Some(7),
            connection_idle_timeout_ms: Some(8),
            max_connections_per_peer: Some(9),
            max_request_body_wire_bytes: Some(10),
            max_request_body_decoded_bytes: Some(11),
            drain_timeout_ms: Some(12),
            max_total_connections: Some(13),
            load_shed: Some(false),
            decompression: Some(false),
        },
        true,
    );
    let options = cycle.config.connection;
    assert_eq!(options.max_concurrency, 2);
    assert_eq!(options.request_timeout, Some(Duration::from_millis(5)));
    assert_eq!(options.request_head_timeout, Some(Duration::from_millis(6)));
    assert_eq!(options.body_idle_timeout, Some(Duration::from_millis(7)));
    assert_eq!(options.connection_idle_timeout, Duration::from_millis(8));
    assert_eq!(options.max_connections_per_peer, 9);
    assert_eq!(options.max_request_body_wire_bytes, Some(10));
    assert_eq!(options.max_request_body_decoded_bytes, Some(11));
    assert_eq!(options.drain_timeout, Duration::from_millis(12));
    assert_eq!(options.max_total_connections, 13);
    assert!(!options.load_shed);
    assert!(!options.decompression);
    assert_eq!(options.max_header_size, 100_000);
    assert_eq!(options.compression, compression);
    assert!(cycle.report_events);
}

#[test]
fn zero_disables_a_timeout() {
    let endpoint = EndpointSettings {
        max_header_size: 256,
        compression: None,
    };
    let options = serve(
        endpoint,
        ServeOptions {
            request_timeout_ms: Some(0),
            request_head_timeout_ms: Some(0),
            body_idle_timeout_ms: Some(0),
            ..ServeOptions::default()
        },
    )
    .config
    .connection;
    assert_eq!(options.request_timeout, None);
    assert_eq!(options.request_head_timeout, None);
    assert_eq!(options.body_idle_timeout, None);
    assert!(options.validate().is_ok());
    // A small endpoint bound is raised to what can be enforced.
    assert_eq!(options.max_header_size, 8192);
}

#[test]
fn a_zero_connection_idle_timeout_is_refused_at_start() {
    let cycle = serve(
        EndpointSettings {
            max_header_size: 8192,
            compression: None,
        },
        ServeOptions {
            connection_idle_timeout_ms: Some(0),
            ..ServeOptions::default()
        },
    );
    assert_eq!(
        rejected(cycle.config.connection),
        ("connection_idle_timeout", "must be greater than zero")
    );
}

#[test]
fn request_plan_follows_the_options() {
    let mut options = ConnectionServeOptions::default();
    options.max_header_size = 0;
    options.request_timeout = Some(Duration::from_millis(9));
    options.request_head_timeout = Some(Duration::from_millis(4));
    options.load_shed = false;
    let plan = options.request_plan();
    assert_eq!(plan.header_limit, 64 * 1024);
    assert_eq!(plan.head_timeout, Some(Duration::from_millis(4)));
    assert_eq!(plan.stack.timeout, Some(Duration::from_millis(9)));
    assert_eq!(
        plan.stack.body_idle_timeout,
        Some(Duration::from_millis(30_000))
    );
    assert!(!plan.stack.load_shed);
    options.max_header_size = 8192;
    assert_eq!(options.request_plan().header_limit, 8192);
}

#[test]
fn error_messages() {
    assert_eq!(
        ConnectionServeError::InvalidOptions {
            option: "max_header_size",
            reason: "must be zero or at least Hyper's 8192-byte floor",
        }
        .message(),
        "invalid connection serve option max_header_size: must be zero or at least Hyper's 8192-byte floor"
    );
    assert_eq!(
        ConnectionServeError::UnexpectedAlpn {
            actual: vec![104, 51, 0, 255]
        }
        .message(),
        format!(
            "connection negotiated an unexpected ALPN: {:?}",
            vec![104u8, 51, 0, 255]
        )
    );
    assert_eq!(
        ConnectionServeError::UnexpectedAlpn { actual: vec![] }.message(),
        "connection negotiated an unexpected ALPN: []"
    );
    assert_eq!(
        ConnectionServeError::TotalConnectionLimitReached { maximum: 1024 }.message(),
        "total connection limit reached (1024)"
    );
    assert_eq!(
        ConnectionServeError::PeerConnectionLimitReached { maximum: 0 }.message(),
        "per-peer connection limit reached (0)"
    );
    assert_eq!(
        ConnectionServeError::TotalConnectionLimitReached {
            maximum: usize::MAX
        }
        .message(),
        format!("total connection limit reached ({})", usize::MAX)
    );
}
