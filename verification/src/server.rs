//! Serve cycles of a whole endpoint: what a caller's options come to.

use vstd::prelude::*;

use crate::accept::AcceptConfig;
use crate::bindings;
use crate::options::{
    CompressionOptions, ConnectionServeOptions, ServeOptions, DEFAULT_BODY_IDLE_TIMEOUT_MS,
    DEFAULT_CONCURRENCY, DEFAULT_CONNECTION_IDLE_TIMEOUT_MS, DEFAULT_DRAIN_TIMEOUT_MS,
    DEFAULT_MAX_CONNECTIONS_PER_PEER, DEFAULT_MAX_TOTAL_CONNECTIONS,
    DEFAULT_REQUEST_HEAD_TIMEOUT_MS, MIN_HEADER_SIZE,
};
use crate::time::Duration;

verus! {

/// What serving takes from the endpoint itself.
#[derive(Clone, Copy, Debug, PartialEq, Eq, Structural)]
pub struct EndpointSettings {
    /// The endpoint's bound on request-head bytes.
    pub max_header_size: usize,
    /// The endpoint's response compression.
    pub compression: Option<CompressionOptions>,
}

/// One cycle of serving an endpoint, ready to start.
#[derive(Clone, Copy, Debug)]
pub struct ServeCycle {
    /// What the accept loop starts with.
    pub config: AcceptConfig,
    /// How long stopping the cycle may take to drain.
    pub drain_timeout: Duration,
    /// Whether connection events are reported.
    pub report_events: bool,
}

/// A timeout that zero disables and that is `default` where it is left open.
pub open spec fn timeout_of(setting: Option<u64>, default: Option<u64>) -> Option<Duration> {
    match setting {
        Some(0) => None,
        Some(millis) => Some(Duration::from_millis(millis)),
        None => match default {
            Some(millis) => Some(Duration::from_millis(millis)),
            None => None,
        },
    }
}

fn resolve_timeout(setting: Option<u64>, default: Option<u64>) -> (timeout: Option<Duration>)
    ensures
        timeout == timeout_of(setting, default),
{
    match setting {
        Some(0) => None,
        Some(millis) => Some(Duration::from_millis(millis)),
        None => match default {
            Some(millis) => Some(Duration::from_millis(millis)),
            None => None,
        },
    }
}

/// What `options` come to on that endpoint: each is what was set, or else its
/// documented default. The header bound is the endpoint's, raised to what can
/// be enforced.
pub open spec fn resolved(options: ServeOptions, endpoint: EndpointSettings) -> ConnectionServeOptions {
    ConnectionServeOptions {
        max_connections_per_peer: options.max_connections_per_peer.unwrap_or(8),
        max_total_connections: options.max_total_connections.unwrap_or(1024),
        connection_idle_timeout: Duration::from_millis(
            options.connection_idle_timeout_ms.unwrap_or(60_000),
        ),
        max_concurrency: options.max_concurrency.unwrap_or(1024),
        request_timeout: timeout_of(options.request_timeout_ms, None),
        request_head_timeout: timeout_of(options.request_head_timeout_ms, Some(15_000)),
        body_idle_timeout: timeout_of(options.body_idle_timeout_ms, Some(30_000)),
        max_request_body_wire_bytes: options.max_request_body_wire_bytes,
        max_request_body_decoded_bytes: options.max_request_body_decoded_bytes,
        drain_timeout: Duration::from_millis(options.drain_timeout_ms.unwrap_or(30_000)),
        load_shed: options.load_shed.unwrap_or(true),
        max_header_size: if endpoint.max_header_size < 8192 {
            8192
        } else {
            endpoint.max_header_size
        },
        compression: endpoint.compression,
        decompression: options.decompression.unwrap_or(true),
    }
}

/// The serve cycle of `options` on that endpoint.
pub open spec fn cycle_of(
    endpoint: EndpointSettings,
    options: ServeOptions,
    report_events: bool,
) -> ServeCycle {
    ServeCycle {
        config: AcceptConfig { connection: resolved(options, endpoint) },
        drain_timeout: resolved(options, endpoint).drain_timeout,
        report_events,
    }
}

/// Prepare a serve cycle that reports no connection events.
pub fn serve(endpoint: EndpointSettings, options: ServeOptions) -> (cycle: ServeCycle)
    ensures
        cycle == cycle_of(endpoint, options, false),
{
    serve_with_events(endpoint, options, false)
}

/// Prepare a serve cycle. With `report_events`, a peer's first connection and
/// the end of its last are reported.
pub fn serve_with_events(
    endpoint: EndpointSettings,
    options: ServeOptions,
    report_events: bool,
) -> (cycle: ServeCycle)
    ensures
        cycle == cycle_of(endpoint, options, report_events),
{
    let connection = ConnectionServeOptions {
        max_connections_per_peer: options.max_connections_per_peer.unwrap_or(
            DEFAULT_MAX_CONNECTIONS_PER_PEER,
        ),
        max_total_connections: options.max_total_connections.unwrap_or(
            DEFAULT_MAX_TOTAL_CONNECTIONS,
        ),
        connection_idle_timeout: Duration::from_millis(
            options.connection_idle_timeout_ms.unwrap_or(DEFAULT_CONNECTION_IDLE_TIMEOUT_MS),
        ),
        max_concurrency: options.max_concurrency.unwrap_or(DEFAULT_CONCURRENCY),
        request_timeout: resolve_timeout(options.request_timeout_ms, None),
        request_head_timeout: resolve_timeout(
            options.request_head_timeout_ms,
            Some(DEFAULT_REQUEST_HEAD_TIMEOUT_MS),
        ),
        body_idle_timeout: resolve_timeout(
            options.body_idle_timeout_ms,
            Some(DEFAULT_BODY_IDLE_TIMEOUT_MS),
        ),
        max_request_body_wire_bytes: options.max_request_body_wire_bytes,
        max_request_body_decoded_bytes: options.max_request_body_decoded_bytes,
        drain_timeout: Duration::from_millis(
            options.drain_timeout_ms.unwrap_or(DEFAULT_DRAIN_TIMEOUT_MS),
        ),
        load_shed: options.load_shed.unwrap_or(true),
        max_header_size: if endpoint.max_header_size < MIN_HEADER_SIZE {
            MIN_HEADER_SIZE
        } else {
            endpoint.max_header_size
        },
        compression: endpoint.compression,
        decompression: options.decompression.unwrap_or(true),
    };
    ServeCycle {
        drain_timeout: connection.drain_timeout,
        config: AcceptConfig { connection },
        report_events,
    }
}

/// A serve cycle can start exactly where the connection bounds, the concurrency
/// bound and the connection idle timeout that were set are in range. Nothing
/// else that can be set, and no endpoint, makes it fail.
pub proof fn law_cycle_starts(options: ServeOptions, endpoint: EndpointSettings)
    ensures
        resolved(options, endpoint).valid() <==> {
            &&& options.max_connections_per_peer matches Some(n) ==> 1 <= n
                <= bindings::max_permits()
            &&& options.max_total_connections matches Some(n) ==> 1 <= n <= bindings::max_permits()
            &&& options.max_concurrency matches Some(n) ==> 1 <= n <= bindings::max_permits()
            &&& options.connection_idle_timeout_ms != Some(0u64)
        },
{
    Duration::lemma_from_millis(options.connection_idle_timeout_ms.unwrap_or(60_000));
}

/// Setting a timeout to zero disables it, and a timeout that is not disabled is
/// never zero.
pub proof fn law_zero_disables_timeouts(options: ServeOptions, endpoint: EndpointSettings)
    ensures
        options.request_timeout_ms == Some(0u64) || options.request_timeout_ms is None <==> resolved(
            options,
            endpoint,
        ).request_timeout is None,
        options.request_head_timeout_ms == Some(0u64) <==> resolved(
            options,
            endpoint,
        ).request_head_timeout is None,
        options.body_idle_timeout_ms == Some(0u64) <==> resolved(
            options,
            endpoint,
        ).body_idle_timeout is None,
        resolved(options, endpoint).request_timeout matches Some(span) ==> span@ > 0,
        resolved(options, endpoint).request_head_timeout matches Some(span) ==> span@ > 0,
        resolved(options, endpoint).body_idle_timeout matches Some(span) ==> span@ > 0,
{
    Duration::lemma_from_millis(options.request_timeout_ms.unwrap_or(1));
    Duration::lemma_from_millis(options.request_head_timeout_ms.unwrap_or(15_000));
    Duration::lemma_from_millis(options.body_idle_timeout_ms.unwrap_or(30_000));
}

/// Both ways to serve have the same defaults: options that leave everything
/// open come to the defaults of a connection, on an endpoint with the default
/// header bound and no compression.
pub proof fn law_defaults_agree()
    ensures
        resolved(
            ServeOptions::unset(),
            EndpointSettings { max_header_size: 65_536, compression: None },
        ) == ConnectionServeOptions::standard(),
{
}

/// What was set is taken over as it is, and only what was left open takes its
/// documented default: on every field of the cycle, for every endpoint. Timeouts
/// are set in milliseconds.
pub proof fn law_set_options_are_taken_over(
    endpoint: EndpointSettings,
    options: ServeOptions,
    report_events: bool,
)
    ensures
        ({
            let cycle = cycle_of(endpoint, options, report_events);
            let served = cycle.config.connection;
            &&& cycle.report_events == report_events
            &&& cycle.drain_timeout == served.drain_timeout
            &&& match options.load_shed {
                Some(set) => served.load_shed == set,
                None => served.load_shed,
            }
            &&& match options.decompression {
                Some(set) => served.decompression == set,
                None => served.decompression,
            }
            &&& match options.max_concurrency {
                Some(set) => served.max_concurrency == set,
                None => served.max_concurrency == 1024,
            }
            &&& match options.max_connections_per_peer {
                Some(set) => served.max_connections_per_peer == set,
                None => served.max_connections_per_peer == 8,
            }
            &&& match options.max_total_connections {
                Some(set) => served.max_total_connections == set,
                None => served.max_total_connections == 1024,
            }
            &&& match options.drain_timeout_ms {
                Some(set) => served.drain_timeout@ == set * 1_000_000,
                None => served.drain_timeout@ == 30_000_000_000,
            }
            &&& match options.connection_idle_timeout_ms {
                Some(set) => served.connection_idle_timeout@ == set * 1_000_000,
                None => served.connection_idle_timeout@ == 60_000_000_000,
            }
            &&& served.max_request_body_wire_bytes == options.max_request_body_wire_bytes
            &&& served.max_request_body_decoded_bytes == options.max_request_body_decoded_bytes
            &&& served.compression == endpoint.compression
        }),
{
    Duration::lemma_from_millis(options.drain_timeout_ms.unwrap_or(30_000));
    Duration::lemma_from_millis(options.connection_idle_timeout_ms.unwrap_or(60_000));
}

/// The three timeouts that zero disables are otherwise as long as was set, or as
/// documented: none for a request, 15 s for its head, 30 s for progress of its
/// body.
pub proof fn law_set_timeouts_are_taken_over(
    endpoint: EndpointSettings,
    options: ServeOptions,
    report_events: bool,
)
    ensures
        ({
            let served = cycle_of(endpoint, options, report_events).config.connection;
            &&& match options.request_timeout_ms {
                Some(set) if set > 0 => served.request_timeout matches Some(span) && span@ == set
                    * 1_000_000,
                _ => served.request_timeout is None,
            }
            &&& match options.request_head_timeout_ms {
                Some(set) if set > 0 => served.request_head_timeout matches Some(span) && span@
                    == set * 1_000_000,
                Some(_) => served.request_head_timeout is None,
                None => served.request_head_timeout matches Some(span) && span@ == 15_000_000_000,
            }
            &&& match options.body_idle_timeout_ms {
                Some(set) if set > 0 => served.body_idle_timeout matches Some(span) && span@ == set
                    * 1_000_000,
                Some(_) => served.body_idle_timeout is None,
                None => served.body_idle_timeout matches Some(span) && span@ == 30_000_000_000,
            }
        }),
{
    Duration::lemma_from_millis(options.request_timeout_ms.unwrap_or(0));
    Duration::lemma_from_millis(options.request_head_timeout_ms.unwrap_or(15_000));
    Duration::lemma_from_millis(options.body_idle_timeout_ms.unwrap_or(30_000));
}

/// The header bound of a cycle is the endpoint's own wherever that can be
/// enforced, and never below what can.
pub proof fn law_header_bound_is_the_endpoints(
    endpoint: EndpointSettings,
    options: ServeOptions,
    report_events: bool,
)
    ensures
        ({
            let bound = cycle_of(endpoint, options, report_events).config.connection.max_header_size;
            &&& bound >= 8192
            &&& bound >= endpoint.max_header_size
            &&& bound == endpoint.max_header_size || bound == 8192
        }),
{
}

} // verus!
