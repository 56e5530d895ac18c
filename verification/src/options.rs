//! Serve options: what a caller may leave open, and what it is served with.

use vstd::prelude::*;

use crate::bindings;
use crate::bindings::semaphore_max_permits;
use crate::error::ConnectionServeError;
use crate::time::{Duration, NANOS_PER_SEC};

verus! {

/// Default of [`ServeOptions::max_concurrency`].
pub const DEFAULT_CONCURRENCY: usize = 1024;

/// Default of [`ServeOptions::request_head_timeout_ms`].
pub const DEFAULT_REQUEST_HEAD_TIMEOUT_MS: u64 = 15_000;

/// Default of [`ServeOptions::body_idle_timeout_ms`].
pub const DEFAULT_BODY_IDLE_TIMEOUT_MS: u64 = 30_000;

/// Default of [`ServeOptions::connection_idle_timeout_ms`].
pub const DEFAULT_CONNECTION_IDLE_TIMEOUT_MS: u64 = 60_000;

/// Default of [`ServeOptions::max_connections_per_peer`].
pub const DEFAULT_MAX_CONNECTIONS_PER_PEER: usize = 8;

/// Default of [`ServeOptions::max_total_connections`].
pub const DEFAULT_MAX_TOTAL_CONNECTIONS: usize = 1024;

/// Default of [`ServeOptions::drain_timeout_ms`].
pub const DEFAULT_DRAIN_TIMEOUT_MS: u64 = 30_000;

/// 16 MiB, for applications that want a bounded request body. The server does
/// not apply it on its own.
pub const DEFAULT_MAX_REQUEST_BODY_BYTES: usize = 16_777_216;

/// 256 MiB, applied to response bodies when no other bound is set.
pub const DEFAULT_MAX_RESPONSE_BODY_BYTES: usize = 268_435_456;

/// The request-head bound that a zero `max_header_size` selects: 64 KiB.
pub const DEFAULT_MAX_HEADER_SIZE: usize = 65_536;

/// The smallest receive buffer that Hyper can enforce.
pub const MIN_HEADER_SIZE: usize = 8192;

/// Response compression settings. They are handed on and not read here.
#[derive(Clone, Copy, Debug, PartialEq, Eq, Structural)]
pub struct CompressionOptions {
    /// Smallest response body worth compressing, in bytes.
    pub min_body_bytes: usize,
    /// Compression level, or the codec's own default.
    pub level: Option<u32>,
}

/// Options for the HTTP serve loop. What is `None` takes its default.
#[derive(Clone, Copy, Debug, PartialEq, Eq, Structural)]
pub struct ServeOptions {
    /// Maximum simultaneous in-flight requests. Default: 1024.
    pub max_concurrency: Option<usize>,
    /// Application execution timeout in milliseconds. Default: disabled. Zero
    /// also disables the timeout.
    pub request_timeout_ms: Option<u64>,
    /// Maximum time to receive a complete HTTP request head, in milliseconds.
    /// Default: 15 000. Zero disables the timeout.
    pub request_head_timeout_ms: Option<u64>,
    /// Maximum time a polled request body may make no progress, in
    /// milliseconds. Default: 30 000. Zero disables the timeout.
    pub body_idle_timeout_ms: Option<u64>,
    /// Maximum time an otherwise-idle connection may wait for its next request
    /// stream, in milliseconds. Default: 60 000.
    pub connection_idle_timeout_ms: Option<u64>,
    /// Maximum connections from a single peer. Default: 8.
    pub max_connections_per_peer: Option<usize>,
    /// Reject request bodies larger than this many wire (compressed) bytes.
    /// Default: unlimited.
    pub max_request_body_wire_bytes: Option<usize>,
    /// Reject request bodies larger than this many decoded bytes. Default:
    /// unlimited.
    pub max_request_body_decoded_bytes: Option<usize>,
    /// Graceful shutdown drain window in milliseconds. Default: 30 000.
    pub drain_timeout_ms: Option<u64>,
    /// Maximum total connections the server will accept. Default: 1024.
    pub max_total_connections: Option<usize>,
    /// Reject requests over `max_concurrency` rather than queue them. Default:
    /// true.
    pub load_shed: Option<bool>,
    /// Decompress request bodies before the handler sees them. Default: true.
    pub decompression: Option<bool>,
}

impl ServeOptions {
    /// Options that leave everything open.
    pub open spec fn unset() -> ServeOptions {
        ServeOptions {
            max_concurrency: None,
            request_timeout_ms: None,
            request_head_timeout_ms: None,
            body_idle_timeout_ms: None,
            connection_idle_timeout_ms: None,
            max_connections_per_peer: None,
            max_request_body_wire_bytes: None,
            max_request_body_decoded_bytes: None,
            drain_timeout_ms: None,
            max_total_connections: None,
            load_shed: None,
            decompression: None,
        }
    }
}

impl Default for ServeOptions {
    /// Options that leave everything open.
    fn default() -> (options: ServeOptions)
        ensures
            options == ServeOptions::unset(),
            options.max_concurrency is None,
            options.request_timeout_ms is None,
            options.request_head_timeout_ms is None,
            options.body_idle_timeout_ms is None,
            options.connection_idle_timeout_ms is None,
            options.max_connections_per_peer is None,
            options.max_request_body_wire_bytes is None,
            options.max_request_body_decoded_bytes is None,
            options.drain_timeout_ms is None,
            options.max_total_connections is None,
            options.load_shed is None,
            options.decompression is None,
    {
        ServeOptions {
            max_concurrency: None,
            request_timeout_ms: None,
            request_head_timeout_ms: None,
            body_idle_timeout_ms: None,
            connection_idle_timeout_ms: None,
            max_connections_per_peer: None,
            max_request_body_wire_bytes: None,
            max_request_body_decoded_bytes: None,
            drain_timeout_ms: None,
            max_total_connections: None,
            load_shed: None,
            decompression: None,
        }
    }
}

/// Options for HTTP requests served on already-negotiated connections.
///
/// One runtime shares these limits across every connection passed to it.
#[derive(Clone, Copy, Debug, PartialEq, Eq, Structural)]
#[non_exhaustive]
pub struct ConnectionServeOptions {
    /// Maximum simultaneous connections from one authenticated peer. Default: 8.
    pub max_connections_per_peer: usize,
    /// Maximum simultaneous connections across this runtime. Default: 1024.
    pub max_total_connections: usize,
    /// Maximum time an otherwise-idle connection may wait for its next request
    /// stream. Default: 60 seconds.
    pub connection_idle_timeout: Duration,
    /// Maximum simultaneous requests across this runtime. Default: 1024.
    pub max_concurrency: usize,
    /// Application execution timeout. `None` disables it. Default: `None`.
    pub request_timeout: Option<Duration>,
    /// Maximum time to receive a complete request head. `None` disables it.
    /// Default: 15 seconds.
    pub request_head_timeout: Option<Duration>,
    /// Maximum time a polled request body may make no progress. `None` disables
    /// it. Default: 30 seconds.
    pub body_idle_timeout: Option<Duration>,
    /// Maximum compressed request-body bytes. Default: unlimited.
    pub max_request_body_wire_bytes: Option<usize>,
    /// Maximum decoded request-body bytes. Default: unlimited.
    pub max_request_body_decoded_bytes: Option<usize>,
    /// Maximum graceful delivery drain. Default: 30 seconds.
    pub drain_timeout: Duration,
    /// Reject rather than queue requests when the concurrency limit is reached.
    /// Default: true.
    pub load_shed: bool,
    /// Maximum parsed request-head bytes. Zero selects the 64 KiB default.
    pub max_header_size: usize,
    /// Optional response compression.
    pub compression: Option<CompressionOptions>,
    /// Decompress request bodies. Default: true.
    pub decompression: bool,
}

impl Default for ConnectionServeOptions {
    /// The documented defaults.
    fn default() -> (options: ConnectionServeOptions)
        ensures
            options == ConnectionServeOptions::standard(),
            options.valid(),
            options.max_connections_per_peer == 8,
            options.max_total_connections == 1024,
            options.max_concurrency == 1024,
            options.connection_idle_timeout@ == 60 * NANOS_PER_SEC,
            options.drain_timeout@ == 30 * NANOS_PER_SEC,
            options.request_timeout is None,
            options.request_head_timeout matches Some(head) && head@ == 15 * NANOS_PER_SEC,
            options.body_idle_timeout matches Some(idle) && idle@ == 30 * NANOS_PER_SEC,
            options.max_request_body_wire_bytes is None,
            options.max_request_body_decoded_bytes is None,
            options.max_header_size == 64 * 1024,
            options.load_shed,
            options.compression is None,
            options.decompression,
    {
        ConnectionServeOptions {
            max_connections_per_peer: DEFAULT_MAX_CONNECTIONS_PER_PEER,
            max_total_connections: DEFAULT_MAX_TOTAL_CONNECTIONS,
            connection_idle_timeout: Duration::from_millis(DEFAULT_CONNECTION_IDLE_TIMEOUT_MS),
            max_concurrency: DEFAULT_CONCURRENCY,
            request_timeout: None,
            request_head_timeout: Some(Duration::from_millis(DEFAULT_REQUEST_HEAD_TIMEOUT_MS)),
            body_idle_timeout: Some(Duration::from_millis(DEFAULT_BODY_IDLE_TIMEOUT_MS)),
            max_request_body_wire_bytes: None,
            max_request_body_decoded_bytes: None,
            drain_timeout: Duration::from_millis(DEFAULT_DRAIN_TIMEOUT_MS),
            load_shed: true,
            max_header_size: DEFAULT_MAX_HEADER_SIZE,
            compression: None,
            decompression: true,
        }
    }
}

impl ConnectionServeOptions {
    /// The documented defaults.
    pub open spec fn standard() -> ConnectionServeOptions {
        ConnectionServeOptions {
            max_connections_per_peer: 8,
            max_total_connections: 1024,
            connection_idle_timeout: Duration::from_millis(60_000),
            max_concurrency: 1024,
            request_timeout: None,
            request_head_timeout: Some(Duration::from_millis(15_000)),
            body_idle_timeout: Some(Duration::from_millis(30_000)),
            max_request_body_wire_bytes: None,
            max_request_body_decoded_bytes: None,
            drain_timeout: Duration::from_millis(30_000),
            load_shed: true,
            max_header_size: 65_536,
            compression: None,
            decompression: true,
        }
    }

    /// Whether every option can be enforced.
    pub open spec fn valid(self) -> bool {
        &&& 1 <= self.max_connections_per_peer <= bindings::max_permits()
        &&& 1 <= self.max_total_connections <= bindings::max_permits()
        &&& self.connection_idle_timeout@ > 0
        &&& 1 <= self.max_concurrency <= bindings::max_permits()
        &&& self.max_header_size == 0 || self.max_header_size >= 8192
    }

    /// The name of the first option that cannot be enforced, and why.
    ///
    /// Connection bounds come first: that neither is zero, then that neither is
    /// too large. The idle timeout, the concurrency bound and the header bound
    /// follow.
    pub open spec fn first_fault(self) -> Option<(Seq<char>, Seq<char>)> {
        if self.max_connections_per_peer == 0 {
            Some(("max_connections_per_peer"@, "must be greater than zero"@))
        } else if self.max_total_connections == 0 {
            Some(("max_total_connections"@, "must be greater than zero"@))
        } else if self.max_connections_per_peer > bindings::max_permits() {
            Some(("max_connections_per_peer"@, "exceeds Tokio's supported admission limit"@))
        } else if self.max_total_connections > bindings::max_permits() {
            Some(("max_total_connections"@, "exceeds Tokio's supported admission limit"@))
        } else if self.connection_idle_timeout@ == 0 {
            Some(("connection_idle_timeout"@, "must be greater than zero"@))
        } else if self.max_concurrency == 0 {
            Some(("max_concurrency"@, "must be greater than zero"@))
        } else if self.max_concurrency > bindings::max_permits() {
            Some(("max_concurrency"@, "exceeds Tokio's semaphore permit limit"@))
        } else if self.max_header_size != 0 && self.max_header_size < 8192 {
            Some(("max_header_size"@, "must be zero or at least Hyper's 8192-byte floor"@))
        } else {
            None
        }
    }

    /// Refuse options that cannot be enforced safely, naming the first of them.
    pub fn validate(&self) -> (checked: Result<(), ConnectionServeError>)
        ensures
            checked is Ok <==> self.valid(),
            checked is Ok <==> self.first_fault() is None,
            checked is Ok <==> {
                &&& 0 < self.max_connections_per_peer <= bindings::max_permits()
                &&& 0 < self.max_total_connections <= bindings::max_permits()
                &&& 0 < self.max_concurrency <= bindings::max_permits()
                &&& self.connection_idle_timeout@ != 0
                &&& !(0 < self.max_header_size < 8192)
            },
            checked matches Err(error) ==> {
                &&& error matches ConnectionServeError::InvalidOptions { option, reason }
                &&& self.first_fault() == Some((option@, reason@))
            },
    {
        let limit: usize = semaphore_max_permits();
        if self.max_connections_per_peer == 0 {
            return Err(
                ConnectionServeError::InvalidOptions {
                    option: "max_connections_per_peer",
                    reason: "must be greater than zero",
                },
            );
        }
        if self.max_total_connections == 0 {
            return Err(
                ConnectionServeError::InvalidOptions {
                    option: "max_total_connections",
                    reason: "must be greater than zero",
                },
            );
        }
        if self.max_connections_per_peer > limit {
            return Err(
                ConnectionServeError::InvalidOptions {
                    option: "max_connections_per_peer",
                    reason: "exceeds Tokio's supported admission limit",
                },
            );
        }
        if self.max_total_connections > limit {
            return Err(
                ConnectionServeError::InvalidOptions {
                    option: "max_total_connections",
                    reason: "exceeds Tokio's supported admission limit",
                },
            );
        }
        if self.connection_idle_timeout.is_zero() {
            return Err(
                ConnectionServeError::InvalidOptions {
                    option: "connection_idle_timeout",
                    reason: "must be greater than zero",
                },
            );
        }
        if self.max_concurrency == 0 {
            return Err(
                ConnectionServeError::InvalidOptions {
                    option: "max_concurrency",
                    reason: "must be greater than zero",
                },
            );
        }
        if self.max_concurrency > limit {
            return Err(
                ConnectionServeError::InvalidOptions {
                    option: "max_concurrency",
                    reason: "exceeds Tokio's semaphore permit limit",
                },
            );
        }
        if self.max_header_size != 0 && self.max_header_size < MIN_HEADER_SIZE {
            return Err(
                ConnectionServeError::InvalidOptions {
                    option: "max_header_size",
                    reason: "must be zero or at least Hyper's 8192-byte floor",
                },
            );
        }
        Ok(())
    }
}

/// What the middleware around one connection's requests is built from.
#[derive(Clone, Copy, Debug, PartialEq, Eq, Structural)]
pub struct StackConfig {
    /// Application execution timeout.
    pub timeout: Option<Duration>,
    /// Longest wait for progress of a polled request body.
    pub body_idle_timeout: Option<Duration>,
    /// Bound on compressed request-body bytes.
    pub max_request_body_wire_bytes: Option<usize>,
    /// Bound on decoded request-body bytes.
    pub max_request_body_decoded_bytes: Option<usize>,
    /// Reject rather than queue requests over the concurrency bound.
    pub load_shed: bool,
    /// Response compression.
    pub compression: Option<CompressionOptions>,
    /// Decompress request bodies.
    pub decompression: bool,
}

/// How the request streams of a connection are served.
#[derive(Clone, Copy, Debug, PartialEq, Eq, Structural)]
pub struct RequestPlan {
    /// Middleware around every request.
    pub stack: StackConfig,
    /// Bound on parsed request-head bytes.
    pub header_limit: usize,
    /// Longest wait for a complete request head.
    pub head_timeout: Option<Duration>,
}

impl ConnectionServeOptions {
    /// How request streams are served under these options: with the options'
    /// own bounds, a zero header bound standing for 64 KiB.
    pub open spec fn plan(self) -> RequestPlan {
        RequestPlan {
            stack: StackConfig {
                timeout: self.request_timeout,
                body_idle_timeout: self.body_idle_timeout,
                max_request_body_wire_bytes: self.max_request_body_wire_bytes,
                max_request_body_decoded_bytes: self.max_request_body_decoded_bytes,
                load_shed: self.load_shed,
                compression: self.compression,
                decompression: self.decompression,
            },
            header_limit: if self.max_header_size == 0 {
                65_536
            } else {
                self.max_header_size
            },
            head_timeout: self.request_head_timeout,
        }
    }

    /// How request streams are served under these options.
    pub fn request_plan(&self) -> (plan: RequestPlan)
        ensures
            plan == self.plan(),
            plan.stack.timeout == self.request_timeout,
            plan.stack.body_idle_timeout == self.body_idle_timeout,
            plan.stack.max_request_body_wire_bytes == self.max_request_body_wire_bytes,
            plan.stack.max_request_body_decoded_bytes == self.max_request_body_decoded_bytes,
            plan.stack.load_shed == self.load_shed,
            plan.stack.compression == self.compression,
            plan.stack.decompression == self.decompression,
            plan.head_timeout == self.request_head_timeout,
            self.max_header_size > 0 ==> plan.header_limit == self.max_header_size,
            self.max_header_size == 0 ==> plan.header_limit == 65_536,
            self.valid() ==> plan.header_limit >= 8192,
    {
        RequestPlan {
            stack: StackConfig {
                timeout: self.request_timeout,
                body_idle_timeout: self.body_idle_timeout,
                max_request_body_wire_bytes: self.max_request_body_wire_bytes,
                max_request_body_decoded_bytes: self.max_request_body_decoded_bytes,
                load_shed: self.load_shed,
                compression: self.compression,
                decompression: self.decompression,
            },
            header_limit: if self.max_header_size == 0 {
                DEFAULT_MAX_HEADER_SIZE
            } else {
                self.max_header_size
            },
            head_timeout: self.request_head_timeout,
        }
    }
}

/// Every request limit of a plan is the option of the same name. So no option is
/// dropped and none stands in for another.
pub proof fn law_plan_is_the_options(options: ConnectionServeOptions)
    ensures
        options.plan().stack.timeout == options.request_timeout,
        options.plan().stack.body_idle_timeout == options.body_idle_timeout,
        options.plan().stack.max_request_body_wire_bytes == options.max_request_body_wire_bytes,
        options.plan().stack.max_request_body_decoded_bytes
            == options.max_request_body_decoded_bytes,
        options.plan().stack.load_shed == options.load_shed,
        options.plan().stack.compression == options.compression,
        options.plan().stack.decompression == options.decompression,
        options.plan().head_timeout == options.request_head_timeout,
        options.max_header_size > 0 ==> options.plan().header_limit == options.max_header_size,
        options.max_header_size == 0 ==> options.plan().header_limit == 65_536,
{
}

/// Two sets of options serve requests alike exactly where they agree in every
/// request option, a zero header bound agreeing with 64 KiB. Options that bound
/// connections or the drain make no difference to a request.
pub proof fn law_plans_differ_with_the_options(
    a: ConnectionServeOptions,
    b: ConnectionServeOptions,
)
    ensures
        a.plan() == b.plan() <==> {
            &&& a.request_timeout == b.request_timeout
            &&& a.request_head_timeout == b.request_head_timeout
            &&& a.body_idle_timeout == b.body_idle_timeout
            &&& a.max_request_body_wire_bytes == b.max_request_body_wire_bytes
            &&& a.max_request_body_decoded_bytes == b.max_request_body_decoded_bytes
            &&& a.load_shed == b.load_shed
            &&& a.compression == b.compression
            &&& a.decompression == b.decompression
            &&& a.max_header_size == b.max_header_size || {
                &&& a.max_header_size == 0 || a.max_header_size == 65_536
                &&& b.max_header_size == 0 || b.max_header_size == 65_536
            }
        },
{
}

/// Options are refused exactly where some bound is zero or too large, the idle
/// timeout is zero or the header bound is too small to enforce.
pub proof fn law_options_are_refused_for_a_reason(options: ConnectionServeOptions)
    ensures
        options.first_fault() is None <==> options.valid(),
        !options.valid() <==> {
            ||| options.max_connections_per_peer == 0
            ||| options.max_connections_per_peer > bindings::max_permits()
            ||| options.max_total_connections == 0
            ||| options.max_total_connections > bindings::max_permits()
            ||| options.max_concurrency == 0
            ||| options.max_concurrency > bindings::max_permits()
            ||| options.connection_idle_timeout@ == 0
            ||| 0 < options.max_header_size < 8192
        },
{
}

/// The option that a refusal names is one that is out of range, and the reason
/// is what is wrong with it. So an option that is wrong by itself is the one
/// that is named. Of several, connection bounds come before the idle timeout,
/// then the concurrency bound, then the header bound.
pub proof fn law_refusal_names_a_bad_option(options: ConnectionServeOptions)
    ensures
        options.first_fault() matches Some((option, reason)) ==> {
            let bounded = 1 <= options.max_connections_per_peer <= bindings::max_permits() && 1
                <= options.max_total_connections <= bindings::max_permits();
            ||| option == "max_connections_per_peer"@ && {
                ||| options.max_connections_per_peer == 0 && reason == "must be greater than zero"@
                ||| options.max_total_connections > 0 && options.max_connections_per_peer
                    > bindings::max_permits() && reason
                    == "exceeds Tokio's supported admission limit"@
            }
            ||| option == "max_total_connections"@ && options.max_connections_per_peer > 0 && {
                ||| options.max_total_connections == 0 && reason == "must be greater than zero"@
                ||| options.max_connections_per_peer <= bindings::max_permits()
                    && options.max_total_connections > bindings::max_permits() && reason
                    == "exceeds Tokio's supported admission limit"@
            }
            ||| option == "connection_idle_timeout"@ && bounded && options.connection_idle_timeout@
                == 0 && reason == "must be greater than zero"@
            ||| option == "max_concurrency"@ && bounded && options.connection_idle_timeout@ > 0 && {
                ||| options.max_concurrency == 0 && reason == "must be greater than zero"@
                ||| options.max_concurrency > bindings::max_permits() && reason
                    == "exceeds Tokio's semaphore permit limit"@
            }
            ||| option == "max_header_size"@ && bounded && options.connection_idle_timeout@ > 0
                && 1 <= options.max_concurrency <= bindings::max_permits() && 0
                < options.max_header_size < 8192 && reason
                == "must be zero or at least Hyper's 8192-byte floor"@
        },
{
}

} // verus!
