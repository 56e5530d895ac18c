//! The state that serving moves through, and the moves.

use vstd::prelude::*;

use crate::bindings;
use crate::lifecycle::AdmissionState;
use crate::options::ConnectionServeOptions;

verus! {

/// Why serving one already-negotiated connection ended.
#[derive(Clone, Copy, Debug, PartialEq, Eq, Structural)]
#[non_exhaustive]
pub enum ConnectionServeEnd {
    /// The peer closed the connection or no more streams came.
    PeerClosed,
    /// No request was in flight and the peer opened no new stream before the
    /// configured connection idle timeout.
    IdleTimeout,
    /// The owning runtime was shut down.
    Shutdown,
}

/// What a runtime shares with the endpoint that started it and with the handle
/// that may stop it.
#[derive(Clone, Copy, Debug, PartialEq, Eq, Structural)]
pub struct ServeShared {
    /// Requests in processing.
    pub requests: usize,
    /// Open connections.
    pub connections: usize,
    /// Connections are to be closed.
    pub close_flag: bool,
}

impl ServeShared {
    /// Nothing is open and nothing is to be closed.
    pub fn new() -> (shared: ServeShared)
        ensures
            shared == (ServeShared { requests: 0, connections: 0, close_flag: false }),
    {
        ServeShared { requests: 0, connections: 0, close_flag: false }
    }

    /// One connection more.
    pub open spec fn connect(self) -> ServeShared {
        ServeShared { connections: self.connections.wrapping_add(1), ..self }
    }

    /// One connection less.
    pub open spec fn disconnect(self) -> ServeShared {
        ServeShared { connections: self.connections.wrapping_sub(1), ..self }
    }

    /// One request more.
    pub open spec fn start_request(self) -> ServeShared {
        ServeShared { requests: self.requests.wrapping_add(1), ..self }
    }

    /// One request less.
    pub open spec fn end_request(self) -> ServeShared {
        ServeShared { requests: self.requests.wrapping_sub(1), ..self }
    }

    /// Connections are to be closed.
    pub open spec fn close(self) -> ServeShared {
        ServeShared { close_flag: true, ..self }
    }
}

/// What a [`crate::connection::ConnectionServeRuntime`] stands for.
pub struct RuntimeState {
    /// The options it was made with.
    pub options: ConnectionServeOptions,
    /// The layer that bounds simultaneous requests. It is one and the same for
    /// every connection: no move puts another in its place.
    pub layer: tower::limit::GlobalConcurrencyLimitLayer,
    /// Connection admission.
    pub admission: AdmissionState,
    /// Requests whose response is not yet delivered.
    pub deliveries: usize,
    /// No more streams are taken.
    pub stopped: bool,
    /// Deliveries reached zero in time.
    pub drained: bool,
    /// What shutdown returned, once it has.
    pub outcome: Option<bool>,
}

impl RuntimeState {
    /// The limits in force are those of valid options, and are kept, and only
    /// peers that hold a connection are listed.
    pub open spec fn valid(self) -> bool {
        &&& self.options.valid()
        &&& bindings::layer_permits(self.layer) == self.options.max_concurrency
        &&& self.admission.max_per_peer == self.options.max_connections_per_peer
        &&& self.admission.max_total == self.options.max_total_connections
        &&& self.admission.within_limits()
        &&& self.admission.tidy()
    }

    /// A runtime with that concurrency layer that has served nothing.
    pub open spec fn fresh(
        options: ConnectionServeOptions,
        layer: tower::limit::GlobalConcurrencyLimitLayer,
    ) -> RuntimeState {
        RuntimeState {
            options,
            layer,
            admission: AdmissionState {
                held: vstd::multiset::Multiset::empty(),
                listed: Set::empty(),
                max_per_peer: options.max_connections_per_peer,
                max_total: options.max_total_connections,
            },
            deliveries: 0,
            stopped: false,
            drained: false,
            outcome: None,
        }
    }

    /// `peer` holds one connection more.
    pub open spec fn connect(self, peer: Seq<u8>) -> RuntimeState {
        RuntimeState { admission: self.admission.with(peer), ..self }
    }

    /// `peer` holds one connection less.
    pub open spec fn disconnect(self, peer: Seq<u8>) -> RuntimeState {
        RuntimeState { admission: self.admission.without(peer), ..self }
    }

    /// One delivery more.
    pub open spec fn start_delivery(self) -> RuntimeState {
        RuntimeState { deliveries: self.deliveries.wrapping_add(1), ..self }
    }

    /// One delivery less.
    pub open spec fn end_delivery(self) -> RuntimeState {
        RuntimeState { deliveries: self.deliveries.wrapping_sub(1), ..self }
    }

    /// No more streams are taken.
    pub open spec fn stop(self) -> RuntimeState {
        RuntimeState { stopped: true, ..self }
    }

    /// The wait for deliveries is over.
    pub open spec fn settle_deliveries(self) -> RuntimeState {
        RuntimeState { drained: self.deliveries == 0, ..self }
    }

    /// Shutdown is over.
    pub open spec fn settle(self, outcome: bool) -> RuntimeState {
        RuntimeState { outcome: Some(outcome), ..self }
    }
}

/// What a [`crate::connection::ServedConnection`] stands for.
pub struct ServedState {
    /// Request tasks that were started and not yet joined.
    pub requests: nat,
    /// Why streams are no longer taken, unless the runtime is shut down.
    pub end: ConnectionServeEnd,
    /// Streams are still taken.
    pub accepting: bool,
}

impl ServedState {
    /// A connection on which nothing has happened.
    pub open spec fn fresh() -> ServedState {
        ServedState { requests: 0, end: ConnectionServeEnd::PeerClosed, accepting: true }
    }

    /// One request task more.
    pub open spec fn start_request(self) -> ServedState {
        ServedState { requests: self.requests + 1, ..self }
    }

    /// One request task less.
    pub open spec fn join_request(self) -> ServedState {
        ServedState { requests: (self.requests - 1) as nat, ..self }
    }

    /// No more streams are taken.
    pub open spec fn leave(self) -> ServedState {
        ServedState { accepting: false, ..self }
    }

    /// No more streams are taken, because none came in time.
    pub open spec fn leave_idle(self) -> ServedState {
        ServedState { accepting: false, end: ConnectionServeEnd::IdleTimeout, ..self }
    }
}

/// Which count a shutdown waits for.
#[derive(Clone, Copy, Debug, PartialEq, Eq, Structural)]
pub enum DrainStage {
    /// Undelivered responses.
    Deliveries,
    /// Open connections, after deliveries drained in time or did not.
    Connections {
        /// Deliveries drained in time.
        drained: bool,
    },
}

/// Each move of the shared counts changes one of them, by one, or the flag.
pub proof fn law_shared_moves_change_one_thing(s: ServeShared)
    ensures
        s.connect().connections == s.connections.wrapping_add(1),
        s.connect().requests == s.requests && s.connect().close_flag == s.close_flag,
        s.disconnect().connections == s.connections.wrapping_sub(1),
        s.disconnect().requests == s.requests && s.disconnect().close_flag == s.close_flag,
        s.start_request().requests == s.requests.wrapping_add(1),
        s.start_request().connections == s.connections && s.start_request().close_flag
            == s.close_flag,
        s.end_request().requests == s.requests.wrapping_sub(1),
        s.end_request().connections == s.connections && s.end_request().close_flag
            == s.close_flag,
        s.close().close_flag,
        s.close().requests == s.requests && s.close().connections == s.connections,
{
}

/// A runtime that is built from options is governed by those options and no
/// others: each is in force as it was given, and so are both connection bounds.
/// It holds nothing, has stopped nothing and has the layer it was given.
pub proof fn law_fresh_runtime_is_governed_by_its_options(
    options: ConnectionServeOptions,
    layer: tower::limit::GlobalConcurrencyLimitLayer,
)
    ensures
        ({
            let r = RuntimeState::fresh(options, layer);
            &&& r.options == options
            &&& r.layer == layer
            &&& r.admission.max_per_peer == options.max_connections_per_peer
            &&& r.admission.max_total == options.max_total_connections
            &&& forall|peer: Seq<u8>| #[trigger] r.admission.held.count(peer) == 0
            &&& forall|peer: Seq<u8>| !(#[trigger] r.admission.listed.contains(peer))
            &&& r.deliveries == 0
            &&& !r.stopped
            &&& !r.drained
            &&& r.outcome is None
        }),
{
}

/// Connections come and go without touching anything but what is held: not the
/// options or the layer, not deliveries, and not a shutdown.
pub proof fn law_connections_touch_only_admission(r: RuntimeState, peer: Seq<u8>)
    ensures
        r.connect(peer).admission == r.admission.with(peer),
        r.disconnect(peer).admission == r.admission.without(peer),
        forall|t: RuntimeState|
            t == r.connect(peer) || t == r.disconnect(peer) ==> {
                &&& (#[trigger] t.options) == r.options
                &&& t.layer == r.layer
                &&& t.deliveries == r.deliveries
                &&& t.stopped == r.stopped
                &&& t.drained == r.drained
                &&& t.outcome == r.outcome
            },
{
}

/// Deliveries start and end one at a time, a stop stops, and what a drain or a
/// shutdown settles is settled from what is true at that time. None of these
/// touches the options, the layer or the connections.
pub proof fn law_runtime_moves_change_one_thing(r: RuntimeState, outcome: bool)
    ensures
        r.start_delivery().deliveries == r.deliveries.wrapping_add(1),
        r.end_delivery().deliveries == r.deliveries.wrapping_sub(1),
        r.start_delivery() == (RuntimeState {
            deliveries: r.start_delivery().deliveries,
            ..r
        }),
        r.end_delivery() == (RuntimeState { deliveries: r.end_delivery().deliveries, ..r }),
        r.stop().stopped,
        r.stop() == (RuntimeState { stopped: true, ..r }),
        r.settle_deliveries().drained <==> r.deliveries == 0,
        r.settle_deliveries() == (RuntimeState { drained: r.settle_deliveries().drained, ..r }),
        r.settle(outcome).outcome == Some(outcome),
        r.settle(outcome) == (RuntimeState { outcome: Some(outcome), ..r }),
{
}

/// A connection starts with no task, taking streams. Tasks come and go one at a
/// time without ending it; leaving ends it for good, and names idleness only
/// where idleness was the cause.
pub proof fn law_served_moves_change_one_thing(c: ServedState)
    ensures
        ServedState::fresh().requests == 0,
        ServedState::fresh().accepting,
        ServedState::fresh().end == ConnectionServeEnd::PeerClosed,
        c.start_request().requests == c.requests + 1,
        c.start_request().accepting == c.accepting && c.start_request().end == c.end,
        c.requests > 0 ==> c.join_request().requests == c.requests - 1,
        c.join_request().accepting == c.accepting && c.join_request().end == c.end,
        !c.leave().accepting,
        c.leave().requests == c.requests && c.leave().end == c.end,
        !c.leave_idle().accepting,
        c.leave_idle().requests == c.requests,
        c.leave_idle().end == ConnectionServeEnd::IdleTimeout,
{
}

} // verus!
