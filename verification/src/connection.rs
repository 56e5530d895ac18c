//! HTTP serving for already-negotiated connections.
//!
//! [`ConnectionServeRuntime`] holds what connections share: connection
//! admission, request concurrency, delivery tracking and shutdown.
//! [`ServedConnection`] is the part of one connection. The caller performs what
//! the steps ask for and reports what happened.

use vstd::prelude::*;

use crate::barrier::StreamAdmissionBarrier;
use crate::bindings;
use crate::bindings::concurrency_layer;
use crate::drain;
use crate::drain::{drain_deadline_at, drain_start, wait_for_zero_at, ZeroWait};
use crate::error::ConnectionServeError;
use crate::identity;
use crate::identity::{
    validate_http_connection, Close, EndpointId, Refusal, RemoteEndpointId, RemoteNodeId,
    ValidatedRemoteIdentity,
};
use crate::lifecycle;
use crate::lifecycle::{
    ConnectionAdmission, ConnectionAdmissionError, ConnectionEvent, ConnectionTracker,
    DeliveryTracker, RequestTracker,
};
use crate::options::{ConnectionServeOptions, RequestPlan};
use crate::state::{ConnectionServeEnd, DrainStage, RuntimeState, ServeShared, ServedState};
use crate::time::{Clock, Duration, Moment, LAST_MOMENT, LAST_READING};

verus! {

/// Completion details for one already-negotiated connection.
#[derive(Clone, Copy, Debug, PartialEq, Eq, Structural)]
pub struct ConnectionServeResult {
    /// Terminal condition observed by this connection.
    pub end: ConnectionServeEnd,
    /// Whether response delivery completed inside the configured drain budget.
    pub drained: bool,
}

/// Reusable owner for serving HTTP on connections accepted elsewhere.
pub struct ConnectionServeRuntime {
    options: ConnectionServeOptions,
    concurrency: tower::limit::GlobalConcurrencyLimitLayer,
    admission: ConnectionAdmission,
    deliveries: usize,
    stream_admission: StreamAdmissionBarrier,
    drained: bool,
    shutdown: Option<bool>,
}

impl View for ConnectionServeRuntime {
    type V = RuntimeState;

    closed spec fn view(&self) -> RuntimeState {
        RuntimeState {
            options: self.options,
            layer: self.concurrency,
            admission: self.admission@,
            deliveries: self.deliveries,
            stopped: self.stream_admission@,
            drained: self.drained,
            outcome: self.shutdown,
        }
    }
}

/// One admitted connection between its admission and its result.
#[derive(Debug)]
pub struct ServedConnection {
    requests: usize,
    end: ConnectionServeEnd,
    accepting: bool,
}

impl View for ServedConnection {
    type V = ServedState;

    closed spec fn view(&self) -> ServedState {
        ServedState { requests: self.requests as nat, end: self.end, accepting: self.accepting }
    }
}

/// A connection that may be served, with all that serving it needs.
pub struct Admitted {
    /// Its slot, to be given back when serving ends.
    pub tracker: ConnectionTracker,
    /// What is to be reported, where this is the peer's first connection.
    pub event: Option<ConnectionEvent>,
    /// Its state.
    pub connection: ServedConnection,
    /// How its requests are served.
    pub plan: RequestPlan,
    /// Raw identity that every request carries.
    pub endpoint_id: RemoteEndpointId,
    /// Base32 identity that every request carries.
    pub node_id: RemoteNodeId,
}

impl ConnectionServeRuntime {
    /// The list of connections is in order.
    pub closed spec fn listed(self) -> bool {
        self.admission.wf()
    }

    /// The parts are in order and the limits are kept.
    pub open spec fn wf(self) -> bool {
        &&& self.listed()
        &&& self@.valid()
    }

    /// Build a runtime, and the state it shares, for connections that are
    /// accepted elsewhere.
    pub fn new(options: ConnectionServeOptions) -> (built: Result<
        (ConnectionServeRuntime, ServeShared),
        ConnectionServeError,
    >)
        ensures
            built is Ok <==> options.valid(),
            built matches Ok((runtime, shared)) ==> {
                &&& runtime.wf()
                &&& runtime@ == RuntimeState::fresh(options, runtime@.layer)
                &&& runtime@.options == options
                &&& runtime@.admission.max_per_peer == options.max_connections_per_peer
                &&& runtime@.admission.max_total == options.max_total_connections
                &&& bindings::layer_permits(runtime@.layer) == options.max_concurrency
                &&& shared == (ServeShared { requests: 0, connections: 0, close_flag: false })
            },
            built matches Err(error) ==> {
                &&& error matches ConnectionServeError::InvalidOptions { option, reason }
                &&& options.first_fault() == Some((option@, reason@))
            },
    {
        match Self::with_runtime_state(options) {
            Ok(runtime) => Ok((runtime, ServeShared::new())),
            Err(error) => Err(error),
        }
    }

    /// Build a runtime whose shared state the caller already keeps.
    ///
    /// Options are checked before the concurrency layer is made, so no option
    /// value makes its semaphore panic.
    pub fn with_runtime_state(options: ConnectionServeOptions) -> (built: Result<
        ConnectionServeRuntime,
        ConnectionServeError,
    >)
        ensures
            built is Ok <==> options.valid(),
            built matches Ok(runtime) ==> {
                &&& runtime.wf()
                &&& runtime@ == RuntimeState::fresh(options, runtime@.layer)
                &&& runtime@.options == options
                &&& runtime@.admission.max_per_peer == options.max_connections_per_peer
                &&& runtime@.admission.max_total == options.max_total_connections
                &&& bindings::layer_permits(runtime@.layer) == options.max_concurrency
            },
            built matches Err(error) ==> {
                &&& error matches ConnectionServeError::InvalidOptions { option, reason }
                &&& options.first_fault() == Some((option@, reason@))
            },
    {
        match options.validate() {
            Err(error) => Err(error),
            Ok(()) => Ok(
                ConnectionServeRuntime {
                    options,
                    concurrency: concurrency_layer(options.max_concurrency),
                    admission: ConnectionAdmission::new(
                        options.max_connections_per_peer,
                        options.max_total_connections,
                    ),
                    deliveries: 0,
                    stream_admission: StreamAdmissionBarrier::new(),
                    drained: false,
                    shutdown: None,
                },
            ),
        }
    }

    /// The layer that bounds simultaneous requests. Its clones share one bound,
    /// and every connection of this runtime is served under it.
    pub fn concurrency(&self) -> (layer: &tower::limit::GlobalConcurrencyLimitLayer)
        ensures
            *layer == self@.layer,
    {
        &self.concurrency
    }

    /// The options in force.
    pub fn options(&self) -> (options: &ConnectionServeOptions)
        ensures
            *options == self@.options,
    {
        &self.options
    }

    /// Take a connection that negotiated the protocol `negotiated` with the
    /// peer `remote_id`, if that protocol is `expected` and there is room.
    pub fn serve_connection(
        &mut self,
        shared: &mut ServeShared,
        negotiated: &[u8],
        expected: &[u8],
        remote_id: EndpointId,
    ) -> (taken: Result<Admitted, Refusal>)
        requires
            old(self).wf(),
        ensures
            final(self).wf(),
            if negotiated@ == expected@ {
                admission_outcome(
                    old(self)@,
                    *old(shared),
                    remote_id@,
                    crate::base32::encoded(remote_id@),
                    taken,
                    final(self)@,
                    *final(shared),
                )
            } else {
                &&& final(self)@ == old(self)@
                &&& *final(shared) == *old(shared)
                &&& taken matches Err(refusal)
                &&& refusal.error matches ConnectionServeError::UnexpectedAlpn { actual }
                &&& actual@ == negotiated@
                &&& identity::closes_with(refusal.close, "unexpected ALPN"@)
            },
    {
        match validate_http_connection(negotiated, expected, remote_id) {
            Ok(identity) => self.serve_validated(shared, identity),
            Err(refusal) => Err(refusal),
        }
    }

    /// Take a connection whose protocol has been checked, if there is room.
    pub fn serve_validated(
        &mut self,
        shared: &mut ServeShared,
        identity: ValidatedRemoteIdentity,
    ) -> (taken: Result<Admitted, Refusal>)
        requires
            old(self).wf(),
        ensures
            final(self).wf(),
            admission_outcome(
                old(self)@,
                *old(shared),
                identity.endpoint_id@,
                identity.legacy_node_id@,
                taken,
                final(self)@,
                *final(shared),
            ),
    {
        let (endpoint_id, node_id) = identity.extensions();
        match self.admission.acquire(
            &mut shared.connections,
            identity.endpoint_id,
            identity.legacy_node_id,
        ) {
            Ok((tracker, event)) => {
                proof {
                    self.admission.lemma_tidy();
                }
                assert(self@.admission.within_limits());
                Ok(
                    Admitted {
                        tracker,
                        event,
                        connection: ServedConnection {
                            requests: 0,
                            end: ConnectionServeEnd::PeerClosed,
                            accepting: true,
                        },
                        plan: self.options.request_plan(),
                        endpoint_id,
                        node_id,
                    },
                )
            },
            Err(ConnectionAdmissionError::Total) => Err(
                Refusal {
                    error: ConnectionServeError::TotalConnectionLimitReached {
                        maximum: self.options.max_total_connections,
                    },
                    close: Some(Close { code: 0, reason: "server at capacity" }),
                },
            ),
            Err(ConnectionAdmissionError::Peer) => {
                proof {
                    // A peer at its bound holds a connection, so it is listed.
                    let listed = old(self)@.admission.listed;
                    assert(listed.contains(identity.endpoint_id@));
                    assert(listed.insert(identity.endpoint_id@) =~= listed);
                }
                Err(
                    Refusal {
                        error: ConnectionServeError::PeerConnectionLimitReached {
                            maximum: self.options.max_connections_per_peer,
                        },
                        close: Some(Close { code: 0, reason: "too many peer connections" }),
                    },
                )
            },
        }
    }
}

/// What becomes of a connection from `peer` with the right protocol.
///
/// It is taken where both connection bounds leave room, and else refused with
/// the bound that did not; then nothing changes.
pub open spec fn admission_outcome(
    before: RuntimeState,
    shared_before: ServeShared,
    peer: Seq<u8>,
    peer_id: Seq<char>,
    taken: Result<Admitted, Refusal>,
    after: RuntimeState,
    shared_after: ServeShared,
) -> bool {
    match before.admission.verdict(shared_before.connections, peer) {
        Ok(()) => {
            &&& after == before.connect(peer)
            &&& shared_after == shared_before.connect()
            &&& taken matches Ok(admitted)
            &&& admitted.tracker.peer() == peer
            &&& admitted.tracker.peer_id() == peer_id
            &&& if before.admission.held.count(peer) == 0 {
                lifecycle::reports(admitted.event, peer_id, true)
            } else {
                admitted.event is None
            }
            &&& admitted.connection@ == ServedState::fresh()
            &&& admitted.plan == before.options.plan()
            &&& admitted.endpoint_id.0@ == peer
            &&& (*admitted.node_id.0)@ == peer_id
        },
        Err(error) => {
            &&& after == before
            &&& shared_after == shared_before
            &&& taken matches Err(refusal)
            &&& match error {
                ConnectionAdmissionError::Total => {
                    &&& refusal.error == (ConnectionServeError::TotalConnectionLimitReached {
                        maximum: before.options.max_total_connections,
                    })
                    &&& identity::closes_with(refusal.close, "server at capacity"@)
                },
                ConnectionAdmissionError::Peer => {
                    &&& refusal.error == (ConnectionServeError::PeerConnectionLimitReached {
                        maximum: before.options.max_connections_per_peer,
                    })
                    &&& identity::closes_with(refusal.close, "too many peer connections"@)
                },
            }
        },
    }
}

/// What a connection does next.
#[derive(Debug)]
pub enum LoopStep {
    /// Close it and take no more streams.
    Close(Close),
    /// Wait until connections are to be closed.
    AwaitClose,
    /// Wait for the first of these, in this order: connections are to be
    /// closed; a request task ends, if any runs; a stream comes; the idle time
    /// passes, if one is given.
    Select {
        /// Some request task runs.
        watch_requests: bool,
        /// How long to wait for a stream, if nothing runs.
        idle: Option<Duration>,
    },
}

/// What a connection was woken by.
#[derive(Debug)]
pub enum SelectEvent {
    /// Connections are to be closed.
    Closing,
    /// A request task ended.
    RequestJoined(Option<Result<(), tokio::task::JoinError>>),
    /// The peer opened a stream.
    StreamAccepted,
    /// No more streams can come.
    StreamsEnded,
    /// The idle time passed.
    Idle,
}

impl SelectEvent {
    /// Whether a connection in that state waits for this event: it waits for
    /// request tasks only while some run, and for idleness only while none do.
    pub open spec fn awaited(self, connection: ServedState) -> bool {
        &&& connection.accepting
        &&& match self {
            SelectEvent::RequestJoined(_) => connection.requests > 0,
            SelectEvent::Idle => connection.requests == 0,
            SelectEvent::StreamAccepted => connection.requests < usize::MAX,
            _ => true,
        }
    }
}

/// What is to be done about an event.
pub enum SelectOutcome {
    /// Nothing, but for a warning if the request task failed.
    Continue {
        /// Warn that a request task failed.
        report: bool,
    },
    /// Let go of the stream.
    DropStream,
    /// Start a request task on the stream. It owns both slots.
    Spawn(RequestTracker, DeliveryTracker),
    /// Take no more streams, and close the connection if so said.
    Leave(Option<Close>),
}

/// What becomes of the event that woke a connection.
///
/// A wake-up for closing changes nothing by itself. A joined task is taken off
/// the connection. A stream is counted and becomes a task, unless the runtime
/// has stopped; then it is let go of. The end of streams and idleness end the
/// connection.
pub open spec fn selected(
    before: RuntimeState,
    shared_before: ServeShared,
    connection_before: ServedState,
    event: SelectEvent,
    outcome: SelectOutcome,
    after: RuntimeState,
    shared_after: ServeShared,
    connection_after: ServedState,
) -> bool {
    if event is StreamAccepted && !before.stopped {
        &&& outcome matches SelectOutcome::Spawn(request, delivery)
        &&& request@ && delivery@
        &&& after == before.start_delivery()
        &&& shared_after == shared_before.start_request()
        &&& connection_after == connection_before.start_request()
    } else {
        &&& after == before
        &&& shared_after == shared_before
        &&& match event {
            SelectEvent::Closing => {
                &&& outcome == (SelectOutcome::Continue { report: false })
                &&& connection_after == connection_before
            },
            SelectEvent::RequestJoined(completed) => {
                &&& outcome == (SelectOutcome::Continue {
                    report: completed matches Some(Err(_)),
                })
                &&& connection_after == if completed is Some {
                    connection_before.join_request()
                } else {
                    connection_before
                }
            },
            SelectEvent::StreamAccepted => {
                &&& outcome is DropStream
                &&& connection_after == connection_before
            },
            SelectEvent::StreamsEnded => {
                &&& outcome == SelectOutcome::Leave(None)
                &&& connection_after == connection_before.leave()
            },
            SelectEvent::Idle => {
                &&& outcome matches SelectOutcome::Leave(close)
                &&& identity::closes_with(close, "HTTP connection idle timeout"@)
                &&& connection_after == connection_before.leave_idle()
            },
        }
    }
}

/// What an accepting connection does next.
///
/// It closes once connections are to be closed, waits for that once streams are
/// turned away, and else waits for what comes first, with an idle time only
/// while no task runs.
pub open spec fn stepped(
    runtime: RuntimeState,
    shared: ServeShared,
    before: ServedState,
    step: LoopStep,
    after: ServedState,
) -> bool {
    if shared.close_flag {
        &&& step matches LoopStep::Close(close)
        &&& identity::closes_with(Some(close), "HTTP serve runtime stopped"@)
        &&& after == before.leave()
    } else {
        &&& after == before
        &&& if runtime.stopped {
            step is AwaitClose
        } else {
            &&& step matches LoopStep::Select { watch_requests, idle }
            &&& watch_requests == (before.requests > 0)
            &&& idle == if before.requests == 0 {
                Some(runtime.options.connection_idle_timeout)
            } else {
                None
            }
        }
    }
}

/// What serving a connection came to: the end that it saw for itself, unless
/// connections are to be closed.
pub open spec fn ended(
    runtime: RuntimeState,
    shared: ServeShared,
    connection: ServedState,
    result: ConnectionServeResult,
) -> bool {
    &&& result.end == if shared.close_flag {
        ConnectionServeEnd::Shutdown
    } else {
        connection.end
    }
    &&& result.drained <==> !shared.close_flag || runtime.drained
}

/// What giving a slot of `peer` back does, and the event of its last one.
pub open spec fn released(
    before: RuntimeState,
    shared_before: ServeShared,
    peer: Seq<u8>,
    peer_id: Seq<char>,
    event: Option<ConnectionEvent>,
    after: RuntimeState,
    shared_after: ServeShared,
) -> bool {
    &&& after == before.disconnect(peer)
    &&& shared_after == shared_before.disconnect()
    &&& if before.admission.held.count(peer) == 1 {
        lifecycle::reports(event, peer_id, false)
    } else {
        event is None
    }
}

/// Whether the end of a request task is worth a warning: it did not complete.
pub fn report_request_join(completed: &Option<Result<(), tokio::task::JoinError>>) -> (report: bool)
    ensures
        report <==> (completed matches Some(Err(_))),
{
    match completed {
        Some(Err(_)) => true,
        _ => false,
    }
}

impl ConnectionServeRuntime {
    /// What an accepting connection does next. Called once the wait for closing
    /// is armed, so that no wake-up is lost.
    pub fn next_step(&self, shared: &ServeShared, connection: &mut ServedConnection) -> (step:
        LoopStep)
        requires
            old(connection)@.accepting,
        ensures
            stepped(self@, *shared, old(connection)@, step, final(connection)@),
    {
        if shared.close_flag {
            connection.accepting = false;
            return LoopStep::Close(Close { code: 0, reason: "HTTP serve runtime stopped" });
        }
        if self.stream_admission.is_stopped() {
            return LoopStep::AwaitClose;
        }
        if connection.requests == 0 {
            LoopStep::Select {
                watch_requests: false,
                idle: Some(self.options.connection_idle_timeout),
            }
        } else {
            LoopStep::Select { watch_requests: true, idle: None }
        }
    }

    /// React to what woke the connection.
    ///
    /// A stream is counted and becomes a request task unless the runtime has
    /// stopped; then it is let go of, uncounted.
    pub fn on_select(
        &mut self,
        shared: &mut ServeShared,
        connection: &mut ServedConnection,
        event: SelectEvent,
    ) -> (outcome: SelectOutcome)
        requires
            old(self).wf(),
            event.awaited(old(connection)@),
        ensures
            final(self).wf(),
            selected(
                old(self)@,
                *old(shared),
                old(connection)@,
                event,
                outcome,
                final(self)@,
                *final(shared),
                final(connection)@,
            ),
    {
        match event {
            SelectEvent::Closing => SelectOutcome::Continue { report: false },
            SelectEvent::RequestJoined(completed) => {
                if completed.is_some() {
                    connection.requests = connection.requests - 1;
                }
                SelectOutcome::Continue { report: report_request_join(&completed) }
            },
            SelectEvent::StreamAccepted => {
                if !self.stream_admission.try_admit(&mut shared.requests, &mut self.deliveries) {
                    return SelectOutcome::DropStream;
                }
                connection.requests = connection.requests + 1;
                SelectOutcome::Spawn(RequestTracker::new(), DeliveryTracker::new())
            },
            SelectEvent::StreamsEnded => {
                connection.accepting = false;
                SelectOutcome::Leave(None)
            },
            SelectEvent::Idle => {
                connection.end = ConnectionServeEnd::IdleTimeout;
                connection.accepting = false;
                SelectOutcome::Leave(
                    Some(Close { code: 0, reason: "HTTP connection idle timeout" }),
                )
            },
        }
    }

    /// Whether a connection that takes no more streams aborts the request tasks
    /// it has left: connections are to be closed and the drain ran out of time.
    pub fn abort_requests(&self, shared: &ServeShared) -> (abort: bool)
        ensures
            abort <==> shared.close_flag && !self@.drained,
    {
        shared.close_flag && !self.drained
    }

    /// Note that a request task of a connection that takes no more streams has
    /// ended, and say whether to warn.
    pub fn on_join(
        connection: &mut ServedConnection,
        completed: Option<Result<(), tokio::task::JoinError>>,
    ) -> (report: bool)
        requires
            !old(connection)@.accepting,
            old(connection)@.requests > 0,
        ensures
            report <==> (completed matches Some(Err(_))),
            final(connection)@ == if completed is Some {
                old(connection)@.join_request()
            } else {
                old(connection)@
            },
    {
        if completed.is_some() {
            connection.requests = connection.requests - 1;
        }
        report_request_join(&completed)
    }

    /// What serving the connection came to, once all its request tasks are
    /// joined.
    pub fn result(&self, shared: &ServeShared, connection: &ServedConnection) -> (result:
        ConnectionServeResult)
        requires
            !connection@.accepting,
            connection@.requests == 0,
        ensures
            ended(self@, *shared, connection@, result),
    {
        ConnectionServeResult {
            end: if shared.close_flag {
                ConnectionServeEnd::Shutdown
            } else {
                connection.end
            },
            drained: !shared.close_flag || self.drained,
        }
    }

    /// Give a connection's slot back when serving it is over, in whatever way.
    /// The event of a peer's last connection is returned.
    pub fn release(&mut self, shared: &mut ServeShared, tracker: ConnectionTracker) -> (event:
        Option<ConnectionEvent>)
        requires
            old(self).wf(),
        ensures
            final(self).wf(),
            released(
                old(self)@,
                *old(shared),
                tracker.peer(),
                tracker.peer_id(),
                event,
                final(self)@,
                *final(shared),
            ),
    {
        let event = self.admission.release(&mut shared.connections, tracker);
        proof {
            self.admission.lemma_tidy();
        }
        assert(self@.admission.within_limits());
        event
    }

    /// Give a request's processing slot back.
    pub fn finish_request(shared: &mut ServeShared, tracker: &mut RequestTracker)
        ensures
            !final(tracker)@,
            *final(shared) == if old(tracker)@ {
                old(shared).end_request()
            } else {
                *old(shared)
            },
    {
        tracker.finish(&mut shared.requests);
    }

    /// Give a request's delivery slot back, and say whether the drain is to be
    /// woken.
    pub fn finish_delivery(&mut self, tracker: &mut DeliveryTracker) -> (wake: bool)
        requires
            old(self).wf(),
        ensures
            final(self).wf(),
            !final(tracker)@,
            final(self)@ == if old(tracker)@ {
                old(self)@.end_delivery()
            } else {
                old(self)@
            },
            wake <==> old(tracker)@ && old(self)@.deliveries == 1,
    {
        tracker.finish(&mut self.deliveries)
    }
}

/// A shutdown in progress. Both waits share one deadline.
#[derive(Clone, Copy, Debug)]
pub struct ShutdownDrain {
    deadline: Moment,
    stage: DrainStage,
}

impl ShutdownDrain {
    /// When waiting ends, in nanoseconds on the clock.
    pub closed spec fn deadline(self) -> nat {
        self.deadline@
    }

    /// What is waited for.
    pub closed spec fn stage(self) -> DrainStage {
        self.stage
    }
}

/// How a call for shutdown begins.
#[derive(Debug)]
pub enum ShutdownStart {
    /// Shutdown is over. This is what it returned.
    Finished(bool),
    /// Streams are turned away from now on, and the drain goes on.
    Draining(ShutdownDrain),
}

/// What a shutdown in progress does next.
#[derive(Clone, Copy, Debug, PartialEq, Eq, Structural)]
pub enum ShutdownStep {
    /// Wait until a delivery ends, at most this long, and look again.
    WaitForDeliveries(Duration),
    /// Wake every connection so that it closes, and look again.
    NotifyClose,
    /// Wait until a connection is released, at most this long, and look again.
    WaitForConnections(Duration),
    /// Shutdown is over: whether deliveries drained and connections were
    /// released in time.
    Finished(bool),
}

/// The state of a runtime whose shutdown begins at `now`. `reached` says whether
/// the clock reaches the end of its drain window.
pub open spec fn shutdown_began(
    before: RuntimeState,
    now: nat,
    reached: bool,
    start: ShutdownStart,
    after: RuntimeState,
) -> bool {
    match before.outcome {
        Some(outcome) => {
            &&& start == ShutdownStart::Finished(outcome)
            &&& after == before
        },
        None => {
            &&& start matches ShutdownStart::Draining(drain)
            &&& drain.deadline() == drain::deadline_after(
                now,
                before.options.drain_timeout@,
                reached,
            )
            &&& drain.stage() == DrainStage::Deliveries
            &&& after == before.stop()
        },
    }
}

/// One look of a shutdown at the count it waits for.
///
/// While deliveries are looked at, their end or the deadline settles whether
/// they drained, and connections are to be closed. While connections are looked
/// at, their end or the deadline settles the outcome.
pub open spec fn shutdown_looked(
    before: RuntimeState,
    shared_before: ServeShared,
    drain_before: ShutdownDrain,
    now: nat,
    step: ShutdownStep,
    after: RuntimeState,
    shared_after: ServeShared,
    drain_after: ShutdownDrain,
) -> bool {
    let deadline = drain_before.deadline();
    &&& drain_after.deadline() == deadline
    &&& match (before.outcome, drain_before.stage()) {
        (Some(outcome), _) => {
            &&& step == ShutdownStep::Finished(outcome)
            &&& after == before
            &&& shared_after == shared_before
            &&& drain_after.stage() == drain_before.stage()
        },
        (None, DrainStage::Deliveries) => if before.deliveries > 0 && now < deadline {
            &&& step matches ShutdownStep::WaitForDeliveries(span)
            &&& span@ == deadline - now
            &&& after == before
            &&& shared_after == shared_before
            &&& drain_after.stage() == drain_before.stage()
        } else {
            &&& step == ShutdownStep::NotifyClose
            &&& after == before.settle_deliveries()
            &&& shared_after == shared_before.close()
            &&& drain_after.stage() == (DrainStage::Connections {
                drained: before.deliveries == 0,
            })
        },
        (None, DrainStage::Connections { drained }) => if shared_before.connections > 0 && now
            < deadline {
            &&& step matches ShutdownStep::WaitForConnections(span)
            &&& span@ == deadline - now
            &&& after == before
            &&& shared_after == shared_before
            &&& drain_after.stage() == drain_before.stage()
        } else {
            let outcome = drained && shared_before.connections == 0;
            &&& step == ShutdownStep::Finished(outcome)
            &&& after == before.settle(outcome)
            &&& shared_after == shared_before
            &&& drain_after.stage() == drain_before.stage()
        },
    }
}

impl ConnectionServeRuntime {
    /// Stop taking streams and begin to drain, or say what an earlier shutdown
    /// returned.
    pub fn shutdown(&mut self, clock: &Clock) -> (start: ShutdownStart)
        requires
            old(self).wf(),
        ensures
            final(self).wf(),
            exists|now: Moment, reached: bool|
                {
                    &&& #[trigger] drain::opens(
                        clock,
                        old(self)@.options.drain_timeout,
                        now,
                        reached,
                    )
                    &&& now@ <= LAST_READING
                    &&& old(self)@.options.drain_timeout@ == 0 ==> reached
                    &&& reached ==> now@ + old(self)@.options.drain_timeout@ <= LAST_MOMENT
                    &&& shutdown_began(old(self)@, now@, reached, start, final(self)@)
                },
    {
        let (now, reached) = drain_start(clock, self.options.drain_timeout);
        self.shutdown_at(now, reached)
    }

    /// [`ConnectionServeRuntime::shutdown`] at the time `now`. `reached` says
    /// whether the clock reaches the end of the drain window.
    pub fn shutdown_at(&mut self, now: Moment, reached: bool) -> (start: ShutdownStart)
        requires
            old(self).wf(),
            now@ <= LAST_READING,
            reached ==> now@ + old(self)@.options.drain_timeout@ <= LAST_MOMENT,
        ensures
            final(self).wf(),
            shutdown_began(old(self)@, now@, reached, start, final(self)@),
    {
        if let Some(outcome) = self.shutdown {
            return ShutdownStart::Finished(outcome);
        }
        self.stream_admission.stop();
        let deadline = drain_deadline_at(now, self.options.drain_timeout, reached);
        ShutdownStart::Draining(ShutdownDrain { deadline, stage: DrainStage::Deliveries })
    }

    /// Look at the count that a shutdown waits for. Called once the wait for
    /// its change is armed, so that no wake-up is lost.
    pub fn poll_shutdown(
        &mut self,
        shared: &mut ServeShared,
        drain: &mut ShutdownDrain,
        clock: &Clock,
    ) -> (step: ShutdownStep)
        requires
            old(self).wf(),
        ensures
            final(self).wf(),
            exists|now: Moment|
                {
                    &&& #[trigger] clock.showed(now)
                    &&& now@ <= LAST_READING
                    &&& shutdown_looked(
                        old(self)@,
                        *old(shared),
                        *old(drain),
                        now@,
                        step,
                        final(self)@,
                        *final(shared),
                        *final(drain),
                    )
                },
    {
        let now = clock.now();
        assert(clock.showed(now));
        self.poll_shutdown_at(shared, drain, now)
    }

    /// [`ConnectionServeRuntime::poll_shutdown`] at the time `now`.
    pub fn poll_shutdown_at(
        &mut self,
        shared: &mut ServeShared,
        drain: &mut ShutdownDrain,
        now: Moment,
    ) -> (step: ShutdownStep)
        requires
            old(self).wf(),
        ensures
            final(self).wf(),
            shutdown_looked(
                old(self)@,
                *old(shared),
                *old(drain),
                now@,
                step,
                final(self)@,
                *final(shared),
                *final(drain),
            ),
    {
        if let Some(outcome) = self.shutdown {
            return ShutdownStep::Finished(outcome);
        }
        match drain.stage {
            DrainStage::Deliveries => {
                let drained = match wait_for_zero_at(self.deliveries, drain.deadline, now) {
                    ZeroWait::Pending(span) => {
                        return ShutdownStep::WaitForDeliveries(span);
                    },
                    ZeroWait::Zero => true,
                    ZeroWait::Expired => false,
                };
                self.drained = drained;
                shared.close_flag = true;
                drain.stage = DrainStage::Connections { drained };
                ShutdownStep::NotifyClose
            },
            DrainStage::Connections { drained } => {
                let released = match wait_for_zero_at(shared.connections, drain.deadline, now) {
                    ZeroWait::Pending(span) => {
                        return ShutdownStep::WaitForConnections(span);
                    },
                    ZeroWait::Zero => true,
                    ZeroWait::Expired => false,
                };
                let outcome = drained && released;
                self.shutdown = Some(outcome);
                ShutdownStep::Finished(outcome)
            },
        }
    }
}

/// Take a single connection with a runtime of its own.
///
/// Limits and shutdown are then those of this one connection. Invalid options
/// are refused before the connection is looked at, and the connection is let go
/// of.
pub fn serve_connection(
    options: ConnectionServeOptions,
    negotiated: &[u8],
    expected: &[u8],
    remote_id: EndpointId,
) -> (taken: Result<(ConnectionServeRuntime, ServeShared, Admitted), Refusal>)
    ensures
        taken is Ok <==> options.valid() && negotiated@ == expected@,
        taken matches Ok((runtime, shared, admitted)) ==> {
            &&& runtime.wf()
            &&& admission_outcome(
                RuntimeState::fresh(options, runtime@.layer),
                ServeShared { requests: 0, connections: 0, close_flag: false },
                remote_id@,
                crate::base32::encoded(remote_id@),
                Ok(admitted),
                runtime@,
                shared,
            )
        },
        taken matches Err(refusal) ==> if options.valid() {
            &&& refusal.error matches ConnectionServeError::UnexpectedAlpn { actual }
            &&& actual@ == negotiated@
            &&& identity::closes_with(refusal.close, "unexpected ALPN"@)
        } else {
            &&& refusal.error matches ConnectionServeError::InvalidOptions { option, reason }
            &&& options.first_fault() == Some((option@, reason@))
            &&& refusal.close is None
        },
{
    match ConnectionServeRuntime::new(options) {
        Err(error) => Err(Refusal { error, close: None }),
        Ok((mut runtime, mut shared)) => {
            match runtime.serve_connection(&mut shared, negotiated, expected, remote_id) {
                Ok(admitted) => Ok((runtime, shared, admitted)),
                Err(refusal) => Err(refusal),
            }
        },
    }
}

} // verus!
