//! What each call of a runtime is for: how its result and the counts it leaves
//! behind relate to what it was called with.

use vstd::prelude::*;

use crate::connection;
use crate::connection::{
    Admitted, ConnectionServeResult, LoopStep, SelectEvent, SelectOutcome, ShutdownDrain,
    ShutdownStart, ShutdownStep,
};
use crate::error::ConnectionServeError;
use crate::identity::Refusal;
use crate::laws;
use crate::laws::{ServerMove, ServerState};
use crate::lifecycle::ConnectionEvent;
use crate::options::ConnectionServeOptions;
use crate::state::{ConnectionServeEnd, DrainStage, RuntimeState, ServeShared, ServedState};

verus! {

/// A shutdown gives up on deliveries only at its deadline. Before it, a look
/// that sees any, however many, changes nothing and asks to wait for exactly the
/// time that remains. Connections are told to close only once none is left or
/// the deadline is there, and whether the drain succeeded is whether none was
/// left.
pub proof fn law_drain_waits_for_deliveries(
    before: RuntimeState,
    shared_before: ServeShared,
    drain: ShutdownDrain,
    now: nat,
    step: ShutdownStep,
    after: RuntimeState,
    shared_after: ServeShared,
    drain_after: ShutdownDrain,
)
    requires
        connection::shutdown_looked(
            before,
            shared_before,
            drain,
            now,
            step,
            after,
            shared_after,
            drain_after,
        ),
        before.outcome is None,
        drain.stage() == DrainStage::Deliveries,
    ensures
        before.deliveries > 0 && now < drain.deadline() ==> {
            &&& step matches ShutdownStep::WaitForDeliveries(span)
            &&& now + span@ == drain.deadline()
            &&& after == before
            &&& shared_after == shared_before
            &&& drain_after.stage() == DrainStage::Deliveries
        },
        drain_after.stage() == (DrainStage::Connections { drained: false }) ==> {
            &&& drain.deadline() <= now
            &&& before.deliveries > 0
        },
        drain_after.stage() == (DrainStage::Connections { drained: true }) <==> before.deliveries
            == 0,
        step == ShutdownStep::NotifyClose <==> before.deliveries == 0 || drain.deadline() <= now,
        step == ShutdownStep::NotifyClose ==> {
            &&& shared_after.close_flag
            &&& after.drained <==> before.deliveries == 0
            &&& drain_after.stage() == (DrainStage::Connections { drained: after.drained })
        },
        step == ShutdownStep::NotifyClose || step is WaitForDeliveries,
        drain_after.deadline() == drain.deadline(),
        shared_after.requests == shared_before.requests,
        shared_after.connections == shared_before.connections,
        after == (RuntimeState { drained: after.drained, ..before }),
{
}

/// Once connections are told to close, a shutdown waits for every one of them
/// until its deadline, and for no longer. It succeeds exactly where deliveries
/// had drained and no connection is left.
pub proof fn law_drain_waits_for_connections(
    before: RuntimeState,
    shared_before: ServeShared,
    drain: ShutdownDrain,
    drained: bool,
    now: nat,
    step: ShutdownStep,
    after: RuntimeState,
    shared_after: ServeShared,
    drain_after: ShutdownDrain,
)
    requires
        connection::shutdown_looked(
            before,
            shared_before,
            drain,
            now,
            step,
            after,
            shared_after,
            drain_after,
        ),
        before.outcome is None,
        drain.stage() == (DrainStage::Connections { drained }),
    ensures
        shared_before.connections > 0 && now < drain.deadline() ==> {
            &&& step matches ShutdownStep::WaitForConnections(span)
            &&& now + span@ == drain.deadline()
            &&& after == before
        },
        step == ShutdownStep::Finished(true) <==> drained && shared_before.connections == 0,
        step == ShutdownStep::Finished(false) <==> {
            ||| shared_before.connections > 0 && drain.deadline() <= now
            ||| shared_before.connections == 0 && !drained
        },
        step is Finished || step is WaitForConnections,
        step matches ShutdownStep::Finished(outcome) ==> after.outcome == Some(outcome),
        step is WaitForConnections ==> after.outcome is None,
        shared_after == shared_before,
        drain_after == drain || (drain_after.deadline() == drain.deadline() && drain_after.stage()
            == drain.stage()),
        after == (RuntimeState { outcome: after.outcome, ..before }),
{
}

/// A shutdown that is over says what it said, and changes nothing.
pub proof fn law_finished_shutdown_repeats_itself(
    before: RuntimeState,
    shared_before: ServeShared,
    drain: ShutdownDrain,
    now: nat,
    reached: bool,
    step: ShutdownStep,
    start: ShutdownStart,
    after_look: RuntimeState,
    after_start: RuntimeState,
    shared_after: ServeShared,
    drain_after: ShutdownDrain,
)
    requires
        before.outcome is Some,
        connection::shutdown_looked(
            before,
            shared_before,
            drain,
            now,
            step,
            after_look,
            shared_after,
            drain_after,
        ),
        connection::shutdown_began(before, now, reached, start, after_start),
    ensures
        step == ShutdownStep::Finished(before.outcome->0),
        start == ShutdownStart::Finished(before.outcome->0),
        after_look == before,
        after_start == before,
        shared_after == shared_before,
{
}

/// A call for shutdown turns streams away from then on and opens a drain window
/// of the configured length. Nothing is closed, given up on or settled by it.
pub proof fn law_shutdown_opens_the_configured_window(
    before: RuntimeState,
    now: nat,
    reached: bool,
    start: ShutdownStart,
    after: RuntimeState,
)
    requires
        connection::shutdown_began(before, now, reached, start, after),
        before.outcome is None,
    ensures
        after.stopped,
        after == (RuntimeState { stopped: true, ..before }),
        start matches ShutdownStart::Draining(drain) && {
            &&& drain.stage() == DrainStage::Deliveries
            &&& reached ==> drain.deadline() - now == before.options.drain_timeout@
            &&& !reached ==> drain.deadline() - now == 86_400 * 1_000_000_000
        },
{
}

/// Counting a stream and starting its task are the same event. A stream becomes
/// a task that owns both its slots exactly where the runtime has not stopped,
/// whatever the connection already runs, and the counts of requests, deliveries
/// and tasks rise, each by one, exactly where a task is started.
pub proof fn law_streams_become_tasks_until_the_stop(
    before: RuntimeState,
    shared_before: ServeShared,
    connection_before: ServedState,
    event: SelectEvent,
    outcome: SelectOutcome,
    after: RuntimeState,
    shared_after: ServeShared,
    connection_after: ServedState,
)
    requires
        connection::selected(
            before,
            shared_before,
            connection_before,
            event,
            outcome,
            after,
            shared_after,
            connection_after,
        ),
    ensures
        outcome is Spawn <==> event is StreamAccepted && !before.stopped,
        outcome is DropStream <==> event is StreamAccepted && before.stopped,
        outcome matches SelectOutcome::Spawn(request, delivery) ==> request@ && delivery@,
        shared_after.requests == if outcome is Spawn {
            shared_before.requests.wrapping_add(1)
        } else {
            shared_before.requests
        },
        after.deliveries == if outcome is Spawn {
            before.deliveries.wrapping_add(1)
        } else {
            before.deliveries
        },
        event is StreamAccepted ==> connection_after.requests == connection_before.requests + if
            outcome is Spawn {
            1int
        } else {
            0
        },
        event is StreamAccepted ==> {
            &&& connection_after.accepting == connection_before.accepting
            &&& connection_after.end == connection_before.end
        },
        shared_after.connections == shared_before.connections,
        shared_after.close_flag == shared_before.close_flag,
        after == (RuntimeState { deliveries: after.deliveries, ..before }),
{
}

/// A connection is left only by the end of its streams or by idleness. Idleness
/// alone is told to the peer, and to whoever reads the result. A task that ends
/// is taken off the connection, and is warned of exactly where it failed.
pub proof fn law_connections_end_for_a_reason(
    before: RuntimeState,
    shared_before: ServeShared,
    connection_before: ServedState,
    event: SelectEvent,
    outcome: SelectOutcome,
    after: RuntimeState,
    shared_after: ServeShared,
    connection_after: ServedState,
)
    requires
        event.awaited(connection_before),
        connection::selected(
            before,
            shared_before,
            connection_before,
            event,
            outcome,
            after,
            shared_after,
            connection_after,
        ),
    ensures
        outcome is Leave <==> event is StreamsEnded || event is Idle,
        connection_after.accepting <==> !(outcome is Leave),
        connection_after.end == if event is Idle {
            ConnectionServeEnd::IdleTimeout
        } else {
            connection_before.end
        },
        event is StreamsEnded ==> outcome == SelectOutcome::Leave(None),
        event is Idle ==> (outcome matches SelectOutcome::Leave(Some(close)) && {
            &&& close.code == 0
            &&& close.reason@ == "HTTP connection idle timeout"@
        }),
        event matches SelectEvent::RequestJoined(completed) ==> {
            &&& outcome == (SelectOutcome::Continue { report: completed is Some && completed->0 is Err })
            &&& completed is Some ==> connection_after.requests + 1 == connection_before.requests
            &&& completed is None ==> connection_after.requests == connection_before.requests
        },
        event is Closing ==> outcome == (SelectOutcome::Continue { report: false }),
        event is Closing || event is StreamsEnded || event is Idle ==> connection_after.requests
            == connection_before.requests,
{
}

/// While it takes streams, a connection hears of closing, of streams and of
/// their end at any time, of a task whenever one runs, and of idleness whenever
/// none does.
pub proof fn law_connections_hear_of_everything(event: SelectEvent, c: ServedState)
    requires
        c.accepting,
        c.requests < usize::MAX,
    ensures
        event.awaited(c) <==> match event {
            SelectEvent::RequestJoined(_) => c.requests != 0,
            SelectEvent::Idle => c.requests == 0,
            _ => true,
        },
{
}

/// A connection is taken exactly where fewer connections are open than the total
/// bound of the options in force and its peer holds fewer than the per-peer
/// bound. Then one more is counted, for that peer and no other, and a peer that
/// held none is announced under its name.
pub proof fn law_connections_are_taken_within_the_bounds(
    before: RuntimeState,
    shared_before: ServeShared,
    peer: Seq<u8>,
    peer_id: Seq<char>,
    taken: Result<Admitted, Refusal>,
    after: RuntimeState,
    shared_after: ServeShared,
)
    requires
        before.valid(),
        connection::admission_outcome(
            before,
            shared_before,
            peer,
            peer_id,
            taken,
            after,
            shared_after,
        ),
    ensures
        taken is Ok <==> {
            &&& shared_before.connections < before.options.max_total_connections
            &&& before.admission.held.count(peer) < before.options.max_connections_per_peer
        },
        taken is Ok ==> {
            &&& shared_after.connections == shared_before.connections + 1
            &&& after.admission.held.count(peer) == before.admission.held.count(peer) + 1
        },
        taken is Err ==> after == before && shared_after.connections == shared_before.connections,
        forall|other: Seq<u8>|
            other != peer ==> #[trigger] after.admission.held.count(other)
                == before.admission.held.count(other),
        taken matches Ok(admitted) ==> match admitted.event {
            Some(event) => {
                &&& before.admission.held.count(peer) == 0
                &&& event.connected
                &&& event.peer_id@ == peer_id
            },
            None => before.admission.held.count(peer) > 0,
        },
        shared_after.requests == shared_before.requests,
        shared_after.close_flag == shared_before.close_flag,
        after == (RuntimeState { admission: after.admission, ..before }),
        after.admission.max_per_peer == before.admission.max_per_peer,
        after.admission.max_total == before.admission.max_total,
{
}

/// A connection that is taken is served for the peer it came from, under both
/// forms of its identity, from a clean start, and with every request limit of
/// the options in force.
pub proof fn law_taken_connections_are_served_as_configured(
    before: RuntimeState,
    shared_before: ServeShared,
    peer: Seq<u8>,
    peer_id: Seq<char>,
    admitted: Admitted,
    after: RuntimeState,
    shared_after: ServeShared,
)
    requires
        before.valid(),
        connection::admission_outcome(
            before,
            shared_before,
            peer,
            peer_id,
            Ok(admitted),
            after,
            shared_after,
        ),
    ensures
        admitted.tracker.peer() == peer,
        admitted.tracker.peer_id() == peer_id,
        admitted.endpoint_id.0@ == peer,
        (*admitted.node_id.0)@ == peer_id,
        admitted.connection@.accepting,
        admitted.connection@.requests == 0,
        admitted.connection@.end == ConnectionServeEnd::PeerClosed,
        ({
            let options = before.options;
            &&& admitted.plan.head_timeout == options.request_head_timeout
            &&& admitted.plan.header_limit == options.max_header_size || {
                &&& options.max_header_size == 0
                &&& admitted.plan.header_limit == 65_536
            }
            &&& admitted.plan.header_limit >= 8192
            &&& admitted.plan.stack.timeout == options.request_timeout
            &&& admitted.plan.stack.body_idle_timeout == options.body_idle_timeout
            &&& admitted.plan.stack.max_request_body_wire_bytes
                == options.max_request_body_wire_bytes
            &&& admitted.plan.stack.max_request_body_decoded_bytes
                == options.max_request_body_decoded_bytes
            &&& admitted.plan.stack.load_shed == options.load_shed
            &&& admitted.plan.stack.compression == options.compression
            &&& admitted.plan.stack.decompression == options.decompression
        }),
{
}

/// A connection that is refused is told which bound was full and how large that
/// bound is, and is closed with the reason for it. The total bound is named
/// wherever it is full.
pub proof fn law_refused_connections_are_told_the_bound(
    before: RuntimeState,
    shared_before: ServeShared,
    peer: Seq<u8>,
    peer_id: Seq<char>,
    refusal: Refusal,
    after: RuntimeState,
    shared_after: ServeShared,
)
    requires
        before.valid(),
        connection::admission_outcome(
            before,
            shared_before,
            peer,
            peer_id,
            Err(refusal),
            after,
            shared_after,
        ),
    ensures
        refusal.close matches Some(close) && {
            &&& close.code == 0
            &&& close.reason@ == if shared_before.connections
                >= before.options.max_total_connections {
                "server at capacity"@
            } else {
                "too many peer connections"@
            }
        },
        shared_before.connections >= before.options.max_total_connections ==> (refusal.error matches
            ConnectionServeError::TotalConnectionLimitReached { maximum } && maximum
            == before.options.max_total_connections),
        shared_before.connections < before.options.max_total_connections ==> {
            &&& refusal.error matches ConnectionServeError::PeerConnectionLimitReached { maximum }
            &&& maximum == before.options.max_connections_per_peer
            &&& before.admission.held.count(peer) == maximum
        },
{
    assert(before.admission.held.count(peer) <= before.admission.max_per_peer);
}

/// A peer is refused only where it, or all together, hold as many connections as
/// the options that the server was built from allow, through every sequence of
/// moves.
pub proof fn law_refusals_are_by_the_given_bounds(
    options: ConnectionServeOptions,
    layer: tower::limit::GlobalConcurrencyLimitLayer,
    shared: ServeShared,
    moves: Seq<ServerMove>,
    peer: Seq<u8>,
)
    requires
        options.valid(),
        crate::bindings::layer_permits(layer) == options.max_concurrency,
        laws::possible(ServerState::fresh(options, layer, shared), moves),
    ensures
        ({
            let s = laws::run(ServerState::fresh(options, layer, shared), moves);
            &&& s.runtime.options == options
            &&& s.runtime.admission.held.count(peer) <= options.max_connections_per_peer
            &&& s.runtime.admission.verdict(s.shared.connections, peer) is Ok <==> {
                &&& s.shared.connections < options.max_total_connections
                &&& s.runtime.admission.held.count(peer) < options.max_connections_per_peer
            }
        }),
{
    let fresh = ServerState::fresh(options, layer, shared);
    laws::law_fresh_server_is_sound(options, layer, shared);
    laws::law_server_stays_sound(fresh, moves);
}

/// An accepting connection goes by the shutdown: it closes exactly where
/// connections are to be closed, takes no stream once they are turned away, and
/// else waits for streams. It is given an idle time, the configured one, exactly
/// while no task of it runs. Nothing but closing ends it here.
pub proof fn law_connections_go_by_the_shutdown(
    runtime: RuntimeState,
    shared: ServeShared,
    before: ServedState,
    step: LoopStep,
    after: ServedState,
)
    requires
        before.accepting,
        connection::stepped(runtime, shared, before, step, after),
    ensures
        step is Close <==> shared.close_flag,
        step is AwaitClose <==> !shared.close_flag && runtime.stopped,
        step is Select <==> !shared.close_flag && !runtime.stopped,
        step matches LoopStep::Close(close) ==> close.code == 0 && close.reason@
            == "HTTP serve runtime stopped"@,
        step matches LoopStep::Select { watch_requests, idle } ==> {
            &&& watch_requests <==> before.requests > 0
            &&& idle is Some <==> before.requests == 0
            &&& idle matches Some(span) ==> span@ == runtime.options.connection_idle_timeout@
        },
        after.accepting <==> !(step is Close),
        after.requests == before.requests,
        after.end == before.end,
{
}

/// The result of a connection tells the truth about the server: it names the
/// shutdown exactly where connections are to be closed, and says that not
/// everything drained only where they are and the drain did not succeed. So every
/// connection that ends after a successful shutdown reports success.
pub proof fn law_results_agree_with_the_shutdown(
    s: ServerState,
    connection: ServedState,
    result: ConnectionServeResult,
)
    requires
        s.sound(),
        connection.end != ConnectionServeEnd::Shutdown,
        connection::ended(s.runtime, s.shared, connection, result),
    ensures
        result.end == ConnectionServeEnd::Shutdown <==> s.shared.close_flag,
        !s.shared.close_flag ==> result.end == connection.end && result.drained,
        !result.drained <==> s.shared.close_flag && !s.runtime.drained,
        s.runtime.outcome == Some(true) ==> result.end == ConnectionServeEnd::Shutdown
            && result.drained,
{
}

/// A slot that is given back is one connection less, for its peer and no other.
/// The peer is announced as gone, under its name, exactly with the last one, and
/// nothing else changes.
pub proof fn law_slots_are_given_back_one_by_one(
    before: RuntimeState,
    shared_before: ServeShared,
    peer: Seq<u8>,
    peer_id: Seq<char>,
    event: Option<ConnectionEvent>,
    after: RuntimeState,
    shared_after: ServeShared,
)
    requires
        before.admission.held.count(peer) > 0,
        shared_before.connections > 0,
        connection::released(
            before,
            shared_before,
            peer,
            peer_id,
            event,
            after,
            shared_after,
        ),
    ensures
        shared_after.connections + 1 == shared_before.connections,
        after.admission.held.count(peer) + 1 == before.admission.held.count(peer),
        forall|other: Seq<u8>|
            other != peer ==> #[trigger] after.admission.held.count(other)
                == before.admission.held.count(other),
        event is Some <==> after.admission.held.count(peer) == 0,
        event matches Some(e) ==> e.peer_id@ == peer_id && !e.connected,
        shared_after.requests == shared_before.requests,
        shared_after.close_flag == shared_before.close_flag,
        after == (RuntimeState { admission: after.admission, ..before }),
        after.admission.max_per_peer == before.admission.max_per_peer,
        after.admission.max_total == before.admission.max_total,
{
}

} // verus!
