//! What holds of a server through every sequence of moves.
//!
//! Each move is what one call does to the shared state, as that call's contract
//! has it. The proofs here follow the state through any number of them, in any
//! order in which the calls can come.

use vstd::prelude::*;

use crate::bindings;
use crate::connection;
use crate::connection::{
    Admitted, SelectEvent, SelectOutcome, ShutdownDrain, ShutdownStart, ShutdownStep,
};
use crate::identity::Refusal;
use crate::lifecycle::ConnectionAdmissionError;
use crate::state::{ConnectionServeEnd, DrainStage, RuntimeState, ServeShared, ServedState};

verus! {

/// The state of one server: its runtime, what it shares, and how far a shutdown
/// in progress has come.
pub struct ServerState {
    /// The runtime.
    pub runtime: RuntimeState,
    /// What it shares.
    pub shared: ServeShared,
    /// What a shutdown waits for, once one has begun.
    pub stage: Option<DrainStage>,
}

/// One move of a server.
pub enum ServerMove {
    /// A connection of this peer asks to be served.
    Connect(Seq<u8>),
    /// A connection of this peer gives its slot back.
    Disconnect(Seq<u8>),
    /// A stream comes.
    TakeStream,
    /// A request task ends its processing.
    EndRequest,
    /// A request task ends its delivery.
    EndDelivery,
    /// Shutdown is called for.
    BeginShutdown,
    /// The wait for deliveries ends, by their end or by the deadline.
    SettleDeliveries,
    /// The wait for connections ends, by their end or by the deadline.
    SettleConnections,
    /// Connections are to be closed without a drain.
    Close,
}

impl ServerMove {
    /// Whether the move can come in that state: a slot is given back only where
    /// one is held, a stream is counted only while the counters can count it,
    /// and a wait ends only while it is on.
    pub open spec fn possible(self, s: ServerState) -> bool {
        match self {
            ServerMove::Disconnect(peer) => s.runtime.admission.held.count(peer) > 0,
            ServerMove::TakeStream => s.shared.requests < usize::MAX && s.runtime.deliveries
                < usize::MAX,
            ServerMove::EndRequest => s.shared.requests > 0,
            ServerMove::EndDelivery => s.runtime.deliveries > 0,
            ServerMove::SettleDeliveries => s.stage == Some(DrainStage::Deliveries)
                && s.runtime.outcome is None,
            ServerMove::SettleConnections => (s.stage matches Some(stage) && stage is Connections)
                && s.runtime.outcome is None,
            _ => true,
        }
    }

    /// The state that the move leads to.
    pub open spec fn apply(self, s: ServerState) -> ServerState {
        match self {
            ServerMove::Connect(peer) => if s.runtime.admission.verdict(
                s.shared.connections,
                peer,
            ) is Ok {
                ServerState {
                    runtime: s.runtime.connect(peer),
                    shared: s.shared.connect(),
                    ..s
                }
            } else {
                s
            },
            ServerMove::Disconnect(peer) => ServerState {
                runtime: s.runtime.disconnect(peer),
                shared: s.shared.disconnect(),
                ..s
            },
            ServerMove::TakeStream => if s.runtime.stopped {
                s
            } else {
                ServerState {
                    runtime: s.runtime.start_delivery(),
                    shared: s.shared.start_request(),
                    ..s
                }
            },
            ServerMove::EndRequest => ServerState { shared: s.shared.end_request(), ..s },
            ServerMove::EndDelivery => ServerState { runtime: s.runtime.end_delivery(), ..s },
            ServerMove::BeginShutdown => if s.runtime.outcome is Some {
                s
            } else {
                ServerState {
                    runtime: s.runtime.stop(),
                    stage: Some(DrainStage::Deliveries),
                    ..s
                }
            },
            ServerMove::SettleDeliveries => ServerState {
                runtime: s.runtime.settle_deliveries(),
                shared: s.shared.close(),
                stage: Some(
                    DrainStage::Connections { drained: s.runtime.deliveries == 0 },
                ),
            },
            ServerMove::SettleConnections => ServerState {
                runtime: s.runtime.settle(
                    s.stage == Some(DrainStage::Connections { drained: true })
                        && s.shared.connections == 0,
                ),
                ..s
            },
            ServerMove::Close => ServerState { shared: s.shared.close(), ..s },
        }
    }
}

/// Whether each of `moves` can come in its turn.
pub open spec fn possible(s: ServerState, moves: Seq<ServerMove>) -> bool
    decreases moves.len(),
{
    moves.len() == 0 || {
        &&& moves[0].possible(s)
        &&& possible(moves[0].apply(s), moves.drop_first())
    }
}

/// The state that `moves` lead to.
pub open spec fn run(s: ServerState, moves: Seq<ServerMove>) -> ServerState
    decreases moves.len(),
{
    if moves.len() == 0 {
        s
    } else {
        run(moves[0].apply(s), moves.drop_first())
    }
}

impl ServerState {
    /// A server that has just been built with those options and that
    /// concurrency layer, next to other users of the shared counters.
    pub open spec fn fresh(
        options: crate::options::ConnectionServeOptions,
        layer: tower::limit::GlobalConcurrencyLimitLayer,
        shared: ServeShared,
    ) -> ServerState {
        ServerState { runtime: RuntimeState::fresh(options, layer), shared, stage: None }
    }

    /// Connections that are counted but held elsewhere.
    pub open spec fn foreign(self) -> int {
        self.shared.connections - self.runtime.admission.held.len()
    }

    /// What every reachable state has in common: the limits are kept, every
    /// held connection is counted, a shutdown that has returned, with whatever
    /// result, has turned streams away and told connections to close, and
    /// whatever says that the drain succeeded is true.
    pub open spec fn sound(self) -> bool {
        &&& self.runtime.valid()
        &&& self.foreign() >= 0
        &&& self.stage is Some ==> self.runtime.stopped
        &&& self.runtime.drained ==> self.runtime.stopped && self.runtime.deliveries == 0
        &&& self.stage matches Some(DrainStage::Connections { drained }) ==> {
            &&& self.runtime.drained == drained
            &&& self.shared.close_flag
        }
        &&& self.runtime.outcome is Some ==> {
            &&& self.runtime.stopped
            &&& self.shared.close_flag
            &&& self.stage matches Some(DrainStage::Connections { .. })
        }
        &&& self.runtime.outcome == Some(true) ==> self.runtime.drained
    }
}

proof fn lemma_move(s: ServerState, m: ServerMove)
    requires
        s.sound(),
        m.possible(s),
    ensures
        m.apply(s).sound(),
        m.apply(s).foreign() == s.foreign(),
        m.apply(s).runtime.options == s.runtime.options,
        m.apply(s).runtime.layer == s.runtime.layer,
        m.apply(s).shared.connections <= s.shared.connections || m.apply(s).shared.connections
            <= s.runtime.options.max_total_connections,
        s.runtime.stopped ==> {
            &&& m.apply(s).runtime.stopped
            &&& m.apply(s).runtime.deliveries <= s.runtime.deliveries
            &&& m.apply(s).shared.requests <= s.shared.requests
        },
        s.shared.close_flag ==> m.apply(s).shared.close_flag,
        s.runtime.outcome is Some ==> {
            &&& m.apply(s).runtime.outcome == s.runtime.outcome
            &&& m.apply(s).runtime.drained == s.runtime.drained
        },
{
    let held = s.runtime.admission.held;
    let t = m.apply(s);
    match m {
        ServerMove::Connect(peer) => {
            assert(held.insert(peer).len() == held.len() + 1);
            assert forall|other: Seq<u8>| #[trigger]
                t.runtime.admission.held.count(other) <= s.runtime.admission.max_per_peer by {
                assert(held.count(other) <= s.runtime.admission.max_per_peer);
            }
        },
        ServerMove::Disconnect(peer) => {
            assert(held.count(peer) <= held.len());
            assert(held.remove(peer).len() == held.len() - 1);
            assert forall|other: Seq<u8>| #[trigger]
                t.runtime.admission.held.count(other) <= s.runtime.admission.max_per_peer by {
                assert(held.count(other) <= s.runtime.admission.max_per_peer);
            }
        },
        _ => {},
    }
}

/// A server that starts sound stays sound: through every sequence of moves no
/// peer holds more connections than its bound, the limits in force are those of
/// the validated options, and a drain that is called successful has left no
/// delivery behind.
pub proof fn law_server_stays_sound(s: ServerState, moves: Seq<ServerMove>)
    requires
        s.sound(),
        possible(s, moves),
    ensures
        run(s, moves).sound(),
        run(s, moves).runtime.options == s.runtime.options,
    decreases moves.len(),
{
    if moves.len() > 0 {
        lemma_move(s, moves[0]);
        law_server_stays_sound(moves[0].apply(s), moves.drop_first());
    }
}

/// A server that was built from valid options, with a concurrency layer of as
/// many permits as they say, is sound.
pub proof fn law_fresh_server_is_sound(
    options: crate::options::ConnectionServeOptions,
    layer: tower::limit::GlobalConcurrencyLimitLayer,
    shared: ServeShared,
)
    requires
        options.valid(),
        bindings::layer_permits(layer) == options.max_concurrency,
    ensures
        ServerState::fresh(options, layer, shared).sound(),
{
}

/// The total bound holds: a count of open connections that is within it stays
/// within it, and connections that are counted but held elsewhere are never
/// given back here.
pub proof fn law_total_bound(s: ServerState, moves: Seq<ServerMove>)
    requires
        s.sound(),
        possible(s, moves),
        s.shared.connections <= s.runtime.options.max_total_connections,
    ensures
        run(s, moves).shared.connections <= s.runtime.options.max_total_connections,
        run(s, moves).foreign() == s.foreign(),
    decreases moves.len(),
{
    if moves.len() > 0 {
        lemma_move(s, moves[0]);
        law_total_bound(moves[0].apply(s), moves.drop_first());
    }
}

/// After the stop no stream is counted: from then on the numbers of deliveries
/// and of requests only fall, so a drain that has seen zero deliveries has seen
/// the last of them.
pub proof fn law_no_stream_after_stop(s: ServerState, moves: Seq<ServerMove>)
    requires
        s.sound(),
        possible(s, moves),
        s.runtime.stopped,
    ensures
        run(s, moves).runtime.stopped,
        run(s, moves).runtime.deliveries <= s.runtime.deliveries,
        run(s, moves).shared.requests <= s.shared.requests,
    decreases moves.len(),
{
    if moves.len() > 0 {
        lemma_move(s, moves[0]);
        law_no_stream_after_stop(moves[0].apply(s), moves.drop_first());
    }
}

/// Closing is for good, and what shutdown has returned is returned ever after.
/// So is whether deliveries drained, which every later result of a connection
/// reports.
pub proof fn law_shutdown_is_final(s: ServerState, moves: Seq<ServerMove>)
    requires
        s.sound(),
        possible(s, moves),
    ensures
        s.shared.close_flag ==> run(s, moves).shared.close_flag,
        s.runtime.outcome is Some ==> run(s, moves).runtime.outcome == s.runtime.outcome,
        s.runtime.outcome is Some ==> run(s, moves).runtime.drained == s.runtime.drained,
    decreases moves.len(),
{
    if moves.len() > 0 {
        lemma_move(s, moves[0]);
        law_shutdown_is_final(moves[0].apply(s), moves.drop_first());
    }
}

/// All connections of a server share one concurrency limit: through every
/// sequence of moves, and at every point of it, the layer they are served under
/// is the one that the server started with, with as many permits as the options
/// say.
pub proof fn law_one_concurrency_limit(s: ServerState, moves: Seq<ServerMove>)
    requires
        s.sound(),
        possible(s, moves),
    ensures
        forall|i: int|
            0 <= i <= moves.len() ==> (#[trigger] run(s, moves.take(i))).runtime.layer
                == s.runtime.layer,
        bindings::layer_permits(s.runtime.layer) == s.runtime.options.max_concurrency,
    decreases moves.len(),
{
    if moves.len() > 0 {
        let rest = moves.drop_first();
        lemma_move(s, moves[0]);
        law_one_concurrency_limit(moves[0].apply(s), rest);
        assert forall|i: int| 0 <= i <= moves.len() implies (#[trigger] run(
            s,
            moves.take(i),
        )).runtime.layer == s.runtime.layer by {
            if i > 0 {
                assert(moves.take(i).drop_first() =~= rest.take(i - 1));
                assert(run(s, moves.take(i)) == run(moves[0].apply(s), rest.take(i - 1)));
            }
        }
    }
}

/// Whether each of `moves` can come in its turn, where those marked `true` are
/// moves of the server `a` and the others of the server `b`.
pub open spec fn both_possible(
    a: ServerState,
    b: ServerState,
    moves: Seq<(bool, ServerMove)>,
) -> bool
    decreases moves.len(),
{
    moves.len() == 0 || {
        let (first, m) = moves[0];
        if first {
            m.possible(a) && both_possible(m.apply(a), b, moves.drop_first())
        } else {
            m.possible(b) && both_possible(a, m.apply(b), moves.drop_first())
        }
    }
}

/// The states that `moves` of two servers lead to.
pub open spec fn run_both(
    a: ServerState,
    b: ServerState,
    moves: Seq<(bool, ServerMove)>,
) -> (ServerState, ServerState)
    decreases moves.len(),
{
    if moves.len() == 0 {
        (a, b)
    } else {
        let (first, m) = moves[0];
        if first {
            run_both(m.apply(a), b, moves.drop_first())
        } else {
            run_both(a, m.apply(b), moves.drop_first())
        }
    }
}

/// The moves of one of two servers, in order.
pub open spec fn moves_of(moves: Seq<(bool, ServerMove)>, first: bool) -> Seq<ServerMove>
    decreases moves.len(),
{
    if moves.len() == 0 {
        Seq::empty()
    } else if moves[0].0 == first {
        seq![moves[0].1] + moves_of(moves.drop_first(), first)
    } else {
        moves_of(moves.drop_first(), first)
    }
}

/// Two servers, each with shared state of its own, do not meet: however their
/// moves are mixed, each can move, and ends, as it would alone. Connections and
/// requests of one are never counted by the other, and shutting one down does
/// not stop the other.
pub proof fn law_servers_are_independent(
    a: ServerState,
    b: ServerState,
    moves: Seq<(bool, ServerMove)>,
)
    ensures
        both_possible(a, b, moves) <==> possible(a, moves_of(moves, true)) && possible(
            b,
            moves_of(moves, false),
        ),
        run_both(a, b, moves) == (
            run(a, moves_of(moves, true)),
            run(b, moves_of(moves, false)),
        ),
    decreases moves.len(),
{
    if moves.len() > 0 {
        let (first, m) = moves[0];
        let rest = moves.drop_first();
        if first {
            law_servers_are_independent(m.apply(a), b, rest);
        } else {
            law_servers_are_independent(a, m.apply(b), rest);
        }
        let own = moves_of(moves, first);
        assert(own[0] == m);
        assert(own.drop_first() =~= moves_of(rest, first));
    }
}

/// A connection that is admitted and given back leaves no trace.
pub proof fn law_disconnect_undoes_connect(s: ServerState, peer: Seq<u8>)
    requires
        s.runtime.valid(),
        s.runtime.admission.verdict(s.shared.connections, peer) is Ok,
    ensures
        ServerMove::Disconnect(peer).apply(ServerMove::Connect(peer).apply(s)) == s,
{
    let held = s.runtime.admission.held;
    let listed = s.runtime.admission.listed;
    assert(held.insert(peer).remove(peer) =~= held);
    assert(listed.contains(peer) <==> held.count(peer) > 0);
    if held.count(peer) > 0 {
        assert(listed.insert(peer) =~= listed);
    } else {
        assert(listed.insert(peer).remove(peer) =~= listed);
    }
}

/// A stream that is counted and whose request ends leaves no trace.
pub proof fn law_request_returns_its_slots(s: ServerState)
    requires
        !s.runtime.stopped,
    ensures
        ServerMove::EndDelivery.apply(
            ServerMove::EndRequest.apply(ServerMove::TakeStream.apply(s)),
        ) == s,
{
}

/// A refused connection changes nothing, and the bound that is named is full.
pub proof fn law_refusal_changes_nothing(s: ServerState, peer: Seq<u8>)
    requires
        s.sound(),
        s.runtime.admission.verdict(s.shared.connections, peer) is Err,
    ensures
        ServerMove::Connect(peer).apply(s) == s,
        match s.runtime.admission.verdict(s.shared.connections, peer)->Err_0 {
            ConnectionAdmissionError::Total => s.shared.connections
                >= s.runtime.options.max_total_connections,
            ConnectionAdmissionError::Peer => s.runtime.admission.held.count(peer)
                == s.runtime.options.max_connections_per_peer,
        },
{
    assert(s.runtime.admission.held.count(peer) <= s.runtime.admission.max_per_peer);
}

/// How often `peer` is announced as connected, less how often as disconnected,
/// while `moves` come.
pub open spec fn announced(s: ServerState, moves: Seq<ServerMove>, peer: Seq<u8>) -> int
    decreases moves.len(),
{
    if moves.len() == 0 {
        0
    } else {
        let held = s.runtime.admission.held.count(peer);
        let now: int = if moves[0] == ServerMove::Connect(peer) && s.runtime.admission.verdict(
            s.shared.connections,
            peer,
        ) is Ok && held == 0 {
            1
        } else if moves[0] == ServerMove::Disconnect(peer) && held == 1 {
            -1
        } else {
            0
        };
        now + announced(moves[0].apply(s), moves.drop_first(), peer)
    }
}

/// Announcements tell who is connected: they come with the first connection of
/// a peer and with the end of its last, so the two kinds take turns, and what
/// they add up to is whether the peer holds a connection.
pub proof fn law_announcements_match_presence(
    s: ServerState,
    moves: Seq<ServerMove>,
    peer: Seq<u8>,
)
    requires
        possible(s, moves),
    ensures
        announced(s, moves, peer) == (if run(s, moves).runtime.admission.held.count(peer) > 0 {
            1int
        } else {
            0
        }) - (if s.runtime.admission.held.count(peer) > 0 {
            1int
        } else {
            0
        }),
    decreases moves.len(),
{
    if moves.len() > 0 {
        law_announcements_match_presence(moves[0].apply(s), moves.drop_first(), peer);
    }
}

/// Asking for a connection to be served is the move of its peer connecting.
pub proof fn law_admission_is_a_move(
    before: ServerState,
    peer: Seq<u8>,
    peer_id: Seq<char>,
    taken: Result<Admitted, Refusal>,
    after: ServerState,
)
    requires
        connection::admission_outcome(
            before.runtime,
            before.shared,
            peer,
            peer_id,
            taken,
            after.runtime,
            after.shared,
        ),
        after.stage == before.stage,
    ensures
        after == ServerMove::Connect(peer).apply(before),
{
}

/// Calling for shutdown is the move that begins it.
pub proof fn law_shutdown_begins_by_a_move(
    before: ServerState,
    now: nat,
    reached: bool,
    start: ShutdownStart,
    after: ServerState,
)
    requires
        connection::shutdown_began(before.runtime, now, reached, start, after.runtime),
        after.shared == before.shared,
        after.stage == match start {
            ShutdownStart::Draining(drain) => Some(drain.stage()),
            ShutdownStart::Finished(_) => before.stage,
        },
    ensures
        after == ServerMove::BeginShutdown.apply(before),
{
}

/// A look of a shutdown changes nothing, or is the move that ends the wait it
/// is in.
pub proof fn law_shutdown_looks_are_moves(
    before: ServerState,
    drain: ShutdownDrain,
    now: nat,
    step: ShutdownStep,
    after: ServerState,
    drain_after: ShutdownDrain,
)
    requires
        before.stage == Some(drain.stage()),
        after.stage == Some(drain_after.stage()),
        connection::shutdown_looked(
            before.runtime,
            before.shared,
            drain,
            now,
            step,
            after.runtime,
            after.shared,
            drain_after,
        ),
    ensures
        after == before || {
            &&& ServerMove::SettleDeliveries.possible(before)
            &&& after == ServerMove::SettleDeliveries.apply(before)
        } || {
            &&& ServerMove::SettleConnections.possible(before)
            &&& after == ServerMove::SettleConnections.apply(before)
        },
{
}

/// Shutdown returns `true` only if no response is left undelivered, now or
/// later, and no connection is open. It returns `false` only if deliveries were
/// given up on or connections are open at the deadline.
pub proof fn law_shutdown_tells_the_truth(
    before: ServerState,
    drain: ShutdownDrain,
    now: nat,
    outcome: bool,
    after: ServerState,
    drain_after: ShutdownDrain,
)
    requires
        before.sound(),
        before.runtime.outcome is None,
        before.stage == Some(drain.stage()),
        after.stage == Some(drain_after.stage()),
        connection::shutdown_looked(
            before.runtime,
            before.shared,
            drain,
            now,
            ShutdownStep::Finished(outcome),
            after.runtime,
            after.shared,
            drain_after,
        ),
    ensures
        after.sound(),
        outcome ==> {
            &&& after.runtime.deliveries == 0
            &&& after.shared.connections == 0
            &&& after.runtime.admission.held.len() == 0
            &&& forall|moves: Seq<ServerMove>| #[trigger]
                possible(after, moves) ==> run(after, moves).runtime.deliveries == 0
        },
        !outcome ==> !after.runtime.drained || {
            &&& after.shared.connections > 0
            &&& drain.deadline() <= now
        },
{
    assert(after == ServerMove::SettleConnections.apply(before));
    lemma_move(before, ServerMove::SettleConnections);
    if outcome {
        assert forall|moves: Seq<ServerMove>| #[trigger] possible(after, moves) implies run(
            after,
            moves,
        ).runtime.deliveries == 0 by {
            law_no_stream_after_stop(after, moves);
        }
    }
}

/// One look of a shutdown, from a server state to the next.
pub open spec fn looks(
    before: ServerState,
    drain: ShutdownDrain,
    now: nat,
    step: ShutdownStep,
    after: ServerState,
    drain_after: ShutdownDrain,
) -> bool {
    connection::shutdown_looked(
        before.runtime,
        before.shared,
        drain,
        now,
        step,
        after.runtime,
        after.shared,
        drain_after,
    )
}

/// Shutdown does not outlast its deadline: of two looks at or after it, whatever
/// moves come between them, the second is the last, and neither asks to wait.
pub proof fn law_shutdown_ends_at_the_deadline(
    before: ServerState,
    middle: ServerState,
    moves: Seq<ServerMove>,
    after: ServerState,
    drains: (ShutdownDrain, ShutdownDrain, ShutdownDrain),
    times: (nat, nat),
    steps: (ShutdownStep, ShutdownStep),
)
    requires
        drains.0.deadline() <= times.0,
        drains.0.deadline() <= times.1,
        looks(before, drains.0, times.0, steps.0, middle, drains.1),
        middle.sound(),
        possible(middle, moves),
        looks(run(middle, moves), drains.1, times.1, steps.1, after, drains.2),
    ensures
        steps.0 is NotifyClose || steps.0 is Finished,
        steps.1 is Finished,
{
    law_shutdown_is_final(middle, moves);
}

/// Shutdown with nothing in flight succeeds at once, whatever the time: a look
/// with no delivery left and a later one with no connection open, whatever moves
/// come between them, and neither asks to wait.
pub proof fn law_idle_shutdown_succeeds(
    before: ServerState,
    middle: ServerState,
    moves: Seq<ServerMove>,
    after: ServerState,
    drains: (ShutdownDrain, ShutdownDrain, ShutdownDrain),
    times: (nat, nat),
    steps: (ShutdownStep, ShutdownStep),
)
    requires
        before.runtime.outcome is None,
        before.runtime.deliveries == 0,
        drains.0.stage() == DrainStage::Deliveries,
        looks(before, drains.0, times.0, steps.0, middle, drains.1),
        run(middle, moves).runtime.outcome is None,
        run(middle, moves).shared.connections == 0,
        looks(run(middle, moves), drains.1, times.1, steps.1, after, drains.2),
    ensures
        steps.0 == ShutdownStep::NotifyClose,
        steps.1 == ShutdownStep::Finished(true),
        after.runtime.outcome == Some(true),
{
}

/// One move of a served connection.
pub enum ConnectionMove {
    /// A stream becomes a request task.
    StartRequest,
    /// A request task is joined.
    JoinRequest,
    /// No more streams are taken.
    Leave,
    /// No more streams are taken, because none came in time.
    LeaveIdle,
}

impl ConnectionMove {
    /// Whether the move can come in that state.
    pub open spec fn possible(self, c: ServedState) -> bool {
        match self {
            ConnectionMove::StartRequest => c.accepting,
            ConnectionMove::JoinRequest => c.requests > 0,
            ConnectionMove::Leave => c.accepting,
            ConnectionMove::LeaveIdle => c.accepting && c.requests == 0,
        }
    }

    /// The state that the move leads to.
    pub open spec fn apply(self, c: ServedState) -> ServedState {
        match self {
            ConnectionMove::StartRequest => c.start_request(),
            ConnectionMove::JoinRequest => c.join_request(),
            ConnectionMove::Leave => c.leave(),
            ConnectionMove::LeaveIdle => c.leave_idle(),
        }
    }
}

/// Whether each of `moves` can come in its turn.
pub open spec fn connection_possible(c: ServedState, moves: Seq<ConnectionMove>) -> bool
    decreases moves.len(),
{
    moves.len() == 0 || {
        &&& moves[0].possible(c)
        &&& connection_possible(moves[0].apply(c), moves.drop_first())
    }
}

/// The state that `moves` lead to.
pub open spec fn connection_run(c: ServedState, moves: Seq<ConnectionMove>) -> ServedState
    decreases moves.len(),
{
    if moves.len() == 0 {
        c
    } else {
        connection_run(moves[0].apply(c), moves.drop_first())
    }
}

/// What a connection does about an event is a move of the server only where a
/// stream came, and at most one move of the connection.
pub proof fn law_selection_is_a_move(
    before: ServerState,
    connection_before: ServedState,
    event: SelectEvent,
    outcome: SelectOutcome,
    after: ServerState,
    connection_after: ServedState,
)
    requires
        event.awaited(connection_before),
        connection::selected(
            before.runtime,
            before.shared,
            connection_before,
            event,
            outcome,
            after.runtime,
            after.shared,
            connection_after,
        ),
        after.stage == before.stage,
    ensures
        after == if event is StreamAccepted {
            ServerMove::TakeStream.apply(before)
        } else {
            before
        },
        connection_after == connection_before || exists|m: ConnectionMove|
            m.possible(connection_before) && connection_after == #[trigger] m.apply(
                connection_before,
            ),
{
    let m = match event {
        SelectEvent::RequestJoined(_) => ConnectionMove::JoinRequest,
        SelectEvent::StreamsEnded => ConnectionMove::Leave,
        SelectEvent::Idle => ConnectionMove::LeaveIdle,
        _ => ConnectionMove::StartRequest,
    };
    assert(m.possible(connection_before));
    assert(connection_after == connection_before || connection_after == m.apply(
        connection_before,
    ));
}

/// How often `wanted` occurs in `moves`.
pub open spec fn occurrences(moves: Seq<ConnectionMove>, wanted: ConnectionMove) -> nat
    decreases moves.len(),
{
    if moves.len() == 0 {
        0
    } else {
        occurrences(moves.drop_first(), wanted) + if moves[0] == wanted {
            1nat
        } else {
            0
        }
    }
}

/// A connection answers for every request task it started: what runs is what
/// was started and not joined. It ends for idleness only with no task running,
/// and once it takes no more streams it starts no more tasks.
pub proof fn law_connection_answers_for_requests(c: ServedState, moves: Seq<ConnectionMove>)
    requires
        connection_possible(c, moves),
        c.end == ConnectionServeEnd::IdleTimeout ==> !c.accepting && c.requests == 0,
    ensures
        ({
            let d = connection_run(c, moves);
            let started = occurrences(moves, ConnectionMove::StartRequest);
            &&& d.requests == c.requests + started - occurrences(
                moves,
                ConnectionMove::JoinRequest,
            )
            &&& d.end == ConnectionServeEnd::IdleTimeout ==> !d.accepting && d.requests == 0
            &&& !c.accepting ==> !d.accepting && started == 0
        }),
    decreases moves.len(),
{
    if moves.len() > 0 {
        law_connection_answers_for_requests(moves[0].apply(c), moves.drop_first());
    }
}

} // verus!
