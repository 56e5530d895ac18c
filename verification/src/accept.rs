//! Whole-endpoint accept loop.
//!
//! The loop takes connections until it is told to stop or the endpoint closes,
//! then shuts the runtime down, and says once that it is done.

use vstd::prelude::*;

use crate::base32;
use crate::connection::ConnectionServeRuntime;
use crate::error::ConnectionServeError;
use crate::identity;
use crate::identity::{validate_http_connection, EndpointId, Refusal, ValidatedRemoteIdentity};
use crate::options::ConnectionServeOptions;
use crate::state::RuntimeState;

verus! {

/// What the accept loop is started with.
#[derive(Clone, Copy, Debug)]
pub struct AcceptConfig {
    /// How each connection is served.
    pub connection: ConnectionServeOptions,
}

/// Where the accept loop stands.
#[derive(Clone, Copy, Debug, PartialEq, Eq, Structural)]
pub enum AcceptPhase {
    /// Connections are taken.
    Accepting,
    /// The runtime is shutting down.
    Draining,
    /// Over.
    Done,
}

/// What the accept loop was woken by.
#[derive(Debug)]
pub enum AcceptEvent {
    /// The loop is told to stop. This is looked at before new connections.
    ShutdownRequested,
    /// The endpoint is closed and yields no more connections.
    EndpointClosed,
    /// A connection failed its handshake.
    HandshakeFailed,
    /// A connection completed its handshake.
    Connected {
        /// The protocol name it negotiated.
        negotiated: Vec<u8>,
        /// The peer it authenticated.
        remote_id: EndpointId,
    },
    /// Shutdown of the runtime is over, with this result.
    Drained(bool),
}

impl AcceptEvent {
    /// Whether the loop waits for this event in that phase.
    pub open spec fn awaited(self, phase: AcceptPhase) -> bool {
        match self {
            AcceptEvent::Drained(_) => phase == AcceptPhase::Draining,
            _ => phase == AcceptPhase::Accepting,
        }
    }

    /// Whether no connection is taken after this event.
    pub open spec fn stops(self) -> bool {
        self is ShutdownRequested || self is EndpointClosed
    }

    /// The phase that follows `phase` by this event.
    pub open spec fn leads_to(self, phase: AcceptPhase) -> AcceptPhase {
        if self.stops() {
            AcceptPhase::Draining
        } else if self is Drained {
            AcceptPhase::Done
        } else {
            phase
        }
    }
}

/// What the accept loop does about an event.
#[derive(Debug)]
pub enum AcceptAction {
    /// Go on to the next connection.
    Accept,
    /// Close the connection and go on to the next.
    Reject(Refusal),
    /// Serve the connection in a task of its own and go on to the next.
    Serve(ValidatedRemoteIdentity),
    /// Shut the runtime down.
    Shutdown {
        /// First tell the endpoint's owner that it is closed.
        endpoint_closed: bool,
    },
    /// Signal that serving is over.
    Done {
        /// Whether everything drained in time.
        drained: bool,
    },
}

/// How an accept loop starts.
pub enum AcceptStart {
    /// The options cannot be enforced: signal at once that serving is over.
    Refused(ConnectionServeError),
    /// Connections are taken, and served by this runtime.
    Running(AcceptLoop, ConnectionServeRuntime),
}

/// The accept loop of one serve cycle. Its view is where it stands.
#[derive(Debug)]
pub struct AcceptLoop {
    phase: AcceptPhase,
}

impl View for AcceptLoop {
    type V = AcceptPhase;

    closed spec fn view(&self) -> AcceptPhase {
        self.phase
    }
}

/// Start the accept loop of a serve cycle.
pub fn accept_loop(cfg: AcceptConfig) -> (start: AcceptStart)
    ensures
        match start {
            AcceptStart::Running(accept, runtime) => {
                &&& cfg.connection.valid()
                &&& accept@ == AcceptPhase::Accepting
                &&& runtime.wf()
                &&& runtime@ == RuntimeState::fresh(cfg.connection, runtime@.layer)
                &&& runtime@.options == cfg.connection
            },
            AcceptStart::Refused(error) => {
                &&& !cfg.connection.valid()
                &&& error matches ConnectionServeError::InvalidOptions { option, reason }
                &&& cfg.connection.first_fault() == Some((option@, reason@))
            },
        },
{
    match ConnectionServeRuntime::with_runtime_state(cfg.connection) {
        Ok(runtime) => AcceptStart::Running(
            AcceptLoop { phase: AcceptPhase::Accepting },
            runtime,
        ),
        Err(error) => AcceptStart::Refused(error),
    }
}

/// What the loop does about an event, where `expected` is the protocol that is
/// served.
pub open spec fn reacted(event: AcceptEvent, expected: Seq<u8>, action: AcceptAction) -> bool {
    match event {
        AcceptEvent::ShutdownRequested => action == (AcceptAction::Shutdown {
            endpoint_closed: false,
        }),
        AcceptEvent::EndpointClosed => action == (AcceptAction::Shutdown {
            endpoint_closed: true,
        }),
        AcceptEvent::HandshakeFailed => action is Accept,
        AcceptEvent::Connected { negotiated, remote_id } => if negotiated@ == expected {
            &&& action matches AcceptAction::Serve(peer)
            &&& peer.endpoint_id == remote_id
            &&& peer.legacy_node_id@ == base32::encoded(remote_id@)
        } else {
            &&& action matches AcceptAction::Reject(refusal)
            &&& refusal.error matches ConnectionServeError::UnexpectedAlpn { actual }
            &&& actual@ == negotiated@
            &&& identity::closes_with(refusal.close, "unexpected ALPN"@)
        },
        AcceptEvent::Drained(drained) => action == (AcceptAction::Done { drained }),
    }
}

impl AcceptLoop {
    /// React to what woke the loop. `expected` is the protocol that is served.
    pub fn on_event(&mut self, event: AcceptEvent, expected: &[u8]) -> (action: AcceptAction)
        requires
            event.awaited(old(self)@),
        ensures
            final(self)@ == event.leads_to(old(self)@),
            event is ShutdownRequested || event is EndpointClosed ==> final(self)@
                == AcceptPhase::Draining,
            event is HandshakeFailed || event is Connected ==> final(self)@ == old(self)@,
            event is Drained ==> final(self)@ == AcceptPhase::Done,
            reacted(event, expected@, action),
    {
        match event {
            AcceptEvent::ShutdownRequested => {
                self.phase = AcceptPhase::Draining;
                AcceptAction::Shutdown { endpoint_closed: false }
            },
            AcceptEvent::EndpointClosed => {
                self.phase = AcceptPhase::Draining;
                AcceptAction::Shutdown { endpoint_closed: true }
            },
            AcceptEvent::HandshakeFailed => AcceptAction::Accept,
            AcceptEvent::Connected { negotiated, remote_id } => {
                match validate_http_connection(negotiated.as_slice(), expected, remote_id) {
                    Ok(peer) => AcceptAction::Serve(peer),
                    Err(refusal) => AcceptAction::Reject(refusal),
                }
            },
            AcceptEvent::Drained(drained) => {
                self.phase = AcceptPhase::Done;
                AcceptAction::Done { drained }
            },
        }
    }
}

/// Whether a loop that starts in `phase` waits for each of `events` in turn.
pub open spec fn follows(phase: AcceptPhase, events: Seq<AcceptEvent>) -> bool
    decreases events.len(),
{
    events.len() == 0 || {
        &&& events[0].awaited(phase)
        &&& follows(events[0].leads_to(phase), events.drop_first())
    }
}

/// Where a loop that starts in `phase` stands after `events`.
pub open spec fn reaches(phase: AcceptPhase, events: Seq<AcceptEvent>) -> AcceptPhase
    decreases events.len(),
{
    if events.len() == 0 {
        phase
    } else {
        reaches(events[0].leads_to(phase), events.drop_first())
    }
}

/// Once the loop drains, the only event left to it is the end of the drain, and
/// that is its last.
proof fn lemma_draining_ends(events: Seq<AcceptEvent>)
    requires
        follows(AcceptPhase::Draining, events),
    ensures
        events.len() <= 1,
        events.len() == 1 ==> events[0] is Drained,
        reaches(AcceptPhase::Draining, events) == if events.len() == 0 {
            AcceptPhase::Draining
        } else {
            AcceptPhase::Done
        },
{
    reveal_with_fuel(follows, 3);
    reveal_with_fuel(reaches, 3);
    if events.len() > 0 {
        let rest = events.drop_first();
        if rest.len() > 0 {
            assert(rest[0].awaited(AcceptPhase::Done));
        }
    }
}

/// In every run of the loop, serving is signalled to be over at most once and
/// with nothing after it, and only as the answer to the shutdown that a stop
/// right before it began. Nothing but the end of that shutdown follows a stop.
pub proof fn law_done_follows_shutdown(events: Seq<AcceptEvent>)
    requires
        follows(AcceptPhase::Accepting, events),
    ensures
        reaches(AcceptPhase::Accepting, events) == AcceptPhase::Done <==> {
            &&& events.len() >= 2
            &&& events[events.len() - 2].stops()
            &&& events[events.len() - 1] is Drained
        },
        forall|i: int|
            0 <= i < events.len() && #[trigger] events[i].stops() ==> events.len() <= i + 2 && (i
                + 1 < events.len() ==> events[i + 1] is Drained),
        forall|i: int|
            0 <= i < events.len() && #[trigger] events[i] is Drained ==> i == events.len() - 1,
    decreases events.len(),
{
    if events.len() > 0 {
        let rest = events.drop_first();
        if events[0].stops() {
            lemma_draining_ends(rest);
            if rest.len() == 1 {
                assert(rest[0] == events[1]);
            }
        } else {
            law_done_follows_shutdown(rest);
            assert forall|i: int|
                0 <= i < events.len() && #[trigger] events[i].stops() implies events.len() <= i
                + 2 && (i + 1 < events.len() ==> events[i + 1] is Drained) by {
                assert(rest[i - 1] == events[i]);
                if i + 1 < events.len() {
                    assert(rest[i] == events[i + 1]);
                }
            }
            assert forall|i: int|
                0 <= i < events.len() && #[trigger] events[i] is Drained implies i == events.len()
                - 1 by {
                if i > 0 {
                    assert(rest[i - 1] == events[i]);
                }
            }
            if rest.len() >= 2 {
                assert(rest[rest.len() - 2] == events[events.len() - 2]);
                assert(rest[rest.len() - 1] == events[events.len() - 1]);
            }
        }
    }
}

/// The loop takes connections, good or bad, until it is told to stop or the
/// endpoint closes; then it waits for the drain and for nothing else, and after
/// that for nothing at all.
pub proof fn law_loop_runs_until_stopped(event: AcceptEvent)
    ensures
        event.awaited(AcceptPhase::Accepting) <==> !(event is Drained),
        event.awaited(AcceptPhase::Draining) <==> event is Drained,
        !event.awaited(AcceptPhase::Done),
        event is Connected || event is HandshakeFailed ==> event.leads_to(AcceptPhase::Accepting)
            == AcceptPhase::Accepting,
        event is ShutdownRequested || event is EndpointClosed ==> event.leads_to(
            AcceptPhase::Accepting,
        ) == AcceptPhase::Draining,
        event is Drained ==> event.leads_to(AcceptPhase::Draining) == AcceptPhase::Done,
        event.stops() <==> event is ShutdownRequested || event is EndpointClosed,
{
}

/// Each kind of action has one kind of cause. A connection is served exactly
/// where it negotiated the served protocol, under its own identity, and is else
/// rejected with what it negotiated; a bad handshake costs nothing but itself.
/// What the drain came to is passed on as it is.
pub proof fn law_actions_have_one_cause(
    event: AcceptEvent,
    expected: Seq<u8>,
    action: AcceptAction,
)
    requires
        reacted(event, expected, action),
    ensures
        action is Serve <==> (event matches AcceptEvent::Connected { negotiated, .. } && negotiated@
            == expected),
        action is Reject <==> (event matches AcceptEvent::Connected { negotiated, .. }
            && negotiated@ != expected),
        action is Accept <==> event is HandshakeFailed,
        action == (AcceptAction::Shutdown { endpoint_closed: true }) <==> event is EndpointClosed,
        action == (AcceptAction::Shutdown { endpoint_closed: false })
            <==> event is ShutdownRequested,
        action is Done <==> event is Drained,
        event matches AcceptEvent::Drained(drained) ==> action == (AcceptAction::Done { drained }),
        action matches AcceptAction::Serve(peer) ==> {
            &&& event matches AcceptEvent::Connected { remote_id, .. }
            &&& peer.endpoint_id@ == remote_id@
            &&& peer.legacy_node_id@ == base32::encoded(remote_id@)
        },
        action matches AcceptAction::Reject(refusal) ==> {
            &&& event matches AcceptEvent::Connected { negotiated, .. }
            &&& refusal.error matches ConnectionServeError::UnexpectedAlpn { actual }
            &&& actual@ == negotiated@
            &&& refusal.close matches Some(close)
            &&& close.code == 0
            &&& close.reason@ == "unexpected ALPN"@
        },
{
}

} // verus!
