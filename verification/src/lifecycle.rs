//! Lifecycles of connections, requests and response deliveries.
//!
//! A slot is taken once and given back once, and each change of a counter
//! happens in exactly one place.

use vstd::multiset::Multiset;
use vstd::prelude::*;

use crate::identity::EndpointId;

verus! {

/// Which shared connection bound rejected a connection.
#[derive(Clone, Copy, Debug, PartialEq, Eq, Structural)]
pub enum ConnectionAdmissionError {
    /// The bound on all connections.
    Total,
    /// The bound on connections from one peer.
    Peer,
}

/// A peer's first connection opened, or its last one closed.
#[derive(Clone, Debug)]
pub struct ConnectionEvent {
    /// The peer, as it was named when the connection was admitted.
    pub peer_id: String,
    /// `true` for the first connection, `false` for the last.
    pub connected: bool,
}

/// The connections that one peer holds.
struct PeerCount {
    peer: EndpointId,
    count: usize,
}

/// Each peer is listed once.
spec fn distinct(counts: Seq<PeerCount>) -> bool {
    forall|i: int, j: int|
        0 <= i < j < counts.len() ==> (#[trigger] counts[i]).peer@ != (#[trigger] counts[j]).peer@
}

/// Only peers that hold a connection are listed.
spec fn occupied(counts: Seq<PeerCount>) -> bool {
    forall|i: int| 0 <= i < counts.len() ==> (#[trigger] counts[i]).count > 0
}

/// How many connections each listed peer holds.
spec fn copies(counts: Seq<PeerCount>) -> Map<Seq<u8>, nat>
    decreases counts.len(),
{
    if counts.len() == 0 {
        Map::empty()
    } else {
        copies(counts.drop_last()).insert(counts.last().peer@, counts.last().count as nat)
    }
}

/// The peers of all held connections, each as often as it holds one.
spec fn holders(counts: Seq<PeerCount>) -> Multiset<Seq<u8>> {
    Multiset::from_map(copies(counts))
}

proof fn lemma_copies(counts: Seq<PeerCount>)
    requires
        distinct(counts),
    ensures
        copies(counts).dom().finite(),
        forall|i: int|
            0 <= i < counts.len() ==> {
                &&& copies(counts).contains_key((#[trigger] counts[i]).peer@)
                &&& copies(counts)[counts[i].peer@] == counts[i].count
            },
        forall|peer: Seq<u8>| #[trigger]
            copies(counts).contains_key(peer) ==> exists|i: int|
                0 <= i < counts.len() && (#[trigger] counts[i]).peer@ == peer,
    decreases counts.len(),
{
    if counts.len() > 0 {
        let rest = counts.drop_last();
        lemma_copies(rest);
        assert forall|i: int| 0 <= i < counts.len() implies {
            &&& copies(counts).contains_key((#[trigger] counts[i]).peer@)
            &&& copies(counts)[counts[i].peer@] == counts[i].count
        } by {
            if i < rest.len() {
                assert(rest[i] == counts[i]);
            }
        }
        assert forall|peer: Seq<u8>| #[trigger]
            copies(counts).contains_key(peer) implies exists|i: int|
            0 <= i < counts.len() && (#[trigger] counts[i]).peer@ == peer by {
            if peer == counts.last().peer@ {
                assert(counts[counts.len() - 1].peer@ == peer);
            } else {
                assert(copies(rest).contains_key(peer));
                let i = choose|i: int| 0 <= i < rest.len() && (#[trigger] rest[i]).peer@ == peer;
                assert(counts[i].peer@ == peer);
            }
        }
    }
}

/// A listed peer holds as many connections as its entry says.
proof fn lemma_listed(counts: Seq<PeerCount>, i: int)
    requires
        distinct(counts),
        0 <= i < counts.len(),
    ensures
        holders(counts).count(counts[i].peer@) == counts[i].count,
{
    lemma_copies(counts);
}

/// A peer that is not listed holds none.
proof fn lemma_unlisted(counts: Seq<PeerCount>, peer: Seq<u8>)
    requires
        distinct(counts),
        forall|i: int| 0 <= i < counts.len() ==> (#[trigger] counts[i]).peer@ != peer,
    ensures
        holders(counts).count(peer) == 0,
{
    lemma_copies(counts);
}

/// Two lists that differ only in the entry of `peer` differ only in what it
/// holds.
proof fn lemma_one_peer_changed(before: Seq<PeerCount>, after: Seq<PeerCount>, peer: Seq<u8>)
    requires
        distinct(before),
        distinct(after),
        forall|i: int|
            0 <= i < before.len() && (#[trigger] before[i]).peer@ != peer ==> exists|j: int|
                0 <= j < after.len() && #[trigger] after[j] == before[i],
        forall|j: int|
            0 <= j < after.len() && (#[trigger] after[j]).peer@ != peer ==> exists|i: int|
                0 <= i < before.len() && #[trigger] before[i] == after[j],
    ensures
        forall|other: Seq<u8>|
            other != peer ==> #[trigger] holders(after).count(other) == holders(before).count(other),
{
    assert forall|other: Seq<u8>| other != peer implies #[trigger] holders(after).count(other)
        == holders(before).count(other) by {
        if exists|i: int| 0 <= i < before.len() && (#[trigger] before[i]).peer@ == other {
            let i = choose|i: int| 0 <= i < before.len() && (#[trigger] before[i]).peer@ == other;
            let j = choose|j: int| 0 <= j < after.len() && #[trigger] after[j] == before[i];
            lemma_listed(before, i);
            lemma_listed(after, j);
        } else {
            lemma_unlisted(before, other);
            assert forall|j: int| 0 <= j < after.len() implies (#[trigger] after[j]).peer@
                != other by {
                if after[j].peer@ == other {
                    let i = choose|i: int| 0 <= i < before.len() && #[trigger] before[i] == after[j];
                    assert(before[i].peer@ == other);
                }
            }
            lemma_unlisted(after, other);
        }
    }
}

/// Two lists that differ only in the entry of `peer` have the same other
/// entries, and the same entries if both have one for it.
proof fn lemma_same_entries(before: Seq<PeerCount>, after: Seq<PeerCount>, peer: Seq<u8>)
    requires
        distinct(before),
        distinct(after),
        forall|i: int|
            0 <= i < before.len() && (#[trigger] before[i]).peer@ != peer ==> exists|j: int|
                0 <= j < after.len() && #[trigger] after[j] == before[i],
        forall|j: int|
            0 <= j < after.len() && (#[trigger] after[j]).peer@ != peer ==> exists|i: int|
                0 <= i < before.len() && #[trigger] before[i] == after[j],
    ensures
        forall|other: Seq<u8>|
            other != peer ==> (#[trigger] copies(after).contains_key(other) <==> copies(
                before,
            ).contains_key(other)),
        copies(after).contains_key(peer) && copies(before).contains_key(peer) ==> copies(after).dom()
            == copies(before).dom(),
{
    lemma_copies(before);
    lemma_copies(after);
    assert forall|other: Seq<u8>| other != peer implies (#[trigger] copies(after).contains_key(
        other,
    ) <==> copies(before).contains_key(other)) by {
        if copies(after).contains_key(other) {
            let j = choose|j: int| 0 <= j < after.len() && (#[trigger] after[j]).peer@ == other;
            let i = choose|i: int| 0 <= i < before.len() && #[trigger] before[i] == after[j];
            assert(copies(before).contains_key(before[i].peer@));
        }
        if copies(before).contains_key(other) {
            let i = choose|i: int| 0 <= i < before.len() && (#[trigger] before[i]).peer@ == other;
            let j = choose|j: int| 0 <= j < after.len() && #[trigger] after[j] == before[i];
            assert(copies(after).contains_key(after[j].peer@));
        }
    }
    if copies(after).contains_key(peer) && copies(before).contains_key(peer) {
        assert(copies(after).dom() =~= copies(before).dom());
    }
}

/// Writing a new number into a peer's entry changes what that peer holds.
proof fn lemma_entry_set(counts: Seq<PeerCount>, i: int, entry: PeerCount)
    requires
        distinct(counts),
        0 <= i < counts.len(),
        entry.peer@ == counts[i].peer@,
    ensures
        distinct(counts.update(i, entry)),
        copies(counts.update(i, entry)).dom() == copies(counts).dom(),
        holders(counts.update(i, entry)).count(entry.peer@) == entry.count,
        forall|other: Seq<u8>|
            other != entry.peer@ ==> #[trigger] holders(counts.update(i, entry)).count(other)
                == holders(counts).count(other),
{
    let after = counts.update(i, entry);
    assert forall|j: int| 0 <= j < counts.len() && (#[trigger] counts[j]).peer@
        != entry.peer@ implies exists|k: int|
        0 <= k < after.len() && #[trigger] after[k] == counts[j] by {
        assert(after[j] == counts[j]);
    }
    lemma_one_peer_changed(counts, after, entry.peer@);
    lemma_listed(after, i);
    lemma_copies(counts);
    lemma_copies(after);
    assert(copies(counts).contains_key(counts[i].peer@));
    assert(copies(after).contains_key(after[i].peer@));
    lemma_same_entries(counts, after, entry.peer@);
}

/// Listing a new peer gives it what its entry says.
proof fn lemma_entry_pushed(counts: Seq<PeerCount>, entry: PeerCount)
    requires
        distinct(counts),
        forall|i: int| 0 <= i < counts.len() ==> (#[trigger] counts[i]).peer@ != entry.peer@,
    ensures
        distinct(counts.push(entry)),
        copies(counts.push(entry)).dom() == copies(counts).dom().insert(entry.peer@),
        holders(counts.push(entry)).count(entry.peer@) == entry.count,
        forall|other: Seq<u8>|
            other != entry.peer@ ==> #[trigger] holders(counts.push(entry)).count(other) == holders(
                counts,
            ).count(other),
{
    let after = counts.push(entry);
    assert forall|j: int| 0 <= j < counts.len() && (#[trigger] counts[j]).peer@
        != entry.peer@ implies exists|k: int|
        0 <= k < after.len() && #[trigger] after[k] == counts[j] by {
        assert(after[j] == counts[j]);
    }
    lemma_one_peer_changed(counts, after, entry.peer@);
    lemma_listed(after, counts.len() as int);
    assert(after.drop_last() =~= counts);
}

/// Dropping an entry, with the last one moved into its place, leaves its peer
/// with nothing.
proof fn lemma_entry_removed(counts: Seq<PeerCount>, i: int)
    requires
        distinct(counts),
        0 <= i < counts.len(),
    ensures
        distinct(counts.update(i, counts.last()).drop_last()),
        copies(counts.update(i, counts.last()).drop_last()).dom() == copies(counts).dom().remove(
            counts[i].peer@,
        ),
        holders(counts.update(i, counts.last()).drop_last()).count(counts[i].peer@) == 0,
        forall|other: Seq<u8>|
            other != counts[i].peer@ ==> #[trigger] holders(
                counts.update(i, counts.last()).drop_last(),
            ).count(other) == holders(counts).count(other),
{
    let after = counts.update(i, counts.last()).drop_last();
    let peer = counts[i].peer@;
    let last = counts.len() - 1;
    assert forall|j: int| 0 <= j < counts.len() && (#[trigger] counts[j]).peer@
        != peer implies exists|k: int| 0 <= k < after.len() && #[trigger] after[k] == counts[j] by {
        if j == last {
            assert(after[i] == counts[j]);
        } else {
            assert(after[j] == counts[j]);
        }
    }
    lemma_one_peer_changed(counts, after, peer);
    lemma_unlisted(after, peer);
    lemma_same_entries(counts, after, peer);
    lemma_copies(after);
    assert(copies(after).dom() =~= copies(counts).dom().remove(peer));
}

/// What [`ConnectionAdmission`] stands for.
pub struct AdmissionState {
    /// The peers of all held connections, each as often as it holds one.
    pub held: Multiset<Seq<u8>>,
    /// The peers that have an entry. A peer gets one when its own bound is looked
    /// at, and loses it when it gives its last connection back.
    pub listed: Set<Seq<u8>>,
    /// Bound on the connections of one peer.
    pub max_per_peer: usize,
    /// Bound on all connections.
    pub max_total: usize,
}

impl AdmissionState {
    /// No peer holds more connections than it may.
    pub open spec fn within_limits(self) -> bool {
        forall|peer: Seq<u8>| #[trigger] self.held.count(peer) <= self.max_per_peer
    }

    /// The peers with an entry are those that hold a connection.
    pub open spec fn tidy(self) -> bool {
        forall|peer: Seq<u8>| #[trigger]
            self.listed.contains(peer) <==> self.held.count(peer) > 0
    }

    /// Whether `peer` may open a connection while `total` are open. The total
    /// bound is looked at first.
    pub open spec fn verdict(self, total: usize, peer: Seq<u8>) -> Result<
        (),
        ConnectionAdmissionError,
    > {
        if total >= self.max_total {
            Err(ConnectionAdmissionError::Total)
        } else if self.held.count(peer) >= self.max_per_peer {
            Err(ConnectionAdmissionError::Peer)
        } else {
            Ok(())
        }
    }

    /// The state after `peer` was given one connection more.
    pub open spec fn with(self, peer: Seq<u8>) -> AdmissionState {
        AdmissionState { held: self.held.insert(peer), ..self.look_up(peer) }
    }

    /// The state after the bound of `peer` was looked at.
    pub open spec fn look_up(self, peer: Seq<u8>) -> AdmissionState {
        AdmissionState { listed: self.listed.insert(peer), ..self }
    }

    /// The state after `peer` gave one connection back, if it held any.
    pub open spec fn without(self, peer: Seq<u8>) -> AdmissionState {
        AdmissionState {
            held: self.held.remove(peer),
            listed: if self.held.count(peer) <= 1 {
                self.listed.remove(peer)
            } else {
                self.listed
            },
            ..self
        }
    }
}

/// Connection admission shared by everything that one runtime serves.
///
/// The number of all open connections is kept by the caller, which may count
/// connections there that this admission does not hold.
pub struct ConnectionAdmission {
    counts: Vec<PeerCount>,
    max_per_peer: usize,
    max_total: usize,
}

impl View for ConnectionAdmission {
    type V = AdmissionState;

    closed spec fn view(&self) -> AdmissionState {
        AdmissionState {
            held: holders(self.counts@),
            listed: copies(self.counts@).dom(),
            max_per_peer: self.max_per_peer,
            max_total: self.max_total,
        }
    }
}

/// One admitted connection. It is given back through
/// [`ConnectionAdmission::release`].
pub struct ConnectionTracker {
    peer: EndpointId,
    peer_id_str: String,
}

impl ConnectionTracker {
    /// The peer that holds the connection.
    pub closed spec fn peer(self) -> Seq<u8> {
        self.peer@
    }

    /// The name under which the connection was admitted.
    pub closed spec fn peer_id(self) -> Seq<char> {
        self.peer_id_str@
    }
}

/// Whether `event` reports that the peer called `peer_id` came or went.
pub open spec fn reports(
    event: Option<ConnectionEvent>,
    peer_id: Seq<char>,
    connected: bool,
) -> bool {
    event matches Some(e) && e.peer_id@ == peer_id && e.connected == connected
}

impl ConnectionAdmission {
    /// The list is in order: no peer twice, and no empty entry where a peer may
    /// hold any connection at all.
    pub closed spec fn wf(self) -> bool {
        &&& distinct(self.counts@)
        &&& self.max_per_peer > 0 ==> occupied(self.counts@)
    }

    /// Where a peer may hold any connection at all, the peers with an entry are
    /// those that hold one.
    pub proof fn lemma_tidy(self)
        requires
            self.wf(),
            self@.max_per_peer > 0,
        ensures
            self@.tidy(),
    {
        lemma_copies(self.counts@);
    }

    /// Admission that holds no connection yet.
    pub fn new(max_per_peer: usize, max_total: usize) -> (admission: ConnectionAdmission)
        ensures
            admission.wf(),
            admission@ == (AdmissionState {
                held: Multiset::empty(),
                listed: Set::empty(),
                max_per_peer,
                max_total,
            }),
            admission@.within_limits(),
    {
        let admission = ConnectionAdmission { counts: Vec::new(), max_per_peer, max_total };
        proof {
            assert forall|peer: Seq<u8>| holders(admission.counts@).count(peer) == 0 by {
                lemma_unlisted(admission.counts@, peer);
            }
            assert(holders(admission.counts@) =~= Multiset::empty());
        }
        admission
    }

    /// Whether no peer has an entry.
    pub fn is_empty(&self) -> (empty: bool)
        requires
            self.wf(),
        ensures
            empty <==> self@.listed == Set::<Seq<u8>>::empty(),
    {
        proof {
            if self.counts@.len() > 0 {
                lemma_copies(self.counts@);
                assert(self@.listed.contains(self.counts@[0].peer@));
            }
        }
        self.counts.len() == 0
    }

    /// Where `peer` is listed.
    fn find(&self, peer: &EndpointId) -> (found: Option<usize>)
        requires
            self.wf(),
        ensures
            found matches Some(i) ==> {
                &&& i < self.counts@.len()
                &&& self.counts@[i as int].peer@ == peer@
                &&& self@.held.count(peer@) == self.counts@[i as int].count
                &&& self@.listed.contains(peer@)
            },
            found is None ==> {
                &&& self@.held.count(peer@) == 0
                &&& !self@.listed.contains(peer@)
                &&& forall|i: int|
                    0 <= i < self.counts@.len() ==> (#[trigger] self.counts@[i]).peer@ != peer@
            },
    {
        let mut i: usize = 0;
        while i < self.counts.len()
            invariant
                self.wf(),
                i <= self.counts@.len(),
                forall|j: int| 0 <= j < i ==> (#[trigger] self.counts@[j]).peer@ != peer@,
            decreases self.counts@.len() - i,
        {
            if self.counts[i].peer.same(peer) {
                proof {
                    lemma_listed(self.counts@, i as int);
                    lemma_copies(self.counts@);
                }
                return Some(i);
            }
            i = i + 1;
        }
        proof {
            lemma_unlisted(self.counts@, peer@);
            lemma_copies(self.counts@);
        }
        None
    }

    /// Take a connection for `peer`, whose name is `peer_id_str`.
    ///
    /// Both bounds are looked at in one step, and nothing is written where the
    /// total bound refuses. The event of a first connection comes back with the
    /// tracker.
    pub fn acquire(&mut self, total: &mut usize, peer: EndpointId, peer_id_str: String) -> (admitted:
        Result<(ConnectionTracker, Option<ConnectionEvent>), ConnectionAdmissionError>)
        requires
            old(self).wf(),
        ensures
            final(self).wf(),
            match old(self)@.verdict(*old(total), peer@) {
                Ok(()) => {
                    &&& final(self)@ == old(self)@.with(peer@)
                    &&& *final(total) == *old(total) + 1
                    &&& admitted matches Ok((tracker, event))
                    &&& tracker.peer() == peer@
                    &&& tracker.peer_id() == peer_id_str@
                    &&& if old(self)@.held.count(peer@) == 0 {
                        reports(event, peer_id_str@, true)
                    } else {
                        event is None
                    }
                },
                Err(error) => {
                    &&& final(self)@ == match error {
                        ConnectionAdmissionError::Total => old(self)@,
                        ConnectionAdmissionError::Peer => old(self)@.look_up(peer@),
                    }
                    &&& *final(total) == *old(total)
                    &&& admitted == Err::<
                        (ConnectionTracker, Option<ConnectionEvent>),
                        ConnectionAdmissionError,
                    >(error)
                },
            },
    {
        if *total >= self.max_total {
            return Err(ConnectionAdmissionError::Total);
        }
        let ghost before = self.counts@;
        let was_zero = match self.find(&peer) {
            Some(i) => {
                let count: usize = self.counts[i].count;
                if count >= self.max_per_peer {
                    assert(self@.listed =~= self@.listed.insert(peer@));
                    return Err(ConnectionAdmissionError::Peer);
                }
                let entry = PeerCount { peer, count: count + 1 };
                proof {
                    lemma_entry_set(before, i as int, entry);
                    assert(holders(before.update(i as int, entry)) =~= holders(before).insert(
                        peer@,
                    ));
                    assert(self@.listed =~= self@.listed.insert(peer@));
                }
                self.counts[i] = entry;
                false
            },
            None => {
                if self.max_per_peer == 0 {
                    let entry = PeerCount { peer, count: 0 };
                    proof {
                        lemma_entry_pushed(before, entry);
                        assert(holders(before.push(entry)) =~= holders(before));
                    }
                    self.counts.push(entry);
                    return Err(ConnectionAdmissionError::Peer);
                }
                let entry = PeerCount { peer, count: 1 };
                proof {
                    lemma_entry_pushed(before, entry);
                    assert(holders(before.push(entry)) =~= holders(before).insert(peer@));
                }
                self.counts.push(entry);
                true
            },
        };
        *total = *total + 1;
        let event = if was_zero {
            Some(ConnectionEvent { peer_id: peer_id_str.clone(), connected: true })
        } else {
            None
        };
        Ok((ConnectionTracker { peer, peer_id_str }, event))
    }

    /// Give a connection back. The event of a last connection is returned.
    pub fn release(&mut self, total: &mut usize, tracker: ConnectionTracker) -> (event: Option<
        ConnectionEvent,
    >)
        requires
            old(self).wf(),
        ensures
            final(self).wf(),
            final(self)@ == old(self)@.without(tracker.peer()),
            *final(total) == (*old(total)).wrapping_sub(1),
            if old(self)@.listed.contains(tracker.peer()) && old(self)@.held.count(tracker.peer())
                <= 1 {
                reports(event, tracker.peer_id(), false)
            } else {
                event is None
            },
    {
        let ghost before = self.counts@;
        let ghost peer = tracker.peer@;
        let disconnected = match self.find(&tracker.peer) {
            Some(i) => {
                let count: usize = self.counts[i].count;
                if count <= 1 {
                    proof {
                        lemma_entry_removed(before, i as int);
                        assert(holders(before.update(i as int, before.last()).drop_last())
                            =~= holders(before).remove(peer));
                    }
                    self.counts.swap_remove(i);
                    true
                } else {
                    let entry = PeerCount { peer: tracker.peer, count: count - 1 };
                    proof {
                        lemma_entry_set(before, i as int, entry);
                        assert(holders(before.update(i as int, entry)) =~= holders(before).remove(
                            peer,
                        ));
                    }
                    self.counts[i] = entry;
                    false
                }
            },
            None => {
                proof {
                    assert(self@.held =~= self@.held.remove(peer));
                    assert(self@.listed =~= self@.listed.remove(peer));
                }
                false
            },
        };
        *total = (*total).wrapping_sub(1);
        if disconnected {
            Some(ConnectionEvent { peer_id: tracker.peer_id_str, connected: false })
        } else {
            None
        }
    }
}

/// The processing slot of one request. Its view is whether the slot is still
/// held.
pub struct RequestTracker {
    held: bool,
}

impl View for RequestTracker {
    type V = bool;

    closed spec fn view(&self) -> bool {
        self.held
    }
}

impl RequestTracker {
    /// Own a slot that admission has already counted.
    pub fn new() -> (tracker: RequestTracker)
        ensures
            tracker@,
    {
        RequestTracker { held: true }
    }

    /// Give the slot back to `counter`. Once it is given back, nothing changes.
    pub fn finish(&mut self, counter: &mut usize)
        ensures
            !final(self)@,
            *final(counter) == if old(self)@ {
                (*old(counter)).wrapping_sub(1)
            } else {
                *old(counter)
            },
    {
        if self.held {
            self.held = false;
            *counter = (*counter).wrapping_sub(1);
        }
    }
}

/// The delivery slot of one request, held until its response stream is
/// acknowledged, stopped or lost. Its view is whether the slot is still held.
pub struct DeliveryTracker {
    held: bool,
}

impl View for DeliveryTracker {
    type V = bool;

    closed spec fn view(&self) -> bool {
        self.held
    }
}

impl DeliveryTracker {
    /// Own a slot that admission has already counted.
    pub fn new() -> (tracker: DeliveryTracker)
        ensures
            tracker@,
    {
        DeliveryTracker { held: true }
    }

    /// Give the slot back to `in_flight`, and say whether it was the last one,
    /// so that whoever waits for the drain is woken. Once it is given back,
    /// nothing changes.
    pub fn finish(&mut self, in_flight: &mut usize) -> (drained: bool)
        ensures
            !final(self)@,
            *final(in_flight) == if old(self)@ {
                (*old(in_flight)).wrapping_sub(1)
            } else {
                *old(in_flight)
            },
            drained <==> old(self)@ && *old(in_flight) == 1,
    {
        if !self.held {
            return false;
        }
        self.held = false;
        let before: usize = *in_flight;
        *in_flight = before.wrapping_sub(1);
        before == 1
    }
}

/// Whether a peer is admitted depends on both bounds and on nothing else: it is
/// exactly where fewer connections are open than the total bound, and fewer are
/// held by that peer than its own.
pub proof fn law_admission_is_by_both_bounds(state: AdmissionState, total: usize, peer: Seq<u8>)
    ensures
        state.verdict(total, peer) is Ok <==> total < state.max_total && state.held.count(peer)
            < state.max_per_peer,
        state.verdict(total, peer) == Err::<(), ConnectionAdmissionError>(
            ConnectionAdmissionError::Total,
        ) <==> total >= state.max_total,
{
}

/// Taking a connection and giving one back change what that one peer holds, by
/// one, and nothing that another peer holds. Neither changes a bound.
pub proof fn law_slots_move_by_one(state: AdmissionState, peer: Seq<u8>, other: Seq<u8>)
    requires
        peer != other,
    ensures
        state.with(peer).held.count(peer) == state.held.count(peer) + 1,
        state.with(peer).held.count(other) == state.held.count(other),
        state.with(peer).held.len() == state.held.len() + 1,
        state.with(peer).listed.contains(peer),
        state.with(peer).listed.contains(other) <==> state.listed.contains(other),
        state.with(peer).max_per_peer == state.max_per_peer,
        state.with(peer).max_total == state.max_total,
        state.held.count(peer) > 0 ==> {
            &&& state.without(peer).held.count(peer) == state.held.count(peer) - 1
            &&& state.without(peer).held.len() == state.held.len() - 1
        },
        state.held.count(peer) == 0 ==> state.without(peer).held == state.held,
        state.without(peer).held.count(other) == state.held.count(other),
        state.without(peer).listed.contains(peer) <==> state.listed.contains(peer)
            && state.held.count(peer) > 1,
        state.without(peer).listed.contains(other) <==> state.listed.contains(other),
        state.without(peer).max_per_peer == state.max_per_peer,
        state.without(peer).max_total == state.max_total,
        state.look_up(peer).held == state.held,
        state.look_up(peer).listed.contains(peer),
        state.look_up(peer).listed.contains(other) <==> state.listed.contains(other),
        state.look_up(peer).max_per_peer == state.max_per_peer,
        state.look_up(peer).max_total == state.max_total,
{
    if state.held.count(peer) == 0 {
        assert(state.without(peer).held =~= state.held);
    }
}

/// An event that reports a peer is there, names that peer and says which way it
/// went.
pub proof fn law_events_name_the_peer(
    event: Option<ConnectionEvent>,
    peer_id: Seq<char>,
    connected: bool,
)
    ensures
        reports(event, peer_id, connected) ==> event is Some && event->0.peer_id@ == peer_id
            && event->0.connected == connected,
{
}

} // verus!
