//! Spans and points of time as plain numbers.

use vstd::prelude::*;

use crate::bindings::{tokio_checked_add, tokio_elapsed_nanos, tokio_now};

verus! {

/// Nanoseconds in one second.
pub const NANOS_PER_SEC: u32 = 1_000_000_000;

/// A span of time: whole seconds and the nanoseconds below one second.
///
/// Its view is the whole span in nanoseconds.
#[derive(Clone, Copy, Debug, PartialEq, Eq, Structural)]
pub struct Duration {
    secs: u64,
    nanos: u32,
}

impl View for Duration {
    type V = nat;

    closed spec fn view(&self) -> nat {
        (self.secs * 1_000_000_000 + self.nanos) as nat
    }
}

impl Duration {
    #[verifier::type_invariant]
    spec fn normal(self) -> bool {
        self.nanos < NANOS_PER_SEC
    }

    /// The span of `millis` milliseconds, as a specification value.
    pub closed spec fn spec_from_millis(millis: u64) -> Duration {
        Duration { secs: millis / 1000, nanos: ((millis % 1000) * 1_000_000) as u32 }
    }

    /// The span of `millis` milliseconds.
    #[verifier::when_used_as_spec(spec_from_millis)]
    pub fn from_millis(millis: u64) -> (span: Duration)
        ensures
            span == Self::spec_from_millis(millis),
            span@ == millis * 1_000_000,
    {
        Duration { secs: millis / 1000, nanos: (millis % 1000) as u32 * 1_000_000 }
    }

    /// A span made from milliseconds is that long.
    pub proof fn lemma_from_millis(millis: u64)
        ensures
            Duration::from_millis(millis)@ == millis * 1_000_000,
    {
    }

    /// The span of `secs` seconds.
    pub fn from_secs(secs: u64) -> (span: Duration)
        ensures
            span@ == secs * 1_000_000_000,
    {
        Duration { secs, nanos: 0 }
    }

    /// The span of `nanos` nanoseconds, where whole seconds fit in 64 bits.
    fn from_nanos(nanos: u128) -> (span: Duration)
        requires
            nanos <= 18_446_744_073_709_551_615_999_999_999u128,
        ensures
            span@ == nanos,
    {
        Duration {
            secs: (nanos / 1_000_000_000) as u64,
            nanos: (nanos % 1_000_000_000) as u32,
        }
    }

    /// The whole seconds of the span.
    pub fn as_secs(&self) -> (secs: u64)
        ensures
            secs == self@ / 1_000_000_000,
    {
        proof {
            use_type_invariant(self);
        }
        self.secs
    }

    /// The nanoseconds of the span below one second.
    pub fn subsec_nanos(&self) -> (nanos: u32)
        ensures
            nanos == self@ % 1_000_000_000,
    {
        proof {
            use_type_invariant(self);
        }
        self.nanos
    }

    /// The whole span in nanoseconds.
    pub fn as_nanos(&self) -> (nanos: u128)
        ensures
            nanos == self@,
            nanos <= 18_446_744_073_709_551_615_999_999_999u128,
    {
        proof {
            use_type_invariant(self);
        }
        self.secs as u128 * 1_000_000_000 + self.nanos as u128
    }

    /// Whether the span is empty.
    pub fn is_zero(&self) -> (zero: bool)
        ensures
            zero <==> self@ == 0,
    {
        self.secs == 0 && self.nanos == 0
    }
}

/// Nanoseconds in one day.
pub const NANOS_PER_DAY: u128 = 86_400_000_000_000;

/// The last point in time that a [`Moment`] can hold: the longest [`Duration`]
/// after the origin of the [`Clock`]. Which points up to it the machine's clock
/// can hold is for [`Clock::reaches`] to say.
pub const LAST_MOMENT: u128 = 18_446_744_073_709_551_615_999_999_999;

/// The last reading a [`Clock`] gives: one day before [`LAST_MOMENT`].
pub const LAST_READING: u128 = 18_446_744_073_709_465_215_999_999_999;

/// A point in time, in nanoseconds since the origin of a [`Clock`].
///
/// Its view is that number of nanoseconds.
#[derive(Clone, Copy, Debug, PartialEq, Eq, Structural)]
pub struct Moment {
    nanos: u128,
}

impl View for Moment {
    type V = nat;

    closed spec fn view(&self) -> nat {
        self.nanos as nat
    }
}

impl Moment {
    #[verifier::type_invariant]
    spec fn representable(self) -> bool {
        self.nanos <= LAST_MOMENT
    }

    /// The point `nanos` nanoseconds after the origin, if it can be represented.
    pub fn from_nanos(nanos: u128) -> (moment: Option<Moment>)
        ensures
            moment is Some <==> nanos <= LAST_MOMENT,
            moment matches Some(m) ==> m@ == nanos,
    {
        if nanos <= LAST_MOMENT {
            Some(Moment { nanos })
        } else {
            None
        }
    }

    /// The point `span` later, if it can be represented.
    pub fn checked_add(&self, span: Duration) -> (later: Option<Moment>)
        ensures
            later is Some <==> self@ + span@ <= LAST_MOMENT,
            later matches Some(m) ==> m@ == self@ + span@,
    {
        proof {
            use_type_invariant(self);
            use_type_invariant(&span);
        }
        Self::from_nanos(self.nanos + span.as_nanos())
    }

    /// The span from `earlier` to this point, or the empty span if `earlier` is
    /// the later of the two.
    pub fn saturating_duration_since(&self, earlier: Moment) -> (span: Duration)
        ensures
            span@ == if earlier@ <= self@ {
                self@ - earlier@
            } else {
                0
            },
    {
        proof {
            use_type_invariant(self);
            use_type_invariant(&earlier);
        }
        Duration::from_nanos(self.nanos.saturating_sub(earlier.nanos))
    }
}

/// A monotonic clock that counts from the moment it was started.
#[derive(Clone, Copy, Debug)]
pub struct Clock {
    origin: tokio::time::Instant,
}

impl Clock {
    /// Whether the origin of this clock is a time that Tokio's clock showed.
    pub closed spec fn started(self) -> bool {
        call_ensures(tokio_now, (), self.origin)
    }

    /// Whether Tokio's clock said that the origin lies `nanos` nanoseconds back.
    pub closed spec fn elapsed(self, nanos: u128) -> bool {
        call_ensures(tokio_elapsed_nanos, (&self.origin,), nanos)
    }

    /// Whether Tokio's clock, asked for the point `secs` seconds and `nanos`
    /// nanoseconds after the origin, could hold it.
    pub closed spec fn held(self, secs: u64, nanos: u32, held: bool) -> bool {
        exists|later: Option<tokio::time::Instant>|
            {
                &&& #[trigger] call_ensures(tokio_checked_add, (&self.origin, secs, nanos), later)
                &&& held <==> later is Some
            }
    }

    /// Whether this clock was read and showed `now`.
    pub open spec fn showed(&self, now: Moment) -> bool {
        call_ensures(Clock::now, (self,), now)
    }

    /// Whether this clock was asked if it reaches `point`, and said `reached`.
    pub open spec fn answered(&self, point: Moment, reached: bool) -> bool {
        call_ensures(Clock::reaches, (self, point), reached)
    }

    /// Start a clock. Its origin is the time of this call.
    pub fn start() -> (clock: Clock)
        ensures
            clock.started(),
    {
        Clock { origin: tokio_now() }
    }

    /// The time on this clock, held at [`LAST_READING`] beyond that point.
    pub fn now(&self) -> (reading: Moment)
        ensures
            reading@ <= LAST_READING,
            exists|nanos: u128|
                {
                    &&& #[trigger] self.elapsed(nanos)
                    &&& nanos <= LAST_READING ==> reading@ == nanos
                    &&& nanos > LAST_READING ==> reading@ == LAST_READING
                },
    {
        let nanos: u128 = tokio_elapsed_nanos(&self.origin);
        assert(self.elapsed(nanos));
        Self::reading(nanos)
    }

    /// Whether the machine's clock can hold that point in time. It always holds
    /// the origin; beyond that the answer depends on the machine.
    pub fn reaches(&self, point: Moment) -> (reached: bool)
        ensures
            point@ == 0 ==> reached,
            exists|secs: u64, nanos: u32|
                {
                    &&& #[trigger] self.held(secs, nanos, reached)
                    &&& nanos < NANOS_PER_SEC
                    &&& secs * NANOS_PER_SEC + nanos == point@
                },
    {
        let span = point.saturating_duration_since(Moment { nanos: 0 });
        let secs: u64 = span.as_secs();
        let nanos: u32 = span.subsec_nanos();
        let reached = tokio_checked_add(&self.origin, secs, nanos).is_some();
        assert(self.held(secs, nanos, reached));
        reached
    }

    /// The reading of a clock whose origin lies `elapsed` nanoseconds back.
    pub fn reading(elapsed: u128) -> (reading: Moment)
        ensures
            reading@ == if elapsed <= LAST_READING {
                elapsed
            } else {
                LAST_READING
            },
    {
        if elapsed <= LAST_READING {
            Moment { nanos: elapsed }
        } else {
            Moment { nanos: LAST_READING }
        }
    }
}

} // verus!
