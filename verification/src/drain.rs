//! How long a drain may take, and when it is over.

use vstd::prelude::*;

use crate::time::{Clock, Duration, Moment, LAST_MOMENT, LAST_READING, NANOS_PER_DAY};

verus! {

/// The end of a drain window that opens at `now`: `timeout` later where the
/// clock reaches that point, and else one day later.
pub open spec fn deadline_after(now: nat, timeout: nat, reached: bool) -> nat {
    if reached {
        now + timeout
    } else {
        now + NANOS_PER_DAY as nat
    }
}

/// The end of a drain window of `timeout` that opens at `now`. `reached` says
/// whether the clock can hold the point `timeout` after the time at which it was
/// asked.
pub fn drain_deadline_at(now: Moment, timeout: Duration, reached: bool) -> (deadline: Moment)
    requires
        now@ <= LAST_READING,
        reached ==> now@ + timeout@ <= LAST_MOMENT,
    ensures
        deadline@ == deadline_after(now@, timeout@, reached),
{
    if reached {
        now.checked_add(timeout).unwrap()
    } else {
        now.checked_add(Duration::from_secs(86_400)).unwrap()
    }
}

/// Whether a drain window of `timeout` opens at `now` by that clock, which
/// reaches its end or does not, as `reached` says.
///
/// The clock was read and asked for the point `timeout` after that reading. It
/// reaches that point by its own word. Where it does not, the window opens at a
/// reading of its own.
pub open spec fn opens(clock: &Clock, timeout: Duration, now: Moment, reached: bool) -> bool {
    &&& clock.showed(now)
    &&& now@ <= LAST_READING
    &&& if timeout@ == 0 {
        reached
    } else {
        exists|first: Moment|
            {
                &&& #[trigger] clock.showed(first)
                &&& reached ==> now == first
                &&& if first@ + timeout@ <= LAST_MOMENT {
                    exists|end: Moment|
                        end@ == first@ + timeout@ && #[trigger] clock.answered(end, reached)
                } else {
                    !reached
                }
            }
    }
}

/// When a drain window of `timeout` opens, and whether the clock reaches its
/// end. Where it does not, the clock is read again.
///
/// Past the longest span there is no point in time to ask the clock for, and an
/// empty window ends where it opens.
pub fn drain_start(clock: &Clock, timeout: Duration) -> (start: (Moment, bool))
    ensures
        start.0@ <= LAST_READING,
        start.1 ==> start.0@ + timeout@ <= LAST_MOMENT,
        timeout@ == 0 ==> start.1,
        opens(clock, timeout, start.0, start.1),
{
    let now = clock.now();
    assert(clock.showed(now));
    let reached = if timeout.is_zero() {
        true
    } else {
        match now.checked_add(timeout) {
            Some(end) => {
                let reached = clock.reaches(end);
                assert(clock.answered(end, reached));
                reached
            },
            None => false,
        }
    };
    if reached {
        (now, true)
    } else {
        let later = clock.now();
        assert(clock.showed(later));
        (later, false)
    }
}

/// The end of a drain window of `timeout` that opens now.
pub fn drain_deadline(clock: &Clock, timeout: Duration) -> (deadline: Moment)
    ensures
        exists|now: Moment, reached: bool|
            {
                &&& #[trigger] opens(clock, timeout, now, reached)
                &&& now@ <= LAST_READING
                &&& timeout@ == 0 ==> reached
                &&& reached ==> now@ + timeout@ <= LAST_MOMENT
                &&& deadline@ == deadline_after(now@, timeout@, reached)
            },
{
    let (now, reached) = drain_start(clock, timeout);
    drain_deadline_at(now, timeout, reached)
}

/// However long the timeout, a drain window does not end before it opens, and
/// ends after it unless the timeout is zero.
pub proof fn law_deadline_lies_ahead(now: nat, timeout: nat, reached: bool)
    ensures
        now <= deadline_after(now, timeout, reached),
        timeout > 0 ==> now < deadline_after(now, timeout, reached),
{
}

/// A drain window lasts as long as its timeout where the clock reaches its end,
/// and a day of 86 400 seconds where it does not. When it opens makes no
/// difference to how long it lasts.
pub proof fn law_window_lasts_its_timeout(now: nat, timeout: nat, reached: bool)
    ensures
        reached ==> deadline_after(now, timeout, reached) - now == timeout,
        !reached ==> deadline_after(now, timeout, reached) - now == 86_400 * 1_000_000_000,
{
}

/// What one look at a counter says about the wait for it to reach zero.
#[derive(Clone, Copy, Debug, PartialEq, Eq, Structural)]
pub enum ZeroWait {
    /// The counter is at zero.
    Zero,
    /// It is not, and the deadline has passed.
    Expired,
    /// It is not; look again when it is notified, or after this span.
    Pending(Duration),
}

impl ZeroWait {
    /// Whether this is what a look at `now` says of a counter at `in_flight`
    /// with that deadline. It holds of exactly one outcome.
    pub open spec fn describes(self, in_flight: usize, deadline: nat, now: nat) -> bool {
        match self {
            ZeroWait::Zero => in_flight == 0,
            ZeroWait::Expired => in_flight > 0 && deadline <= now,
            ZeroWait::Pending(remaining) => in_flight > 0 && now < deadline && remaining@
                == deadline - now,
        }
    }
}

/// Look at a counter that should reach zero by `deadline`, at the time `now`.
///
/// Zero is seen even when the deadline has passed.
pub fn wait_for_zero_at(in_flight: usize, deadline: Moment, now: Moment) -> (wait: ZeroWait)
    ensures
        wait.describes(in_flight, deadline@, now@),
        wait is Zero <==> in_flight == 0,
        wait is Pending <==> in_flight > 0 && now@ < deadline@,
        wait matches ZeroWait::Pending(remaining) ==> now@ + remaining@ == deadline@,
{
    if in_flight == 0 {
        return ZeroWait::Zero;
    }
    let remaining = deadline.saturating_duration_since(now);
    if remaining.is_zero() {
        ZeroWait::Expired
    } else {
        ZeroWait::Pending(remaining)
    }
}

/// Look at a counter that should reach zero by `deadline`, at the present time.
pub fn wait_for_zero_until(in_flight: usize, deadline: Moment, clock: &Clock) -> (wait: ZeroWait)
    ensures
        wait is Zero <==> in_flight == 0,
        exists|now: Moment|
            {
                &&& #[trigger] clock.showed(now)
                &&& now@ <= LAST_READING
                &&& wait.describes(in_flight, deadline@, now@)
            },
{
    let now = clock.now();
    assert(clock.showed(now));
    wait_for_zero_at(in_flight, deadline, now)
}

/// Waiting is given up on exactly where something is still in flight and no time
/// is left: however much is in flight, not before the deadline, and never for a
/// counter that is at zero.
pub proof fn law_waiting_ends_only_by_zero_or_deadline(
    wait: ZeroWait,
    in_flight: usize,
    deadline: nat,
    now: nat,
)
    requires
        wait.describes(in_flight, deadline, now),
    ensures
        wait is Zero <==> in_flight == 0,
        wait is Expired ==> deadline <= now,
        in_flight > 0 && now < deadline ==> (wait matches ZeroWait::Pending(remaining) && now
            + remaining@ == deadline),
        in_flight > 0 && deadline <= now ==> wait is Expired,
{
}

/// A drain window opens at a time that the clock showed. It lasts its timeout
/// exactly where the clock says that it reaches the end of it, or where there is
/// no end to ask for; only a point past the longest span is not asked for.
pub proof fn law_windows_go_by_the_clock(
    clock: &Clock,
    timeout: Duration,
    now: Moment,
    reached: bool,
)
    requires
        opens(clock, timeout, now, reached),
    ensures
        clock.showed(now),
        reached && timeout@ > 0 ==> exists|end: Moment|
            end@ == now@ + timeout@ && #[trigger] clock.answered(end, true),
        !reached ==> timeout@ > 0,
        !reached ==> exists|first: Moment|
            {
                &&& #[trigger] clock.showed(first)
                &&& first@ + timeout@ > LAST_MOMENT || exists|end: Moment|
                    end@ == first@ + timeout@ && #[trigger] clock.answered(end, false)
            },
{
}

} // verus!
