//! The barrier between accepting streams and draining them.

use vstd::prelude::*;

verus! {

/// Orders the counting of a stream and the step to draining.
///
/// A stream is counted in the same step that looks at the flag. So it is either
/// visible to the drain or turned away: none is counted after the stop. Its view
/// is whether the barrier is stopped.
#[derive(Debug)]
pub struct StreamAdmissionBarrier {
    stopped: bool,
}

impl View for StreamAdmissionBarrier {
    type V = bool;

    closed spec fn view(&self) -> bool {
        self.stopped
    }
}

impl StreamAdmissionBarrier {
    /// A barrier that lets streams through.
    pub fn new() -> (barrier: StreamAdmissionBarrier)
        ensures
            !barrier@,
    {
        StreamAdmissionBarrier { stopped: false }
    }

    /// Whether the barrier is stopped.
    pub fn is_stopped(&self) -> (stopped: bool)
        ensures
            stopped == self@,
    {
        self.stopped
    }

    /// Count a stream as a request and as a delivery, unless the barrier
    /// is stopped.
    pub fn try_admit(&self, requests: &mut usize, deliveries: &mut usize) -> (admitted: bool)
        ensures
            admitted == !self@,
            *final(requests) == if admitted {
                (*old(requests)).wrapping_add(1)
            } else {
                *old(requests)
            },
            *final(deliveries) == if admitted {
                (*old(deliveries)).wrapping_add(1)
            } else {
                *old(deliveries)
            },
    {
        if self.stopped {
            return false;
        }
        *requests = (*requests).wrapping_add(1);
        *deliveries = (*deliveries).wrapping_add(1);
        true
    }

    /// Stop letting streams through. There is no way back.
    pub fn stop(&mut self)
        ensures
            final(self)@,
    {
        self.stopped = true;
    }
}

} // verus!
