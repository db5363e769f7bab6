//! The frame clock: turns monotonic clock samples (milliseconds) into a
//! per-frame elapsed time that is never negative.

use vstd::prelude::*;

verus! {

/// Holds the previous clock sample.  Seeding it at construction keeps the
/// first frame's elapsed time small instead of measuring from process
/// start.
pub struct FrameClock {
    pub last_ms: i64,
}

impl FrameClock {
    /// The stored sample is a timestamp, never negative.
    pub open spec fn wf(&self) -> bool {
        self.last_ms >= 0
    }

    /// Seed the clock with the current sample.
    pub fn new(now_ms: i64) -> (c: FrameClock)
        requires
            now_ms >= 0,
        ensures
            c.wf(),
            c.last_ms == now_ms,
    {
        FrameClock { last_ms: now_ms }
    }

    /// Advance to a new sample and return the elapsed milliseconds.  A
    /// sample that does not advance — or regresses — yields zero, so the
    /// elapsed time is never negative and motion never reverses.
    pub fn tick(&mut self, now_ms: i64) -> (dt: i64)
        requires
            old(self).wf(),
            now_ms >= 0,
        ensures
            final(self).wf(),
            final(self).last_ms == now_ms,
            dt == if now_ms >= old(self).last_ms { now_ms - old(self).last_ms } else { 0int },
            dt >= 0,
    {
        let dt = if now_ms >= self.last_ms {
            now_ms - self.last_ms
        } else {
            0
        };
        self.last_ms = now_ms;
        dt
    }
}

} // verus!
