//! A fixed-step simulation clock: real frame time accumulates, and whole
//! steps are drained from it, the remainder carried to the next frame.

use vstd::prelude::*;

verus! {

/// Step of the actor model: a twentieth of a second, in microseconds.
pub const STATS_STEP_MICROS: u64 = 50_000;

/// Accumulates elapsed time and hands it out in fixed steps.
#[derive(Clone, Copy, Debug, PartialEq, Eq, Structural)]
pub struct FixedClock {
    /// Length of a step, in microseconds.
    pub step: u64,
    /// Time accumulated and not yet handed out, in microseconds.
    pub accumulator: u64,
}

impl FixedClock {
    pub open spec fn wf(self) -> bool {
        self.step > 0 && self.accumulator < self.step
    }

    /// A clock with steps of `step` microseconds and nothing accumulated.
    pub fn new(step: u64) -> (r: FixedClock)
        requires
            step > 0,
        ensures
            r.wf(),
            r.step == step,
            r.accumulator == 0,
    {
        FixedClock { step, accumulator: 0 }
    }

    /// Adds `delta` microseconds of frame time and returns how many whole
    /// steps are due; the rest stays accumulated.
    pub fn advance(&mut self, delta: u64) -> (ticks: u64)
        requires
            old(self).wf(),
            old(self).accumulator + delta <= u64::MAX,
        ensures
            final(self).wf(),
            final(self).step == old(self).step,
            ticks == (old(self).accumulator + delta) / old(self).step as int,
            final(self).accumulator == (old(self).accumulator + delta) % old(self).step as int,
    {
        let total = self.accumulator + delta;
        self.accumulator = total % self.step;
        total / self.step
    }
}

} // verus!
