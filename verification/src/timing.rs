//! Fixed-timestep scheduling: two elapsed-time accumulators decouple the
//! wall clock from the fixed-rate logic tick and the render cadence.

use vstd::prelude::*;

verus! {

/// The scheduler: one accumulator per cadence. The driver adds the
/// milliseconds that passed since the previous poll; a cadence is due when
/// its accumulator reaches its interval, and then starts over from zero.
pub struct FixedTimestep {
    tick_interval: u64,
    render_interval: u64,
    tick_acc: u64,
    render_acc: u64,
}

impl FixedTimestep {
    /// The logic-tick interval, in milliseconds.
    pub closed spec fn spec_tick_interval(&self) -> u64 {
        self.tick_interval
    }

    /// The render interval, in milliseconds.
    pub closed spec fn spec_render_interval(&self) -> u64 {
        self.render_interval
    }

    /// Time accumulated toward the next logic tick.
    pub closed spec fn spec_tick_acc(&self) -> u64 {
        self.tick_acc
    }

    /// Time accumulated toward the next frame.
    pub closed spec fn spec_render_acc(&self) -> u64 {
        self.render_acc
    }

    /// Intervals are positive and each accumulator stays below its
    /// interval between polls.
    pub closed spec fn wf(&self) -> bool {
        &&& 1 <= self.tick_interval
        &&& 1 <= self.render_interval
        &&& self.tick_acc < self.tick_interval
        &&& self.render_acc < self.render_interval
    }

    /// A scheduler with the given cadences, in milliseconds, and nothing
    /// accumulated yet.
    pub fn new(tick_interval_ms: u64, render_interval_ms: u64) -> (t: FixedTimestep)
        requires
            1 <= tick_interval_ms,
            1 <= render_interval_ms,
        ensures
            t.wf(),
            t.spec_tick_interval() == tick_interval_ms,
            t.spec_render_interval() == render_interval_ms,
            t.spec_tick_acc() == 0,
            t.spec_render_acc() == 0,
    {
        FixedTimestep {
            tick_interval: tick_interval_ms,
            render_interval: render_interval_ms,
            tick_acc: 0,
            render_acc: 0,
        }
    }

    /// Add the time that passed since the previous poll. The first result
    /// says whether a logic tick is due, the second whether a frame is due;
    /// a cadence that fires starts accumulating again from zero.
    pub fn advance(&mut self, elapsed_ms: u64) -> (due: (bool, bool))
        requires
            old(self).wf(),
        ensures
            final(self).wf(),
            final(self).spec_tick_interval() == old(self).spec_tick_interval(),
            final(self).spec_render_interval() == old(self).spec_render_interval(),
            due.0 == (old(self).spec_tick_acc() + elapsed_ms >= old(self).spec_tick_interval()),
            due.1 == (old(self).spec_render_acc() + elapsed_ms
                >= old(self).spec_render_interval()),
            final(self).spec_tick_acc() == (if due.0 {
                0
            } else {
                old(self).spec_tick_acc() + elapsed_ms
            }),
            final(self).spec_render_acc() == (if due.1 {
                0
            } else {
                old(self).spec_render_acc() + elapsed_ms
            }),
    {
        let tick_due = elapsed_ms >= self.tick_interval - self.tick_acc;
        if tick_due {
            self.tick_acc = 0;
        } else {
            self.tick_acc = self.tick_acc + elapsed_ms;
        }
        let render_due = elapsed_ms >= self.render_interval - self.render_acc;
        if render_due {
            self.render_acc = 0;
        } else {
            self.render_acc = self.render_acc + elapsed_ms;
        }
        (tick_due, render_due)
    }
}

} // verus!
