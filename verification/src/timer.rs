//! The tick scheduler: a repeating timer that accumulates elapsed wall-clock
//! time and fires once whenever the accumulator reaches the interval. It is
//! advanced every frame regardless of the run state, so time banks silently
//! while editing.

use vstd::prelude::*;

verus! {

/// A repeating countdown against a fixed interval. The accumulator always
/// stays below the interval between frames; when a frame's elapsed time
/// pushes it to the interval or beyond, the timer fires exactly once and the
/// accumulator wraps, so several intervals elapsing within one oversized
/// frame coalesce into a single fire.
pub struct TickTimer {
    interval_ms: u64,
    elapsed_ms: u64,
}

impl TickTimer {
    /// The fixed interval, in milliseconds.
    pub closed spec fn interval(&self) -> int {
        self.interval_ms as int
    }

    /// The accumulated time since the last fire, in milliseconds.
    pub closed spec fn accumulated(&self) -> int {
        self.elapsed_ms as int
    }

    /// Well-formedness: a positive interval, and an accumulator that has not
    /// yet reached it.
    pub open spec fn wf(&self) -> bool {
        1 <= self.interval() && 0 <= self.accumulated() < self.interval()
    }

    /// Whether advancing by `delta` milliseconds makes the timer fire.
    pub open spec fn fires(&self, delta: int) -> bool {
        self.accumulated() + delta >= self.interval()
    }

    /// How one frame relates the timer's state after `advance` to its state
    /// before: the interval is fixed for the timer's lifetime; without a
    /// fire the accumulator just grows; on a fire it wraps to the remainder
    /// (unless the sum exceeds the machine range, where it still wraps to
    /// some value below the interval).
    pub open spec fn advanced_by(pre: TickTimer, post: TickTimer, delta: int) -> bool {
        &&& post.interval() == pre.interval()
        &&& post.wf()
        &&& !pre.fires(delta) ==> post.accumulated() == pre.accumulated() + delta
        &&& (pre.fires(delta) && pre.accumulated() + delta <= u64::MAX)
            ==> post.accumulated() == (pre.accumulated() + delta) % pre.interval()
    }

    /// Builds a timer that has just started counting.
    pub fn new(interval_ms: u64) -> (t: TickTimer)
        requires
            1 <= interval_ms,
        ensures
            t.wf(),
            t.interval() == interval_ms,
            t.accumulated() == 0,
    {
        TickTimer { interval_ms, elapsed_ms: 0 }
    }

    /// Advances the timer by one frame's elapsed time and reports whether it
    /// fired.
    pub fn advance(&mut self, delta_ms: u64) -> (fired: bool)
        requires
            old(self).wf(),
        ensures
            fired == old(self).fires(delta_ms as int),
            TickTimer::advanced_by(*old(self), *final(self), delta_ms as int),
    {
        let total = if delta_ms > u64::MAX - self.elapsed_ms {
            u64::MAX
        } else {
            self.elapsed_ms + delta_ms
        };
        if total >= self.interval_ms {
            self.elapsed_ms = total % self.interval_ms;
            true
        } else {
            self.elapsed_ms = total;
            false
        }
    }
}

} // verus!
