//! Frame timers: a repeating or one-shot countdown ticked once per frame with
//! the frame's elapsed milliseconds.

use vstd::prelude::*;

verus! {

/// Longest accepted single frame delta, in milliseconds.
pub const MAX_TICK_MS: u32 = 3_600_000;

/// Longest accepted timer duration, in milliseconds.
pub const MAX_DURATION_MS: u32 = 3_600_000;

#[derive(Clone, Copy, PartialEq, Eq, Structural, Debug)]
pub struct Timer {
    pub duration_ms: u32,
    pub elapsed_ms: u32,
    pub repeating: bool,
    pub finished: bool,
    pub just_finished: bool,
}

/// The timer state after one `tick` by `delta_ms`.
pub open spec fn spec_ticked(t: Timer, delta_ms: u32) -> Timer {
    let total = t.elapsed_ms + delta_ms;
    if t.repeating {
        if total >= t.duration_ms {
            Timer {
                just_finished: true,
                finished: true,
                elapsed_ms: (total % (t.duration_ms as int)) as u32,
                ..t
            }
        } else {
            Timer { just_finished: false, finished: false, elapsed_ms: total as u32, ..t }
        }
    } else {
        if total >= t.duration_ms {
            Timer { finished: true, just_finished: !t.finished, elapsed_ms: t.duration_ms, ..t }
        } else {
            Timer { finished: t.finished, just_finished: false, elapsed_ms: total as u32, ..t }
        }
    }
}

impl Timer {
    /// A timer as `from_millis` builds it.
    pub open spec fn spec_fresh(duration_ms: u32, repeating: bool) -> Timer {
        Timer { duration_ms, elapsed_ms: 0, repeating, finished: false, just_finished: false }
    }

    pub open spec fn wf(self) -> bool {
        &&& 1 <= self.duration_ms <= MAX_DURATION_MS
        &&& if self.repeating {
                self.elapsed_ms < self.duration_ms
            } else {
                &&& self.elapsed_ms <= self.duration_ms
                &&& self.finished == (self.elapsed_ms == self.duration_ms)
            }
    }

    /// A fresh timer; `repeating` timers complete once per elapsed period,
    /// one-shot timers latch `finished` at the first completion.
    pub fn from_millis(duration_ms: u32, repeating: bool) -> (t: Timer)
        requires
            1 <= duration_ms <= MAX_DURATION_MS,
        ensures
            t.wf(),
            t == Timer::spec_fresh(duration_ms, repeating),
            t.duration_ms == duration_ms,
            t.elapsed_ms == 0,
            t.repeating == repeating,
            !t.finished,
            !t.just_finished,
    {
        Timer { duration_ms, elapsed_ms: 0, repeating, finished: false, just_finished: false }
    }

    /// Advance the timer by one frame delta.  A repeating timer reports
    /// `just_finished` when the period completed this frame and wraps its
    /// elapsed time; a one-shot timer saturates at its duration and stays
    /// `finished` from the first completion on.
    pub fn tick(&mut self, delta_ms: u32)
        requires
            old(self).wf(),
            delta_ms <= MAX_TICK_MS,
        ensures
            final(self).wf(),
            *final(self) == spec_ticked(*old(self), delta_ms),
            final(self).duration_ms == old(self).duration_ms,
            final(self).repeating == old(self).repeating,
            old(self).repeating ==> {
                let total = old(self).elapsed_ms + delta_ms;
                &&& final(self).just_finished == (total >= old(self).duration_ms)
                &&& final(self).finished == final(self).just_finished
                &&& final(self).elapsed_ms == if total >= old(self).duration_ms {
                        total % (old(self).duration_ms as int)
                    } else {
                        total
                    }
            },
            !old(self).repeating ==> {
                let total = old(self).elapsed_ms + delta_ms;
                &&& final(self).finished == (total >= old(self).duration_ms)
                &&& final(self).just_finished == (final(self).finished && !old(self).finished)
                &&& final(self).elapsed_ms == if total >= old(self).duration_ms {
                        old(self).duration_ms as int
                    } else {
                        total
                    }
            },
    {
        let total = self.elapsed_ms + delta_ms;
        if self.repeating {
            if total >= self.duration_ms {
                self.just_finished = true;
                self.finished = true;
                self.elapsed_ms = total % self.duration_ms;
            } else {
                self.just_finished = false;
                self.finished = false;
                self.elapsed_ms = total;
            }
        } else {
            let was_finished = self.finished;
            if total >= self.duration_ms {
                self.finished = true;
                self.elapsed_ms = self.duration_ms;
            } else {
                self.elapsed_ms = total;
            }
            self.just_finished = self.finished && !was_finished;
        }
    }

    /// Rewind to the start without changing duration or mode.
    pub fn reset(&mut self)
        requires
            old(self).wf(),
        ensures
            final(self).wf(),
            final(self).duration_ms == old(self).duration_ms,
            final(self).repeating == old(self).repeating,
            final(self).elapsed_ms == 0,
            !final(self).finished,
            !final(self).just_finished,
    {
        self.elapsed_ms = 0;
        self.finished = false;
        self.just_finished = false;
    }
}

} // verus!
