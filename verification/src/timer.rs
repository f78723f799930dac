//! A countdown timer over whole milliseconds, in the two modes the
//! game uses: a repeating timer that wraps each time its interval
//! elapses (sprite animation) and a one-shot timer that stops at its
//! duration until it is re-armed (pickup spawning).

use vstd::prelude::*;

verus! {

#[derive(Clone, Copy, Debug, PartialEq, Eq, Structural)]
pub enum TimerMode {
    /// Runs to its duration once and then stays finished until re-armed.
    Once,
    /// Wraps around each time the duration elapses.
    Repeating,
}

#[derive(Clone, Copy, Debug, PartialEq, Eq, Structural)]
pub struct Timer {
    pub duration_ms: u64,
    pub elapsed_ms: u64,
    pub mode: TimerMode,
    /// Whether the most recent tick completed at least one interval.
    pub just_finished: bool,
}

impl Timer {
    /// A timer is well formed when its duration is positive and its
    /// elapsed time never runs past the duration (a repeating timer
    /// wraps, so it stays strictly below).
    pub open spec fn wf(self) -> bool {
        &&& self.duration_ms > 0
        &&& self.elapsed_ms <= self.duration_ms
        &&& (self.mode is Repeating ==> self.elapsed_ms < self.duration_ms)
    }

    /// A one-shot timer that has run its full duration.
    pub open spec fn spec_finished(self) -> bool {
        self.elapsed_ms == self.duration_ms
    }

    /// How many whole intervals a tick of `delta_ms` completes.
    pub open spec fn spec_completions(self, delta_ms: u64) -> int {
        if self.mode is Repeating {
            (self.elapsed_ms + delta_ms) / (self.duration_ms as int)
        } else {
            if !self.spec_finished() && self.elapsed_ms + delta_ms >= self.duration_ms {
                1
            } else {
                0
            }
        }
    }

    /// The timer state after a tick of `delta_ms`.
    pub open spec fn spec_tick(self, delta_ms: u64) -> Timer {
        Timer {
            duration_ms: self.duration_ms,
            elapsed_ms: if self.mode is Repeating {
                ((self.elapsed_ms + delta_ms) % (self.duration_ms as int)) as u64
            } else if self.elapsed_ms + delta_ms >= self.duration_ms {
                self.duration_ms
            } else {
                (self.elapsed_ms + delta_ms) as u64
            },
            mode: self.mode,
            just_finished: self.spec_completions(delta_ms) > 0,
        }
    }

    pub fn new(duration_ms: u64, mode: TimerMode) -> (t: Timer)
        requires
            duration_ms > 0,
        ensures
            t == (Timer { duration_ms, elapsed_ms: 0, mode, just_finished: false }),
            t.wf(),
    {
        Timer { duration_ms, elapsed_ms: 0, mode, just_finished: false }
    }

    /// Advance the timer by `delta_ms` and report how many whole
    /// intervals that completed. A repeating timer wraps its elapsed
    /// time; a one-shot timer saturates at its duration and reports a
    /// completion only on the tick that reaches it.
    pub fn tick(&mut self, delta_ms: u64) -> (completions: u64)
        requires
            old(self).wf(),
            old(self).elapsed_ms + delta_ms <= u64::MAX,
        ensures
            final(self).wf(),
            *final(self) == old(self).spec_tick(delta_ms),
            completions == old(self).spec_completions(delta_ms),
            final(self).just_finished == (completions > 0),
    {
        match self.mode {
            TimerMode::Repeating => {
                let total: u64 = self.elapsed_ms + delta_ms;
                let completions: u64 = total / self.duration_ms;
                self.elapsed_ms = total % self.duration_ms;
                self.just_finished = completions > 0;
                completions
            }
            TimerMode::Once => {
                let was_finished: bool = self.elapsed_ms == self.duration_ms;
                let total: u64 = self.elapsed_ms + delta_ms;
                if total >= self.duration_ms {
                    self.elapsed_ms = self.duration_ms;
                    self.just_finished = !was_finished;
                    if was_finished {
                        0
                    } else {
                        1
                    }
                } else {
                    self.elapsed_ms = total;
                    self.just_finished = false;
                    0
                }
            }
        }
    }

    /// Give the timer a fresh duration and start it over from zero.
    pub fn rearm(&mut self, duration_ms: u64)
        requires
            duration_ms > 0,
        ensures
            *final(self) == (Timer {
                duration_ms,
                elapsed_ms: 0,
                mode: old(self).mode,
                just_finished: false,
            }),
            final(self).wf(),
    {
        self.duration_ms = duration_ms;
        self.elapsed_ms = 0;
        self.just_finished = false;
    }
}

} // verus!
