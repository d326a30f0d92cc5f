//! Frame timers in whole milliseconds. A once timer runs to its duration
//! and stays finished; a repeating timer fires every time it crosses its
//! duration and keeps the remainder.

use vstd::prelude::*;

verus! {

/// A countdown driven by per-frame deltas.
#[derive(Clone, Copy, Debug, PartialEq, Eq, Structural)]
pub struct GameTimer {
    /// How long one cycle lasts; always positive.
    pub duration_ms: u32,
    /// Time accumulated so far; never past the duration.
    pub elapsed_ms: u32,
    /// Whether the timer starts over each time it finishes.
    pub repeating: bool,
}

/// Whether advancing `t` by `dt_ms` crosses its duration: this is the
/// frame on which the timer fires. A once timer that already finished
/// never fires again; a repeating timer fires on every crossing.
pub open spec fn fires(t: GameTimer, dt_ms: u32) -> bool {
    t.elapsed_ms < t.duration_ms && t.elapsed_ms + dt_ms >= t.duration_ms
}

/// The timer after one tick of `dt_ms`: a repeating timer keeps the
/// remainder past the last full cycle, a once timer clamps at its
/// duration. Duration and mode never change.
pub open spec fn spec_tick(t: GameTimer, dt_ms: u32) -> GameTimer {
    GameTimer {
        duration_ms: t.duration_ms,
        elapsed_ms: if t.repeating {
            ((t.elapsed_ms + dt_ms) % (t.duration_ms as int)) as u32
        } else if t.elapsed_ms + dt_ms <= t.duration_ms {
            (t.elapsed_ms + dt_ms) as u32
        } else {
            t.duration_ms
        },
        repeating: t.repeating,
    }
}

impl GameTimer {
    /// The invariant every timer keeps: a positive duration, and elapsed
    /// time at most the duration (strictly under it when repeating, since
    /// a repeating timer rolls over as it fires).
    pub open spec fn wf(self) -> bool {
        &&& self.duration_ms > 0
        &&& self.elapsed_ms <= self.duration_ms
        &&& self.repeating ==> self.elapsed_ms < self.duration_ms
    }

    /// A timer that fires once and then stays finished.
    pub fn new_once(duration_ms: u32) -> (r: GameTimer)
        requires
            duration_ms > 0,
        ensures
            r.wf(),
            r.duration_ms == duration_ms,
            r.elapsed_ms == 0,
            !r.repeating,
    {
        GameTimer { duration_ms, elapsed_ms: 0, repeating: false }
    }

    /// A timer that fires every `duration_ms` of accumulated time.
    pub fn new_repeating(duration_ms: u32) -> (r: GameTimer)
        requires
            duration_ms > 0,
        ensures
            r.wf(),
            r.duration_ms == duration_ms,
            r.elapsed_ms == 0,
            r.repeating,
    {
        GameTimer { duration_ms, elapsed_ms: 0, repeating: true }
    }

    /// Whether the timer has run its full duration. A once timer stays
    /// finished; a repeating timer is never at rest in this state.
    pub fn finished(&self) -> (r: bool)
        ensures
            r == (self.elapsed_ms >= self.duration_ms),
    {
        self.elapsed_ms >= self.duration_ms
    }

    /// Advance the timer by one frame's delta and report whether it
    /// crossed its duration during this call.
    pub fn tick(&mut self, dt_ms: u32) -> (just_finished: bool)
        requires
            old(self).wf(),
        ensures
            final(self).wf(),
            *final(self) == spec_tick(*old(self), dt_ms),
            just_finished == fires(*old(self), dt_ms),
    {
        let total: u64 = self.elapsed_ms as u64 + dt_ms as u64;
        let duration: u64 = self.duration_ms as u64;
        let crossed = self.elapsed_ms < self.duration_ms && total >= duration;
        if self.repeating {
            if total >= duration {
                let rest: u64 = total % duration;
                proof {
                    vstd::arithmetic::div_mod::lemma_mod_bound(total as int, duration as int);
                }
                self.elapsed_ms = rest as u32;
            } else {
                proof {
                    vstd::arithmetic::div_mod::lemma_small_mod(total as nat, duration as nat);
                }
                self.elapsed_ms = total as u32;
            }
        } else {
            if total >= duration {
                self.elapsed_ms = self.duration_ms;
            } else {
                self.elapsed_ms = total as u32;
            }
        }
        crossed
    }
}

} // verus!
