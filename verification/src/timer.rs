//! A reusable countdown: the one decrement-and-clamp-at-zero pattern behind
//! all three status effects and the shoot cooldown.

use vstd::prelude::*;
use crate::arith::timer_tick_m;
use crate::consts::TIMER_LIMIT_MS;

verus! {

/// Milliseconds left; the effect it guards is active while this is positive.
#[derive(Clone, Copy, PartialEq, Eq, Debug)]
pub struct Countdown {
    pub ms: i64,
}

impl View for Countdown {
    type V = int;

    open spec fn view(&self) -> int {
        self.ms as int
    }
}

impl Countdown {
    pub open spec fn wf(self) -> bool {
        0 <= self.ms <= TIMER_LIMIT_MS
    }

    pub open spec fn active_m(self) -> bool {
        self.ms > 0
    }

    pub fn zero() -> (c: Countdown)
        ensures
            c.ms == 0,
            c.wf(),
    {
        Countdown { ms: 0 }
    }

    pub fn is_active(&self) -> (r: bool)
        ensures
            r == self.active_m(),
    {
        self.ms > 0
    }

    /// Let `dt` milliseconds pass; the countdown never goes below zero.
    pub fn tick(&mut self, dt: i64)
        requires
            old(self).wf(),
            0 <= dt,
        ensures
            final(self).ms == timer_tick_m(old(self).ms as int, dt as int),
            final(self).wf(),
    {
        if self.ms > dt {
            self.ms = self.ms - dt;
        } else {
            self.ms = 0;
        }
    }

    /// Flat reset: the countdown restarts at `d` no matter what it held.
    pub fn set(&mut self, d: i64)
        requires
            0 <= d <= TIMER_LIMIT_MS,
        ensures
            final(self).ms == d,
            final(self).wf(),
    {
        self.ms = d;
    }
}

} // verus!
