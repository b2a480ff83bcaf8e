//! The movement clock: a repeating countdown that fires at most once per update.

use vstd::prelude::*;
use vstd::arithmetic::div_mod::lemma_mod_add_multiples_vanish;

verus! {

/// What a clock holds, in nanoseconds.
pub ghost struct ClockView {
    pub period: nat,
    pub elapsed: nat,
}

impl ClockView {
    /// The elapsed time never reaches a full period.
    pub open spec fn wf(self) -> bool {
        if self.period == 0 {
            self.elapsed == 0
        } else {
            self.elapsed < self.period
        }
    }

    /// An update of `delta` nanoseconds completes the period.
    pub open spec fn fires(self, delta: nat) -> bool {
        self.elapsed + delta >= self.period
    }

    /// The clock after an update of `delta` nanoseconds: the time past the end of
    /// the period carries over, whole periods beyond it are dropped.
    pub open spec fn advanced(self, delta: nat) -> ClockView {
        ClockView {
            period: self.period,
            elapsed: if self.period == 0 {
                0
            } else {
                (self.elapsed + delta) % self.period
            },
        }
    }
}

/// A repeating countdown with a fixed period.
#[derive(Clone, Copy, Debug)]
pub struct MovementClock {
    period: u64,
    elapsed: u64,
}

impl View for MovementClock {
    type V = ClockView;

    closed spec fn view(&self) -> ClockView {
        ClockView { period: self.period as nat, elapsed: self.elapsed as nat }
    }
}

impl MovementClock {
    /// A clock that fires every `period` nanoseconds, starting from zero.
    pub fn from_nanos(period: u64) -> (r: MovementClock)
        ensures
            r@ == (ClockView { period: period as nat, elapsed: 0 }),
            r@.wf(),
    {
        MovementClock { period, elapsed: 0 }
    }

    /// The period in nanoseconds.
    pub fn period(&self) -> (r: u64)
        ensures
            r == self@.period,
    {
        self.period
    }

    /// The time accumulated towards the next firing, in nanoseconds.
    pub fn elapsed(&self) -> (r: u64)
        ensures
            r == self@.elapsed,
    {
        self.elapsed
    }

    /// Adds `delta` nanoseconds and tells whether the period was completed. However
    /// large `delta` is, the clock fires at most once.
    pub fn tick(&mut self, delta: u64) -> (fired: bool)
        requires
            old(self)@.wf(),
        ensures
            fired == old(self)@.fires(delta as nat),
            final(self)@ == old(self)@.advanced(delta as nat),
            final(self)@.wf(),
    {
        if self.period == 0 {
            return true;
        }
        let rest = self.period - self.elapsed;
        if delta >= rest {
            let over = delta - rest;
            proof {
                lemma_mod_add_multiples_vanish(over as int, self.period as int);
            }
            self.elapsed = over % self.period;
            true
        } else {
            self.elapsed = self.elapsed + delta;
            proof {
                vstd::arithmetic::div_mod::lemma_small_mod(self.elapsed as nat, self.period as nat);
            }
            false
        }
    }
}

} // verus!
