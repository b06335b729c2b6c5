//! The re-fetch scheduler.
//!
//! One scheduler per refresh kind emits a trigger whenever its fixed
//! period has elapsed; the price and order-book schedulers run on
//! independent periods and never block each other. Delivery of a
//! trigger says nothing about whether the previous cycle has finished.

use vstd::prelude::*;

verus! {

/// A fixed-period trigger source.
#[derive(Clone, Copy, Debug, PartialEq, Eq, Structural)]
pub struct Scheduler {
    /// The period between triggers, in milliseconds.
    pub period_ms: u64,
    /// When the last trigger fired, in milliseconds since the epoch.
    pub last_fire: i64,
}

impl Scheduler {
    /// A scheduler whose period starts counting at `now`.
    pub fn new(period_ms: u64, now: i64) -> (s: Scheduler)
        ensures
            s == (Scheduler { period_ms, last_fire: now }),
    {
        Scheduler { period_ms, last_fire: now }
    }

    /// Fire when at least one period has elapsed since the last
    /// trigger; firing restarts the period at `now`.
    pub fn poll(&mut self, now: i64) -> (fired: bool)
        ensures
            fired <==> now - old(self).last_fire >= old(self).period_ms,
            final(self).period_ms == old(self).period_ms,
            final(self).last_fire == if fired {
                now
            } else {
                old(self).last_fire
            },
    {
        let elapsed: i128 = now as i128 - self.last_fire as i128;
        if elapsed >= self.period_ms as i128 {
            self.last_fire = now;
            true
        } else {
            false
        }
    }
}

} // verus!
