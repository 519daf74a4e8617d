//! How long each tick of a periodic timer really lasted.
//!
//! A periodic timer yields the instant each tick was scheduled for. The time a
//! tick measures runs from the previous tick's scheduled instant to the moment
//! the new tick is observed, so delays in waking up count towards the interval
//! they delayed. Instants are nanoseconds since a fixed origin.

use vstd::prelude::*;

verus! {

/// The time from `from` to `to`, or zero when `to` is not later, as a clock
/// measures the time elapsed since an instant.
pub open spec fn elapsed_between(from: u64, to: u64) -> u64 {
    if to >= from {
        (to - from) as u64
    } else {
        0
    }
}

/// The state of a periodic timer: the scheduled instant of its last tick.
pub struct TickTimer {
    prev_tick_nanos: u64,
}

impl TickTimer {
    /// The scheduled instant of the last tick.
    pub closed spec fn prev_tick(&self) -> u64 {
        self.prev_tick_nanos
    }

    /// A timer whose first tick, which a periodic timer yields at once, was
    /// scheduled for `first_tick_nanos`.
    pub fn new(first_tick_nanos: u64) -> (t: TickTimer)
        ensures
            t.prev_tick() == first_tick_nanos,
    {
        TickTimer { prev_tick_nanos: first_tick_nanos }
    }

    /// A new tick, scheduled for `tick_nanos`, observed at `now_nanos`:
    /// returns the time since the previous tick and moves to the new one.
    pub fn tick(&mut self, tick_nanos: u64, now_nanos: u64) -> (elapsed: u64)
        ensures
            elapsed == elapsed_between(old(self).prev_tick(), now_nanos),
            final(self).prev_tick() == tick_nanos,
    {
        let elapsed = if now_nanos >= self.prev_tick_nanos {
            now_nanos - self.prev_tick_nanos
        } else {
            0
        };
        self.prev_tick_nanos = tick_nanos;
        elapsed
    }

    /// Law: when every tick is observed at the instant it was scheduled for,
    /// the times measured by consecutive ticks are the gaps between their
    /// schedules, and over two ticks they add up to the whole span.
    pub proof fn lemma_punctual_ticks_add_up(first: u64, second: u64, third: u64)
        requires
            first <= second <= third,
        ensures
            elapsed_between(first, second) + elapsed_between(second, third)
                == elapsed_between(first, third),
    {
    }
}

} // verus!
