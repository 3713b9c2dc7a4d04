//! The rack's shared time source.

use vstd::prelude::*;

use crate::types::{SAMPLE_RATE, SAMPLE_SCALE};

verus! {

/// Raw time value (in micro-seconds) past which the clock wraps back toward
/// zero, to keep the time value bounded. Periodic consumers must keep their
/// own phase accumulator rather than derive phase from absolute time, so
/// the wrap causes no discontinuity for them.
pub const TIME_WRAP: i64 = 100_000_000_000;

/// A monotonic-between-wraps time value, advanced by a fixed per-tick delta
/// of `1 / SAMPLE_RATE` seconds, shared read-only with any module that needs
/// phase.
pub struct Clock {
    /// Current time, in micro-seconds.
    pub time: i64,
    /// Per-tick advance, in micro-seconds: one sample period.
    pub time_delta: i64,
    /// Whether the clock is being driven.
    pub running: bool,
}

impl Clock {
    /// Whether the clock's fields are in their operating ranges.
    pub open spec fn wf(self) -> bool {
        &&& 0 <= self.time <= TIME_WRAP + self.time_delta
        &&& 1 <= self.time_delta <= SAMPLE_SCALE
    }

    /// A clock at time zero ticking at `SAMPLE_RATE`.
    pub fn new() -> (r: Clock)
        ensures
            r.time == 0,
            r.time_delta == SAMPLE_SCALE / SAMPLE_RATE,
            !r.running,
            r.wf(),
    {
        Clock { time: 0, time_delta: SAMPLE_SCALE / SAMPLE_RATE, running: false }
    }

    /// Mark the clock as running. Driving the tick loop itself is the
    /// enclosing driver's job; the flag is advisory.
    pub fn start_clock(&mut self)
        ensures
            *final(self) == (Clock { running: true, ..*old(self) }),
    {
        self.running = true;
    }

    /// Mark the clock as stopped.
    pub fn stop_clock(&mut self)
        ensures
            *final(self) == (Clock { running: false, ..*old(self) }),
    {
        self.running = false;
    }

    /// Reset time to zero.
    pub fn reset_clock(&mut self)
        ensures
            *final(self) == (Clock { time: 0, ..*old(self) }),
    {
        self.time = 0;
    }

    /// The current time value.
    pub fn get_time_ref(&self) -> (r: i64)
        ensures
            r == self.time,
    {
        self.time
    }

    /// The current time value; always available.
    pub fn get_current_time(&self) -> (r: Option<i64>)
        ensures
            r == Some(self.time),
    {
        Some(self.time)
    }

    /// Overwrite the current time value.
    pub fn set_time(&mut self, new_time: i64)
        ensures
            *final(self) == (Clock { time: new_time, ..*old(self) }),
    {
        self.time = new_time;
    }

    /// Advance by one tick: add the fixed delta, or wrap back toward zero
    /// once past `TIME_WRAP`.
    pub fn increment(&mut self)
        requires
            old(self).wf(),
        ensures
            final(self).time == if old(self).time >= TIME_WRAP {
                old(self).time - TIME_WRAP
            } else {
                old(self).time + old(self).time_delta
            },
            final(self).time_delta == old(self).time_delta,
            final(self).running == old(self).running,
            final(self).wf(),
    {
        if self.time >= TIME_WRAP {
            self.time = self.time - TIME_WRAP;
        } else {
            self.time = self.time + self.time_delta;
        }
    }
}

impl Default for Clock {
    /// A clock at time zero ticking at `SAMPLE_RATE`.
    fn default() -> (r: Clock)
        ensures
            r.time == 0,
            r.time_delta == SAMPLE_SCALE / SAMPLE_RATE,
            !r.running,
            r.wf(),
    {
        Clock::new()
    }
}

} // verus!
