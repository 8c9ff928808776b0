//! The level countdown: elapsed play time measured against a level's
//! optional time limit, in whole milliseconds.

use vstd::prelude::*;

verus! {

/// Tracks how long the current level attempt has run, and the limit it must
/// stay under, if the level has one.
#[derive(Clone, Copy, Debug)]
pub struct GameTimer {
    pub elapsed_ms: u64,
    pub time_limit_ms: Option<u64>,
}

impl Default for GameTimer {
    /// A disarmed timer: nothing elapsed, no limit.
    fn default() -> (t: Self)
        ensures
            t.elapsed_ms == 0,
            t.time_limit_ms is None,
    {
        GameTimer { elapsed_ms: 0, time_limit_ms: None }
    }
}

impl GameTimer {
    /// Arms the timer for a fresh level attempt: elapsed time reset, the
    /// level's limit (if any) installed.
    pub fn arm(&mut self, time_limit_ms: Option<u64>)
        ensures
            final(self).elapsed_ms == 0,
            final(self).time_limit_ms == time_limit_ms,
    {
        self.elapsed_ms = 0;
        self.time_limit_ms = time_limit_ms;
    }

    /// Advances the timer by one frame's delta, saturating at the top of
    /// the counter's range.
    pub fn tick(&mut self, dt_ms: u64)
        ensures
            final(self).elapsed_ms == if old(self).elapsed_ms + dt_ms <= u64::MAX {
                old(self).elapsed_ms + dt_ms
            } else {
                u64::MAX as int
            },
            final(self).time_limit_ms == old(self).time_limit_ms,
    {
        if dt_ms <= u64::MAX - self.elapsed_ms {
            self.elapsed_ms = self.elapsed_ms + dt_ms;
        } else {
            self.elapsed_ms = u64::MAX;
        }
    }

    /// A time limit is set and the elapsed time has reached it.
    pub open spec fn expired_spec(&self) -> bool {
        self.time_limit_ms matches Some(limit) && self.elapsed_ms >= limit
    }

    /// Whether the level attempt has run out of time. A timer without a
    /// limit never expires.
    pub fn expired(&self) -> (e: bool)
        ensures
            e == self.expired_spec(),
    {
        match self.time_limit_ms {
            Some(limit) => self.elapsed_ms >= limit,
            None => false,
        }
    }
}

} // verus!
