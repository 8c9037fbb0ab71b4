//! Elapsed-time measurement between frames.
//!
//! The host clock is an injected capability: the shell reads its monotonic
//! timestamp (in microseconds) and hands the reading in, so every decision
//! made from it is checked here. Readings beyond [`MAX_TIME_US`] or running
//! backwards are clipped rather than trusted, keeping every operation total.

use vstd::prelude::*;

verus! {

/// The largest timestamp the library accepts: 2^53 microseconds (about 285
/// years), the range in which the host's floating-point clock is exact.
pub const MAX_TIME_US: u64 = 0x20_0000_0000_0000;

/// A raw reading clipped into the accepted range.
pub open spec fn clip_time(now: u64) -> u64 {
    if now > MAX_TIME_US {
        MAX_TIME_US
    } else {
        now
    }
}

/// A clipped reading settled against the previous one, so that time never
/// runs backwards inside the library.
pub open spec fn settle_time(now: u64, last: u64) -> u64 {
    if clip_time(now) < last {
        last
    } else {
        clip_time(now)
    }
}

/// Tracks the timestamp of the previous tick and yields the elapsed time
/// since then, or nothing on the first call, when "previous" is undefined.
pub struct Stopwatch {
    last_us: Option<u64>,
}

impl Stopwatch {
    /// The timestamp of the most recent call, if there was one.
    pub closed spec fn last(self) -> Option<u64> {
        self.last_us
    }

    /// All recorded timestamps are in range.
    pub open spec fn wf(self) -> bool {
        self.last() matches Some(t) ==> t <= MAX_TIME_US
    }

    /// A stopwatch that has not yet seen a tick.
    pub fn new() -> (r: Stopwatch)
        ensures
            r.last() is None,
            r.wf(),
    {
        Stopwatch { last_us: None }
    }

    /// Returns the microseconds elapsed since the previous call, or `None`
    /// on the first call after construction.
    pub fn delta_us(&mut self, now: u64) -> (r: Option<u64>)
        requires
            old(self).wf(),
        ensures
            final(self).wf(),
            old(self).last() is None ==> r is None && final(self).last() == Some(clip_time(now)),
            old(self).last() matches Some(t0) ==> {
                &&& final(self).last() == Some(settle_time(now, t0))
                &&& r == Some((settle_time(now, t0) - t0) as u64)
            },
    {
        let clipped = if now > MAX_TIME_US {
            MAX_TIME_US
        } else {
            now
        };
        match self.last_us {
            None => {
                self.last_us = Some(clipped);
                None
            },
            Some(t0) => {
                let settled = if clipped < t0 {
                    t0
                } else {
                    clipped
                };
                self.last_us = Some(settled);
                Some(settled - t0)
            },
        }
    }
}

} // verus!
