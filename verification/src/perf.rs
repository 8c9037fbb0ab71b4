//! A rolling frames-per-second meter.
//!
//! The meter keeps a fixed window of the most recent frame deltas, a running
//! sum, and a throttled display value, refreshed only once the window is
//! full and covers at least a second, so a visible label is not rewritten on
//! every frame. As with [`crate::time`], clock readings are injected in
//! microseconds; rendering the display value as text is the shell's job.

use vstd::prelude::*;
use vstd::arithmetic::div_mod::lemma_div_denominator;

use crate::time::{clip_time, settle_time, MAX_TIME_US};

verus! {

/// The number of frames over which to average.
pub const WINDOW_LEN: usize = 60;

/// The display value refreshes only when the window spans more than this
/// many microseconds (one second).
pub const REFRESH_SPAN_US: u64 = 1_000_000;

/// The sum of a sequence of deltas.
pub open spec fn sum_of(s: Seq<u64>) -> int
    decreases s.len(),
{
    if s.len() == 0 {
        0
    } else {
        s[0] + sum_of(s.drop_first())
    }
}

proof fn lemma_sum_nonneg(s: Seq<u64>)
    ensures
        sum_of(s) >= 0,
    decreases s.len(),
{
    if s.len() > 0 {
        lemma_sum_nonneg(s.drop_first());
    }
}

proof fn lemma_sum_update(s: Seq<u64>, i: int, v: u64)
    requires
        0 <= i < s.len(),
    ensures
        sum_of(s.update(i, v)) == sum_of(s) - s[i] + v,
    decreases s.len(),
{
    if i == 0 {
        assert(s.update(0, v).drop_first() =~= s.drop_first());
    } else {
        assert(s.update(i, v).drop_first() =~= s.drop_first().update(i - 1, v));
        lemma_sum_update(s.drop_first(), i - 1, v);
    }
}

proof fn lemma_sum_bound(s: Seq<u64>, b: int)
    requires
        forall|i: int| 0 <= i < s.len() ==> s[i] <= b,
    ensures
        sum_of(s) <= s.len() * b,
    decreases s.len(),
{
    if s.len() > 0 {
        lemma_sum_bound(s.drop_first(), b);
        assert(s.len() * b == b + (s.len() - 1) * b) by (nonlinear_arith);
    }
}

proof fn lemma_sum_elem(s: Seq<u64>, i: int)
    requires
        0 <= i < s.len(),
    ensures
        sum_of(s) >= s[i],
    decreases s.len(),
{
    lemma_sum_nonneg(s.drop_first());
    if i > 0 {
        lemma_sum_elem(s.drop_first(), i - 1);
    }
}

proof fn lemma_sum_const(s: Seq<u64>, d: u64)
    requires
        forall|i: int| 0 <= i < s.len() ==> s[i] == d,
    ensures
        sum_of(s) == s.len() * d,
    decreases s.len(),
{
    if s.len() > 0 {
        lemma_sum_const(s.drop_first(), d);
        assert(s.len() * d == d + (s.len() - 1) * d) by (nonlinear_arith);
    }
}

/// Tracks frame deltas and derives a throttled frames-per-second reading.
pub struct Fps {
    last_us: Option<u64>,
    deltas: Vec<u64>,
    count: u64,
    sum: u64,
    display_centi_fps: Option<u64>,
}

impl Fps {
    /// The previous clock reading, if any.
    pub closed spec fn last(self) -> Option<u64> {
        self.last_us
    }

    /// The window of recent deltas, oldest slots holding zero until enough
    /// ticks have been seen.
    pub closed spec fn window(self) -> Seq<u64> {
        self.deltas@
    }

    /// The total number of measured ticks so far.
    pub closed spec fn count(self) -> u64 {
        self.count
    }

    /// The running sum of the window.
    pub closed spec fn sum(self) -> u64 {
        self.sum
    }

    /// The current display value, in hundredths of a frame per second.
    pub closed spec fn display(self) -> Option<u64> {
        self.display_centi_fps
    }

    /// Structural invariant: the window has fixed length, every delta is a
    /// clipped time, and the running sum really is the window's sum.
    pub open spec fn wf(self) -> bool {
        &&& self.window().len() == WINDOW_LEN
        &&& (forall|i: int| 0 <= i < self.window().len() ==> self.window()[i] <= MAX_TIME_US)
        &&& self.sum() == sum_of(self.window())
        &&& (self.last() matches Some(t) ==> t <= MAX_TIME_US)
    }

    /// Whether a tick measured against previous time `t0` at reading `now`
    /// refreshes the display.
    pub open spec fn refreshes(self, now: u64, t0: u64) -> bool {
        &&& self.sum() - self.window()[(self.count() % (WINDOW_LEN as u64)) as int] + (
        settle_time(now, t0) - t0) > REFRESH_SPAN_US
        &&& self.count() >= WINDOW_LEN
    }

    /// A meter that has not yet seen a tick. With "previous" undefined, the
    /// very first tick only records its reading and measures no delta.
    pub fn new() -> (r: Fps)
        ensures
            r.wf(),
            r.last() is None,
            r.count() == 0,
            r.sum() == 0,
            r.display() is None,
            forall|i: int| 0 <= i < r.window().len() ==> r.window()[i] == 0,
    {
        let mut deltas: Vec<u64> = Vec::new();
        let mut i: usize = 0;
        while i < WINDOW_LEN
            invariant
                i <= WINDOW_LEN,
                deltas@.len() == i,
                forall|j: int| 0 <= j < i ==> deltas@[j] == 0,
            decreases WINDOW_LEN - i,
        {
            deltas.push(0);
            i += 1;
        }
        proof {
            lemma_sum_const(deltas@, 0);
        }
        Fps { last_us: None, deltas, count: 0, sum: 0, display_centi_fps: None }
    }

    /// Advances the meter by one frame at clock reading `now_us`: the oldest
    /// delta in the window is replaced by the newly measured one, and the
    /// display refreshes once the window is full and spans more than a
    /// second.
    pub fn tick(&mut self, now_us: u64)
        requires
            old(self).wf(),
        ensures
            final(self).wf(),
            old(self).last() is None ==> {
                &&& final(self).last() == Some(clip_time(now_us))
                &&& final(self).window() == old(self).window()
                &&& final(self).display() == old(self).display()
                &&& final(self).sum() == old(self).sum()
            },
            old(self).last() matches Some(t0) ==> {
                &&& final(self).last() == Some(settle_time(now_us, t0))
                &&& final(self).window() == old(self).window().update(
                    (old(self).count() % (WINDOW_LEN as u64)) as int,
                    (settle_time(now_us, t0) - t0) as u64,
                )
                &&& final(self).sum() == sum_of(final(self).window())
                &&& final(self).display() == if old(self).refreshes(now_us, t0) {
                    Some((6_000_000_000u64 / final(self).sum()) as u64)
                } else {
                    old(self).display()
                }
            },
            final(self).count() == if old(self).count() < u64::MAX {
                (old(self).count() + 1) as u64
            } else {
                old(self).count()
            },
    {
        match self.last_us {
            None => {
                let clipped = if now_us > MAX_TIME_US {
                    MAX_TIME_US
                } else {
                    now_us
                };
                self.last_us = Some(clipped);
            },
            Some(t0) => {
                let clipped = if now_us > MAX_TIME_US {
                    MAX_TIME_US
                } else {
                    now_us
                };
                let settled = if clipped < t0 {
                    t0
                } else {
                    clipped
                };
                let delta = settled - t0;
                let index = (self.count % (WINDOW_LEN as u64)) as usize;
                proof {
                    lemma_sum_elem(self.deltas@, index as int);
                    lemma_sum_bound(self.deltas@, MAX_TIME_US as int);
                }
                let evicted = self.deltas[index];
                let partial = self.sum - evicted;
                self.sum = partial + delta;
                self.deltas.set(index, delta);
                proof {
                    lemma_sum_update(old(self).deltas@, index as int, delta);
                }
                if self.sum > REFRESH_SPAN_US && self.count >= (WINDOW_LEN as u64) {
                    // 60 frames * 1_000_000 us/s * 100, over the window's
                    // span in microseconds: frames per second, in
                    // hundredths.
                    self.display_centi_fps = Some(6_000_000_000u64 / self.sum);
                }
                self.last_us = Some(settled);
            },
        }
        if self.count < u64::MAX {
            self.count = self.count + 1;
        }
    }

    /// The current display reading, for the shell to render.
    pub fn reading_centi_fps(&self) -> (r: Option<u64>)
        ensures
            r == self.display(),
    {
        self.display_centi_fps
    }
}

/// A window of constant deltas `d` averages to exactly `100_000_000 / d`
/// hundredths of a frame per second: feeding the meter a steady delta drives
/// the display to the reciprocal rate (16_670 microseconds per frame reads
/// as 59.98 frames per second, 33_300 as 30.03).
pub proof fn lemma_constant_rate(m: Fps, d: u64)
    requires
        m.wf(),
        0 < d,
        forall|i: int| 0 <= i < m.window().len() ==> m.window()[i] == d,
    ensures
        m.sum() == WINDOW_LEN * d,
        6_000_000_000int / (WINDOW_LEN * d) == 100_000_000int / (d as int),
{
    lemma_sum_const(m.window(), d);
    lemma_div_denominator(6_000_000_000, 60, d as int);
}

} // verus!
