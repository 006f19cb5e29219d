//! Simulation time stepping from compositor-predicted display timestamps.
//!
//! The compositor hands out an opaque monotonic timestamp (nanoseconds) for
//! every frame. The tracker turns consecutive timestamps into a bounded step
//! for simulation code: glitched deltas (negative after wrapping, or over
//! half a second) are replaced by a fixed default of one sixtieth of a
//! second, so a single bad timestamp cannot destabilize stepping.

use vstd::prelude::*;

verus! {

/// Largest raw timestamp difference accepted as a simulation step, in
/// nanoseconds. Anything above it (or negative) is treated as a glitch.
pub const MAX_DELTA_NANOS: i64 = 500_000_000;

/// Step used in place of a glitched difference: one sixtieth of a second,
/// in nanoseconds.
pub const DEF_DELTA_NANOS: i64 = 16_666_666;

/// Outcome of advancing the tracker to a new predicted display timestamp.
#[derive(Clone, Copy, Debug, PartialEq, Eq, Structural)]
pub enum TimeDelta {
    /// The tracker had no baseline yet; this timestamp becomes it and the
    /// simulation does not advance.
    FirstFrame,
    /// Nanoseconds the simulation advances by; always in
    /// `0 ..= MAX_DELTA_NANOS`.
    Delta { nanos: i64 },
}

/// The raw difference between two consecutive timestamps, computed with
/// wrapping subtraction so that no input pair can abort.
pub open spec fn raw_step(last: i64, now: i64) -> i64 {
    vstd::wrapping::i64_specs::wrapping_sub(now, last)
}

/// The simulation step derived from two consecutive timestamps: the raw
/// difference when it is plausible, the fixed default otherwise.
pub open spec fn clamped_step(last: i64, now: i64) -> i64 {
    if raw_step(last, now) < 0 || raw_step(last, now) > MAX_DELTA_NANOS {
        DEF_DELTA_NANOS
    } else {
        raw_step(last, now)
    }
}

/// Converts compositor timestamps into bounded, monotonic simulation steps.
pub struct TimeTracker {
    last_time: Option<i64>,
    elapsed_ns: i64,
}

impl TimeTracker {
    /// The timestamp the next step will be measured from, if one was seen.
    pub closed spec fn last_time(&self) -> Option<i64> {
        self.last_time
    }

    /// Total nanoseconds the simulation has advanced by.
    pub closed spec fn elapsed(&self) -> i64 {
        self.elapsed_ns
    }

    /// The tracker after advancing to timestamp `now`: `now` becomes the
    /// baseline; the clamped step is added to the elapsed total, which
    /// resets to zero instead of overflowing.
    pub closed spec fn stepped(self, now: i64) -> TimeTracker {
        match self.last_time {
            None => TimeTracker { last_time: Some(now), elapsed_ns: self.elapsed_ns },
            Some(last) => TimeTracker {
                last_time: Some(now),
                elapsed_ns: if self.elapsed_ns + clamped_step(last, now) <= i64::MAX {
                    (self.elapsed_ns + clamped_step(last, now)) as i64
                } else {
                    0
                },
            },
        }
    }

    /// A fresh tracker: no baseline, no elapsed time.
    pub fn new() -> (t: Self)
        ensures
            t.last_time() is None,
            t.elapsed() == 0,
    {
        TimeTracker { last_time: None, elapsed_ns: 0 }
    }

    /// Total nanoseconds the simulation has advanced by.
    pub fn real_time_nanos(&self) -> (n: i64)
        ensures
            n == self.elapsed(),
    {
        self.elapsed_ns
    }

    /// Advances the tracker to a new predicted display timestamp.
    ///
    /// The first call records the baseline and yields `FirstFrame`. Every
    /// later call yields the clamped step between the previous and the new
    /// timestamp and adds it to the elapsed total; if that addition would
    /// overflow, the total resets to zero (a documented edge case, reached
    /// only after centuries of accumulated time). No input pair panics.
    pub fn delta(&mut self, predicted_display_time: i64) -> (d: TimeDelta)
        requires
            old(self).elapsed() >= 0,
        ensures
            *final(self) == old(self).stepped(predicted_display_time),
            final(self).last_time() == Some(predicted_display_time),
            final(self).elapsed() >= 0,
            old(self).last_time() is None ==> {
                &&& d == TimeDelta::FirstFrame
                &&& final(self).elapsed() == old(self).elapsed()
            },
            old(self).last_time() matches Some(last) ==> {
                &&& d == (TimeDelta::Delta { nanos: clamped_step(last, predicted_display_time) })
                &&& 0 <= clamped_step(last, predicted_display_time) <= MAX_DELTA_NANOS
                &&& if old(self).elapsed() + clamped_step(last, predicted_display_time)
                    <= i64::MAX {
                    final(self).elapsed() == old(self).elapsed() + clamped_step(
                        last,
                        predicted_display_time,
                    )
                } else {
                    final(self).elapsed() == 0
                }
            },
    {
        let last_time = self.last_time;
        self.last_time = Some(predicted_display_time);
        match last_time {
            None => TimeDelta::FirstFrame,
            Some(last_time) => {
                let mut nanos = predicted_display_time.wrapping_sub(last_time);
                if nanos < 0 || nanos > MAX_DELTA_NANOS {
                    nanos = DEF_DELTA_NANOS;
                }
                self.elapsed_ns = match self.elapsed_ns.checked_add(nanos) {
                    None => 0,
                    Some(next) => next,
                };
                TimeDelta::Delta { nanos }
            },
        }
    }
}

impl Default for TimeTracker {
    /// A fresh tracker: no baseline, no elapsed time.
    fn default() -> (t: Self)
        ensures
            t.last_time() is None,
            t.elapsed() == 0,
    {
        TimeTracker::new()
    }
}

/// Law: a step never decreases the elapsed total, except for the documented
/// reset to zero when the total would overflow a signed 64-bit count.
pub proof fn lemma_elapsed_monotonic(t: TimeTracker, now: i64)
    requires
        t.elapsed() >= 0,
    ensures
        t.stepped(now).elapsed() >= t.elapsed() || t.stepped(now).elapsed() == 0,
{
}

} // verus!
