use vstd::prelude::*;

verus! {

/// A reusable deadline primitive.
///
/// A timer is armed with a duration and "rings" once the caller's clock
/// reaches the deadline. The clock is a count of elapsed milliseconds that
/// the caller passes to every query; deadlines saturate at `u64::MAX`.
#[derive(Clone, Copy, PartialEq, Eq, Structural, Debug)]
pub struct Timer {
    /// The configured interval in milliseconds.
    pub duration_ms: u64,
    /// The instant, in milliseconds, at which the timer rings.
    pub deadline_ms: u64,
}

impl Timer {
    /// The deadline a timer with the given duration holds after being armed
    /// at `now`.
    pub open spec fn armed_deadline(now: u64, duration_ms: u64) -> u64 {
        now.saturating_add(duration_ms)
    }

    /// Whether the timer rings at `now`.
    pub open spec fn ringing_at(self, now: u64) -> bool {
        now >= self.deadline_ms
    }

    /// The timer after `reset` at `now`: same duration, deadline pushed to
    /// one interval past `now`.
    pub open spec fn reset_at(self, now: u64) -> Timer {
        Timer { duration_ms: self.duration_ms, deadline_ms: Timer::armed_deadline(now, self.duration_ms) }
    }

    /// Arms a timer that first rings `duration_ms` after `now`.
    pub fn new(now: u64, duration_ms: u64) -> (t: Timer)
        ensures
            t.duration_ms == duration_ms,
            t.deadline_ms == Timer::armed_deadline(now, duration_ms),
    {
        Timer { duration_ms, deadline_ms: now.saturating_add(duration_ms) }
    }

    /// Pushes the deadline to one interval past `now`.
    pub fn reset(&mut self, now: u64)
        ensures
            *final(self) == old(self).reset_at(now),
    {
        self.deadline_ms = now.saturating_add(self.duration_ms);
    }

    /// Forces the deadline into the past, so the timer rings on the very
    /// next check whatever the clock reads.
    pub fn ring_manual(&mut self)
        ensures
            final(self).duration_ms == old(self).duration_ms,
            final(self).deadline_ms == 0,
    {
        self.deadline_ms = 0;
    }

    /// Whether the timer has elapsed at `now`; no side effects.
    pub fn ringing(&self, now: u64) -> (r: bool)
        ensures
            r == self.ringing_at(now),
    {
        now >= self.deadline_ms
    }
}

} // verus!
