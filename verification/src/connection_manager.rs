use vstd::prelude::*;

use crate::timer::Timer;

verus! {

/// Per-peer liveness bookkeeping: one timer for the heartbeat-send cadence
/// and one for the silence timeout.
///
/// The two are independent clocks on purpose: a link that keeps sending but
/// never hears anything is still judged dead, and a link that keeps hearing
/// data never spuriously drops. Outbound application traffic also resets
/// the heartbeat timer (every send is recorded), so an actively sending
/// link emits no redundant heartbeats.
#[derive(Clone, Copy, PartialEq, Eq, Structural, Debug)]
pub struct ConnectionManager {
    /// False for the connectionless variant: both checks are then
    /// permanently false.
    pub monitoring: bool,
    /// Rings when a heartbeat is due.
    pub heartbeat_timer: Timer,
    /// Rings when the peer has been silent past the timeout.
    pub heard_timer: Timer,
}

impl ConnectionManager {
    /// The manager `new` returns: both timers armed at `now`.
    pub open spec fn fresh(now: u64, heartbeat_interval_ms: u64, timeout_ms: u64) -> ConnectionManager {
        ConnectionManager {
            monitoring: true,
            heartbeat_timer: Timer {
                duration_ms: heartbeat_interval_ms,
                deadline_ms: Timer::armed_deadline(now, heartbeat_interval_ms),
            },
            heard_timer: Timer {
                duration_ms: timeout_ms,
                deadline_ms: Timer::armed_deadline(now, timeout_ms),
            },
        }
    }

    /// The manager `connectionless` returns: monitoring off.
    pub open spec fn off() -> ConnectionManager {
        ConnectionManager {
            monitoring: false,
            heartbeat_timer: Timer { duration_ms: 0, deadline_ms: 0 },
            heard_timer: Timer { duration_ms: 0, deadline_ms: 0 },
        }
    }

    /// The manager after a send is recorded at `now`.
    pub open spec fn marked_sent(self, now: u64) -> ConnectionManager {
        ConnectionManager { heartbeat_timer: self.heartbeat_timer.reset_at(now), ..self }
    }

    /// The manager after a received frame is recorded at `now`.
    pub open spec fn marked_heard(self, now: u64) -> ConnectionManager {
        ConnectionManager { heard_timer: self.heard_timer.reset_at(now), ..self }
    }

    /// Whether a heartbeat is due at `now`.
    pub open spec fn should_send_heartbeat_at(self, now: u64) -> bool {
        self.monitoring && self.heartbeat_timer.ringing_at(now)
    }

    /// Whether the peer counts as dropped at `now`.
    pub open spec fn should_drop_at(self, now: u64) -> bool {
        self.monitoring && self.heard_timer.ringing_at(now)
    }

    /// Starts monitoring a peer: a heartbeat falls due `heartbeat_interval_ms`
    /// after `now`, and the peer is declared dropped after `timeout_ms` of
    /// silence.
    pub fn new(now: u64, heartbeat_interval_ms: u64, timeout_ms: u64) -> (m: ConnectionManager)
        ensures
            m == ConnectionManager::fresh(now, heartbeat_interval_ms, timeout_ms),
    {
        ConnectionManager {
            monitoring: true,
            heartbeat_timer: Timer::new(now, heartbeat_interval_ms),
            heard_timer: Timer::new(now, timeout_ms),
        }
    }

    /// The variant with both checks disabled, for connectionless links.
    pub fn connectionless() -> (m: ConnectionManager)
        ensures
            m == ConnectionManager::off(),
    {
        ConnectionManager {
            monitoring: false,
            heartbeat_timer: Timer { duration_ms: 0, deadline_ms: 0 },
            heard_timer: Timer { duration_ms: 0, deadline_ms: 0 },
        }
    }

    /// Records an outbound frame: the next heartbeat falls due one interval
    /// after `now`.
    pub fn mark_sent(&mut self, now: u64)
        ensures
            *final(self) == old(self).marked_sent(now),
    {
        self.heartbeat_timer.reset(now);
    }

    /// Records an inbound frame: the silence timeout restarts at `now`.
    pub fn mark_heard(&mut self, now: u64)
        ensures
            *final(self) == old(self).marked_heard(now),
    {
        self.heard_timer.reset(now);
    }

    /// Whether a heartbeat is due at `now`; no side effects.
    pub fn should_send_heartbeat(&self, now: u64) -> (r: bool)
        ensures
            r == self.should_send_heartbeat_at(now),
    {
        self.monitoring && self.heartbeat_timer.ringing(now)
    }

    /// Whether the peer counts as dropped at `now`; no side effects.
    pub fn should_drop(&self, now: u64) -> (r: bool)
        ensures
            r == self.should_drop_at(now),
    {
        self.monitoring && self.heard_timer.ringing(now)
    }
}

/// Heartbeat cadence law: after activity is recorded at `sent_at`, a
/// heartbeat is due exactly from one full interval later on — never
/// earlier, and at every instant from then on. So an idle link sends one
/// heartbeat per interval, and recording each heartbeat pushes the next one
/// a whole interval out.
pub proof fn lemma_heartbeat_cadence(m: ConnectionManager, sent_at: u64, now: u64)
    requires
        m.monitoring,
    ensures
        m.marked_sent(sent_at).should_send_heartbeat_at(now) <==> now
            >= sent_at.saturating_add(m.heartbeat_timer.duration_ms),
{
}

/// Silence law: after an inbound frame is recorded at `heard_at`, the peer
/// counts as dropped exactly from one full timeout later on, and any frame
/// heard meanwhile pushes the deadline out again.
pub proof fn lemma_silence_timeout(m: ConnectionManager, heard_at: u64, now: u64)
    requires
        m.monitoring,
    ensures
        m.marked_heard(heard_at).should_drop_at(now) <==> now >= heard_at.saturating_add(
            m.heard_timer.duration_ms,
        ),
{
}

} // verus!
