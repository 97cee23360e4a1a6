use vstd::prelude::*;

use crate::error::SocketError;
use crate::event_source::EventSource;
use crate::socket_event::SocketEvent;

verus! {

/// The denominator of the loss fraction: a `loss_numerator` of this much is
/// certain loss, zero is no loss.
pub const LOSS_DENOMINATOR: u64 = 1000;

/// How many times one poll will drain the wrapped source before giving up
/// for this tick. A source that keeps producing events without ever
/// reporting idle cannot wedge the caller's tick; whatever is left over is
/// captured on the next poll.
pub const DRAIN_BUDGET: usize = 1024;

/// Configuration for simulated network impairment, cloned into the
/// conditioner at construction and immutable thereafter.
#[derive(Clone, Copy, PartialEq, Eq, Structural, Debug)]
pub struct LinkConditionerConfig {
    /// Chance to discard an event, in thousandths: `0` never discards,
    /// `LOSS_DENOMINATOR` (or more) always does.
    pub loss_numerator: u64,
    /// Fixed delay added to every delivered event, in milliseconds.
    pub latency_ms: u64,
    /// Uniform variance around the nominal latency, in milliseconds.
    pub jitter_ms: u64,
}

/// A small deterministic xorshift generator driving the impairment draws;
/// seeded once, so a conditioned run is reproducible.
#[derive(Clone, Copy, PartialEq, Eq, Structural, Debug)]
pub struct Rng {
    /// The generator state; never zero.
    pub state: u64,
}

/// One xorshift step of the generator state.
pub open spec fn next_state(s: u64) -> u64 {
    let a = s ^ (s << 13);
    let b = a ^ (a >> 7);
    b ^ (b << 17)
}

impl Rng {
    /// The state a generator starts in: the seed, nudged off zero (the one
    /// fixed point of the step).
    pub open spec fn seeded(seed: u64) -> Rng {
        Rng { state: if seed == 0 { 1 } else { seed } }
    }

    /// Seeds a generator.
    pub fn new(seed: u64) -> (g: Rng)
        ensures
            g == Rng::seeded(seed),
    {
        if seed == 0 {
            Rng { state: 1 }
        } else {
            Rng { state: seed }
        }
    }

    /// Draws the next value; the draw and the new state are the same
    /// xorshift step.
    pub fn next(&mut self) -> (d: u64)
        ensures
            final(self).state == next_state(old(self).state),
            d == next_state(old(self).state),
    {
        let mut s = self.state;
        s = s ^ (s << 13);
        s = s ^ (s >> 7);
        s = s ^ (s << 17);
        self.state = s;
        s
    }
}

/// Whether a loss draw discards the event under `config`.
pub open spec fn lost(config: LinkConditionerConfig, draw: u64) -> bool {
    draw % LOSS_DENOMINATOR < config.loss_numerator
}

/// The number of distinct jitter offsets: `2 * jitter + 1`, saturated, so an
/// offset drawn below it lies in `[0, 2 * jitter]`.
pub open spec fn jitter_span(jitter_ms: u64) -> u64 {
    if jitter_ms > (u64::MAX - 1) / 2 {
        u64::MAX
    } else {
        (2 * jitter_ms + 1) as u64
    }
}

/// When a kept event is released: `now + latency + offset - jitter` with the
/// offset drawn in `[0, 2 * jitter]`, saturated at both ends and clamped to
/// not precede `now`.
pub open spec fn release_time(now: u64, latency_ms: u64, jitter_ms: u64, offset: u64) -> u64 {
    let nominal = now.saturating_add(latency_ms).saturating_add(offset).saturating_sub(jitter_ms);
    if nominal > now {
        nominal
    } else {
        now
    }
}

/// One delayed event and the instant it becomes deliverable.
#[derive(Clone, PartialEq, Eq, Debug)]
pub struct QueuedEvent {
    /// The instant the event may be handed out.
    pub release_ms: u64,
    /// The event itself.
    pub event: SocketEvent,
}

/// The first index of the queue holding the least release time: the entry a
/// pop hands out, ties broken by insertion order.
pub open spec fn is_first_minimum(q: Seq<QueuedEvent>, i: int) -> bool {
    &&& 0 <= i < q.len()
    &&& forall|j: int| 0 <= j < q.len() ==> q[i].release_ms <= #[trigger] q[j].release_ms
    &&& forall|j: int| 0 <= j < i ==> #[trigger] q[j].release_ms > q[i].release_ms
}

/// A decorator that simulates loss, latency and jitter over any event
/// source, without changing the poll surface its consumers see.
///
/// Each poll drains the wrapped source, discards every captured event with
/// probability `loss_numerator / LOSS_DENOMINATOR`, schedules the survivors
/// for a jittered later release, and hands out at most one event whose
/// release time has passed. Errors originate locally, not on the wire, so
/// they pass through immediately, unconditioned. Jitter deliberately lets
/// delivery order diverge from arrival order.
pub struct LinkConditioner<S: EventSource> {
    /// The impairment parameters.
    pub config: LinkConditionerConfig,
    /// The deterministic draw source.
    pub rng: Rng,
    /// Events scheduled but not yet released, in insertion order.
    pub queue: Vec<QueuedEvent>,
    /// The wrapped event source.
    pub inner: S,
}

impl<S: EventSource> LinkConditioner<S> {
    /// Wraps `inner` with the given impairment, drawing from `seed`.
    pub fn new(config: &LinkConditionerConfig, inner: S, seed: u64) -> (c: LinkConditioner<S>)
        ensures
            c.config == *config,
            c.inner == inner,
            c.queue@.len() == 0,
            c.rng == Rng::seeded(seed),
    {
        LinkConditioner { config: *config, rng: Rng::new(seed), queue: Vec::new(), inner }
    }

    /// Applies the loss/delay model to one captured event: one draw decides
    /// loss; a survivor is appended to the queue with a release time drawn
    /// uniformly from the jitter window. Exactly this, and nothing else,
    /// changes.
    pub fn process_event(&mut self, now: u64, event: SocketEvent)
        requires
            !(event is Idle),
        ensures
            final(self).config == old(self).config,
            final(self).inner == old(self).inner,
            ({
                let draw = next_state(old(self).rng.state);
                if lost(old(self).config, draw) {
                    final(self).rng.state == draw && final(self).queue == old(self).queue
                } else {
                    let jitter_draw = next_state(draw);
                    let offset = jitter_draw % jitter_span(old(self).config.jitter_ms);
                    final(self).rng.state == jitter_draw && final(self).queue@ == old(
                        self,
                    ).queue@.push(
                        QueuedEvent {
                            release_ms: release_time(
                                now,
                                old(self).config.latency_ms,
                                old(self).config.jitter_ms,
                                offset,
                            ),
                            event,
                        },
                    )
                }
            }),
    {
        let draw = self.rng.next();
        if draw % LOSS_DENOMINATOR < self.config.loss_numerator {
            return;
        }
        let jitter_draw = self.rng.next();
        let span = jitter_span_ms(self.config.jitter_ms);
        let offset = jitter_draw % span;
        let base = now.saturating_add(self.config.latency_ms).saturating_add(offset);
        let nominal = base.saturating_sub(self.config.jitter_ms);
        let release_ms = if nominal > now {
            nominal
        } else {
            now
        };
        self.queue.push(QueuedEvent { release_ms, event });
    }

    /// Hands out the entry released first — least release time, earliest
    /// insertion on a tie — provided its time has passed; otherwise nothing
    /// is ready and nothing changes.
    pub fn pop_ready(&mut self, now: u64) -> (r: SocketEvent)
        ensures
            final(self).config == old(self).config,
            final(self).rng == old(self).rng,
            final(self).inner == old(self).inner,
            (forall|i: int|
                0 <= i < old(self).queue@.len() ==> #[trigger] old(self).queue@[i].release_ms
                    > now) ==> (r is Idle && final(self).queue == old(self).queue),
            (exists|i: int|
                0 <= i < old(self).queue@.len() && #[trigger] old(self).queue@[i].release_ms
                    <= now) ==> (exists|i: int|
                {
                    &&& #[trigger] is_first_minimum(old(self).queue@, i)
                    &&& old(self).queue@[i].release_ms <= now
                    &&& r == old(self).queue@[i].event
                    &&& final(self).queue@ == old(self).queue@.remove(i)
                }),
    {
        if self.queue.len() == 0 {
            return SocketEvent::Idle;
        }
        let mut best: usize = 0;
        let mut k: usize = 1;
        while k < self.queue.len()
            invariant
                self.queue.len() > 0,
                best < k <= self.queue.len(),
                forall|j: int|
                    0 <= j < k ==> self.queue@[best as int].release_ms
                        <= #[trigger] self.queue@[j].release_ms,
                forall|j: int|
                    0 <= j < best ==> #[trigger] self.queue@[j].release_ms
                        > self.queue@[best as int].release_ms,
            decreases self.queue.len() - k,
        {
            if self.queue[k].release_ms < self.queue[best].release_ms {
                best = k;
            }
            k = k + 1;
        }
        if self.queue[best].release_ms <= now {
            proof {
                assert(is_first_minimum(self.queue@, best as int));
            }
            let entry = self.queue.remove(best);
            entry.event
        } else {
            SocketEvent::Idle
        }
    }

    /// Polls once: drains the wrapped source (up to [`DRAIN_BUDGET`] polls)
    /// — conditioning every captured event, passing a local error through at
    /// once — then surfaces at most one queued event whose release time has
    /// passed.
    pub fn receive(&mut self, now: u64) -> (r: Result<SocketEvent, SocketError>)
        requires
            old(self).inner.wf(),
        ensures
            final(self).inner.wf(),
            final(self).config == old(self).config,
    {
        let mut budget: usize = DRAIN_BUDGET;
        while budget > 0
            invariant
                self.inner.wf(),
                self.config == old(self).config,
            decreases budget,
        {
            budget = budget - 1;
            let polled = self.inner.poll(now);
            match polled {
                Ok(ev) => {
                    match ev {
                        SocketEvent::Idle => {
                            break;
                        },
                        other => {
                            self.process_event(now, other);
                        },
                    }
                },
                Err(e) => {
                    return Err(e);
                },
            }
        }
        Ok(self.pop_ready(now))
    }
}

/// The jitter span, computed: `2 * jitter + 1`, saturated.
fn jitter_span_ms(jitter_ms: u64) -> (s: u64)
    ensures
        s == jitter_span(jitter_ms),
        s >= 1,
{
    if jitter_ms > (u64::MAX - 1) / 2 {
        u64::MAX
    } else {
        2 * jitter_ms + 1
    }
}

/// Certain-loss law: with the loss fraction at one, every draw discards —
/// no event is ever queued, so none is ever delivered.
pub proof fn lemma_certain_loss(config: LinkConditionerConfig, draw: u64)
    requires
        config.loss_numerator >= LOSS_DENOMINATOR,
    ensures
        lost(config, draw),
{
    assert(draw % LOSS_DENOMINATOR < LOSS_DENOMINATOR) by (nonlinear_arith);
}

/// No-loss delivery law: with the loss fraction at zero no draw ever
/// discards, and a kept event is scheduled inside the jitter window — never
/// before `now`, no earlier than `latency - jitter` past `now` (when jitter
/// does not exceed latency), and no later than `latency + jitter` past
/// `now`.
pub proof fn lemma_no_loss_window(config: LinkConditionerConfig, now: u64, draw: u64, offset: u64)
    requires
        config.loss_numerator == 0,
        offset < jitter_span(config.jitter_ms),
        now + config.latency_ms + config.jitter_ms <= u64::MAX,
    ensures
        !lost(config, draw),
        release_time(now, config.latency_ms, config.jitter_ms, offset) >= now,
        config.jitter_ms <= config.latency_ms ==> release_time(
            now,
            config.latency_ms,
            config.jitter_ms,
            offset,
        ) >= now + config.latency_ms - config.jitter_ms,
        release_time(now, config.latency_ms, config.jitter_ms, offset) <= now + config.latency_ms
            + config.jitter_ms,
{
}

impl<S: EventSource> EventSource for LinkConditioner<S> {
    open spec fn wf(&self) -> bool {
        self.inner.wf()
    }

    fn poll(&mut self, now: u64) -> (r: Result<SocketEvent, SocketError>) {
        self.receive(now)
    }
}

} // verus!
