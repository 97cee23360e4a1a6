use vstd::prelude::*;

use crate::address::Address;
use crate::config::Config;
use crate::connection_manager::ConnectionManager;
use crate::error::SocketError;
use crate::event_source::EventSource;
use crate::header::{MessageHeader, control_frame, decode_header, decoded};
use crate::socket_event::{EventModel, Packet, SocketEvent, event_result_view};
use crate::timer::Timer;
use crate::transport::{RecvOutcome, Transport};

verus! {

/// The client side of one managed connection: the configured peer, whether
/// the link is established, the handshake retry timer, and the liveness
/// bookkeeping. The raw transport lives outside this state, so every
/// transition is a plain function of the state, the clock and one input.
#[derive(Clone, Copy, PartialEq, Eq, Structural, Debug)]
pub struct ConnectionState {
    /// The configured peer; datagrams from anyone else are rejected.
    pub peer: Address,
    /// True when handshake, heartbeat and timeout tracking are disabled.
    pub connectionless: bool,
    /// Whether the link is currently considered established.
    pub connected: bool,
    /// The handshake retry timer; present exactly when the link is
    /// monitored.
    pub handshake_timer: Option<Timer>,
    /// Heartbeat cadence and silence bookkeeping.
    pub manager: ConnectionManager,
}

/// What the timed checks at the top of a poll ask for.
#[derive(Clone, Copy, PartialEq, Eq, Structural, Debug)]
pub enum TimedDecision {
    /// Nothing is due.
    Wait,
    /// The peer has been silent past the timeout: declare the link lost.
    Disconnect,
    /// The link is idle past the heartbeat cadence: send a heartbeat.
    SendHeartbeat,
    /// Not yet connected and the retry timer rings: send a client
    /// handshake.
    SendHandshake,
}

/// The timed decision a poll of state `s` takes at `now`: a silence timeout
/// outranks a due heartbeat, both apply only to an established monitored
/// link, and an unconnected monitored link retries its handshake whenever
/// the retry timer rings.
pub open spec fn timed_decision(s: ConnectionState, now: u64) -> TimedDecision {
    if !s.connectionless && s.connected && s.manager.should_drop_at(now) {
        TimedDecision::Disconnect
    } else if !s.connectionless && s.connected && s.manager.should_send_heartbeat_at(now) {
        TimedDecision::SendHeartbeat
    } else if !s.connectionless && !s.connected && s.handshake_ringing_at(now) {
        TimedDecision::SendHandshake
    } else {
        TimedDecision::Wait
    }
}

/// Where a datagram from `sender` with bytes `payload` takes the state, and
/// what it surfaces:
/// - a foreign sender is an error and changes nothing;
/// - a connectionless link surfaces every peer datagram whole;
/// - otherwise any peer datagram counts as liveness first, then a
///   server handshake connects an unconnected link (once), a data frame is
///   delivered without its tag byte whatever the connection state, and
///   heartbeats, stray handshakes, unknown tags and empty datagrams are
///   silently absorbed.
pub open spec fn datagram_step(
    s: ConnectionState,
    now: u64,
    sender: Address,
    payload: Seq<u8>,
) -> (ConnectionState, Result<EventModel, SocketError>) {
    if sender != s.peer {
        (s, Err(SocketError::UnexpectedSender))
    } else if s.connectionless {
        (s, Ok(EventModel::Packet(payload)))
    } else {
        let heard = ConnectionState { manager: s.manager.marked_heard(now), ..s };
        if payload.len() == 0 {
            (heard, Ok(EventModel::Idle))
        } else {
            match decoded(payload[0]) {
                Some(MessageHeader::ServerHandshake) => {
                    if !heard.connected {
                        (ConnectionState { connected: true, ..heard }, Ok(EventModel::Connection))
                    } else {
                        (heard, Ok(EventModel::Idle))
                    }
                },
                Some(MessageHeader::Data) => (heard, Ok(EventModel::Packet(payload.skip(1)))),
                _ => (heard, Ok(EventModel::Idle)),
            }
        }
    }
}

impl ConnectionState {
    /// Well-formedness: a connectionless link has no handshake timer, no
    /// monitoring, and counts as connected from the start; a monitored link
    /// always carries its handshake timer.
    pub open spec fn wf(self) -> bool {
        &&& self.connectionless ==> self.handshake_timer is None && self.connected
            && !self.manager.monitoring
        &&& !self.connectionless ==> self.handshake_timer is Some && self.manager.monitoring
    }

    /// Whether the handshake retry timer rings at `now`.
    pub open spec fn handshake_ringing_at(self, now: u64) -> bool {
        match self.handshake_timer {
            Some(t) => t.ringing_at(now),
            None => false,
        }
    }

    /// The handshake retry interval (zero when connectionless).
    pub open spec fn handshake_interval(self) -> u64 {
        match self.handshake_timer {
            Some(t) => t.duration_ms,
            None => 0,
        }
    }

    /// The state a fresh connection starts in. A monitored link starts
    /// unconnected with the handshake timer already ringing, so the very
    /// first poll sends a handshake without waiting a full interval, and
    /// with heartbeats due at half the configured interval, so an idle link
    /// stays comfortably inside an identically configured peer's timeout. A
    /// connectionless link starts connected with no tracking at all.
    pub open spec fn initial(peer: Address, config: Config, now: u64) -> ConnectionState {
        if config.connectionless {
            ConnectionState {
                peer,
                connectionless: true,
                connected: true,
                handshake_timer: None,
                manager: ConnectionManager::off(),
            }
        } else {
            ConnectionState {
                peer,
                connectionless: false,
                connected: false,
                handshake_timer: Some(
                    Timer { duration_ms: config.send_handshake_interval_ms, deadline_ms: 0 },
                ),
                manager: ConnectionManager::fresh(
                    now,
                    config.heartbeat_interval_ms / 2,
                    config.disconnection_timeout_ms,
                ),
            }
        }
    }

    /// The state with the link considered lost.
    pub open spec fn dropped(self) -> ConnectionState {
        ConnectionState { connected: false, ..self }
    }

    /// The state after outbound traffic is recorded at `now`.
    pub open spec fn sent_marked(self, now: u64) -> ConnectionState {
        ConnectionState { manager: self.manager.marked_sent(now), ..self }
    }

    /// The state after the handshake retry timer is reset at `now`.
    pub open spec fn handshake_reset(self, now: u64) -> ConnectionState {
        ConnectionState {
            handshake_timer: match self.handshake_timer {
                Some(t) => Some(t.reset_at(now)),
                None => None,
            },
            ..self
        }
    }

    /// Builds the initial state for the configuration; see
    /// [`ConnectionState::initial`].
    pub fn new(peer: Address, config: &Config, now: u64) -> (s: ConnectionState)
        ensures
            s == ConnectionState::initial(peer, *config, now),
            s.wf(),
    {
        if config.connectionless {
            ConnectionState {
                peer,
                connectionless: true,
                connected: true,
                handshake_timer: None,
                manager: ConnectionManager::connectionless(),
            }
        } else {
            let mut handshake_timer = Timer::new(now, config.send_handshake_interval_ms);
            handshake_timer.ring_manual();
            ConnectionState {
                peer,
                connectionless: false,
                connected: false,
                handshake_timer: Some(handshake_timer),
                manager: ConnectionManager::new(
                    now,
                    config.heartbeat_interval_ms / 2,
                    config.disconnection_timeout_ms,
                ),
            }
        }
    }

    /// Evaluates the timed checks at `now`; no side effects.
    pub fn timed_check(&self, now: u64) -> (d: TimedDecision)
        requires
            self.wf(),
        ensures
            d == timed_decision(*self, now),
    {
        if !self.connectionless && self.connected && self.manager.should_drop(now) {
            TimedDecision::Disconnect
        } else if !self.connectionless && self.connected && self.manager.should_send_heartbeat(
            now,
        ) {
            TimedDecision::SendHeartbeat
        } else if !self.connectionless && !self.connected {
            match &self.handshake_timer {
                Some(t) => if t.ringing(now) {
                    TimedDecision::SendHandshake
                } else {
                    TimedDecision::Wait
                },
                None => TimedDecision::Wait,
            }
        } else {
            TimedDecision::Wait
        }
    }

    /// Declares the link lost.
    fn record_drop(&mut self)
        ensures
            *final(self) == old(self).dropped(),
    {
        self.connected = false;
    }

    /// Records an outbound frame at `now`.
    fn record_send(&mut self, now: u64)
        ensures
            *final(self) == old(self).sent_marked(now),
    {
        self.manager.mark_sent(now);
    }

    /// Records a handshake probe sent at `now`.
    fn record_handshake_sent(&mut self, now: u64)
        ensures
            *final(self) == old(self).handshake_reset(now),
    {
        match &mut self.handshake_timer {
            Some(t) => t.reset(now),
            None => {},
        }
    }

    /// Consumes one datagram handed over by the transport; the transition
    /// and the surfaced outcome are exactly [`datagram_step`].
    pub fn handle_datagram(&mut self, now: u64, sender: Address, payload: Vec<u8>) -> (r: Result<
        SocketEvent,
        SocketError,
    >)
        requires
            old(self).wf(),
        ensures
            final(self).wf(),
            ({
                let (s2, r2) = datagram_step(*old(self), now, sender, payload@);
                *final(self) == s2 && event_result_view(r) == r2
            }),
            final(self).peer == old(self).peer,
            final(self).connectionless == old(self).connectionless,
            final(self).handshake_timer == old(self).handshake_timer,
            final(self).manager.monitoring == old(self).manager.monitoring,
            final(self).manager.heartbeat_timer == old(self).manager.heartbeat_timer,
            final(self).manager.heard_timer == old(self).manager.heard_timer || final(self).manager.heard_timer == old(self).manager.heard_timer.reset_at(now),
            event_result_view(r) != Ok::<EventModel, SocketError>(EventModel::Disconnection),
            (event_result_view(r) == Ok::<EventModel, SocketError>(EventModel::Connection)) <==> (
            !old(self).connected && final(self).connected),
            old(self).connected ==> final(self).connected,
            r is Err <==> sender != old(self).peer,
            r is Err ==> *final(self) == *old(self) && r == Err::<SocketEvent, SocketError>(
                SocketError::UnexpectedSender,
            ),
            old(self).connectionless ==> *final(self) == *old(self),
    {
        if sender != self.peer {
            return Err(SocketError::UnexpectedSender);
        }
        if self.connectionless {
            return Ok(SocketEvent::Packet(Packet::new(payload)));
        }
        self.manager.mark_heard(now);
        if payload.len() == 0 {
            return Ok(SocketEvent::Idle);
        }
        match decode_header(payload[0]) {
            Some(MessageHeader::ServerHandshake) => {
                if !self.connected {
                    self.connected = true;
                    Ok(SocketEvent::Connection)
                } else {
                    Ok(SocketEvent::Idle)
                }
            },
            Some(MessageHeader::Data) => {
                let ghost whole = payload@;
                let mut rest = payload;
                let _tag = rest.remove(0);
                proof {
                    assert(rest@ =~= whole.skip(1));
                }
                Ok(SocketEvent::Packet(Packet::new(rest)))
            },
            _ => Ok(SocketEvent::Idle),
        }
    }
}

/// A client socket: the connection state machine bound to a raw datagram
/// transport. This is the poll surface application code drives once per
/// tick.
pub struct ClientSocket<T: Transport> {
    /// The verified connection state.
    pub state: ConnectionState,
    /// The raw transport the frames travel over.
    pub transport: T,
}

impl<T: Transport> ClientSocket<T> {
    /// Binds a fresh connection to `transport`, aimed at `server_address`.
    /// A monitored link will send its first handshake on the first poll.
    pub fn connect(transport: T, server_address: Address, config: &Config, now: u64) -> (s:
        ClientSocket<T>)
        ensures
            s.state == ConnectionState::initial(server_address, *config, now),
            s.state.wf(),
            s.transport == transport,
    {
        ClientSocket { state: ConnectionState::new(server_address, config, now), transport }
    }

    /// The configured peer.
    pub fn server_address(&self) -> (a: Address)
        ensures
            a == self.state.peer,
    {
        self.state.peer
    }

    /// Polls the connection once at `now`: first the timed checks — a
    /// silence timeout surfaces one `Disconnection`, a due heartbeat or
    /// handshake probe goes out — then one non-blocking read, decoded by
    /// [`datagram_step`]. The contract pins every state change: the
    /// connected flag falls exactly with a `Disconnection` and rises
    /// exactly with a `Connection`, the heartbeat timer is reset exactly
    /// when a heartbeat went out, the handshake timer exactly when a probe
    /// went out, and the silence timer moves only by being reset at `now`.
    pub fn receive(&mut self, now: u64) -> (r: Result<SocketEvent, SocketError>)
        requires
            old(self).state.wf(),
        ensures
            final(self).state.wf(),
            final(self).state.peer == old(self).state.peer,
            final(self).state.connectionless == old(self).state.connectionless,
            old(self).state.connectionless ==> final(self).state == old(self).state,
            (event_result_view(r) == Ok::<EventModel, SocketError>(EventModel::Disconnection))
                <==> timed_decision(old(self).state, now) is Disconnect,
            timed_decision(old(self).state, now) is Disconnect ==> final(self).state == old(self).state.dropped(),
            (old(self).state.connected && !final(self).state.connected) <==> (event_result_view(r)
                == Ok::<EventModel, SocketError>(EventModel::Disconnection)),
            (!old(self).state.connected && final(self).state.connected) <==> (event_result_view(r)
                == Ok::<EventModel, SocketError>(EventModel::Connection)),
            timed_decision(old(self).state, now) is SendHeartbeat ==> (final(self).state.manager.heartbeat_timer == old(self).state.manager.heartbeat_timer.reset_at(now)
                || (r matches Err(SocketError::TransportFailure(_)) && final(self).state == old(self).state)),
            !(timed_decision(old(self).state, now) is SendHeartbeat) ==> final(self).state.manager.heartbeat_timer == old(self).state.manager.heartbeat_timer,
            timed_decision(old(self).state, now) is SendHandshake ==> (final(self).state.handshake_timer == old(self).state.handshake_reset(now).handshake_timer || (
            r matches Err(SocketError::TransportFailure(_)) && final(self).state == old(self).state)),
            !(timed_decision(old(self).state, now) is SendHandshake) ==> final(self).state.handshake_timer == old(self).state.handshake_timer,
            final(self).state.manager.heard_timer == old(self).state.manager.heard_timer || final(self).state.manager.heard_timer == old(self).state.manager.heard_timer.reset_at(now),
    {
        let decision = self.state.timed_check(now);
        match decision {
            TimedDecision::Disconnect => {
                self.state.record_drop();
                return Ok(SocketEvent::Disconnection);
            },
            TimedDecision::SendHeartbeat => {
                let frame = control_frame(MessageHeader::Heartbeat);
                match self.transport.send_to(&frame, self.state.peer) {
                    Ok(_) => {
                        self.state.record_send(now);
                    },
                    Err(e) => {
                        return Err(SocketError::TransportFailure(e));
                    },
                }
            },
            TimedDecision::SendHandshake => {
                let frame = control_frame(MessageHeader::ClientHandshake);
                match self.transport.send_to(&frame, self.state.peer) {
                    Ok(_) => {
                        self.state.record_handshake_sent(now);
                    },
                    Err(e) => {
                        return Err(SocketError::TransportFailure(e));
                    },
                }
            },
            TimedDecision::Wait => {},
        }
        match self.transport.try_recv() {
            RecvOutcome::Nothing => Ok(SocketEvent::Idle),
            RecvOutcome::Fault(e) => Err(SocketError::TransportFailure(e)),
            RecvOutcome::Datagram(sender, payload) => self.state.handle_datagram(
                now,
                sender,
                payload,
            ),
        }
    }

    /// Pushes one application payload: frames it behind the `Data` tag,
    /// writes it through the raw transport, and on success records the send
    /// so the heartbeat cadence restarts. Outbound data is permitted only
    /// on an established link — while handshaking, the handshake probe is
    /// the only outbound traffic.
    pub fn send(&mut self, packet: &Packet, now: u64) -> (r: Result<(), SocketError>)
        requires
            old(self).state.wf(),
            old(self).state.connected,
        ensures
            final(self).state.wf(),
            r is Ok ==> final(self).state == old(self).state.sent_marked(now),
            r is Err ==> final(self).state == old(self).state && r matches Err(
                SocketError::TransportFailure(_),
            ),
    {
        let frame = crate::header::frame_data(&packet.payload);
        match self.transport.send_to(&frame, self.state.peer) {
            Ok(_) => {
                self.state.record_send(now);
                Ok(())
            },
            Err(e) => Err(SocketError::TransportFailure(e)),
        }
    }
}

/// Single-disconnection law: a monitored, established link whose silence
/// timeout has run out takes the drop decision — which surfaces exactly one
/// `Disconnection` — and the dropped state can never take that decision
/// again, at any time, until a reconnection has re-established the link.
pub proof fn lemma_single_disconnection(s: ConnectionState, now: u64)
    requires
        s.wf(),
        !s.connectionless,
        s.connected,
        s.manager.should_drop_at(now),
    ensures
        timed_decision(s, now) is Disconnect,
        forall|later: u64| !(timed_decision(s.dropped(), later) is Disconnect),
{
}

/// Heartbeat law: on an established link that is not timing out, once a
/// send was recorded at `sent_at` a poll decides to send a heartbeat
/// exactly from one full heartbeat interval later on — so an idle link
/// heartbeats at least once per interval, never sooner after traffic, and
/// since each heartbeat is itself recorded, exactly one send is recorded
/// per heartbeat.
pub proof fn lemma_heartbeat_after_send(s: ConnectionState, sent_at: u64, now: u64)
    requires
        s.wf(),
        !s.connectionless,
        s.connected,
        !s.manager.should_drop_at(now),
    ensures
        timed_decision(s.sent_marked(sent_at), now) is SendHeartbeat <==> now
            >= sent_at.saturating_add(s.manager.heartbeat_timer.duration_ms),
{
}

/// Handshake retry law: once a probe has gone out at `sent_at`, an
/// unconnected monitored link decides to send the next probe exactly from
/// one full retry interval later on — never sooner, and from then on at
/// every poll until one goes out — so probes repeat indefinitely, spaced at
/// least the interval apart, until a server handshake connects the link.
pub proof fn lemma_handshake_cadence(s: ConnectionState, sent_at: u64, now: u64)
    requires
        s.wf(),
        !s.connectionless,
        !s.connected,
    ensures
        timed_decision(s.handshake_reset(sent_at), now) is SendHandshake <==> now
            >= sent_at.saturating_add(s.handshake_interval()),
{
}

/// Reconnection law: a dropped link is back in the handshaking state — a
/// fresh server handshake from the peer re-establishes it and surfaces a
/// new `Connection`, after which the silence timeout can fire anew.
pub proof fn lemma_reconnect_after_drop(s: ConnectionState, t: u64, ack: Seq<u8>)
    requires
        s.wf(),
        !s.connectionless,
        ack.len() > 0,
        decoded(ack[0]) == Some(MessageHeader::ServerHandshake),
    ensures
        datagram_step(s.dropped(), t, s.peer, ack).0.connected,
        datagram_step(s.dropped(), t, s.peer, ack).1 == Ok::<EventModel, SocketError>(
            EventModel::Connection,
        ),
{
}

/// Connect-once law: a server handshake received from the peer while
/// handshaking surfaces exactly one `Connection` and establishes the link;
/// the same frame received again afterwards surfaces nothing and leaves the
/// connection state as it stands.
pub proof fn lemma_server_handshake_once(s: ConnectionState, now1: u64, now2: u64, ack: Seq<u8>)
    requires
        s.wf(),
        !s.connectionless,
        !s.connected,
        ack.len() > 0,
        decoded(ack[0]) == Some(MessageHeader::ServerHandshake),
    ensures
        ({
            let (s1, r1) = datagram_step(s, now1, s.peer, ack);
            let (s2, r2) = datagram_step(s1, now2, s1.peer, ack);
            &&& r1 == Ok::<EventModel, SocketError>(EventModel::Connection)
            &&& s1.connected
            &&& r2 == Ok::<EventModel, SocketError>(EventModel::Idle)
            &&& s2.connected == s1.connected
        }),
{
}

/// Connectionless law: with tracking disabled no timed action ever fires —
/// no handshake, no heartbeat, no drop — and every datagram from the peer
/// is surfaced whole as a packet, the state untouched.
pub proof fn lemma_connectionless_direct(s: ConnectionState, now: u64, payload: Seq<u8>)
    requires
        s.wf(),
        s.connectionless,
    ensures
        timed_decision(s, now) is Wait,
        datagram_step(s, now, s.peer, payload) == (
            s,
            Ok::<EventModel, SocketError>(EventModel::Packet(payload)),
        ),
{
}

impl<T: Transport> EventSource for ClientSocket<T> {
    open spec fn wf(&self) -> bool {
        self.state.wf()
    }

    fn poll(&mut self, now: u64) -> (r: Result<SocketEvent, SocketError>) {
        self.receive(now)
    }
}

} // verus!
