use gaia_client_socket::address::Address;
use gaia_client_socket::client::ClientSocket;
use gaia_client_socket::config::Config;
use gaia_client_socket::error::{SocketError, TransportError};
use gaia_client_socket::link_conditioner::{LOSS_DENOMINATOR, LinkConditioner, LinkConditionerConfig};
use gaia_client_socket::socket_event::{Packet, SocketEvent};
use gaia_client_socket::transport::{MemoryTransport, RecvOutcome};

fn server() -> Address {
    Address::new(0x0a00_0001, 14191)
}

fn connectionless_socket() -> ClientSocket<MemoryTransport> {
    let config = Config { connectionless: true, ..Config::default() };
    ClientSocket::connect(MemoryTransport::new(), server(), &config, 0)
}

fn conditioner(
    loss_numerator: u64,
    latency_ms: u64,
    jitter_ms: u64,
) -> LinkConditioner<ClientSocket<MemoryTransport>> {
    let config = LinkConditionerConfig { loss_numerator, latency_ms, jitter_ms };
    LinkConditioner::new(&config, connectionless_socket(), 7)
}

fn packet(n: u8) -> SocketEvent {
    SocketEvent::Packet(Packet::new(vec![n]))
}

#[test]
fn certain_loss_discards_every_event() {
    let mut c = conditioner(LOSS_DENOMINATOR, 0, 0);
    for i in 0..10000u64 {
        c.process_event(i, packet((i % 251) as u8));
    }
    // nothing was queued, so nothing is ever delivered
    assert_eq!(c.queue.len(), 0);
    assert_eq!(c.pop_ready(u64::MAX), SocketEvent::Idle);
}

#[test]
fn no_loss_delivers_everything_inside_the_jitter_window() {
    let mut c = conditioner(0, 50, 10);
    let queued_at: u64 = 1000;
    for i in 0..1000u64 {
        c.process_event(queued_at, packet((i % 251) as u8));
    }
    assert_eq!(c.queue.len(), 1000);
    for entry in c.queue.iter() {
        assert!(entry.release_ms >= queued_at + 50 - 10);
        assert!(entry.release_ms <= queued_at + 50 + 10);
    }
    // nothing is ready before the earliest possible release
    assert_eq!(c.pop_ready(queued_at + 39), SocketEvent::Idle);
    assert_eq!(c.queue.len(), 1000);
    // by the latest possible release every event has come out: none lost
    let mut delivered = 0u64;
    while c.pop_ready(queued_at + 60) != SocketEvent::Idle {
        delivered += 1;
    }
    assert_eq!(delivered, 1000);
    assert_eq!(c.queue.len(), 0);
}

#[test]
fn ready_events_come_out_in_release_order() {
    let mut c = conditioner(0, 0, 0);
    c.process_event(30, packet(1));
    c.process_event(10, packet(2));
    c.process_event(20, packet(3));
    // with no latency and no jitter each release time is its queueing time
    assert_eq!(c.pop_ready(100), packet(2));
    assert_eq!(c.pop_ready(100), packet(3));
    assert_eq!(c.pop_ready(100), packet(1));
    assert_eq!(c.pop_ready(100), SocketEvent::Idle);
}

#[test]
fn equal_release_times_keep_insertion_order() {
    let mut c = conditioner(0, 5, 0);
    c.process_event(0, packet(1));
    c.process_event(0, packet(2));
    c.process_event(0, packet(3));
    assert_eq!(c.pop_ready(4), SocketEvent::Idle);
    assert_eq!(c.pop_ready(5), packet(1));
    assert_eq!(c.pop_ready(5), packet(2));
    assert_eq!(c.pop_ready(5), packet(3));
}

#[test]
fn one_event_per_poll_through_the_full_stack() {
    let mut c = conditioner(0, 0, 0);
    c.inner.transport.push_incoming(RecvOutcome::Datagram(server(), b"a".to_vec()));
    c.inner.transport.push_incoming(RecvOutcome::Datagram(server(), b"b".to_vec()));
    c.inner.transport.push_incoming(RecvOutcome::Datagram(server(), b"c".to_vec()));
    // one poll drains the source whole but surfaces only the first event
    assert_eq!(c.receive(0).unwrap(), SocketEvent::Packet(Packet::new(b"a".to_vec())));
    assert_eq!(c.queue.len(), 2);
    assert_eq!(c.receive(0).unwrap(), SocketEvent::Packet(Packet::new(b"b".to_vec())));
    assert_eq!(c.receive(0).unwrap(), SocketEvent::Packet(Packet::new(b"c".to_vec())));
    assert_eq!(c.receive(0).unwrap(), SocketEvent::Idle);
}

#[test]
fn conditioned_events_wait_out_their_latency() {
    let mut c = conditioner(0, 25, 0);
    c.inner.transport.push_incoming(RecvOutcome::Datagram(server(), b"x".to_vec()));
    assert_eq!(c.receive(100).unwrap(), SocketEvent::Idle);
    assert_eq!(c.receive(124).unwrap(), SocketEvent::Idle);
    assert_eq!(c.receive(125).unwrap(), SocketEvent::Packet(Packet::new(b"x".to_vec())));
}

#[test]
fn errors_pass_through_unconditioned() {
    let mut c = conditioner(LOSS_DENOMINATOR, 1_000_000, 0);
    c.inner.transport.push_incoming(
        RecvOutcome::Fault(TransportError::new("down".to_string())),
    );
    // even with certain loss and a huge delay the local error surfaces now
    let r = c.receive(0);
    assert!(matches!(r, Err(SocketError::TransportFailure(_))));
}

#[test]
fn certain_loss_through_the_full_stack() {
    let mut c = conditioner(LOSS_DENOMINATOR, 0, 0);
    for _ in 0..100 {
        c.inner.transport.push_incoming(RecvOutcome::Datagram(server(), b"gone".to_vec()));
    }
    for t in 0..200u64 {
        assert_eq!(c.receive(t).unwrap(), SocketEvent::Idle);
    }
}

#[test]
fn conditioners_nest() {
    let inner = conditioner(0, 0, 0);
    let outer_config = LinkConditionerConfig { loss_numerator: 0, latency_ms: 0, jitter_ms: 0 };
    let mut stacked = LinkConditioner::new(&outer_config, inner, 9);
    stacked.inner.inner.transport.push_incoming(RecvOutcome::Datagram(server(), b"deep".to_vec()));
    assert_eq!(stacked.receive(0).unwrap(), SocketEvent::Packet(Packet::new(b"deep".to_vec())));
}
