//! Connection lifecycle over an unreliable datagram transport.
//!
//! The crate turns a raw, connectionless datagram capability into a managed
//! client connection: every frame on the wire carries a one-byte tag
//! ([`header`]), a pair of deadline timers drives heartbeat cadence and
//! silence detection ([`timer`], [`connection_manager`]), and a polled state
//! machine performs the handshake, surfaces packets and reports
//! disconnections ([`client`]). A link conditioner decorates any event
//! source with simulated loss, latency and jitter ([`link_conditioner`]).
//!
//! Time is a count of elapsed milliseconds supplied by the caller on every
//! call, so the whole lifecycle is a deterministic function of its inputs.

pub mod address;
pub mod client;
pub mod config;
pub mod connection_manager;
pub mod error;
pub mod event_source;
pub mod header;
pub mod link_conditioner;
pub mod server;
pub mod socket_event;
pub mod timer;
pub mod transport;
