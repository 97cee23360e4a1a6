use vstd::prelude::*;

verus! {

/// The connection-lifecycle options.
///
/// All intervals are in milliseconds of the caller-supplied clock.
#[derive(Clone, Copy, PartialEq, Eq, Structural, Debug)]
pub struct Config {
    /// Cadence at which heartbeats are sent while connected and idle.
    pub heartbeat_interval_ms: u64,
    /// Silence duration after which the peer is declared dropped.
    pub disconnection_timeout_ms: u64,
    /// Retry cadence for the client handshake while not yet connected.
    pub send_handshake_interval_ms: u64,
    /// Disables handshake, heartbeat and timeout tracking entirely; every
    /// datagram from the peer is delivered as data.
    pub connectionless: bool,
}

impl Config {
    /// The stock configuration: a monitored connection with a four-second
    /// heartbeat cadence, a ten-second silence timeout and a one-second
    /// handshake retry.
    pub open spec fn standard() -> Config {
        Config {
            heartbeat_interval_ms: 4000,
            disconnection_timeout_ms: 10000,
            send_handshake_interval_ms: 1000,
            connectionless: false,
        }
    }
}

impl Default for Config {
    /// Returns the stock configuration.
    fn default() -> (c: Config)
        ensures
            c == Config::standard(),
    {
        Config {
            heartbeat_interval_ms: 4000,
            disconnection_timeout_ms: 10000,
            send_handshake_interval_ms: 1000,
            connectionless: false,
        }
    }
}

} // verus!
