use vstd::prelude::*;

use crate::address::Address;

verus! {

/// The server-side surface.
///
/// Listening, per-client callbacks and the replication hooks all live with
/// the transport collaborator; the verified core covers the client
/// lifecycle, so these entry points are reserved names that do nothing yet.
pub struct Server {}

impl Server {
    /// Advances the server by one tick.
    pub fn update(&mut self) {
    }

    /// Accepts a client at the given address.
    pub fn connect(&self, listen_addr: Address) {
        let _ = listen_addr;
    }

    /// Registers interest in new connections.
    pub fn on_connect<F: FnOnce()>(&self, func: F) {
        let _ = func;
    }

    /// Registers interest in lost connections.
    pub fn on_disconnect<F: FnOnce()>(&self, func: F) {
        let _ = func;
    }

    /// Adds a replicated object.
    pub fn add_object(&self) {
    }

    /// Removes a replicated object.
    pub fn remove_object(&self) {
    }

    /// Queues an outbound message.
    pub fn send_message(&self) {
    }

    /// Drains one inbound message.
    pub fn receive_message(&self) {
    }
}

} // verus!
