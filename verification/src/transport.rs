use vstd::prelude::*;

use crate::address::Address;
use crate::error::TransportError;

verus! {

/// What one non-blocking read of the raw transport yields.
pub enum RecvOutcome {
    /// Nothing is waiting right now; try again next tick.
    Nothing,
    /// One datagram arrived, with its source address.
    Datagram(Address, Vec<u8>),
    /// The transport failed on this read.
    Fault(TransportError),
}

/// The capability the connection needs from a raw datagram transport: send
/// bytes to an address, and poll for one incoming datagram without
/// blocking.
///
/// The trait promises nothing about either call — a transport may fail or
/// stay silent at any time — and the connection logic is verified to cope
/// with every outcome. Backends (a UDP socket, a browser data channel, the
/// in-memory transport below) decide what actually happens.
pub trait Transport {
    /// Sends one datagram to the address.
    fn send_to(&mut self, data: &Vec<u8>, address: Address) -> Result<(), TransportError>;

    /// One non-blocking read attempt.
    fn try_recv(&mut self) -> RecvOutcome;
}

/// An in-memory transport: read outcomes are queued up front and every send
/// is logged with its destination. It backs the tests and any loopback
/// wiring.
pub struct MemoryTransport {
    /// The outcomes the next reads will yield, in order; an empty queue
    /// reads as "nothing waiting".
    pub incoming: Vec<RecvOutcome>,
    /// Every frame sent, oldest first, with its destination.
    pub sent: Vec<(Vec<u8>, Address)>,
}

impl MemoryTransport {
    /// An empty transport: nothing to read, nothing sent yet.
    pub fn new() -> (t: MemoryTransport)
        ensures
            t.incoming@.len() == 0,
            t.sent@.len() == 0,
    {
        MemoryTransport { incoming: Vec::new(), sent: Vec::new() }
    }

    /// Queues one outcome for a later read.
    pub fn push_incoming(&mut self, outcome: RecvOutcome)
        ensures
            final(self).incoming@ == old(self).incoming@.push(outcome),
            final(self).sent == old(self).sent,
    {
        self.incoming.push(outcome);
    }

}

impl Transport for MemoryTransport {
    /// Logs the frame and reports success.
    fn send_to(&mut self, data: &Vec<u8>, address: Address) -> Result<(), TransportError> {
        let mut copy: Vec<u8> = Vec::new();
        let mut i: usize = 0;
        while i < data.len()
            invariant
                i <= data.len(),
                copy@ == data@.subrange(0, i as int),
            decreases data.len() - i,
        {
            copy.push(data[i]);
            assert(copy@ =~= data@.subrange(0, i + 1 as int));
            i = i + 1;
        }
        self.sent.push((copy, address));
        Ok(())
    }

    /// Yields the next queued outcome, or "nothing waiting" once the queue
    /// is empty.
    fn try_recv(&mut self) -> RecvOutcome {
        if self.incoming.len() == 0 {
            RecvOutcome::Nothing
        } else {
            self.incoming.remove(0)
        }
    }
}

} // verus!
