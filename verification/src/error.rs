use vstd::prelude::*;

verus! {

/// A failure reported by the raw transport. The message is whatever the
/// transport backend had to say; the connection logic never reads it.
#[derive(Clone, PartialEq, Eq, Debug)]
pub struct TransportError {
    /// The backend's description of the failure.
    pub message: String,
}

impl TransportError {
    /// Wraps a backend message.
    pub fn new(message: String) -> (e: TransportError)
        ensures
            e.message == message,
    {
        TransportError { message }
    }
}

/// What a poll can fail with. Neither kind is fatal to the connection: the
/// caller may simply poll again next tick.
#[derive(Clone, PartialEq, Eq, Debug)]
pub enum SocketError {
    /// The raw transport failed on this poll.
    TransportFailure(TransportError),
    /// A datagram arrived from an address other than the configured peer;
    /// it is reported and otherwise ignored, and connection state is
    /// unchanged.
    UnexpectedSender,
}

} // verus!
