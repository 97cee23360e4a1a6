use vstd::prelude::*;

use crate::error::SocketError;
use crate::socket_event::SocketEvent;

verus! {

/// Anything that can be polled once per tick for the next socket event:
/// the transport-backed client socket, or a link conditioner wrapped
/// around one (conditioners nest, though stacking delay models is rarely
/// enlightening).
///
/// `now` is the caller's clock, a count of elapsed milliseconds; one call
/// surfaces at most one event, and `SocketEvent::None` means "try again
/// later".
pub trait EventSource {
    /// The well-formedness each implementor carries across polls.
    spec fn wf(&self) -> bool;

    /// Polls once for the next event.
    fn poll(&mut self, now: u64) -> (r: Result<SocketEvent, SocketError>)
        requires
            old(self).wf(),
        ensures
            final(self).wf(),
    ;
}

} // verus!
