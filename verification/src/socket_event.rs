use vstd::prelude::*;

use crate::error::SocketError;

verus! {

/// One application-level message: an owned, otherwise uninterpreted payload.
#[derive(Clone, PartialEq, Eq, Debug)]
pub struct Packet {
    /// The payload bytes.
    pub payload: Vec<u8>,
}

impl Packet {
    /// Wraps a payload.
    pub fn new(payload: Vec<u8>) -> (p: Packet)
        ensures
            p.payload == payload,
    {
        Packet { payload }
    }
}

/// What one poll of a socket surfaces.
///
/// `Idle` means "nothing ready, try again later" — it is the ordinary idle
/// outcome, not an error.
#[derive(Clone, PartialEq, Eq, Debug)]
pub enum SocketEvent {
    /// Nothing happened on this poll.
    Idle,
    /// A data frame arrived; the payload is the frame minus its tag byte.
    Packet(Packet),
    /// The handshake completed: the link is now established.
    Connection,
    /// The peer fell silent past the timeout: the link is dropped.
    Disconnection,
}

/// The mathematical shape of a socket event, with the payload abstracted to
/// a byte sequence. Contracts speak of events through this view.
pub enum EventModel {
    /// Nothing happened.
    Idle,
    /// A payload arrived.
    Packet(Seq<u8>),
    /// The link was established.
    Connection,
    /// The link was dropped.
    Disconnection,
}

impl View for SocketEvent {
    type V = EventModel;

    open spec fn view(&self) -> EventModel {
        match self {
            SocketEvent::Idle => EventModel::Idle,
            SocketEvent::Packet(p) => EventModel::Packet(p.payload@),
            SocketEvent::Connection => EventModel::Connection,
            SocketEvent::Disconnection => EventModel::Disconnection,
        }
    }
}

/// The view of a whole poll outcome: events through their model, errors as
/// they are.
pub open spec fn event_result_view(r: Result<SocketEvent, SocketError>) -> Result<
    EventModel,
    SocketError,
> {
    match r {
        Ok(ev) => Ok(ev@),
        Err(e) => Err(e),
    }
}

} // verus!
