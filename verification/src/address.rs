use vstd::prelude::*;

verus! {

/// A peer endpoint, reduced to what the connection logic reads: identity.
///
/// The state machine only ever compares addresses, so an address is a plain
/// pair of host (an IPv4 address zero-extended, or a full IPv6 address, as a
/// 128-bit integer) and port. Whatever binds the real sockets converts to
/// and from its own address type at the boundary.
#[derive(Clone, Copy, PartialEq, Eq, Structural, Debug, Hash)]
pub struct Address {
    /// The host, as a 128-bit integer.
    pub host: u128,
    /// The port.
    pub port: u16,
}

impl Address {
    /// Builds an address from its parts.
    pub fn new(host: u128, port: u16) -> (a: Address)
        ensures
            a == (Address { host, port }),
    {
        Address { host, port }
    }
}

} // verus!
