//! The resolved destination address of a session.

use vstd::prelude::*;

verus! {

/// A resolved network address, IPv4 or IPv6. It is immutable for the whole
/// session and decides once which echo protocol variant is spoken: ICMP for
/// IPv4 destinations, ICMPv6 for IPv6 ones. The raw address bytes are kept
/// so that the transport layer can be handed the exact address back.
#[derive(Clone, Copy, Debug, PartialEq, Eq)]
pub enum Destination {
    /// An IPv4 address as its four octets.
    V4 { octets: [u8; 4] },
    /// An IPv6 address as its eight 16-bit segments.
    V6 { segments: [u16; 8] },
}

impl Destination {
    /// Whether this destination selects the ICMP (IPv4) protocol variant.
    pub fn is_v4(&self) -> (b: bool)
        ensures
            b == (self is V4),
    {
        match self {
            Destination::V4 { .. } => true,
            Destination::V6 { .. } => false,
        }
    }
}

} // verus!
