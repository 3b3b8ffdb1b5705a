//! Destination addresses held as plain values: raw octets and a port.

use vstd::prelude::*;

verus! {

/// An IP address held as its raw octets, in the order they stand on the wire.
#[derive(Clone, Copy, Debug, PartialEq, Eq)]
#[allow(inconsistent_fields)]
pub enum IpAddress {
    V4 { octets: [u8; 4] },
    V6 { octets: [u8; 16] },
}

/// A socket address: an IP address and a port, the port as the 16-bit value
/// read in network byte order.
#[derive(Clone, Copy, Debug, PartialEq, Eq)]
pub struct SockAddress {
    pub ip: IpAddress,
    pub port: u16,
}

impl SockAddress {
    /// The all-zero IPv4 address with port zero, used by replies that carry
    /// no destination.
    pub open spec fn spec_is_unspecified(self) -> bool {
        &&& self.port == 0
        &&& self.ip matches IpAddress::V4 { octets } && octets@ == seq![0u8, 0u8, 0u8, 0u8]
    }

    /// Build the all-zero IPv4 address with port zero.
    pub fn unspecified() -> (r: SockAddress)
        ensures
            r.spec_is_unspecified(),
    {
        let octets = [0u8, 0u8, 0u8, 0u8];
        let r = SockAddress { ip: IpAddress::V4 { octets }, port: 0 };
        proof {
            assert(octets@ =~= seq![0u8, 0u8, 0u8, 0u8]);
        }
        r
    }
}

} // verus!
