//! The two messages the server sends during the handshake: the method reply
//! and the command reply, built as exact byte sequences.

use vstd::prelude::*;

use crate::address::{IpAddress, SockAddress};
use crate::data::{AuthMethod, CommandReply};

verus! {

/// The low byte of a port value.
pub open spec fn spec_port_low(port: u16) -> u8 {
    (port % 256) as u8
}

/// The high byte of a port value.
pub open spec fn spec_port_high(port: u16) -> u8 {
    (port / 256) as u8
}

/// Relies on u16::to_ne_bytes: the machine's native byte order, so the pair
/// is the two bytes of the port, low-then-high or high-then-low; the reply
/// deliberately does not re-order the port for the network.
#[verifier::external_body]
fn port_native_bytes(port: u16) -> (r: (u8, u8))
    ensures
        (r.0 == spec_port_low(port) && r.1 == spec_port_high(port)) || (r.0 == spec_port_high(port)
            && r.1 == spec_port_low(port)),
{
    let bytes = port.to_ne_bytes();
    (bytes[0], bytes[1])
}

/// The method reply `VER METHOD`: the server's chosen authentication method.
#[derive(Debug)]
pub struct AuthMethodResponse {
    pub version: u8,
    pub method: AuthMethod,
}

impl AuthMethodResponse {
    /// A method reply for the given version and chosen method.
    pub fn create(version: u8, method: AuthMethod) -> (r: AuthMethodResponse)
        ensures
            r.version == version,
            r.method == method,
    {
        AuthMethodResponse { version, method }
    }

    /// The two bytes of the reply.
    pub open spec fn spec_encode(self) -> Seq<u8> {
        seq![self.version, self.method.spec_to_byte()]
    }

    /// Encode the reply as the two bytes written to the client.
    pub fn encode(&self) -> (r: Vec<u8>)
        ensures
            r@ == self.spec_encode(),
    {
        let mut buffer: Vec<u8> = Vec::new();
        buffer.push(self.version);
        buffer.push(self.method.to_byte());
        proof {
            assert(buffer@ =~= self.spec_encode());
        }
        buffer
    }
}

/// The command reply `VER REP RSV ATYP BND.ADDR BND.PORT`: the result of the
/// connection request.
#[derive(Debug)]
pub struct CommandResponse {
    pub version: u8,
    pub reply: CommandReply,
    pub address: SockAddress,
}

impl CommandResponse {
    /// The success reply, echoing the destination actually connected to.
    pub fn success(version: u8, address: &SockAddress) -> (r: CommandResponse)
        ensures
            r.version == version,
            r.reply == CommandReply::Success,
            r.address == *address,
    {
        CommandResponse { version, reply: CommandReply::Success, address: *address }
    }

    /// The refusal for commands other than CONNECT: zero address, port zero.
    pub fn command_not_supported(version: u8) -> (r: CommandResponse)
        ensures
            r.version == version,
            r.reply == CommandReply::CommandNotSupported,
            r.address.spec_is_unspecified(),
    {
        CommandResponse {
            version,
            reply: CommandReply::CommandNotSupported,
            address: SockAddress::unspecified(),
        }
    }

    /// The reply for a destination that could not be resolved: zero address,
    /// port zero.
    pub fn host_unreachable(version: u8) -> (r: CommandResponse)
        ensures
            r.version == version,
            r.reply == CommandReply::HostUnreachable,
            r.address.spec_is_unspecified(),
    {
        CommandResponse {
            version,
            reply: CommandReply::HostUnreachable,
            address: SockAddress::unspecified(),
        }
    }

    /// Everything before the port: version, reply code, the reserved zero
    /// byte, the address-type tag (1 for IPv4, 4 for IPv6) and the address
    /// octets. Domain names are never echoed back, only a resolved family.
    pub open spec fn spec_encode_prefix(self) -> Seq<u8> {
        seq![self.version, self.reply.spec_to_byte(), 0u8] + (match self.address.ip {
            IpAddress::V4 { octets } => seq![1u8] + octets@,
            IpAddress::V6 { octets } => seq![4u8] + octets@,
        })
    }

    /// Encode the reply: the fixed prefix, then the two port bytes in the
    /// machine's native order.
    pub fn encode(&self) -> (r: Vec<u8>)
        ensures
            r@.len() == self.spec_encode_prefix().len() + 2,
            r@.subrange(0, r@.len() - 2) == self.spec_encode_prefix(),
            (r@[r@.len() - 2] == spec_port_low(self.address.port) && r@[r@.len() - 1]
                == spec_port_high(self.address.port)) || (r@[r@.len() - 2] == spec_port_high(
                self.address.port,
            ) && r@[r@.len() - 1] == spec_port_low(self.address.port)),
    {
        let mut buffer: Vec<u8> = Vec::new();
        buffer.push(self.version);
        buffer.push(self.reply.to_byte());
        buffer.push(0);
        match &self.address.ip {
            IpAddress::V4 { octets } => {
                buffer.push(1);
                let mut i: usize = 0;
                while i < 4
                    invariant
                        i <= 4,
                        buffer@ =~= seq![
                            self.version,
                            self.reply.spec_to_byte(),
                            0u8,
                            1u8,
                        ] + octets@.subrange(0, i as int),
                    decreases 4 - i,
                {
                    buffer.push(octets[i]);
                    i = i + 1;
                }
            },
            IpAddress::V6 { octets } => {
                buffer.push(4);
                let mut i: usize = 0;
                while i < 16
                    invariant
                        i <= 16,
                        buffer@ =~= seq![
                            self.version,
                            self.reply.spec_to_byte(),
                            0u8,
                            4u8,
                        ] + octets@.subrange(0, i as int),
                    decreases 16 - i,
                {
                    buffer.push(octets[i]);
                    i = i + 1;
                }
            },
        }
        proof {
            assert(buffer@ =~= self.spec_encode_prefix());
        }
        let port_bytes = port_native_bytes(self.address.port);
        buffer.push(port_bytes.0);
        buffer.push(port_bytes.1);
        proof {
            assert(buffer@.subrange(0, buffer@.len() - 2) =~= self.spec_encode_prefix());
        }
        buffer
    }
}

} // verus!
