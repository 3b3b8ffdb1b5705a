//! The fixed enumerations of the SOCKS5 handshake and their wire-byte codec.
//!
//! Every byte value decodes to some variant (reserved and unknown ranges go
//! to a carrier variant holding the raw byte), and re-encoding the decoded
//! variant returns the original byte.

use vstd::prelude::*;

verus! {

/// One SOCKS5 authentication-method code.
#[derive(Clone, Copy, Debug, PartialEq, Eq, Structural)]
pub enum AuthMethod {
    NoAuthenticationRequired,
    GssApi,
    UsernamePassword,
    IanaAssigned { method: u8 },
    PrivateMethod { method: u8 },
    NoAcceptableMethods,
}

impl AuthMethod {
    /// The variant a wire byte decodes to: 0x00-0x02 and 0xff are named
    /// methods, 0x03-0x7f is the IANA-assigned range, 0x80-0xfe the private
    /// range.
    pub open spec fn spec_from_byte(value: u8) -> AuthMethod {
        if value == 0x00 {
            AuthMethod::NoAuthenticationRequired
        } else if value == 0x01 {
            AuthMethod::GssApi
        } else if value == 0x02 {
            AuthMethod::UsernamePassword
        } else if value <= 0x7f {
            AuthMethod::IanaAssigned { method: value }
        } else if value <= 0xfe {
            AuthMethod::PrivateMethod { method: value }
        } else {
            AuthMethod::NoAcceptableMethods
        }
    }

    /// The wire byte a variant encodes to.
    pub open spec fn spec_to_byte(self) -> u8 {
        match self {
            AuthMethod::NoAuthenticationRequired => 0x00,
            AuthMethod::GssApi => 0x01,
            AuthMethod::UsernamePassword => 0x02,
            AuthMethod::IanaAssigned { method } => method,
            AuthMethod::PrivateMethod { method } => method,
            AuthMethod::NoAcceptableMethods => 0xff,
        }
    }

    /// Decode one wire byte; total, no byte is rejected.
    pub fn from_byte(value: u8) -> (r: AuthMethod)
        ensures
            r == AuthMethod::spec_from_byte(value),
    {
        if value == 0x00 {
            AuthMethod::NoAuthenticationRequired
        } else if value == 0x01 {
            AuthMethod::GssApi
        } else if value == 0x02 {
            AuthMethod::UsernamePassword
        } else if value <= 0x7f {
            AuthMethod::IanaAssigned { method: value }
        } else if value <= 0xfe {
            AuthMethod::PrivateMethod { method: value }
        } else {
            AuthMethod::NoAcceptableMethods
        }
    }

    /// Encode the variant back to its wire byte.
    pub fn to_byte(self) -> (r: u8)
        ensures
            r == self.spec_to_byte(),
    {
        match self {
            AuthMethod::NoAuthenticationRequired => 0x00,
            AuthMethod::GssApi => 0x01,
            AuthMethod::UsernamePassword => 0x02,
            AuthMethod::IanaAssigned { method } => method,
            AuthMethod::PrivateMethod { method } => method,
            AuthMethod::NoAcceptableMethods => 0xff,
        }
    }

    /// Law: decoding any byte and re-encoding the variant returns the byte.
    pub proof fn lemma_byte_round_trip(value: u8)
        ensures
            AuthMethod::spec_from_byte(value).spec_to_byte() == value,
    {
    }
}

/// The proxy operation a client requests.
#[derive(Clone, Copy, Debug, PartialEq, Eq, Structural)]
pub enum Command {
    Connect,
    Bind,
    UdpAssociate,
    Invalid { value: u8 },
}

impl Command {
    /// The variant a wire byte decodes to: 0x01-0x03 are the three commands,
    /// anything else is carried as invalid.
    pub open spec fn spec_from_byte(value: u8) -> Command {
        if value == 0x01 {
            Command::Connect
        } else if value == 0x02 {
            Command::Bind
        } else if value == 0x03 {
            Command::UdpAssociate
        } else {
            Command::Invalid { value }
        }
    }

    /// The wire byte a variant encodes to.
    pub open spec fn spec_to_byte(self) -> u8 {
        match self {
            Command::Connect => 0x01,
            Command::Bind => 0x02,
            Command::UdpAssociate => 0x03,
            Command::Invalid { value } => value,
        }
    }

    /// Decode one wire byte; total, no byte is rejected.
    pub fn from_byte(value: u8) -> (r: Command)
        ensures
            r == Command::spec_from_byte(value),
    {
        if value == 0x01 {
            Command::Connect
        } else if value == 0x02 {
            Command::Bind
        } else if value == 0x03 {
            Command::UdpAssociate
        } else {
            Command::Invalid { value }
        }
    }

    /// Encode the variant back to its wire byte.
    pub fn to_byte(self) -> (r: u8)
        ensures
            r == self.spec_to_byte(),
    {
        match self {
            Command::Connect => 0x01,
            Command::Bind => 0x02,
            Command::UdpAssociate => 0x03,
            Command::Invalid { value } => value,
        }
    }

    /// Law: decoding any byte and re-encoding the variant returns the byte.
    pub proof fn lemma_byte_round_trip(value: u8)
        ensures
            Command::spec_from_byte(value).spec_to_byte() == value,
    {
    }
}

/// How the destination address of a request is encoded on the wire.
#[derive(Clone, Copy, Debug, PartialEq, Eq, Structural)]
pub enum AddressType {
    IpV4Address,
    DomainName,
    IpV6Address,
    Invalid { value: u8 },
}

impl AddressType {
    /// The variant a wire byte decodes to: 0x01, 0x03 and 0x04 are the three
    /// encodings, anything else is carried as invalid.
    pub open spec fn spec_from_byte(value: u8) -> AddressType {
        if value == 0x01 {
            AddressType::IpV4Address
        } else if value == 0x03 {
            AddressType::DomainName
        } else if value == 0x04 {
            AddressType::IpV6Address
        } else {
            AddressType::Invalid { value }
        }
    }

    /// The wire byte a variant encodes to.
    pub open spec fn spec_to_byte(self) -> u8 {
        match self {
            AddressType::IpV4Address => 0x01,
            AddressType::DomainName => 0x03,
            AddressType::IpV6Address => 0x04,
            AddressType::Invalid { value } => value,
        }
    }

    /// Decode one wire byte; total, no byte is rejected.
    pub fn from_byte(value: u8) -> (r: AddressType)
        ensures
            r == AddressType::spec_from_byte(value),
    {
        if value == 0x01 {
            AddressType::IpV4Address
        } else if value == 0x03 {
            AddressType::DomainName
        } else if value == 0x04 {
            AddressType::IpV6Address
        } else {
            AddressType::Invalid { value }
        }
    }

    /// Encode the variant back to its wire byte.
    pub fn to_byte(self) -> (r: u8)
        ensures
            r == self.spec_to_byte(),
    {
        match self {
            AddressType::IpV4Address => 0x01,
            AddressType::DomainName => 0x03,
            AddressType::IpV6Address => 0x04,
            AddressType::Invalid { value } => value,
        }
    }

    /// Law: decoding any byte and re-encoding the variant returns the byte.
    pub proof fn lemma_byte_round_trip(value: u8)
        ensures
            AddressType::spec_from_byte(value).spec_to_byte() == value,
    {
    }
}

/// The status code of a command reply.
#[derive(Clone, Copy, Debug, PartialEq, Eq, Structural)]
pub enum CommandReply {
    Success,
    ServerFailure,
    ConnectionNotAllowed,
    NetworkUnreachable,
    HostUnreachable,
    ConnectionRefused,
    TtlExpired,
    CommandNotSupported,
    AddressTypeNotSupported,
    Unknown { value: u8 },
}

impl CommandReply {
    /// The variant a wire byte decodes to: 0x00-0x08 are the nine named
    /// outcomes, anything else is carried as unknown.
    pub open spec fn spec_from_byte(value: u8) -> CommandReply {
        if value == 0x00 {
            CommandReply::Success
        } else if value == 0x01 {
            CommandReply::ServerFailure
        } else if value == 0x02 {
            CommandReply::ConnectionNotAllowed
        } else if value == 0x03 {
            CommandReply::NetworkUnreachable
        } else if value == 0x04 {
            CommandReply::HostUnreachable
        } else if value == 0x05 {
            CommandReply::ConnectionRefused
        } else if value == 0x06 {
            CommandReply::TtlExpired
        } else if value == 0x07 {
            CommandReply::CommandNotSupported
        } else if value == 0x08 {
            CommandReply::AddressTypeNotSupported
        } else {
            CommandReply::Unknown { value }
        }
    }

    /// The wire byte a variant encodes to.
    pub open spec fn spec_to_byte(self) -> u8 {
        match self {
            CommandReply::Success => 0x00,
            CommandReply::ServerFailure => 0x01,
            CommandReply::ConnectionNotAllowed => 0x02,
            CommandReply::NetworkUnreachable => 0x03,
            CommandReply::HostUnreachable => 0x04,
            CommandReply::ConnectionRefused => 0x05,
            CommandReply::TtlExpired => 0x06,
            CommandReply::CommandNotSupported => 0x07,
            CommandReply::AddressTypeNotSupported => 0x08,
            CommandReply::Unknown { value } => value,
        }
    }

    /// Decode one wire byte; total, no byte is rejected.
    pub fn from_byte(value: u8) -> (r: CommandReply)
        ensures
            r == CommandReply::spec_from_byte(value),
    {
        if value == 0x00 {
            CommandReply::Success
        } else if value == 0x01 {
            CommandReply::ServerFailure
        } else if value == 0x02 {
            CommandReply::ConnectionNotAllowed
        } else if value == 0x03 {
            CommandReply::NetworkUnreachable
        } else if value == 0x04 {
            CommandReply::HostUnreachable
        } else if value == 0x05 {
            CommandReply::ConnectionRefused
        } else if value == 0x06 {
            CommandReply::TtlExpired
        } else if value == 0x07 {
            CommandReply::CommandNotSupported
        } else if value == 0x08 {
            CommandReply::AddressTypeNotSupported
        } else {
            CommandReply::Unknown { value }
        }
    }

    /// Encode the variant back to its wire byte.
    pub fn to_byte(self) -> (r: u8)
        ensures
            r == self.spec_to_byte(),
    {
        match self {
            CommandReply::Success => 0x00,
            CommandReply::ServerFailure => 0x01,
            CommandReply::ConnectionNotAllowed => 0x02,
            CommandReply::NetworkUnreachable => 0x03,
            CommandReply::HostUnreachable => 0x04,
            CommandReply::ConnectionRefused => 0x05,
            CommandReply::TtlExpired => 0x06,
            CommandReply::CommandNotSupported => 0x07,
            CommandReply::AddressTypeNotSupported => 0x08,
            CommandReply::Unknown { value } => value,
        }
    }

    /// Law: decoding any byte and re-encoding the variant returns the byte.
    pub proof fn lemma_byte_round_trip(value: u8)
        ensures
            CommandReply::spec_from_byte(value).spec_to_byte() == value,
    {
    }
}

} // verus!
