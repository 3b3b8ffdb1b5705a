//! The two client messages of the handshake, read incrementally.
//!
//! Sockets are read elsewhere; each reader here is a state machine that says
//! how many bytes it wants next, is fed exactly those bytes, and ends in a
//! parsed message. Framing decisions — how many method bytes follow the
//! greeting header, how long an address body is, when a host name must be
//! resolved — are all taken here.

use vstd::prelude::*;
use vstd::pervasive::unreached;

use crate::address::{IpAddress, SockAddress};
use crate::data::{AddressType, AuthMethod, Command};

verus! {

/// The client's greeting: the protocol version byte and the offered
/// authentication methods, in the order they were offered.
#[derive(Debug)]
pub struct AuthMethodsRequest {
    pub version: u8,
    pub methods: Vec<AuthMethod>,
}

impl AuthMethodsRequest {
    /// The protocol version byte of the greeting.
    pub fn version(&self) -> (r: u8)
        ensures
            r == self.version,
    {
        self.version
    }

    /// The offered methods, in wire order.
    pub fn methods(&self) -> (r: &Vec<AuthMethod>)
        ensures
            r@ == self.methods@,
    {
        &self.methods
    }

    /// Whether "no authentication required" is among the offered methods.
    pub open spec fn spec_offers_no_auth(self) -> bool {
        exists|i: int|
            0 <= i < self.methods@.len() && self.methods@[i]
                == AuthMethod::NoAuthenticationRequired
    }

    /// Whether the client offered "no authentication required".
    pub fn offers_no_auth(&self) -> (r: bool)
        ensures
            r == self.spec_offers_no_auth(),
    {
        let mut i: usize = 0;
        while i < self.methods.len()
            invariant
                i <= self.methods@.len(),
                forall|j: int|
                    0 <= j < i ==> self.methods@[j] != AuthMethod::NoAuthenticationRequired,
            decreases self.methods@.len() - i,
        {
            if self.methods[i] == AuthMethod::NoAuthenticationRequired {
                assert(self.spec_offers_no_auth()) by {
                    assert(self.methods@[i as int] == AuthMethod::NoAuthenticationRequired);
                }
                return true;
            }
            i = i + 1;
        }
        false
    }
}

/// Where the greeting reader stands.
#[derive(Debug)]
pub enum GreetingState {
    /// Waiting for the two header bytes `VER NMETHODS`.
    Header,
    /// Waiting for `count` method bytes.
    Methods { version: u8, count: u8 },
    /// The greeting is fully read.
    Complete { request: AuthMethodsRequest },
}

/// Incremental reader for the greeting `VER NMETHODS METHODS`.
#[derive(Debug)]
pub struct GreetingReader {
    pub state: GreetingState,
}

impl GreetingReader {
    /// How many bytes the reader wants next; zero once complete.
    pub open spec fn spec_needed(self) -> int {
        match self.state {
            GreetingState::Header => 2,
            GreetingState::Methods { count, .. } => count as int,
            GreetingState::Complete { .. } => 0,
        }
    }

    /// Start before the greeting header.
    pub fn new() -> (r: GreetingReader)
        ensures
            r.state is Header,
    {
        GreetingReader { state: GreetingState::Header }
    }

    /// How many bytes to read and feed next; zero once complete.
    pub fn needed(&self) -> (n: usize)
        ensures
            n == self.spec_needed(),
    {
        match &self.state {
            GreetingState::Header => 2,
            GreetingState::Methods { count, .. } => *count as usize,
            GreetingState::Complete { .. } => 0,
        }
    }

    /// Whether the greeting is fully read.
    pub fn complete(&self) -> (r: bool)
        ensures
            r == (self.state is Complete),
    {
        match &self.state {
            GreetingState::Complete { .. } => true,
            _ => false,
        }
    }

    /// Feed exactly the bytes asked for: the header fixes how many method
    /// bytes follow; the method bytes are each decoded and complete the
    /// greeting.
    pub fn feed(&mut self, bytes: &Vec<u8>)
        requires
            !(old(self).state is Complete),
            bytes@.len() == old(self).spec_needed(),
        ensures
            (old(self).state is Header ==> final(self).state == (GreetingState::Methods {
                version: bytes@[0],
                count: bytes@[1],
            })),
            (old(self).state matches GreetingState::Methods { version, count } ==> final(self).state matches GreetingState::Complete { request } && request.version == version
                && request.methods@.len() == count as int && (forall|i: int|
                0 <= i < count as int ==> request.methods@[i] == AuthMethod::spec_from_byte(
                    bytes@[i],
                ))),
    {
        match &self.state {
            GreetingState::Header => {
                let version = bytes[0];
                let count = bytes[1];
                self.state = GreetingState::Methods { version, count };
            },
            GreetingState::Methods { version, .. } => {
                let version = *version;
                let mut methods: Vec<AuthMethod> = Vec::new();
                let mut i: usize = 0;
                while i < bytes.len()
                    invariant
                        i <= bytes@.len(),
                        methods@.len() == i as int,
                        forall|j: int|
                            0 <= j < i ==> methods@[j] == AuthMethod::spec_from_byte(bytes@[j]),
                    decreases bytes@.len() - i,
                {
                    methods.push(AuthMethod::from_byte(bytes[i]));
                    i = i + 1;
                }
                self.state = GreetingState::Complete {
                    request: AuthMethodsRequest { version, methods },
                };
            },
            GreetingState::Complete { .. } => {},
        }
    }

    /// Hand out the finished greeting.
    pub fn take(self) -> (r: AuthMethodsRequest)
        requires
            self.state is Complete,
        ensures
            self.state matches GreetingState::Complete { request } && r == request,
    {
        match self.state {
            GreetingState::Complete { request } => request,
            _ => unreached(),
        }
    }
}

/// The fixed head of a connection request: version, command, address type.
#[derive(Clone, Copy, Debug, PartialEq, Eq, Structural)]
pub struct CommandHeader {
    pub version: u8,
    pub command: Command,
    pub address_type: AddressType,
}

/// The destination a request named, before the port is known: either a
/// direct IP address or a host name still to be resolved.
#[derive(Debug)]
pub enum PendingTarget {
    Ip { ip: IpAddress },
    Domain { host: String },
}

/// Why a connection request could not be completed.
#[derive(Clone, Copy, Debug, PartialEq, Eq, Structural)]
pub enum RequestError {
    /// The address-type byte names no supported encoding; carries the byte.
    UnsupportedAddressType { value: u8 },
    /// The host-name bytes are not valid UTF-8 text.
    InvalidDomainEncoding,
}

/// The client's connection request. The destination is `None` when the named
/// host did not resolve: reported data, not a fault — callers must branch on
/// it rather than assume success.
#[derive(Debug)]
pub struct CommandRequest {
    pub version: u8,
    pub command: Command,
    pub address_type: AddressType,
    pub destination: Option<SockAddress>,
}

impl CommandRequest {
    /// The protocol version byte of the request.
    pub fn version(&self) -> (r: u8)
        ensures
            r == self.version,
    {
        self.version
    }

    /// The requested operation.
    pub fn command(&self) -> (r: Command)
        ensures
            r == self.command,
    {
        self.command
    }

    /// How the destination was encoded on the wire.
    pub fn address_type(&self) -> (r: AddressType)
        ensures
            r == self.address_type,
    {
        self.address_type
    }

    /// The destination to dial, if the request yielded one.
    pub fn destination(&self) -> (r: Option<SockAddress>)
        ensures
            r == self.destination,
    {
        self.destination
    }
}

/// The 16-bit port read from its two wire bytes, network byte order.
pub open spec fn spec_port(b0: u8, b1: u8) -> u16 {
    (b0 * 256 + b1) as u16
}

/// The characters a byte sequence decodes to as UTF-8 text, when it is valid.
pub uninterp spec fn utf8_decode(bytes: Seq<u8>) -> Option<Seq<char>>;

/// Relies on String::from_utf8: returns the text exactly when the bytes are
/// valid UTF-8, and the decoding depends on the bytes alone.
#[verifier::external_body]
fn decode_utf8(bytes: &Vec<u8>) -> (r: Option<String>)
    ensures
        (r is Some) == (utf8_decode(bytes@) is Some),
        r is Some ==> r->Some_0@ == utf8_decode(bytes@)->Some_0,
{
    String::from_utf8(bytes.clone()).ok()
}

/// Where the request reader stands.
#[derive(Debug)]
pub enum RequestState {
    /// Waiting for the four header bytes `VER CMD RSV ATYP`.
    Header,
    /// Waiting for the one-byte length of a host name.
    DomainLength { header: CommandHeader },
    /// Waiting for `count` address bytes: 4, 16, or the announced name
    /// length.
    AddressBytes { header: CommandHeader, count: usize },
    /// Waiting for the two port bytes.
    PortBytes { header: CommandHeader, target: PendingTarget },
    /// Waiting for the resolver's answer for `host`.
    Resolving { header: CommandHeader, host: String, port: u16 },
    /// The request is fully read.
    Complete { request: CommandRequest },
    /// The request cannot be completed.
    Failed { error: RequestError },
}

/// What the request reader wants next from its caller.
#[derive(Clone, Copy, Debug, PartialEq, Eq, Structural)]
pub enum RequestNeed {
    /// Read exactly this many bytes and feed them back.
    Bytes { count: usize },
    /// Resolve the parsed host name and feed the addresses back.
    Resolve,
    /// The request is complete.
    Complete,
    /// The request failed; nothing more will be read.
    Failed,
}

/// Incremental reader for the connection request
/// `VER CMD RSV ATYP DST.ADDR DST.PORT`.
#[derive(Debug)]
pub struct RequestReader {
    pub state: RequestState,
}

impl RequestReader {
    /// Whether the reader is waiting for wire bytes.
    pub open spec fn spec_wants_bytes(self) -> bool {
        self.state is Header || self.state is DomainLength || self.state is AddressBytes
            || self.state is PortBytes
    }

    /// Well-formedness: while address bytes are awaited, their count fits
    /// the header's address type — four for IPv4, sixteen for IPv6, at most
    /// one length byte's worth for a host name, and never an unsupported
    /// type. `new` establishes it and `feed` preserves it.
    pub open spec fn spec_wf(self) -> bool {
        match self.state {
            RequestState::DomainLength { header } => header.address_type is DomainName,
            RequestState::AddressBytes { header, count } => match header.address_type {
                AddressType::IpV4Address => count == 4,
                AddressType::IpV6Address => count == 16,
                AddressType::DomainName => count <= 255,
                AddressType::Invalid { .. } => false,
            },
            _ => true,
        }
    }

    /// How many bytes the reader wants while it wants any.
    pub open spec fn spec_bytes_needed(self) -> int {
        match self.state {
            RequestState::Header => 4,
            RequestState::DomainLength { .. } => 1,
            RequestState::AddressBytes { count, .. } => count as int,
            RequestState::PortBytes { .. } => 2,
            _ => 0,
        }
    }

    /// Start before the request header.
    pub fn new() -> (r: RequestReader)
        ensures
            r.state is Header,
    {
        RequestReader { state: RequestState::Header }
    }

    /// What the caller should do next.
    pub fn needed(&self) -> (n: RequestNeed)
        ensures
            self.spec_wants_bytes() ==> n == (RequestNeed::Bytes {
                count: self.spec_bytes_needed() as usize,
            }),
            self.state is Resolving ==> n == RequestNeed::Resolve,
            self.state is Complete ==> n == RequestNeed::Complete,
            self.state is Failed ==> n == RequestNeed::Failed,
    {
        match &self.state {
            RequestState::Header => RequestNeed::Bytes { count: 4 },
            RequestState::DomainLength { .. } => RequestNeed::Bytes { count: 1 },
            RequestState::AddressBytes { count, .. } => RequestNeed::Bytes { count: *count },
            RequestState::PortBytes { .. } => RequestNeed::Bytes { count: 2 },
            RequestState::Resolving { .. } => RequestNeed::Resolve,
            RequestState::Complete { .. } => RequestNeed::Complete,
            RequestState::Failed { .. } => RequestNeed::Failed,
        }
    }

    /// The host name awaiting resolution.
    pub fn host_to_resolve(&self) -> (r: &String)
        requires
            self.state is Resolving,
        ensures
            self.state matches RequestState::Resolving { host, .. } && *r == host,
    {
        match &self.state {
            RequestState::Resolving { host, .. } => host,
            _ => unreached(),
        }
    }

    /// Feed exactly the bytes asked for.
    ///
    /// The header decides what follows: a four- or sixteen-byte address, or
    /// a length-prefixed host name — an unsupported address type fails the
    /// request at once, before any address byte is asked for. Host-name
    /// bytes must be valid UTF-8 text or the request fails with a decode
    /// error. The two port bytes complete a direct address, or leave a host
    /// name waiting for resolution.
    pub fn feed(&mut self, bytes: &Vec<u8>) -> (r: Result<(), RequestError>)
        requires
            old(self).spec_wf(),
            old(self).spec_wants_bytes(),
            bytes@.len() == old(self).spec_bytes_needed(),
        ensures
            final(self).spec_wf(),
            (old(self).state is Header ==> {
                let header = CommandHeader {
                    version: bytes@[0],
                    command: Command::spec_from_byte(bytes@[1]),
                    address_type: AddressType::spec_from_byte(bytes@[3]),
                };
                match AddressType::spec_from_byte(bytes@[3]) {
                    AddressType::IpV4Address => r == Ok::<(), RequestError>(()) && final(self).state == (RequestState::AddressBytes { header, count: 4 }),
                    AddressType::DomainName => r == Ok::<(), RequestError>(()) && final(self).state == (RequestState::DomainLength { header }),
                    AddressType::IpV6Address => r == Ok::<(), RequestError>(()) && final(self).state == (RequestState::AddressBytes { header, count: 16 }),
                    AddressType::Invalid { value } => r == Err::<(), RequestError>(
                        RequestError::UnsupportedAddressType { value },
                    ) && final(self).state == (RequestState::Failed {
                        error: RequestError::UnsupportedAddressType { value },
                    }),
                }
            }),
            (old(self).state matches RequestState::DomainLength { header } ==> r == Ok::<
                (),
                RequestError,
            >(()) && final(self).state == (RequestState::AddressBytes {
                header,
                count: bytes@[0] as usize,
            })),
            (old(self).state matches RequestState::AddressBytes { header, count } ==> {
                match header.address_type {
                    AddressType::IpV4Address => r == Ok::<(), RequestError>(()) && (final(self).state matches RequestState::PortBytes {
                        header: h2,
                        target: PendingTarget::Ip { ip: IpAddress::V4 { octets } },
                    } && h2 == header && octets@ == bytes@),
                    AddressType::IpV6Address => r == Ok::<(), RequestError>(()) && (final(self).state matches RequestState::PortBytes {
                        header: h2,
                        target: PendingTarget::Ip { ip: IpAddress::V6 { octets } },
                    } && h2 == header && octets@ == bytes@),
                    AddressType::DomainName => {
                        if utf8_decode(bytes@) is Some {
                            r == Ok::<(), RequestError>(()) && (final(self).state matches RequestState::PortBytes {
                                header: h2,
                                target: PendingTarget::Domain { host },
                            } && h2 == header && host@ == utf8_decode(bytes@)->Some_0)
                        } else {
                            r == Err::<(), RequestError>(RequestError::InvalidDomainEncoding)
                                && final(self).state == (RequestState::Failed {
                                error: RequestError::InvalidDomainEncoding,
                            })
                        }
                    },
                    AddressType::Invalid { .. } => true,
                }
            }),
            (old(self).state matches RequestState::PortBytes { header, target } ==> r == Ok::<
                (),
                RequestError,
            >(()) && {
                let port = spec_port(bytes@[0], bytes@[1]);
                match target {
                    PendingTarget::Ip { ip } => final(self).state matches RequestState::Complete { request } && request.version
                        == header.version && request.command == header.command
                        && request.address_type == header.address_type && request.destination
                        == Some(SockAddress { ip, port }),
                    PendingTarget::Domain { host } => final(self).state matches RequestState::Resolving { header: h2, host: h3, port: p2 }
                        && h2 == header && h3 == host && p2 == port,
                }
            }),
    {
        match &self.state {
            RequestState::Header => {
                let version = bytes[0];
                let command = Command::from_byte(bytes[1]);
                let address_type = AddressType::from_byte(bytes[3]);
                let header = CommandHeader { version, command, address_type };
                match address_type {
                    AddressType::IpV4Address => {
                        self.state = RequestState::AddressBytes { header, count: 4 };
                        Ok(())
                    },
                    AddressType::DomainName => {
                        self.state = RequestState::DomainLength { header };
                        Ok(())
                    },
                    AddressType::IpV6Address => {
                        self.state = RequestState::AddressBytes { header, count: 16 };
                        Ok(())
                    },
                    AddressType::Invalid { value } => {
                        let error = RequestError::UnsupportedAddressType { value };
                        self.state = RequestState::Failed { error };
                        Err(error)
                    },
                }
            },
            RequestState::DomainLength { header } => {
                let header = *header;
                let count = bytes[0] as usize;
                self.state = RequestState::AddressBytes { header, count };
                Ok(())
            },
            RequestState::AddressBytes { header, .. } => {
                let header = *header;
                match header.address_type {
                    AddressType::IpV4Address => {
                        let octets = [bytes[0], bytes[1], bytes[2], bytes[3]];
                        proof {
                            assert(octets@ =~= bytes@);
                        }
                        self.state = RequestState::PortBytes {
                            header,
                            target: PendingTarget::Ip { ip: IpAddress::V4 { octets } },
                        };
                        Ok(())
                    },
                    AddressType::IpV6Address => {
                        let octets = [
                            bytes[0],
                            bytes[1],
                            bytes[2],
                            bytes[3],
                            bytes[4],
                            bytes[5],
                            bytes[6],
                            bytes[7],
                            bytes[8],
                            bytes[9],
                            bytes[10],
                            bytes[11],
                            bytes[12],
                            bytes[13],
                            bytes[14],
                            bytes[15],
                        ];
                        proof {
                            assert(octets@ =~= bytes@);
                        }
                        self.state = RequestState::PortBytes {
                            header,
                            target: PendingTarget::Ip { ip: IpAddress::V6 { octets } },
                        };
                        Ok(())
                    },
                    AddressType::DomainName => {
                        match decode_utf8(bytes) {
                            Some(host) => {
                                self.state = RequestState::PortBytes {
                                    header,
                                    target: PendingTarget::Domain { host },
                                };
                                Ok(())
                            },
                            None => {
                                self.state = RequestState::Failed {
                                    error: RequestError::InvalidDomainEncoding,
                                };
                                Err(RequestError::InvalidDomainEncoding)
                            },
                        }
                    },
                    AddressType::Invalid { .. } => unreached(),
                }
            },
            RequestState::PortBytes { .. } => {
                let port = (bytes[0] as u16) * 256 + (bytes[1] as u16);
                let mut state = RequestState::Header;
                core::mem::swap(&mut state, &mut self.state);
                match state {
                    RequestState::PortBytes { header, target } => {
                        match target {
                            PendingTarget::Ip { ip } => {
                                self.state = RequestState::Complete {
                                    request: CommandRequest {
                                        version: header.version,
                                        command: header.command,
                                        address_type: header.address_type,
                                        destination: Some(SockAddress { ip, port }),
                                    },
                                };
                            },
                            PendingTarget::Domain { host } => {
                                self.state = RequestState::Resolving {
                                    header,
                                    host,
                                    port,
                                };
                            },
                        }
                        Ok(())
                    },
                    _ => unreached(),
                }
            },
            RequestState::Resolving { .. } => unreached(),
            RequestState::Complete { .. } => unreached(),
            RequestState::Failed { .. } => unreached(),
        }
    }

    /// Feed the resolver's answer for the waiting host name: the first
    /// returned address, in the resolver's own order, becomes the
    /// destination; no address — the host did not resolve — completes the
    /// request with an empty destination.
    pub fn feed_resolved(&mut self, addresses: &Vec<IpAddress>)
        requires
            old(self).state is Resolving,
        ensures
            old(self).state matches RequestState::Resolving { header, host, port } ==> final(self).state matches RequestState::Complete { request } && request.version
                == header.version && request.command == header.command && request.address_type
                == header.address_type && request.destination == (if addresses@.len() > 0 {
                Some(SockAddress { ip: addresses@[0], port })
            } else {
                None::<SockAddress>
            }),
    {
        match &self.state {
            RequestState::Resolving { header, port, .. } => {
                let header = *header;
                let port = *port;
                let destination = if addresses.len() > 0 {
                    Some(SockAddress { ip: addresses[0], port })
                } else {
                    None
                };
                self.state = RequestState::Complete {
                    request: CommandRequest {
                        version: header.version,
                        command: header.command,
                        address_type: header.address_type,
                        destination,
                    },
                };
            },
            _ => unreached(),
        }
    }

    /// Hand out the finished request.
    pub fn take(self) -> (r: CommandRequest)
        requires
            self.state is Complete,
        ensures
            self.state matches RequestState::Complete { request } && r == request,
    {
        match self.state {
            RequestState::Complete { request } => request,
            _ => unreached(),
        }
    }
}

} // verus!
