//! Core of a SOCKS5 proxy server: the wire codec for the handshake
//! enumerations, the negotiation state machines, the reply encoder, and the
//! byte-relay state machine, each with a verified contract.

use vstd::prelude::*;

pub mod address;
pub mod arguments;
pub mod data;
pub mod request;
pub mod response;
pub mod session;
pub mod text;
pub mod transfer;

verus! {

/// The SOCKS protocol version this server speaks.
pub const SOCKS5_VERSION: u8 = 0x05;

} // verus!
