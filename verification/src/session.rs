//! The decisions a connection's supervisor takes between the messages: which
//! authentication method to answer the greeting with, and what to do with a
//! parsed connection request.

use vstd::prelude::*;

use crate::SOCKS5_VERSION;
use crate::address::SockAddress;
use crate::data::{AuthMethod, Command, CommandReply};
use crate::request::{AuthMethodsRequest, CommandRequest};
use crate::response::{AuthMethodResponse, CommandResponse};

verus! {

/// Answer a greeting: "no authentication required" is selected exactly when
/// the client offered it; otherwise the connection is closed silently, with
/// no reply at all.
pub fn select_auth_method(request: &AuthMethodsRequest) -> (r: Option<AuthMethodResponse>)
    ensures
        (r is Some) == request.spec_offers_no_auth(),
        r matches Some(response) ==> response.version == SOCKS5_VERSION && response.method
            == AuthMethod::NoAuthenticationRequired,
{
    if request.offers_no_auth() {
        Some(AuthMethodResponse::create(SOCKS5_VERSION, AuthMethod::NoAuthenticationRequired))
    } else {
        None
    }
}

/// What the supervisor does with a parsed connection request.
#[derive(Debug)]
pub enum CommandDispatch {
    /// Dial the destination, then confirm with the success reply that echoes
    /// it.
    Connect { destination: SockAddress, reply: CommandResponse },
    /// Send the refusal reply, then close without relaying.
    Reject { reply: CommandResponse },
}

/// Decide a parsed request: only CONNECT is served — anything else is
/// refused as not supported; a CONNECT without a destination (the host did
/// not resolve) is answered host-unreachable; a CONNECT with a destination
/// is dialled and confirmed with a success reply echoing that destination.
pub fn dispatch_command(request: &CommandRequest) -> (d: CommandDispatch)
    ensures
        !(request.command is Connect) ==> (d matches CommandDispatch::Reject { reply }
            && reply.version == SOCKS5_VERSION && reply.reply == CommandReply::CommandNotSupported
            && reply.address.spec_is_unspecified()),
        request.command is Connect && request.destination is None ==> (d
            matches CommandDispatch::Reject { reply } && reply.version == SOCKS5_VERSION
            && reply.reply == CommandReply::HostUnreachable && reply.address.spec_is_unspecified()),
        request.command is Connect ==> (request.destination matches Some(destination) ==> (d
            matches CommandDispatch::Connect { destination: dialled, reply } && dialled
            == destination && reply.version == SOCKS5_VERSION && reply.reply
            == CommandReply::Success && reply.address == destination)),
{
    match request.command() {
        Command::Connect => {
            match request.destination() {
                Some(destination) => CommandDispatch::Connect {
                    destination,
                    reply: CommandResponse::success(SOCKS5_VERSION, &destination),
                },
                None => CommandDispatch::Reject {
                    reply: CommandResponse::host_unreachable(SOCKS5_VERSION),
                },
            }
        },
        _ => CommandDispatch::Reject {
            reply: CommandResponse::command_not_supported(SOCKS5_VERSION),
        },
    }
}

} // verus!
