//! What ends a session.

use vstd::prelude::*;

verus! {

/// The failures that a session can meet. Each is local to the session that
/// met it; `LobbyNotFound` is an answer to the peer and ends nothing.
#[derive(Clone, Copy, Debug, PartialEq, Eq, Structural)]
pub enum SessionError {
    /// An inbound frame that is no message of the protocol.
    MalformedMessage,
    /// A creation request whose address is no IPv4 address.
    AddressParseError,
    /// A creation request for an address that did not answer the probe.
    LobbyUnreachable,
    /// A lookup of an identifier that the registry does not hold.
    LobbyNotFound,
    /// A read or a write on the connection failed.
    SocketIoError,
}

/// Why a session is over.
#[derive(Clone, Copy, Debug, PartialEq, Eq, Structural)]
pub enum SessionEnd {
    /// The peer asked to close, or closed the connection.
    ClosedByPeer,
    Failed(SessionError),
}

} // verus!
