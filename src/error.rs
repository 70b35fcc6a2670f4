//! The failures of the workflow, by kind.

use vstd::prelude::*;

use crate::framing::FrameError;

verus! {

/// Every failure that a step of the workflow can report.
#[derive(Clone, Copy, Debug, PartialEq, Eq, Structural)]
pub enum AuthError {
    /// Connecting, the secure handshake, a timeout or another transport fault.
    Network,
    /// A frame or message that breaks the protocol.
    ProtocolViolation(FrameError),
    /// A reply that does not carry what the request asked for.
    UnexpectedResponse,
    /// A message that could not be decoded.
    Malformed,
    /// The server refused to open a virtual connection.
    ConnectionRefused,
    /// The transport session was not authenticated.
    AuthRejected,
    /// The server closed the connection that was being waited on.
    ConnectionClosed,
    /// The server reports this client as outdated.
    ClientOutdated,
    /// The token service answered with a result code other than success.
    ServiceResult(i32),
    /// A token that is not valid UTF-8 text.
    InvalidText,
    /// The identity exchange answered with a status outside 2xx.
    LoginStatus(u16),
    /// The identity exchange asks for a second factor.
    TwoFactorRequired,
    /// The identity exchange answered without a ticket.
    MissingTicket,
    /// The identity exchange answered without a session id.
    MissingSessionId,
    /// The target product is not among the ownership records.
    NotOwned,
    /// No usable account credentials are configured.
    ConfigurationError,
}

} // verus!
