//! Failures that the client reports.
use vstd::prelude::*;

verus! {

/// Kind of a transport-level frame that the stream protocol does not carry.
#[derive(Copy, Clone, Debug, PartialEq, Eq, Structural)]
pub enum FrameKind {
    Binary,
    Ping,
    Pong,
}

#[derive(Clone, Debug)]
pub enum ClientError {
    /// A request needs signing but no credentials are configured.
    MissingAuth,
    /// An account-scoped request was made while the account group is unknown.
    MissingAccountGroup,
    /// The private key is not valid base64.
    InvalidPrivateKey,
    /// The request URL could not be formed.
    InvalidUrl,
    /// The server answered with a status outside 2xx.
    Transport { status: u16, body: String },
    /// The envelope carried a non-zero code.
    Remote { code: u32, raw: String },
    /// The payload is not JSON of the expected shape.
    Decode { raw: String },
    /// A frame arrived that the stream protocol does not use.
    UnexpectedFrame(FrameKind),
    /// The stream session has ended.
    SessionClosed,
}

} // verus!
