//! How an adaptation ends badly, and who is to blame.

use vstd::prelude::*;

use crate::idle::{IdleBlame, IdleForceQuitReason};
use crate::io::{IoFailure, StreamCopyError};

verus! {

/// Why the body that the adaptation server returned is not acceptable.
#[derive(Clone, Copy, Debug, PartialEq, Eq, Structural)]
pub enum InvalidBodyDetail {
    /// The adapted header announces a body of no bytes, yet the response of
    /// the adaptation server holds a body.
    ZeroContentLength,
    /// The adapted header announces `expected` bytes, and the decoded body
    /// has `copied`.
    LengthMismatch { expected: u64, copied: u64 },
}

/// Why an adaptation failed.
#[derive(Clone, Copy, Debug, PartialEq, Eq, Structural)]
pub enum H1RespmodAdaptationError {
    /// Reading the body from upstream failed.
    HttpUpstreamReadFailed(IoFailure),
    /// Writing to the adaptation server failed.
    IcapServerWriteFailed(IoFailure),
    /// Reading from the adaptation server failed.
    IcapServerReadFailed(IoFailure),
    /// The adaptation server closed the connection.
    IcapServerConnectionClosed,
    /// Writing to the client failed.
    HttpClientWriteFailed(IoFailure),
    /// Upstream sent nothing for too long.
    HttpUpstreamReadIdle,
    /// The adaptation server took nothing for too long.
    IcapServerWriteIdle,
    /// The adaptation server sent nothing for too long.
    IcapServerReadIdle,
    /// The client took nothing for too long.
    HttpClientWriteIdle,
    /// The adaptation server returned a body that breaks the protocol.
    InvalidHttpBodyFromIcapServer(InvalidBodyDetail),
    /// The task was told to quit.
    IdleForceQuit(IdleForceQuitReason),
}

/// The error that a failed upstream leg stands for: its source is upstream,
/// its sink the adaptation server.
pub open spec fn upstream_leg_error(e: StreamCopyError) -> H1RespmodAdaptationError {
    match e {
        StreamCopyError::ReadFailed(f) => H1RespmodAdaptationError::HttpUpstreamReadFailed(f),
        StreamCopyError::WriteFailed(f) => H1RespmodAdaptationError::IcapServerWriteFailed(f),
    }
}

/// The error that a failed client leg stands for: its source is the
/// adaptation server, its sink the client.
pub open spec fn client_leg_error(e: StreamCopyError) -> H1RespmodAdaptationError {
    match e {
        StreamCopyError::ReadFailed(f) => H1RespmodAdaptationError::IcapServerReadFailed(f),
        StreamCopyError::WriteFailed(f) => H1RespmodAdaptationError::HttpClientWriteFailed(f),
    }
}

/// The error that quitting for idleness stands for.
pub open spec fn idle_error(blame: IdleBlame) -> H1RespmodAdaptationError {
    match blame {
        IdleBlame::HttpUpstreamRead => H1RespmodAdaptationError::HttpUpstreamReadIdle,
        IdleBlame::IcapServerWrite => H1RespmodAdaptationError::IcapServerWriteIdle,
        IdleBlame::IcapServerRead => H1RespmodAdaptationError::IcapServerReadIdle,
        IdleBlame::HttpClientWrite => H1RespmodAdaptationError::HttpClientWriteIdle,
    }
}

impl H1RespmodAdaptationError {
    /// The error that a failed upstream leg stands for.
    pub fn from_upstream_leg(e: StreamCopyError) -> (r: Self)
        ensures
            r == upstream_leg_error(e),
    {
        match e {
            StreamCopyError::ReadFailed(f) => H1RespmodAdaptationError::HttpUpstreamReadFailed(f),
            StreamCopyError::WriteFailed(f) => H1RespmodAdaptationError::IcapServerWriteFailed(f),
        }
    }

    /// The error that a failed client leg stands for.
    pub fn from_client_leg(e: StreamCopyError) -> (r: Self)
        ensures
            r == client_leg_error(e),
    {
        match e {
            StreamCopyError::ReadFailed(f) => H1RespmodAdaptationError::IcapServerReadFailed(f),
            StreamCopyError::WriteFailed(f) => H1RespmodAdaptationError::HttpClientWriteFailed(f),
        }
    }

    /// The error that quitting for idleness stands for.
    pub fn from_idle_blame(blame: IdleBlame) -> (r: Self)
        ensures
            r == idle_error(blame),
    {
        match blame {
            IdleBlame::HttpUpstreamRead => H1RespmodAdaptationError::HttpUpstreamReadIdle,
            IdleBlame::IcapServerWrite => H1RespmodAdaptationError::IcapServerWriteIdle,
            IdleBlame::IcapServerRead => H1RespmodAdaptationError::IcapServerReadIdle,
            IdleBlame::HttpClientWrite => H1RespmodAdaptationError::HttpClientWriteIdle,
        }
    }

    /// Whether the error blames a side for being idle.
    pub fn is_idle(&self) -> (r: bool)
        ensures
            r == (*self is HttpUpstreamReadIdle || *self is IcapServerWriteIdle || *self
                is IcapServerReadIdle || *self is HttpClientWriteIdle),
    {
        match self {
            H1RespmodAdaptationError::HttpUpstreamReadIdle
            | H1RespmodAdaptationError::IcapServerWriteIdle
            | H1RespmodAdaptationError::IcapServerReadIdle
            | H1RespmodAdaptationError::HttpClientWriteIdle => true,
            _ => false,
        }
    }
}

} // verus!
