//! The vocabulary shared by every transfer machine and its driving loop.

use vstd::prelude::*;

use crate::chunked::phase::BodyError;

verus! {

/// Why a read or a write did not succeed.
#[derive(Clone, Copy, Debug, PartialEq, Eq, Structural)]
pub enum IoFailure {
    /// The transport reported an error. The number is its raw OS error code,
    /// or 0 when it has none.
    Transport(i32),
    /// The source ended inside a body.
    UnexpectedEof,
    /// The sink was offered bytes and accepted none.
    WriteZero,
    /// The source delivered bytes that are not a valid body.
    InvalidBody(BodyError),
}

/// A failed copy, with the side that failed.
#[derive(Clone, Copy, Debug, PartialEq, Eq, Structural)]
pub enum StreamCopyError {
    ReadFailed(IoFailure),
    WriteFailed(IoFailure),
}

/// The one non-blocking call a machine wants made on its behalf.
#[derive(Clone, Copy, Debug, PartialEq, Eq, Structural)]
pub enum IoRequest {
    /// Look at the bytes the source has buffered, without consuming them.
    Fill,
    /// Offer the machine's pending bytes to the sink.
    Write,
    /// Flush the sink.
    Flush,
}

/// What a machine answers when it is polled.
#[derive(Clone, Copy, Debug, PartialEq, Eq, Structural)]
pub enum PollStep {
    /// Make this call and poll again with its outcome.
    Io(IoRequest),
    /// Nothing can be done until the source or the sink is ready.
    Pending,
    /// The yield budget of this round is spent: give other tasks a turn.
    Yield,
    /// The transfer is complete; the number is its payload byte count.
    Done(u64),
    /// The transfer has failed.
    Failed(StreamCopyError),
}

/// What the driving loop reports when it polls a machine.
#[derive(Clone, Copy, Debug)]
pub enum IoOutcome<'a> {
    /// A new round starts; there is nothing to report.
    Begin,
    /// The source has these bytes buffered. An empty slice is end of file.
    Filled(&'a [u8]),
    /// The sink accepted this many of the pending bytes.
    Wrote(usize),
    /// The sink was flushed.
    Flushed,
    /// The requested call would block.
    NotReady,
    /// The requested call failed.
    Failed(IoFailure),
}

/// An [`IoOutcome`] as contracts see it.
pub enum IoEvent {
    Begin,
    Filled(Seq<u8>),
    Wrote(nat),
    Flushed,
    NotReady,
    Failed(IoFailure),
}

impl<'a> View for IoOutcome<'a> {
    type V = IoEvent;

    open spec fn view(&self) -> IoEvent {
        match *self {
            IoOutcome::Begin => IoEvent::Begin,
            IoOutcome::Filled(d) => IoEvent::Filled(d@),
            IoOutcome::Wrote(n) => IoEvent::Wrote(n as nat),
            IoOutcome::Flushed => IoEvent::Flushed,
            IoOutcome::NotReady => IoEvent::NotReady,
            IoOutcome::Failed(e) => IoEvent::Failed(e),
        }
    }
}

/// `a + b`, held at `u64::MAX`.
pub open spec fn sat_add(a: nat, b: nat) -> nat {
    if a + b > u64::MAX {
        u64::MAX as nat
    } else {
        a + b
    }
}

} // verus!
