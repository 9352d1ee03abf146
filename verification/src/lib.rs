//! Verified building blocks of a content-adapting stream relay.
//!
//! Every transfer in this crate is a state machine that performs no I/O of
//! its own. A driving loop asks the machine what to do next, performs the one
//! non-blocking call it names, and reports the outcome back. The machines
//! carry a ghost record of the bytes they took from their source and of the
//! bytes their sink accepted, and their contracts are stated over that record.
//!
//! - [`chunked`]: the chunked transfer coding, and the scanner that reads it.
//! - [`body`]: readers that find the end of a body, and the transfer that
//!   presents any body as a chunked one.
//! - [`stream_copy`]: the buffered copy between a source and a sink, and
//!   [`copy_in_memory`], which runs it over a body held in memory.
//! - [`idle`]: counting idle intervals and blaming a side for them.
//! - [`respmod`]: the two stages of an adaptation over ICAP.
//! - [`udp`]: the endpoints of a UDP relay.
//! - [`config`]: the configuration of the servers around all this.

pub mod body;
pub mod chunked;
pub mod config;
pub mod copy_config;
pub mod copy_in_memory;
pub mod idle;
pub mod io;
pub mod respmod;
pub mod stream_copy;
pub mod udp;
