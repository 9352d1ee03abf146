//! The chunked transfer coding: its digits, its grammar and its scanner.

pub mod frame;
pub mod grammar;
pub mod hex;
pub mod phase;
