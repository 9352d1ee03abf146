//! A byte-at-a-time scanner for the three ways an HTTP/1 body can be framed.
//!
//! The scanner is a finite automaton whose state is a [`BodyPhase`]. Its
//! meaning is given by [`BodyPhase::step`], which consumes one byte, and by
//! [`feed`], which consumes a run of bytes and stops where the body ends.

use vstd::prelude::*;

use crate::chunked::hex::{hex_digit_of, hex_digit_value, is_hex_digit};

verus! {

pub const CR: u8 = 13;

pub const LF: u8 = 10;

pub const SEMICOLON: u8 = 59;

/// Why a byte stream is not a valid body.
#[derive(Clone, Copy, Debug, PartialEq, Eq, Structural)]
pub enum BodyError {
    /// A chunk-size line is longer than the configured limit.
    LineTooLong,
    /// A chunk-size line does not start with a hexadecimal number, or the
    /// number is followed by something other than `;` or the line end.
    InvalidChunkSize,
    /// A chunk size does not fit in 64 bits.
    ChunkSizeOverflow,
    /// A chunk-size line holds a bare CR or a bare LF.
    InvalidLineEnd,
    /// The data of a chunk is not followed by CR LF.
    InvalidChunkEnd,
    /// A trailer line holds a bare CR or a bare LF.
    InvalidTrailer,
}

/// Where a scanner stands in a body.
#[derive(Clone, Copy, Debug, PartialEq, Eq, Structural)]
pub enum BodyPhase {
    /// In a body of announced length, with this many bytes to go.
    Fixed { left: u64 },
    /// In a body that runs until the source ends.
    UntilEnd,
    /// The source of an until-the-end body has ended.
    Ended,
    /// In the digits of a chunk-size line; `len` bytes of the line are read.
    Size { value: u64, len: usize },
    /// In the extension of a chunk-size line.
    Ext { value: u64, len: usize },
    /// After the CR of a chunk-size line.
    SizeLf { value: u64, len: usize },
    /// In the data of a chunk, with this many bytes to go (at least one).
    Data { left: u64 },
    /// After the data of a chunk, before its CR.
    DataCr,
    /// After the data of a chunk and its CR.
    DataLf,
    /// At the start of a trailer line.
    TrailerStart,
    /// Inside a trailer line that is not empty.
    TrailerLine,
    /// After the CR of a trailer line that is not empty.
    TrailerLf,
    /// After the CR of the empty line that closes the trailer.
    LastLf,
    /// Behind the last byte of a chunked body.
    End,
    /// The bytes read so far are not a valid body.
    Failed(BodyError),
}

/// The two settings of a scanner.
#[derive(Clone, Copy, Debug, PartialEq, Eq, Structural)]
pub struct ScanRules {
    /// The longest chunk-size line accepted, CR LF included.
    pub line_max: usize,
    /// Whether the scanner hands out the payload only and stops in front of
    /// the trailer, or hands out every byte up to the end of the body.
    pub decode: bool,
}

impl BodyPhase {
    /// The phase a chunked body starts in.
    pub open spec fn chunk_start() -> BodyPhase {
        BodyPhase::Size { value: 0, len: 0 }
    }

    /// Whether a scanner in this phase takes no further byte.
    pub open spec fn halted(self, rules: ScanRules) -> bool {
        match self {
            BodyPhase::Fixed { left } => left == 0,
            BodyPhase::Ended => true,
            BodyPhase::End => true,
            BodyPhase::Failed(_) => true,
            BodyPhase::TrailerStart => rules.decode,
            _ => false,
        }
    }

    /// Whether the body is complete as far as this scanner reads it.
    pub open spec fn finished(self, rules: ScanRules) -> bool {
        self.halted(rules) && !(self is Failed)
    }

    /// Whether the next byte is payload.
    pub open spec fn in_payload(self) -> bool {
        self is Fixed || self is UntilEnd || self is Data
    }

    /// The phase after one more byte.
    pub open spec fn step(self, b: u8, rules: ScanRules) -> BodyPhase {
        match self {
            BodyPhase::Fixed { left } => BodyPhase::Fixed { left: (left - 1) as u64 },
            BodyPhase::UntilEnd => BodyPhase::UntilEnd,
            BodyPhase::Size { value, len } => {
                if len >= rules.line_max {
                    BodyPhase::Failed(BodyError::LineTooLong)
                } else if is_hex_digit(b) {
                    if value * 16 + hex_digit_value(b) > u64::MAX {
                        BodyPhase::Failed(BodyError::ChunkSizeOverflow)
                    } else {
                        BodyPhase::Size {
                            value: (value * 16 + hex_digit_value(b)) as u64,
                            len: (len + 1) as usize,
                        }
                    }
                } else if len == 0 {
                    BodyPhase::Failed(BodyError::InvalidChunkSize)
                } else if b == SEMICOLON {
                    BodyPhase::Ext { value, len: (len + 1) as usize }
                } else if b == CR {
                    BodyPhase::SizeLf { value, len: (len + 1) as usize }
                } else {
                    BodyPhase::Failed(BodyError::InvalidChunkSize)
                }
            },
            BodyPhase::Ext { value, len } => {
                if len >= rules.line_max {
                    BodyPhase::Failed(BodyError::LineTooLong)
                } else if b == CR {
                    BodyPhase::SizeLf { value, len: (len + 1) as usize }
                } else if b == LF {
                    BodyPhase::Failed(BodyError::InvalidLineEnd)
                } else {
                    BodyPhase::Ext { value, len: (len + 1) as usize }
                }
            },
            BodyPhase::SizeLf { value, len } => {
                if len >= rules.line_max {
                    BodyPhase::Failed(BodyError::LineTooLong)
                } else if b != LF {
                    BodyPhase::Failed(BodyError::InvalidLineEnd)
                } else if value == 0 {
                    BodyPhase::TrailerStart
                } else {
                    BodyPhase::Data { left: value }
                }
            },
            BodyPhase::Data { left } => {
                if left <= 1 {
                    BodyPhase::DataCr
                } else {
                    BodyPhase::Data { left: (left - 1) as u64 }
                }
            },
            BodyPhase::DataCr => {
                if b == CR {
                    BodyPhase::DataLf
                } else {
                    BodyPhase::Failed(BodyError::InvalidChunkEnd)
                }
            },
            BodyPhase::DataLf => {
                if b == LF {
                    BodyPhase::chunk_start()
                } else {
                    BodyPhase::Failed(BodyError::InvalidChunkEnd)
                }
            },
            BodyPhase::TrailerStart => {
                if b == CR {
                    BodyPhase::LastLf
                } else if b == LF {
                    BodyPhase::Failed(BodyError::InvalidTrailer)
                } else {
                    BodyPhase::TrailerLine
                }
            },
            BodyPhase::TrailerLine => {
                if b == CR {
                    BodyPhase::TrailerLf
                } else if b == LF {
                    BodyPhase::Failed(BodyError::InvalidTrailer)
                } else {
                    BodyPhase::TrailerLine
                }
            },
            BodyPhase::TrailerLf => {
                if b == LF {
                    BodyPhase::TrailerStart
                } else {
                    BodyPhase::Failed(BodyError::InvalidTrailer)
                }
            },
            BodyPhase::LastLf => {
                if b == LF {
                    BodyPhase::End
                } else {
                    BodyPhase::Failed(BodyError::InvalidTrailer)
                }
            },
            BodyPhase::Ended => self,
            BodyPhase::End => self,
            BodyPhase::Failed(_) => self,
        }
    }

    /// Whether this is a phase of a chunked body.
    pub open spec fn in_chunked(self) -> bool {
        !(self is Fixed) && !(self is UntilEnd) && !(self is Ended)
    }

    /// The phase after `n` payload bytes, for a phase that is in payload
    /// and has at least `n` of it to go.
    pub open spec fn after_payload(self, n: nat) -> BodyPhase {
        match self {
            BodyPhase::Fixed { left } => BodyPhase::Fixed { left: (left - n) as u64 },
            BodyPhase::Data { left } => {
                if n == 0 {
                    self
                } else if left <= n {
                    BodyPhase::DataCr
                } else {
                    BodyPhase::Data { left: (left - n) as u64 }
                }
            },
            _ => self,
        }
    }
}

/// What a scanner made of a run of bytes.
pub struct Fed {
    /// The phase it stopped in.
    pub phase: BodyPhase,
    /// How many bytes it consumed.
    pub used: nat,
    /// The payload among the consumed bytes.
    pub payload: Seq<u8>,
}

/// Scans `s` from phase `p`, byte by byte, and stops at the first phase that
/// is halted.
pub open spec fn feed(p: BodyPhase, s: Seq<u8>, rules: ScanRules) -> Fed
    decreases s.len(),
{
    if s.len() == 0 {
        Fed { phase: p, used: 0, payload: Seq::empty() }
    } else {
        let f = feed(p, s.drop_last(), rules);
        if f.phase.halted(rules) {
            f
        } else {
            Fed {
                phase: f.phase.step(s.last(), rules),
                used: f.used + 1,
                payload: if f.phase.in_payload() {
                    f.payload.push(s.last())
                } else {
                    f.payload
                },
            }
        }
    }
}

/// The bytes that a scanner hands on for what it consumed of `s`.
pub open spec fn handed_on(f: Fed, s: Seq<u8>, rules: ScanRules) -> Seq<u8> {
    if rules.decode {
        f.payload
    } else {
        s.take(f.used as int)
    }
}

/// One scan after another.
pub open spec fn fed_then(f1: Fed, f2: Fed) -> Fed {
    Fed { phase: f2.phase, used: f1.used + f2.used, payload: f1.payload + f2.payload }
}

/// A scan consumes a prefix of its input, all of it unless it halts, and
/// finds no more payload than it consumes.
pub proof fn lemma_feed_bounds(p: BodyPhase, s: Seq<u8>, rules: ScanRules)
    ensures
        feed(p, s, rules).used <= s.len(),
        feed(p, s, rules).payload.len() <= feed(p, s, rules).used,
        !feed(p, s, rules).phase.halted(rules) ==> feed(p, s, rules).used == s.len(),
        p.halted(rules) ==> feed(p, s, rules) == (Fed { phase: p, used: 0, payload: Seq::empty() }),
    decreases s.len(),
{
    if s.len() > 0 {
        lemma_feed_bounds(p, s.drop_last(), rules);
    }
}

/// A scan stays with the kind of body it started in.
pub proof fn lemma_feed_kind(p: BodyPhase, s: Seq<u8>, rules: ScanRules)
    ensures
        p.in_chunked() ==> feed(p, s, rules).phase.in_chunked(),
        p is Fixed ==> feed(p, s, rules).phase is Fixed,
        p is UntilEnd ==> feed(p, s, rules).phase is UntilEnd,
        p is Ended ==> feed(p, s, rules).phase is Ended,
    decreases s.len(),
{
    if s.len() > 0 {
        lemma_feed_kind(p, s.drop_last(), rules);
    }
}

/// Scanning `a` and then `b` from where `a` left off is scanning `a + b`.
pub proof fn lemma_feed_concat(p: BodyPhase, a: Seq<u8>, b: Seq<u8>, rules: ScanRules)
    ensures
        feed(p, a + b, rules) == fed_then(
            feed(p, a, rules),
            feed(feed(p, a, rules).phase, b, rules),
        ),
    decreases b.len(),
{
    let f1 = feed(p, a, rules);
    if b.len() == 0 {
        assert(a + b =~= a);
        assert(f1.payload + Seq::<u8>::empty() =~= f1.payload);
    } else {
        let b0 = b.drop_last();
        lemma_feed_concat(p, a, b0, rules);
        assert((a + b).drop_last() =~= a + b0);
        assert((a + b).last() == b.last());
        let f2 = feed(f1.phase, b0, rules);
        lemma_feed_bounds(f1.phase, b0, rules);
        if !f2.phase.halted(rules) && f2.phase.in_payload() {
            assert((f1.payload + f2.payload).push(b.last()) =~= f1.payload + f2.payload.push(
                b.last(),
            ));
        }
    }
}

/// What lies behind the consumed prefix plays no part in a scan.
pub proof fn lemma_feed_used_prefix(p: BodyPhase, s: Seq<u8>, rules: ScanRules)
    ensures
        feed(p, s.take(feed(p, s, rules).used as int), rules) == feed(p, s, rules),
    decreases s.len(),
{
    let f = feed(p, s, rules);
    lemma_feed_bounds(p, s, rules);
    if s.len() == 0 {
        assert(s.take(0) =~= s);
    } else {
        let s0 = s.drop_last();
        let f0 = feed(p, s0, rules);
        lemma_feed_bounds(p, s0, rules);
        lemma_feed_used_prefix(p, s0, rules);
        if f0.phase.halted(rules) {
            assert(s.take(f.used as int) =~= s0.take(f0.used as int));
        } else {
            assert(s.take(f.used as int) =~= s);
        }
    }
}

/// A run of payload bytes no longer than what the phase has to go is
/// consumed whole and handed on unchanged.
pub proof fn lemma_feed_payload(p: BodyPhase, s: Seq<u8>, rules: ScanRules)
    requires
        p.in_payload(),
        p matches BodyPhase::Fixed { left } ==> s.len() <= left,
        p matches BodyPhase::Data { left } ==> s.len() <= left && left >= 1,
    ensures
        feed(p, s, rules) == (Fed { phase: p.after_payload(s.len()), used: s.len(), payload: s }),
    decreases s.len(),
{
    if s.len() == 0 {
        assert(s =~= Seq::<u8>::empty());
    } else {
        let s0 = s.drop_last();
        lemma_feed_payload(p, s0, rules);
        assert(s0.push(s.last()) =~= s);
    }
}

/// A scan that starts in a phase that is not halted consumes at least the
/// first byte it is shown.
pub proof fn lemma_feed_first_byte(p: BodyPhase, s: Seq<u8>, rules: ScanRules)
    requires
        s.len() >= 1,
        !p.halted(rules),
    ensures
        feed(p, s, rules).used >= 1,
    decreases s.len(),
{
    reveal_with_fuel(feed, 2);
    if s.len() > 1 {
        lemma_feed_first_byte(p, s.drop_last(), rules);
    } else {
        assert(s.drop_last() =~= Seq::<u8>::empty());
    }
}

/// What a scanner makes of a body of announced length: it consumes the
/// first `n` bytes and no more.
pub proof fn lemma_feed_fixed(n: u64, s: Seq<u8>, rules: ScanRules)
    ensures
        feed(BodyPhase::Fixed { left: n }, s, rules) == (if s.len() <= n {
            Fed {
                phase: BodyPhase::Fixed { left: (n - s.len()) as u64 },
                used: s.len(),
                payload: s,
            }
        } else {
            Fed { phase: BodyPhase::Fixed { left: 0 }, used: n as nat, payload: s.take(n as int) }
        }),
{
    let p = BodyPhase::Fixed { left: n };
    if s.len() <= n {
        lemma_feed_payload(p, s, rules);
    } else {
        let a = s.take(n as int);
        let b = s.skip(n as int);
        lemma_feed_payload(p, a, rules);
        lemma_feed_concat(p, a, b, rules);
        lemma_feed_bounds(BodyPhase::Fixed { left: 0 }, b, rules);
        assert(a + b =~= s);
        assert(a + Seq::<u8>::empty() =~= a);
    }
}

/// If a scan of a prefix of a stream halts, the scan of the stream is the
/// scan of the prefix.
pub proof fn lemma_feed_prefix_halted(p: BodyPhase, a: Seq<u8>, s: Seq<u8>, rules: ScanRules)
    requires
        a.is_prefix_of(s),
        feed(p, a, rules).phase.halted(rules),
    ensures
        feed(p, s, rules) == feed(p, a, rules),
{
    let rest = s.skip(a.len() as int);
    assert(a + rest =~= s);
    lemma_feed_concat(p, a, rest, rules);
    lemma_feed_bounds(feed(p, a, rules).phase, rest, rules);
    assert(feed(p, a, rules).payload + Seq::<u8>::empty() =~= feed(p, a, rules).payload);
}

/// The phase after one more byte.
pub fn step_phase(p: BodyPhase, b: u8, rules: ScanRules) -> (r: BodyPhase)
    requires
        !p.halted(rules),
        p matches BodyPhase::Data { left } ==> left >= 1,
    ensures
        r == p.step(b, rules),
{
    match p {
        BodyPhase::Fixed { left } => BodyPhase::Fixed { left: left - 1 },
        BodyPhase::UntilEnd => BodyPhase::UntilEnd,
        BodyPhase::Size { value, len } => {
            if len >= rules.line_max {
                BodyPhase::Failed(BodyError::LineTooLong)
            } else {
                match hex_digit_of(b) {
                    Some(d) => {
                        if value > (u64::MAX - d as u64) / 16 {
                            BodyPhase::Failed(BodyError::ChunkSizeOverflow)
                        } else {
                            BodyPhase::Size { value: value * 16 + d as u64, len: len + 1 }
                        }
                    },
                    None => {
                        if len == 0 {
                            BodyPhase::Failed(BodyError::InvalidChunkSize)
                        } else if b == SEMICOLON {
                            BodyPhase::Ext { value, len: len + 1 }
                        } else if b == CR {
                            BodyPhase::SizeLf { value, len: len + 1 }
                        } else {
                            BodyPhase::Failed(BodyError::InvalidChunkSize)
                        }
                    },
                }
            }
        },
        BodyPhase::Ext { value, len } => {
            if len >= rules.line_max {
                BodyPhase::Failed(BodyError::LineTooLong)
            } else if b == CR {
                BodyPhase::SizeLf { value, len: len + 1 }
            } else if b == LF {
                BodyPhase::Failed(BodyError::InvalidLineEnd)
            } else {
                BodyPhase::Ext { value, len: len + 1 }
            }
        },
        BodyPhase::SizeLf { value, len } => {
            if len >= rules.line_max {
                BodyPhase::Failed(BodyError::LineTooLong)
            } else if b != LF {
                BodyPhase::Failed(BodyError::InvalidLineEnd)
            } else if value == 0 {
                BodyPhase::TrailerStart
            } else {
                BodyPhase::Data { left: value }
            }
        },
        BodyPhase::Data { left } => {
            if left <= 1 {
                BodyPhase::DataCr
            } else {
                BodyPhase::Data { left: left - 1 }
            }
        },
        BodyPhase::DataCr => {
            if b == CR {
                BodyPhase::DataLf
            } else {
                BodyPhase::Failed(BodyError::InvalidChunkEnd)
            }
        },
        BodyPhase::DataLf => {
            if b == LF {
                BodyPhase::Size { value: 0, len: 0 }
            } else {
                BodyPhase::Failed(BodyError::InvalidChunkEnd)
            }
        },
        BodyPhase::TrailerStart => {
            if b == CR {
                BodyPhase::LastLf
            } else if b == LF {
                BodyPhase::Failed(BodyError::InvalidTrailer)
            } else {
                BodyPhase::TrailerLine
            }
        },
        BodyPhase::TrailerLine => {
            if b == CR {
                BodyPhase::TrailerLf
            } else if b == LF {
                BodyPhase::Failed(BodyError::InvalidTrailer)
            } else {
                BodyPhase::TrailerLine
            }
        },
        BodyPhase::TrailerLf => {
            if b == LF {
                BodyPhase::TrailerStart
            } else {
                BodyPhase::Failed(BodyError::InvalidTrailer)
            }
        },
        BodyPhase::LastLf => {
            if b == LF {
                BodyPhase::End
            } else {
                BodyPhase::Failed(BodyError::InvalidTrailer)
            }
        },
        BodyPhase::Ended => p,
        BodyPhase::End => p,
        BodyPhase::Failed(_) => p,
    }
}

/// Whether a scanner in phase `p` takes no further byte.
pub fn phase_halted(p: BodyPhase, rules: ScanRules) -> (r: bool)
    ensures
        r == p.halted(rules),
{
    match p {
        BodyPhase::Fixed { left } => left == 0,
        BodyPhase::Ended => true,
        BodyPhase::End => true,
        BodyPhase::Failed(_) => true,
        BodyPhase::TrailerStart => rules.decode,
        _ => false,
    }
}

} // verus!
