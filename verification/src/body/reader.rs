//! Readers that find the end of a body in a stream of bytes.
//!
//! A reader never touches the source. It is shown the bytes that the source
//! has buffered, says how many of them belong to the body, and copies what it
//! hands on into the caller's buffer. The bytes behind the body stay with the
//! source, so that the connection can be used again.

use vstd::prelude::*;
use vstd::slice::slice_subrange;

use crate::body::body_type::HttpBodyType;
use crate::chunked::phase::{
    feed, handed_on, lemma_feed_bounds, lemma_feed_concat, lemma_feed_payload, phase_halted,
    step_phase, BodyError, BodyPhase, Fed, ScanRules,
};
use crate::io::IoFailure;

verus! {

/// Whether a phase can be the state of a reader.
pub open spec fn phase_wf(p: BodyPhase) -> bool {
    p matches BodyPhase::Data { left } ==> left >= 1
}

/// The phase a reader of `body_type` starts in.
pub open spec fn start_phase(body_type: HttpBodyType) -> BodyPhase {
    match body_type {
        HttpBodyType::FixedLength(n) => BodyPhase::Fixed { left: n },
        HttpBodyType::ReadUntilEnd => BodyPhase::UntilEnd,
        HttpBodyType::Chunked => BodyPhase::chunk_start(),
    }
}

/// The phase a reader is in once its source has ended.
pub open spec fn phase_at_eof(p: BodyPhase, rules: ScanRules) -> Option<BodyPhase> {
    if p is UntilEnd {
        Some(BodyPhase::Ended)
    } else if p.finished(rules) {
        Some(p)
    } else {
        None
    }
}

/// A scan keeps a phase fit for a reader.
pub proof fn lemma_feed_wf(p: BodyPhase, s: Seq<u8>, rules: ScanRules)
    requires
        phase_wf(p),
    ensures
        phase_wf(feed(p, s, rules).phase),
    decreases s.len(),
{
    if s.len() > 0 {
        lemma_feed_wf(p, s.drop_last(), rules);
    }
}

/// Scans `window` from phase `p` and appends what is handed on to `out`.
/// Returns the phase reached and the number of bytes consumed. When the scan
/// fails, `out` is left as it was.
pub fn scan_into(p: BodyPhase, rules: ScanRules, window: &[u8], out: &mut Vec<u8>) -> (r: (
    BodyPhase,
    usize,
))
    requires
        phase_wf(p),
    ensures
        r.0 == feed(p, window@, rules).phase,
        r.1 == feed(p, window@, rules).used,
        r.1 <= window@.len(),
        phase_wf(r.0),
        r.0 is Failed ==> final(out)@ == old(out)@,
        !(r.0 is Failed) ==> final(out)@ == old(out)@ + handed_on(
            feed(p, window@, rules),
            window@,
            rules,
        ),
{
    let n: usize = window.len();
    let start: usize = out.len();
    let mut cur: BodyPhase = p;
    let mut i: usize = 0;
    let ghost mut payload: Seq<u8> = Seq::empty();
    proof {
        assert(window@.take(0) =~= Seq::<u8>::empty());
        assert(out@ =~= old(out)@ + Seq::<u8>::empty());
    }
    while i < n && !phase_halted(cur, rules)
        invariant
            n == window@.len(),
            start == old(out)@.len(),
            i <= n,
            phase_wf(cur),
            cur is Failed ==> out@ == old(out)@,
            feed(p, window@.take(i as int), rules) == (Fed { phase: cur, used: i as nat, payload }),
            out@ == old(out)@ + (if rules.decode {
                payload
            } else {
                window@.take(i as int)
            }),
        decreases n - i,
    {
        let ghost before = window@.take(i as int);
        let ghost out_before = out@;
        let room: usize = n - i;
        let run: usize = match cur {
            BodyPhase::Fixed { left } => if left >= room as u64 {
                room
            } else {
                left as usize
            },
            BodyPhase::Data { left } => if left >= room as u64 {
                room
            } else {
                left as usize
            },
            BodyPhase::UntilEnd => room,
            _ => 0,
        };
        if run > 0 {
            let piece = slice_subrange(window, i, i + run);
            out.extend_from_slice(piece);
            let next: BodyPhase = match cur {
                BodyPhase::Fixed { left } => BodyPhase::Fixed { left: left - run as u64 },
                BodyPhase::Data { left } => if left <= run as u64 {
                    BodyPhase::DataCr
                } else {
                    BodyPhase::Data { left: left - run as u64 }
                },
                _ => cur,
            };
            proof {
                lemma_feed_payload(cur, piece@, rules);
                lemma_feed_concat(p, before, piece@, rules);
                assert(before + piece@ =~= window@.take(i + run));
                assert(out@ =~= out_before + piece@);
                assert(next == cur.after_payload(run as nat));
                if rules.decode {
                    assert(out@ =~= old(out)@ + (payload + piece@));
                } else {
                    assert(out@ =~= old(out)@ + window@.take(i + run));
                }
                payload = payload + piece@;
            }
            cur = next;
            i = i + run;
        } else {
            let b: u8 = window[i];
            let next: BodyPhase = step_phase(cur, b, rules);
            proof {
                assert(window@.take(i + 1).drop_last() =~= before);
                assert(window@.take(i + 1).last() == b);
                assert(!cur.in_payload());
            }
            match next {
                BodyPhase::Failed(_) => {
                    out.truncate(start);
                    proof {
                        assert(out@ =~= old(out)@);
                        let rest = window@.skip(i + 1);
                        lemma_feed_concat(p, window@.take(i + 1), rest, rules);
                        lemma_feed_bounds(next, rest, rules);
                        assert(window@.take(i + 1) + rest =~= window@);
                        assert(payload + Seq::<u8>::empty() =~= payload);
                    }
                    return (next, i + 1);
                },
                _ => {},
            }
            if !rules.decode {
                out.push(b);
                proof {
                    assert(out@ =~= old(out)@ + window@.take(i + 1));
                }
            }
            cur = next;
            i = i + 1;
        }
    }
    proof {
        let rest = window@.skip(i as int);
        lemma_feed_concat(p, window@.take(i as int), rest, rules);
        lemma_feed_bounds(cur, rest, rules);
        assert(window@.take(i as int) + rest =~= window@);
        assert(payload + Seq::<u8>::empty() =~= payload);
        if i == n {
            assert(rest =~= Seq::<u8>::empty());
        }
    }
    (cur, i)
}

/// The part of `avail` that a reader with `room` bytes of space looks at.
pub open spec fn window_of(avail: Seq<u8>, room: usize) -> Seq<u8> {
    if avail.len() <= room {
        avail
    } else {
        avail.take(room as int)
    }
}

/// The first `room` bytes of `avail`, or all of it if it is shorter.
pub fn window<'a>(avail: &'a [u8], room: usize) -> (w: &'a [u8])
    ensures
        w@ == window_of(avail@, room),
{
    if avail.len() <= room {
        avail
    } else {
        slice_subrange(avail, 0, room)
    }
}

/// A scanner with its settings: the common core of the two readers.
#[derive(Clone, Copy, Debug)]
pub struct BodyScanner {
    pub phase: BodyPhase,
    pub rules: ScanRules,
}

impl BodyScanner {
    pub open spec fn wf(&self) -> bool {
        phase_wf(self.phase)
    }

    /// Whether the body is complete.
    pub fn finished(&self) -> (r: bool)
        ensures
            r == self.phase.finished(self.rules),
    {
        match self.phase {
            BodyPhase::Failed(_) => false,
            _ => phase_halted(self.phase, self.rules),
        }
    }

    /// Scans the first `room` bytes of `avail` at most, appends what is
    /// handed on to `out` and returns how many bytes were consumed.
    pub fn read(&mut self, avail: &[u8], room: usize, out: &mut Vec<u8>) -> (r: Result<
        usize,
        BodyError,
    >)
        requires
            old(self).wf(),
        ensures
            final(self).wf(),
            final(self).rules == old(self).rules,
            final(self).phase == feed(
                old(self).phase,
                window_of(avail@, room),
                old(self).rules,
            ).phase,
            match r {
                Ok(k) => {
                    &&& !(final(self).phase is Failed)
                    &&& k == feed(old(self).phase, window_of(avail@, room), old(self).rules).used
                    &&& k <= avail@.len()
                    &&& k <= room
                    &&& final(out)@ == old(out)@ + handed_on(
                        feed(old(self).phase, window_of(avail@, room), old(self).rules),
                        window_of(avail@, room),
                        old(self).rules,
                    )
                },
                Err(e) => final(self).phase == BodyPhase::Failed(e) && final(out)@ == old(out)@,
            },
    {
        let w = window(avail, room);
        let (next, used) = scan_into(self.phase, self.rules, w, out);
        self.phase = next;
        match next {
            BodyPhase::Failed(e) => Err(e),
            _ => Ok(used),
        }
    }

    /// Tells the scanner that its source has ended. A body that runs until
    /// the end is then complete; any other body that is not complete has
    /// been cut short.
    pub fn end_of_source(&mut self) -> (r: Result<(), IoFailure>)
        requires
            old(self).wf(),
        ensures
            final(self).wf(),
            final(self).rules == old(self).rules,
            match phase_at_eof(old(self).phase, old(self).rules) {
                Some(p) => r is Ok && final(self).phase == p,
                None => r == Err::<(), IoFailure>(IoFailure::UnexpectedEof) && final(self).phase
                    == old(self).phase,
            },
    {
        match self.phase {
            BodyPhase::UntilEnd => {
                self.phase = BodyPhase::Ended;
                Ok(())
            },
            _ => {
                if self.finished() {
                    Ok(())
                } else {
                    Err(IoFailure::UnexpectedEof)
                }
            },
        }
    }
}

/// A reader that hands on the body as it stands on the wire, chunk framing
/// and trailer included, and stops exactly behind its last byte.
#[derive(Clone, Copy, Debug)]
pub struct HttpBodyReader {
    inner: BodyScanner,
}

impl HttpBodyReader {
    /// The scanner inside.
    pub closed spec fn scanner(&self) -> BodyScanner {
        self.inner
    }

    pub open spec fn wf(&self) -> bool {
        self.scanner().wf() && !self.scanner().rules.decode
    }

    /// A reader for a body of the given type. `body_line_max_len` bounds the
    /// length of a chunk-size line.
    pub fn new(body_type: HttpBodyType, body_line_max_len: usize) -> (r: Self)
        ensures
            r.wf(),
            r.scanner().phase == start_phase(body_type),
            r.scanner().rules == (ScanRules { line_max: body_line_max_len, decode: false }),
    {
        let phase = match body_type {
            HttpBodyType::FixedLength(n) => BodyPhase::Fixed { left: n },
            HttpBodyType::ReadUntilEnd => BodyPhase::UntilEnd,
            HttpBodyType::Chunked => BodyPhase::Size { value: 0, len: 0 },
        };
        HttpBodyReader {
            inner: BodyScanner {
                phase,
                rules: ScanRules { line_max: body_line_max_len, decode: false },
            },
        }
    }

    /// A reader for a body of `len` bytes.
    pub fn new_fixed_length(len: u64) -> (r: Self)
        ensures
            r.wf(),
            r.scanner().phase == (BodyPhase::Fixed { left: len }),
            r.scanner().rules == (ScanRules { line_max: 0, decode: false }),
    {
        Self::new(HttpBodyType::FixedLength(len), 0)
    }

    /// A reader for a body that runs until the source ends.
    pub fn new_read_until_end() -> (r: Self)
        ensures
            r.wf(),
            r.scanner().phase == BodyPhase::UntilEnd,
            r.scanner().rules == (ScanRules { line_max: 0, decode: false }),
    {
        Self::new(HttpBodyType::ReadUntilEnd, 0)
    }

    /// A reader for a chunked body.
    pub fn new_chunked(body_line_max_len: usize) -> (r: Self)
        ensures
            r.wf(),
            r.scanner().phase == BodyPhase::chunk_start(),
            r.scanner().rules == (ScanRules { line_max: body_line_max_len, decode: false }),
    {
        Self::new(HttpBodyType::Chunked, body_line_max_len)
    }

    /// A reader for a chunked body of whose first chunk all but
    /// `left_chunk_size` data bytes have been read already. With nothing
    /// left of that chunk the reader starts at the next chunk-size line.
    pub fn new_chunked_after_preview(body_line_max_len: usize, left_chunk_size: u64) -> (r: Self)
        ensures
            r.wf(),
            r.scanner().phase == (if left_chunk_size == 0 {
                BodyPhase::chunk_start()
            } else {
                BodyPhase::Data { left: left_chunk_size }
            }),
            r.scanner().rules == (ScanRules { line_max: body_line_max_len, decode: false }),
    {
        let phase = if left_chunk_size == 0 {
            BodyPhase::Size { value: 0, len: 0 }
        } else {
            BodyPhase::Data { left: left_chunk_size }
        };
        HttpBodyReader {
            inner: BodyScanner {
                phase,
                rules: ScanRules { line_max: body_line_max_len, decode: false },
            },
        }
    }

    /// The scanner inside.
    pub fn into_scanner(self) -> (r: BodyScanner)
        ensures
            r == self.scanner(),
    {
        self.inner
    }

    /// Whether the last byte of the body has been read.
    pub fn finished(&self) -> (r: bool)
        ensures
            r == self.scanner().phase.finished(self.scanner().rules),
    {
        self.inner.finished()
    }

    /// Reads from the bytes that the source has buffered: looks at the first
    /// `room` bytes of `avail` at most, appends those that belong to the body
    /// to `out` and returns their number, which the caller then consumes
    /// from the source.
    pub fn read(&mut self, avail: &[u8], room: usize, out: &mut Vec<u8>) -> (r: Result<
        usize,
        BodyError,
    >)
        requires
            old(self).wf(),
        ensures
            final(self).wf(),
            final(self).scanner().rules == old(self).scanner().rules,
            final(self).scanner().phase == feed(
                old(self).scanner().phase,
                window_of(avail@, room),
                old(self).scanner().rules,
            ).phase,
            match r {
                Ok(k) => {
                    &&& !(final(self).scanner().phase is Failed)
                    &&& k == feed(
                        old(self).scanner().phase,
                        window_of(avail@, room),
                        old(self).scanner().rules,
                    ).used
                    &&& k <= avail@.len()
                    &&& k <= room
                    &&& final(out)@ == old(out)@ + avail@.take(k as int)
                },
                Err(e) => final(self).scanner().phase == BodyPhase::Failed(e) && final(out)@
                    == old(out)@,
            },
    {
        let r = self.inner.read(avail, room, out);
        proof {
            if r is Ok {
                assert(window_of(avail@, room).take(r->Ok_0 as int) =~= avail@.take(
                    r->Ok_0 as int,
                ));
            }
        }
        r
    }

    /// Tells the reader that its source has ended.
    pub fn end_of_source(&mut self) -> (r: Result<(), IoFailure>)
        requires
            old(self).wf(),
        ensures
            final(self).wf(),
            final(self).scanner().rules == old(self).scanner().rules,
            match phase_at_eof(old(self).scanner().phase, old(self).scanner().rules) {
                Some(p) => r is Ok && final(self).scanner().phase == p,
                None => r == Err::<(), IoFailure>(IoFailure::UnexpectedEof) && final(
                    self
                ).scanner().phase == old(self).scanner().phase,
            },
    {
        self.inner.end_of_source()
    }
}

/// Why a trailer could not be skipped.
#[derive(Clone, Copy, Debug, PartialEq, Eq, Structural)]
pub enum TrailerError {
    /// The payload has not been read to its end yet.
    BodyUnfinished,
    /// The source ended inside the trailer.
    UnexpectedEof,
    /// The trailer is longer than the caller allows.
    TooLarge,
    /// The trailer is malformed.
    Invalid(BodyError),
}

/// Whether `p` lies in the trailer of a chunked body, or behind it.
pub open spec fn in_trailer(p: BodyPhase) -> bool {
    p is TrailerStart || p is TrailerLine || p is TrailerLf || p is LastLf || p is End
}

/// A reader that hands on the payload of a chunked body without its framing
/// and stops in front of the trailer, which [`Self::trailer`] then skips.
#[derive(Clone, Copy, Debug)]
pub struct HttpBodyDecodeReader {
    inner: BodyScanner,
    trailer_read: usize,
}

impl HttpBodyDecodeReader {
    /// The scanner inside.
    pub closed spec fn scanner(&self) -> BodyScanner {
        self.inner
    }

    /// How many bytes of the trailer have been skipped so far.
    pub closed spec fn trailer_read(&self) -> usize {
        self.trailer_read
    }

    pub open spec fn wf(&self) -> bool {
        self.scanner().wf() && self.scanner().rules.decode
    }

    /// The rules under which the trailer is skipped.
    pub open spec fn trailer_rules(&self) -> ScanRules {
        ScanRules { line_max: self.scanner().rules.line_max, decode: false }
    }

    /// A reader for a chunked body. `body_line_max_len` bounds the length of
    /// a chunk-size line.
    pub fn new_chunked(body_line_max_len: usize) -> (r: Self)
        ensures
            r.wf(),
            r.scanner().phase == BodyPhase::chunk_start(),
            r.scanner().rules == (ScanRules { line_max: body_line_max_len, decode: true }),
            r.trailer_read() == 0,
    {
        HttpBodyDecodeReader {
            inner: BodyScanner {
                phase: BodyPhase::Size { value: 0, len: 0 },
                rules: ScanRules { line_max: body_line_max_len, decode: true },
            },
            trailer_read: 0,
        }
    }

    /// A reader that goes on where a scanner in decoding mode stands.
    pub fn from_scanner(scanner: BodyScanner) -> (r: Self)
        requires
            scanner.wf(),
            scanner.rules.decode,
        ensures
            r.wf(),
            r.scanner() == scanner,
            r.trailer_read() == 0,
    {
        HttpBodyDecodeReader { inner: scanner, trailer_read: 0 }
    }

    /// The scanner inside.
    pub fn into_scanner(self) -> (r: BodyScanner)
        ensures
            r == self.scanner(),
    {
        self.inner
    }

    /// Whether the last byte of the payload has been read.
    pub fn finished(&self) -> (r: bool)
        ensures
            r == self.scanner().phase.finished(self.scanner().rules),
    {
        self.inner.finished()
    }

    /// Reads from the bytes that the source has buffered: looks at the first
    /// `room` bytes of `avail` at most, appends the payload among them to
    /// `out` and returns how many bytes the caller is to consume from the
    /// source.
    pub fn read(&mut self, avail: &[u8], room: usize, out: &mut Vec<u8>) -> (r: Result<
        usize,
        BodyError,
    >)
        requires
            old(self).wf(),
        ensures
            final(self).wf(),
            final(self).scanner().rules == old(self).scanner().rules,
            final(self).trailer_read() == old(self).trailer_read(),
            final(self).scanner().phase == feed(
                old(self).scanner().phase,
                window_of(avail@, room),
                old(self).scanner().rules,
            ).phase,
            match r {
                Ok(k) => {
                    &&& !(final(self).scanner().phase is Failed)
                    &&& k == feed(
                        old(self).scanner().phase,
                        window_of(avail@, room),
                        old(self).scanner().rules,
                    ).used
                    &&& k <= avail@.len()
                    &&& k <= room
                    &&& final(out)@ == old(out)@ + feed(
                        old(self).scanner().phase,
                        window_of(avail@, room),
                        old(self).scanner().rules,
                    ).payload
                },
                Err(e) => final(self).scanner().phase == BodyPhase::Failed(e) && final(out)@
                    == old(out)@,
            },
    {
        self.inner.read(avail, room, out)
    }

    /// Tells the reader that its source has ended.
    pub fn end_of_source(&mut self) -> (r: Result<(), IoFailure>)
        requires
            old(self).wf(),
        ensures
            final(self).wf(),
            final(self).scanner().rules == old(self).scanner().rules,
            final(self).trailer_read() == old(self).trailer_read(),
            match phase_at_eof(old(self).scanner().phase, old(self).scanner().rules) {
                Some(p) => r is Ok && final(self).scanner().phase == p,
                None => r == Err::<(), IoFailure>(IoFailure::UnexpectedEof) && final(
                    self
                ).scanner().phase == old(self).scanner().phase,
            },
    {
        self.inner.end_of_source()
    }

    /// Skips the trailer that follows the payload, reading no more than
    /// `max_bytes` of it over all calls. `avail` is what the source has
    /// buffered, empty at end of file. Returns how many bytes the caller is
    /// to consume from the source and whether the trailer is complete; if it
    /// is not, the call is to be repeated with what the source brings next.
    pub fn trailer(&mut self, avail: &[u8], max_bytes: usize) -> (r: Result<
        (usize, bool),
        TrailerError,
    >)
        requires
            old(self).wf(),
        ensures
            final(self).wf(),
            final(self).scanner().rules == old(self).scanner().rules,
            !in_trailer(old(self).scanner().phase) ==> {
                &&& r == Err::<(usize, bool), TrailerError>(
                    match old(self).scanner().phase {
                        BodyPhase::Failed(e) => TrailerError::Invalid(e),
                        _ => TrailerError::BodyUnfinished,
                    },
                )
                &&& *final(self) == *old(self)
            },
            in_trailer(old(self).scanner().phase) && old(self).scanner().phase is End ==> {
                &&& r == Ok::<(usize, bool), TrailerError>((0usize, true))
                &&& *final(self) == *old(self)
            },
            in_trailer(old(self).scanner().phase) && !(old(self).scanner().phase is End)
                && avail@.len() == 0 ==> {
                &&& r == Err::<(usize, bool), TrailerError>(TrailerError::UnexpectedEof)
                &&& *final(self) == *old(self)
            },
            in_trailer(old(self).scanner().phase) && !(old(self).scanner().phase is End)
                && avail@.len() > 0 ==> ({
                let budget = if old(self).trailer_read() >= max_bytes {
                    0usize
                } else {
                    (max_bytes - old(self).trailer_read()) as usize
                };
                let f = feed(
                    old(self).scanner().phase,
                    window_of(avail@, budget),
                    old(self).trailer_rules(),
                );
                &&& final(self).scanner().phase == f.phase
                &&& final(self).trailer_read() == old(self).trailer_read() + f.used
                &&& match f.phase {
                    BodyPhase::Failed(e) => r == Err::<(usize, bool), TrailerError>(
                        TrailerError::Invalid(e),
                    ),
                    BodyPhase::End => r == Ok::<(usize, bool), TrailerError>(
                        (f.used as usize, true),
                    ),
                    _ => if f.used == budget {
                        r == Err::<(usize, bool), TrailerError>(TrailerError::TooLarge)
                    } else {
                        r == Ok::<(usize, bool), TrailerError>((f.used as usize, false))
                    },
                }
            }),
    {
        match self.inner.phase {
            BodyPhase::TrailerStart | BodyPhase::TrailerLine | BodyPhase::TrailerLf
            | BodyPhase::LastLf => {},
            BodyPhase::End => {
                return Ok((0, true));
            },
            BodyPhase::Failed(e) => {
                return Err(TrailerError::Invalid(e));
            },
            _ => {
                return Err(TrailerError::BodyUnfinished);
            },
        }
        if avail.len() == 0 {
            return Err(TrailerError::UnexpectedEof);
        }
        let budget: usize = if self.trailer_read >= max_bytes {
            0
        } else {
            max_bytes - self.trailer_read
        };
        let w = window(avail, budget);
        let rules = ScanRules { line_max: self.inner.rules.line_max, decode: false };
        let mut sink: Vec<u8> = Vec::new();
        let (next, used) = scan_into(self.inner.phase, rules, w, &mut sink);
        self.inner.phase = next;
        self.trailer_read = self.trailer_read + used;
        match next {
            BodyPhase::Failed(e) => Err(TrailerError::Invalid(e)),
            BodyPhase::End => Ok((used, true)),
            _ => {
                if used == budget {
                    Err(TrailerError::TooLarge)
                } else {
                    Ok((used, false))
                }
            },
        }
    }
}

} // verus!
