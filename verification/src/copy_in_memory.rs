//! Copying a body that is held in memory.
//!
//! The copy is run against a source that shows all it has left at every
//! look, and a sink that accepts all that it is offered. What comes out is
//! what the scanner makes of the source.

use vstd::prelude::*;
use vstd::slice::slice_subrange;

use crate::body::body_type::HttpBodyType;
use crate::body::reader::{
    phase_wf, start_phase, window_of, HttpBodyDecodeReader, HttpBodyReader,
};
use crate::chunked::phase::{
    feed, handed_on, lemma_feed_concat, lemma_feed_kind, lemma_feed_prefix_halted, BodyPhase,
    ScanRules,
};
use crate::copy_config::StreamCopyConfig;
use crate::io::{IoEvent, IoFailure, IoOutcome, IoRequest, PollStep, StreamCopyError};
use crate::stream_copy::{
    lemma_copy_after_yield, lemma_copy_answers, lemma_copy_fill_data, lemma_copy_fill_eof,
    lemma_copy_init_inv, lemma_copy_step_inv, lemma_copy_write_all, CopyModel, StreamCopy,
};

verus! {

/// What comes of copying the body at the start of `source` with a scanner
/// that starts in `origin`: the bytes that are sent and the number of
/// bytes of `source` that are taken, or why the copy fails.
///
/// A source that the scanner rejects fails the copy. Otherwise the copy
/// sends what the scanner hands on, if the body is complete or runs until
/// the end of the source; a body that the source cuts short fails it.
pub open spec fn copy_outcome(origin: BodyPhase, rules: ScanRules, source: Seq<u8>) -> Result<
    (Seq<u8>, nat),
    StreamCopyError,
> {
    let f = feed(origin, source, rules);
    match f.phase {
        BodyPhase::Failed(e) => Err(StreamCopyError::ReadFailed(IoFailure::InvalidBody(e))),
        _ => if f.phase.finished(rules) || f.phase is UntilEnd {
            Ok((handed_on(f, source, rules), f.used))
        } else {
            Err(StreamCopyError::ReadFailed(IoFailure::UnexpectedEof))
        },
    }
}

impl CopyModel {
    /// How many polls at most the answer `r` is away from the next look at
    /// the source, or from the end, if the sink accepts all that it is
    /// offered.
    pub open spec fn rank(self, r: PollStep) -> nat {
        match r {
            PollStep::Io(IoRequest::Write) => 3,
            PollStep::Yield => 2,
            PollStep::Io(IoRequest::Fill) => 1,
            _ => 0,
        }
    }

    /// How far a copy in memory is from its end, counted in bytes of the
    /// source that are still to be taken, and one more while the body has
    /// not been read to its end.
    pub open spec fn distance(self, source: Seq<u8>, pos: nat) -> int {
        (source.len() - pos) + (if self.read_done {
            0int
        } else {
            1int
        })
    }

    /// What a copy in memory keeps true from poll to poll: the copy
    /// continues the fresh one, it waits for what its answer asks for, all
    /// that it has sent is in `out`, and all that it has taken is the
    /// first `pos` bytes of `source`.
    pub open spec fn runs_in_order(
        self,
        init: CopyModel,
        step: PollStep,
        source: Seq<u8>,
        pos: nat,
        out: Seq<u8>,
    ) -> bool {
        &&& init.continued_by(self)
        &&& !(init.origin is Failed)
        &&& !(init.origin is Ended)
        &&& self.answers(step)
        &&& !(step is Pending)
        &&& !(step is Failed)
        &&& out == self.sent
        &&& pos <= source.len()
        &&& self.taken == source.take(pos as int)
        &&& self.phase is Ended ==> pos == source.len()
    }
}

/// What continues a continuation continues what came first.
proof fn lemma_copy_continued_by_trans(a: CopyModel, b: CopyModel, c: CopyModel)
    requires
        a.continued_by(b),
        b.continued_by(c),
    ensures
        a.continued_by(c),
{
    assert(a.taken.is_prefix_of(c.taken)) by {
        assert(c.taken.subrange(0, a.taken.len() as int) =~= b.taken.subrange(
            0,
            a.taken.len() as int,
        ));
    }
    assert(a.sent.is_prefix_of(c.sent)) by {
        assert(c.sent.subrange(0, a.sent.len() as int) =~= b.sent.subrange(
            0,
            a.sent.len() as int,
        ));
    }
}

/// The first poll sets a copy in memory going.
proof fn lemma_copy_run_start(init: CopyModel, source: Seq<u8>)
    requires
        init == CopyModel::init(init.origin, init.rules, init.capacity, init.yield_size),
        1 <= init.capacity <= usize::MAX,
        init.yield_size >= 1,
        phase_wf(init.origin),
        !(init.origin is Failed),
        !(init.origin is Ended),
    ensures
        init.inv(),
        init.step(IoEvent::Begin).0.runs_in_order(
            init,
            init.step(IoEvent::Begin).1,
            source,
            0,
            Seq::empty(),
        ),
{
    lemma_copy_init_inv(init.origin, init.rules, init.capacity, init.yield_size);
    lemma_copy_step_inv(init, IoEvent::Begin);
    lemma_copy_answers(init, IoEvent::Begin);
    let t = init.step(IoEvent::Begin).0;
    let s = CopyModel { consumed: 0, round_copied: 0, ..init };
    assert(s.drain().0.sent == s.sent && s.drain().0.taken == s.taken);
    assert(s.drain().0.phase == s.phase);
    assert(t.sent =~= Seq::<u8>::empty());
    assert(t.taken =~= source.take(0));
}

/// A look at a source that has bytes left brings a copy in memory closer
/// to its end, or fails it for the reason that was to come of it.
proof fn lemma_copy_run_fill_data(
    init: CopyModel,
    m: CopyModel,
    source: Seq<u8>,
    pos: nat,
    out: Seq<u8>,
)
    requires
        m.runs_in_order(init, PollStep::Io(IoRequest::Fill), source, pos, out),
        pos < source.len(),
    ensures
        m.inv(),
        ({
            let (t, r) = m.step(IoEvent::Filled(source.skip(pos as int)));
            &&& r is Failed ==> copy_outcome(init.origin, init.rules, source) == Err::<
                (Seq<u8>, nat),
                StreamCopyError,
            >(r->Failed_0)
            &&& !(r is Failed) ==> {
                &&& pos + t.consumed <= source.len()
                &&& t.runs_in_order(init, r, source, pos + t.consumed, out)
                &&& t.distance(source, pos + t.consumed) < m.distance(source, pos)
            }
        }),
{
    let d = source.skip(pos as int);
    let ev = IoEvent::Filled(d);
    let (t, r) = m.step(ev);
    lemma_copy_step_inv(m, ev);
    lemma_copy_answers(m, ev);
    lemma_copy_continued_by_trans(init, m, t);
    lemma_copy_fill_data(m, d);
    let w = window_of(d, m.room() as usize);
    lemma_feed_kind(m.phase, w, m.rules);
    if r is Failed {
        lemma_feed_concat(m.origin, m.taken, w, m.rules);
        let seen = m.taken + w;
        assert(seen.is_prefix_of(source)) by {
            assert(source.subrange(0, seen.len() as int) =~= seen);
        }
        lemma_feed_prefix_halted(m.origin, seen, source, m.rules);
    } else {
        assert(t.taken == source.take((pos + t.consumed) as int)) by {
            assert(source.take(pos as int) + d.take(t.consumed as int) =~= source.take(
                (pos + t.consumed) as int,
            ));
        }
    }
}

/// A look at a source that has nothing left tells a copy in memory so, or
/// fails it for the reason that was to come of it.
proof fn lemma_copy_run_fill_eof(init: CopyModel, m: CopyModel, source: Seq<u8>, out: Seq<u8>)
    requires
        m.runs_in_order(init, PollStep::Io(IoRequest::Fill), source, source.len(), out),
    ensures
        m.inv(),
        ({
            let (t, r) = m.step(IoEvent::Filled(Seq::empty()));
            &&& r is Failed ==> copy_outcome(init.origin, init.rules, source) == Err::<
                (Seq<u8>, nat),
                StreamCopyError,
            >(r->Failed_0)
            &&& !(r is Failed) ==> {
                &&& t.consumed == 0
                &&& t.runs_in_order(init, r, source, source.len(), out)
                &&& t.distance(source, source.len()) < m.distance(source, source.len())
            }
        }),
{
    let ev = IoEvent::Filled(Seq::empty());
    let (t, r) = m.step(ev);
    lemma_copy_step_inv(m, ev);
    lemma_copy_answers(m, ev);
    lemma_copy_continued_by_trans(init, m, t);
    lemma_copy_fill_eof(m);
    assert(source.take(source.len() as int) =~= source);
}

/// A write of all that is pending brings a copy in memory closer to its
/// next look at the source, or to its end.
proof fn lemma_copy_run_write(
    init: CopyModel,
    m: CopyModel,
    source: Seq<u8>,
    pos: nat,
    out: Seq<u8>,
)
    requires
        m.runs_in_order(init, PollStep::Io(IoRequest::Write), source, pos, out),
    ensures
        m.inv(),
        m.admits(IoEvent::Wrote(m.pending().len())),
        ({
            let (t, r) = m.step(IoEvent::Wrote(m.pending().len()));
            &&& t.runs_in_order(init, r, source, pos, out + m.pending())
            &&& t.distance(source, pos) == m.distance(source, pos)
            &&& t.rank(r) < m.rank(PollStep::Io(IoRequest::Write))
        }),
{
    let ev = IoEvent::Wrote(m.pending().len());
    lemma_copy_write_all(m);
    lemma_copy_step_inv(m, ev);
    lemma_copy_answers(m, ev);
    lemma_copy_continued_by_trans(init, m, m.step(ev).0);
}

/// A copy in memory that has yielded goes on with a look at its source.
proof fn lemma_copy_run_yield(
    init: CopyModel,
    m: CopyModel,
    source: Seq<u8>,
    pos: nat,
    out: Seq<u8>,
)
    requires
        m.runs_in_order(init, PollStep::Yield, source, pos, out),
    ensures
        m.inv(),
        ({
            let (t, r) = m.step(IoEvent::Begin);
            &&& t.runs_in_order(init, r, source, pos, out)
            &&& t.distance(source, pos) == m.distance(source, pos)
            &&& t.rank(r) < m.rank(PollStep::Yield)
        }),
{
    let ev = IoEvent::Begin;
    lemma_copy_after_yield(m);
    lemma_copy_step_inv(m, ev);
    lemma_copy_answers(m, ev);
    lemma_copy_continued_by_trans(init, m, m.step(ev).0);
}

/// A complete copy in memory has brought about what was to come of it.
proof fn lemma_copy_run_done(
    init: CopyModel,
    m: CopyModel,
    step: PollStep,
    source: Seq<u8>,
    pos: nat,
    out: Seq<u8>,
)
    requires
        m.runs_in_order(init, step, source, pos, out),
        step is Done,
    ensures
        copy_outcome(init.origin, init.rules, source) == Ok::<(Seq<u8>, nat), StreamCopyError>(
            (out, pos),
        ),
{
    assert(m.pending() =~= Seq::<u8>::empty());
    assert(m.sent + m.pending() =~= m.sent);
    assert(m.taken.take(m.taken.len() as int) =~= m.taken);
    if m.phase is Ended {
        assert(source.take(pos as int) =~= source);
    } else {
        lemma_feed_prefix_halted(m.origin, m.taken, source, m.rules);
        let f = feed(m.origin, source, m.rules);
        assert(source.take(f.used as int) =~= m.taken);
    }
}

fn run_copy(fresh: StreamCopy, source: &[u8]) -> (r: Result<(Vec<u8>, usize), StreamCopyError>)
    requires
        fresh.wf(),
        fresh@ == CopyModel::init(
            fresh@.origin,
            fresh@.rules,
            fresh@.capacity,
            fresh@.yield_size,
        ),
        !(fresh@.origin is Failed),
        !(fresh@.origin is Ended),
    ensures
        match copy_outcome(fresh@.origin, fresh@.rules, source@) {
            Ok((out, used)) => r is Ok && r->Ok_0.0@ == out && r->Ok_0.1 == used,
            Err(e) => r is Err && r->Err_0 == e,
        },
{
    let len: usize = source.len();
    let ghost init = fresh@;
    let mut copy = fresh;
    let mut out: Vec<u8> = Vec::new();
    let mut pos: usize = 0;
    proof {
        lemma_copy_run_start(init, source@);
    }
    let mut step = copy.poll(IoOutcome::Begin);
    loop
        invariant
            len == source@.len(),
            pos <= len,
            init == fresh@,
            copy.wf(),
            copy@.runs_in_order(init, step, source@, pos as nat, out@),
        decreases copy@.distance(source@, pos as nat), copy@.rank(step),
    {
        let ghost before = copy@;
        match step {
            PollStep::Io(IoRequest::Fill) => {
                let rest = slice_subrange(source, pos, len);
                proof {
                    if pos < len {
                        assert(rest@ =~= source@.skip(pos as int));
                        lemma_copy_run_fill_data(init, before, source@, pos as nat, out@);
                    } else {
                        assert(rest@ =~= Seq::<u8>::empty());
                        lemma_copy_run_fill_eof(init, before, source@, out@);
                    }
                }
                step = copy.poll(IoOutcome::Filled(rest));
                if let PollStep::Failed(e) = step {
                    return Err(e);
                }
                pos = pos + copy.consumed();
            },
            PollStep::Io(IoRequest::Write) => {
                proof {
                    lemma_copy_run_write(init, before, source@, pos as nat, out@);
                }
                let pending = copy.pending_write();
                let n: usize = pending.len();
                let ghost sent = out@;
                out.extend_from_slice(pending);
                assert(out@ =~= sent + pending@);
                step = copy.poll(IoOutcome::Wrote(n));
            },
            PollStep::Yield => {
                proof {
                    lemma_copy_run_yield(init, before, source@, pos as nat, out@);
                }
                step = copy.poll(IoOutcome::Begin);
            },
            PollStep::Done(_) => {
                proof {
                    lemma_copy_run_done(init, before, step, source@, pos as nat, out@);
                }
                return Ok((out, pos));
            },
            PollStep::Failed(_) | PollStep::Io(IoRequest::Flush) | PollStep::Pending => {
                return Err(vstd::pervasive::unreached());
            },
        }
    }
}

/// Copies the body at the start of `source` as it stands on the wire, in
/// memory. Returns the bytes of the body and their number.
pub fn copy_in_memory(
    body_type: HttpBodyType,
    body_line_max_len: usize,
    copy_config: StreamCopyConfig,
    source: &[u8],
) -> (r: Result<(Vec<u8>, usize), StreamCopyError>)
    ensures
        match copy_outcome(
            start_phase(body_type),
            ScanRules { line_max: body_line_max_len, decode: false },
            source@,
        ) {
            Ok((out, used)) => r is Ok && r->Ok_0.0@ == out && r->Ok_0.1 == used,
            Err(e) => r is Err && r->Err_0 == e,
        },
{
    let copy = StreamCopy::new(HttpBodyReader::new(body_type, body_line_max_len), copy_config);
    run_copy(copy, source)
}

/// Decodes the chunked body at the start of `source`, in memory. Returns
/// the payload and the number of bytes of `source` up to the trailer.
pub fn decode_chunked_in_memory(
    body_line_max_len: usize,
    copy_config: StreamCopyConfig,
    source: &[u8],
) -> (r: Result<(Vec<u8>, usize), StreamCopyError>)
    ensures
        match copy_outcome(
            BodyPhase::chunk_start(),
            ScanRules { line_max: body_line_max_len, decode: true },
            source@,
        ) {
            Ok((out, used)) => r is Ok && r->Ok_0.0@ == out && r->Ok_0.1 == used,
            Err(e) => r is Err && r->Err_0 == e,
        },
{
    let copy = StreamCopy::new_decoded(
        HttpBodyDecodeReader::new_chunked(body_line_max_len),
        copy_config,
    );
    run_copy(copy, source)
}

} // verus!
