//! Presenting a body that is held in memory as a chunked body.
//!
//! The transfer is run against a source that shows all it has left at
//! every look, and a sink that accepts all that it is offered. What comes
//! out depends on the body alone.

use vstd::prelude::*;
use vstd::slice::slice_subrange;

use crate::body::body_to_chunked::{
    lemma_transfer_init_inv, lemma_transfer_step_inv, H1BodyToChunkedTransfer, TransferModel,
    TransferState,
};
use crate::body::body_type::HttpBodyType;
use crate::body::guarantees::{
    lemma_chunked_passes_through, lemma_fixed_length_taken, lemma_reframed_output,
};
use crate::body::reader::window_of;
use crate::body::stream_to_chunked::{
    lemma_encode_after_yield, lemma_encode_answers, lemma_encode_fill, lemma_encode_write_all,
};
use crate::chunked::frame::{
    chunk_frame, chunks_sized, closing_bytes, frames, joined, last_chunk, lemma_feed_encoded,
    MAX_SIZE_LINE,
};
use crate::chunked::phase::{
    feed, lemma_feed_bounds, lemma_feed_concat, lemma_feed_kind, lemma_feed_prefix_halted,
    lemma_feed_used_prefix, BodyPhase, ScanRules,
};
use crate::copy_config::StreamCopyConfig;
use crate::copy_in_memory::copy_outcome;
use crate::io::{IoEvent, IoFailure, IoOutcome, IoRequest, PollStep, StreamCopyError};
use crate::stream_copy::{
    lemma_copy_after_yield, lemma_copy_answers, lemma_copy_fill_data, lemma_copy_fill_eof,
    lemma_copy_write_all,
};

verus! {

impl TransferModel {
    /// Whether the transfer will not look at its source again.
    pub open spec fn source_ended(self) -> bool {
        if self.reframes() {
            self.encode.read_done
        } else {
            self.copy.read_done
        }
    }

    /// Whether the transfer waits for what the answer `r` asks for.
    pub open spec fn answers(self, r: PollStep) -> bool {
        match r {
            PollStep::Io(IoRequest::Write) => match self.state {
                TransferState::SendHead => true,
                TransferState::SendTerminator => true,
                TransferState::Copy => self.copy.answers(r),
                TransferState::Encode => self.encode.answers(r),
                _ => false,
            },
            PollStep::Io(IoRequest::Flush) => self.state is FlushEnd,
            PollStep::Done(_) => self.finished(),
            PollStep::Io(IoRequest::Fill) | PollStep::Yield => match self.state {
                TransferState::Copy => self.copy.answers(r),
                TransferState::Encode => self.encode.answers(r),
                _ => false,
            },
            _ => true,
        }
    }

    /// How many polls at most the answer `r` is away from the next look at
    /// the source, or from the end, if the sink accepts all that it is
    /// offered.
    pub open spec fn rank(self, r: PollStep) -> nat {
        match r {
            PollStep::Io(IoRequest::Write) => match self.state {
                TransferState::SendHead => 6,
                TransferState::Copy => 5,
                TransferState::Encode => 5,
                _ => 3,
            },
            PollStep::Yield => 2,
            PollStep::Io(IoRequest::Fill) => 1,
            _ => 0,
        }
    }
}

/// After every poll a transfer waits for what its answer asks for. It
/// answers that it must wait only when it was told that a call would
/// block, and it fails only when it was told of a failure, of a write of
/// nothing, or of bytes from the source.
pub proof fn lemma_transfer_answers(m: TransferModel, ev: IoEvent)
    requires
        m.inv(),
        m.admits(ev),
    ensures
        m.step(ev).0.answers(m.step(ev).1),
        !(ev is NotReady) ==> !(m.step(ev).1 is Pending),
        m.step(ev).1 is Failed ==> ev is Failed || ev is Filled || ev == IoEvent::Wrote(0),
        m.source_ended() ==> m.step(ev).0.source_ended(),
{
    lemma_transfer_step_inv(m, ev);
    let s = TransferModel { consumed: 0, ..m };
    match s.state {
        TransferState::SendHead => {
            if let IoEvent::Wrote(n) = ev {
                if n > 0 && s.head_off + n >= s.head.len() {
                    let t = TransferModel {
                        head_off: s.head_off + n,
                        state: TransferState::Copy,
                        active: true,
                        ..s
                    };
                    lemma_copy_answers(t.copy, IoEvent::Begin);
                }
            }
        },
        TransferState::Copy => {
            lemma_copy_answers(s.copy, ev);
        },
        TransferState::Encode => {
            lemma_encode_answers(s.encode, ev);
        },
        _ => {},
    }
}

/// A sink that accepts all that it is offered moves a transfer on: the
/// pending bytes are sent, nothing is taken from the source, and the
/// transfer comes closer to its next look at the source or to its end.
pub proof fn lemma_transfer_write_all(m: TransferModel)
    requires
        m.inv(),
        m.answers(PollStep::Io(IoRequest::Write)),
    ensures
        m.pending().len() >= 1,
        ({
            let (t, r) = m.step(IoEvent::Wrote(m.pending().len()));
            &&& !(r is Failed) && !(r is Pending) && r != PollStep::Io(IoRequest::Flush)
            &&& t.rank(r) < m.rank(PollStep::Io(IoRequest::Write))
            &&& t.sent() == m.sent() + m.pending()
            &&& t.taken() == m.taken()
            &&& t.encode.chunks == m.encode.chunks
            &&& t.source_ended() == m.source_ended()
            &&& t.consumed == 0
        }),
{
    let n = m.pending().len();
    let ev = IoEvent::Wrote(n);
    lemma_transfer_step_inv(m, ev);
    lemma_transfer_answers(m, ev);
    let s = TransferModel { consumed: 0, ..m };
    assert(s.pending() == m.pending());
    assert(s.sent() == m.sent());
    let e = closing_bytes().subrange(s.end_start as int, s.end_off as int);
    match s.state {
        TransferState::SendHead => {
            let t = TransferModel {
                head_off: s.head_off + n,
                state: TransferState::Copy,
                active: true,
                ..s
            };
            assert(t.head.take(t.head_off as int) =~= s.head.take(s.head_off as int)
                + s.pending());
            assert(s.copy.sent =~= Seq::<u8>::empty());
            assert(e =~= Seq::<u8>::empty());
            assert(t.sent() =~= s.sent() + s.pending());
            lemma_copy_answers(t.copy, IoEvent::Begin);
            let (c, r) = t.copy.step(IoEvent::Begin);
            assert(r == PollStep::Io(IoRequest::Fill));
            assert(c.sent == t.copy.sent && c.taken == t.copy.taken);
            assert(t.run_copy(IoEvent::Begin).0.sent() == t.sent());
        },
        TransferState::Copy => {
            lemma_copy_write_all(s.copy);
            let (c, r) = s.copy.step(ev);
            assert(e =~= Seq::<u8>::empty());
            assert(s.head.take(s.head_off as int) + c.sent + e =~= s.head.take(
                s.head_off as int,
            ) + s.copy.sent + e + s.copy.pending());
        },
        TransferState::SendTerminator => {
            let e2 = closing_bytes().subrange(s.end_start as int, (s.end_off + n) as int);
            assert(e2 =~= e + s.pending());
            assert(s.head.take(s.head_off as int) + s.copy.sent + e2 =~= s.head.take(
                s.head_off as int,
            ) + s.copy.sent + e + s.pending());
        },
        TransferState::Encode => {
            lemma_encode_write_all(s.encode);
        },
        _ => {},
    }
}

/// A transfer that has yielded asks for a fill when it is polled again.
pub proof fn lemma_transfer_after_yield(m: TransferModel)
    requires
        m.inv(),
        m.answers(PollStep::Yield),
    ensures
        ({
            let (t, r) = m.step(IoEvent::Begin);
            &&& r == PollStep::Io(IoRequest::Fill)
            &&& t.sent() == m.sent()
            &&& t.taken() == m.taken()
            &&& t.encode.chunks == m.encode.chunks
            &&& t.source_ended() == m.source_ended()
            &&& t.consumed == 0
        }),
{
    let s = TransferModel { consumed: 0, ..m };
    match s.state {
        TransferState::Copy => {
            lemma_copy_after_yield(s.copy);
        },
        TransferState::Encode => {
            lemma_encode_after_yield(s.encode);
        },
        _ => {},
    }
}

/// What a fill that shows at least one byte does to a transfer: either
/// the bytes shown are not a valid continuation of the body and the
/// transfer fails, or the transfer takes at least one of them.
pub proof fn lemma_transfer_fill_data(m: TransferModel, d: Seq<u8>)
    requires
        m.inv(),
        m.answers(PollStep::Io(IoRequest::Fill)),
        d.len() > 0,
    ensures
        !m.source_ended(),
        ({
            let (t, r) = m.step(IoEvent::Filled(d));
            let f = feed(m.copy.phase, window_of(d, m.copy.room() as usize), m.copy.rules);
            &&& r is Failed ==> !m.reframes() && f.phase is Failed && r == PollStep::Failed(
                StreamCopyError::ReadFailed(IoFailure::InvalidBody(f.phase->Failed_0)),
            )
            &&& !(r is Failed) ==> {
                &&& !m.reframes() ==> !(f.phase is Failed)
                &&& 1 <= t.consumed <= d.len()
                &&& t.taken() == m.taken() + d.take(t.consumed as int)
                &&& t.sent() == m.sent()
                &&& !(r is Pending) && r != PollStep::Io(IoRequest::Flush)
                &&& m.reframes() ==> {
                    &&& t.encode.chunks == m.encode.chunks.push(
                        window_of(d, m.encode.chunk_max as usize),
                    )
                    &&& t.consumed == window_of(d, m.encode.chunk_max as usize).len()
                    &&& !t.source_ended()
                }
            }
        }),
{
    let ev = IoEvent::Filled(d);
    lemma_transfer_step_inv(m, ev);
    lemma_transfer_answers(m, ev);
    let s = TransferModel { consumed: 0, ..m };
    assert(s.sent() == m.sent() && s.taken() == m.taken());
    match s.state {
        TransferState::Copy => {
            lemma_copy_fill_data(s.copy, d);
            lemma_copy_answers(s.copy, ev);
        },
        TransferState::Encode => {
            lemma_encode_fill(s.encode, d);
            let c = window_of(d, s.encode.chunk_max as usize);
            assert(c =~= d.take(c.len() as int));
        },
        _ => {},
    }
}

/// What the end of the source does to a transfer: a body that is copied
/// and is not at its end has been cut short, and the transfer fails;
/// otherwise the transfer looks at its source no more.
pub proof fn lemma_transfer_fill_eof(m: TransferModel)
    requires
        m.inv(),
        m.answers(PollStep::Io(IoRequest::Fill)),
    ensures
        !m.source_ended(),
        ({
            let (t, r) = m.step(IoEvent::Filled(Seq::empty()));
            &&& r is Failed ==> !m.reframes() && r == PollStep::Failed(
                StreamCopyError::ReadFailed(IoFailure::UnexpectedEof),
            )
            &&& !(r is Failed) ==> {
                &&& t.source_ended()
                &&& t.taken() == m.taken()
                &&& t.sent() == m.sent()
                &&& t.encode.chunks == m.encode.chunks
                &&& t.consumed == 0
                &&& !(r is Pending) && r != PollStep::Io(IoRequest::Flush)
            }
        }),
{
    let ev = IoEvent::Filled(Seq::empty());
    lemma_transfer_step_inv(m, ev);
    lemma_transfer_answers(m, ev);
    let s = TransferModel { consumed: 0, ..m };
    assert(s.sent() == m.sent() && s.taken() == m.taken());
    match s.state {
        TransferState::Copy => {
            lemma_copy_fill_eof(s.copy);
            lemma_copy_answers(s.copy, ev);
        },
        TransferState::Encode => {
            lemma_encode_fill(s.encode, Seq::empty());
        },
        _ => {},
    }
}

/// What continues a continuation continues what came first.
pub proof fn lemma_continued_by_trans(a: TransferModel, b: TransferModel, c: TransferModel)
    requires
        a.continued_by(b),
        b.continued_by(c),
    ensures
        a.continued_by(c),
{
    assert(a.taken().is_prefix_of(c.taken())) by {
        assert(c.taken().subrange(0, a.taken().len() as int) =~= b.taken().subrange(
            0,
            a.taken().len() as int,
        ));
    }
    assert(a.sent().is_prefix_of(c.sent())) by {
        assert(c.sent().subrange(0, a.sent().len() as int) =~= b.sent().subrange(
            0,
            a.sent().len() as int,
        ));
    }
}

/// The chunks that `s` is cut into when no chunk may hold more than `cap`
/// bytes: every chunk but the last is full.
pub open spec fn cut(s: Seq<u8>, cap: usize) -> Seq<Seq<u8>>
    decreases s.len(),
{
    if s.len() == 0 || cap == 0 {
        Seq::empty()
    } else {
        let c = window_of(s, cap);
        seq![c] + cut(s.skip(c.len() as int), cap)
    }
}

/// What comes of presenting the body at the start of `source` as a
/// chunked body: the bytes that are sent and the number of bytes of
/// `source` that belong to the body, or why the transfer fails.
///
/// A body of announced length is sent as one chunk and the last chunk, or
/// as the last chunk alone if it is empty; it is cut short if the source
/// holds less than the length. A body that runs until the end is all of
/// the source, cut into chunks no longer than the copy buffer. A chunked
/// body is sent as it stands, up to its end as the scanner finds it; it is
/// rejected if the scanner rejects it, and it is cut short if the source
/// ends before the body does.
pub open spec fn in_memory_outcome(
    body_type: HttpBodyType,
    line_max: usize,
    buffer_size: usize,
    source: Seq<u8>,
) -> Result<(Seq<u8>, nat), StreamCopyError> {
    match body_type {
        HttpBodyType::FixedLength(n) => {
            if source.len() < n {
                Err(StreamCopyError::ReadFailed(IoFailure::UnexpectedEof))
            } else if n == 0 {
                Ok((last_chunk(), 0nat))
            } else {
                Ok((chunk_frame(source.take(n as int)) + last_chunk(), n as nat))
            }
        },
        HttpBodyType::ReadUntilEnd => Ok(
            (frames(cut(source, buffer_size)) + last_chunk(), source.len()),
        ),
        HttpBodyType::Chunked => {
            let f = feed(BodyPhase::chunk_start(), source, TransferModel::rules_for(line_max));
            match f.phase {
                BodyPhase::End => Ok((source.take(f.used as int), f.used)),
                BodyPhase::Failed(e) => Err(
                    StreamCopyError::ReadFailed(IoFailure::InvalidBody(e)),
                ),
                _ => Err(StreamCopyError::ReadFailed(IoFailure::UnexpectedEof)),
            }
        },
    }
}

/// What a run in memory keeps true from poll to poll: the transfer
/// continues the fresh one, it waits for what its answer asks for, all
/// that it has sent is in `out`, and all that it has taken is the first
/// `pos` bytes of `source`.
#[verifier::opaque]
pub open spec fn run_in_order(
    init: TransferModel,
    m: TransferModel,
    step: PollStep,
    source: Seq<u8>,
    pos: nat,
    out: Seq<u8>,
) -> bool {
    &&& init.continued_by(m)
    &&& m.answers(step)
    &&& !(step is Pending)
    &&& step != PollStep::Io(IoRequest::Flush)
    &&& out == m.sent()
    &&& pos <= source.len()
    &&& m.taken() == source.take(pos as int)
    &&& m.encode.chunk_max == init.encode.chunk_max
    &&& m.reframes() ==> {
        &&& m.encode.chunks + cut(source.skip(pos as int), m.encode.chunk_max as usize) == cut(
            source,
            m.encode.chunk_max as usize,
        )
        &&& m.source_ended() ==> pos == source.len()
    }
}

/// How far a run in memory is from its end, counted in bytes of the
/// source that are still to be taken, and one more while the transfer has
/// not been told that the source has ended.
pub open spec fn run_distance(m: TransferModel, source: Seq<u8>, pos: nat) -> int {
    (source.len() - pos) + (if m.source_ended() {
        0int
    } else {
        1int
    })
}

/// The settings of a run in memory.
pub struct RunSettings {
    pub body_type: HttpBodyType,
    pub line_max: usize,
    pub buffer_size: usize,
    pub yield_size: usize,
}

impl RunSettings {
    /// The fresh transfer of a run.
    pub open spec fn init(self) -> TransferModel {
        TransferModel::init(
            self.body_type,
            self.line_max,
            self.buffer_size as nat,
            self.yield_size as nat,
        )
    }

    /// What is to come of a run over `source`.
    pub open spec fn outcome(self, source: Seq<u8>) -> Result<(Seq<u8>, nat), StreamCopyError> {
        in_memory_outcome(self.body_type, self.line_max, self.buffer_size, source)
    }

    pub open spec fn valid(self) -> bool {
        self.buffer_size >= 1 && self.yield_size >= 1
    }
}

/// A finished run in memory has brought about what was to come of it.
proof fn lemma_run_done(
    rs: RunSettings,
    m: TransferModel,
    step: PollStep,
    source: Seq<u8>,
    pos: nat,
    out: Seq<u8>,
)
    requires
        rs.valid(),
        run_in_order(rs.init(), m, step, source, pos, out),
        step is Done,
    ensures
        rs.outcome(source) == Ok::<(Seq<u8>, nat), StreamCopyError>((out, pos)),
{
    reveal(run_in_order);
    match rs.body_type {
        HttpBodyType::FixedLength(n) => {
            lemma_reframed_output(m);
            lemma_fixed_length_taken(m);
            if n == 0 {
                assert(m.taken() =~= Seq::<u8>::empty());
                assert(frames(m.chunks()) + last_chunk() =~= last_chunk());
            } else {
                reveal_with_fuel(frames, 2);
                let c = m.chunks();
                assert(c.drop_last() =~= Seq::<Seq<u8>>::empty());
                assert(frames(c) =~= chunk_frame(m.taken()));
            }
        },
        HttpBodyType::ReadUntilEnd => {
            lemma_reframed_output(m);
            assert(source.skip(pos as int) =~= Seq::<u8>::empty());
            assert(m.encode.chunks + Seq::<Seq<u8>>::empty() =~= m.encode.chunks);
        },
        HttpBodyType::Chunked => {
            lemma_chunked_passes_through(m);
            assert(m.head + m.taken() =~= m.taken());
            let start = BodyPhase::chunk_start();
            lemma_feed_kind(start, m.copy.taken, m.copy.rules);
            lemma_feed_prefix_halted(start, m.copy.taken, source, m.copy.rules);
        },
    }
}

/// A run in memory fails on bytes from its source only if that is what
/// was to come of it.
proof fn lemma_run_rejected(rs: RunSettings, m: TransferModel, source: Seq<u8>, pos: nat)
    requires
        rs.valid(),
        m.inv(),
        rs.init().continued_by(m),
        m.answers(PollStep::Io(IoRequest::Fill)),
        m.taken() == source.take(pos as int),
        pos < source.len(),
        m.step(IoEvent::Filled(source.skip(pos as int))).1 is Failed,
    ensures
        rs.outcome(source) == Err::<(Seq<u8>, nat), StreamCopyError>(
            m.step(IoEvent::Filled(source.skip(pos as int))).1->Failed_0,
        ),
{
    let d = source.skip(pos as int);
    lemma_transfer_fill_data(m, d);
    let w = window_of(d, m.copy.room() as usize);
    let f = feed(m.copy.phase, w, m.copy.rules);
    match rs.body_type {
        HttpBodyType::FixedLength(n) => {
            lemma_fixed_length_taken(m);
            lemma_feed_kind(m.copy.phase, w, m.copy.rules);
        },
        HttpBodyType::ReadUntilEnd => {},
        HttpBodyType::Chunked => {
            let start = BodyPhase::chunk_start();
            lemma_feed_kind(start, m.copy.taken, m.copy.rules);
            lemma_feed_concat(start, m.copy.taken, w, m.copy.rules);
            let seen = m.copy.taken + w;
            assert(seen.is_prefix_of(source)) by {
                assert(source.subrange(0, seen.len() as int) =~= seen);
            }
            lemma_feed_prefix_halted(start, seen, source, m.copy.rules);
        },
    }
}

/// A run in memory fails at the end of its source only if that is what
/// was to come of it.
proof fn lemma_run_cut_short(rs: RunSettings, m: TransferModel, source: Seq<u8>)
    requires
        rs.valid(),
        m.inv(),
        rs.init().continued_by(m),
        m.answers(PollStep::Io(IoRequest::Fill)),
        m.taken() == source,
        m.step(IoEvent::Filled(Seq::empty())).1 is Failed,
    ensures
        rs.outcome(source) == Err::<(Seq<u8>, nat), StreamCopyError>(
            m.step(IoEvent::Filled(Seq::empty())).1->Failed_0,
        ),
{
    lemma_transfer_fill_eof(m);
    match rs.body_type {
        HttpBodyType::FixedLength(n) => {
            lemma_fixed_length_taken(m);
        },
        HttpBodyType::ReadUntilEnd => {},
        HttpBodyType::Chunked => {
            let start = BodyPhase::chunk_start();
            lemma_feed_kind(start, m.copy.taken, m.copy.rules);
        },
    }
}

/// A look at a source that has bytes left brings a run in memory closer
/// to its end, or fails it for the reason that was to come of it.
proof fn lemma_run_fill_data(
    rs: RunSettings,
    m: TransferModel,
    source: Seq<u8>,
    pos: nat,
    out: Seq<u8>,
)
    requires
        rs.valid(),
        run_in_order(rs.init(), m, PollStep::Io(IoRequest::Fill), source, pos, out),
        pos < source.len(),
    ensures
        m.inv(),
        m.admits(IoEvent::Filled(source.skip(pos as int))),
        ({
            let (t, r) = m.step(IoEvent::Filled(source.skip(pos as int)));
            &&& r is Failed ==> rs.outcome(source) == Err::<(Seq<u8>, nat), StreamCopyError>(
                r->Failed_0,
            )
            &&& !(r is Failed) ==> {
                &&& pos + t.consumed <= source.len()
                &&& run_in_order(rs.init(), t, r, source, pos + t.consumed, out)
                &&& run_distance(t, source, pos + t.consumed) < run_distance(m, source, pos)
            }
        }),
{
    reveal(run_in_order);
    let init = rs.init();
    let d = source.skip(pos as int);
    let ev = IoEvent::Filled(d);
    let (t, r) = m.step(ev);
    lemma_transfer_step_inv(m, ev);
    lemma_transfer_answers(m, ev);
    lemma_continued_by_trans(init, m, t);
    lemma_transfer_fill_data(m, d);
    if r is Failed {
        lemma_run_rejected(rs, m, source, pos);
    } else {
        let used = t.consumed;
        assert(t.taken() == source.take((pos + used) as int)) by {
            assert(source.take(pos as int) + d.take(used as int) =~= source.take(
                (pos + used) as int,
            ));
        }
        if m.reframes() {
            let cap = m.encode.chunk_max as usize;
            let c = window_of(d, cap);
            assert(d.skip(used as int) =~= source.skip((pos + used) as int));
            lemma_cut_first(d, cap);
            assert(m.encode.chunks.push(c) + cut(d.skip(c.len() as int), cap)
                =~= m.encode.chunks + (seq![c] + cut(d.skip(c.len() as int), cap)));
        }
    }
}

/// Cutting bytes into chunks takes a first chunk, as large as it may be,
/// and cuts the rest.
proof fn lemma_cut_first(d: Seq<u8>, cap: usize)
    requires
        d.len() > 0,
        cap >= 1,
    ensures
        cut(d, cap) == seq![window_of(d, cap)] + cut(
            d.skip(window_of(d, cap).len() as int),
            cap,
        ),
{
}

/// A look at a source that has nothing left tells a run in memory so, or
/// fails it for the reason that was to come of it.
proof fn lemma_run_fill_eof(rs: RunSettings, m: TransferModel, source: Seq<u8>, out: Seq<u8>)
    requires
        rs.valid(),
        run_in_order(rs.init(), m, PollStep::Io(IoRequest::Fill), source, source.len(), out),
    ensures
        m.inv(),
        ({
            let (t, r) = m.step(IoEvent::Filled(Seq::empty()));
            &&& r is Failed ==> rs.outcome(source) == Err::<(Seq<u8>, nat), StreamCopyError>(
                r->Failed_0,
            )
            &&& !(r is Failed) ==> {
                &&& t.consumed == 0
                &&& run_in_order(rs.init(), t, r, source, source.len(), out)
                &&& run_distance(t, source, source.len()) < run_distance(
                    m,
                    source,
                    source.len(),
                )
            }
        }),
{
    reveal(run_in_order);
    let init = rs.init();
    let ev = IoEvent::Filled(Seq::empty());
    let (t, r) = m.step(ev);
    lemma_transfer_step_inv(m, ev);
    lemma_transfer_answers(m, ev);
    lemma_continued_by_trans(init, m, t);
    assert(source.take(source.len() as int) =~= source);
    lemma_transfer_fill_eof(m);
    if r is Failed {
        lemma_run_cut_short(rs, m, source);
    }
}

/// A write of all that is pending brings a run in memory closer to its
/// next look at the source, or to its end.
proof fn lemma_run_write(
    rs: RunSettings,
    m: TransferModel,
    source: Seq<u8>,
    pos: nat,
    out: Seq<u8>,
)
    requires
        rs.valid(),
        run_in_order(rs.init(), m, PollStep::Io(IoRequest::Write), source, pos, out),
    ensures
        m.inv(),
        m.admits(IoEvent::Wrote(m.pending().len())),
        ({
            let (t, r) = m.step(IoEvent::Wrote(m.pending().len()));
            &&& !(r is Failed)
            &&& run_in_order(rs.init(), t, r, source, pos, out + m.pending())
            &&& run_distance(t, source, pos) == run_distance(m, source, pos)
            &&& t.rank(r) < m.rank(PollStep::Io(IoRequest::Write))
        }),
{
    reveal(run_in_order);
    let ev = IoEvent::Wrote(m.pending().len());
    lemma_transfer_write_all(m);
    lemma_transfer_step_inv(m, ev);
    lemma_transfer_answers(m, ev);
    lemma_continued_by_trans(rs.init(), m, m.step(ev).0);
}

/// A run in memory that has yielded goes on with a look at its source.
proof fn lemma_run_yield(
    rs: RunSettings,
    m: TransferModel,
    source: Seq<u8>,
    pos: nat,
    out: Seq<u8>,
)
    requires
        rs.valid(),
        run_in_order(rs.init(), m, PollStep::Yield, source, pos, out),
    ensures
        m.inv(),
        ({
            let (t, r) = m.step(IoEvent::Begin);
            &&& !(r is Failed)
            &&& run_in_order(rs.init(), t, r, source, pos, out)
            &&& run_distance(t, source, pos) == run_distance(m, source, pos)
            &&& t.rank(r) < m.rank(PollStep::Yield)
        }),
{
    reveal(run_in_order);
    let ev = IoEvent::Begin;
    lemma_transfer_after_yield(m);
    lemma_transfer_step_inv(m, ev);
    lemma_transfer_answers(m, ev);
    lemma_continued_by_trans(rs.init(), m, m.step(ev).0);
}

/// The first poll sets a run in memory going.
proof fn lemma_run_start(rs: RunSettings, source: Seq<u8>)
    requires
        rs.valid(),
        rs.buffer_size as nat <= usize::MAX,
    ensures
        rs.init().inv(),
        ({
            let (t, r) = rs.init().step(IoEvent::Begin);
            &&& !(r is Failed)
            &&& run_in_order(rs.init(), t, r, source, 0, Seq::empty())
        }),
{
    reveal(run_in_order);
    let init = rs.init();
    lemma_transfer_init_inv(
        rs.body_type,
        0,
        rs.line_max,
        rs.buffer_size as nat,
        rs.yield_size as nat,
    );
    let ev = IoEvent::Begin;
    lemma_transfer_step_inv(init, ev);
    lemma_transfer_answers(init, ev);
    let (t, r) = init.step(ev);
    assert(init.sent() =~= Seq::<u8>::empty());
    assert(init.taken() =~= Seq::<u8>::empty());
    assert(source.skip(0) =~= source);
    assert(source.take(0) =~= Seq::<u8>::empty());
    assert(init.encode.chunks + cut(source, rs.buffer_size) =~= cut(source, rs.buffer_size));
    let s = TransferModel { consumed: 0, ..init };
    match s.state {
        TransferState::Copy => {
            lemma_copy_answers(s.copy, ev);
            assert(s.copy.step(ev).0.sent == s.copy.sent);
            assert(s.copy.step(ev).0.taken == s.copy.taken);
        },
        TransferState::Encode => {
            lemma_encode_answers(s.encode, ev);
        },
        _ => {},
    }
    assert(t.sent() =~= init.sent());
    assert(t.taken() =~= init.taken());
}

/// Presents the body at the start of `source` as a chunked body, in
/// memory. Returns the bytes of the chunked body and the number of bytes
/// of `source` that belong to the body.
pub fn transfer_in_memory(
    body_type: HttpBodyType,
    body_line_max_len: usize,
    copy_config: StreamCopyConfig,
    source: &[u8],
) -> (r: Result<(Vec<u8>, usize), StreamCopyError>)
    ensures
        match in_memory_outcome(
            body_type,
            body_line_max_len,
            copy_config.spec_buffer_size(),
            source@,
        ) {
            Ok((out, used)) => r is Ok && r->Ok_0.0@ == out && r->Ok_0.1 == used,
            Err(e) => r is Err && r->Err_0 == e,
        },
{
    let buffer_size: usize = copy_config.buffer_size();
    let yield_size: usize = copy_config.yield_size();
    let len: usize = source.len();
    let ghost rs = RunSettings { body_type, line_max: body_line_max_len, buffer_size, yield_size };
    let mut transfer = H1BodyToChunkedTransfer::new(body_type, body_line_max_len, copy_config);
    let mut out: Vec<u8> = Vec::new();
    let mut pos: usize = 0;
    proof {
        lemma_run_start(rs, source@);
    }
    let mut step = transfer.poll(IoOutcome::Begin);
    loop
        invariant
            rs.valid(),
            rs.body_type == body_type,
            rs.line_max == body_line_max_len,
            rs.buffer_size == copy_config.spec_buffer_size(),
            len == source@.len(),
            pos <= len,
            transfer.wf(),
            !(step is Failed),
            run_in_order(rs.init(), transfer@, step, source@, pos as nat, out@),
        decreases run_distance(transfer@, source@, pos as nat), transfer@.rank(step),
    {
        let ghost before = transfer@;
        match step {
            PollStep::Io(IoRequest::Fill) => {
                let rest = slice_subrange(source, pos, len);
                proof {
                    if pos < len {
                        assert(rest@ =~= source@.skip(pos as int));
                        lemma_run_fill_data(rs, before, source@, pos as nat, out@);
                    } else {
                        assert(rest@ =~= Seq::<u8>::empty());
                        lemma_run_fill_eof(rs, before, source@, out@);
                    }
                }
                step = transfer.poll(IoOutcome::Filled(rest));
                if let PollStep::Failed(e) = step {
                    return Err(e);
                }
                pos = pos + transfer.consumed();
            },
            PollStep::Io(IoRequest::Write) => {
                proof {
                    lemma_run_write(rs, before, source@, pos as nat, out@);
                }
                let pending = transfer.pending_write();
                let n: usize = pending.len();
                let ghost sent = out@;
                out.extend_from_slice(pending);
                assert(out@ =~= sent + pending@);
                step = transfer.poll(IoOutcome::Wrote(n));
            },
            PollStep::Yield => {
                proof {
                    lemma_run_yield(rs, before, source@, pos as nat, out@);
                }
                step = transfer.poll(IoOutcome::Begin);
            },
            PollStep::Done(_) => {
                proof {
                    lemma_run_done(rs, before, step, source@, pos as nat, out@);
                }
                return Ok((out, pos));
            },
            PollStep::Failed(_) | PollStep::Io(IoRequest::Flush) | PollStep::Pending => {
                proof {
                    reveal(run_in_order);
                }
                return Err(vstd::pervasive::unreached());
            },
        }
    }
}

/// Putting a chunk in front of a run of chunks puts its data in front of
/// their data.
proof fn lemma_joined_front(c: Seq<u8>, rest: Seq<Seq<u8>>)
    ensures
        joined(seq![c] + rest) == c + joined(rest),
    decreases rest.len(),
{
    let all = seq![c] + rest;
    if rest.len() == 0 {
        assert(all.drop_last() =~= Seq::<Seq<u8>>::empty());
        assert(all.last() == c);
        reveal_with_fuel(joined, 2);
        assert(joined(all) =~= c + joined(rest));
    } else {
        assert(all.drop_last() =~= seq![c] + rest.drop_last());
        assert(all.last() == rest.last());
        lemma_joined_front(c, rest.drop_last());
        assert(joined(all) =~= c + joined(rest));
    }
}

/// Cutting bytes into chunks loses nothing: the chunks joined are the
/// bytes, and every chunk holds at least one byte and no more than the
/// limit.
pub proof fn lemma_cut_joins(s: Seq<u8>, cap: usize)
    requires
        cap >= 1,
    ensures
        joined(cut(s, cap)) == s,
        chunks_sized(cut(s, cap)),
        forall|i: int| 0 <= i < cut(s, cap).len() ==> (#[trigger] cut(s, cap)[i]).len() <= cap,
    decreases s.len(),
{
    if s.len() == 0 {
        assert(joined(cut(s, cap)) =~= s);
    } else {
        let c = window_of(s, cap);
        let rest = s.skip(c.len() as int);
        lemma_cut_joins(rest, cap);
        lemma_joined_front(c, cut(rest, cap));
        assert(c + rest =~= s);
        let all = cut(s, cap);
        assert forall|i: int| 0 <= i < all.len() implies 1 <= (#[trigger] all[i]).len() <= cap by {
            if i > 0 {
                assert(all[i] == cut(rest, cap)[i - 1]);
            }
        }
    }
}

/// What is sent for a body that was not chunked is the frames of chunks
/// that are the body, and the last chunk.
proof fn lemma_outcome_is_framed(
    body_type: HttpBodyType,
    line_max: usize,
    buffer_size: usize,
    source: Seq<u8>,
) -> (chunks: Seq<Seq<u8>>)
    requires
        !(body_type is Chunked),
        buffer_size >= 1,
        in_memory_outcome(body_type, line_max, buffer_size, source) is Ok,
    ensures
        chunks_sized(chunks),
        in_memory_outcome(body_type, line_max, buffer_size, source)->Ok_0.0 == frames(chunks)
            + last_chunk(),
        joined(chunks) == source.take(
            in_memory_outcome(body_type, line_max, buffer_size, source)->Ok_0.1 as int,
        ),
{
    match body_type {
        HttpBodyType::FixedLength(n) => {
            if n == 0 {
                let chunks = Seq::<Seq<u8>>::empty();
                assert(frames(chunks) + last_chunk() =~= last_chunk());
                assert(joined(chunks) =~= source.take(0));
                chunks
            } else {
                let data = source.take(n as int);
                let chunks = seq![data];
                reveal_with_fuel(frames, 2);
                reveal_with_fuel(joined, 2);
                assert(chunks.drop_last() =~= Seq::<Seq<u8>>::empty());
                assert(chunks.last() == data);
                assert(frames(chunks) =~= chunk_frame(data));
                assert(joined(chunks) =~= data);
                chunks
            }
        },
        _ => {
            lemma_cut_joins(source, buffer_size);
            assert(source.take(source.len() as int) =~= source);
            cut(source, buffer_size)
        },
    }
}

/// An echo delivers the source. Take any body that is not chunked, and
/// let it be presented as a chunked body. If the adaptation server sends
/// back what it was sent, followed by anything, and the reply is decoded
/// with a limit of at least [`MAX_SIZE_LINE`] bytes on a chunk-size line,
/// then the decoding succeeds, the bytes that come out are exactly the
/// bytes of the body, and the decoder stops in front of the empty trailer.
pub proof fn theorem_echo_in_memory(
    body_type: HttpBodyType,
    line_max: usize,
    buffer_size: usize,
    source: Seq<u8>,
    rest: Seq<u8>,
    reply_line_max: usize,
)
    requires
        !(body_type is Chunked),
        buffer_size >= 1,
        reply_line_max >= MAX_SIZE_LINE,
        in_memory_outcome(body_type, line_max, buffer_size, source) is Ok,
    ensures
        ({
            let (sent, taken) = in_memory_outcome(body_type, line_max, buffer_size, source)->Ok_0;
            copy_outcome(
                BodyPhase::chunk_start(),
                ScanRules { line_max: reply_line_max, decode: true },
                sent + rest,
            ) == Ok::<(Seq<u8>, nat), StreamCopyError>(
                (source.take(taken as int), (sent.len() - 2) as nat),
            )
        }),
{
    let rules = ScanRules { line_max: reply_line_max, decode: true };
    let start = BodyPhase::chunk_start();
    let (sent, taken) = in_memory_outcome(body_type, line_max, buffer_size, source)->Ok_0;
    let chunks = lemma_outcome_is_framed(body_type, line_max, buffer_size, source);
    lemma_feed_encoded(chunks, rules);
    assert(sent.is_prefix_of(sent + rest)) by {
        assert((sent + rest).subrange(0, sent.len() as int) =~= sent);
    }
    lemma_feed_prefix_halted(start, sent, sent + rest, rules);
}

/// An echo of a chunked body delivers the source. If a chunked body
/// passes through, the adaptation server sends back what it was sent,
/// followed by anything, and the reply is copied as it stands under the
/// same limit on a chunk-size line, then the copy succeeds and the bytes
/// that come out are exactly the bytes of the body.
pub proof fn theorem_chunked_echo_in_memory(
    line_max: usize,
    buffer_size: usize,
    source: Seq<u8>,
    rest: Seq<u8>,
)
    requires
        in_memory_outcome(HttpBodyType::Chunked, line_max, buffer_size, source) is Ok,
    ensures
        ({
            let (sent, taken) = in_memory_outcome(
                HttpBodyType::Chunked,
                line_max,
                buffer_size,
                source,
            )->Ok_0;
            &&& sent == source.take(taken as int)
            &&& copy_outcome(
                BodyPhase::chunk_start(),
                ScanRules { line_max, decode: false },
                sent + rest,
            ) == Ok::<(Seq<u8>, nat), StreamCopyError>((sent, sent.len()))
        }),
{
    let rules = TransferModel::rules_for(line_max);
    let start = BodyPhase::chunk_start();
    let f = feed(start, source, rules);
    let sent = source.take(f.used as int);
    lemma_feed_used_prefix(start, source, rules);
    lemma_feed_bounds(start, source, rules);
    assert(sent.is_prefix_of(sent + rest)) by {
        assert((sent + rest).subrange(0, sent.len() as int) =~= sent);
    }
    lemma_feed_prefix_halted(start, sent, sent + rest, rules);
    assert((sent + rest).take(f.used as int) =~= sent);
}

} // verus!
