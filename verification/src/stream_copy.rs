//! A buffered copy from a source to a sink.
//!
//! The copy fills its buffer from the bytes that a body scanner hands on,
//! drains the buffer to the sink, and yields once it has moved a configured
//! number of bytes in one round. [`CopyModel`] says what it does; the
//! executable [`StreamCopy`] is proved to do the same.

use vstd::prelude::*;
use vstd::slice::slice_subrange;

use crate::body::reader::{
    lemma_feed_wf, phase_at_eof, phase_wf, scan_into, window, window_of, BodyScanner,
    HttpBodyDecodeReader, HttpBodyReader,
};
use crate::chunked::phase::{
    feed, handed_on, lemma_feed_bounds, lemma_feed_concat, lemma_feed_first_byte,
    lemma_feed_used_prefix, BodyPhase, Fed, ScanRules,
};
use crate::copy_config::StreamCopyConfig;
use crate::io::{sat_add, IoEvent, IoFailure, IoOutcome, IoRequest, PollStep, StreamCopyError};

verus! {

/// What a copy is waiting for.
#[derive(Clone, Copy, Debug, PartialEq, Eq, Structural)]
pub enum CopyStage {
    /// Nothing: the next poll starts a round.
    Idle,
    /// The outcome of a fill.
    AwaitFill,
    /// The outcome of a write.
    AwaitWrite,
    /// Nothing: the copy is complete.
    Done,
}

/// The state of a copy as contracts see it.
pub struct CopyModel {
    /// The phase the scanner started in.
    pub origin: BodyPhase,
    pub rules: ScanRules,
    /// The phase the scanner is in.
    pub phase: BodyPhase,
    /// The buffer: what was read since it last ran empty.
    pub buf: Seq<u8>,
    /// How much of the buffer the sink has accepted.
    pub w_off: nat,
    pub capacity: nat,
    pub yield_size: nat,
    /// Whether the body has been read to its end.
    pub read_done: bool,
    /// Whether anything moved since the flag was last reset.
    pub active: bool,
    /// The number of bytes the sink has accepted, held at `u64::MAX`.
    pub total_write: nat,
    /// The number of bytes the sink has accepted in this round.
    pub round_copied: nat,
    pub stage: CopyStage,
    /// How many source bytes the last poll consumed.
    pub consumed: nat,
    /// Every byte consumed from the source so far.
    pub taken: Seq<u8>,
    /// Every byte the sink has accepted so far.
    pub sent: Seq<u8>,
}

impl CopyModel {
    /// A copy that has not moved anything yet.
    pub open spec fn init(origin: BodyPhase, rules: ScanRules, capacity: nat, yield_size: nat)
        -> CopyModel {
        CopyModel {
            origin,
            rules,
            phase: origin,
            buf: Seq::empty(),
            w_off: 0,
            capacity,
            yield_size,
            read_done: origin.finished(rules),
            active: false,
            total_write: 0,
            round_copied: 0,
            stage: CopyStage::Idle,
            consumed: 0,
            taken: Seq::empty(),
            sent: Seq::empty(),
        }
    }

    /// The bytes that are buffered and not yet accepted by the sink.
    pub open spec fn pending(self) -> Seq<u8> {
        self.buf.skip(self.w_off as int)
    }

    /// The free space behind the buffered bytes.
    pub open spec fn room(self) -> nat {
        (self.capacity - self.buf.len()) as nat
    }

    /// Whether the copy is complete.
    pub open spec fn finished(self) -> bool {
        self.read_done && self.w_off >= self.buf.len()
    }

    /// What the scanner has made of everything taken so far.
    pub open spec fn scanned(self) -> Fed {
        feed(self.origin, self.taken, self.rules)
    }

    /// Whether the buffer, the scanner and the record of what was taken
    /// and sent agree with one another.
    pub open spec fn consistent(self) -> bool {
        &&& self.w_off <= self.buf.len() <= self.capacity
        &&& 1 <= self.capacity <= usize::MAX
        &&& self.yield_size >= 1
        &&& phase_wf(self.origin)
        &&& phase_wf(self.phase)
        &&& self.origin is Failed || !(self.phase is Failed)
        &&& self.scanned().used == self.taken.len()
        &&& self.phase == self.scanned().phase || (self.phase is Ended && self.scanned().phase
            is UntilEnd)
        &&& self.sent + self.pending() == handed_on(self.scanned(), self.taken, self.rules)
        &&& self.read_done == self.phase.finished(self.rules)
        &&& self.total_write == sat_add(0, self.sent.len())
    }

    /// What holds of a copy between any two polls: it is consistent, and
    /// it waits only for what can happen.
    pub open spec fn inv(self) -> bool {
        &&& self.consistent()
        &&& self.stage is Done ==> self.read_done && self.buf.len() == 0
        &&& self.stage is AwaitFill ==> !self.read_done && self.buf.len() < self.capacity
        &&& self.stage is AwaitWrite ==> self.w_off < self.buf.len()
    }

    /// The copy has failed; the next poll starts over.
    pub open spec fn fail(self, e: StreamCopyError) -> (CopyModel, PollStep) {
        (CopyModel { stage: CopyStage::Idle, ..self }, PollStep::Failed(e))
    }

    /// Drains the buffer; once it is empty, ends the copy, yields or goes
    /// back to filling.
    pub open spec fn drain(self) -> (CopyModel, PollStep) {
        if self.w_off < self.buf.len() {
            (CopyModel { stage: CopyStage::AwaitWrite, ..self }, PollStep::Io(IoRequest::Write))
        } else {
            let s = CopyModel { buf: Seq::empty(), w_off: 0, ..self };
            if s.read_done {
                (CopyModel { stage: CopyStage::Done, ..s }, PollStep::Done(s.total_write as u64))
            } else if s.round_copied >= s.yield_size {
                (CopyModel { stage: CopyStage::Idle, round_copied: 0, ..s }, PollStep::Yield)
            } else {
                (CopyModel { stage: CopyStage::AwaitFill, ..s }, PollStep::Io(IoRequest::Fill))
            }
        }
    }

    /// Starts a round: fills if there is room and more to read, else drains.
    pub open spec fn begin(self) -> (CopyModel, PollStep) {
        let s = CopyModel { round_copied: 0, ..self };
        if !s.read_done && s.buf.len() < s.capacity {
            (CopyModel { stage: CopyStage::AwaitFill, ..s }, PollStep::Io(IoRequest::Fill))
        } else {
            s.drain()
        }
    }

    /// The source has `d` buffered; nothing at all means that it has ended.
    pub open spec fn on_filled(self, d: Seq<u8>) -> (CopyModel, PollStep) {
        if d.len() == 0 {
            match phase_at_eof(self.phase, self.rules) {
                Some(p) => CopyModel { phase: p, read_done: true, ..self }.drain(),
                None => self.fail(StreamCopyError::ReadFailed(IoFailure::UnexpectedEof)),
            }
        } else {
            let w = window_of(d, self.room() as usize);
            let f = feed(self.phase, w, self.rules);
            match f.phase {
                BodyPhase::Failed(e) => self.fail(
                    StreamCopyError::ReadFailed(IoFailure::InvalidBody(e)),
                ),
                _ => CopyModel {
                    phase: f.phase,
                    buf: self.buf + handed_on(f, w, self.rules),
                    taken: self.taken + d.take(f.used as int),
                    consumed: f.used,
                    active: true,
                    read_done: f.phase.finished(self.rules),
                    ..self
                }.drain(),
            }
        }
    }

    /// The sink has accepted `n` of the pending bytes.
    pub open spec fn on_wrote(self, n: nat) -> (CopyModel, PollStep) {
        if n == 0 {
            self.fail(StreamCopyError::WriteFailed(IoFailure::WriteZero))
        } else {
            CopyModel {
                w_off: self.w_off + n,
                sent: self.sent + self.pending().take(n as int),
                total_write: sat_add(self.total_write, n),
                round_copied: sat_round(self.round_copied, n),
                active: true,
                ..self
            }.drain()
        }
    }

    /// One poll: the state after it and the answer it gives.
    pub open spec fn step(self, ev: IoEvent) -> (CopyModel, PollStep) {
        let s = CopyModel { consumed: 0, ..self };
        match (s.stage, ev) {
            (CopyStage::AwaitFill, IoEvent::Filled(d)) => s.on_filled(d),
            (CopyStage::AwaitFill, IoEvent::NotReady) => if s.w_off < s.buf.len() {
                s.drain()
            } else {
                (CopyModel { stage: CopyStage::Idle, ..s }, PollStep::Pending)
            },
            (CopyStage::AwaitFill, IoEvent::Failed(e)) => s.fail(StreamCopyError::ReadFailed(e)),
            (CopyStage::AwaitWrite, IoEvent::Wrote(n)) => s.on_wrote(n),
            (CopyStage::AwaitWrite, IoEvent::NotReady) => (
                CopyModel { stage: CopyStage::Idle, ..s },
                PollStep::Pending,
            ),
            (CopyStage::AwaitWrite, IoEvent::Failed(e)) => s.fail(
                StreamCopyError::WriteFailed(e),
            ),
            _ => s.begin(),
        }
    }

    /// Whether `ev` is something a sink or a source can report in this
    /// state: a sink accepts no more than it was offered.
    pub open spec fn admits(self, ev: IoEvent) -> bool {
        ev matches IoEvent::Wrote(n) ==> (self.stage is AwaitWrite ==> n <= self.pending().len())
    }
}

/// `a + b`, held at `usize::MAX`.
pub open spec fn sat_round(a: nat, b: nat) -> nat {
    if a + b > usize::MAX {
        usize::MAX as nat
    } else {
        a + b
    }
}

/// A fresh copy is in order.
pub proof fn lemma_copy_init_inv(
    origin: BodyPhase,
    rules: ScanRules,
    capacity: nat,
    yield_size: nat,
)
    requires
        1 <= capacity <= usize::MAX,
        yield_size >= 1,
        phase_wf(origin),
    ensures
        CopyModel::init(origin, rules, capacity, yield_size).inv(),
{
    let m = CopyModel::init(origin, rules, capacity, yield_size);
    assert(m.taken.take(0) =~= Seq::<u8>::empty());
    assert(m.sent + m.pending() =~= Seq::<u8>::empty());
}

impl CopyModel {
    /// Whether `t` is in order and continues `self`: same settings, and
    /// nothing taken back of what was taken, sent or counted.
    pub open spec fn continued_by(self, t: CopyModel) -> bool {
        &&& t.inv()
        &&& t.origin == self.origin
        &&& t.rules == self.rules
        &&& t.capacity == self.capacity
        &&& t.yield_size == self.yield_size
        &&& self.taken.is_prefix_of(t.taken)
        &&& self.sent.is_prefix_of(t.sent)
        &&& t.total_write >= self.total_write
    }
}

proof fn lemma_drain_inv(m: CopyModel)
    requires
        m.consistent(),
    ensures
        m.continued_by(m.drain().0),
        m.drain().0.taken == m.taken,
        m.drain().0.sent == m.sent,
{
    if m.w_off >= m.buf.len() {
        let s = CopyModel { buf: Seq::empty(), w_off: 0, ..m };
        assert(m.pending() =~= Seq::<u8>::empty());
        assert(s.pending() =~= Seq::<u8>::empty());
        assert(s.consistent());
    }
}

proof fn lemma_begin_inv(m: CopyModel)
    requires
        m.inv(),
    ensures
        m.continued_by(m.begin().0),
{
    let t = CopyModel { round_copied: 0, ..m };
    assert(t.consistent());
    lemma_drain_inv(t);
}

proof fn lemma_on_wrote_inv(m: CopyModel, n: nat)
    requires
        m.inv(),
        n <= m.pending().len(),
    ensures
        m.continued_by(m.on_wrote(n).0),
{
    if n > 0 {
        let t = CopyModel {
            w_off: m.w_off + n,
            sent: m.sent + m.pending().take(n as int),
            total_write: sat_add(m.total_write, n),
            round_copied: sat_round(m.round_copied, n),
            active: true,
            ..m
        };
        assert(t.sent + t.pending() =~= m.sent + m.pending());
        assert(t.consistent());
        lemma_drain_inv(t);
        assert(m.sent.is_prefix_of(t.sent));
    }
}

proof fn lemma_on_eof_inv(m: CopyModel)
    requires
        m.inv(),
    ensures
        m.continued_by(m.on_filled(Seq::empty()).0),
{
    match phase_at_eof(m.phase, m.rules) {
        Some(p) => {
            let t = CopyModel { phase: p, read_done: true, ..m };
            assert(t.consistent());
            lemma_drain_inv(t);
        },
        None => {},
    }
}

proof fn lemma_on_data_inv(m: CopyModel, d: Seq<u8>)
    requires
        m.inv(),
        d.len() > 0,
    ensures
        m.continued_by(m.on_filled(d).0),
{
    let w = window_of(d, m.room() as usize);
    let f = feed(m.phase, w, m.rules);
    lemma_feed_bounds(m.phase, w, m.rules);
    lemma_feed_wf(m.phase, w, m.rules);
    if !(f.phase is Failed) {
        let piece = d.take(f.used as int);
        let handed = handed_on(f, w, m.rules);
        let t = CopyModel {
            phase: f.phase,
            buf: m.buf + handed,
            taken: m.taken + piece,
            consumed: f.used,
            active: true,
            read_done: f.phase.finished(m.rules),
            ..m
        };
        assert(piece =~= w.take(f.used as int));
        lemma_feed_used_prefix(m.phase, w, m.rules);
        lemma_feed_bounds(m.origin, m.taken, m.rules);
        assert(handed.len() <= f.used);
        if m.phase is Ended {
            assert(piece =~= Seq::<u8>::empty());
            assert(t.taken =~= m.taken);
            assert(handed =~= Seq::<u8>::empty());
            assert(t.buf =~= m.buf);
            assert(t.consistent());
        } else {
            lemma_feed_concat(m.origin, m.taken, piece, m.rules);
            assert(feed(m.phase, piece, m.rules) == f);
            assert(t.scanned().phase == f.phase);
            assert(t.scanned().used == t.taken.len());
            assert(t.pending() =~= m.pending() + handed);
            if m.rules.decode {
                assert(t.sent + t.pending() =~= (m.sent + m.pending()) + f.payload);
            } else {
                assert(t.taken.take(t.taken.len() as int) =~= t.taken);
                assert(m.taken.take(m.taken.len() as int) =~= m.taken);
                assert(handed =~= piece);
                assert(t.sent + t.pending() =~= (m.sent + m.pending()) + piece);
            }
            assert(t.consistent());
        }
        lemma_drain_inv(t);
        assert(m.taken.is_prefix_of(t.taken));
    }
}

/// Every poll keeps a copy in order, never takes back what it has taken
/// or sent, and never lowers its byte count.
pub proof fn lemma_copy_step_inv(m: CopyModel, ev: IoEvent)
    requires
        m.inv(),
        m.admits(ev),
    ensures
        m.continued_by(m.step(ev).0),
{
    let s = CopyModel { consumed: 0, ..m };
    assert(s.inv());
    assert(s.pending() == m.pending());
    assert(s.scanned() == m.scanned());
    match (s.stage, ev) {
        (CopyStage::AwaitFill, IoEvent::Filled(d)) => {
            if d.len() == 0 {
                assert(d =~= Seq::<u8>::empty());
                lemma_on_eof_inv(s);
            } else {
                lemma_on_data_inv(s, d);
            }
        },
        (CopyStage::AwaitFill, IoEvent::NotReady) => {
            lemma_drain_inv(s);
        },
        (CopyStage::AwaitFill, IoEvent::Failed(e)) => {},
        (CopyStage::AwaitWrite, IoEvent::Wrote(n)) => {
            lemma_on_wrote_inv(s, n);
        },
        (CopyStage::AwaitWrite, IoEvent::NotReady) => {},
        (CopyStage::AwaitWrite, IoEvent::Failed(e)) => {},
        _ => {
            lemma_begin_inv(s);
        },
    }
}

/// A copy asks for nothing in vain: it asks for a write only while it
/// holds bytes that the sink has not accepted, for a fill only while its
/// buffer has room and the body is not at its end, and never for a flush.
pub proof fn lemma_copy_requests_are_sound(m: CopyModel, ev: IoEvent)
    requires
        m.inv(),
        m.admits(ev),
    ensures
        m.step(ev).1 == PollStep::Io(IoRequest::Write) ==> m.step(ev).0.pending().len() > 0,
        m.step(ev).1 == PollStep::Io(IoRequest::Fill) ==> m.step(ev).0.room() > 0 && !m.step(
            ev,
        ).0.read_done,
        m.step(ev).1 != PollStep::Io(IoRequest::Flush),
{
    lemma_copy_step_inv(m, ev);
}

/// A fill that shows the copy at least one byte either fails or consumes
/// at least one byte, so that a source that has bytes is never looked at
/// twice in the same state.
pub proof fn lemma_copy_fill_makes_progress(m: CopyModel, d: Seq<u8>)
    requires
        m.inv(),
        m.stage is AwaitFill,
        d.len() > 0,
    ensures
        m.step(IoEvent::Filled(d)).1 is Failed || m.step(IoEvent::Filled(d)).0.consumed >= 1,
{
    let s = CopyModel { consumed: 0, ..m };
    let w = window_of(d, s.room() as usize);
    assert(w.len() >= 1);
    let f = feed(s.phase, w, s.rules);
    if !(f.phase is Failed) {
        let t = CopyModel {
            phase: f.phase,
            buf: s.buf + handed_on(f, w, s.rules),
            taken: s.taken + d.take(f.used as int),
            consumed: f.used,
            active: true,
            read_done: f.phase.finished(s.rules),
            ..s
        };
        assert(t.drain().0.consumed == f.used);
        lemma_feed_bounds(s.phase, w, s.rules);
        lemma_feed_first_byte(s.phase, w, s.rules);
    }
}

impl CopyModel {
    /// Whether the copy waits for what the answer `r` asks for.
    pub open spec fn answers(self, r: PollStep) -> bool {
        match r {
            PollStep::Io(IoRequest::Fill) => self.stage is AwaitFill,
            PollStep::Io(IoRequest::Write) => self.stage is AwaitWrite,
            PollStep::Io(IoRequest::Flush) => false,
            PollStep::Yield => self.stage is Idle && !self.read_done && self.buf.len() == 0,
            PollStep::Pending => self.stage is Idle,
            PollStep::Done(n) => self.stage is Done && n == self.total_write,
            PollStep::Failed(_) => self.stage is Idle,
        }
    }
}

/// After every poll a copy waits for what its answer asks for, and it
/// answers that it must wait only when it was told that a call would
/// block.
pub proof fn lemma_copy_answers(m: CopyModel, ev: IoEvent)
    requires
        m.inv(),
        m.admits(ev),
    ensures
        m.step(ev).0.answers(m.step(ev).1),
        !(ev is NotReady) ==> !(m.step(ev).1 is Pending),
        m.step(ev).1 is Failed ==> {
            &&& m.step(ev).0 == (CopyModel { stage: CopyStage::Idle, consumed: 0, ..m })
            &&& ev is Failed || ev is Filled || ev == IoEvent::Wrote(0)
        },
        m.read_done ==> m.step(ev).0.read_done,
{
    lemma_copy_step_inv(m, ev);
}

/// A sink that accepts all that it is offered moves a copy on: the
/// pending bytes are sent, nothing is taken, and the copy is complete,
/// yields or asks for a fill.
pub proof fn lemma_copy_write_all(m: CopyModel)
    requires
        m.inv(),
        m.stage is AwaitWrite,
    ensures
        ({
            let (t, r) = m.step(IoEvent::Wrote(m.pending().len()));
            &&& r is Done || r is Yield || r == PollStep::Io(IoRequest::Fill)
            &&& t.sent == m.sent + m.pending()
            &&& t.taken == m.taken
            &&& t.read_done == m.read_done
            &&& t.consumed == 0
        }),
{
    let n = m.pending().len();
    let s = CopyModel { consumed: 0, ..m };
    assert(s.pending() == m.pending());
    assert(s.pending().take(n as int) =~= s.pending());
}

/// A copy that has yielded asks for a fill when it is polled again.
pub proof fn lemma_copy_after_yield(m: CopyModel)
    requires
        m.inv(),
        m.answers(PollStep::Yield),
    ensures
        ({
            let (t, r) = m.step(IoEvent::Begin);
            &&& r == PollStep::Io(IoRequest::Fill)
            &&& t.sent == m.sent
            &&& t.taken == m.taken
            &&& t.read_done == m.read_done
            &&& t.consumed == 0
        }),
{
}

/// What a fill that shows at least one byte does to a copy: either the
/// bytes shown are not a valid continuation of the body and the copy
/// fails, or the copy takes at least one of them.
pub proof fn lemma_copy_fill_data(m: CopyModel, d: Seq<u8>)
    requires
        m.inv(),
        m.stage is AwaitFill,
        d.len() > 0,
    ensures
        ({
            let (t, r) = m.step(IoEvent::Filled(d));
            let f = feed(m.phase, window_of(d, m.room() as usize), m.rules);
            &&& r is Failed ==> f.phase is Failed && r == PollStep::Failed(
                StreamCopyError::ReadFailed(IoFailure::InvalidBody(f.phase->Failed_0)),
            )
            &&& !(r is Failed) ==> {
                &&& !(f.phase is Failed)
                &&& 1 <= t.consumed <= d.len()
                &&& t.taken == m.taken + d.take(t.consumed as int)
                &&& t.sent == m.sent
                &&& !(r is Pending)
            }
        }),
{
    lemma_copy_fill_makes_progress(m, d);
    lemma_copy_answers(m, IoEvent::Filled(d));
    let s = CopyModel { consumed: 0, ..m };
    let w = window_of(d, s.room() as usize);
    let f = feed(s.phase, w, s.rules);
    lemma_feed_bounds(s.phase, w, s.rules);
    if !(f.phase is Failed) {
        let t = CopyModel {
            phase: f.phase,
            buf: s.buf + handed_on(f, w, s.rules),
            taken: s.taken + d.take(f.used as int),
            consumed: f.used,
            active: true,
            read_done: f.phase.finished(s.rules),
            ..s
        };
        assert(t.drain().0.taken == t.taken);
        assert(t.drain().0.sent == t.sent);
    }
}

/// What the end of the source does to a copy: a body that is not at its
/// end has been cut short and the copy fails; otherwise the copy reads no
/// more.
pub proof fn lemma_copy_fill_eof(m: CopyModel)
    requires
        m.inv(),
        m.stage is AwaitFill,
    ensures
        ({
            let (t, r) = m.step(IoEvent::Filled(Seq::empty()));
            &&& r is Failed <==> !(m.phase is UntilEnd)
            &&& r is Failed ==> r == PollStep::Failed(
                StreamCopyError::ReadFailed(IoFailure::UnexpectedEof),
            )
            &&& !(r is Failed) ==> {
                &&& t.read_done
                &&& t.taken == m.taken
                &&& t.sent == m.sent
                &&& t.consumed == 0
                &&& !(r is Pending)
            }
        }),
{
    lemma_copy_answers(m, IoEvent::Filled(Seq::empty()));
    let s = CopyModel { consumed: 0, ..m };
    match phase_at_eof(s.phase, s.rules) {
        Some(p) => {
            let t = CopyModel { phase: p, read_done: true, ..s };
            assert(t.drain().0.taken == t.taken);
        },
        None => {},
    }
}

/// When a poll reports the copy complete, everything that the scanner
/// handed on has reached the sink, the body has been read to its end, and
/// the number reported is the number of bytes sent.
pub proof fn lemma_copy_done(m: CopyModel, ev: IoEvent)
    requires
        m.inv(),
        m.admits(ev),
    ensures
        m.step(ev).1 matches PollStep::Done(n) ==> {
            let t = m.step(ev).0;
            &&& t.stage is Done
            &&& t.phase.finished(t.rules)
            &&& t.sent == handed_on(t.scanned(), t.taken, t.rules)
            &&& n == sat_add(0, t.sent.len())
            &&& t.pending().len() == 0
        },
{
    lemma_copy_step_inv(m, ev);
    let t = m.step(ev).0;
    if m.step(ev).1 is Done {
        assert(t.pending() =~= Seq::<u8>::empty());
        assert(t.sent + t.pending() =~= t.sent);
    }
}

/// A buffered copy from a source to a sink, driven by polls.
pub struct StreamCopy {
    phase: BodyPhase,
    rules: ScanRules,
    buf: Vec<u8>,
    w_off: usize,
    capacity: usize,
    yield_size: usize,
    read_done: bool,
    active: bool,
    total_write: u64,
    round_copied: usize,
    stage: CopyStage,
    consumed: usize,
    origin: Ghost<BodyPhase>,
    taken: Ghost<Seq<u8>>,
    sent: Ghost<Seq<u8>>,
}

impl View for StreamCopy {
    type V = CopyModel;

    closed spec fn view(&self) -> CopyModel {
        CopyModel {
            origin: self.origin@,
            rules: self.rules,
            phase: self.phase,
            buf: self.buf@,
            w_off: self.w_off as nat,
            capacity: self.capacity as nat,
            yield_size: self.yield_size as nat,
            read_done: self.read_done,
            active: self.active,
            total_write: self.total_write as nat,
            round_copied: self.round_copied as nat,
            stage: self.stage,
            consumed: self.consumed as nat,
            taken: self.taken@,
            sent: self.sent@,
        }
    }
}

impl StreamCopy {
    /// Whether the copy is in order.
    pub open spec fn wf(&self) -> bool {
        self@.inv()
    }

    fn with_scanner(scanner: BodyScanner, config: StreamCopyConfig) -> (r: Self)
        requires
            scanner.wf(),
        ensures
            r.wf(),
            r@ == CopyModel::init(
                scanner.phase,
                scanner.rules,
                config.spec_buffer_size() as nat,
                config.spec_yield_size() as nat,
            ),
    {
        let capacity: usize = config.buffer_size();
        let yield_size: usize = config.yield_size();
        let done: bool = scanner.finished();
        proof {
            lemma_copy_init_inv(scanner.phase, scanner.rules, capacity as nat, yield_size as nat);
        }
        StreamCopy {
            phase: scanner.phase,
            rules: scanner.rules,
            buf: Vec::new(),
            w_off: 0,
            capacity,
            yield_size,
            read_done: done,
            active: false,
            total_write: 0,
            round_copied: 0,
            stage: CopyStage::Idle,
            consumed: 0,
            origin: Ghost(scanner.phase),
            taken: Ghost(Seq::empty()),
            sent: Ghost(Seq::empty()),
        }
    }

    /// A copy of the body that `reader` finds, framing included.
    pub fn new(reader: HttpBodyReader, config: StreamCopyConfig) -> (r: Self)
        requires
            reader.wf(),
        ensures
            r.wf(),
            r@ == CopyModel::init(
                reader.scanner().phase,
                reader.scanner().rules,
                config.spec_buffer_size() as nat,
                config.spec_yield_size() as nat,
            ),
    {
        Self::with_scanner(reader.into_scanner(), config)
    }

    /// A copy of the payload that `reader` decodes.
    pub fn new_decoded(reader: HttpBodyDecodeReader, config: StreamCopyConfig) -> (r: Self)
        requires
            reader.wf(),
        ensures
            r.wf(),
            r@ == CopyModel::init(
                reader.scanner().phase,
                reader.scanner().rules,
                config.spec_buffer_size() as nat,
                config.spec_yield_size() as nat,
            ),
    {
        Self::with_scanner(reader.into_scanner(), config)
    }

    /// Where the scanner of this copy stands.
    pub fn scanner(&self) -> (r: BodyScanner)
        ensures
            r.phase == self@.phase,
            r.rules == self@.rules,
    {
        BodyScanner { phase: self.phase, rules: self.rules }
    }

    /// The bytes to offer to the sink when the copy asks for a write.
    pub fn pending_write(&self) -> (r: &[u8])
        requires
            self.wf(),
        ensures
            r@ == self@.pending(),
    {
        slice_subrange(self.buf.as_slice(), self.w_off, self.buf.len())
    }

    /// How many of the bytes shown to it the last poll consumed from the
    /// source.
    pub fn consumed(&self) -> (r: usize)
        ensures
            r == self@.consumed,
    {
        self.consumed
    }

    /// Whether anything moved since the flag was last reset.
    pub fn is_active(&self) -> (r: bool)
        ensures
            r == self@.active,
    {
        self.active
    }

    /// Whether nothing moved since the flag was last reset.
    pub fn is_idle(&self) -> (r: bool)
        ensures
            r == !self@.active,
    {
        !self.active
    }

    /// Clears the activity flag.
    pub fn reset_active(&mut self)
        ensures
            final(self)@ == (CopyModel { active: false, ..old(self)@ }),
    {
        self.active = false;
    }

    /// Whether no byte is buffered that the sink has not accepted.
    pub fn no_cached_data(&self) -> (r: bool)
        ensures
            r == (self@.w_off >= self@.buf.len()),
    {
        self.w_off >= self.buf.len()
    }

    /// Whether the body has been read to its end and all of it has been
    /// accepted by the sink.
    pub fn finished(&self) -> (r: bool)
        ensures
            r == self@.finished(),
    {
        self.read_done && self.w_off >= self.buf.len()
    }

    /// The number of bytes the sink has accepted, held at `u64::MAX`.
    pub fn copied_size(&self) -> (r: u64)
        ensures
            r == self@.total_write,
    {
        self.total_write
    }

    fn fail(&mut self, e: StreamCopyError) -> (r: PollStep)
        ensures
            (final(self)@, r) == old(self)@.fail(e),
    {
        self.stage = CopyStage::Idle;
        PollStep::Failed(e)
    }

    fn drain(&mut self) -> (r: PollStep)
        requires
            old(self)@.total_write <= u64::MAX,
        ensures
            (final(self)@, r) == old(self)@.drain(),
    {
        if self.w_off < self.buf.len() {
            self.stage = CopyStage::AwaitWrite;
            PollStep::Io(IoRequest::Write)
        } else {
            self.buf.clear();
            self.w_off = 0;
            if self.read_done {
                self.stage = CopyStage::Done;
                PollStep::Done(self.total_write)
            } else if self.round_copied >= self.yield_size {
                self.stage = CopyStage::Idle;
                self.round_copied = 0;
                PollStep::Yield
            } else {
                self.stage = CopyStage::AwaitFill;
                PollStep::Io(IoRequest::Fill)
            }
        }
    }

    fn begin(&mut self) -> (r: PollStep)
        ensures
            (final(self)@, r) == old(self)@.begin(),
    {
        self.round_copied = 0;
        if !self.read_done && self.buf.len() < self.capacity {
            self.stage = CopyStage::AwaitFill;
            PollStep::Io(IoRequest::Fill)
        } else {
            self.drain()
        }
    }

    fn on_filled(&mut self, d: &[u8]) -> (r: PollStep)
        requires
            old(self)@.inv(),
        ensures
            (final(self)@, r) == old(self)@.on_filled(d@),
    {
        if d.len() == 0 {
            match self.phase {
                BodyPhase::UntilEnd => {
                    self.phase = BodyPhase::Ended;
                    self.read_done = true;
                    self.drain()
                },
                _ => {
                    let scanner = BodyScanner { phase: self.phase, rules: self.rules };
                    if scanner.finished() {
                        self.read_done = true;
                        self.drain()
                    } else {
                        self.fail(StreamCopyError::ReadFailed(IoFailure::UnexpectedEof))
                    }
                },
            }
        } else {
            let room: usize = self.capacity - self.buf.len();
            let w = window(d, room);
            let (next, used) = scan_into(self.phase, self.rules, w, &mut self.buf);
            match next {
                BodyPhase::Failed(e) => self.fail(
                    StreamCopyError::ReadFailed(IoFailure::InvalidBody(e)),
                ),
                _ => {
                    self.phase = next;
                    proof {
                        self.taken@ = self.taken@ + d@.take(used as int);
                    }
                    self.consumed = used;
                    self.active = true;
                    let scanner = BodyScanner { phase: next, rules: self.rules };
                    self.read_done = scanner.finished();
                    self.drain()
                },
            }
        }
    }

    fn on_wrote(&mut self, n: usize) -> (r: PollStep)
        requires
            old(self)@.inv(),
            n <= old(self)@.pending().len(),
        ensures
            (final(self)@, r) == old(self)@.on_wrote(n as nat),
    {
        if n == 0 {
            self.fail(StreamCopyError::WriteFailed(IoFailure::WriteZero))
        } else {
            proof {
                self.sent@ = self.sent@ + self@.pending().take(n as int);
            }
            self.w_off = self.w_off + n;
            self.total_write = if n as u64 > u64::MAX - self.total_write {
                u64::MAX
            } else {
                self.total_write + n as u64
            };
            self.round_copied = if n > usize::MAX - self.round_copied {
                usize::MAX
            } else {
                self.round_copied + n
            };
            self.active = true;
            self.drain()
        }
    }

    /// Takes the outcome of the call the copy last asked for and says what
    /// to do next. After a fill, [`Self::consumed`] tells how many bytes are
    /// to be consumed from the source.
    pub fn poll(&mut self, ev: IoOutcome<'_>) -> (r: PollStep)
        requires
            old(self).wf(),
            old(self)@.admits(ev@),
        ensures
            final(self).wf(),
            (final(self)@, r) == old(self)@.step(ev@),
            old(self)@.continued_by(final(self)@),
    {
        proof {
            lemma_copy_step_inv(self@, ev@);
        }
        self.consumed = 0;
        match self.stage {
            CopyStage::AwaitFill => match ev {
                IoOutcome::Filled(d) => {
                    return self.on_filled(d);
                },
                IoOutcome::NotReady => {
                    if self.w_off < self.buf.len() {
                        return self.drain();
                    } else {
                        self.stage = CopyStage::Idle;
                        return PollStep::Pending;
                    }
                },
                IoOutcome::Failed(e) => {
                    return self.fail(StreamCopyError::ReadFailed(e));
                },
                _ => {},
            },
            CopyStage::AwaitWrite => match ev {
                IoOutcome::Wrote(n) => {
                    return self.on_wrote(n);
                },
                IoOutcome::NotReady => {
                    self.stage = CopyStage::Idle;
                    return PollStep::Pending;
                },
                IoOutcome::Failed(e) => {
                    return self.fail(StreamCopyError::WriteFailed(e));
                },
                _ => {},
            },
            _ => {},
        }
        self.begin()
    }
}

} // verus!
