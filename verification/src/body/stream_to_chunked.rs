//! Re-framing a body that runs until its source ends as a chunked body.
//!
//! Whatever the source has buffered when it is looked at becomes one chunk,
//! cut to the size of the copy buffer; the end of the source becomes the
//! last chunk. No trailer is written.

use vstd::prelude::*;
use vstd::slice::slice_subrange;

use crate::body::reader::{window, window_of};
use crate::chunked::frame::{
    chunk_frame, chunks_sized, frames, joined, last_chunk, push_chunk_frame, push_last_chunk,
};
use crate::copy_config::StreamCopyConfig;
use crate::io::{sat_add, IoEvent, IoFailure, IoOutcome, IoRequest, PollStep, StreamCopyError};
use crate::stream_copy::{sat_round, CopyStage};

verus! {

/// The state of the re-framing as contracts see it.
pub struct EncodeModel {
    /// The frame, or the last chunk, that is on its way to the sink.
    pub out: Seq<u8>,
    /// How much of it the sink has accepted.
    pub w_off: nat,
    /// How many payload bytes it carries.
    pub in_flight: nat,
    /// The longest chunk written.
    pub chunk_max: nat,
    pub yield_size: nat,
    /// Whether the source has ended.
    pub read_done: bool,
    /// Whether anything moved since the flag was last reset.
    pub active: bool,
    /// The payload bytes of all chunks that the sink has accepted in full,
    /// held at `u64::MAX`.
    pub total_write: nat,
    /// The payload bytes that the sink has accepted in this round.
    pub round_copied: nat,
    pub stage: CopyStage,
    /// How many source bytes the last poll consumed.
    pub consumed: nat,
    /// Every byte consumed from the source so far.
    pub taken: Seq<u8>,
    /// Every byte the sink has accepted so far.
    pub sent: Seq<u8>,
    /// The chunks made so far.
    pub chunks: Seq<Seq<u8>>,
}

impl EncodeModel {
    /// A re-framing that has not moved anything yet.
    pub open spec fn init(chunk_max: nat, yield_size: nat) -> EncodeModel {
        EncodeModel {
            out: Seq::empty(),
            w_off: 0,
            in_flight: 0,
            chunk_max,
            yield_size,
            read_done: false,
            active: false,
            total_write: 0,
            round_copied: 0,
            stage: CopyStage::Idle,
            consumed: 0,
            taken: Seq::empty(),
            sent: Seq::empty(),
            chunks: Seq::empty(),
        }
    }

    /// The bytes that the sink has not accepted yet.
    pub open spec fn pending(self) -> Seq<u8> {
        self.out.skip(self.w_off as int)
    }

    /// Everything that has been framed so far.
    pub open spec fn framed(self) -> Seq<u8> {
        if self.read_done {
            frames(self.chunks) + last_chunk()
        } else {
            frames(self.chunks)
        }
    }

    /// Whether the frame on its way and the record of what was taken and
    /// sent agree with one another.
    pub open spec fn consistent(self) -> bool {
        &&& self.w_off <= self.out.len()
        &&& 1 <= self.chunk_max <= usize::MAX
        &&& self.yield_size >= 1
        &&& chunks_sized(self.chunks)
        &&& joined(self.chunks) == self.taken
        &&& self.sent + self.pending() == self.framed()
        &&& self.in_flight <= self.taken.len()
        &&& self.total_write == sat_add(0, (self.taken.len() - self.in_flight) as nat)
        &&& self.w_off >= self.out.len() ==> self.in_flight == 0
    }

    /// What holds of a re-framing between any two polls: it is
    /// consistent, and it waits only for what can happen.
    pub open spec fn inv(self) -> bool {
        &&& self.consistent()
        &&& self.stage is Done ==> self.read_done && self.w_off >= self.out.len()
        &&& self.stage is AwaitFill ==> !self.read_done && self.w_off >= self.out.len()
        &&& self.stage is AwaitWrite ==> self.w_off < self.out.len()
    }

    /// Whether the last chunk has been accepted by the sink.
    pub open spec fn finished(self) -> bool {
        self.read_done && self.w_off >= self.out.len()
    }

    /// The re-framing has failed; the next poll starts over.
    pub open spec fn fail(self, e: StreamCopyError) -> (EncodeModel, PollStep) {
        (EncodeModel { stage: CopyStage::Idle, ..self }, PollStep::Failed(e))
    }

    /// Goes on with whatever is due: the rest of a frame, the end, a
    /// yield or the next look at the source.
    pub open spec fn proceed(self) -> (EncodeModel, PollStep) {
        if self.w_off < self.out.len() {
            (EncodeModel { stage: CopyStage::AwaitWrite, ..self }, PollStep::Io(IoRequest::Write))
        } else if self.read_done {
            (EncodeModel { stage: CopyStage::Done, ..self }, PollStep::Done(
                self.total_write as u64,
            ))
        } else if self.round_copied >= self.yield_size {
            (EncodeModel { stage: CopyStage::Idle, round_copied: 0, ..self }, PollStep::Yield)
        } else {
            (EncodeModel { stage: CopyStage::AwaitFill, ..self }, PollStep::Io(IoRequest::Fill))
        }
    }

    /// Starts a round.
    pub open spec fn begin(self) -> (EncodeModel, PollStep) {
        EncodeModel { round_copied: 0, ..self }.proceed()
    }

    /// The source has `d` buffered; nothing at all means that it has ended.
    pub open spec fn on_filled(self, d: Seq<u8>) -> (EncodeModel, PollStep) {
        if d.len() == 0 {
            EncodeModel {
                out: last_chunk(),
                w_off: 0,
                in_flight: 0,
                read_done: true,
                ..self
            }.proceed()
        } else {
            let c = window_of(d, self.chunk_max as usize);
            EncodeModel {
                out: chunk_frame(c),
                w_off: 0,
                in_flight: c.len(),
                taken: self.taken + c,
                chunks: self.chunks.push(c),
                consumed: c.len(),
                active: true,
                ..self
            }.proceed()
        }
    }

    /// The sink has accepted `n` of the pending bytes.
    pub open spec fn on_wrote(self, n: nat) -> (EncodeModel, PollStep) {
        if n == 0 {
            self.fail(StreamCopyError::WriteFailed(IoFailure::WriteZero))
        } else {
            let s = EncodeModel {
                w_off: self.w_off + n,
                sent: self.sent + self.pending().take(n as int),
                active: true,
                ..self
            };
            if s.w_off >= s.out.len() {
                EncodeModel {
                    total_write: sat_add(s.total_write, s.in_flight),
                    round_copied: sat_round(s.round_copied, s.in_flight),
                    in_flight: 0,
                    ..s
                }.proceed()
            } else {
                s.proceed()
            }
        }
    }

    /// One poll: the state after it and the answer it gives.
    pub open spec fn step(self, ev: IoEvent) -> (EncodeModel, PollStep) {
        let s = EncodeModel { consumed: 0, ..self };
        match (s.stage, ev) {
            (CopyStage::AwaitFill, IoEvent::Filled(d)) => s.on_filled(d),
            (CopyStage::AwaitFill, IoEvent::NotReady) => (
                EncodeModel { stage: CopyStage::Idle, ..s },
                PollStep::Pending,
            ),
            (CopyStage::AwaitFill, IoEvent::Failed(e)) => s.fail(StreamCopyError::ReadFailed(e)),
            (CopyStage::AwaitWrite, IoEvent::Wrote(n)) => s.on_wrote(n),
            (CopyStage::AwaitWrite, IoEvent::NotReady) => (
                EncodeModel { stage: CopyStage::Idle, ..s },
                PollStep::Pending,
            ),
            (CopyStage::AwaitWrite, IoEvent::Failed(e)) => s.fail(
                StreamCopyError::WriteFailed(e),
            ),
            _ => s.begin(),
        }
    }

    /// Whether `ev` is something a sink or a source can report in this
    /// state: a sink accepts no more than it was offered.
    pub open spec fn admits(self, ev: IoEvent) -> bool {
        ev matches IoEvent::Wrote(n) ==> (self.stage is AwaitWrite ==> n <= self.pending().len())
    }

    /// Whether `t` is in order and continues `self`: same settings, and
    /// nothing taken back of what was taken, sent or counted.
    pub open spec fn continued_by(self, t: EncodeModel) -> bool {
        &&& t.inv()
        &&& t.chunk_max == self.chunk_max
        &&& t.yield_size == self.yield_size
        &&& self.taken.is_prefix_of(t.taken)
        &&& self.sent.is_prefix_of(t.sent)
        &&& t.total_write >= self.total_write
    }
}

/// A fresh re-framing is in order.
pub proof fn lemma_encode_init_inv(chunk_max: nat, yield_size: nat)
    requires
        1 <= chunk_max <= usize::MAX,
        yield_size >= 1,
    ensures
        EncodeModel::init(chunk_max, yield_size).inv(),
{
    let m = EncodeModel::init(chunk_max, yield_size);
    assert(m.sent + m.pending() =~= Seq::<u8>::empty());
}

proof fn lemma_on_filled_inv(m: EncodeModel, d: Seq<u8>)
    requires
        m.inv(),
        m.stage is AwaitFill,
    ensures
        m.continued_by(m.on_filled(d).0),
{
    assert(m.pending() =~= Seq::<u8>::empty());
    assert(m.sent + m.pending() =~= m.sent);
    if d.len() == 0 {
        let t = EncodeModel { out: last_chunk(), w_off: 0, in_flight: 0, read_done: true, ..m };
        assert(t.pending() =~= last_chunk());
        assert(t.sent + t.pending() == t.framed());
        assert(t.proceed().0.pending() == t.pending());
    } else {
        let c = window_of(d, m.chunk_max as usize);
        let t = EncodeModel {
            out: chunk_frame(c),
            w_off: 0,
            in_flight: c.len(),
            taken: m.taken + c,
            chunks: m.chunks.push(c),
            consumed: c.len(),
            active: true,
            ..m
        };
        assert(t.pending() =~= chunk_frame(c));
        assert(t.chunks.drop_last() =~= m.chunks);
        assert(t.chunks.last() == c);
        assert(chunks_sized(t.chunks)) by {
            assert forall|i: int| 0 <= i < t.chunks.len() implies 1 <= (
            #[trigger] t.chunks[i]).len() <= u64::MAX by {
                if i < m.chunks.len() {
                    assert(t.chunks[i] == m.chunks[i]);
                }
            }
        }
        assert(t.sent + t.pending() == t.framed());
        assert(joined(t.chunks) == t.taken);
        assert(t.proceed().0.pending() == t.pending());
        assert(m.taken.is_prefix_of(t.taken));
    }
}

proof fn lemma_on_wrote_inv(m: EncodeModel, n: nat)
    requires
        m.inv(),
        n <= m.pending().len(),
    ensures
        m.continued_by(m.on_wrote(n).0),
{
    if n > 0 {
        let s = EncodeModel {
            w_off: m.w_off + n,
            sent: m.sent + m.pending().take(n as int),
            active: true,
            ..m
        };
        assert(s.sent + s.pending() =~= m.sent + m.pending());
        assert(m.sent.is_prefix_of(s.sent));
    }
}

/// Every poll keeps a re-framing in order, never takes back what it has
/// taken or sent, and never lowers its byte count.
pub proof fn lemma_encode_step_inv(m: EncodeModel, ev: IoEvent)
    requires
        m.inv(),
        m.admits(ev),
    ensures
        m.continued_by(m.step(ev).0),
{
    let s = EncodeModel { consumed: 0, ..m };
    assert(s.pending() == m.pending());
    match (s.stage, ev) {
        (CopyStage::AwaitFill, IoEvent::Filled(d)) => {
            lemma_on_filled_inv(s, d);
        },
        (CopyStage::AwaitWrite, IoEvent::Wrote(n)) => {
            lemma_on_wrote_inv(s, n);
        },
        _ => {},
    }
}

/// Re-frames a body that runs until its source ends as a chunked body
/// without trailer, driven by polls.
pub struct StreamToChunkedTransfer {
    out: Vec<u8>,
    w_off: usize,
    in_flight: usize,
    chunk_max: usize,
    yield_size: usize,
    read_done: bool,
    active: bool,
    total_write: u64,
    round_copied: usize,
    stage: CopyStage,
    consumed: usize,
    taken: Ghost<Seq<u8>>,
    sent: Ghost<Seq<u8>>,
    chunks: Ghost<Seq<Seq<u8>>>,
}

impl View for StreamToChunkedTransfer {
    type V = EncodeModel;

    closed spec fn view(&self) -> EncodeModel {
        EncodeModel {
            out: self.out@,
            w_off: self.w_off as nat,
            in_flight: self.in_flight as nat,
            chunk_max: self.chunk_max as nat,
            yield_size: self.yield_size as nat,
            read_done: self.read_done,
            active: self.active,
            total_write: self.total_write as nat,
            round_copied: self.round_copied as nat,
            stage: self.stage,
            consumed: self.consumed as nat,
            taken: self.taken@,
            sent: self.sent@,
            chunks: self.chunks@,
        }
    }
}

impl StreamToChunkedTransfer {
    /// Whether the re-framing is in order.
    pub open spec fn wf(&self) -> bool {
        self@.inv()
    }

    /// A re-framing that writes no trailer. Chunks are no longer than the
    /// buffer size of `config`.
    pub fn new_with_no_trailer(config: StreamCopyConfig) -> (r: Self)
        ensures
            r.wf(),
            r@ == EncodeModel::init(
                config.spec_buffer_size() as nat,
                config.spec_yield_size() as nat,
            ),
    {
        let chunk_max: usize = config.buffer_size();
        let yield_size: usize = config.yield_size();
        proof {
            lemma_encode_init_inv(chunk_max as nat, yield_size as nat);
        }
        StreamToChunkedTransfer {
            out: Vec::new(),
            w_off: 0,
            in_flight: 0,
            chunk_max,
            yield_size,
            read_done: false,
            active: false,
            total_write: 0,
            round_copied: 0,
            stage: CopyStage::Idle,
            consumed: 0,
            taken: Ghost(Seq::empty()),
            sent: Ghost(Seq::empty()),
            chunks: Ghost(Seq::empty()),
        }
    }

    /// The bytes to offer to the sink when the re-framing asks for a write.
    pub fn pending_write(&self) -> (r: &[u8])
        requires
            self.wf(),
        ensures
            r@ == self@.pending(),
    {
        slice_subrange(self.out.as_slice(), self.w_off, self.out.len())
    }

    /// How many of the bytes shown to it the last poll consumed from the
    /// source.
    pub fn consumed(&self) -> (r: usize)
        ensures
            r == self@.consumed,
    {
        self.consumed
    }

    /// Whether anything moved since the flag was last reset.
    pub fn is_active(&self) -> (r: bool)
        ensures
            r == self@.active,
    {
        self.active
    }

    /// Whether nothing moved since the flag was last reset.
    pub fn is_idle(&self) -> (r: bool)
        ensures
            r == !self@.active,
    {
        !self.active
    }

    /// Clears the activity flag.
    pub fn reset_active(&mut self)
        ensures
            final(self)@ == (EncodeModel { active: false, ..old(self)@ }),
    {
        self.active = false;
    }

    /// Whether no framed byte waits for the sink.
    pub fn no_cached_data(&self) -> (r: bool)
        ensures
            r == (self@.w_off >= self@.out.len()),
    {
        self.w_off >= self.out.len()
    }

    /// Whether the last chunk has been accepted by the sink.
    pub fn finished(&self) -> (r: bool)
        ensures
            r == self@.finished(),
    {
        self.read_done && self.w_off >= self.out.len()
    }

    fn fail(&mut self, e: StreamCopyError) -> (r: PollStep)
        ensures
            (final(self)@, r) == old(self)@.fail(e),
    {
        self.stage = CopyStage::Idle;
        PollStep::Failed(e)
    }

    fn proceed(&mut self) -> (r: PollStep)
        ensures
            (final(self)@, r) == old(self)@.proceed(),
    {
        if self.w_off < self.out.len() {
            self.stage = CopyStage::AwaitWrite;
            PollStep::Io(IoRequest::Write)
        } else if self.read_done {
            self.stage = CopyStage::Done;
            PollStep::Done(self.total_write)
        } else if self.round_copied >= self.yield_size {
            self.stage = CopyStage::Idle;
            self.round_copied = 0;
            PollStep::Yield
        } else {
            self.stage = CopyStage::AwaitFill;
            PollStep::Io(IoRequest::Fill)
        }
    }

    fn on_filled(&mut self, d: &[u8]) -> (r: PollStep)
        requires
            old(self)@.inv(),
        ensures
            (final(self)@, r) == old(self)@.on_filled(d@),
    {
        self.out.clear();
        self.w_off = 0;
        if d.len() == 0 {
            push_last_chunk(&mut self.out);
            self.in_flight = 0;
            self.read_done = true;
            proof {
                assert(self.out@ =~= last_chunk());
            }
        } else {
            let c = window(d, self.chunk_max);
            push_chunk_frame(c, &mut self.out);
            self.in_flight = c.len();
            self.consumed = c.len();
            self.active = true;
            proof {
                assert(self.out@ =~= chunk_frame(c@));
                self.taken@ = self.taken@ + c@;
                self.chunks@ = self.chunks@.push(c@);
            }
        }
        self.proceed()
    }

    fn on_wrote(&mut self, n: usize) -> (r: PollStep)
        requires
            old(self)@.inv(),
            n <= old(self)@.pending().len(),
        ensures
            (final(self)@, r) == old(self)@.on_wrote(n as nat),
    {
        if n == 0 {
            self.fail(StreamCopyError::WriteFailed(IoFailure::WriteZero))
        } else {
            let ghost piece = self@.pending().take(n as int);
            let len: usize = self.out.len();
            assert(self.w_off + n <= len);
            self.w_off = self.w_off + n;
            proof {
                self.sent@ = self.sent@ + piece;
            }
            self.active = true;
            if self.w_off >= len {
                self.total_write = if self.in_flight as u64 > u64::MAX - self.total_write {
                    u64::MAX
                } else {
                    self.total_write + self.in_flight as u64
                };
                self.round_copied = if self.in_flight > usize::MAX - self.round_copied {
                    usize::MAX
                } else {
                    self.round_copied + self.in_flight
                };
                self.in_flight = 0;
            }
            self.proceed()
        }
    }

    /// Takes the outcome of the call the re-framing last asked for and says
    /// what to do next. After a fill, [`Self::consumed`] tells how many
    /// bytes are to be consumed from the source.
    pub fn poll(&mut self, ev: IoOutcome<'_>) -> (r: PollStep)
        requires
            old(self).wf(),
            old(self)@.admits(ev@),
        ensures
            final(self).wf(),
            (final(self)@, r) == old(self)@.step(ev@),
            old(self)@.continued_by(final(self)@),
    {
        proof {
            lemma_encode_step_inv(self@, ev@);
        }
        self.consumed = 0;
        match self.stage {
            CopyStage::AwaitFill => match ev {
                IoOutcome::Filled(d) => {
                    return self.on_filled(d);
                },
                IoOutcome::NotReady => {
                    self.stage = CopyStage::Idle;
                    return PollStep::Pending;
                },
                IoOutcome::Failed(e) => {
                    return self.fail(StreamCopyError::ReadFailed(e));
                },
                _ => {},
            },
            CopyStage::AwaitWrite => match ev {
                IoOutcome::Wrote(n) => {
                    return self.on_wrote(n);
                },
                IoOutcome::NotReady => {
                    self.stage = CopyStage::Idle;
                    return PollStep::Pending;
                },
                IoOutcome::Failed(e) => {
                    return self.fail(StreamCopyError::WriteFailed(e));
                },
                _ => {},
            },
            _ => {},
        }
        self.round_copied = 0;
        self.proceed()
    }
}

impl EncodeModel {
    /// Whether the re-framing waits for what the answer `r` asks for.
    pub open spec fn answers(self, r: PollStep) -> bool {
        match r {
            PollStep::Io(IoRequest::Fill) => self.stage is AwaitFill,
            PollStep::Io(IoRequest::Write) => self.stage is AwaitWrite,
            PollStep::Io(IoRequest::Flush) => false,
            PollStep::Yield => self.stage is Idle && !self.read_done && self.w_off
                >= self.out.len() && self.round_copied == 0,
            PollStep::Pending => self.stage is Idle,
            PollStep::Done(n) => self.stage is Done && n == self.total_write,
            PollStep::Failed(_) => self.stage is Idle,
        }
    }
}

/// After every poll a re-framing waits for what its answer asks for; it
/// answers that it must wait only when it was told that a call would
/// block, and it fails only when it was told of a failure or of a write
/// of nothing.
pub proof fn lemma_encode_answers(m: EncodeModel, ev: IoEvent)
    requires
        m.inv(),
        m.admits(ev),
    ensures
        m.step(ev).0.answers(m.step(ev).1),
        !(ev is NotReady) ==> !(m.step(ev).1 is Pending),
        m.step(ev).1 is Failed ==> ev is Failed || ev == IoEvent::Wrote(0),
        m.read_done ==> m.step(ev).0.read_done,
{
    lemma_encode_step_inv(m, ev);
}

/// A sink that accepts all that it is offered moves a re-framing on: the
/// pending bytes are sent, nothing is taken, and the re-framing is
/// complete, yields or asks for a fill.
pub proof fn lemma_encode_write_all(m: EncodeModel)
    requires
        m.inv(),
        m.stage is AwaitWrite,
    ensures
        ({
            let (t, r) = m.step(IoEvent::Wrote(m.pending().len()));
            &&& r is Done || r is Yield || r == PollStep::Io(IoRequest::Fill)
            &&& t.sent == m.sent + m.pending()
            &&& t.taken == m.taken
            &&& t.chunks == m.chunks
            &&& t.read_done == m.read_done
            &&& t.consumed == 0
        }),
{
    let n = m.pending().len();
    let s = EncodeModel { consumed: 0, ..m };
    assert(s.pending() == m.pending());
    assert(s.pending().take(n as int) =~= s.pending());
}

/// A re-framing that has yielded asks for a fill when it is polled again.
pub proof fn lemma_encode_after_yield(m: EncodeModel)
    requires
        m.inv(),
        m.answers(PollStep::Yield),
    ensures
        ({
            let (t, r) = m.step(IoEvent::Begin);
            &&& r == PollStep::Io(IoRequest::Fill)
            &&& t.sent == m.sent
            &&& t.taken == m.taken
            &&& t.chunks == m.chunks
            &&& t.read_done == m.read_done
            &&& t.consumed == 0
        }),
{
}

/// What a fill does to a re-framing: bytes become the next chunk, as many
/// as fit in one, and the end of the source becomes the last chunk. Either
/// way the re-framing asks for a write next.
pub proof fn lemma_encode_fill(m: EncodeModel, d: Seq<u8>)
    requires
        m.inv(),
        m.stage is AwaitFill,
    ensures
        ({
            let (t, r) = m.step(IoEvent::Filled(d));
            let c = window_of(d, m.chunk_max as usize);
            &&& r == PollStep::Io(IoRequest::Write)
            &&& t.sent == m.sent
            &&& d.len() == 0 ==> t.read_done && t.taken == m.taken && t.chunks == m.chunks
                && t.consumed == 0
            &&& d.len() > 0 ==> {
                &&& !t.read_done
                &&& t.consumed == c.len()
                &&& 1 <= t.consumed <= d.len()
                &&& t.taken == m.taken + c
                &&& t.chunks == m.chunks.push(c)
            }
        }),
{
    if d.len() == 0 {
        let s = EncodeModel { consumed: 0, ..m };
        let t = EncodeModel { out: last_chunk(), w_off: 0, in_flight: 0, read_done: true, ..s };
        assert(t.out.len() == 5);
    } else {
        let s = EncodeModel { consumed: 0, ..m };
        let c = window_of(d, s.chunk_max as usize);
        assert(chunk_frame(c).len() >= 1);
    }
}

/// A re-framing asks for nothing in vain: it asks for a write only while
/// framed bytes wait for the sink, for a fill only while the source has
/// not ended, and never for a flush. When it reports that it is complete,
/// everything framed has been sent, and the number reported is the number
/// of bytes taken from the source.
pub proof fn lemma_encode_requests_are_sound(m: EncodeModel, ev: IoEvent)
    requires
        m.inv(),
        m.admits(ev),
    ensures
        m.step(ev).1 == PollStep::Io(IoRequest::Write) ==> m.step(ev).0.pending().len() > 0,
        m.step(ev).1 == PollStep::Io(IoRequest::Fill) ==> !m.step(ev).0.read_done,
        m.step(ev).1 != PollStep::Io(IoRequest::Flush),
        m.step(ev).1 matches PollStep::Done(n) ==> {
            let t = m.step(ev).0;
            &&& t.sent == frames(t.chunks) + last_chunk()
            &&& joined(t.chunks) == t.taken
            &&& n == sat_add(0, t.taken.len())
        },
{
    lemma_encode_step_inv(m, ev);
    let t = m.step(ev).0;
    if m.step(ev).1 is Done {
        assert(t.pending() =~= Seq::<u8>::empty());
        assert(t.sent + t.pending() =~= t.sent);
    }
}

} // verus!
