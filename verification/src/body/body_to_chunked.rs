//! Presenting a body of any type as a chunked body.
//!
//! A body of known length becomes one chunk: its size line is sent ahead,
//! the body is copied, and CR LF with the last chunk closes it. A body that
//! runs until the source ends is cut into chunks as it arrives. A body that
//! is chunked already is copied as it stands, up to its last byte. No
//! trailer is ever generated.

use vstd::prelude::*;
use vstd::slice::slice_subrange;

use crate::body::body_type::HttpBodyType;
use crate::body::reader::HttpBodyReader;
use crate::body::stream_to_chunked::{
    lemma_encode_init_inv, lemma_encode_requests_are_sound, lemma_encode_step_inv, EncodeModel,
    StreamToChunkedTransfer,
};
use crate::chunked::frame::{closing_bytes, crlf, push_closing_bytes, push_size_line};
use crate::chunked::hex::{hex_digits, lemma_hex_round_trip};
use crate::chunked::phase::{BodyPhase, ScanRules};
use crate::copy_config::StreamCopyConfig;
use crate::io::{sat_add, IoEvent, IoFailure, IoOutcome, IoRequest, PollStep, StreamCopyError};
use crate::stream_copy::{
    lemma_copy_done, lemma_copy_init_inv, lemma_copy_requests_are_sound, lemma_copy_step_inv,
    CopyModel, StreamCopy,
};

verus! {

/// Where a transfer stands.
#[derive(Clone, Copy, Debug, PartialEq, Eq, Structural)]
pub enum TransferState {
    /// Sending the size line that goes ahead of the copy.
    SendHead,
    /// Copying the body.
    Copy,
    /// Sending what closes a body of known length: CR LF and the last
    /// chunk.
    SendTerminator,
    /// Cutting a body that runs until the end into chunks.
    Encode,
    /// Everything is written; the sink is still to be flushed.
    FlushEnd,
    /// Nothing is left to do.
    Done,
}

/// The state of a transfer as contracts see it.
pub struct TransferModel {
    pub body_type: HttpBodyType,
    pub state: TransferState,
    /// The size line sent ahead of the copy; empty where there is none.
    pub head: Seq<u8>,
    /// How much of `head` the sink has accepted.
    pub head_off: nat,
    /// Where in the closing bytes this transfer starts to send.
    pub end_start: nat,
    /// Up to where the sink has accepted the closing bytes.
    pub end_off: nat,
    /// The copy; it stays untouched where the body is re-framed instead.
    pub copy: CopyModel,
    /// The re-framing; it stays untouched where the body is copied.
    pub encode: EncodeModel,
    /// The payload bytes of the parts that are complete, held at
    /// `u64::MAX`.
    pub total_write: nat,
    /// Whether anything moved since the flag was last reset.
    pub active: bool,
    /// How many source bytes the last poll consumed.
    pub consumed: nat,
}

impl TransferModel {
    /// The rules under which a body of `body_type` is read.
    pub open spec fn rules_for(line_max: usize) -> ScanRules {
        ScanRules { line_max, decode: false }
    }

    /// The size line of a chunk of `n` bytes.
    pub open spec fn size_line(n: u64) -> Seq<u8> {
        hex_digits(n as nat) + crlf()
    }

    /// A transfer of a body of `len` bytes.
    pub open spec fn init_fixed(len: u64, capacity: nat, yield_size: nat) -> TransferModel {
        TransferModel {
            body_type: HttpBodyType::FixedLength(len),
            state: if len == 0 {
                TransferState::SendTerminator
            } else {
                TransferState::SendHead
            },
            head: if len == 0 {
                Seq::empty()
            } else {
                Self::size_line(len)
            },
            head_off: 0,
            end_start: if len == 0 {
                2
            } else {
                0
            },
            end_off: if len == 0 {
                2
            } else {
                0
            },
            copy: CopyModel::init(
                BodyPhase::Fixed { left: len },
                Self::rules_for(0),
                capacity,
                yield_size,
            ),
            encode: EncodeModel::init(capacity, yield_size),
            total_write: 0,
            active: false,
            consumed: 0,
        }
    }

    /// A transfer of a body that runs until the source ends.
    pub open spec fn init_until_end(capacity: nat, yield_size: nat) -> TransferModel {
        TransferModel {
            body_type: HttpBodyType::ReadUntilEnd,
            state: TransferState::Encode,
            head: Seq::empty(),
            head_off: 0,
            end_start: 0,
            end_off: 0,
            copy: CopyModel::init(BodyPhase::UntilEnd, Self::rules_for(0), capacity, yield_size),
            encode: EncodeModel::init(capacity, yield_size),
            total_write: 0,
            active: false,
            consumed: 0,
        }
    }

    /// A transfer of a chunked body of whose first chunk `left` data bytes
    /// are still to come; with `left == 0`, of a chunked body from its
    /// start.
    pub open spec fn init_chunked(left: u64, line_max: usize, capacity: nat, yield_size: nat)
        -> TransferModel {
        TransferModel {
            body_type: HttpBodyType::Chunked,
            state: if left == 0 {
                TransferState::Copy
            } else {
                TransferState::SendHead
            },
            head: if left == 0 {
                Seq::empty()
            } else {
                Self::size_line(left)
            },
            head_off: 0,
            end_start: 0,
            end_off: 0,
            copy: CopyModel::init(
                if left == 0 {
                    BodyPhase::chunk_start()
                } else {
                    BodyPhase::Data { left }
                },
                Self::rules_for(line_max),
                capacity,
                yield_size,
            ),
            encode: EncodeModel::init(capacity, yield_size),
            total_write: 0,
            active: false,
            consumed: 0,
        }
    }

    /// A transfer of a body of the given type.
    pub open spec fn init(
        body_type: HttpBodyType,
        line_max: usize,
        capacity: nat,
        yield_size: nat,
    ) -> TransferModel {
        match body_type {
            HttpBodyType::FixedLength(len) => Self::init_fixed(len, capacity, yield_size),
            HttpBodyType::ReadUntilEnd => Self::init_until_end(capacity, yield_size),
            HttpBodyType::Chunked => Self::init_chunked(0, line_max, capacity, yield_size),
        }
    }

    /// Whether the body is re-framed rather than copied.
    pub open spec fn reframes(self) -> bool {
        self.body_type is ReadUntilEnd
    }

    /// Every byte consumed from the source so far.
    pub open spec fn taken(self) -> Seq<u8> {
        if self.reframes() {
            self.encode.taken
        } else {
            self.copy.taken
        }
    }

    /// Every byte the sink has accepted so far.
    pub open spec fn sent(self) -> Seq<u8> {
        if self.reframes() {
            self.encode.sent
        } else {
            self.head.take(self.head_off as int) + self.copy.sent + closing_bytes().subrange(
                self.end_start as int,
                self.end_off as int,
            )
        }
    }

    /// The bytes to offer to the sink next.
    pub open spec fn pending(self) -> Seq<u8> {
        match self.state {
            TransferState::SendHead => self.head.skip(self.head_off as int),
            TransferState::Copy => self.copy.pending(),
            TransferState::SendTerminator => closing_bytes().skip(self.end_off as int),
            TransferState::Encode => self.encode.pending(),
            _ => Seq::empty(),
        }
    }

    /// Whether every byte of the chunked body has been accepted by the sink.
    pub open spec fn finished(self) -> bool {
        self.state is FlushEnd || self.state is Done
    }

    /// Whether the transfer holds no byte that the sink has not accepted.
    pub open spec fn no_cached_data(self) -> bool {
        match self.state {
            TransferState::SendHead => false,
            TransferState::SendTerminator => false,
            TransferState::Copy => self.copy.w_off >= self.copy.buf.len(),
            TransferState::Encode => self.encode.w_off >= self.encode.out.len(),
            _ => true,
        }
    }

    /// The transfer with its activity flags cleared.
    pub open spec fn reset(self) -> TransferModel {
        TransferModel {
            active: false,
            copy: if self.state is Copy {
                CopyModel { active: false, ..self.copy }
            } else {
                self.copy
            },
            encode: if self.state is Encode {
                EncodeModel { active: false, ..self.encode }
            } else {
                self.encode
            },
            ..self
        }
    }

    /// Whether `ev` is something a sink or a source can report in this
    /// state: a sink accepts no more than it was offered.
    pub open spec fn admits(self, ev: IoEvent) -> bool {
        match self.state {
            TransferState::Copy => self.copy.admits(ev),
            TransferState::Encode => self.encode.admits(ev),
            _ => ev matches IoEvent::Wrote(n) ==> n <= self.pending().len(),
        }
    }

    /// The copy is complete with `n` bytes: a body of known length is
    /// closed next, a chunked one is done.
    pub open spec fn copy_done(self, n: u64) -> (TransferModel, PollStep) {
        let s = TransferModel {
            total_write: sat_add(self.total_write, n as nat),
            active: true,
            ..self
        };
        if s.body_type is FixedLength {
            (
                TransferModel { state: TransferState::SendTerminator, ..s },
                PollStep::Io(IoRequest::Write),
            )
        } else {
            (
                TransferModel { state: TransferState::Done, ..s },
                PollStep::Done(s.total_write as u64),
            )
        }
    }

    /// Polls the copy and acts on its answer.
    pub open spec fn run_copy(self, ev: IoEvent) -> (TransferModel, PollStep) {
        let (c, r) = self.copy.step(ev);
        let s = TransferModel { copy: c, consumed: c.consumed, ..self };
        match r {
            PollStep::Done(n) => s.copy_done(n),
            PollStep::Pending => (TransferModel { active: s.active || c.active, ..s }, r),
            PollStep::Yield => (TransferModel { active: s.active || c.active, ..s }, r),
            _ => (s, r),
        }
    }

    /// Polls the re-framing and acts on its answer.
    pub open spec fn run_encode(self, ev: IoEvent) -> (TransferModel, PollStep) {
        let (e, r) = self.encode.step(ev);
        let s = TransferModel { encode: e, consumed: e.consumed, ..self };
        match r {
            PollStep::Done(n) => {
                let total = sat_add(s.total_write, n as nat);
                (
                    TransferModel {
                        state: TransferState::Done,
                        total_write: total,
                        active: true,
                        ..s
                    },
                    PollStep::Done(total as u64),
                )
            },
            PollStep::Pending => (TransferModel { active: s.active || e.active, ..s }, r),
            PollStep::Yield => (TransferModel { active: s.active || e.active, ..s }, r),
            _ => (s, r),
        }
    }

    /// One poll while the size line is being sent.
    pub open spec fn send_head(self, ev: IoEvent) -> (TransferModel, PollStep) {
        match ev {
            IoEvent::Wrote(n) => {
                if n == 0 {
                    (self, PollStep::Failed(StreamCopyError::WriteFailed(IoFailure::WriteZero)))
                } else if self.head_off + n < self.head.len() {
                    (
                        TransferModel { head_off: self.head_off + n, ..self },
                        PollStep::Io(IoRequest::Write),
                    )
                } else {
                    TransferModel {
                        head_off: self.head_off + n,
                        state: TransferState::Copy,
                        active: true,
                        ..self
                    }.run_copy(IoEvent::Begin)
                }
            },
            IoEvent::NotReady => (self, PollStep::Pending),
            IoEvent::Failed(e) => (self, PollStep::Failed(StreamCopyError::WriteFailed(e))),
            _ => (self, PollStep::Io(IoRequest::Write)),
        }
    }

    /// One poll while the closing bytes are being sent.
    pub open spec fn send_end(self, ev: IoEvent) -> (TransferModel, PollStep) {
        match ev {
            IoEvent::Wrote(n) => {
                if n == 0 {
                    (self, PollStep::Failed(StreamCopyError::WriteFailed(IoFailure::WriteZero)))
                } else if self.end_off + n < closing_bytes().len() {
                    (
                        TransferModel { end_off: self.end_off + n, ..self },
                        PollStep::Io(IoRequest::Write),
                    )
                } else {
                    (
                        TransferModel {
                            end_off: self.end_off + n,
                            state: TransferState::FlushEnd,
                            active: true,
                            ..self
                        },
                        PollStep::Done(self.total_write as u64),
                    )
                }
            },
            IoEvent::NotReady => (self, PollStep::Pending),
            IoEvent::Failed(e) => (self, PollStep::Failed(StreamCopyError::WriteFailed(e))),
            _ => (self, PollStep::Io(IoRequest::Write)),
        }
    }

    /// One poll while the sink is to be flushed.
    pub open spec fn flush_end(self, ev: IoEvent) -> (TransferModel, PollStep) {
        match ev {
            IoEvent::Flushed => (
                TransferModel { state: TransferState::Done, ..self },
                PollStep::Done(self.total_write as u64),
            ),
            IoEvent::NotReady => (self, PollStep::Pending),
            IoEvent::Failed(e) => (self, PollStep::Failed(StreamCopyError::WriteFailed(e))),
            _ => (self, PollStep::Io(IoRequest::Flush)),
        }
    }

    /// One poll: the state after it and the answer it gives.
    pub open spec fn step(self, ev: IoEvent) -> (TransferModel, PollStep) {
        let s = TransferModel { consumed: 0, ..self };
        match s.state {
            TransferState::SendHead => s.send_head(ev),
            TransferState::Copy => s.run_copy(ev),
            TransferState::SendTerminator => s.send_end(ev),
            TransferState::Encode => s.run_encode(ev),
            TransferState::FlushEnd => s.flush_end(ev),
            TransferState::Done => (s, PollStep::Done(s.total_write as u64)),
        }
    }

    /// Whether the copy has not been polled yet.
    pub open spec fn copy_untouched(self) -> bool {
        &&& self.copy.taken.len() == 0
        &&& self.copy.sent.len() == 0
        &&& self.copy.buf.len() == 0
        &&& self.copy.stage is Idle
        &&& self.copy.phase == self.copy.origin
    }

    /// What holds of a transfer between any two polls.
    pub open spec fn inv(self) -> bool {
        &&& self.copy.inv()
        &&& self.encode.inv()
        &&& !self.copy.rules.decode
        &&& self.head_off <= self.head.len()
        &&& self.end_start <= self.end_off <= closing_bytes().len()
        &&& self.state is SendHead ==> self.head_off < self.head.len()
        &&& self.state is SendTerminator ==> self.end_off < closing_bytes().len()
        &&& self.total_write <= u64::MAX
        &&& match self.body_type {
            HttpBodyType::ReadUntilEnd => {
                &&& self.state is Encode || self.state is Done
                &&& self.state is Done ==> self.encode.stage is Done
                &&& self.state is Done ==> self.total_write == self.encode.total_write
                &&& self.state is Encode ==> self.total_write == 0
            },
            HttpBodyType::FixedLength(n) => {
                &&& self.copy.origin == (BodyPhase::Fixed { left: n })
                &&& !(self.state is Encode)
                &&& if n == 0 {
                    &&& self.head.len() == 0
                    &&& self.end_start == 2
                    &&& !(self.state is SendHead) && !(self.state is Copy)
                    &&& self.copy_untouched()
                    &&& self.total_write == 0
                } else {
                    &&& self.head == Self::size_line(n)
                    &&& self.end_start == 0
                    &&& self.state is SendHead ==> self.copy_untouched()
                    &&& self.state is SendHead || self.state is Copy ==> self.end_off == 0
                        && self.total_write == 0
                    &&& !(self.state is SendHead) ==> self.head_off == self.head.len()
                    &&& !(self.state is SendHead) && !(self.state is Copy) ==> self.copy.stage
                        is Done && self.total_write == self.copy.total_write
                }
                &&& self.state is FlushEnd || self.state is Done ==> self.end_off
                    == closing_bytes().len()
            },
            HttpBodyType::Chunked => {
                &&& self.state is SendHead || self.state is Copy || self.state is Done
                &&& self.end_start == 0 && self.end_off == 0
                &&& match self.copy.origin {
                    BodyPhase::Data { left } => self.head == Self::size_line(left),
                    _ => self.copy.origin == BodyPhase::chunk_start() && self.head.len() == 0,
                }
                &&& self.state is SendHead ==> self.copy_untouched() && self.total_write == 0
                &&& self.state is Copy ==> self.total_write == 0
                &&& !(self.state is SendHead) ==> self.head_off == self.head.len()
                &&& self.state is Done ==> self.copy.stage is Done && self.total_write
                    == self.copy.total_write
            },
        }
    }

    /// Whether `t` is in order and continues `self`: the same kind of
    /// transfer, with nothing taken back of what was taken, sent or
    /// counted.
    pub open spec fn continued_by(self, t: TransferModel) -> bool {
        &&& t.inv()
        &&& t.body_type == self.body_type
        &&& t.head == self.head
        &&& t.copy.origin == self.copy.origin
        &&& t.copy.rules == self.copy.rules
        &&& self.taken().is_prefix_of(t.taken())
        &&& self.sent().is_prefix_of(t.sent())
        &&& t.total_write >= self.total_write
    }
}

/// Putting the same bytes in front and behind keeps a prefix a prefix.
pub proof fn lemma_prefix_framed(h: Seq<u8>, x: Seq<u8>, y: Seq<u8>, t: Seq<u8>)
    requires
        x.is_prefix_of(y),
        x.len() < y.len() ==> t.len() == 0,
    ensures
        (h + x + t).is_prefix_of(h + y + t),
        (h + x).is_prefix_of(h + y + t),
{
    assert((h + y + t).subrange(0, (h + x).len() as int) =~= h + x);
    if x.len() == y.len() {
        assert(x =~= y);
    } else {
        assert(h + x + t =~= h + x);
    }
    assert((h + y + t).subrange(0, (h + x + t).len() as int) =~= h + x + t);
}

/// A fresh transfer is in order.
pub proof fn lemma_transfer_init_inv(
    body_type: HttpBodyType,
    left: u64,
    line_max: usize,
    capacity: nat,
    yield_size: nat,
)
    requires
        1 <= capacity <= usize::MAX,
        yield_size >= 1,
    ensures
        TransferModel::init(body_type, line_max, capacity, yield_size).inv(),
        TransferModel::init_chunked(left, line_max, capacity, yield_size).inv(),
{
    let rules = TransferModel::rules_for(line_max);
    let plain = TransferModel::rules_for(0);
    lemma_hex_round_trip(left as nat);
    if let HttpBodyType::FixedLength(n) = body_type {
        lemma_hex_round_trip(n as nat);
    }
    lemma_encode_init_inv(capacity, yield_size);
    lemma_copy_init_inv(BodyPhase::UntilEnd, plain, capacity, yield_size);
    lemma_copy_init_inv(BodyPhase::chunk_start(), rules, capacity, yield_size);
    if left > 0 {
        lemma_copy_init_inv(BodyPhase::Data { left }, rules, capacity, yield_size);
    }
    if let HttpBodyType::FixedLength(n) = body_type {
        lemma_copy_init_inv(BodyPhase::Fixed { left: n }, plain, capacity, yield_size);
    }
}

proof fn lemma_run_copy_inv(m: TransferModel, ev: IoEvent)
    requires
        m.inv(),
        m.state is Copy,
        m.copy.admits(ev),
    ensures
        m.continued_by(m.run_copy(ev).0),
{
    lemma_copy_step_inv(m.copy, ev);
    lemma_copy_done(m.copy, ev);
    let (c, r) = m.copy.step(ev);
    let t = m.run_copy(ev).0;
    let h = m.head.take(m.head_off as int);
    let e = closing_bytes().subrange(m.end_start as int, m.end_off as int);
    assert(e.len() == 0);
    lemma_prefix_framed(h, m.copy.sent, c.sent, e);
    assert(t.copy == c);
}

proof fn lemma_send_head_inv(m: TransferModel, ev: IoEvent)
    requires
        m.inv(),
        m.state is SendHead,
        m.admits(ev),
    ensures
        m.continued_by(m.send_head(ev).0),
{
    let e = closing_bytes().subrange(m.end_start as int, m.end_off as int);
    assert(e.len() == 0);
    assert(m.copy.sent =~= Seq::<u8>::empty());
    assert(m.sent() =~= m.head.take(m.head_off as int));
    if let IoEvent::Wrote(n) = ev {
        if n > 0 {
            let h2 = m.head.take((m.head_off + n) as int);
            assert(m.head.take(m.head_off as int).is_prefix_of(h2)) by {
                assert(h2.subrange(0, m.head_off as int) =~= m.head.take(m.head_off as int));
            }
            if m.head_off + n < m.head.len() {
                let t = TransferModel { head_off: m.head_off + n, ..m };
                assert(t.sent() =~= h2);
            } else {
                let s = TransferModel {
                    head_off: m.head_off + n,
                    state: TransferState::Copy,
                    active: true,
                    ..m
                };
                assert(s.sent() =~= h2);
                assert(s.inv());
                assert(s.copy.admits(IoEvent::Begin));
                lemma_run_copy_inv(s, IoEvent::Begin);
                let t = s.run_copy(IoEvent::Begin).0;
                assert(m.sent().is_prefix_of(t.sent())) by {
                    assert(t.sent().subrange(0, m.sent().len() as int) =~= s.sent().subrange(
                        0,
                        m.sent().len() as int,
                    ));
                }
                assert(m.taken() =~= s.taken());
            }
        }
    }
}

proof fn lemma_send_end_inv(m: TransferModel, ev: IoEvent)
    requires
        m.inv(),
        m.state is SendTerminator,
        m.admits(ev),
    ensures
        m.continued_by(m.send_end(ev).0),
{
    if let IoEvent::Wrote(n) = ev {
        if n > 0 {
            let t = m.send_end(ev).0;
            let front = m.head.take(m.head_off as int) + m.copy.sent;
            let e1 = closing_bytes().subrange(m.end_start as int, m.end_off as int);
            let e2 = closing_bytes().subrange(m.end_start as int, (m.end_off + n) as int);
            assert(e2.subrange(0, e1.len() as int) =~= e1);
            assert(m.sent() == front + e1);
            assert(t.sent() == front + e2);
            assert((front + e2).subrange(0, (front + e1).len() as int) =~= front + e1);
        }
    }
}

proof fn lemma_run_encode_inv(m: TransferModel, ev: IoEvent)
    requires
        m.inv(),
        m.state is Encode,
        m.encode.admits(ev),
    ensures
        m.continued_by(m.run_encode(ev).0),
{
    lemma_encode_step_inv(m.encode, ev);
    let (e, r) = m.encode.step(ev);
    if let PollStep::Done(n) = r {
        assert(e.stage is Done);
        assert(n == e.total_write);
    }
}

/// Every poll keeps a transfer in order, never takes back what it has
/// taken or sent, and never lowers the number of bytes it has written.
pub proof fn lemma_transfer_step_inv(m: TransferModel, ev: IoEvent)
    requires
        m.inv(),
        m.admits(ev),
    ensures
        m.continued_by(m.step(ev).0),
{
    let s = TransferModel { consumed: 0, ..m };
    assert(s.inv());
    assert(s.sent() == m.sent() && s.taken() == m.taken());
    assert(s.admits(ev));
    match s.state {
        TransferState::SendHead => lemma_send_head_inv(s, ev),
        TransferState::Copy => lemma_run_copy_inv(s, ev),
        TransferState::SendTerminator => lemma_send_end_inv(s, ev),
        TransferState::Encode => lemma_run_encode_inv(s, ev),
        TransferState::FlushEnd => {},
        TransferState::Done => {},
    }
}

/// A transfer asks for nothing in vain: it asks for a write only while it
/// has bytes to offer, for a fill only while it copies or re-frames, and
/// for a flush only once everything is written.
pub proof fn lemma_transfer_requests_are_sound(m: TransferModel, ev: IoEvent)
    requires
        m.inv(),
        m.admits(ev),
    ensures
        m.step(ev).1 == PollStep::Io(IoRequest::Write) ==> m.step(ev).0.pending().len() > 0,
        m.step(ev).1 == PollStep::Io(IoRequest::Fill) ==> m.step(ev).0.state is Copy || m.step(
            ev,
        ).0.state is Encode,
        m.step(ev).1 == PollStep::Io(IoRequest::Flush) ==> m.step(ev).0.state is FlushEnd,
{
    lemma_transfer_step_inv(m, ev);
    let s = TransferModel { consumed: 0, ..m };
    match s.state {
        TransferState::SendHead => {
            if let IoEvent::Wrote(n) = ev {
                if n > 0 && s.head_off + n >= s.head.len() {
                    let t = TransferModel {
                        head_off: s.head_off + n,
                        state: TransferState::Copy,
                        active: true,
                        ..s
                    };
                    lemma_copy_requests_are_sound(t.copy, IoEvent::Begin);
                }
            }
        },
        TransferState::Copy => {
            lemma_copy_requests_are_sound(s.copy, ev);
        },
        TransferState::Encode => {
            lemma_encode_requests_are_sound(s.encode, ev);
        },
        _ => {},
    }
}

/// Presents a body of any type as a chunked body, driven by polls.
pub struct H1BodyToChunkedTransfer {
    body_type: HttpBodyType,
    state: TransferState,
    head: Vec<u8>,
    head_off: usize,
    closing: Vec<u8>,
    end_start: usize,
    end_off: usize,
    copy: StreamCopy,
    encode: StreamToChunkedTransfer,
    total_write: u64,
    active: bool,
    consumed: usize,
}

impl View for H1BodyToChunkedTransfer {
    type V = TransferModel;

    closed spec fn view(&self) -> TransferModel {
        TransferModel {
            body_type: self.body_type,
            state: self.state,
            head: self.head@,
            head_off: self.head_off as nat,
            end_start: self.end_start as nat,
            end_off: self.end_off as nat,
            copy: self.copy@,
            encode: self.encode@,
            total_write: self.total_write as nat,
            active: self.active,
            consumed: self.consumed as nat,
        }
    }
}

impl H1BodyToChunkedTransfer {
    /// Whether the closing bytes are held as they should be.
    pub closed spec fn closing_held(&self) -> bool {
        self.closing@ == closing_bytes()
    }

    /// Whether the transfer is in order.
    pub open spec fn wf(&self) -> bool {
        self@.inv() && self.closing_held()
    }

    /// A transfer of a body of the given type. `body_line_max_len` bounds
    /// the length of a chunk-size line of a chunked body.
    pub fn new(
        body_type: HttpBodyType,
        body_line_max_len: usize,
        copy_config: StreamCopyConfig,
    ) -> (r: Self)
        ensures
            r.wf(),
            r@ == TransferModel::init(
                body_type,
                body_line_max_len,
                copy_config.spec_buffer_size() as nat,
                copy_config.spec_yield_size() as nat,
            ),
    {
        match body_type {
            HttpBodyType::FixedLength(len) => Self::new_fixed_length(len, copy_config),
            HttpBodyType::ReadUntilEnd => Self::new_read_until_end(copy_config),
            HttpBodyType::Chunked => Self::new_chunked(body_line_max_len, copy_config),
        }
    }

    /// A transfer of a body that runs until the source ends.
    pub fn new_read_until_end(copy_config: StreamCopyConfig) -> (r: Self)
        ensures
            r.wf(),
            r@ == TransferModel::init_until_end(
                copy_config.spec_buffer_size() as nat,
                copy_config.spec_yield_size() as nat,
            ),
    {
        let capacity: usize = copy_config.buffer_size();
        let yield_size: usize = copy_config.yield_size();
        proof {
            lemma_transfer_init_inv(
                HttpBodyType::ReadUntilEnd,
                0,
                0,
                capacity as nat,
                yield_size as nat,
            );
        }
        let mut closing: Vec<u8> = Vec::new();
        push_closing_bytes(&mut closing);
        assert(closing@ =~= closing_bytes());
        H1BodyToChunkedTransfer {
            body_type: HttpBodyType::ReadUntilEnd,
            state: TransferState::Encode,
            head: Vec::new(),
            head_off: 0,
            closing,
            end_start: 0,
            end_off: 0,
            copy: StreamCopy::new(HttpBodyReader::new_read_until_end(), copy_config),
            encode: StreamToChunkedTransfer::new_with_no_trailer(copy_config),
            total_write: 0,
            active: false,
            consumed: 0,
        }
    }

    /// A transfer of a body of `len` bytes. A body of no bytes at all is
    /// presented as the last chunk alone.
    pub fn new_fixed_length(len: u64, copy_config: StreamCopyConfig) -> (r: Self)
        ensures
            r.wf(),
            r@ == TransferModel::init_fixed(
                len,
                copy_config.spec_buffer_size() as nat,
                copy_config.spec_yield_size() as nat,
            ),
    {
        let capacity: usize = copy_config.buffer_size();
        let yield_size: usize = copy_config.yield_size();
        proof {
            lemma_transfer_init_inv(
                HttpBodyType::FixedLength(len),
                0,
                0,
                capacity as nat,
                yield_size as nat,
            );
        }
        let mut closing: Vec<u8> = Vec::new();
        push_closing_bytes(&mut closing);
        assert(closing@ =~= closing_bytes());
        let mut head: Vec<u8> = Vec::new();
        if len > 0 {
            push_size_line(len, &mut head);
            assert(head@ =~= TransferModel::size_line(len));
        }
        H1BodyToChunkedTransfer {
            body_type: HttpBodyType::FixedLength(len),
            state: if len == 0 {
                TransferState::SendTerminator
            } else {
                TransferState::SendHead
            },
            head,
            head_off: 0,
            closing,
            end_start: if len == 0 {
                2
            } else {
                0
            },
            end_off: if len == 0 {
                2
            } else {
                0
            },
            copy: StreamCopy::new(HttpBodyReader::new_fixed_length(len), copy_config),
            encode: StreamToChunkedTransfer::new_with_no_trailer(copy_config),
            total_write: 0,
            active: false,
            consumed: 0,
        }
    }

    /// A transfer of a chunked body, which is copied as it stands.
    pub fn new_chunked(body_line_max_len: usize, copy_config: StreamCopyConfig) -> (r: Self)
        ensures
            r.wf(),
            r@ == TransferModel::init_chunked(
                0,
                body_line_max_len,
                copy_config.spec_buffer_size() as nat,
                copy_config.spec_yield_size() as nat,
            ),
    {
        Self::new_chunked_after_preview(0, body_line_max_len, copy_config)
    }

    /// A transfer of a chunked body of whose first chunk all but
    /// `left_chunk_size` data bytes have gone out already: a size line for
    /// what is left of that chunk is sent first, then the body is copied
    /// as it stands.
    pub fn new_chunked_after_preview(
        left_chunk_size: u64,
        body_line_max_len: usize,
        copy_config: StreamCopyConfig,
    ) -> (r: Self)
        ensures
            r.wf(),
            r@ == TransferModel::init_chunked(
                left_chunk_size,
                body_line_max_len,
                copy_config.spec_buffer_size() as nat,
                copy_config.spec_yield_size() as nat,
            ),
    {
        let capacity: usize = copy_config.buffer_size();
        let yield_size: usize = copy_config.yield_size();
        proof {
            lemma_transfer_init_inv(
                HttpBodyType::Chunked,
                left_chunk_size,
                body_line_max_len,
                capacity as nat,
                yield_size as nat,
            );
        }
        let mut closing: Vec<u8> = Vec::new();
        push_closing_bytes(&mut closing);
        assert(closing@ =~= closing_bytes());
        let mut head: Vec<u8> = Vec::new();
        if left_chunk_size > 0 {
            push_size_line(left_chunk_size, &mut head);
            assert(head@ =~= TransferModel::size_line(left_chunk_size));
        }
        let reader = HttpBodyReader::new_chunked_after_preview(body_line_max_len, left_chunk_size);
        H1BodyToChunkedTransfer {
            body_type: HttpBodyType::Chunked,
            state: if left_chunk_size == 0 {
                TransferState::Copy
            } else {
                TransferState::SendHead
            },
            head,
            head_off: 0,
            closing,
            end_start: 0,
            end_off: 0,
            copy: StreamCopy::new(reader, copy_config),
            encode: StreamToChunkedTransfer::new_with_no_trailer(copy_config),
            total_write: 0,
            active: false,
            consumed: 0,
        }
    }

    /// Whether every byte of the chunked body has been accepted by the sink.
    pub fn finished(&self) -> (r: bool)
        ensures
            r == self@.finished(),
    {
        match self.state {
            TransferState::FlushEnd | TransferState::Done => true,
            _ => false,
        }
    }

    /// Whether nothing moved since the activity flag was last reset.
    pub fn is_idle(&self) -> (r: bool)
        ensures
            r == !self@.active,
    {
        !self.active
    }

    /// Whether the transfer holds no byte that the sink has not accepted.
    /// While framing bytes are on their way it does.
    pub fn no_cached_data(&self) -> (r: bool)
        ensures
            r == self@.no_cached_data(),
    {
        match self.state {
            TransferState::SendHead | TransferState::SendTerminator => false,
            TransferState::Copy => self.copy.no_cached_data(),
            TransferState::Encode => self.encode.no_cached_data(),
            TransferState::FlushEnd | TransferState::Done => true,
        }
    }

    /// Clears the activity flag, and that of the part that is running.
    pub fn reset_active(&mut self)
        requires
            old(self).wf(),
        ensures
            final(self).wf(),
            final(self)@ == old(self)@.reset(),
    {
        match self.state {
            TransferState::Copy => self.copy.reset_active(),
            TransferState::Encode => self.encode.reset_active(),
            _ => {},
        }
        self.active = false;
        proof {
            assert(self@.copy.pending() == old(self)@.copy.pending());
            assert(self@.encode.pending() == old(self)@.encode.pending());
        }
    }

    /// The number of payload bytes of the parts that are complete, held at
    /// `u64::MAX`.
    pub fn total_written(&self) -> (r: u64)
        ensures
            r == self@.total_write,
    {
        self.total_write
    }

    /// The type of the body that is transferred.
    pub fn body_type(&self) -> (r: HttpBodyType)
        ensures
            r == self@.body_type,
    {
        self.body_type
    }

    /// The bytes to offer to the sink when the transfer asks for a write.
    pub fn pending_write(&self) -> (r: &[u8])
        requires
            self.wf(),
        ensures
            r@ == self@.pending(),
    {
        match self.state {
            TransferState::SendHead => slice_subrange(
                self.head.as_slice(),
                self.head_off,
                self.head.len(),
            ),
            TransferState::Copy => self.copy.pending_write(),
            TransferState::SendTerminator => slice_subrange(
                self.closing.as_slice(),
                self.end_off,
                self.closing.len(),
            ),
            TransferState::Encode => self.encode.pending_write(),
            _ => slice_subrange(self.head.as_slice(), 0, 0),
        }
    }

    /// How many of the bytes shown to it the last poll consumed from the
    /// source.
    pub fn consumed(&self) -> (r: usize)
        ensures
            r == self@.consumed,
    {
        self.consumed
    }

    fn copy_done(&mut self, n: u64) -> (r: PollStep)
        ensures
            (final(self)@, r) == old(self)@.copy_done(n),
            final(self).closing_held() == old(self).closing_held(),
    {
        self.total_write = if n > u64::MAX - self.total_write {
            u64::MAX
        } else {
            self.total_write + n
        };
        self.active = true;
        match self.body_type {
            HttpBodyType::FixedLength(_) => {
                self.state = TransferState::SendTerminator;
                PollStep::Io(IoRequest::Write)
            },
            _ => {
                self.state = TransferState::Done;
                PollStep::Done(self.total_write)
            },
        }
    }

    fn run_copy(&mut self, ev: IoOutcome<'_>) -> (r: PollStep)
        requires
            old(self)@.copy.inv(),
            old(self)@.copy.admits(ev@),
        ensures
            (final(self)@, r) == old(self)@.run_copy(ev@),
            final(self).closing_held() == old(self).closing_held(),
    {
        let r = self.copy.poll(ev);
        self.consumed = self.copy.consumed();
        match r {
            PollStep::Done(n) => self.copy_done(n),
            PollStep::Pending | PollStep::Yield => {
                self.active = self.active || self.copy.is_active();
                r
            },
            _ => r,
        }
    }

    fn run_encode(&mut self, ev: IoOutcome<'_>) -> (r: PollStep)
        requires
            old(self)@.encode.inv(),
            old(self)@.encode.admits(ev@),
        ensures
            (final(self)@, r) == old(self)@.run_encode(ev@),
            final(self).closing_held() == old(self).closing_held(),
    {
        let r = self.encode.poll(ev);
        self.consumed = self.encode.consumed();
        match r {
            PollStep::Done(n) => {
                self.total_write = if n > u64::MAX - self.total_write {
                    u64::MAX
                } else {
                    self.total_write + n
                };
                self.active = true;
                self.state = TransferState::Done;
                PollStep::Done(self.total_write)
            },
            PollStep::Pending | PollStep::Yield => {
                self.active = self.active || self.encode.is_active();
                r
            },
            _ => r,
        }
    }

    fn send_head(&mut self, ev: IoOutcome<'_>) -> (r: PollStep)
        requires
            old(self)@.inv(),
            old(self)@.state is SendHead,
            old(self)@.admits(ev@),
        ensures
            (final(self)@, r) == old(self)@.send_head(ev@),
            final(self).closing_held() == old(self).closing_held(),
    {
        match ev {
            IoOutcome::Wrote(n) => {
                let len: usize = self.head.len();
                if n == 0 {
                    PollStep::Failed(StreamCopyError::WriteFailed(IoFailure::WriteZero))
                } else if n < len - self.head_off {
                    self.head_off = self.head_off + n;
                    PollStep::Io(IoRequest::Write)
                } else {
                    self.head_off = self.head_off + n;
                    self.state = TransferState::Copy;
                    self.active = true;
                    self.run_copy(IoOutcome::Begin)
                }
            },
            IoOutcome::NotReady => PollStep::Pending,
            IoOutcome::Failed(e) => PollStep::Failed(StreamCopyError::WriteFailed(e)),
            _ => PollStep::Io(IoRequest::Write),
        }
    }

    fn send_end(&mut self, ev: IoOutcome<'_>) -> (r: PollStep)
        requires
            old(self)@.inv(),
            old(self).closing_held(),
            old(self)@.state is SendTerminator,
            old(self)@.admits(ev@),
        ensures
            (final(self)@, r) == old(self)@.send_end(ev@),
            final(self).closing_held() == old(self).closing_held(),
    {
        match ev {
            IoOutcome::Wrote(n) => {
                let len: usize = self.closing.len();
                if n == 0 {
                    PollStep::Failed(StreamCopyError::WriteFailed(IoFailure::WriteZero))
                } else if n < len - self.end_off {
                    self.end_off = self.end_off + n;
                    PollStep::Io(IoRequest::Write)
                } else {
                    self.end_off = self.end_off + n;
                    self.state = TransferState::FlushEnd;
                    self.active = true;
                    PollStep::Done(self.total_write)
                }
            },
            IoOutcome::NotReady => PollStep::Pending,
            IoOutcome::Failed(e) => PollStep::Failed(StreamCopyError::WriteFailed(e)),
            _ => PollStep::Io(IoRequest::Write),
        }
    }

    fn flush_end(&mut self, ev: IoOutcome<'_>) -> (r: PollStep)
        ensures
            (final(self)@, r) == old(self)@.flush_end(ev@),
            final(self).closing_held() == old(self).closing_held(),
    {
        match ev {
            IoOutcome::Flushed => {
                self.state = TransferState::Done;
                PollStep::Done(self.total_write)
            },
            IoOutcome::NotReady => PollStep::Pending,
            IoOutcome::Failed(e) => PollStep::Failed(StreamCopyError::WriteFailed(e)),
            _ => PollStep::Io(IoRequest::Flush),
        }
    }

    /// Takes the outcome of the call the transfer last asked for and says
    /// what to do next: which call to make, to wait, to yield, or that the
    /// transfer is over. A transfer that reports `Done` on reaching
    /// `FlushEnd` asks for the flush when it is polled again. After a fill,
    /// [`Self::consumed`] tells how many bytes are to be consumed from the
    /// source.
    pub fn poll(&mut self, ev: IoOutcome<'_>) -> (r: PollStep)
        requires
            old(self).wf(),
            old(self)@.admits(ev@),
        ensures
            final(self).wf(),
            (final(self)@, r) == old(self)@.step(ev@),
            old(self)@.continued_by(final(self)@),
    {
        proof {
            lemma_transfer_step_inv(self@, ev@);
        }
        self.consumed = 0;
        match self.state {
            TransferState::SendHead => self.send_head(ev),
            TransferState::Copy => self.run_copy(ev),
            TransferState::SendTerminator => self.send_end(ev),
            TransferState::Encode => self.run_encode(ev),
            TransferState::FlushEnd => self.flush_end(ev),
            TransferState::Done => PollStep::Done(self.total_write),
        }
    }
}

} // verus!
