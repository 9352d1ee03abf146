//! What a transfer to chunked framing guarantees, whatever the source
//! delivers and however the sink accepts it.

use vstd::prelude::*;

use crate::body::body_to_chunked::{
    lemma_transfer_init_inv, lemma_transfer_step_inv, TransferModel,
};
use crate::body::body_type::HttpBodyType;
use crate::body::reader::window_of;
use crate::chunked::frame::{
    chunk_frame, chunks_sized, closing_bytes, crlf, frames, joined, last_chunk,
    lemma_feed_encoded, MAX_SIZE_LINE,
};
use crate::chunked::grammar::{lemma_feed_wire_body, WireBody};
use crate::chunked::phase::{
    feed, lemma_feed_bounds, lemma_feed_concat, lemma_feed_fixed, lemma_feed_kind,
    lemma_feed_prefix_halted, BodyPhase, Fed, ScanRules,
};
use crate::io::{sat_add, IoEvent, IoFailure, PollStep, StreamCopyError};
use crate::stream_copy::CopyModel;

verus! {

/// A transfer of a body of announced length never takes more than that
/// length from its source, and has taken all of it once it is past the
/// copy.
pub proof fn lemma_fixed_length_taken(m: TransferModel)
    requires
        m.inv(),
        m.body_type is FixedLength,
    ensures
        m.taken().len() <= m.body_type->FixedLength_0,
        m.copy.phase == (BodyPhase::Fixed {
            left: (m.body_type->FixedLength_0 - m.taken().len()) as u64,
        }),
        m.copy.sent + m.copy.pending() == m.taken(),
        m.copy.stage is Done ==> m.taken().len() == m.body_type->FixedLength_0,
{
    let n = m.body_type->FixedLength_0;
    lemma_feed_fixed(n, m.copy.taken, m.copy.rules);
    assert(m.copy.taken.take(m.copy.taken.len() as int) =~= m.copy.taken);
}

/// If the source of a body of announced length ends before that length
/// has been taken, the transfer fails with a read failure.
pub proof fn lemma_fixed_length_short_source_fails(m: TransferModel)
    requires
        m.inv(),
        m.body_type is FixedLength,
        m.state is Copy,
        m.copy.stage is AwaitFill,
        m.taken().len() < m.body_type->FixedLength_0,
    ensures
        m.step(IoEvent::Filled(Seq::empty())).1 == PollStep::Failed(
            StreamCopyError::ReadFailed(IoFailure::UnexpectedEof),
        ),
{
    lemma_fixed_length_taken(m);
}

/// The number of bytes written never goes down from one poll to the next.
pub proof fn lemma_total_written_monotonic(m: TransferModel, ev: IoEvent)
    requires
        m.inv(),
        m.admits(ev),
    ensures
        m.step(ev).0.total_write >= m.total_write,
{
    lemma_transfer_step_inv(m, ev);
}

/// Once a transfer is finished, the number of bytes written is the number
/// of bytes taken from the source: framing that the transfer made itself
/// is not counted.
pub proof fn lemma_total_written_is_payload(m: TransferModel)
    requires
        m.inv(),
        m.finished(),
    ensures
        m.total_write == sat_add(0, m.taken().len()),
{
    match m.body_type {
        HttpBodyType::FixedLength(n) => {
            lemma_fixed_length_taken(m);
            if n > 0 {
                assert(m.copy.pending() =~= Seq::<u8>::empty());
                assert(m.copy.sent + m.copy.pending() =~= m.copy.sent);
            }
        },
        HttpBodyType::ReadUntilEnd => {},
        HttpBodyType::Chunked => {
            assert(m.copy.pending() =~= Seq::<u8>::empty());
            assert(m.copy.sent + m.copy.pending() =~= m.copy.sent);
            assert(m.copy.taken.take(m.copy.taken.len() as int) =~= m.copy.taken);
        },
    }
}

impl TransferModel {
    /// The chunks that a transfer of a body that was not chunked has made
    /// of it: the whole body as one chunk where its length was announced
    /// and not zero.
    pub open spec fn chunks(self) -> Seq<Seq<u8>> {
        match self.body_type {
            HttpBodyType::FixedLength(n) => if n == 0 {
                Seq::empty()
            } else {
                seq![self.copy.taken]
            },
            _ => self.encode.chunks,
        }
    }
}

/// What a finished transfer of a body that was not chunked has sent: the
/// frames of its chunks and the last chunk, and nothing else. The chunks
/// joined are the bytes taken from the source.
pub proof fn lemma_reframed_output(m: TransferModel)
    requires
        m.inv(),
        m.finished(),
        !(m.body_type is Chunked),
    ensures
        m.sent() == frames(m.chunks()) + last_chunk(),
        joined(m.chunks()) == m.taken(),
        chunks_sized(m.chunks()),
{
    match m.body_type {
        HttpBodyType::FixedLength(n) => {
            lemma_fixed_length_taken(m);
            let e = closing_bytes().subrange(m.end_start as int, m.end_off as int);
            if n == 0 {
                assert(e =~= last_chunk());
                assert(m.copy.sent =~= Seq::<u8>::empty());
                assert(m.sent() =~= last_chunk());
                assert(frames(m.chunks()) + last_chunk() =~= last_chunk());
                assert(m.taken() =~= Seq::<u8>::empty());
            } else {
                let data = m.copy.taken;
                assert(m.copy.pending() =~= Seq::<u8>::empty());
                assert(m.copy.sent =~= data);
                assert(e =~= crlf() + last_chunk());
                assert(m.head.take(m.head_off as int) =~= m.head);
                let c = m.chunks();
                reveal_with_fuel(frames, 2);
                reveal_with_fuel(joined, 2);
                assert(c.drop_last() =~= Seq::<Seq<u8>>::empty());
                assert(c.last() == data);
                assert(frames(c) =~= chunk_frame(data));
                assert(joined(c) =~= data);
                assert(m.sent() =~= frames(c) + last_chunk());
            }
        },
        _ => {
            assert(m.encode.pending() =~= Seq::<u8>::empty());
            assert(m.encode.sent + m.encode.pending() =~= m.encode.sent);
        },
    }
}

/// Whatever the type of a body that was not chunked and whatever its
/// source delivered: what a finished transfer has sent is a complete
/// chunked body, and read as one it yields exactly the bytes taken from
/// the source. A reader that hands the body on as it stands consumes all
/// of it and stops behind it; a reader that decodes stops in front of the
/// empty trailer, two bytes earlier.
pub proof fn lemma_reframed_body_reads_back(m: TransferModel, rules: ScanRules)
    requires
        m.inv(),
        m.finished(),
        !(m.body_type is Chunked),
        rules.line_max >= MAX_SIZE_LINE,
    ensures
        feed(BodyPhase::chunk_start(), m.sent(), rules) == (if rules.decode {
            Fed {
                phase: BodyPhase::TrailerStart,
                used: (m.sent().len() - 2) as nat,
                payload: m.taken(),
            }
        } else {
            Fed { phase: BodyPhase::End, used: m.sent().len(), payload: m.taken() }
        }),
{
    lemma_reframed_output(m);
    lemma_feed_encoded(m.chunks(), rules);
}

/// A chunked body passes through unchanged: all that the transfer sends is
/// the size line for the rest of a previewed chunk, if there is one, and
/// then the bytes it takes from the source, in order.
pub proof fn lemma_chunked_passes_through(m: TransferModel)
    requires
        m.inv(),
        m.body_type is Chunked,
    ensures
        m.sent() + (if m.state is SendHead {
            Seq::empty()
        } else {
            m.copy.pending()
        }) == m.head.take(m.head_off as int) + m.taken(),
        m.finished() ==> m.sent() == m.head + m.taken(),
{
    let e = closing_bytes().subrange(m.end_start as int, m.end_off as int);
    assert(e =~= Seq::<u8>::empty());
    assert(m.copy.taken.take(m.copy.taken.len() as int) =~= m.copy.taken);
    let h = m.head.take(m.head_off as int);
    if m.state is SendHead {
        assert(m.copy.sent =~= Seq::<u8>::empty());
        assert(m.copy.taken =~= Seq::<u8>::empty());
        assert(m.sent() + Seq::<u8>::empty() =~= h + m.taken());
    } else {
        assert(m.sent() + m.copy.pending() =~= h + (m.copy.sent + m.copy.pending()));
        if m.finished() {
            assert(m.copy.pending() =~= Seq::<u8>::empty());
            assert(h =~= m.head);
            assert(m.sent() =~= m.head + m.taken());
        }
    }
}

/// A finished transfer of a chunked body has taken the body and nothing
/// behind it: whatever follows in the source, a reader started where the
/// transfer started finds the end of the body exactly where the transfer
/// stopped taking.
pub proof fn lemma_chunked_stops_at_body_end(m: TransferModel, rest: Seq<u8>)
    requires
        m.inv(),
        m.body_type is Chunked,
        m.finished(),
    ensures
        feed(m.copy.origin, m.taken() + rest, m.copy.rules).phase is End,
        feed(m.copy.origin, m.taken() + rest, m.copy.rules).used == m.taken().len(),
{
    lemma_feed_kind(m.copy.origin, m.copy.taken, m.copy.rules);
    lemma_feed_concat(m.copy.origin, m.copy.taken, rest, m.copy.rules);
    lemma_feed_bounds(m.copy.phase, rest, m.copy.rules);
}

/// Echoing a re-framed body back through a decoding copy delivers the
/// source: if a complete decoding copy, with a limit of at least
/// [`MAX_SIZE_LINE`] bytes on a chunk-size line, has read from a stream
/// that starts with what a finished transfer of a body that was not
/// chunked has sent, then the bytes it has sent on are exactly the bytes
/// that the transfer took from its source, no framing among them, and the
/// number it reports is their number.
pub proof fn lemma_echo_delivers_source(up: TransferModel, down: CopyModel, stream: Seq<u8>)
    requires
        up.inv(),
        up.finished(),
        !(up.body_type is Chunked),
        down.inv(),
        down.origin == BodyPhase::chunk_start(),
        down.rules.decode,
        down.rules.line_max >= MAX_SIZE_LINE,
        down.stage is Done,
        up.sent().is_prefix_of(stream),
        down.taken.is_prefix_of(stream),
    ensures
        down.sent == up.taken(),
        down.taken.len() + 2 == up.sent().len(),
        down.total_write == sat_add(0, up.taken().len()),
        down.total_write == up.total_write,
{
    lemma_total_written_is_payload(up);
    lemma_reframed_body_reads_back(up, down.rules);
    let start = BodyPhase::chunk_start();
    let x = up.sent();
    let fx = feed(start, x, down.rules);
    let fd = feed(start, down.taken, down.rules);
    assert(down.pending() =~= Seq::<u8>::empty());
    assert(down.sent + down.pending() =~= down.sent);
    lemma_feed_kind(start, down.taken, down.rules);
    assert(fd.phase.halted(down.rules));
    lemma_feed_prefix_halted(start, x, stream, down.rules);
    lemma_feed_prefix_halted(start, down.taken, stream, down.rules);
}

/// Echoing a chunked body back through a copy that hands it on as it
/// stands delivers the source: if a complete copy has read from a stream
/// that starts with what a finished transfer of a chunked body has sent,
/// then what the copy has sent on is exactly what the transfer took from
/// its source.
pub proof fn lemma_echo_passes_chunked(up: TransferModel, down: CopyModel, stream: Seq<u8>)
    requires
        up.inv(),
        up.finished(),
        up.body_type is Chunked,
        up.head.len() == 0,
        down.inv(),
        down.origin == BodyPhase::chunk_start(),
        down.rules == up.copy.rules,
        down.stage is Done,
        up.sent().is_prefix_of(stream),
        down.taken.is_prefix_of(stream),
    ensures
        down.sent == up.taken(),
{
    lemma_chunked_passes_through(up);
    assert(up.sent() =~= up.taken());
    let start = BodyPhase::chunk_start();
    assert(down.pending() =~= Seq::<u8>::empty());
    assert(down.sent + down.pending() =~= down.sent);
    assert(down.taken.take(down.taken.len() as int) =~= down.taken);
    assert(up.copy.taken.take(up.copy.taken.len() as int) =~= up.copy.taken);
    lemma_feed_kind(start, down.taken, down.rules);
    lemma_feed_kind(start, up.copy.taken, down.rules);
    lemma_feed_prefix_halted(start, up.taken(), stream, down.rules);
    lemma_feed_prefix_halted(start, down.taken, stream, down.rules);
    let f = feed(start, stream, down.rules);
    assert(down.taken.len() == up.taken().len());
    assert(down.taken =~= stream.take(down.taken.len() as int));
    assert(up.taken() =~= stream.take(down.taken.len() as int));
}

impl TransferModel {
    /// The transfer after it was polled with each of `evs`, in order.
    pub open spec fn after(self, evs: Seq<IoEvent>) -> TransferModel
        decreases evs.len(),
    {
        if evs.len() == 0 {
            self
        } else {
            self.after(evs.drop_last()).step(evs.last()).0
        }
    }

    /// Whether each of `evs` is something that a sink or a source can
    /// report at the time it is reported.
    pub open spec fn admits_all(self, evs: Seq<IoEvent>) -> bool
        decreases evs.len(),
    {
        evs.len() == 0 || (self.admits_all(evs.drop_last()) && self.after(
            evs.drop_last(),
        ).admits(evs.last()))
    }
}

/// However a transfer is polled, it stays in order, and it never takes
/// back what it has taken, sent or counted.
pub proof fn lemma_any_run_keeps_order(m: TransferModel, evs: Seq<IoEvent>)
    requires
        m.inv(),
        m.admits_all(evs),
    ensures
        m.continued_by(m.after(evs)),
    decreases evs.len(),
{
    if evs.len() > 0 {
        let before = m.after(evs.drop_last());
        lemma_any_run_keeps_order(m, evs.drop_last());
        lemma_transfer_step_inv(before, evs.last());
        let t = m.after(evs);
        assert(m.taken().is_prefix_of(t.taken())) by {
            assert(t.taken().subrange(0, m.taken().len() as int) =~= before.taken().subrange(
                0,
                m.taken().len() as int,
            ));
        }
        assert(m.sent().is_prefix_of(t.sent())) by {
            assert(t.sent().subrange(0, m.sent().len() as int) =~= before.sent().subrange(
                0,
                m.sent().len() as int,
            ));
        }
    }
}

/// For a body of any type but chunked, for any source and any sink: once a
/// transfer that started fresh is finished, what it has sent is a
/// complete chunked body, made of chunk frames and the last chunk, and
/// read as one it yields exactly the bytes that the transfer took from its
/// source.
pub proof fn theorem_reframed_body_reads_back(
    body_type: HttpBodyType,
    line_max: usize,
    capacity: nat,
    yield_size: nat,
    evs: Seq<IoEvent>,
    rules: ScanRules,
)
    requires
        1 <= capacity <= usize::MAX,
        yield_size >= 1,
        !(body_type is Chunked),
        rules.line_max >= MAX_SIZE_LINE,
        TransferModel::init(body_type, line_max, capacity, yield_size).admits_all(evs),
        TransferModel::init(body_type, line_max, capacity, yield_size).after(evs).finished(),
    ensures
        ({
            let m = TransferModel::init(body_type, line_max, capacity, yield_size).after(evs);
            &&& m.sent() == frames(m.chunks()) + last_chunk()
            &&& joined(m.chunks()) == m.taken()
            &&& feed(BodyPhase::chunk_start(), m.sent(), rules).payload == m.taken()
            &&& feed(BodyPhase::chunk_start(), m.sent(), rules).phase == (if rules.decode {
                BodyPhase::TrailerStart
            } else {
                BodyPhase::End
            })
            &&& body_type matches HttpBodyType::FixedLength(n) ==> m.taken().len() == n
        }),
{
    let init = TransferModel::init(body_type, line_max, capacity, yield_size);
    lemma_transfer_init_inv(body_type, 0, line_max, capacity, yield_size);
    lemma_any_run_keeps_order(init, evs);
    let m = init.after(evs);
    lemma_reframed_output(m);
    lemma_reframed_body_reads_back(m, rules);
    if body_type is FixedLength {
        lemma_fixed_length_taken(m);
    }
}

/// For a chunked body, for any source and any sink: all that a transfer
/// that started fresh has sent is what it took from its source, byte for
/// byte; and once it is finished it has taken the body and nothing behind
/// it, whatever follows in the source.
pub proof fn theorem_chunked_body_passes_through(
    line_max: usize,
    capacity: nat,
    yield_size: nat,
    evs: Seq<IoEvent>,
    rest: Seq<u8>,
)
    requires
        1 <= capacity <= usize::MAX,
        yield_size >= 1,
        TransferModel::init(HttpBodyType::Chunked, line_max, capacity, yield_size).admits_all(evs),
    ensures
        ({
            let init = TransferModel::init(HttpBodyType::Chunked, line_max, capacity, yield_size);
            let m = init.after(evs);
            let rules = TransferModel::rules_for(line_max);
            &&& m.sent().is_prefix_of(m.taken())
            &&& m.finished() ==> {
                &&& m.sent() == m.taken()
                &&& feed(BodyPhase::chunk_start(), m.taken() + rest, rules).phase is End
                &&& feed(BodyPhase::chunk_start(), m.taken() + rest, rules).used
                    == m.taken().len()
            }
        }),
{
    let init = TransferModel::init(HttpBodyType::Chunked, line_max, capacity, yield_size);
    lemma_transfer_init_inv(HttpBodyType::Chunked, 0, line_max, capacity, yield_size);
    lemma_any_run_keeps_order(init, evs);
    let m = init.after(evs);
    lemma_chunked_passes_through(m);
    assert(m.head.len() == 0);
    assert(m.head.take(m.head_off as int) + m.taken() =~= m.taken());
    let tail = if m.state is SendHead {
        Seq::<u8>::empty()
    } else {
        m.copy.pending()
    };
    assert(m.sent() + tail == m.taken());
    assert(m.sent().is_prefix_of(m.taken())) by {
        assert(m.taken().subrange(0, m.sent().len() as int) =~= m.sent());
    }
    if m.finished() {
        assert(m.head + m.taken() =~= m.taken());
        lemma_chunked_stops_at_body_end(m, rest);
    }
}

/// The number of bytes written never goes down, however a transfer is
/// polled, and once the transfer is finished it is the number of bytes
/// taken from the source.
pub proof fn theorem_total_written(m: TransferModel, evs: Seq<IoEvent>, more: Seq<IoEvent>)
    requires
        m.inv(),
        m.admits_all(evs),
        m.after(evs).admits_all(more),
    ensures
        m.total_write <= m.after(evs).total_write <= m.after(evs).after(more).total_write,
        m.after(evs).finished() ==> m.after(evs).total_write == sat_add(
            0,
            m.after(evs).taken().len(),
        ),
{
    lemma_any_run_keeps_order(m, evs);
    lemma_any_run_keeps_order(m.after(evs), more);
    if m.after(evs).finished() {
        lemma_total_written_is_payload(m.after(evs));
    }
}

/// A copy reads every well-formed chunked body for what it is. If a
/// complete copy that started at the start of a chunked body has read
/// from a source that holds a well-formed body and then anything, a copy
/// that hands the body on as it stands has taken and sent exactly the
/// body, and a copy that decodes has sent exactly its payload and has
/// taken the body up to its trailer.
pub proof fn lemma_copy_of_well_formed_body(m: CopyModel, body: WireBody, rest: Seq<u8>)
    requires
        m.inv(),
        m.origin == BodyPhase::chunk_start(),
        m.stage is Done,
        body.valid(m.rules.line_max),
        m.taken.is_prefix_of(body.wire() + rest),
    ensures
        m.rules.decode ==> m.sent == body.payload() && m.taken == body.wire_to_trailer(),
        !m.rules.decode ==> m.sent == body.wire() && m.taken == body.wire(),
{
    let start = BodyPhase::chunk_start();
    let stream = body.wire() + rest;
    lemma_feed_wire_body(body, rest, m.rules);
    lemma_feed_kind(start, m.taken, m.rules);
    lemma_feed_prefix_halted(start, m.taken, stream, m.rules);
    assert(m.pending() =~= Seq::<u8>::empty());
    assert(m.sent + m.pending() =~= m.sent);
    assert(m.taken.take(m.taken.len() as int) =~= m.taken);
    assert(m.taken =~= stream.take(m.taken.len() as int));
    if m.rules.decode {
        assert(body.wire_to_trailer() =~= stream.take(body.wire_to_trailer().len() as int));
    } else {
        assert(body.wire() =~= stream.take(body.wire().len() as int));
    }
}

/// A copy never rejects what its scanner can read: as long as what it has
/// taken and what it is shown next are the start of a stream that the
/// scanner does not reject, a fill does not fail.
pub proof fn lemma_copy_accepts_readable_stream(m: CopyModel, d: Seq<u8>, stream: Seq<u8>)
    requires
        m.inv(),
        m.stage is AwaitFill,
        d.len() > 0,
        (m.taken + d).is_prefix_of(stream),
        !(feed(m.origin, stream, m.rules).phase is Failed),
    ensures
        !(m.step(IoEvent::Filled(d)).1 is Failed),
{
    let s = CopyModel { consumed: 0, ..m };
    let w = window_of(d, s.room() as usize);
    let f = feed(s.phase, w, s.rules);
    lemma_feed_concat(m.origin, m.taken, w, m.rules);
    if f.phase is Failed {
        let seen = m.taken + w;
        assert(seen.is_prefix_of(stream)) by {
            assert(stream.subrange(0, seen.len() as int) =~= (m.taken + d).subrange(
                0,
                seen.len() as int,
            ));
            assert((m.taken + d).subrange(0, seen.len() as int) =~= seen);
        }
        lemma_feed_prefix_halted(m.origin, seen, stream, m.rules);
    }
}

/// A copy never rejects a well-formed chunked body: as long as what it
/// has taken and what it is shown next are the start of a source that
/// holds a well-formed body and then anything, a fill does not fail.
pub proof fn lemma_copy_accepts_well_formed_body(
    m: CopyModel,
    d: Seq<u8>,
    body: WireBody,
    rest: Seq<u8>,
)
    requires
        m.inv(),
        m.origin == BodyPhase::chunk_start(),
        m.stage is AwaitFill,
        d.len() > 0,
        body.valid(m.rules.line_max),
        (m.taken + d).is_prefix_of(body.wire() + rest),
    ensures
        !(m.step(IoEvent::Filled(d)).1 is Failed),
{
    lemma_feed_wire_body(body, rest, m.rules);
    lemma_copy_accepts_readable_stream(m, d, body.wire() + rest);
}

/// The client leg never rejects an echo: if the adaptation server sends
/// back, chunk for chunk, what a finished transfer of a body that was not
/// chunked has sent to it, and then anything, then a copy that reads the
/// reply with a limit of at least [`MAX_SIZE_LINE`] bytes on a chunk-size
/// line does not fail at any fill, whether it decodes or not.
pub proof fn theorem_echo_is_accepted(
    up: TransferModel,
    down: CopyModel,
    d: Seq<u8>,
    rest: Seq<u8>,
)
    requires
        up.inv(),
        up.finished(),
        !(up.body_type is Chunked),
        down.inv(),
        down.origin == BodyPhase::chunk_start(),
        down.rules.line_max >= MAX_SIZE_LINE,
        down.stage is AwaitFill,
        d.len() > 0,
        (down.taken + d).is_prefix_of(up.sent() + rest),
    ensures
        !(down.step(IoEvent::Filled(d)).1 is Failed),
{
    let start = BodyPhase::chunk_start();
    lemma_reframed_body_reads_back(up, down.rules);
    assert(up.sent().is_prefix_of(up.sent() + rest)) by {
        assert((up.sent() + rest).subrange(0, up.sent().len() as int) =~= up.sent());
    }
    lemma_feed_prefix_halted(start, up.sent(), up.sent() + rest, down.rules);
    lemma_copy_accepts_readable_stream(down, d, up.sent() + rest);
}

/// A chunked body that is well formed passes through whole and unchanged:
/// if a finished transfer that started at the start of a chunked body has
/// read from a source that holds a well-formed body and then anything, it
/// has taken exactly the body, trailer included, and has sent exactly the
/// same bytes.
pub proof fn theorem_well_formed_chunked_passes_through(
    m: TransferModel,
    body: WireBody,
    rest: Seq<u8>,
)
    requires
        m.inv(),
        m.body_type is Chunked,
        m.copy.origin == BodyPhase::chunk_start(),
        m.finished(),
        body.valid(m.copy.rules.line_max),
        m.taken().is_prefix_of(body.wire() + rest),
    ensures
        m.taken() == body.wire(),
        m.sent() == body.wire(),
{
    lemma_chunked_passes_through(m);
    lemma_copy_of_well_formed_body(m.copy, body, rest);
    assert(m.head + m.taken() =~= m.taken());
}

/// A transfer never rejects a well-formed chunked body: as long as what
/// it has taken and what it is shown next are the start of a source that
/// holds a well-formed body and then anything, a fill does not fail.
pub proof fn theorem_well_formed_chunked_is_accepted(
    m: TransferModel,
    d: Seq<u8>,
    body: WireBody,
    rest: Seq<u8>,
)
    requires
        m.inv(),
        m.body_type is Chunked,
        m.copy.origin == BodyPhase::chunk_start(),
        m.state is Copy,
        m.copy.stage is AwaitFill,
        d.len() > 0,
        body.valid(m.copy.rules.line_max),
        (m.taken() + d).is_prefix_of(body.wire() + rest),
    ensures
        !(m.step(IoEvent::Filled(d)).1 is Failed),
{
    lemma_copy_accepts_well_formed_body(m.copy, d, body, rest);
}

} // verus!
