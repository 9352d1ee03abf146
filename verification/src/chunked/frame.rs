//! The frames that make up a chunked body, and what the scanner makes of
//! them.

use vstd::prelude::*;

use crate::chunked::hex::{
    hex_digit_value, hex_digits, is_hex_digit, lemma_hex_digits_u64, push_hex,
};
use crate::chunked::phase::{
    feed, lemma_feed_concat, lemma_feed_payload, BodyPhase, Fed, ScanRules, CR, LF,
};

verus! {

/// The longest chunk-size line that this crate writes: sixteen digits and
/// CR LF.
pub const MAX_SIZE_LINE: usize = 18;

/// CR LF.
pub open spec fn crlf() -> Seq<u8> {
    seq![CR, LF]
}

/// One chunk on the wire: its size in hexadecimal, CR LF, its data, CR LF.
pub open spec fn chunk_frame(data: Seq<u8>) -> Seq<u8> {
    hex_digits(data.len()) + crlf() + data + crlf()
}

/// The chunk of size zero with an empty trailer: `0 CR LF CR LF`.
pub open spec fn last_chunk() -> Seq<u8> {
    seq![0x30u8, CR, LF, CR, LF]
}

/// What follows the data of the one chunk of a body of known length:
/// CR LF and the last chunk.
pub open spec fn closing_bytes() -> Seq<u8> {
    seq![CR, LF, 0x30u8, CR, LF, CR, LF]
}

/// The frames of `chunks`, one after another.
pub open spec fn frames(chunks: Seq<Seq<u8>>) -> Seq<u8>
    decreases chunks.len(),
{
    if chunks.len() == 0 {
        Seq::empty()
    } else {
        frames(chunks.drop_last()) + chunk_frame(chunks.last())
    }
}

/// The data of `chunks`, one after another.
pub open spec fn joined(chunks: Seq<Seq<u8>>) -> Seq<u8>
    decreases chunks.len(),
{
    if chunks.len() == 0 {
        Seq::empty()
    } else {
        joined(chunks.drop_last()) + chunks.last()
    }
}

/// Whether every chunk holds at least one byte and no more than a chunk
/// size can say.
pub open spec fn chunks_sized(chunks: Seq<Seq<u8>>) -> bool {
    forall|i: int| 0 <= i < chunks.len() ==> 1 <= (#[trigger] chunks[i]).len() <= u64::MAX
}

/// Scanning one byte more.
pub proof fn lemma_feed_push(p: BodyPhase, s: Seq<u8>, b: u8, rules: ScanRules)
    ensures
        feed(p, s.push(b), rules) == ({
            let f = feed(p, s, rules);
            if f.phase.halted(rules) {
                f
            } else {
                Fed {
                    phase: f.phase.step(b, rules),
                    used: f.used + 1,
                    payload: if f.phase.in_payload() {
                        f.payload.push(b)
                    } else {
                        f.payload
                    },
                }
            }
        }),
{
    assert(s.push(b).drop_last() =~= s);
    assert(s.push(b).last() == b);
}

/// The scanner reads the digits of a chunk size as the size.
pub proof fn lemma_feed_size_digits(n: nat, rules: ScanRules)
    requires
        n <= u64::MAX,
        rules.line_max >= hex_digits(n).len(),
    ensures
        feed(BodyPhase::chunk_start(), hex_digits(n), rules) == (Fed {
            phase: BodyPhase::Size { value: n as u64, len: hex_digits(n).len() as usize },
            used: hex_digits(n).len(),
            payload: Seq::empty(),
        }),
    decreases n,
{
    let p = BodyPhase::chunk_start();
    if n < 16 {
        let c = hex_digits(n)[0];
        assert(hex_digits(n) =~= Seq::<u8>::empty().push(c));
        lemma_feed_push(p, Seq::empty(), c, rules);
        assert(is_hex_digit(c) && hex_digit_value(c) == n);
    } else {
        let c = hex_digits(n).last();
        lemma_feed_size_digits(n / 16, rules);
        lemma_feed_push(p, hex_digits(n / 16), c, rules);
        assert(is_hex_digit(c) && hex_digit_value(c) == n % 16);
    }
}

/// The scanner reads the frame of a chunk as that chunk: it consumes the
/// whole frame, finds the data as payload and stands at the start of the
/// next chunk-size line.
pub proof fn lemma_feed_chunk_frame(data: Seq<u8>, rules: ScanRules)
    requires
        1 <= data.len() <= u64::MAX,
        rules.line_max >= MAX_SIZE_LINE,
    ensures
        feed(BodyPhase::chunk_start(), chunk_frame(data), rules) == (Fed {
            phase: BodyPhase::chunk_start(),
            used: chunk_frame(data).len(),
            payload: data,
        }),
{
    let p = BodyPhase::chunk_start();
    let n = data.len();
    let digits = hex_digits(n);
    lemma_hex_digits_u64(n as u64);
    lemma_feed_size_digits(n, rules);
    let s1 = digits.push(CR);
    lemma_feed_push(p, digits, CR, rules);
    let s2 = s1.push(LF);
    lemma_feed_push(p, s1, LF, rules);
    let f2 = feed(p, s2, rules);
    assert(f2.phase == (BodyPhase::Data { left: n as u64 }));
    lemma_feed_payload(f2.phase, data, rules);
    lemma_feed_concat(p, s2, data, rules);
    let s3 = s2 + data;
    let f3 = feed(p, s3, rules);
    assert(f3.phase == BodyPhase::DataCr);
    assert(f3.payload =~= data);
    let s4 = s3.push(CR);
    lemma_feed_push(p, s3, CR, rules);
    let s5 = s4.push(LF);
    lemma_feed_push(p, s4, LF, rules);
    assert(s5 =~= chunk_frame(data));
}

/// The scanner reads the frames of a run of chunks as those chunks.
pub proof fn lemma_feed_frames(chunks: Seq<Seq<u8>>, rules: ScanRules)
    requires
        chunks_sized(chunks),
        rules.line_max >= MAX_SIZE_LINE,
    ensures
        feed(BodyPhase::chunk_start(), frames(chunks), rules) == (Fed {
            phase: BodyPhase::chunk_start(),
            used: frames(chunks).len(),
            payload: joined(chunks),
        }),
    decreases chunks.len(),
{
    let p = BodyPhase::chunk_start();
    if chunks.len() > 0 {
        let front = chunks.drop_last();
        assert(chunks_sized(front)) by {
            assert forall|i: int| 0 <= i < front.len() implies 1 <= (#[trigger] front[i]).len()
                <= u64::MAX by {
                assert(front[i] == chunks[i]);
            }
        }
        lemma_feed_frames(front, rules);
        lemma_feed_chunk_frame(chunks.last(), rules);
        lemma_feed_concat(p, frames(front), chunk_frame(chunks.last()), rules);
    }
}

/// What the scanner makes of the last chunk: read as it stands, the body
/// ends behind it; decoded, the scanner stops in front of the empty
/// trailer.
pub proof fn lemma_feed_last_chunk(rules: ScanRules)
    requires
        rules.line_max >= MAX_SIZE_LINE,
    ensures
        feed(BodyPhase::chunk_start(), last_chunk(), rules) == (if rules.decode {
            Fed { phase: BodyPhase::TrailerStart, used: 3, payload: Seq::empty() }
        } else {
            Fed { phase: BodyPhase::End, used: 5, payload: Seq::empty() }
        }),
        feed(BodyPhase::TrailerStart, crlf(), ScanRules { decode: false, ..rules }) == (Fed {
            phase: BodyPhase::End,
            used: 2,
            payload: Seq::empty(),
        }),
{
    let p = BodyPhase::chunk_start();
    let e = Seq::<u8>::empty();
    lemma_feed_push(p, e, 0x30u8, rules);
    lemma_feed_push(p, e.push(0x30u8), CR, rules);
    lemma_feed_push(p, e.push(0x30u8).push(CR), LF, rules);
    lemma_feed_push(p, e.push(0x30u8).push(CR).push(LF), CR, rules);
    lemma_feed_push(p, e.push(0x30u8).push(CR).push(LF).push(CR), LF, rules);
    assert(e.push(0x30u8).push(CR).push(LF).push(CR).push(LF) =~= last_chunk());
    let plain = ScanRules { decode: false, ..rules };
    lemma_feed_push(BodyPhase::TrailerStart, e, CR, plain);
    lemma_feed_push(BodyPhase::TrailerStart, e.push(CR), LF, plain);
    assert(e.push(CR).push(LF) =~= crlf());
}

/// A chunked body made of the frames of `chunks` and the last chunk reads
/// back as `chunks`: the scanner consumes exactly the body (all but the
/// empty trailer when it decodes) and finds the joined data as payload.
pub proof fn lemma_feed_encoded(chunks: Seq<Seq<u8>>, rules: ScanRules)
    requires
        chunks_sized(chunks),
        rules.line_max >= MAX_SIZE_LINE,
    ensures
        feed(BodyPhase::chunk_start(), frames(chunks) + last_chunk(), rules) == (if rules.decode {
            Fed {
                phase: BodyPhase::TrailerStart,
                used: frames(chunks).len() + 3,
                payload: joined(chunks),
            }
        } else {
            Fed {
                phase: BodyPhase::End,
                used: frames(chunks).len() + 5,
                payload: joined(chunks),
            }
        }),
{
    lemma_feed_frames(chunks, rules);
    lemma_feed_last_chunk(rules);
    lemma_feed_concat(BodyPhase::chunk_start(), frames(chunks), last_chunk(), rules);
    assert(joined(chunks) + Seq::<u8>::empty() =~= joined(chunks));
}

/// Appends the frame of `data` to `out`.
pub fn push_chunk_frame(data: &[u8], out: &mut Vec<u8>)
    ensures
        final(out)@ == old(out)@ + chunk_frame(data@),
{
    push_hex(data.len() as u64, out);
    out.push(CR);
    out.push(LF);
    let ghost mid = out@;
    out.extend_from_slice(data);
    assert(out@ =~= mid + data@);
    out.push(CR);
    out.push(LF);
    assert(out@ =~= old(out)@ + chunk_frame(data@));
}

/// Appends the size line of a chunk of `len` bytes to `out`.
pub fn push_size_line(len: u64, out: &mut Vec<u8>)
    ensures
        final(out)@ == old(out)@ + (hex_digits(len as nat) + crlf()),
{
    push_hex(len, out);
    out.push(CR);
    out.push(LF);
    assert(out@ =~= old(out)@ + (hex_digits(len as nat) + crlf()));
}

/// Appends the last chunk to `out`.
pub fn push_last_chunk(out: &mut Vec<u8>)
    ensures
        final(out)@ == old(out)@ + last_chunk(),
{
    out.push(0x30);
    out.push(CR);
    out.push(LF);
    out.push(CR);
    out.push(LF);
    assert(out@ =~= old(out)@ + last_chunk());
}

/// Appends CR LF and the last chunk to `out`.
pub fn push_closing_bytes(out: &mut Vec<u8>)
    ensures
        final(out)@ == old(out)@ + closing_bytes(),
{
    out.push(CR);
    out.push(LF);
    out.push(0x30);
    out.push(CR);
    out.push(LF);
    out.push(CR);
    out.push(LF);
    assert(out@ =~= old(out)@ + closing_bytes());
}

} // verus!
