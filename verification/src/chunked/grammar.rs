//! What a chunked body looks like on the wire, and that the scanner reads
//! every such body for what it is.
//!
//! A body is a run of chunks, a last chunk of size zero, trailer lines and
//! an empty line. A chunk is its size in hexadecimal digits of either
//! case, an optional extension behind a `;`, CR LF, as many data bytes as
//! the size says, and CR LF. Lines end with CR LF and hold no other CR or
//! LF.

use vstd::prelude::*;

use crate::chunked::frame::{crlf, lemma_feed_push};
use crate::chunked::hex::{all_hex, hex_value, is_hex_digit};
use crate::chunked::phase::{
    feed, lemma_feed_bounds, lemma_feed_concat, lemma_feed_payload, BodyPhase, Fed, ScanRules, CR,
    LF, SEMICOLON,
};

verus! {

/// Whether `s` holds neither CR nor LF.
pub open spec fn plain_text(s: Seq<u8>) -> bool {
    forall|i: int| 0 <= i < s.len() ==> #[trigger] s[i] != CR && s[i] != LF
}

/// A chunk-size line: the digits, the extension with its `;` if there is
/// one, and CR LF.
pub open spec fn size_line(digits: Seq<u8>, ext: Option<Seq<u8>>) -> Seq<u8> {
    match ext {
        Some(e) => digits + seq![SEMICOLON] + e + crlf(),
        None => digits + crlf(),
    }
}

/// Whether a chunk-size line of these digits and this extension is one
/// that a reader with this limit on the line length accepts.
pub open spec fn size_line_valid(digits: Seq<u8>, ext: Option<Seq<u8>>, line_max: usize) -> bool {
    &&& digits.len() >= 1
    &&& all_hex(digits)
    &&& hex_value(digits) <= u64::MAX
    &&& ext matches Some(e) ==> plain_text(e)
    &&& size_line(digits, ext).len() <= line_max
}

/// One chunk as it stands on the wire.
pub struct WireChunk {
    /// The digits of the size.
    pub digits: Seq<u8>,
    /// The extension behind the `;`, if there is one.
    pub ext: Option<Seq<u8>>,
    pub data: Seq<u8>,
}

impl WireChunk {
    /// Whether the chunk is well formed: the digits spell the number of
    /// data bytes, and there is at least one of them.
    pub open spec fn valid(self, line_max: usize) -> bool {
        &&& size_line_valid(self.digits, self.ext, line_max)
        &&& hex_value(self.digits) == self.data.len()
        &&& self.data.len() >= 1
    }

    /// The bytes of the chunk.
    pub open spec fn wire(self) -> Seq<u8> {
        size_line(self.digits, self.ext) + self.data + crlf()
    }
}

/// The bytes of a run of chunks.
pub open spec fn chunks_wire(chunks: Seq<WireChunk>) -> Seq<u8>
    decreases chunks.len(),
{
    if chunks.len() == 0 {
        Seq::empty()
    } else {
        chunks_wire(chunks.drop_last()) + chunks.last().wire()
    }
}

/// The data of a run of chunks, one after another.
pub open spec fn chunks_data(chunks: Seq<WireChunk>) -> Seq<u8>
    decreases chunks.len(),
{
    if chunks.len() == 0 {
        Seq::empty()
    } else {
        chunks_data(chunks.drop_last()) + chunks.last().data
    }
}

/// The bytes of a run of trailer lines, each with its CR LF.
pub open spec fn trailer_wire(lines: Seq<Seq<u8>>) -> Seq<u8>
    decreases lines.len(),
{
    if lines.len() == 0 {
        Seq::empty()
    } else {
        trailer_wire(lines.drop_last()) + lines.last() + crlf()
    }
}

/// A chunked body as it stands on the wire.
pub struct WireBody {
    pub chunks: Seq<WireChunk>,
    /// The digits of the last chunk, which spell zero.
    pub end_digits: Seq<u8>,
    /// The extension of the last chunk.
    pub end_ext: Option<Seq<u8>>,
    /// The trailer lines, without their line ends.
    pub trailer: Seq<Seq<u8>>,
}

impl WireBody {
    /// Whether the body is well formed.
    pub open spec fn valid(self, line_max: usize) -> bool {
        &&& forall|i: int|
            0 <= i < self.chunks.len() ==> (#[trigger] self.chunks[i]).valid(line_max)
        &&& size_line_valid(self.end_digits, self.end_ext, line_max)
        &&& hex_value(self.end_digits) == 0
        &&& forall|i: int|
            0 <= i < self.trailer.len() ==> (#[trigger] self.trailer[i]).len() >= 1 && plain_text(
                self.trailer[i],
            )
    }

    /// The bytes up to the end of the last chunk-size line.
    pub open spec fn wire_to_trailer(self) -> Seq<u8> {
        chunks_wire(self.chunks) + size_line(self.end_digits, self.end_ext)
    }

    /// The bytes of the body.
    pub open spec fn wire(self) -> Seq<u8> {
        self.wire_to_trailer() + trailer_wire(self.trailer) + crlf()
    }

    /// The payload of the body.
    pub open spec fn payload(self) -> Seq<u8> {
        chunks_data(self.chunks)
    }
}

/// The digits read so far never spell more than all the digits do.
pub proof fn lemma_hex_value_prefix(s: Seq<u8>, k: int)
    requires
        0 <= k <= s.len(),
    ensures
        hex_value(s.take(k)) <= hex_value(s),
    decreases s.len() - k,
{
    if k < s.len() {
        lemma_hex_value_prefix(s, k + 1);
        assert(s.take(k + 1).drop_last() =~= s.take(k));
    } else {
        assert(s.take(k) =~= s);
    }
}

/// The scanner reads digits of either case as the number they spell.
pub proof fn lemma_feed_digits(digits: Seq<u8>, rules: ScanRules)
    requires
        all_hex(digits),
        hex_value(digits) <= u64::MAX,
        digits.len() <= rules.line_max,
    ensures
        feed(BodyPhase::chunk_start(), digits, rules) == (Fed {
            phase: BodyPhase::Size { value: hex_value(digits) as u64, len: digits.len() as usize },
            used: digits.len(),
            payload: Seq::empty(),
        }),
    decreases digits.len(),
{
    if digits.len() > 0 {
        let front = digits.drop_last();
        lemma_hex_value_prefix(digits, digits.len() - 1);
        assert(digits.take(digits.len() - 1) =~= front);
        lemma_feed_digits(front, rules);
        assert(is_hex_digit(digits.last()));
    }
}

/// The scanner stays in an extension, or in a trailer line, over any text
/// that holds neither CR nor LF.
pub proof fn lemma_feed_plain_text(p: BodyPhase, text: Seq<u8>, rules: ScanRules)
    requires
        plain_text(text),
        p matches BodyPhase::Ext { value, len } ==> len + text.len() <= rules.line_max,
        p is Ext || p is TrailerLine,
    ensures
        feed(p, text, rules) == (Fed {
            phase: match p {
                BodyPhase::Ext { value, len } => BodyPhase::Ext {
                    value,
                    len: (len + text.len()) as usize,
                },
                _ => p,
            },
            used: text.len(),
            payload: Seq::empty(),
        }),
    decreases text.len(),
{
    if text.len() > 0 {
        let front = text.drop_last();
        assert(plain_text(front)) by {
            assert forall|i: int| 0 <= i < front.len() implies #[trigger] front[i] != CR
                && front[i] != LF by {
                assert(front[i] == text[i]);
            }
        }
        lemma_feed_plain_text(p, front, rules);
        assert(text.last() == text[text.len() - 1]);
    }
}

/// The scanner reads a chunk-size line as the size it spells: behind the
/// line it stands in the data of the chunk, or at the trailer if the size
/// is zero.
pub proof fn lemma_feed_size_line(digits: Seq<u8>, ext: Option<Seq<u8>>, rules: ScanRules)
    requires
        size_line_valid(digits, ext, rules.line_max),
    ensures
        feed(BodyPhase::chunk_start(), size_line(digits, ext), rules) == (Fed {
            phase: if hex_value(digits) == 0 {
                BodyPhase::TrailerStart
            } else {
                BodyPhase::Data { left: hex_value(digits) as u64 }
            },
            used: size_line(digits, ext).len(),
            payload: Seq::empty(),
        }),
{
    let p = BodyPhase::chunk_start();
    lemma_feed_digits(digits, rules);
    let value = hex_value(digits) as u64;
    match ext {
        Some(e) => {
            let s1 = digits.push(SEMICOLON);
            lemma_feed_push(p, digits, SEMICOLON, rules);
            let f1 = feed(p, s1, rules);
            assert(f1.phase == (BodyPhase::Ext { value, len: (digits.len() + 1) as usize }));
            lemma_feed_plain_text(f1.phase, e, rules);
            lemma_feed_concat(p, s1, e, rules);
            let s2 = s1 + e;
            lemma_feed_push(p, s2, CR, rules);
            lemma_feed_push(p, s2.push(CR), LF, rules);
            assert(s2.push(CR).push(LF) =~= size_line(digits, ext));
            assert(Seq::<u8>::empty() + Seq::<u8>::empty() =~= Seq::<u8>::empty());
        },
        None => {
            lemma_feed_push(p, digits, CR, rules);
            lemma_feed_push(p, digits.push(CR), LF, rules);
            assert(digits.push(CR).push(LF) =~= size_line(digits, ext));
        },
    }
}

/// The scanner reads a well-formed chunk as that chunk: it consumes all of
/// it, finds its data as payload and stands at the next chunk-size line.
pub proof fn lemma_feed_wire_chunk(c: WireChunk, rules: ScanRules)
    requires
        c.valid(rules.line_max),
    ensures
        feed(BodyPhase::chunk_start(), c.wire(), rules) == (Fed {
            phase: BodyPhase::chunk_start(),
            used: c.wire().len(),
            payload: c.data,
        }),
{
    let p = BodyPhase::chunk_start();
    let line = size_line(c.digits, c.ext);
    lemma_feed_size_line(c.digits, c.ext, rules);
    let f1 = feed(p, line, rules);
    lemma_feed_payload(f1.phase, c.data, rules);
    lemma_feed_concat(p, line, c.data, rules);
    let s2 = line + c.data;
    assert(feed(p, s2, rules).payload =~= c.data);
    lemma_feed_push(p, s2, CR, rules);
    lemma_feed_push(p, s2.push(CR), LF, rules);
    assert(s2.push(CR).push(LF) =~= c.wire());
}

/// The scanner reads a run of well-formed chunks as those chunks.
pub proof fn lemma_feed_wire_chunks(chunks: Seq<WireChunk>, rules: ScanRules)
    requires
        forall|i: int| 0 <= i < chunks.len() ==> (#[trigger] chunks[i]).valid(rules.line_max),
    ensures
        feed(BodyPhase::chunk_start(), chunks_wire(chunks), rules) == (Fed {
            phase: BodyPhase::chunk_start(),
            used: chunks_wire(chunks).len(),
            payload: chunks_data(chunks),
        }),
    decreases chunks.len(),
{
    if chunks.len() > 0 {
        let front = chunks.drop_last();
        assert forall|i: int| 0 <= i < front.len() implies (#[trigger] front[i]).valid(
            rules.line_max,
        ) by {
            assert(front[i] == chunks[i]);
        }
        lemma_feed_wire_chunks(front, rules);
        assert(chunks.last() == chunks[chunks.len() - 1]);
        lemma_feed_wire_chunk(chunks.last(), rules);
        lemma_feed_concat(
            BodyPhase::chunk_start(),
            chunks_wire(front),
            chunks.last().wire(),
            rules,
        );
    }
}

/// The scanner reads trailer lines one by one and stands at the start of
/// a line behind them.
pub proof fn lemma_feed_trailer(lines: Seq<Seq<u8>>, rules: ScanRules)
    requires
        !rules.decode,
        forall|i: int|
            0 <= i < lines.len() ==> (#[trigger] lines[i]).len() >= 1 && plain_text(lines[i]),
    ensures
        feed(BodyPhase::TrailerStart, trailer_wire(lines), rules) == (Fed {
            phase: BodyPhase::TrailerStart,
            used: trailer_wire(lines).len(),
            payload: Seq::empty(),
        }),
    decreases lines.len(),
{
    let p = BodyPhase::TrailerStart;
    if lines.len() > 0 {
        let front = lines.drop_last();
        assert forall|i: int| 0 <= i < front.len() implies (#[trigger] front[i]).len() >= 1
            && plain_text(front[i]) by {
            assert(front[i] == lines[i]);
        }
        lemma_feed_trailer(front, rules);
        let line = lines.last();
        assert(line == lines[lines.len() - 1]);
        let s0 = trailer_wire(front);
        // the first byte of the line, then the rest of it
        let first = line[0];
        let rest = line.skip(1);
        assert(plain_text(rest)) by {
            assert forall|i: int| 0 <= i < rest.len() implies #[trigger] rest[i] != CR
                && rest[i] != LF by {
                assert(rest[i] == line[i + 1]);
            }
        }
        lemma_feed_push(p, s0, first, rules);
        let s1 = s0.push(first);
        assert(feed(p, s1, rules).phase == BodyPhase::TrailerLine);
        lemma_feed_plain_text(BodyPhase::TrailerLine, rest, rules);
        lemma_feed_concat(p, s1, rest, rules);
        let s2 = s1 + rest;
        assert(s2 =~= s0 + line);
        lemma_feed_push(p, s2, CR, rules);
        lemma_feed_push(p, s2.push(CR), LF, rules);
        assert(s2.push(CR).push(LF) =~= trailer_wire(lines));
        assert(Seq::<u8>::empty() + Seq::<u8>::empty() =~= Seq::<u8>::empty());
    }
}

/// The scanner reads every well-formed chunked body for what it is,
/// whatever follows it. Reading the body as it stands, it consumes
/// exactly the body and stops behind it; decoding, it stops in front of
/// the trailer. Either way the payload it finds is the payload of the
/// body.
pub proof fn lemma_feed_wire_body(body: WireBody, rest: Seq<u8>, rules: ScanRules)
    requires
        body.valid(rules.line_max),
    ensures
        feed(BodyPhase::chunk_start(), body.wire() + rest, rules) == (if rules.decode {
            Fed {
                phase: BodyPhase::TrailerStart,
                used: body.wire_to_trailer().len(),
                payload: body.payload(),
            }
        } else {
            Fed { phase: BodyPhase::End, used: body.wire().len(), payload: body.payload() }
        }),
{
    let p = BodyPhase::chunk_start();
    let a = chunks_wire(body.chunks);
    let line = size_line(body.end_digits, body.end_ext);
    lemma_feed_wire_chunks(body.chunks, rules);
    lemma_feed_size_line(body.end_digits, body.end_ext, rules);
    lemma_feed_concat(p, a, line, rules);
    let head = body.wire_to_trailer();
    let f1 = feed(p, head, rules);
    assert(f1.payload =~= body.payload());
    assert(f1.phase == BodyPhase::TrailerStart);
    if rules.decode {
        let tail = trailer_wire(body.trailer) + crlf() + rest;
        lemma_feed_concat(p, head, tail, rules);
        lemma_feed_bounds(f1.phase, tail, rules);
        assert(head + tail =~= body.wire() + rest);
        assert(f1.payload + Seq::<u8>::empty() =~= f1.payload);
    } else {
        let t = trailer_wire(body.trailer);
        lemma_feed_trailer(body.trailer, rules);
        lemma_feed_concat(p, head, t, rules);
        let s2 = head + t;
        lemma_feed_push(p, s2, CR, rules);
        lemma_feed_push(p, s2.push(CR), LF, rules);
        let s3 = s2.push(CR).push(LF);
        assert(s3 =~= body.wire());
        let f3 = feed(p, s3, rules);
        assert(f3.payload =~= body.payload());
        lemma_feed_concat(p, s3, rest, rules);
        lemma_feed_bounds(f3.phase, rest, rules);
        assert(f3.payload + Seq::<u8>::empty() =~= f3.payload);
    }
}

} // verus!
