use g3_transfer::body::body_to_chunked::H1BodyToChunkedTransfer;
use g3_transfer::body::body_type::HttpBodyType;
use g3_transfer::body::reader::{HttpBodyDecodeReader, HttpBodyReader};
use g3_transfer::chunked::phase::BodyError;
use g3_transfer::copy_config::{
    StreamCopyConfig, DEFAULT_COPY_BUFFER_SIZE, DEFAULT_COPY_YIELD_SIZE,
    MINIMAL_COPY_BUFFER_SIZE, MINIMAL_COPY_YIELD_SIZE,
};
use g3_transfer::io::{IoFailure, IoOutcome, IoRequest, PollStep, StreamCopyError};
use g3_transfer::stream_copy::StreamCopy;

struct Run {
    result: Result<u64, StreamCopyError>,
    out: Vec<u8>,
    rest: Vec<u8>,
    yields: usize,
    largest_fill: usize,
}

/// Runs a copy over a source that offers all of `data` at once and then
/// ends, and a sink that accepts at most `accept` bytes per write.
fn run(copy: &mut StreamCopy, data: &[u8], accept: usize) -> Run {
    let mut pos = 0;
    let mut out = Vec::new();
    let mut yields = 0;
    let mut largest_fill = 0;
    let mut step = copy.poll(IoOutcome::Begin);
    for _ in 0..1_000_000 {
        step = match step {
            PollStep::Io(IoRequest::Fill) => {
                let next = copy.poll(IoOutcome::Filled(&data[pos..]));
                largest_fill = largest_fill.max(copy.consumed());
                pos += copy.consumed();
                next
            }
            PollStep::Io(IoRequest::Write) => {
                let pending = copy.pending_write().to_vec();
                let n = pending.len().min(accept);
                out.extend_from_slice(&pending[..n]);
                copy.poll(IoOutcome::Wrote(n))
            }
            PollStep::Io(IoRequest::Flush) => copy.poll(IoOutcome::Flushed),
            PollStep::Yield => {
                yields += 1;
                copy.poll(IoOutcome::Begin)
            }
            PollStep::Pending => copy.poll(IoOutcome::Begin),
            PollStep::Done(n) => {
                return Run {
                    result: Ok(n),
                    out,
                    rest: data[pos..].to_vec(),
                    yields,
                    largest_fill,
                }
            }
            PollStep::Failed(e) => {
                return Run {
                    result: Err(e),
                    out,
                    rest: data[pos..].to_vec(),
                    yields,
                    largest_fill,
                }
            }
        };
    }
    panic!("the copy did not come to an end");
}

fn plain_copy(config: StreamCopyConfig) -> StreamCopy {
    StreamCopy::new(HttpBodyReader::new_read_until_end(), config)
}

#[test]
fn config_defaults_and_minimums() {
    let config = StreamCopyConfig::default();
    assert_eq!(config.buffer_size(), 16384);
    assert_eq!(config.yield_size(), 1048576);
    assert_eq!(DEFAULT_COPY_BUFFER_SIZE, 16384);
    assert_eq!(DEFAULT_COPY_YIELD_SIZE, 1048576);
    assert_eq!(MINIMAL_COPY_BUFFER_SIZE, 4096);
    assert_eq!(MINIMAL_COPY_YIELD_SIZE, 262144);

    let mut config = StreamCopyConfig::new(1, 1);
    assert_eq!(config.buffer_size(), 4096);
    assert_eq!(config.yield_size(), 262144);
    config.set_buffer_size(8192);
    assert_eq!(config.buffer_size(), 8192);
    assert_eq!(config.yield_size(), 262144);
    config.set_yield_size(300000);
    assert_eq!(config.yield_size(), 300000);
    config.set_buffer_size(100);
    assert_eq!(config.buffer_size(), 4096);
    config.set_yield_size(100);
    assert_eq!(config.yield_size(), 262144);
    assert!(config.same(&StreamCopyConfig::new(4096, 262144)));
    assert!(!config.same(&StreamCopyConfig::default()));
}

#[test]
fn copy_until_end_moves_every_byte() {
    let mut copy = plain_copy(StreamCopyConfig::default());
    let r = run(&mut copy, b"hello world", usize::MAX);
    assert_eq!(r.result, Ok(11));
    assert_eq!(&r.out, b"hello world");
    assert!(copy.finished());
    assert!(copy.no_cached_data());
    assert_eq!(copy.copied_size(), 11);
    assert_eq!(copy.poll(IoOutcome::Begin), PollStep::Done(11));
}

#[test]
fn copy_fills_no_more_than_its_buffer() {
    let data: Vec<u8> = (0..10_000u32).map(|i| (i % 251) as u8).collect();
    let mut copy = plain_copy(StreamCopyConfig::new(4096, 262144));
    let r = run(&mut copy, &data, usize::MAX);
    assert_eq!(r.result, Ok(10_000));
    assert_eq!(r.out, data);
    assert_eq!(r.largest_fill, 4096);
}

#[test]
fn short_writes_are_retried_on_the_rest() {
    let data: Vec<u8> = (0..5_000u32).map(|i| (i % 7) as u8).collect();
    let mut copy = plain_copy(StreamCopyConfig::new(4096, 262144));
    let r = run(&mut copy, &data, 1000);
    assert_eq!(r.result, Ok(5_000));
    assert_eq!(r.out, data);
}

#[test]
fn copy_yields_once_the_round_has_moved_enough() {
    let data = vec![7u8; 600_000];
    let mut copy = plain_copy(StreamCopyConfig::new(4096, 262144));
    let r = run(&mut copy, &data, usize::MAX);
    assert_eq!(r.result, Ok(600_000));
    assert_eq!(r.out.len(), 600_000);
    assert_eq!(r.yields, 2);
}

#[test]
fn zero_write_fails_the_copy() {
    let mut copy = plain_copy(StreamCopyConfig::default());
    assert_eq!(copy.poll(IoOutcome::Begin), PollStep::Io(IoRequest::Fill));
    assert_eq!(
        copy.poll(IoOutcome::Filled(b"abc")),
        PollStep::Io(IoRequest::Write)
    );
    assert_eq!(copy.consumed(), 3);
    assert_eq!(copy.pending_write(), b"abc");
    assert_eq!(
        copy.poll(IoOutcome::Wrote(0)),
        PollStep::Failed(StreamCopyError::WriteFailed(IoFailure::WriteZero))
    );
}

#[test]
fn failures_name_their_side() {
    let mut copy = plain_copy(StreamCopyConfig::default());
    assert_eq!(copy.poll(IoOutcome::Begin), PollStep::Io(IoRequest::Fill));
    assert_eq!(
        copy.poll(IoOutcome::Failed(IoFailure::Transport(104))),
        PollStep::Failed(StreamCopyError::ReadFailed(IoFailure::Transport(104)))
    );

    let mut copy = plain_copy(StreamCopyConfig::default());
    assert_eq!(copy.poll(IoOutcome::Begin), PollStep::Io(IoRequest::Fill));
    assert_eq!(
        copy.poll(IoOutcome::Filled(b"abc")),
        PollStep::Io(IoRequest::Write)
    );
    assert_eq!(
        copy.poll(IoOutcome::Failed(IoFailure::Transport(32))),
        PollStep::Failed(StreamCopyError::WriteFailed(IoFailure::Transport(32)))
    );
}

#[test]
fn blocked_source_lets_the_buffer_drain() {
    let mut copy = plain_copy(StreamCopyConfig::default());
    assert!(copy.is_idle());
    assert_eq!(copy.poll(IoOutcome::Begin), PollStep::Io(IoRequest::Fill));
    assert_eq!(copy.poll(IoOutcome::NotReady), PollStep::Pending);
    assert!(copy.is_idle());
    assert_eq!(copy.poll(IoOutcome::Begin), PollStep::Io(IoRequest::Fill));
    assert_eq!(
        copy.poll(IoOutcome::Filled(b"abcdef")),
        PollStep::Io(IoRequest::Write)
    );
    assert!(copy.is_active());
    assert_eq!(copy.poll(IoOutcome::Wrote(2)), PollStep::Io(IoRequest::Write));
    assert_eq!(copy.pending_write(), b"cdef");
    assert_eq!(copy.poll(IoOutcome::NotReady), PollStep::Pending);
    assert!(!copy.no_cached_data());
    copy.reset_active();
    assert!(copy.is_idle());
    // a new round looks at the source first, and goes on writing when the
    // source has nothing
    assert_eq!(copy.poll(IoOutcome::Begin), PollStep::Io(IoRequest::Fill));
    assert_eq!(copy.poll(IoOutcome::NotReady), PollStep::Io(IoRequest::Write));
    assert_eq!(copy.poll(IoOutcome::Wrote(4)), PollStep::Io(IoRequest::Fill));
    assert!(copy.no_cached_data());
    assert_eq!(copy.copied_size(), 6);
    assert_eq!(copy.poll(IoOutcome::Filled(b"")), PollStep::Done(6));
}

#[test]
fn decoded_copy_hands_on_the_payload_only() {
    let content = b"5\r\ntest\n\r\n4\r\nbody\r\n0\r\n\r\nXXX";
    let mut copy = StreamCopy::new_decoded(
        HttpBodyDecodeReader::new_chunked(1024),
        StreamCopyConfig::default(),
    );
    let r = run(&mut copy, content, usize::MAX);
    assert_eq!(r.result, Ok(9));
    assert_eq!(&r.out, b"test\nbody");
    assert_eq!(&r.rest, b"\r\nXXX");
    let mut reader = HttpBodyDecodeReader::from_scanner(copy.scanner());
    assert_eq!(reader.trailer(&r.rest, 128), Ok((2, true)));
}

#[test]
fn invalid_body_fails_the_read_side() {
    let mut copy = StreamCopy::new(
        HttpBodyReader::new_chunked(1024),
        StreamCopyConfig::default(),
    );
    let r = run(&mut copy, b"5\r\nabcdeXX", usize::MAX);
    assert_eq!(
        r.result,
        Err(StreamCopyError::ReadFailed(IoFailure::InvalidBody(
            BodyError::InvalidChunkEnd
        )))
    );
}

#[test]
fn source_that_ends_inside_a_body_fails_the_read_side() {
    let mut copy = StreamCopy::new(
        HttpBodyReader::new_chunked(1024),
        StreamCopyConfig::default(),
    );
    let r = run(&mut copy, b"5\r\nabc", usize::MAX);
    assert_eq!(
        r.result,
        Err(StreamCopyError::ReadFailed(IoFailure::UnexpectedEof))
    );
    assert_eq!(&r.out, b"5\r\nabc");
}

fn reframe(body_type: HttpBodyType, reads: &[&[u8]]) -> Vec<u8> {
    let mut transfer = H1BodyToChunkedTransfer::new(body_type, 1024, StreamCopyConfig::default());
    let mut out = Vec::new();
    let mut next_read = 0;
    let mut buffered: Vec<u8> = Vec::new();
    let mut step = transfer.poll(IoOutcome::Begin);
    loop {
        step = match step {
            PollStep::Io(IoRequest::Fill) => {
                if buffered.is_empty() && next_read < reads.len() {
                    buffered = reads[next_read].to_vec();
                    next_read += 1;
                }
                let next = transfer.poll(IoOutcome::Filled(&buffered));
                buffered.drain(..transfer.consumed());
                next
            }
            PollStep::Io(IoRequest::Write) => {
                let pending = transfer.pending_write().to_vec();
                out.extend_from_slice(&pending);
                transfer.poll(IoOutcome::Wrote(pending.len()))
            }
            PollStep::Done(_) => return out,
            other => panic!("unexpected step {:?}", other),
        };
    }
}

#[test]
fn echo_of_a_reframed_body_delivers_the_source() {
    let cases: Vec<(HttpBodyType, Vec<&[u8]>, &[u8])> = vec![
        (HttpBodyType::FixedLength(16), vec![b"test body", b"- helloXXX"], b"test body- hello"),
        (HttpBodyType::ReadUntilEnd, vec![b"test body", b"hello"], b"test bodyhello"),
        (HttpBodyType::ReadUntilEnd, vec![], b""),
        (HttpBodyType::FixedLength(0), vec![b"XXX"], b""),
    ];
    for (body_type, reads, source) in cases {
        let framed = reframe(body_type, &reads);
        let mut copy = StreamCopy::new_decoded(
            HttpBodyDecodeReader::new_chunked(1024),
            StreamCopyConfig::default(),
        );
        let r = run(&mut copy, &framed, 3);
        assert_eq!(r.result, Ok(source.len() as u64));
        assert_eq!(r.out, source);
        assert_eq!(&r.rest, b"\r\n");
    }
}

#[test]
fn echo_of_a_chunked_body_delivers_the_source() {
    let source = b"5\r\ntest\n\r\n4\r\nbody\r\n0\r\nA: B\r\n\r\n";
    let framed = reframe(HttpBodyType::Chunked, &[&source[..7], &source[7..]]);
    assert_eq!(&framed, source);
    let mut copy = StreamCopy::new(
        HttpBodyReader::new_chunked(1024),
        StreamCopyConfig::default(),
    );
    let r = run(&mut copy, &framed, usize::MAX);
    assert_eq!(r.result, Ok(source.len() as u64));
    assert_eq!(&r.out, source);
    assert!(r.rest.is_empty());
}
