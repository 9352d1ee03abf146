use g3_transfer::body::body_to_chunked::H1BodyToChunkedTransfer;
use g3_transfer::body::body_type::HttpBodyType;
use g3_transfer::copy_config::StreamCopyConfig;
use g3_transfer::io::{IoFailure, IoOutcome, IoRequest, PollStep, StreamCopyError};

/// A source that hands out scripted reads the way a buffered reader does:
/// what was not consumed of one read is offered again before the next.
struct ScriptedSource {
    reads: Vec<Vec<u8>>,
    next: usize,
    buffered: Vec<u8>,
}

impl ScriptedSource {
    fn new(reads: &[&[u8]]) -> Self {
        ScriptedSource {
            reads: reads.iter().map(|r| r.to_vec()).collect(),
            next: 0,
            buffered: Vec::new(),
        }
    }

    fn fill(&mut self) -> Vec<u8> {
        if self.buffered.is_empty() && self.next < self.reads.len() {
            self.buffered = self.reads[self.next].clone();
            self.next += 1;
        }
        self.buffered.clone()
    }

    fn consume(&mut self, n: usize) {
        self.buffered.drain(..n);
    }

    fn rest(&self) -> Vec<u8> {
        let mut rest = self.buffered.clone();
        for r in &self.reads[self.next..] {
            rest.extend_from_slice(r);
        }
        rest
    }
}

/// Runs a transfer against a scripted source and a sink that accepts at
/// most `accept` bytes per write, until the transfer is over.
fn run(
    transfer: &mut H1BodyToChunkedTransfer,
    source: &mut ScriptedSource,
    accept: usize,
) -> (Result<u64, StreamCopyError>, Vec<u8>) {
    let mut out = Vec::new();
    let mut step = transfer.poll(IoOutcome::Begin);
    for _ in 0..100_000 {
        step = match step {
            PollStep::Io(IoRequest::Fill) => {
                let data = source.fill();
                let next = transfer.poll(IoOutcome::Filled(&data));
                source.consume(transfer.consumed());
                next
            }
            PollStep::Io(IoRequest::Write) => {
                let pending = transfer.pending_write().to_vec();
                let n = pending.len().min(accept);
                out.extend_from_slice(&pending[..n]);
                transfer.poll(IoOutcome::Wrote(n))
            }
            PollStep::Io(IoRequest::Flush) => transfer.poll(IoOutcome::Flushed),
            PollStep::Pending | PollStep::Yield => transfer.poll(IoOutcome::Begin),
            PollStep::Done(n) => return (Ok(n), out),
            PollStep::Failed(e) => return (Err(e), out),
        };
    }
    panic!("the transfer did not come to an end");
}

#[test]
fn single_to_end() {
    let content = b"test body";
    let mut source = ScriptedSource::new(&[content]);

    let exp_body = b"9\r\ntest body\r\n0\r\n\r\n";

    let mut body_transfer = H1BodyToChunkedTransfer::new(
        HttpBodyType::ReadUntilEnd,
        1024,
        Default::default(),
    );

    let (r, write_buf) = run(&mut body_transfer, &mut source, usize::MAX);
    r.unwrap();
    assert!(body_transfer.finished());

    assert_eq!(&write_buf, exp_body);
}

#[test]
fn split_to_end() {
    let content1 = b"test body";
    let content2 = b"hello";
    let mut source = ScriptedSource::new(&[content1, content2]);

    let exp_body = b"9\r\ntest body\r\n5\r\nhello\r\n0\r\n\r\n";

    let mut body_transfer = H1BodyToChunkedTransfer::new(
        HttpBodyType::ReadUntilEnd,
        1024,
        Default::default(),
    );

    let (r, write_buf) = run(&mut body_transfer, &mut source, usize::MAX);
    r.unwrap();
    assert!(body_transfer.finished());

    assert_eq!(&write_buf, exp_body);
}

#[test]
fn single_content_length() {
    let content = b"test bodyXXX";
    let mut source = ScriptedSource::new(&[content]);

    let exp_body = b"9\r\ntest body\r\n0\r\n\r\n";

    let mut body_transfer = H1BodyToChunkedTransfer::new(
        HttpBodyType::FixedLength(9),
        1024,
        Default::default(),
    );

    let (r, write_buf) = run(&mut body_transfer, &mut source, usize::MAX);
    r.unwrap();
    assert!(body_transfer.finished());

    assert_eq!(&write_buf, exp_body);
    assert_eq!(source.rest(), b"XXX");
    assert_eq!(body_transfer.total_written(), 9);
}

#[test]
fn split_content_length() {
    let content1 = b"test body";
    let content2 = b"- helloXXX";
    let mut source = ScriptedSource::new(&[content1, content2]);

    let exp_body = b"10\r\ntest body- hello\r\n0\r\n\r\n";

    let mut body_transfer = H1BodyToChunkedTransfer::new(
        HttpBodyType::FixedLength(16),
        1024,
        Default::default(),
    );

    let (r, write_buf) = run(&mut body_transfer, &mut source, usize::MAX);
    r.unwrap();
    assert!(body_transfer.finished());

    assert_eq!(&write_buf, exp_body);
    assert_eq!(source.rest(), b"XXX");
}

#[test]
fn single_chunked() {
    let body_len: usize = 24;
    let content = b"5\r\ntest\n\r\n4\r\nbody\r\n0\r\n\r\nXXX";
    let mut source = ScriptedSource::new(&[content]);

    let mut body_transfer =
        H1BodyToChunkedTransfer::new(HttpBodyType::Chunked, 1024, Default::default());

    let (r, write_buf) = run(&mut body_transfer, &mut source, usize::MAX);
    r.unwrap();
    assert!(body_transfer.finished());

    assert_eq!(write_buf.len(), body_len);
    assert_eq!(&write_buf, &content[0..body_len]);
    assert_eq!(source.rest(), b"XXX");
}

#[test]
fn split_chunked() {
    let content1 = b"5\r\ntest\n\r\n4\r";
    let content2 = b"\nbody\r\n0\r\n\r\nXXX";
    let mut source = ScriptedSource::new(&[content1, content2]);

    let exp_body = b"5\r\ntest\n\r\n4\r\nbody\r\n0\r\n\r\n";

    let mut body_transfer =
        H1BodyToChunkedTransfer::new(HttpBodyType::Chunked, 1024, Default::default());

    let (r, write_buf) = run(&mut body_transfer, &mut source, usize::MAX);
    r.unwrap();
    assert!(body_transfer.finished());

    assert_eq!(&write_buf, exp_body);
    assert_eq!(write_buf.len(), 24);
    assert_eq!(source.rest(), b"XXX");
}

#[test]
fn single_trailer() {
    let body_len: usize = 30;
    let content = b"5\r\ntest\n\r\n4\r\nbody\r\n0\r\nA: B\r\n\r\nXXX";
    let mut source = ScriptedSource::new(&[content]);

    let mut body_transfer =
        H1BodyToChunkedTransfer::new(HttpBodyType::Chunked, 1024, Default::default());

    let (r, write_buf) = run(&mut body_transfer, &mut source, usize::MAX);
    r.unwrap();
    assert!(body_transfer.finished());

    assert_eq!(write_buf.len(), body_len);
    assert_eq!(&write_buf, &content[0..body_len]);
    assert_eq!(source.rest(), b"XXX");
}

#[test]
fn fixed_length_zero_sends_last_chunk_only() {
    let mut source = ScriptedSource::new(&[b"XXX"]);
    let mut body_transfer =
        H1BodyToChunkedTransfer::new_fixed_length(0, StreamCopyConfig::default());
    assert!(!body_transfer.no_cached_data());
    let (r, write_buf) = run(&mut body_transfer, &mut source, usize::MAX);
    assert_eq!(r, Ok(0));
    assert!(body_transfer.finished());
    assert_eq!(&write_buf, b"0\r\n\r\n");
    assert_eq!(source.rest(), b"XXX");
}

#[test]
fn fixed_length_short_source_is_a_read_failure() {
    let mut source = ScriptedSource::new(&[b"test"]);
    let mut body_transfer =
        H1BodyToChunkedTransfer::new_fixed_length(9, StreamCopyConfig::default());
    let (r, write_buf) = run(&mut body_transfer, &mut source, usize::MAX);
    assert_eq!(r, Err(StreamCopyError::ReadFailed(IoFailure::UnexpectedEof)));
    assert!(!body_transfer.finished());
    assert_eq!(&write_buf, b"9\r\ntest");
}

#[test]
fn short_writes_do_not_change_the_output() {
    let mut source = ScriptedSource::new(&[b"test body", b"- helloXXX"]);
    let mut body_transfer =
        H1BodyToChunkedTransfer::new_fixed_length(16, StreamCopyConfig::default());
    let (r, write_buf) = run(&mut body_transfer, &mut source, 1);
    assert_eq!(r, Ok(16));
    assert_eq!(&write_buf, b"10\r\ntest body- hello\r\n0\r\n\r\n");
}

#[test]
fn zero_write_is_a_write_failure() {
    let mut body_transfer =
        H1BodyToChunkedTransfer::new_fixed_length(9, StreamCopyConfig::default());
    assert_eq!(
        body_transfer.poll(IoOutcome::Begin),
        PollStep::Io(IoRequest::Write)
    );
    assert_eq!(body_transfer.pending_write(), b"9\r\n");
    assert_eq!(
        body_transfer.poll(IoOutcome::Wrote(0)),
        PollStep::Failed(StreamCopyError::WriteFailed(IoFailure::WriteZero))
    );
}

#[test]
fn chunked_after_preview_sends_rest_of_first_chunk() {
    let content = b"body\r\n0\r\n\r\nXXX";
    let mut source = ScriptedSource::new(&[content]);
    let mut body_transfer = H1BodyToChunkedTransfer::new_chunked_after_preview(
        4,
        1024,
        StreamCopyConfig::default(),
    );
    let (r, write_buf) = run(&mut body_transfer, &mut source, usize::MAX);
    r.unwrap();
    assert_eq!(&write_buf, b"4\r\nbody\r\n0\r\n\r\n");
    assert_eq!(source.rest(), b"XXX");
}

#[test]
fn chunked_after_preview_with_nothing_left_is_plain_chunked() {
    let content = b"4\r\nbody\r\n0\r\n\r\nXXX";
    let mut source = ScriptedSource::new(&[content]);
    let mut body_transfer = H1BodyToChunkedTransfer::new_chunked_after_preview(
        0,
        1024,
        StreamCopyConfig::default(),
    );
    let (r, write_buf) = run(&mut body_transfer, &mut source, usize::MAX);
    r.unwrap();
    assert_eq!(&write_buf, b"4\r\nbody\r\n0\r\n\r\n");
}

#[test]
fn flush_end_is_followed_by_end() {
    let mut source = ScriptedSource::new(&[b"a"]);
    let mut body_transfer =
        H1BodyToChunkedTransfer::new_fixed_length(1, StreamCopyConfig::default());
    let (r, _) = run(&mut body_transfer, &mut source, usize::MAX);
    assert_eq!(r, Ok(1));
    assert!(body_transfer.finished());
    assert!(body_transfer.no_cached_data());
    assert_eq!(
        body_transfer.poll(IoOutcome::Begin),
        PollStep::Io(IoRequest::Flush)
    );
    assert_eq!(body_transfer.poll(IoOutcome::Flushed), PollStep::Done(1));
    assert_eq!(body_transfer.poll(IoOutcome::Begin), PollStep::Done(1));
}

#[test]
fn activity_flag_follows_progress() {
    let mut body_transfer =
        H1BodyToChunkedTransfer::new_read_until_end(StreamCopyConfig::default());
    assert!(body_transfer.is_idle());
    assert_eq!(
        body_transfer.poll(IoOutcome::Begin),
        PollStep::Io(IoRequest::Fill)
    );
    assert_eq!(body_transfer.poll(IoOutcome::NotReady), PollStep::Pending);
    assert!(body_transfer.is_idle());
    assert!(body_transfer.no_cached_data());
    assert_eq!(
        body_transfer.poll(IoOutcome::Begin),
        PollStep::Io(IoRequest::Fill)
    );
    assert_eq!(
        body_transfer.poll(IoOutcome::Filled(b"abc")),
        PollStep::Io(IoRequest::Write)
    );
    assert_eq!(body_transfer.consumed(), 3);
    assert_eq!(body_transfer.poll(IoOutcome::NotReady), PollStep::Pending);
    assert!(!body_transfer.is_idle());
    assert!(!body_transfer.no_cached_data());
    body_transfer.reset_active();
    assert!(body_transfer.is_idle());
}

#[test]
fn invalid_chunk_size_is_a_read_failure() {
    let mut source = ScriptedSource::new(&[b"zz\r\n"]);
    let mut body_transfer =
        H1BodyToChunkedTransfer::new_chunked(1024, StreamCopyConfig::default());
    let (r, write_buf) = run(&mut body_transfer, &mut source, usize::MAX);
    assert!(matches!(
        r,
        Err(StreamCopyError::ReadFailed(IoFailure::InvalidBody(_)))
    ));
    assert!(write_buf.is_empty());
}

#[test]
fn total_written_never_goes_down() {
    let mut source = ScriptedSource::new(&[b"test body", b"- helloXXX"]);
    let mut transfer = H1BodyToChunkedTransfer::new_fixed_length(16, StreamCopyConfig::default());
    let mut last = transfer.total_written();
    let mut step = transfer.poll(IoOutcome::Begin);
    loop {
        assert!(transfer.total_written() >= last);
        last = transfer.total_written();
        step = match step {
            PollStep::Io(IoRequest::Fill) => {
                let data = source.fill();
                let next = transfer.poll(IoOutcome::Filled(&data));
                source.consume(transfer.consumed());
                next
            }
            PollStep::Io(IoRequest::Write) => {
                assert!(!transfer.pending_write().is_empty());
                transfer.poll(IoOutcome::Wrote(1))
            }
            PollStep::Done(n) => {
                assert_eq!(n, 16);
                break;
            }
            other => panic!("unexpected step {:?}", other),
        };
    }
    assert_eq!(transfer.total_written(), 16);
    assert_eq!(transfer.body_type(), HttpBodyType::FixedLength(16));
}
