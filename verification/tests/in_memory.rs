use g3_transfer::body::body_type::HttpBodyType;
use g3_transfer::body::in_memory::transfer_in_memory;
use g3_transfer::chunked::phase::BodyError;
use g3_transfer::copy_config::StreamCopyConfig;
use g3_transfer::copy_in_memory::{copy_in_memory, decode_chunked_in_memory};
use g3_transfer::io::{IoFailure, StreamCopyError};

fn run(body_type: HttpBodyType, source: &[u8]) -> Result<(Vec<u8>, usize), StreamCopyError> {
    transfer_in_memory(body_type, 1024, StreamCopyConfig::default(), source)
}

#[test]
fn until_end_body_becomes_one_chunk_and_the_last() {
    assert_eq!(
        run(HttpBodyType::ReadUntilEnd, b"test body"),
        Ok((b"9\r\ntest body\r\n0\r\n\r\n".to_vec(), 9))
    );
    assert_eq!(
        run(HttpBodyType::ReadUntilEnd, b""),
        Ok((b"0\r\n\r\n".to_vec(), 0))
    );
}

#[test]
fn until_end_body_is_cut_at_the_buffer_size() {
    let source = vec![b'x'; 10_000];
    let config = StreamCopyConfig::new(4096, 262144);
    let (out, used) =
        transfer_in_memory(HttpBodyType::ReadUntilEnd, 1024, config, &source).unwrap();
    assert_eq!(used, 10_000);
    let mut expected = Vec::new();
    expected.extend_from_slice(b"1000\r\n");
    expected.extend_from_slice(&source[..4096]);
    expected.extend_from_slice(b"\r\n1000\r\n");
    expected.extend_from_slice(&source[..4096]);
    expected.extend_from_slice(b"\r\n710\r\n");
    expected.extend_from_slice(&source[..1808]);
    expected.extend_from_slice(b"\r\n0\r\n\r\n");
    assert_eq!(out, expected);
}

#[test]
fn fixed_length_body_takes_its_length() {
    assert_eq!(
        run(HttpBodyType::FixedLength(9), b"test bodyXXX"),
        Ok((b"9\r\ntest body\r\n0\r\n\r\n".to_vec(), 9))
    );
    assert_eq!(
        run(HttpBodyType::FixedLength(16), b"test body- helloXXX"),
        Ok((b"10\r\ntest body- hello\r\n0\r\n\r\n".to_vec(), 16))
    );
    assert_eq!(
        run(HttpBodyType::FixedLength(0), b"XXX"),
        Ok((b"0\r\n\r\n".to_vec(), 0))
    );
    assert_eq!(
        run(HttpBodyType::FixedLength(3), b"abc"),
        Ok((b"3\r\nabc\r\n0\r\n\r\n".to_vec(), 3))
    );
}

#[test]
fn fixed_length_body_that_is_cut_short_fails() {
    assert_eq!(
        run(HttpBodyType::FixedLength(9), b"test"),
        Err(StreamCopyError::ReadFailed(IoFailure::UnexpectedEof))
    );
    assert_eq!(
        run(HttpBodyType::FixedLength(1), b""),
        Err(StreamCopyError::ReadFailed(IoFailure::UnexpectedEof))
    );
}

#[test]
fn large_fixed_length_body_is_one_chunk() {
    let source: Vec<u8> = (0..100_000u32).map(|i| (i % 253) as u8).collect();
    let (out, used) = run(HttpBodyType::FixedLength(70_000), &source).unwrap();
    assert_eq!(used, 70_000);
    let mut expected = b"11170\r\n".to_vec();
    expected.extend_from_slice(&source[..70_000]);
    expected.extend_from_slice(b"\r\n0\r\n\r\n");
    assert_eq!(out, expected);
}

#[test]
fn chunked_body_passes_through_up_to_its_end() {
    let content = b"5\r\ntest\n\r\n4\r\nbody\r\n0\r\n\r\nXXX";
    assert_eq!(
        run(HttpBodyType::Chunked, content),
        Ok((content[..24].to_vec(), 24))
    );
    let content = b"5\r\ntest\n\r\n4\r\nbody\r\n0\r\nA: B\r\n\r\nXXX";
    assert_eq!(
        run(HttpBodyType::Chunked, content),
        Ok((content[..30].to_vec(), 30))
    );
}

#[test]
fn chunked_body_that_is_malformed_or_cut_short_fails() {
    assert_eq!(
        run(HttpBodyType::Chunked, b"5\r\ntest\nXX"),
        Err(StreamCopyError::ReadFailed(IoFailure::InvalidBody(
            BodyError::InvalidChunkEnd
        )))
    );
    assert_eq!(
        run(HttpBodyType::Chunked, b"5\r\ntest\n\r\n0\r\n"),
        Err(StreamCopyError::ReadFailed(IoFailure::UnexpectedEof))
    );
    assert_eq!(
        run(HttpBodyType::Chunked, b""),
        Err(StreamCopyError::ReadFailed(IoFailure::UnexpectedEof))
    );
    assert_eq!(
        transfer_in_memory(
            HttpBodyType::Chunked,
            4,
            StreamCopyConfig::default(),
            b"5;ext\r\nhello\r\n0\r\n\r\n"
        ),
        Err(StreamCopyError::ReadFailed(IoFailure::InvalidBody(
            BodyError::LineTooLong
        )))
    );
}

#[test]
fn large_chunked_body_passes_through() {
    let mut content = Vec::new();
    for i in 0..200u32 {
        let data = vec![(i % 251) as u8; 100 + i as usize];
        content.extend_from_slice(format!("{:X}\r\n", data.len()).as_bytes());
        content.extend_from_slice(&data);
        content.extend_from_slice(b"\r\n");
    }
    content.extend_from_slice(b"0\r\nTrailer: yes\r\n\r\n");
    let body_len = content.len();
    content.extend_from_slice(b"GET / HTTP/1.1\r\n");
    let config = StreamCopyConfig::new(4096, 262144);
    let (out, used) = transfer_in_memory(HttpBodyType::Chunked, 64, config, &content).unwrap();
    assert_eq!(used, body_len);
    assert_eq!(out, &content[..body_len]);
}

#[test]
fn copy_in_memory_hands_on_the_body_as_it_stands() {
    let content = b"5\r\ntest\n\r\n4\r\nbody\r\n0\r\nA: B\r\n\r\nXXX";
    assert_eq!(
        copy_in_memory(HttpBodyType::Chunked, 64, StreamCopyConfig::default(), content),
        Ok((content[..30].to_vec(), 30))
    );
    assert_eq!(
        copy_in_memory(
            HttpBodyType::FixedLength(4),
            0,
            StreamCopyConfig::default(),
            b"bodyXXX"
        ),
        Ok((b"body".to_vec(), 4))
    );
    assert_eq!(
        copy_in_memory(
            HttpBodyType::FixedLength(0),
            0,
            StreamCopyConfig::default(),
            b"XXX"
        ),
        Ok((Vec::new(), 0))
    );
    assert_eq!(
        copy_in_memory(
            HttpBodyType::ReadUntilEnd,
            0,
            StreamCopyConfig::default(),
            b"all of it"
        ),
        Ok((b"all of it".to_vec(), 9))
    );
    assert_eq!(
        copy_in_memory(
            HttpBodyType::FixedLength(9),
            0,
            StreamCopyConfig::default(),
            b"short"
        ),
        Err(StreamCopyError::ReadFailed(IoFailure::UnexpectedEof))
    );
    assert_eq!(
        copy_in_memory(HttpBodyType::Chunked, 64, StreamCopyConfig::default(), b"x\r\n"),
        Err(StreamCopyError::ReadFailed(IoFailure::InvalidBody(
            BodyError::InvalidChunkSize
        )))
    );
}

#[test]
fn decode_in_memory_hands_on_the_payload() {
    let content = b"5\r\ntest\n\r\n4\r\nbody\r\n0\r\nA: B\r\n\r\nXXX";
    assert_eq!(
        decode_chunked_in_memory(64, StreamCopyConfig::default(), content),
        Ok((b"test\nbody".to_vec(), 22))
    );
    assert_eq!(
        decode_chunked_in_memory(64, StreamCopyConfig::default(), b"0\r\n"),
        Ok((Vec::new(), 3))
    );
    assert_eq!(
        decode_chunked_in_memory(64, StreamCopyConfig::default(), b"5\r\ntest"),
        Err(StreamCopyError::ReadFailed(IoFailure::UnexpectedEof))
    );
    assert_eq!(
        decode_chunked_in_memory(64, StreamCopyConfig::default(), b"5\r\ntest\nX"),
        Err(StreamCopyError::ReadFailed(IoFailure::InvalidBody(
            BodyError::InvalidChunkEnd
        )))
    );
    let large: Vec<u8> = (0..20_000u32).map(|i| (i % 249) as u8).collect();
    let mut wire = b"4e20\r\n".to_vec();
    wire.extend_from_slice(&large);
    wire.extend_from_slice(b"\r\n0\r\n\r\n");
    let config = StreamCopyConfig::new(4096, 262144);
    assert_eq!(
        decode_chunked_in_memory(64, config, &wire),
        Ok((large, wire.len() - 2))
    );
}

#[test]
fn echo_in_memory_delivers_the_source() {
    let source: Vec<u8> = (0..9_000u32).map(|i| (i % 247) as u8).collect();
    let config = StreamCopyConfig::new(4096, 262144);
    for body_type in [
        HttpBodyType::ReadUntilEnd,
        HttpBodyType::FixedLength(9_000),
        HttpBodyType::FixedLength(5),
        HttpBodyType::FixedLength(0),
    ] {
        let (sent, taken) = transfer_in_memory(body_type, 1024, config, &source).unwrap();
        let mut reply = sent.clone();
        reply.extend_from_slice(b"HTTP/1.1 200 OK\r\n");
        let (delivered, used) = decode_chunked_in_memory(18, config, &reply).unwrap();
        assert_eq!(delivered, &source[..taken]);
        assert_eq!(used, sent.len() - 2);
    }
}

#[test]
fn echo_needs_room_for_the_size_line() {
    let (sent, _) = run(HttpBodyType::ReadUntilEnd, b"test body").unwrap();
    assert_eq!(
        decode_chunked_in_memory(2, StreamCopyConfig::default(), &sent),
        Err(StreamCopyError::ReadFailed(IoFailure::InvalidBody(
            BodyError::LineTooLong
        )))
    );
    assert_eq!(
        decode_chunked_in_memory(3, StreamCopyConfig::default(), &sent),
        Ok((b"test body".to_vec(), sent.len() - 2))
    );
}

#[test]
fn echo_of_a_chunked_body_in_memory() {
    let content = b"5\r\ntest\n\r\n4\r\nbody\r\n0\r\nA: B\r\n\r\nXXX";
    let (sent, taken) = run(HttpBodyType::Chunked, content).unwrap();
    assert_eq!(taken, 30);
    let mut reply = sent.clone();
    reply.extend_from_slice(b"more");
    assert_eq!(
        copy_in_memory(HttpBodyType::Chunked, 1024, StreamCopyConfig::default(), &reply),
        Ok((content[..30].to_vec(), 30))
    );
}
