use g3_transfer::body::body_type::HttpBodyType;
use g3_transfer::body::reader::{HttpBodyDecodeReader, HttpBodyReader, TrailerError};
use g3_transfer::chunked::phase::BodyError;
use g3_transfer::io::IoFailure;

#[test]
fn chunked_reader_stops_at_body_end() {
    let content = b"5\r\ntest\n\r\n4\r\nbody\r\n0\r\n\r\nXXX";
    let mut reader = HttpBodyReader::new_chunked(1024);
    let mut out = Vec::new();
    assert_eq!(reader.read(content, 1024, &mut out), Ok(24));
    assert!(reader.finished());
    assert_eq!(&out, &content[..24]);
    assert_eq!(reader.read(&content[24..], 1024, &mut out), Ok(0));
    assert_eq!(out.len(), 24);
}

#[test]
fn chunked_reader_keeps_trailer() {
    let content = b"5\r\ntest\n\r\n4\r\nbody\r\n0\r\nA: B\r\n\r\nXXX";
    let mut reader = HttpBodyReader::new(HttpBodyType::Chunked, 1024);
    let mut out = Vec::new();
    assert_eq!(reader.read(content, 1024, &mut out), Ok(30));
    assert!(reader.finished());
    assert_eq!(&out, &content[..30]);
}

#[test]
fn chunked_reader_goes_on_across_reads() {
    let mut reader = HttpBodyReader::new_chunked(1024);
    let mut out = Vec::new();
    assert_eq!(reader.read(b"5\r\ntest\n\r\n4\r", 1024, &mut out), Ok(12));
    assert!(!reader.finished());
    assert_eq!(reader.read(b"\nbody\r\n0\r\n\r\nXXX", 1024, &mut out), Ok(12));
    assert!(reader.finished());
    assert_eq!(&out, b"5\r\ntest\n\r\n4\r\nbody\r\n0\r\n\r\n");
}

#[test]
fn chunked_reader_respects_room() {
    let content = b"5\r\ntest\n\r\n0\r\n\r\n";
    let mut reader = HttpBodyReader::new_chunked(1024);
    let mut out = Vec::new();
    assert_eq!(reader.read(content, 4, &mut out), Ok(4));
    assert_eq!(&out, b"5\r\nt");
    assert_eq!(reader.read(&content[4..], 0, &mut out), Ok(0));
    assert_eq!(reader.read(&content[4..], 100, &mut out), Ok(11));
    assert!(reader.finished());
    assert_eq!(&out, content);
}

#[test]
fn chunk_extension_and_upper_case_size_are_accepted() {
    let content = b"A;name=value\r\n0123456789\r\n0\r\n\r\n";
    let mut reader = HttpBodyReader::new_chunked(1024);
    let mut out = Vec::new();
    assert_eq!(reader.read(content, 1024, &mut out), Ok(content.len()));
    assert!(reader.finished());

    let mut decoder = HttpBodyDecodeReader::new_chunked(1024);
    let mut payload = Vec::new();
    assert_eq!(
        decoder.read(content, 1024, &mut payload),
        Ok(content.len() - 2)
    );
    assert_eq!(&payload, b"0123456789");
}

#[test]
fn size_line_longer_than_limit_is_rejected() {
    let mut out = Vec::new();
    let mut reader = HttpBodyReader::new_chunked(3);
    assert_eq!(reader.read(b"5\r\nhello\r\n0\r\n\r\n", 1024, &mut out), Ok(15));

    let mut reader = HttpBodyReader::new_chunked(2);
    let mut out = Vec::new();
    assert_eq!(
        reader.read(b"5\r\nhello\r\n0\r\n\r\n", 1024, &mut out),
        Err(BodyError::LineTooLong)
    );
    assert!(out.is_empty());
    assert!(!reader.finished());

    let mut reader = HttpBodyReader::new_chunked(4);
    assert_eq!(
        reader.read(b"00005\r\n", 1024, &mut out),
        Err(BodyError::LineTooLong)
    );
}

#[test]
fn malformed_chunk_sizes_are_rejected() {
    for bad in [&b"zz\r\n"[..], &b"\r\n"[..], &b"5 \r\n"[..], &b";a\r\n"[..]] {
        let mut reader = HttpBodyReader::new_chunked(1024);
        let mut out = Vec::new();
        assert_eq!(
            reader.read(bad, 1024, &mut out),
            Err(BodyError::InvalidChunkSize)
        );
        assert!(out.is_empty());
    }
}

#[test]
fn chunk_size_of_more_than_64_bits_is_rejected() {
    let mut reader = HttpBodyReader::new_chunked(1024);
    let mut out = Vec::new();
    assert_eq!(
        reader.read(b"10000000000000000\r\n", 1024, &mut out),
        Err(BodyError::ChunkSizeOverflow)
    );

    let mut reader = HttpBodyReader::new_chunked(1024);
    assert_eq!(reader.read(b"ffffffffffffffff\r\n", 1024, &mut out), Ok(18));
}

#[test]
fn bare_line_ends_are_rejected() {
    let mut out = Vec::new();
    let mut reader = HttpBodyReader::new_chunked(1024);
    assert_eq!(
        reader.read(b"5;a\nx", 1024, &mut out),
        Err(BodyError::InvalidLineEnd)
    );
    let mut reader = HttpBodyReader::new_chunked(1024);
    assert_eq!(
        reader.read(b"5\rX", 1024, &mut out),
        Err(BodyError::InvalidLineEnd)
    );
    let mut reader = HttpBodyReader::new_chunked(1024);
    assert_eq!(
        reader.read(b"1\r\naXX", 1024, &mut out),
        Err(BodyError::InvalidChunkEnd)
    );
    let mut reader = HttpBodyReader::new_chunked(1024);
    assert_eq!(
        reader.read(b"1\r\na\rX", 1024, &mut out),
        Err(BodyError::InvalidChunkEnd)
    );
    let mut reader = HttpBodyReader::new_chunked(1024);
    assert_eq!(
        reader.read(b"0\r\n\nX", 1024, &mut out),
        Err(BodyError::InvalidTrailer)
    );
    let mut reader = HttpBodyReader::new_chunked(1024);
    assert_eq!(
        reader.read(b"0\r\nA\rX", 1024, &mut out),
        Err(BodyError::InvalidTrailer)
    );
    let mut reader = HttpBodyReader::new_chunked(1024);
    assert_eq!(
        reader.read(b"0\r\n\rX", 1024, &mut out),
        Err(BodyError::InvalidTrailer)
    );
    assert!(out.is_empty());
}

#[test]
fn failed_read_leaves_output_untouched() {
    let mut reader = HttpBodyReader::new_chunked(1024);
    let mut out = b"kept".to_vec();
    assert_eq!(
        reader.read(b"2\r\nabXX", 1024, &mut out),
        Err(BodyError::InvalidChunkEnd)
    );
    assert_eq!(&out, b"kept");
}

#[test]
fn fixed_length_reader_takes_exactly_the_length() {
    let mut reader = HttpBodyReader::new_fixed_length(5);
    let mut out = Vec::new();
    assert_eq!(reader.read(b"12", 100, &mut out), Ok(2));
    assert!(!reader.finished());
    assert_eq!(reader.read(b"34567", 100, &mut out), Ok(3));
    assert!(reader.finished());
    assert_eq!(&out, b"12345");
    assert_eq!(reader.read(b"67", 100, &mut out), Ok(0));
    assert_eq!(reader.end_of_source(), Ok(()));
}

#[test]
fn fixed_length_reader_of_nothing_is_finished() {
    let reader = HttpBodyReader::new_fixed_length(0);
    assert!(reader.finished());
}

#[test]
fn end_of_source_inside_a_body_is_unexpected() {
    let mut reader = HttpBodyReader::new_fixed_length(5);
    let mut out = Vec::new();
    assert_eq!(reader.read(b"12", 100, &mut out), Ok(2));
    assert_eq!(reader.end_of_source(), Err(IoFailure::UnexpectedEof));

    let mut reader = HttpBodyReader::new_chunked(64);
    assert_eq!(reader.read(b"5\r\nab", 100, &mut out), Ok(5));
    assert_eq!(reader.end_of_source(), Err(IoFailure::UnexpectedEof));
}

#[test]
fn until_end_reader_ends_with_its_source() {
    let mut reader = HttpBodyReader::new_read_until_end();
    let mut out = Vec::new();
    assert_eq!(reader.read(b"anything at all", 100, &mut out), Ok(15));
    assert!(!reader.finished());
    assert_eq!(reader.end_of_source(), Ok(()));
    assert!(reader.finished());
    assert_eq!(reader.read(b"more", 100, &mut out), Ok(0));
}

#[test]
fn reader_after_preview_starts_inside_the_chunk() {
    let mut reader = HttpBodyReader::new_chunked_after_preview(1024, 4);
    let mut out = Vec::new();
    assert_eq!(reader.read(b"body\r\n0\r\n\r\nXXX", 100, &mut out), Ok(11));
    assert!(reader.finished());

    let mut reader = HttpBodyReader::new_chunked_after_preview(1024, 0);
    let mut out = Vec::new();
    assert_eq!(reader.read(b"0\r\n\r\nXXX", 100, &mut out), Ok(5));
    assert!(reader.finished());
}

#[test]
fn decode_reader_strips_framing_and_stops_before_trailer() {
    let content = b"5\r\ntest\n\r\n4\r\nbody\r\n0\r\n\r\nXXX";
    let mut reader = HttpBodyDecodeReader::new_chunked(1024);
    let mut out = Vec::new();
    assert_eq!(reader.read(content, 1024, &mut out), Ok(22));
    assert!(reader.finished());
    assert_eq!(&out, b"test\nbody");
    assert_eq!(reader.trailer(&content[22..], 128), Ok((2, true)));
    assert_eq!(reader.trailer(&content[24..], 128), Ok((0, true)));
}

#[test]
fn decode_reader_skips_a_trailer_in_pieces() {
    let mut reader = HttpBodyDecodeReader::new_chunked(1024);
    let mut out = Vec::new();
    assert_eq!(reader.read(b"0\r\n", 1024, &mut out), Ok(3));
    assert!(out.is_empty());
    assert_eq!(reader.trailer(b"A: ", 128), Ok((3, false)));
    assert_eq!(reader.trailer(b"B\r\n\r", 128), Ok((4, false)));
    assert_eq!(reader.trailer(b"\nXXX", 128), Ok((1, true)));
}

#[test]
fn trailer_is_bounded() {
    let mut reader = HttpBodyDecodeReader::new_chunked(1024);
    let mut out = Vec::new();
    assert_eq!(reader.read(b"0\r\n", 1024, &mut out), Ok(3));
    assert_eq!(
        reader.trailer(b"A: B\r\n\r\n", 4),
        Err(TrailerError::TooLarge)
    );

    let mut reader = HttpBodyDecodeReader::new_chunked(1024);
    assert_eq!(reader.read(b"0\r\n", 1024, &mut out), Ok(3));
    assert_eq!(reader.trailer(b"A: B\r\n\r\n", 8), Ok((8, true)));

    let mut reader = HttpBodyDecodeReader::new_chunked(1024);
    assert_eq!(reader.read(b"0\r\n", 1024, &mut out), Ok(3));
    assert_eq!(reader.trailer(b"A: B", 6), Ok((4, false)));
    assert_eq!(reader.trailer(b"\r\n\r\n", 6), Err(TrailerError::TooLarge));
}

#[test]
fn trailer_needs_a_finished_body_and_a_living_source() {
    let mut reader = HttpBodyDecodeReader::new_chunked(1024);
    assert_eq!(
        reader.trailer(b"\r\n", 128),
        Err(TrailerError::BodyUnfinished)
    );
    let mut out = Vec::new();
    assert_eq!(reader.read(b"0\r\n", 1024, &mut out), Ok(3));
    assert_eq!(reader.trailer(b"", 128), Err(TrailerError::UnexpectedEof));
    assert_eq!(
        reader.trailer(b"\nX", 128),
        Err(TrailerError::Invalid(BodyError::InvalidTrailer))
    );
    assert_eq!(
        reader.trailer(b"\r\n", 128),
        Err(TrailerError::Invalid(BodyError::InvalidTrailer))
    );
}

#[test]
fn body_types_know_their_length() {
    assert_eq!(HttpBodyType::FixedLength(7).fixed_length(), Some(7));
    assert_eq!(HttpBodyType::ReadUntilEnd.fixed_length(), None);
    assert_eq!(HttpBodyType::Chunked.fixed_length(), None);
}
