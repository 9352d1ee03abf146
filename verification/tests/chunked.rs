use g3_transfer::chunked::frame::{
    push_chunk_frame, push_closing_bytes, push_last_chunk, push_size_line,
};
use g3_transfer::chunked::hex::{hex_digit_of, push_hex};
use g3_transfer::chunked::phase::{phase_halted, step_phase, BodyError, BodyPhase, ScanRules};

fn hex(n: u64) -> Vec<u8> {
    let mut out = Vec::new();
    push_hex(n, &mut out);
    out
}

#[test]
fn hex_is_shortest_lower_case() {
    assert_eq!(hex(0), b"0");
    assert_eq!(hex(9), b"9");
    assert_eq!(hex(10), b"a");
    assert_eq!(hex(15), b"f");
    assert_eq!(hex(16), b"10");
    assert_eq!(hex(255), b"ff");
    assert_eq!(hex(4096), b"1000");
    assert_eq!(hex(0xdead_beef), b"deadbeef");
    assert_eq!(hex(u64::MAX), b"ffffffffffffffff");
}

#[test]
fn hex_appends() {
    let mut out = b"x".to_vec();
    push_hex(26, &mut out);
    assert_eq!(&out, b"x1a");
}

#[test]
fn hex_digits_of_either_case_are_read() {
    assert_eq!(hex_digit_of(b'0'), Some(0));
    assert_eq!(hex_digit_of(b'9'), Some(9));
    assert_eq!(hex_digit_of(b'a'), Some(10));
    assert_eq!(hex_digit_of(b'f'), Some(15));
    assert_eq!(hex_digit_of(b'A'), Some(10));
    assert_eq!(hex_digit_of(b'F'), Some(15));
    assert_eq!(hex_digit_of(b'g'), None);
    assert_eq!(hex_digit_of(b'G'), None);
    assert_eq!(hex_digit_of(b'/'), None);
    assert_eq!(hex_digit_of(b':'), None);
    assert_eq!(hex_digit_of(b'@'), None);
    assert_eq!(hex_digit_of(b'`'), None);
}

#[test]
fn hex_reads_back() {
    for n in [0u64, 1, 15, 16, 17, 255, 256, 65535, 1 << 40, u64::MAX] {
        let mut v: u64 = 0;
        for d in hex(n) {
            v = v * 16 + hex_digit_of(d).unwrap() as u64;
        }
        assert_eq!(v, n);
    }
}

#[test]
fn frames_are_size_line_data_and_line_end() {
    let mut out = Vec::new();
    push_chunk_frame(b"test body", &mut out);
    assert_eq!(&out, b"9\r\ntest body\r\n");
    push_chunk_frame(b"0123456789abcdef", &mut out);
    assert_eq!(&out, b"9\r\ntest body\r\n10\r\n0123456789abcdef\r\n");
    push_last_chunk(&mut out);
    assert_eq!(
        &out,
        b"9\r\ntest body\r\n10\r\n0123456789abcdef\r\n0\r\n\r\n"
    );
}

#[test]
fn size_line_and_closing_bytes() {
    let mut out = Vec::new();
    push_size_line(31, &mut out);
    assert_eq!(&out, b"1f\r\n");
    let mut out = Vec::new();
    push_closing_bytes(&mut out);
    assert_eq!(&out, b"\r\n0\r\n\r\n");
}

#[test]
fn scanner_walks_through_a_chunk() {
    let rules = ScanRules {
        line_max: 64,
        decode: false,
    };
    let mut p = BodyPhase::Size { value: 0, len: 0 };
    let mut seen = Vec::new();
    for b in b"1a;x\r\n" {
        p = step_phase(p, *b, rules);
        seen.push(p);
    }
    assert_eq!(
        seen,
        vec![
            BodyPhase::Size { value: 1, len: 1 },
            BodyPhase::Size { value: 26, len: 2 },
            BodyPhase::Ext { value: 26, len: 3 },
            BodyPhase::Ext { value: 26, len: 4 },
            BodyPhase::SizeLf { value: 26, len: 5 },
            BodyPhase::Data { left: 26 },
        ]
    );
    p = BodyPhase::Data { left: 2 };
    p = step_phase(p, b'x', rules);
    assert_eq!(p, BodyPhase::Data { left: 1 });
    p = step_phase(p, b'y', rules);
    assert_eq!(p, BodyPhase::DataCr);
    p = step_phase(p, b'\r', rules);
    assert_eq!(p, BodyPhase::DataLf);
    p = step_phase(p, b'\n', rules);
    assert_eq!(p, BodyPhase::Size { value: 0, len: 0 });
}

#[test]
fn scanner_walks_through_a_trailer() {
    let rules = ScanRules {
        line_max: 64,
        decode: false,
    };
    let mut p = BodyPhase::Size { value: 0, len: 0 };
    let mut seen = Vec::new();
    for b in b"0\r\nA\r\n\r\n" {
        p = step_phase(p, *b, rules);
        seen.push(p);
    }
    assert_eq!(
        seen,
        vec![
            BodyPhase::Size { value: 0, len: 1 },
            BodyPhase::SizeLf { value: 0, len: 2 },
            BodyPhase::TrailerStart,
            BodyPhase::TrailerLine,
            BodyPhase::TrailerLf,
            BodyPhase::TrailerStart,
            BodyPhase::LastLf,
            BodyPhase::End,
        ]
    );
}

#[test]
fn halting_depends_on_decoding() {
    let plain = ScanRules {
        line_max: 64,
        decode: false,
    };
    let decode = ScanRules {
        line_max: 64,
        decode: true,
    };
    assert!(!phase_halted(BodyPhase::TrailerStart, plain));
    assert!(phase_halted(BodyPhase::TrailerStart, decode));
    assert!(phase_halted(BodyPhase::End, plain));
    assert!(phase_halted(BodyPhase::Ended, plain));
    assert!(phase_halted(BodyPhase::Fixed { left: 0 }, plain));
    assert!(!phase_halted(BodyPhase::Fixed { left: 1 }, plain));
    assert!(!phase_halted(BodyPhase::UntilEnd, decode));
    assert!(phase_halted(
        BodyPhase::Failed(BodyError::InvalidTrailer),
        plain
    ));
}
