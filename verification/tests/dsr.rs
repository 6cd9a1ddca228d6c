use blaeckfetch::dsr::{parse_cursor_row, ResponseReader, RESPONSE_LIMIT};

fn read_all(bytes: &[u8]) -> ResponseReader {
    let mut reader = ResponseReader::new();
    for b in bytes {
        if !reader.accept(*b) {
            break;
        }
    }
    reader
}

#[test]
fn answer_yields_its_row() {
    assert_eq!(parse_cursor_row(b"\x1b[24;1R"), Some(24));
    assert_eq!(parse_cursor_row(b"\x1b[1;1R"), Some(1));
    assert_eq!(parse_cursor_row(b"\x1b[120;80R"), Some(120));
    assert_eq!(parse_cursor_row(b"\x1b[65535;1R"), Some(65535));
    assert_eq!(parse_cursor_row(b"\x1b[0;0R"), Some(0));
}

#[test]
fn truncated_answer_yields_no_row() {
    assert_eq!(parse_cursor_row(b"\x1b[24;1"), None);
    assert_eq!(parse_cursor_row(b"\x1b[24;"), None);
    assert_eq!(parse_cursor_row(b"\x1b[24"), None);
    assert_eq!(parse_cursor_row(b"\x1b["), None);
    assert_eq!(parse_cursor_row(b"\x1b"), None);
    assert_eq!(parse_cursor_row(b""), None);
    // the byte budget without a final R
    assert_eq!(parse_cursor_row(&[b'1'; 32]), None);
    assert_eq!(parse_cursor_row(b"\x1b[2222222222222222222222222222222"), None);
}

#[test]
fn malformed_answers_yield_no_row() {
    assert_eq!(parse_cursor_row(b"[24;1R"), None);
    assert_eq!(parse_cursor_row(b"\x1b24;1R"), None);
    assert_eq!(parse_cursor_row(b"\x1b[;1R"), None);
    assert_eq!(parse_cursor_row(b"\x1b[R"), None);
    assert_eq!(parse_cursor_row(b"\x1b[a;1R"), None);
    assert_eq!(parse_cursor_row(b"\x1b[2 4;1R"), None);
    assert_eq!(parse_cursor_row(b"\x1b[-3;1R"), None);
    assert_eq!(parse_cursor_row(b"\x1b[24x;1R"), None);
    assert_eq!(parse_cursor_row(b"x\x1b[24;1R"), None);
    assert_eq!(parse_cursor_row(b"\x1b[24;1Rx"), None);
    assert_eq!(parse_cursor_row(b"R"), None);
    assert_eq!(parse_cursor_row(b"\x1b[+R"), None);
    assert_eq!(parse_cursor_row(b"\x1b[+;4R"), None);
}

#[test]
fn row_must_fit_sixteen_bits() {
    assert_eq!(parse_cursor_row(b"\x1b[65535;1R"), Some(65535));
    assert_eq!(parse_cursor_row(b"\x1b[65536;1R"), None);
    assert_eq!(parse_cursor_row(b"\x1b[99999999999999999999;1R"), None);
    assert_eq!(parse_cursor_row(b"\x1b[000000000000000000024;1R"), Some(24));
}

#[test]
fn the_column_must_be_a_number_too() {
    assert_eq!(parse_cursor_row(b"\x1b[24;xR"), None);
    assert_eq!(parse_cursor_row(b"\x1b[24;abcR"), None);
    assert_eq!(parse_cursor_row(b"\x1b[24;1xR"), None);
    assert_eq!(parse_cursor_row(b"\x1b[24; 1R"), None);
    assert_eq!(parse_cursor_row(b"\x1b[24;-1R"), None);
    assert_eq!(parse_cursor_row(b"\x1b[24;+1R"), None);
    assert_eq!(parse_cursor_row(b"\x1b[24;80R"), Some(24));
    assert_eq!(parse_cursor_row(b"\x1b[24;007R"), Some(24));
    assert_eq!(parse_cursor_row(b"\x1b[24;99999999R"), Some(24));
}

#[test]
fn an_answer_has_both_fields_and_one_semicolon() {
    assert_eq!(parse_cursor_row(b"\x1b[24R"), None);
    assert_eq!(parse_cursor_row(b"\x1b[24;R"), None);
    assert_eq!(parse_cursor_row(b"\x1b[;R"), None);
    assert_eq!(parse_cursor_row(b"\x1b[24;1;7R"), None);
    assert_eq!(parse_cursor_row(b"\x1b[24;;1R"), None);
    assert_eq!(parse_cursor_row(b"\x1b[24;1;R"), None);
    assert_eq!(parse_cursor_row(b"\x1b[7;\x1b[9;9R"), None);
    assert_eq!(parse_cursor_row(b"\x1b[24;1RR"), None);
}

#[test]
fn a_sign_is_no_part_of_a_number() {
    assert_eq!(parse_cursor_row(b"\x1b[+24;1R"), None);
    assert_eq!(parse_cursor_row(b"\x1b[-24;1R"), None);
}

#[test]
fn bytes_outside_ascii_are_no_answer() {
    assert_eq!(parse_cursor_row(b"\x1b[24;\xffR"), None);
    assert_eq!(parse_cursor_row(b"\x1b[24;\xc3R"), None);
    assert_eq!(parse_cursor_row("\x1b[24;\u{e9}R".as_bytes()), None);
    assert_eq!(parse_cursor_row("\x1b[2\u{e9};1R".as_bytes()), None);
    assert_eq!(parse_cursor_row("\x1b[\u{664};1R".as_bytes()), None);
}

#[test]
fn reader_stops_at_the_terminator() {
    let mut reader = ResponseReader::new();
    assert!(!reader.is_complete());
    for b in b"\x1b[24;1" {
        assert!(reader.accept(*b));
        assert!(!reader.is_complete());
    }
    assert!(!reader.accept(b'R'));
    assert!(reader.is_complete());
    assert_eq!(reader.bytes, b"\x1b[24;1R");
    assert_eq!(reader.cursor_row(), Some(24));
}

#[test]
fn reader_drops_what_comes_after_the_answer() {
    let mut reader = read_all(b"\x1b[3;9R");
    assert!(!reader.accept(b'x'));
    assert!(!reader.accept(b'R'));
    assert_eq!(reader.bytes, b"\x1b[3;9R");
    assert_eq!(reader.cursor_row(), Some(3));
}

#[test]
fn reader_stops_at_the_byte_budget() {
    assert_eq!(RESPONSE_LIMIT, 32);
    let mut reader = ResponseReader::new();
    for i in 0..40 {
        let more = reader.accept(b'7');
        assert_eq!(more, i < 31, "byte {}", i);
    }
    assert_eq!(reader.bytes.len(), 32);
    assert!(reader.is_complete());
    assert_eq!(reader.cursor_row(), None);
}

#[test]
fn reader_with_a_partial_answer_has_no_row() {
    assert_eq!(ResponseReader::new().cursor_row(), None);
    assert_eq!(read_all(b"\x1b[24;").cursor_row(), None);
    assert_eq!(read_all(b"\x1b[24").cursor_row(), None);
}

#[test]
fn reader_takes_a_lone_terminator() {
    let reader = read_all(b"R\x1b[1;1R");
    assert_eq!(reader.bytes, b"R");
    assert_eq!(reader.cursor_row(), None);
}
