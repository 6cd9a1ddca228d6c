use blaeckfetch::ansi::{
    push_background, push_basic_foreground, push_cursor_to, push_decimal, push_erase_row,
    push_foreground, push_number, CURSOR_QUERY, ERASE_LINE, HIDE_CURSOR, RESET, SHOW_CURSOR,
};
use blaeckfetch::canvas::Rgb;

#[test]
fn control_sequences_are_bit_exact() {
    assert_eq!(HIDE_CURSOR.as_bytes(), &[0x1b, b'[', b'?', b'2', b'5', b'l']);
    assert_eq!(SHOW_CURSOR.as_bytes(), &[0x1b, b'[', b'?', b'2', b'5', b'h']);
    assert_eq!(ERASE_LINE.as_bytes(), &[0x1b, b'[', b'2', b'K']);
    assert_eq!(CURSOR_QUERY.as_bytes(), &[0x1b, b'[', b'6', b'n']);
    assert_eq!(RESET.as_bytes(), &[0x1b, b'[', b'0', b'm']);
}

#[test]
fn numbers_are_written_in_decimal() {
    let mut out = String::from("n=");
    push_number(&mut out, 0);
    assert_eq!(out, "n=0");
    push_number(&mut out, 9);
    push_number(&mut out, 10);
    assert_eq!(out, "n=0910");
    let mut out = String::new();
    push_number(&mut out, u64::MAX);
    assert_eq!(out, "18446744073709551615");
    let mut out = String::new();
    push_decimal(&mut out, u32::MAX);
    assert_eq!(out, "4294967295");
    let mut out = String::new();
    push_decimal(&mut out, 1005);
    assert_eq!(out, "1005");
}

#[test]
fn numbers_agree_with_the_standard_library() {
    let mut n: u64 = 0;
    while n < 3000 {
        let mut out = String::new();
        push_number(&mut out, n);
        assert_eq!(out, n.to_string());
        n += 1;
    }
}

#[test]
fn cursor_moves_to_row_and_column() {
    let mut out = String::new();
    push_cursor_to(&mut out, 24, 1);
    assert_eq!(out, "\x1b[24;1H");
    push_cursor_to(&mut out, 1, 80);
    assert_eq!(out, "\x1b[24;1H\x1b[1;80H");
}

#[test]
fn colours_are_written_as_sgr() {
    let mut out = String::new();
    push_foreground(&mut out, Rgb { r: 100, g: 100, b: 120 });
    assert_eq!(out, "\x1b[38;2;100;100;120m");
    let mut out = String::new();
    push_foreground(&mut out, Rgb { r: 0, g: 7, b: 255 });
    assert_eq!(out, "\x1b[38;2;0;7;255m");
    let mut out = String::new();
    push_background(&mut out, Some(Rgb { r: 1, g: 20, b: 255 }));
    assert_eq!(out, "\x1b[48;2;1;20;255m");
    let mut out = String::new();
    push_background(&mut out, None);
    assert_eq!(out, "\x1b[49m");
    let mut out = String::new();
    push_basic_foreground(&mut out, 2);
    push_basic_foreground(&mut out, 7);
    assert_eq!(out, "\x1b[32m\x1b[37m");
}

#[test]
fn a_row_is_erased_from_its_first_column() {
    let mut out = String::from("x");
    push_erase_row(&mut out, 12);
    assert_eq!(out, "x\x1b[12;1H\x1b[2K");
}
