//! The escape sequences the splash speaks, as text.
//!
//! Each sequence has a spec function giving its characters and an executable
//! function that appends exactly those characters to a `String`.

use vstd::prelude::*;
use vstd::string::StringExecFns;

use crate::canvas::Rgb;

verus! {

/// The character of one decimal digit.
pub open spec fn digit_char(d: int) -> char
    recommends
        0 <= d < 10,
{
    ((48 + d) as u8) as char
}

/// A number in decimal, without sign or leading zeros.
pub open spec fn decimal(n: nat) -> Seq<char>
    decreases n,
{
    if n < 10 {
        seq![digit_char(n as int)]
    } else {
        decimal(n / 10).push(digit_char((n % 10) as int))
    }
}

/// `ESC [ row ; col H`: moves the cursor to an absolute position, counted
/// from one.
pub open spec fn cursor_to_spec(row: nat, col: nat) -> Seq<char> {
    "\x1b["@ + decimal(row) + ";"@ + decimal(col) + "H"@
}

/// `ESC [ 38 ; 2 ; r ; g ; b m`: 24-bit foreground colour.
pub open spec fn foreground_spec(c: Rgb) -> Seq<char> {
    "\x1b[38;2;"@ + decimal(c.r as nat) + ";"@ + decimal(c.g as nat) + ";"@ + decimal(c.b as nat)
        + "m"@
}

/// `ESC [ 48 ; 2 ; r ; g ; b m` for a 24-bit background colour, `ESC [ 49 m`
/// for the terminal's own background.
pub open spec fn background_spec(c: Option<Rgb>) -> Seq<char> {
    match c {
        Some(c) => "\x1b[48;2;"@ + decimal(c.r as nat) + ";"@ + decimal(c.g as nat) + ";"@
            + decimal(c.b as nat) + "m"@,
        None => "\x1b[49m"@,
    }
}

/// `ESC [ 3 n m`: one of the eight basic foreground colours.
pub open spec fn basic_foreground_spec(n: u8) -> Seq<char> {
    "\x1b[3"@ + decimal(n as nat) + "m"@
}

/// `ESC [ row ; 1 H ESC [ 2 K`: erases one line of the screen.
pub open spec fn erase_row_spec(row: nat) -> Seq<char> {
    cursor_to_spec(row, 1) + "\x1b[2K"@
}

/// Lines `from` up to, not including, `to`, erased in order.
pub open spec fn erase_rows_spec(from: nat, to: nat) -> Seq<char>
    decreases to - from,
{
    if from >= to {
        Seq::empty()
    } else {
        erase_row_spec(from) + erase_rows_spec(from + 1, to)
    }
}

/// Resets colours and attributes.
pub const RESET: &'static str = "\x1b[0m";

pub const HIDE_CURSOR: &'static str = "\x1b[?25l";

pub const SHOW_CURSOR: &'static str = "\x1b[?25h";

/// Erases the line the cursor is on.
pub const ERASE_LINE: &'static str = "\x1b[2K";

/// Device Status Report request: asks the terminal where the cursor is.
pub const CURSOR_QUERY: &'static str = "\x1b[6n";

/// Appends `n` in decimal.
pub fn push_number(out: &mut String, n: u64)
    ensures
        final(out)@ == old(out)@ + decimal(n as nat),
    decreases n,
{
    if n >= 10 {
        push_number(out, n / 10);
    }
    let d: u8 = (n % 10) as u8;
    out.push((48 + d) as char);
    assert(final(out)@ =~= old(out)@ + decimal(n as nat));
}

/// Appends `n` in decimal.
pub fn push_decimal(out: &mut String, n: u32)
    ensures
        final(out)@ == old(out)@ + decimal(n as nat),
{
    push_number(out, n as u64);
}

pub fn push_cursor_to(out: &mut String, row: u32, col: u32)
    ensures
        final(out)@ == old(out)@ + cursor_to_spec(row as nat, col as nat),
{
    out.append("\x1b[");
    push_decimal(out, row);
    out.append(";");
    push_decimal(out, col);
    out.append("H");
    assert(final(out)@ =~= old(out)@ + cursor_to_spec(row as nat, col as nat));
}

pub fn push_foreground(out: &mut String, c: Rgb)
    ensures
        final(out)@ == old(out)@ + foreground_spec(c),
{
    out.append("\x1b[38;2;");
    push_decimal(out, c.r as u32);
    out.append(";");
    push_decimal(out, c.g as u32);
    out.append(";");
    push_decimal(out, c.b as u32);
    out.append("m");
    assert(final(out)@ =~= old(out)@ + foreground_spec(c));
}

pub fn push_background(out: &mut String, c: Option<Rgb>)
    ensures
        final(out)@ == old(out)@ + background_spec(c),
{
    match c {
        Some(c) => {
            out.append("\x1b[48;2;");
            push_decimal(out, c.r as u32);
            out.append(";");
            push_decimal(out, c.g as u32);
            out.append(";");
            push_decimal(out, c.b as u32);
            out.append("m");
        },
        None => {
            out.append("\x1b[49m");
        },
    }
    assert(final(out)@ =~= old(out)@ + background_spec(c));
}

pub fn push_basic_foreground(out: &mut String, n: u8)
    ensures
        final(out)@ == old(out)@ + basic_foreground_spec(n),
{
    out.append("\x1b[3");
    push_decimal(out, n as u32);
    out.append("m");
    assert(final(out)@ =~= old(out)@ + basic_foreground_spec(n));
}

pub fn push_erase_row(out: &mut String, row: u32)
    ensures
        final(out)@ == old(out)@ + erase_row_spec(row as nat),
{
    push_cursor_to(out, row, 1);
    out.append("\x1b[2K");
    assert(final(out)@ =~= old(out)@ + erase_row_spec(row as nat));
}

/// The text that erases lines `from` up to, not including, `to`.
pub fn erase_rows(from: u32, to: u32) -> (out: String)
    ensures
        out@ == erase_rows_spec(from as nat, to as nat),
{
    let mut out = String::new();
    let mut row: u32 = from;
    while row < to
        invariant
            out@ + erase_rows_spec(row as nat, to as nat) == erase_rows_spec(
                from as nat,
                to as nat,
            ),
        decreases to - row,
    {
        let ghost before = out@;
        push_erase_row(&mut out, row);
        assert(out@ + erase_rows_spec((row + 1) as nat, to as nat) =~= before + erase_rows_spec(
            row as nat,
            to as nat,
        ));
        row += 1;
    }
    assert(out@ =~= out@ + erase_rows_spec(row as nat, to as nat));
    out
}

} // verus!
