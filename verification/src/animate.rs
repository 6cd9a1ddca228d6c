//! The colour cycle of the logo in the plain display.
//!
//! After the display is printed, the logo is painted again and again over
//! itself, each time in the next colour of the cycle, until a key is
//! pressed; then once more in its own colour.

use vstd::prelude::*;
use vstd::string::{StrSliceExecFns, StringExecFns};
use vstd::utf8::encode_utf8;

use crate::ansi::{
    basic_foreground_spec, cursor_to_spec, push_basic_foreground, push_cursor_to, RESET,
};

verus! {

/// Number of colours in the cycle.
pub const CYCLE_LENGTH: usize = 6;

/// Milliseconds between two colours.
pub const STEP_MS: u64 = 150;

/// Seconds after which the cycle ends by itself.
pub const TIMEOUT_SECS: u64 = 60;

/// The colours of the cycle by their basic colour numbers: green, cyan,
/// blue, magenta, red, yellow.
pub open spec fn cycle_spec(step: int) -> u8 {
    if step == 0 {
        2
    } else if step == 1 {
        6
    } else if step == 2 {
        4
    } else if step == 3 {
        5
    } else if step == 4 {
        1
    } else {
        3
    }
}

/// The colour of a frame of the cycle.
pub fn cycle_color(frame: usize) -> (r: u8)
    ensures
        r == cycle_spec((frame % CYCLE_LENGTH) as int),
        1 <= r <= 6,
{
    let step: usize = frame % CYCLE_LENGTH;
    if step == 0 {
        2
    } else if step == 1 {
        6
    } else if step == 2 {
        4
    } else if step == 3 {
        5
    } else if step == 4 {
        1
    } else {
        3
    }
}

/// The screen row of the first line of the logo, given the row of the
/// cursor under the display and the height of the display. `None` where
/// the logo has scrolled off the top of the screen.
pub fn logo_start_row(cursor_row: u16, total_height: u16) -> (r: Option<u16>)
    ensures
        r == if cursor_row > total_height {
            Some((cursor_row - total_height) as u16)
        } else {
            None
        },
{
    if cursor_row > total_height {
        Some(cursor_row - total_height)
    } else {
        None
    }
}

/// Length of a text in bytes.
pub open spec fn byte_len(s: Seq<char>) -> nat {
    encode_utf8(s).len()
}

/// The greatest length in bytes among the first `n` lines.
pub open spec fn widest(lines: Seq<String>, n: int) -> nat
    decreases n,
{
    if n <= 0 {
        0
    } else {
        let rest = widest(lines, n - 1);
        let this = byte_len(lines[n - 1]@);
        if this > rest {
            this
        } else {
            rest
        }
    }
}

/// The width to which the lines of the logo are padded: the length in
/// bytes of the longest.
pub fn logo_width(lines: &Vec<String>) -> (r: usize)
    ensures
        r == widest(lines@, lines@.len() as int),
{
    let n: usize = lines.len();
    let mut width: usize = 0;
    let mut i: usize = 0;
    while i < n
        invariant
            i <= n,
            n == lines@.len(),
            width == widest(lines@, i as int),
        decreases n - i,
    {
        let len: usize = lines[i].as_str().as_bytes().len();
        if len > width {
            width = len;
        }
        i += 1;
    }
    width
}

/// Spaces that bring a line of `len` characters to `width`.
pub open spec fn padding(len: nat, width: nat) -> Seq<char> {
    Seq::new(
        if width > len {
            (width - len) as nat
        } else {
            0
        },
        |i: int| ' ',
    )
}

/// One line of the logo as it is painted: a cursor move to the start of
/// its row, the colour, the line padded with spaces to `width` characters,
/// and a reset.
pub open spec fn painted_line(line: Seq<char>, row: nat, color: u8, width: nat) -> Seq<char> {
    cursor_to_spec(row, 1) + basic_foreground_spec(color) + line + padding(line.len(), width)
        + RESET@
}

/// The first `n` lines of the logo as they are painted from row
/// `start_row` down.
pub open spec fn painted_logo(lines: Seq<String>, n: int, start_row: u16, color: u8, width: nat) -> Seq<
    char,
>
    decreases n,
{
    if n <= 0 {
        Seq::empty()
    } else {
        painted_logo(lines, n - 1, start_row, color, width) + painted_line(
            lines[n - 1]@,
            (start_row + n - 1) as nat,
            color,
            width,
        )
    }
}

/// The text that paints the logo in one colour.
pub fn logo_frame(lines: &Vec<String>, start_row: u16, color: u8, width: usize) -> (out: String)
    requires
        lines@.len() <= u32::MAX - 0x1_0000,
    ensures
        out@ == painted_logo(lines@, lines@.len() as int, start_row, color, width as nat),
{
    let mut out = String::new();
    let n: usize = lines.len();
    let mut i: usize = 0;
    while i < n
        invariant
            i <= n,
            n == lines@.len(),
            n <= u32::MAX - 0x1_0000,
            out@ == painted_logo(lines@, i as int, start_row, color, width as nat),
        decreases n - i,
    {
        let ghost before = out@;
        let line: &str = lines[i].as_str();
        push_cursor_to(&mut out, start_row as u32 + i as u32, 1);
        push_basic_foreground(&mut out, color);
        out.append(line);
        let len: usize = line.unicode_len();
        let ghost unpadded = out@;
        let mut k: usize = len;
        assert(out@ =~= unpadded + Seq::new(0, |i: int| ' '));
        while k < width
            invariant
                len <= k,
                k <= width || k == len,
                out@ == unpadded + Seq::new((k - len) as nat, |i: int| ' '),
            decreases width - k,
        {
            out.push(' ');
            assert(out@ =~= unpadded + Seq::new((k + 1 - len) as nat, |i: int| ' '));
            k += 1;
        }
        assert(out@ =~= unpadded + padding(len as nat, width as nat));
        out.append(RESET);
        assert(out@ =~= before + painted_line(
            lines@[i as int]@,
            (start_row + i) as nat,
            color,
            width as nat,
        ));
        i += 1;
    }
    out
}

/// The text that ends the cycle: the cursor goes back to its row under the
/// display, and the line is ended.
pub fn end_text(cursor_row: u16) -> (out: String)
    ensures
        out@ == cursor_to_spec(cursor_row as nat, 1) + "\r\n"@,
{
    let mut out = String::new();
    push_cursor_to(&mut out, cursor_row as u32, 1);
    out.append("\r\n");
    out
}

} // verus!
