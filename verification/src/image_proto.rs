//! How an optional background image reaches the screen.
//!
//! The mode is chosen once per run. `Image` sends the bitmap to the terminal
//! with the inline image sequence `ESC ] 1337 ; File = ... : <base64> BEL`;
//! `Ascii` draws it with half-block glyphs; `Inline` does the same without
//! ever addressing the cursor, for output that is captured.

use vstd::prelude::*;
use vstd::string::StringExecFns;

use crate::ansi::{cursor_to_spec, decimal, push_cursor_to, push_decimal};
use crate::text::same_text;

verus! {

/// How the splash is shown: with an inline bitmap, with half-block
/// characters, or, where the output is not a live terminal, with half-block
/// characters, no key to wait for and no size to follow.
#[derive(Clone, Copy, Debug, PartialEq, Eq, Structural)]
pub enum RenderMode {
    Image,
    Ascii,
    Inline,
}

/// What was found out about the terminal.
#[derive(Clone, Copy, Debug, PartialEq, Eq, Structural)]
pub struct Capabilities {
    /// The terminal shows inline images.
    pub inline_images: bool,
    /// There is a terminal to control, one that can be put in raw mode.
    pub interactive: bool,
    /// The output is recorded by a capture harness.
    pub capture: bool,
}

/// The mode that a configured name forces, if it names one.
pub open spec fn forced_mode(name: Seq<char>) -> Option<RenderMode> {
    if name == "image"@ {
        Some(RenderMode::Image)
    } else if name == "ascii"@ {
        Some(RenderMode::Ascii)
    } else if name == "inline"@ {
        Some(RenderMode::Inline)
    } else {
        None
    }
}

/// The mode that the terminal's capabilities lead to: images where the
/// terminal shows them, else half blocks, without cursor addressing where
/// the output is not a live terminal.
pub open spec fn probed_mode(caps: Capabilities) -> RenderMode {
    if caps.inline_images {
        RenderMode::Image
    } else if !caps.interactive || caps.capture {
        RenderMode::Inline
    } else {
        RenderMode::Ascii
    }
}

/// The mode of a run: what the configuration forces, else what the
/// capabilities lead to. Every other configured name, `auto` among them,
/// leaves the choice to the capabilities.
pub open spec fn detect_spec(config: Option<Seq<char>>, caps: Capabilities) -> RenderMode {
    match config {
        Some(name) => match forced_mode(name) {
            Some(mode) => mode,
            None => probed_mode(caps),
        },
        None => probed_mode(caps),
    }
}

/// The mode that the terminal's capabilities lead to.
pub fn probe(caps: Capabilities) -> (r: RenderMode)
    ensures
        r == probed_mode(caps),
{
    if caps.inline_images {
        RenderMode::Image
    } else if !caps.interactive || caps.capture {
        RenderMode::Inline
    } else {
        RenderMode::Ascii
    }
}

/// Chooses the render mode of a run.
pub fn detect(config: Option<&str>, caps: Capabilities) -> (r: RenderMode)
    ensures
        r == detect_spec(
            match config {
                Some(name) => Some(name@),
                None => None,
            },
            caps,
        ),
{
    match config {
        Some(name) => {
            if same_text(name, "image") {
                RenderMode::Image
            } else if same_text(name, "ascii") {
                RenderMode::Ascii
            } else if same_text(name, "inline") {
                RenderMode::Inline
            } else {
                probe(caps)
            }
        },
        None => probe(caps),
    }
}

/// Whether the terminal names itself as one that shows inline images:
/// `TERM_PROGRAM` is `iTerm.app` or `WezTerm`, or `LC_TERMINAL` is
/// `iTerm2`.
pub fn shows_inline_images(term_program: Option<&str>, lc_terminal: Option<&str>) -> (r: bool)
    ensures
        r == ((term_program matches Some(p) && (p@ == "iTerm.app"@ || p@ == "WezTerm"@)) || (
        lc_terminal matches Some(t) && t@ == "iTerm2"@)),
{
    let by_program: bool = match term_program {
        Some(p) => same_text(p, "iTerm.app") || same_text(p, "WezTerm"),
        None => false,
    };
    let by_locale: bool = match lc_terminal {
        Some(t) => same_text(t, "iTerm2"),
        None => false,
    };
    by_program || by_locale
}

/// Length of what a PNG file starts with: its signature and the head of
/// its first chunk, up to the height of the image.
pub const PNG_HEAD: usize = 24;

/// The `i`-th byte of the start of every PNG file: the eight bytes of the
/// signature, the length of the header chunk, which is 13, and its name,
/// `IHDR`.
pub open spec fn png_start(i: int) -> u8 {
    if i == 0 {
        0x89
    } else if i == 1 {
        0x50
    } else if i == 2 {
        0x4e
    } else if i == 3 {
        0x47
    } else if i == 4 {
        0x0d
    } else if i == 5 {
        0x0a
    } else if i == 6 {
        0x1a
    } else if i == 7 {
        0x0a
    } else if i == 8 {
        0
    } else if i == 9 {
        0
    } else if i == 10 {
        0
    } else if i == 11 {
        13
    } else if i == 12 {
        0x49
    } else if i == 13 {
        0x48
    } else if i == 14 {
        0x44
    } else {
        0x52
    }
}

/// The bytes start as a PNG file does.
pub open spec fn is_png(bytes: Seq<u8>) -> bool {
    bytes.len() >= PNG_HEAD && forall|i: int| 0 <= i < 16 ==> #[trigger] bytes[i] == png_start(i)
}

/// The number that four bytes hold, the most significant first.
pub open spec fn big_endian(bytes: Seq<u8>, at: int) -> int {
    bytes[at] * 0x100_0000 + bytes[at + 1] * 0x1_0000 + bytes[at + 2] * 0x100 + bytes[at + 3]
}

/// The width and height in pixels that a PNG file states, or `None` where
/// the bytes do not start as a PNG file does.
pub open spec fn png_size_spec(bytes: Seq<u8>) -> Option<(u32, u32)> {
    if is_png(bytes) {
        Some((big_endian(bytes, 16) as u32, big_endian(bytes, 20) as u32))
    } else {
        None
    }
}

fn read_u32(bytes: &[u8], at: usize) -> (r: u32)
    requires
        at + 4 <= bytes@.len(),
    ensures
        r == big_endian(bytes@, at as int),
{
    (bytes[at] as u32) * 0x100_0000 + (bytes[at + 1] as u32) * 0x1_0000 + (bytes[at + 2] as u32)
        * 0x100 + (bytes[at + 3] as u32)
}

/// Reads the size of an image out of the start of its PNG file.
pub fn png_size(bytes: &[u8]) -> (r: Option<(u32, u32)>)
    ensures
        r == png_size_spec(bytes@),
{
    if bytes.len() < PNG_HEAD {
        return None;
    }
    let start: [u8; 16] = [
        0x89,
        0x50,
        0x4e,
        0x47,
        0x0d,
        0x0a,
        0x1a,
        0x0a,
        0,
        0,
        0,
        13,
        0x49,
        0x48,
        0x44,
        0x52,
    ];
    let mut i: usize = 0;
    while i < 16
        invariant
            i <= 16,
            bytes@.len() >= PNG_HEAD,
            forall|j: int| 0 <= j < 16 ==> #[trigger] start[j] == png_start(j),
            forall|j: int| 0 <= j < i ==> #[trigger] bytes@[j] == png_start(j),
        decreases 16 - i,
    {
        if bytes[i] != start[i] {
            return None;
        }
        i += 1;
    }
    Some((read_u32(bytes, 16), read_u32(bytes, 20)))
}

/// The character of a six-bit value in the base64 alphabet.
pub open spec fn sextet_char(v: int) -> char
    recommends
        0 <= v < 64,
{
    if v < 26 {
        ((65 + v) as u8) as char
    } else if v < 52 {
        ((97 + v - 26) as u8) as char
    } else if v < 62 {
        ((48 + v - 52) as u8) as char
    } else if v == 62 {
        '+'
    } else {
        '/'
    }
}

/// Base64 with the standard alphabet and `=` padding: three bytes become
/// four characters, and one or two bytes left over are padded to four.
pub open spec fn base64_spec(bytes: Seq<u8>) -> Seq<char>
    decreases bytes.len(),
{
    if bytes.len() == 0 {
        Seq::empty()
    } else if bytes.len() == 1 {
        seq![sextet_char(high_six(bytes[0])), sextet_char(two_and_four(bytes[0], 0)), '=', '=']
    } else if bytes.len() == 2 {
        seq![
            sextet_char(high_six(bytes[0])),
            sextet_char(two_and_four(bytes[0], bytes[1])),
            sextet_char(four_and_two(bytes[1], 0)),
            '=',
        ]
    } else {
        seq![
            sextet_char(high_six(bytes[0])),
            sextet_char(two_and_four(bytes[0], bytes[1])),
            sextet_char(four_and_two(bytes[1], bytes[2])),
            sextet_char(bytes[2] as int % 64),
        ] + base64_spec(bytes.skip(3))
    }
}

/// The upper six bits of a byte.
pub open spec fn high_six(a: u8) -> int {
    a as int / 4
}

/// The lower two bits of `a` followed by the upper four of `b`.
pub open spec fn two_and_four(a: u8, b: u8) -> int {
    (a as int % 4) * 16 + b as int / 16
}

/// The lower four bits of `b` followed by the upper two of `c`.
pub open spec fn four_and_two(b: u8, c: u8) -> int {
    (b as int % 16) * 4 + c as int / 64
}

fn sextet(v: u8) -> (c: char)
    requires
        v < 64,
    ensures
        c == sextet_char(v as int),
{
    if v < 26 {
        (65 + v) as char
    } else if v < 52 {
        (97 + (v - 26)) as char
    } else if v < 62 {
        (48 + (v - 52)) as char
    } else if v == 62 {
        '+'
    } else {
        '/'
    }
}

/// Appends the base64 form of `bytes`.
pub fn push_base64(out: &mut String, bytes: &[u8])
    ensures
        final(out)@ == old(out)@ + base64_spec(bytes@),
{
    let n: usize = bytes.len();
    let mut i: usize = 0;
    assert(bytes@.skip(0) =~= bytes@);
    while n - i >= 3
        invariant
            i <= n,
            n == bytes@.len(),
            out@ + base64_spec(bytes@.skip(i as int)) == old(out)@ + base64_spec(bytes@),
        decreases n - i,
    {
        let ghost before = out@;
        let ghost rest = bytes@.skip(i as int);
        let a: u8 = bytes[i];
        let b: u8 = bytes[i + 1];
        let c: u8 = bytes[i + 2];
        out.push(sextet(a / 4));
        out.push(sextet((a % 4) * 16 + b / 16));
        out.push(sextet((b % 16) * 4 + c / 64));
        out.push(sextet(c % 64));
        assert(rest.skip(3) =~= bytes@.skip(i + 3));
        assert(out@ + base64_spec(bytes@.skip(i + 3)) =~= before + base64_spec(rest));
        i += 3;
    }
    let ghost before = out@;
    let ghost rest = bytes@.skip(i as int);
    if n - i == 1 {
        let a: u8 = bytes[i];
        out.push(sextet(a / 4));
        out.push(sextet((a % 4) * 16));
        out.push('=');
        out.push('=');
    } else if n - i == 2 {
        let a: u8 = bytes[i];
        let b: u8 = bytes[i + 1];
        out.push(sextet(a / 4));
        out.push(sextet((a % 4) * 16 + b / 16));
        out.push(sextet((b % 16) * 4));
        out.push('=');
    }
    assert(out@ =~= before + base64_spec(rest));
}

/// The inline image sequence for an encoded bitmap shown `width` by
/// `height` cells large with its top left corner at screen row `row` and
/// column `col`: a cursor move, then the image, stretched to the cells it
/// is given.
pub open spec fn image_sequence_spec(
    payload: Seq<u8>,
    width: u16,
    height: u16,
    row: u32,
    col: u32,
) -> Seq<char> {
    cursor_to_spec(row as nat, col as nat) + "\x1b]1337;File=inline=1;width="@ + decimal(
        width as nat,
    ) + ";height="@ + decimal(height as nat) + ";preserveAspectRatio=0:"@ + base64_spec(payload)
        + "\x07"@
}

/// The text that shows an image on the terminal.
pub fn image_sequence(payload: &[u8], width: u16, height: u16, row: u32, col: u32) -> (out:
    String)
    ensures
        out@ == image_sequence_spec(payload@, width, height, row, col),
{
    let mut out = String::new();
    push_cursor_to(&mut out, row, col);
    out.append("\x1b]1337;File=inline=1;width=");
    push_decimal(&mut out, width as u32);
    out.append(";height=");
    push_decimal(&mut out, height as u32);
    out.append(";preserveAspectRatio=0:");
    push_base64(&mut out, payload);
    out.append("\x07");
    assert(out@ =~= image_sequence_spec(payload@, width, height, row, col));
    out
}

} // verus!
