//! The status line under the top border and the footer over the bottom one.

use vstd::prelude::*;
use vstd::string::{StrSliceExecFns, StringExecFns};

use crate::canvas::{keeps_protected, lettered, Canvas, Cell, Rgb};
use crate::progress::Progress;
use crate::timeline::Phase;

verus! {

/// Row of the status line.
pub const STATUS_ROW: u16 = 1;

/// Column at which status text starts: one cell in from the left border.
pub const STATUS_COLUMN: u16 = 2;

/// Columns that status text leaves free: border and one cell of padding on
/// either side.
pub const STATUS_MARGIN: u16 = 4;

/// Footer while the scene is waiting for a key.
pub const FOOTER_WAITING: &'static str = "press any key to start";

/// Footer once the exit has begun.
pub const FOOTER_READY: &'static str = "ready";

/// What stands between two parts of the status line.
pub const STATUS_SEPARATOR: &'static str = " \u{b7} ";

/// The status line made of the first `n` parts: those that are not empty,
/// in order, with a separator between every two.
pub open spec fn status_line(parts: Seq<String>, n: int) -> Seq<char>
    decreases n,
{
    if n <= 0 {
        Seq::empty()
    } else {
        let before = status_line(parts, n - 1);
        let part = parts[n - 1]@;
        if part.len() == 0 {
            before
        } else if before.len() == 0 {
            part
        } else {
            before + STATUS_SEPARATOR@ + part
        }
    }
}

/// Builds the text of the status line from its parts. Parts that are
/// empty are left out.
pub fn build_line(parts: &Vec<String>) -> (r: String)
    ensures
        r@ == status_line(parts@, parts@.len() as int),
{
    let mut out = String::new();
    let n: usize = parts.len();
    let mut i: usize = 0;
    while i < n
        invariant
            i <= n,
            n == parts@.len(),
            out@ == status_line(parts@, i as int),
        decreases n - i,
    {
        let part: &str = parts[i].as_str();
        if !part.is_empty() {
            let ghost before = out@;
            if !out.as_str().is_empty() {
                out.append(STATUS_SEPARATOR);
            }
            out.append(part);
            assert(out@ =~= status_line(parts@, i + 1));
        }
        i += 1;
    }
    out
}

pub open spec fn status_color_spec() -> Rgb {
    Rgb { r: 140, g: 140, b: 140 }
}

#[verifier::when_used_as_spec(status_color_spec)]
pub fn status_color() -> (c: Rgb)
    ensures
        c == status_color_spec(),
{
    Rgb { r: 140, g: 140, b: 140 }
}

pub open spec fn footer_color_spec() -> Rgb {
    Rgb { r: 140, g: 140, b: 140 }
}

#[verifier::when_used_as_spec(footer_color_spec)]
pub fn footer_color() -> (c: Rgb)
    ensures
        c == footer_color_spec(),
{
    Rgb { r: 140, g: 140, b: 140 }
}

/// Number of characters of a status text of `len` characters that are
/// shown in a box `width` wide at the given progress of the reveal: the
/// text is revealed from its start, and what does not fit between the
/// borders is cut off.
pub open spec fn shown_chars(len: nat, width: u16, progress: Progress) -> int {
    let counted: u16 = if len <= u16::MAX {
        len as u16
    } else {
        u16::MAX
    };
    let revealed: int = progress.scale_spec(counted);
    let room: int = if width >= STATUS_MARGIN {
        width - STATUS_MARGIN
    } else {
        0
    };
    if revealed <= room {
        revealed
    } else {
        room
    }
}

/// Draws the status text on row `row`, revealed as far as `progress` says.
pub fn draw(canvas: &mut Canvas, text: &str, row: u16, color: Rgb, progress: Progress)
    requires
        old(canvas).wf(),
        progress.wf(),
    ensures
        final(canvas).wf(),
        final(canvas).width == old(canvas).width,
        final(canvas).height == old(canvas).height,
        final(canvas).mask == old(canvas).mask,
        keeps_protected(old(canvas).cells@, final(canvas).cells@),
        final(canvas).cells@ == lettered(
            old(canvas).cells@,
            old(canvas).width as int,
            old(canvas).height as int,
            STATUS_COLUMN as int,
            row as int,
            text@.take(shown_chars(text@.len(), old(canvas).width, progress)),
            color,
            None,
        ),
{
    let len: usize = text.unicode_len();
    let counted: u16 = if len <= u16::MAX as usize {
        len as u16
    } else {
        u16::MAX
    };
    let revealed: u16 = progress.scale(counted);
    let room: u16 = if canvas.width >= STATUS_MARGIN {
        canvas.width - STATUS_MARGIN
    } else {
        0
    };
    let shown: u16 = if revealed <= room {
        revealed
    } else {
        room
    };
    canvas.put_str(STATUS_COLUMN, row, text.substring_char(0, shown as usize), color, None);
}

/// The footer of a phase: an invitation while the scene plays, a
/// confirmation once it freezes.
pub open spec fn footer_text_spec(phase: Phase) -> Seq<char> {
    if phase == Phase::Freeze {
        FOOTER_READY@
    } else {
        FOOTER_WAITING@
    }
}

pub fn footer_text(phase: Phase) -> (r: &'static str)
    ensures
        r@ == footer_text_spec(phase),
{
    if phase == Phase::Freeze {
        FOOTER_READY
    } else {
        FOOTER_WAITING
    }
}

/// The column at which a footer of `len` characters starts in a box
/// `width` wide: centred, and at the left edge where the box is too
/// narrow for it.
pub open spec fn footer_column(width: u16, len: nat) -> int {
    if width >= len {
        (width - len) / 2
    } else {
        0
    }
}

/// The cells after the footer is drawn: on the row over the bottom border,
/// and not at all in a box less than two rows high.
pub open spec fn footed(cells: Seq<Cell>, w: u16, h: u16, text: Seq<char>, color: Rgb) -> Seq<
    Cell,
> {
    if h >= 2 {
        lettered(
            cells,
            w as int,
            h as int,
            footer_column(w, text.len()),
            h - 2,
            text,
            color,
            None,
        )
    } else {
        cells
    }
}

/// Draws the footer of the phase.
pub fn draw_footer(canvas: &mut Canvas, phase: Phase, color: Rgb)
    requires
        old(canvas).wf(),
    ensures
        final(canvas).wf(),
        final(canvas).width == old(canvas).width,
        final(canvas).height == old(canvas).height,
        final(canvas).mask == old(canvas).mask,
        keeps_protected(old(canvas).cells@, final(canvas).cells@),
        final(canvas).cells@ == footed(
            old(canvas).cells@,
            old(canvas).width,
            old(canvas).height,
            footer_text_spec(phase),
            color,
        ),
{
    if canvas.height < 2 {
        return ;
    }
    let text: &'static str = footer_text(phase);
    let len: usize = text.unicode_len();
    let column: u16 = if canvas.width as usize >= len {
        ((canvas.width as usize - len) / 2) as u16
    } else {
        0
    };
    canvas.put_str(column, canvas.height - 2, text, color, None);
}

} // verus!
