//! The box outline, whole and collapsing.
//!
//! The box has rounded corners. Two separators divide it: one under the
//! status line, one over the footer. During the entrance the outline is
//! revealed from the left; during the exit the bottom border slides up and
//! wipes what lies under it, until only top border, status line and bottom
//! border are left.

use vstd::prelude::*;

use crate::canvas::{keeps_protected, lemma_cell_position, Canvas, Cell, Rgb};
use crate::layout::COLLAPSED_ROWS;
use crate::progress::Progress;

verus! {

pub const TOP_LEFT: char = '\u{256d}';

pub const TOP_RIGHT: char = '\u{256e}';

pub const BOTTOM_LEFT: char = '\u{2570}';

pub const BOTTOM_RIGHT: char = '\u{256f}';

pub const HORIZONTAL: char = '\u{2500}';

pub const VERTICAL: char = '\u{2502}';

pub const TEE_LEFT: char = '\u{251c}';

pub const TEE_RIGHT: char = '\u{2524}';

/// Row of the separator under the status line.
pub const UPPER_SEPARATOR: u16 = 2;

/// Rows from the separator over the footer to the bottom of the box.
pub const LOWER_SEPARATOR_FROM_BOTTOM: u16 = 3;

/// Smallest height at which the box has separators.
pub const SEPARATED_HEIGHT: u16 = 6;

pub open spec fn border_color_spec() -> Rgb {
    Rgb { r: 100, g: 100, b: 120 }
}

#[verifier::when_used_as_spec(border_color_spec)]
pub fn border_color() -> (c: Rgb)
    ensures
        c == border_color_spec(),
{
    Rgb { r: 100, g: 100, b: 120 }
}

/// The glyph of a horizontal line of the box at column `x`: `left` and
/// `right` at the two ends, a dash between.
pub open spec fn line_glyph(w: int, x: int, left: char, right: char) -> char {
    if x == 0 {
        left
    } else if x == w - 1 {
        right
    } else {
        HORIZONTAL
    }
}

/// The glyph of the outline at column `x` of row `y` of a box `w` wide and
/// `h` high, or `None` inside the box.
pub open spec fn outline_glyph(w: int, h: int, x: int, y: int) -> Option<char> {
    if y == 0 {
        Some(line_glyph(w, x, TOP_LEFT, TOP_RIGHT))
    } else if y == h - 1 {
        Some(line_glyph(w, x, BOTTOM_LEFT, BOTTOM_RIGHT))
    } else if h >= SEPARATED_HEIGHT && (y == UPPER_SEPARATOR || y == h
        - LOWER_SEPARATOR_FROM_BOTTOM) {
        Some(line_glyph(w, x, TEE_LEFT, TEE_RIGHT))
    } else if x == 0 || x == w - 1 {
        Some(VERTICAL)
    } else {
        None
    }
}

/// A cell after the outline is drawn as far as it is revealed: the first
/// `revealed` columns.
pub open spec fn outlined_cell(
    cell: Cell,
    w: int,
    h: int,
    x: int,
    y: int,
    color: Rgb,
    revealed: int,
) -> Cell {
    match outline_glyph(w, h, x, y) {
        Some(glyph) => if x < revealed && !cell.protected {
            Cell { glyph, foreground: color, background: None, protected: false }
        } else {
            cell
        },
        None => cell,
    }
}

/// The cells after the outline is drawn at the given progress of its
/// reveal.
pub open spec fn outlined(cells: Seq<Cell>, w: u16, h: u16, color: Rgb, progress: Progress) -> Seq<
    Cell,
> {
    Seq::new(
        cells.len(),
        |i: int|
            outlined_cell(
                cells[i],
                w as int,
                h as int,
                i % (w as int),
                i / (w as int),
                color,
                progress.scale_spec(w),
            ),
    )
}

fn line_glyph_at(w: usize, x: usize, left: char, right: char) -> (r: char)
    requires
        x < w,
    ensures
        r == line_glyph(w as int, x as int, left, right),
{
    if x == 0 {
        left
    } else if x + 1 == w {
        right
    } else {
        HORIZONTAL
    }
}

fn outline_glyph_at(w: usize, h: usize, x: usize, y: usize) -> (r: Option<char>)
    requires
        x < w,
        y < h,
    ensures
        r == outline_glyph(w as int, h as int, x as int, y as int),
{
    if y == 0 {
        Some(line_glyph_at(w, x, TOP_LEFT, TOP_RIGHT))
    } else if y + 1 == h {
        Some(line_glyph_at(w, x, BOTTOM_LEFT, BOTTOM_RIGHT))
    } else if h >= SEPARATED_HEIGHT as usize && (y == UPPER_SEPARATOR as usize || h - y
        == LOWER_SEPARATOR_FROM_BOTTOM as usize) {
        Some(line_glyph_at(w, x, TEE_LEFT, TEE_RIGHT))
    } else if x == 0 || x + 1 == w {
        Some(VERTICAL)
    } else {
        None
    }
}

/// Draws the outline of the box, revealed from the left as far as
/// `progress` says.
pub fn draw_border(canvas: &mut Canvas, color: Rgb, progress: Progress)
    requires
        old(canvas).wf(),
        progress.wf(),
    ensures
        final(canvas).wf(),
        final(canvas).width == old(canvas).width,
        final(canvas).height == old(canvas).height,
        final(canvas).mask == old(canvas).mask,
        keeps_protected(old(canvas).cells@, final(canvas).cells@),
        final(canvas).cells@ == outlined(
            old(canvas).cells@,
            old(canvas).width,
            old(canvas).height,
            color,
            progress,
        ),
{
    let total: usize = canvas.cells.len();
    let w: usize = canvas.width as usize;
    let h: usize = canvas.height as usize;
    let revealed: usize = progress.scale(canvas.width) as usize;
    let mut i: usize = 0;
    while i < total
        invariant
            i <= total,
            total == canvas.cells@.len(),
            canvas.cells@.len() == old(canvas).cells@.len(),
            canvas.cells@.len() == canvas.width * canvas.height,
            canvas.width == old(canvas).width,
            canvas.height == old(canvas).height,
            canvas.mask == old(canvas).mask,
            w == canvas.width,
            h == canvas.height,
            revealed == progress.scale_spec(canvas.width),
            forall|j: int|
                0 <= j < i ==> canvas.cells@[j] == outlined(
                    old(canvas).cells@,
                    canvas.width,
                    canvas.height,
                    color,
                    progress,
                )[j],
            forall|j: int| i <= j < total ==> canvas.cells@[j] == old(canvas).cells@[j],
        decreases total - i,
    {
        proof {
            if w == 0 {
                assert(canvas.width * canvas.height == 0) by (nonlinear_arith)
                    requires
                        canvas.width == 0,
                ;
            } else {
                lemma_cell_position(w as int, h as int, i as int);
            }
        }
        let x: usize = i % w;
        let y: usize = i / w;
        let cell: Cell = canvas.cells[i];
        match outline_glyph_at(w, h, x, y) {
            Some(glyph) => {
                if x < revealed && !cell.protected {
                    canvas.cells.set(
                        i,
                        Cell { glyph, foreground: color, background: None, protected: false },
                    );
                }
            },
            None => {},
        }
        i += 1;
    }
    assert(canvas.cells@ =~= outlined(
        old(canvas).cells@,
        canvas.width,
        canvas.height,
        color,
        progress,
    ));
}

/// Rows that the bottom border can travel while the box collapses.
pub open spec fn max_travel(h: u16) -> u16 {
    if h >= COLLAPSED_ROWS {
        (h - COLLAPSED_ROWS) as u16
    } else {
        0
    }
}

/// The row of the bottom border of a box `h` high at the given progress of
/// the collapse: the last row at the start, and row 2 at the end and for
/// every box too low to collapse.
pub open spec fn collapsed_bottom(h: u16, progress: Progress) -> int {
    let bottom: int = h - 1 - progress.scale_spec(max_travel(h));
    if bottom <= 2 {
        2
    } else {
        bottom
    }
}

/// A cell after the collapsing frame is drawn with its bottom border at
/// row `bottom`: top border, side borders down to the bottom border, the
/// bottom border, and blanks under it.
pub open spec fn framed_cell(cell: Cell, w: int, x: int, y: int, color: Rgb, bottom: int) -> Cell {
    if cell.protected {
        cell
    } else if y == 0 {
        Cell {
            glyph: line_glyph(w, x, TOP_LEFT, TOP_RIGHT),
            foreground: color,
            background: None,
            protected: false,
        }
    } else if y == bottom {
        Cell {
            glyph: line_glyph(w, x, BOTTOM_LEFT, BOTTOM_RIGHT),
            foreground: color,
            background: None,
            protected: false,
        }
    } else if y > bottom {
        Cell::blank_spec()
    } else if x == 0 || x == w - 1 {
        Cell { glyph: VERTICAL, foreground: color, background: None, protected: false }
    } else {
        cell
    }
}

/// The cells after the collapsing frame is drawn over the scene.
pub open spec fn framed(cells: Seq<Cell>, w: u16, h: u16, color: Rgb, progress: Progress) -> Seq<
    Cell,
> {
    Seq::new(
        cells.len(),
        |i: int|
            framed_cell(
                cells[i],
                w as int,
                i % (w as int),
                i / (w as int),
                color,
                collapsed_bottom(h, progress),
            ),
    )
}

/// The row of the bottom border of the collapsing box.
pub fn bottom_row(height: u16, progress: Progress) -> (r: u16)
    requires
        progress.wf(),
    ensures
        r == collapsed_bottom(height, progress),
        2 <= r,
        height >= COLLAPSED_ROWS ==> r < height,
        progress.is_one() ==> r == 2,
        progress.is_zero() && height >= COLLAPSED_ROWS ==> r == height - 1,
{
    let span: u16 = if height >= COLLAPSED_ROWS {
        height - COLLAPSED_ROWS
    } else {
        0
    };
    let travel: u16 = progress.scale(span);
    if height < COLLAPSED_ROWS {
        return 2;
    }
    let bottom: u16 = height - 1 - travel;
    if bottom <= 2 {
        2
    } else {
        bottom
    }
}

/// Draws the outline of the collapsing box over the scene, with the bottom
/// border slid up by the progress of the collapse, and blanks in every row
/// under it.
pub fn draw_collapsing_outline(canvas: &mut Canvas, color: Rgb, progress: Progress)
    requires
        old(canvas).wf(),
        progress.wf(),
    ensures
        final(canvas).wf(),
        final(canvas).width == old(canvas).width,
        final(canvas).height == old(canvas).height,
        final(canvas).mask == old(canvas).mask,
        keeps_protected(old(canvas).cells@, final(canvas).cells@),
        final(canvas).cells@ == framed(
            old(canvas).cells@,
            old(canvas).width,
            old(canvas).height,
            color,
            progress,
        ),
{
    let total: usize = canvas.cells.len();
    let w: usize = canvas.width as usize;
    let bottom: usize = bottom_row(canvas.height, progress) as usize;
    let mut i: usize = 0;
    while i < total
        invariant
            i <= total,
            total == canvas.cells@.len(),
            canvas.cells@.len() == old(canvas).cells@.len(),
            canvas.cells@.len() == canvas.width * canvas.height,
            canvas.width == old(canvas).width,
            canvas.height == old(canvas).height,
            canvas.mask == old(canvas).mask,
            w == canvas.width,
            bottom == collapsed_bottom(canvas.height, progress),
            forall|j: int|
                0 <= j < i ==> canvas.cells@[j] == framed(
                    old(canvas).cells@,
                    canvas.width,
                    canvas.height,
                    color,
                    progress,
                )[j],
            forall|j: int| i <= j < total ==> canvas.cells@[j] == old(canvas).cells@[j],
        decreases total - i,
    {
        proof {
            if w == 0 {
                assert(canvas.width * canvas.height == 0) by (nonlinear_arith)
                    requires
                        canvas.width == 0,
                ;
            } else {
                lemma_cell_position(w as int, canvas.height as int, i as int);
            }
        }
        let x: usize = i % w;
        let y: usize = i / w;
        let cell: Cell = canvas.cells[i];
        if !cell.protected {
            if y == 0 {
                canvas.cells.set(
                    i,
                    Cell {
                        glyph: line_glyph_at(w, x, TOP_LEFT, TOP_RIGHT),
                        foreground: color,
                        background: None,
                        protected: false,
                    },
                );
            } else if y == bottom {
                canvas.cells.set(
                    i,
                    Cell {
                        glyph: line_glyph_at(w, x, BOTTOM_LEFT, BOTTOM_RIGHT),
                        foreground: color,
                        background: None,
                        protected: false,
                    },
                );
            } else if y > bottom {
                canvas.cells.set(i, Cell::blank());
            } else if x == 0 || x + 1 == w {
                canvas.cells.set(
                    i,
                    Cell { glyph: VERTICAL, foreground: color, background: None, protected: false },
                );
            }
        }
        i += 1;
    }
    assert(canvas.cells@ =~= framed(
        old(canvas).cells@,
        canvas.width,
        canvas.height,
        color,
        progress,
    ));
}

/// The bottom border only ever moves up as the collapse goes on.
pub proof fn lemma_bottom_moves_up(h: u16, earlier: Progress, later: Progress)
    requires
        earlier.wf(),
        later.wf(),
        earlier.le(later),
    ensures
        collapsed_bottom(h, later) <= collapsed_bottom(h, earlier),
{
    crate::progress::lemma_scale_monotone(earlier, later, max_travel(h));
}

} // verus!
