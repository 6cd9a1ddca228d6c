//! Turning a canvas into terminal output.
//!
//! [`Canvas::render`] addresses the screen absolutely: every run of cells
//! starts with a cursor move, so the grid can be placed anywhere and cells
//! under an inline image are stepped over without being written.
//! [`Canvas::render_inline`] never moves the cursor: it writes the rows one
//! after the other, each ended by a line break.

use vstd::prelude::*;
use vstd::string::StringExecFns;

use crate::ansi::{
    background_spec, cursor_to_spec, foreground_spec, push_background, push_cursor_to,
    push_foreground, RESET,
};
use crate::canvas::{Canvas, Cell};

verus! {

/// The colours of a cell as they are sent to the terminal.
pub open spec fn style_spec(cell: Cell) -> Seq<char> {
    foreground_spec(cell.foreground) + background_spec(cell.background)
}

/// Two cells are drawn in the same colours.
pub open spec fn same_style(a: Cell, b: Cell) -> bool {
    a.foreground == b.foreground && a.background == b.background
}

/// What goes before the glyph of a cell at screen position `row`, `col`.
/// `pen` is the cell written just before it, or `None` when the cursor is not
/// in place: then the cursor is moved and the colours are sent; otherwise the
/// colours are sent only where they change.
pub open spec fn lead_spec(pen: Option<Cell>, cell: Cell, row: int, col: int) -> Seq<char> {
    match pen {
        None => cursor_to_spec(row as nat, col as nat) + style_spec(cell),
        Some(p) => if same_style(p, cell) {
            Seq::empty()
        } else {
            style_spec(cell)
        },
    }
}

/// The output for row `y` of the grid from column `x` on, shown on screen row
/// `row` with column 0 of the grid at screen column `col`. Protected cells
/// are stepped over.
pub open spec fn row_text(
    cells: Seq<Cell>,
    w: int,
    y: int,
    x: int,
    pen: Option<Cell>,
    row: int,
    col: int,
) -> Seq<char>
    decreases w - x,
{
    if x >= w {
        Seq::empty()
    } else {
        let cell = cells[y * w + x];
        if cell.protected {
            row_text(cells, w, y, x + 1, None, row, col)
        } else {
            lead_spec(pen, cell, row, col + x) + seq![cell.glyph] + row_text(
                cells,
                w,
                y,
                x + 1,
                Some(cell),
                row,
                col,
            )
        }
    }
}

/// The output for the rows from `y` on, followed by a reset of the colours.
pub open spec fn rows_text(
    cells: Seq<Cell>,
    w: int,
    h: int,
    y: int,
    origin_row: int,
    origin_col: int,
) -> Seq<char>
    decreases h - y,
{
    if y >= h {
        RESET@
    } else {
        row_text(cells, w, y, 0, None, origin_row + y, origin_col) + rows_text(
            cells,
            w,
            h,
            y + 1,
            origin_row,
            origin_col,
        )
    }
}

/// What goes before the glyph of a cell when the cursor is never moved.
pub open spec fn inline_lead_spec(pen: Option<Cell>, cell: Cell) -> Seq<char> {
    match pen {
        None => style_spec(cell),
        Some(p) => if same_style(p, cell) {
            Seq::empty()
        } else {
            style_spec(cell)
        },
    }
}

/// The output for row `y` from column `x` on without cursor moves: every
/// cell is written, and the row ends with a reset and a line break.
pub open spec fn inline_row_text(cells: Seq<Cell>, w: int, y: int, x: int, pen: Option<Cell>) -> Seq<
    char,
>
    decreases w - x,
{
    if x >= w {
        RESET@ + "\n"@
    } else {
        let cell = cells[y * w + x];
        inline_lead_spec(pen, cell) + seq![cell.glyph] + inline_row_text(
            cells,
            w,
            y,
            x + 1,
            Some(cell),
        )
    }
}

/// The output for the rows from `y` on without cursor moves.
pub open spec fn inline_rows_text(cells: Seq<Cell>, w: int, h: int, y: int) -> Seq<char>
    decreases h - y,
{
    if y >= h {
        Seq::empty()
    } else {
        inline_row_text(cells, w, y, 0, None) + inline_rows_text(cells, w, h, y + 1)
    }
}

fn push_style(out: &mut String, cell: &Cell)
    ensures
        final(out)@ == old(out)@ + style_spec(*cell),
{
    push_foreground(out, cell.foreground);
    push_background(out, cell.background);
    assert(final(out)@ =~= old(out)@ + style_spec(*cell));
}

fn styled_alike(a: &Cell, b: &Cell) -> (r: bool)
    ensures
        r == same_style(*a, *b),
{
    a.foreground == b.foreground && a.background == b.background
}

impl Canvas {
    /// The text that shows the canvas with its top left cell at screen row
    /// `origin_row` and column `origin_col`, both counted from one.
    pub open spec fn render_spec(&self, origin_row: u16, origin_col: u16) -> Seq<char> {
        rows_text(
            self.cells@,
            self.width as int,
            self.height as int,
            0,
            origin_row as int,
            origin_col as int,
        )
    }

    /// The text that shows the canvas at the cursor, row after row.
    pub open spec fn render_inline_spec(&self) -> Seq<char> {
        inline_rows_text(self.cells@, self.width as int, self.height as int, 0)
    }

    /// Renders the grid for a terminal that is addressed absolutely. Each row
    /// takes one cursor move and one run of coloured glyphs; a row that
    /// crosses the image region takes one more move after it.
    pub fn render(&self, origin_row: u16, origin_col: u16) -> (out: String)
        requires
            self.wf(),
        ensures
            out@ == self.render_spec(origin_row, origin_col),
    {
        let ghost cells = self.cells@;
        let ghost w: int = self.width as int;
        let ghost h: int = self.height as int;
        let ghost r0: int = origin_row as int;
        let ghost c0: int = origin_col as int;
        let mut out = String::new();
        let mut y: u16 = 0;
        while y < self.height
            invariant
                self.wf(),
                cells == self.cells@,
                w == self.width,
                h == self.height,
                r0 == origin_row,
                c0 == origin_col,
                y <= self.height,
                out@ + rows_text(cells, w, h, y as int, r0, c0) == rows_text(cells, w, h, 0, r0, c0),
            decreases self.height - y,
        {
            let row: u32 = origin_row as u32 + y as u32;
            let ghost start = out@;
            let ghost whole = row_text(cells, w, y as int, 0, None, row as int, c0);
            let mut pen: Option<Cell> = None;
            let mut x: u16 = 0;
            while x < self.width
                invariant
                    self.wf(),
                    cells == self.cells@,
                    w == self.width,
                    h == self.height,
                    c0 == origin_col,
                    y < self.height,
                    x <= self.width,
                    row == origin_row + y,
                    whole == row_text(cells, w, y as int, 0, None, row as int, c0),
                    out@ + row_text(cells, w, y as int, x as int, pen, row as int, c0) == start
                        + whole,
                decreases self.width - x,
            {
                let ghost before = out@;
                let cell: Cell = self.cells[self.offset(x, y)];
                if cell.protected {
                    pen = None;
                } else {
                    match pen {
                        None => {
                            push_cursor_to(&mut out, row, origin_col as u32 + x as u32);
                            push_style(&mut out, &cell);
                        },
                        Some(p) => {
                            if !styled_alike(&p, &cell) {
                                push_style(&mut out, &cell);
                            }
                        },
                    }
                    assert(out@ =~= before + lead_spec(pen, cell, row as int, c0 + x));
                    out.push(cell.glyph);
                    assert(out@ + row_text(cells, w, y as int, x + 1, Some(cell), row as int, c0)
                        =~= before + row_text(cells, w, y as int, x as int, pen, row as int, c0));
                    pen = Some(cell);
                }
                x += 1;
            }
            assert(out@ =~= start + whole);
            assert(out@ + rows_text(cells, w, h, y + 1, r0, c0) =~= start + rows_text(
                cells,
                w,
                h,
                y as int,
                r0,
                c0,
            ));
            y += 1;
        }
        out.append(RESET);
        out
    }

    /// Renders the grid without moving the cursor, for output that is
    /// captured as it is written rather than shown on a live terminal.
    pub fn render_inline(&self) -> (out: String)
        requires
            self.wf(),
        ensures
            out@ == self.render_inline_spec(),
    {
        let ghost cells = self.cells@;
        let ghost w: int = self.width as int;
        let ghost h: int = self.height as int;
        let mut out = String::new();
        let mut y: u16 = 0;
        while y < self.height
            invariant
                self.wf(),
                cells == self.cells@,
                w == self.width,
                h == self.height,
                y <= self.height,
                out@ + inline_rows_text(cells, w, h, y as int) == inline_rows_text(cells, w, h, 0),
            decreases self.height - y,
        {
            let ghost start = out@;
            let ghost whole = inline_row_text(cells, w, y as int, 0, None);
            let mut pen: Option<Cell> = None;
            let mut x: u16 = 0;
            while x < self.width
                invariant
                    self.wf(),
                    cells == self.cells@,
                    w == self.width,
                    h == self.height,
                    y < self.height,
                    x <= self.width,
                    whole == inline_row_text(cells, w, y as int, 0, None),
                    out@ + inline_row_text(cells, w, y as int, x as int, pen) == start + whole,
                decreases self.width - x,
            {
                let ghost before = out@;
                let cell: Cell = self.cells[self.offset(x, y)];
                let restyle: bool = match pen {
                    None => true,
                    Some(p) => !styled_alike(&p, &cell),
                };
                if restyle {
                    push_style(&mut out, &cell);
                }
                assert(out@ =~= before + inline_lead_spec(pen, cell));
                out.push(cell.glyph);
                assert(out@ + inline_row_text(cells, w, y as int, x + 1, Some(cell)) =~= before
                    + inline_row_text(cells, w, y as int, x as int, pen));
                pen = Some(cell);
                x += 1;
            }
            let ghost filled = out@;
            out.append(RESET);
            out.append("\n");
            assert(out@ =~= filled + inline_row_text(cells, w, y as int, w, pen));
            assert(out@ =~= start + whole);
            assert(out@ + inline_rows_text(cells, w, h, y + 1) =~= start + inline_rows_text(
                cells,
                w,
                h,
                y as int,
            ));
            y += 1;
        }
        assert(out@ =~= out@ + inline_rows_text(cells, w, h, h));
        out
    }
}

} // verus!
