//! Earth and moon: filled discs whose place and size follow the box.
//!
//! Positions and radii are kept in hundredths of a cell, so that the
//! fractions of the box size they are made of stay exact. A cell is twice
//! as high as it is wide; a disc therefore spans twice as many columns as
//! rows.

use vstd::prelude::*;

use crate::canvas::{keeps_protected, Canvas, Cell, Rgb};

verus! {

/// Hundredths of a cell in one cell.
pub const UNIT: i64 = 100;

/// Largest coordinate of a disc's centre, in hundredths of a cell.
pub const MAX_CENTRE: i32 = 7_000_000;

/// Largest radius of a disc, in hundredths of a row.
pub const MAX_RADIUS: i32 = 2_000_000;

pub const EARTH_GLYPH: char = '\u{2593}';

pub const MOON_GLYPH: char = '\u{2592}';

pub open spec fn earth_color_spec() -> Rgb {
    Rgb { r: 60, g: 120, b: 200 }
}

#[verifier::when_used_as_spec(earth_color_spec)]
pub fn earth_color() -> (c: Rgb)
    ensures
        c == earth_color_spec(),
{
    Rgb { r: 60, g: 120, b: 200 }
}

pub open spec fn moon_color_spec() -> Rgb {
    Rgb { r: 200, g: 200, b: 190 }
}

#[verifier::when_used_as_spec(moon_color_spec)]
pub fn moon_color() -> (c: Rgb)
    ensures
        c == moon_color_spec(),
{
    Rgb { r: 200, g: 200, b: 190 }
}

/// A disc on the grid. The centre is in hundredths of a cell from the top
/// left corner of the grid, the radius in hundredths of a row.
#[derive(Clone, Copy, Debug, PartialEq, Eq, Structural)]
pub struct Disc {
    pub cx: i32,
    pub cy: i32,
    pub radius: i32,
}

impl Disc {
    pub open spec fn wf(&self) -> bool {
        &&& -MAX_CENTRE <= self.cx <= MAX_CENTRE
        &&& -MAX_CENTRE <= self.cy <= MAX_CENTRE
        &&& 0 <= self.radius <= MAX_RADIUS
    }

    /// The middle of the cell at column `x` of row `y` lies within the disc.
    pub open spec fn covers(&self, x: int, y: int) -> bool {
        let dx: int = x * 100 + 50 - self.cx;
        let dy: int = y * 100 + 50 - self.cy;
        dx * dx + 4 * (dy * dy) <= 4 * (self.radius * self.radius)
    }

    pub fn holds(&self, x: usize, y: usize) -> (r: bool)
        requires
            self.wf(),
            x <= 0xFFFF,
            y <= 0xFFFF,
        ensures
            r == self.covers(x as int, y as int),
    {
        let dx: i64 = (x as i64) * UNIT + 50 - (self.cx as i64);
        let dy: i64 = (y as i64) * UNIT + 50 - (self.cy as i64);
        let radius: i64 = self.radius as i64;
        assert(0 <= dx * dx <= 14_000_000 * 14_000_000) by (nonlinear_arith)
            requires
                -14_000_000 <= dx <= 14_000_000,
        ;
        assert(0 <= dy * dy <= 14_000_000 * 14_000_000) by (nonlinear_arith)
            requires
                -14_000_000 <= dy <= 14_000_000,
        ;
        assert(0 <= radius * radius <= 2_000_000 * 2_000_000) by (nonlinear_arith)
            requires
                0 <= radius <= 2_000_000,
        ;
        dx * dx + 4 * (dy * dy) <= 4 * (radius * radius)
    }
}

/// The earth of a box: low on the right, 27 thirty-fourths across, which
/// in a box 68 wide is 14 columns in from the right edge, and six tenths
/// down, with a radius of 26 hundredths of the height.
pub open spec fn earth_spec(width: u16, height: u16) -> Disc {
    Disc {
        cx: (width * 2700 / 34) as i32,
        cy: (height * 60) as i32,
        radius: (height * 26) as i32,
    }
}

/// The moon of a box: high on the left, 15 hundredths across and 26
/// hundredths down, with a radius of 11 hundredths of the height.
pub open spec fn moon_spec(width: u16, height: u16) -> Disc {
    Disc { cx: (width * 15) as i32, cy: (height * 26) as i32, radius: (height * 11) as i32 }
}

pub fn earth(width: u16, height: u16) -> (r: Disc)
    ensures
        r == earth_spec(width, height),
        r.wf(),
{
    Disc {
        cx: ((width as i32) * 2700) / 34,
        cy: (height as i32) * 60,
        radius: (height as i32) * 26,
    }
}

pub fn moon(width: u16, height: u16) -> (r: Disc)
    ensures
        r == moon_spec(width, height),
        r.wf(),
{
    Disc { cx: (width as i32) * 15, cy: (height as i32) * 26, radius: (height as i32) * 11 }
}

/// A cell after a disc is drawn over the grid.
pub open spec fn disc_cell(cell: Cell, disc: Disc, x: int, y: int, glyph: char, fg: Rgb) -> Cell {
    if disc.covers(x, y) && !cell.protected {
        Cell { glyph, foreground: fg, background: None, protected: false }
    } else {
        cell
    }
}

/// The cells after a disc is drawn: every cell whose middle the disc
/// covers takes the glyph, unless it is protected.
pub open spec fn disc_painted(cells: Seq<Cell>, w: int, disc: Disc, glyph: char, fg: Rgb) -> Seq<
    Cell,
> {
    Seq::new(cells.len(), |i: int| disc_cell(cells[i], disc, i % w, i / w, glyph, fg))
}

/// Draws a filled disc.
pub fn draw_disc(canvas: &mut Canvas, disc: &Disc, glyph: char, fg: Rgb)
    requires
        old(canvas).wf(),
        disc.wf(),
    ensures
        final(canvas).wf(),
        final(canvas).width == old(canvas).width,
        final(canvas).height == old(canvas).height,
        final(canvas).mask == old(canvas).mask,
        keeps_protected(old(canvas).cells@, final(canvas).cells@),
        final(canvas).cells@ == disc_painted(
            old(canvas).cells@,
            old(canvas).width as int,
            *disc,
            glyph,
            fg,
        ),
{
    let total: usize = canvas.cells.len();
    let w: usize = canvas.width as usize;
    let mut i: usize = 0;
    while i < total
        invariant
            i <= total,
            disc.wf(),
            total == canvas.cells@.len(),
            canvas.cells@.len() == old(canvas).cells@.len(),
            canvas.cells@.len() == canvas.width * canvas.height,
            canvas.width == old(canvas).width,
            canvas.height == old(canvas).height,
            canvas.mask == old(canvas).mask,
            w == canvas.width,
            forall|j: int|
                0 <= j < i ==> canvas.cells@[j] == disc_painted(
                    old(canvas).cells@,
                    w as int,
                    *disc,
                    glyph,
                    fg,
                )[j],
            forall|j: int| i <= j < total ==> canvas.cells@[j] == old(canvas).cells@[j],
        decreases total - i,
    {
        proof {
            if w == 0 {
                assert(canvas.width * canvas.height == 0) by (nonlinear_arith)
                    requires
                        canvas.width == 0,
                ;
            } else {
                crate::canvas::lemma_cell_position(w as int, canvas.height as int, i as int);
            }
        }
        if !canvas.cells[i].protected && disc.holds(i % w, i / w) {
            canvas.cells.set(
                i,
                Cell { glyph, foreground: fg, background: None, protected: false },
            );
        }
        i += 1;
    }
    assert(canvas.cells@ =~= disc_painted(old(canvas).cells@, w as int, *disc, glyph, fg));
}

/// Draws the earth of the canvas.
pub fn draw_earth(canvas: &mut Canvas)
    requires
        old(canvas).wf(),
    ensures
        final(canvas).wf(),
        final(canvas).width == old(canvas).width,
        final(canvas).height == old(canvas).height,
        final(canvas).mask == old(canvas).mask,
        keeps_protected(old(canvas).cells@, final(canvas).cells@),
        final(canvas).cells@ == disc_painted(
            old(canvas).cells@,
            old(canvas).width as int,
            earth_spec(old(canvas).width, old(canvas).height),
            EARTH_GLYPH,
            earth_color(),
        ),
{
    let disc: Disc = earth(canvas.width, canvas.height);
    draw_disc(canvas, &disc, EARTH_GLYPH, earth_color());
}

/// Draws the moon of the canvas.
pub fn draw_moon(canvas: &mut Canvas)
    requires
        old(canvas).wf(),
    ensures
        final(canvas).wf(),
        final(canvas).width == old(canvas).width,
        final(canvas).height == old(canvas).height,
        final(canvas).mask == old(canvas).mask,
        keeps_protected(old(canvas).cells@, final(canvas).cells@),
        final(canvas).cells@ == disc_painted(
            old(canvas).cells@,
            old(canvas).width as int,
            moon_spec(old(canvas).width, old(canvas).height),
            MOON_GLYPH,
            moon_color(),
        ),
{
    let disc: Disc = moon(canvas.width, canvas.height);
    draw_disc(canvas, &disc, MOON_GLYPH, moon_color());
}

} // verus!
