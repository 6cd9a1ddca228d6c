//! Cell-grid compositor.
//!
//! A [`Canvas`] is a `width` by `height` grid of cells, kept row by row in one
//! vector. Painters write cells; [`Canvas::render`] turns the grid into the
//! text that shows it on a terminal. Cells under an inline image are marked
//! protected: painting and clearing leave them alone until the mask is
//! released.

use vstd::arithmetic::div_mod::{lemma_fundamental_div_mod, lemma_fundamental_div_mod_converse};
use vstd::prelude::*;

verus! {

/// A 24-bit colour.
#[derive(Clone, Copy, Debug, PartialEq, Eq, Structural)]
pub struct Rgb {
    pub r: u8,
    pub g: u8,
    pub b: u8,
}

/// One character cell of the grid.
#[derive(Clone, Copy, Debug, PartialEq, Eq, Structural)]
pub struct Cell {
    pub glyph: char,
    pub foreground: Rgb,
    /// `None` is the terminal's own background.
    pub background: Option<Rgb>,
    /// The cell shows part of an inline image and is not to be painted.
    pub protected: bool,
}

impl Cell {
    /// A space in black on the terminal's background, unprotected.
    pub open spec fn blank_spec() -> Cell {
        Cell {
            glyph: ' ',
            foreground: Rgb { r: 0, g: 0, b: 0 },
            background: None,
            protected: false,
        }
    }

    #[verifier::when_used_as_spec(blank_spec)]
    pub fn blank() -> (r: Cell)
        ensures
            r == Cell::blank_spec(),
    {
        Cell {
            glyph: ' ',
            foreground: Rgb { r: 0, g: 0, b: 0 },
            background: None,
            protected: false,
        }
    }
}

/// A rectangle of cells: columns `x0` up to, not including, `x1`, and rows
/// `y0` up to, not including, `y1`.
#[derive(Clone, Copy, Debug, PartialEq, Eq, Structural)]
pub struct Region {
    pub x0: u16,
    pub y0: u16,
    pub x1: u16,
    pub y1: u16,
}

impl Region {
    pub open spec fn contains(&self, x: int, y: int) -> bool {
        self.x0 <= x < self.x1 && self.y0 <= y < self.y1
    }

    pub fn holds(&self, x: usize, y: usize) -> (r: bool)
        ensures
            r == self.contains(x as int, y as int),
    {
        self.x0 as usize <= x && x < self.x1 as usize && self.y0 as usize <= y && y
            < self.y1 as usize
    }
}

/// What every painter keeps to: the grid keeps its size, no cell gains or
/// loses protection, and a protected cell stays exactly as it was.
pub open spec fn keeps_protected(before: Seq<Cell>, after: Seq<Cell>) -> bool {
    &&& after.len() == before.len()
    &&& forall|i: int|
        0 <= i < before.len() ==> (#[trigger] after[i]).protected == before[i].protected && (
        before[i].protected ==> after[i] == before[i])
}

/// Painters can follow one another: what each keeps to, all together keep
/// to.
pub proof fn lemma_keeps_protected_chain(a: Seq<Cell>, b: Seq<Cell>, c: Seq<Cell>)
    requires
        keeps_protected(a, b),
        keeps_protected(b, c),
    ensures
        keeps_protected(a, c),
{
    assert forall|i: int| 0 <= i < a.len() implies (#[trigger] c[i]).protected == a[i].protected
        && (a[i].protected ==> c[i] == a[i]) by {
        assert(b[i].protected == a[i].protected);
    }
}

/// The cells after a clear: protected ones as they were, the others blank.
pub open spec fn cleared(cells: Seq<Cell>) -> Seq<Cell> {
    Seq::new(
        cells.len(),
        |i: int|
            if cells[i].protected {
                cells[i]
            } else {
                Cell::blank_spec()
            },
    )
}

/// The cells after one cell is painted at column `x` of row `y`: nothing
/// changes when the position is off the grid or the cell there is protected.
pub open spec fn painted(
    cells: Seq<Cell>,
    width: int,
    height: int,
    x: int,
    y: int,
    glyph: char,
    fg: Rgb,
    bg: Option<Rgb>,
) -> Seq<Cell> {
    if 0 <= x < width && 0 <= y < height && !cells[y * width + x].protected {
        cells.update(
            y * width + x,
            Cell { glyph, foreground: fg, background: bg, protected: false },
        )
    } else {
        cells
    }
}

/// The `k`-th character of a text.
pub open spec fn letter(text: Seq<char>, k: int) -> char
    recommends
        0 <= k < text.len(),
{
    text[k]
}

/// The cells after `text` is written from column `x` of row `y` rightwards:
/// the cell `k` columns to the right of `x` takes the `k`-th character, as far
/// as it is on the grid and not protected.
pub open spec fn lettered(
    cells: Seq<Cell>,
    width: int,
    height: int,
    x: int,
    y: int,
    text: Seq<char>,
    fg: Rgb,
    bg: Option<Rgb>,
) -> Seq<Cell> {
    Seq::new(
        cells.len(),
        |i: int|
            if 0 <= y < height && i / width == y && x <= i % width < x + text.len()
                && !cells[i].protected {
                Cell {
                    glyph: letter(text, i % width - x),
                    foreground: fg,
                    background: bg,
                    protected: false,
                }
            } else {
                cells[i]
            },
    )
}

/// The cells with exactly those inside `region` protected.
pub open spec fn masked_by(cells: Seq<Cell>, width: int, region: Region) -> Seq<Cell> {
    Seq::new(
        cells.len(),
        |i: int| Cell { protected: region.contains(i % width, i / width), ..cells[i] },
    )
}

/// The cells with none protected.
pub open spec fn unmasked(cells: Seq<Cell>) -> Seq<Cell> {
    Seq::new(cells.len(), |i: int| Cell { protected: false, ..cells[i] })
}

/// The cells with the protection of those inside `region` released.
pub open spec fn released(cells: Seq<Cell>, width: int, region: Region) -> Seq<Cell> {
    Seq::new(
        cells.len(),
        |i: int|
            Cell {
                protected: cells[i].protected && !region.contains(i % width, i / width),
                ..cells[i]
            },
    )
}

/// Row `y`, column `x` of a grid `w` wide and `h` high is cell `y * w + x` of
/// the vector, and no other cell lies in that row and column.
pub proof fn lemma_cell_index(w: int, h: int, x: int, y: int)
    requires
        0 <= x < w,
        0 <= y < h,
    ensures
        0 <= y * w + x < w * h,
        (y * w + x) / w == y,
        (y * w + x) % w == x,
{
    assert(0 <= y * w && y * w + w <= h * w && h * w == w * h) by (nonlinear_arith)
        requires
            0 <= y < h,
            0 < w,
    ;
    assert(y * w == w * y) by (nonlinear_arith);
    lemma_fundamental_div_mod_converse(y * w + x, w, y, x);
}

/// The cell at index `i` lies in row `i / w` and column `i % w`, both on the
/// grid.
pub proof fn lemma_cell_position(w: int, h: int, i: int)
    requires
        0 < w,
        0 <= i < w * h,
    ensures
        0 <= i % w < w,
        0 <= i / w < h,
        i == (i / w) * w + i % w,
{
    lemma_fundamental_div_mod(i, w);
    let q: int = i / w;
    let r: int = i % w;
    assert(q * w == w * q) by (nonlinear_arith);
    assert(0 <= r < w) by (nonlinear_arith)
        requires
            r == i % w,
            0 < w,
    ;
    assert(0 <= q < h) by (nonlinear_arith)
        requires
            i == w * q + r,
            0 <= r < w,
            0 <= i < w * h,
            0 < w,
    ;
}

/// Painting one cell leaves every other cell as it was.
pub proof fn lemma_painted_elsewhere(
    cells: Seq<Cell>,
    w: int,
    h: int,
    x: int,
    y: int,
    i: int,
    glyph: char,
    fg: Rgb,
    bg: Option<Rgb>,
)
    requires
        cells.len() == w * h,
        0 <= i < cells.len(),
        !(0 <= x < w && 0 <= y < h && i == y * w + x),
    ensures
        painted(cells, w, h, x, y, glyph, fg, bg)[i] == cells[i],
{
    if 0 <= x < w && 0 <= y < h {
        lemma_cell_index(w, h, x, y);
    }
}

/// The grid of cells that the painters draw into.
pub struct Canvas {
    pub width: u16,
    pub height: u16,
    /// The cells, row by row.
    pub cells: Vec<Cell>,
    /// The region that an inline image covers, if one was placed.
    pub mask: Option<Region>,
}

impl Canvas {
    /// There is one cell for every position, and only cells inside the image
    /// region are protected.
    pub open spec fn wf(&self) -> bool {
        &&& self.cells@.len() == self.width * self.height
        &&& forall|i: int|
            0 <= i < self.cells@.len() && (#[trigger] self.cells@[i]).protected ==> self.in_mask(
                i % (self.width as int),
                i / (self.width as int),
            )
    }

    /// The position lies inside the image region.
    pub open spec fn in_mask(&self, x: int, y: int) -> bool {
        self.mask matches Some(m) && m.contains(x, y)
    }

    pub open spec fn in_bounds(&self, x: int, y: int) -> bool {
        0 <= x < self.width && 0 <= y < self.height
    }

    /// The cell at column `x` of row `y`.
    pub open spec fn at(&self, x: int, y: int) -> Cell
        recommends
            self.in_bounds(x, y),
    {
        self.cells@[y * self.width + x]
    }

    /// A grid of blank cells without an image region.
    pub fn new(width: u16, height: u16) -> (r: Canvas)
        ensures
            r.wf(),
            r.width == width,
            r.height == height,
            r.mask is None,
            r.cells@ == Seq::new((width * height) as nat, |i: int| Cell::blank_spec()),
    {
        let total: usize = cell_count(width, height);
        let mut cells: Vec<Cell> = Vec::new();
        let mut i: usize = 0;
        while i < total
            invariant
                i <= total,
                cells@.len() == i,
                forall|j: int| 0 <= j < i ==> cells@[j] == Cell::blank_spec(),
            decreases total - i,
        {
            cells.push(Cell::blank());
            i += 1;
        }
        assert(cells@ =~= Seq::new((width * height) as nat, |i: int| Cell::blank_spec()));
        Canvas { width, height, cells, mask: None }
    }

    /// Whether the canvas meets [`Canvas::wf`].
    pub fn is_valid(&self) -> (r: bool)
        ensures
            r == self.wf(),
    {
        let total: usize = cell_count(self.width, self.height);
        if self.cells.len() != total {
            return false;
        }
        let w: usize = self.width as usize;
        let mut i: usize = 0;
        while i < total
            invariant
                i <= total,
                total == self.cells@.len(),
                total == self.width * self.height,
                w == self.width,
                forall|j: int|
                    0 <= j < i && (#[trigger] self.cells@[j]).protected ==> self.in_mask(
                        j % (self.width as int),
                        j / (self.width as int),
                    ),
            decreases total - i,
        {
            if self.cells[i].protected {
                proof {
                    if w == 0 {
                        assert(self.width * self.height == 0) by (nonlinear_arith)
                            requires
                                self.width == 0,
                        ;
                    }
                }
                let inside: bool = match self.mask {
                    Some(m) => m.holds(i % w, i / w),
                    None => false,
                };
                if !inside {
                    return false;
                }
            }
            i += 1;
        }
        true
    }

    /// The cell at column `x` of row `y`, or `None` off the grid.
    pub fn get(&self, x: u16, y: u16) -> (r: Option<Cell>)
        requires
            self.wf(),
        ensures
            r == if self.in_bounds(x as int, y as int) {
                Some(self.at(x as int, y as int))
            } else {
                None
            },
    {
        if x >= self.width || y >= self.height {
            return None;
        }
        let i: usize = self.offset(x, y);
        Some(self.cells[i])
    }

    /// Resets every cell that is not protected to blank.
    pub fn clear(&mut self)
        requires
            old(self).wf(),
        ensures
            final(self).wf(),
            final(self).width == old(self).width,
            final(self).height == old(self).height,
            final(self).mask == old(self).mask,
            keeps_protected(old(self).cells@, final(self).cells@),
            final(self).cells@ == cleared(old(self).cells@),
    {
        let total: usize = self.cells.len();
        let mut i: usize = 0;
        while i < total
            invariant
                i <= total,
                total == self.cells@.len(),
                self.cells@.len() == old(self).cells@.len(),
                self.width == old(self).width,
                self.height == old(self).height,
                self.mask == old(self).mask,
                forall|j: int| 0 <= j < i ==> self.cells@[j] == cleared(old(self).cells@)[j],
                forall|j: int| i <= j < total ==> self.cells@[j] == old(self).cells@[j],
            decreases total - i,
        {
            if !self.cells[i].protected {
                self.cells.set(i, Cell::blank());
            }
            i += 1;
        }
        assert(self.cells@ =~= cleared(old(self).cells@));
    }

    /// Paints one cell. Positions off the grid and protected cells are left
    /// alone.
    pub fn set(&mut self, x: u16, y: u16, glyph: char, fg: Rgb, bg: Option<Rgb>)
        requires
            old(self).wf(),
        ensures
            final(self).wf(),
            final(self).width == old(self).width,
            final(self).height == old(self).height,
            final(self).mask == old(self).mask,
            keeps_protected(old(self).cells@, final(self).cells@),
            final(self).cells@ == painted(
                old(self).cells@,
                old(self).width as int,
                old(self).height as int,
                x as int,
                y as int,
                glyph,
                fg,
                bg,
            ),
    {
        if x >= self.width || y >= self.height {
            return ;
        }
        let i: usize = self.offset(x, y);
        if self.cells[i].protected {
            return ;
        }
        self.cells.set(i, Cell { glyph, foreground: fg, background: bg, protected: false });
    }

    /// Writes `text` from column `x` of row `y` rightwards, one character to a
    /// cell. What would fall beyond the right edge is dropped.
    pub fn put_str(&mut self, x: u16, y: u16, text: &str, fg: Rgb, bg: Option<Rgb>)
        requires
            old(self).wf(),
        ensures
            final(self).wf(),
            final(self).width == old(self).width,
            final(self).height == old(self).height,
            final(self).mask == old(self).mask,
            keeps_protected(old(self).cells@, final(self).cells@),
            final(self).cells@ == lettered(
                old(self).cells@,
                old(self).width as int,
                old(self).height as int,
                x as int,
                y as int,
                text@,
                fg,
                bg,
            ),
    {
        let ghost w: int = self.width as int;
        let ghost h: int = self.height as int;
        let mut column: usize = x as usize;
        for c in it: text.chars()
            invariant
                it.seq() == text@,
                self.wf(),
                self.width == old(self).width,
                self.height == old(self).height,
                self.mask == old(self).mask,
                w == self.width,
                h == self.height,
                old(self).cells@.len() == w * h,
                column == if x + it.index() < 0x1_0000 {
                    x + it.index()
                } else {
                    0x1_0000
                },
                self.cells@ == lettered(
                    old(self).cells@,
                    w,
                    h,
                    x as int,
                    y as int,
                    text@.take(it.index() as int),
                    fg,
                    bg,
                ),
        {
            let ghost k: int = it.index() as int;
            let ghost before = self.cells@;
            if column < 0x1_0000 {
                self.set(column as u16, y, c, fg, bg);
                column += 1;
            }
            proof {
                let after = lettered(
                    old(self).cells@,
                    w,
                    h,
                    x as int,
                    y as int,
                    text@.take(k + 1),
                    fg,
                    bg,
                );
                assert(text@.take(k + 1) =~= text@.take(k).push(c));
                let origin = old(self).cells@;
                assert(before.len() == origin.len());
                assert(after.len() == origin.len());
                assert(self.cells@.len() == origin.len());
                assert(w * h == 0 || w > 0) by (nonlinear_arith)
                    requires
                        0 <= w,
                ;
                assert forall|i: int| 0 <= i < after.len() implies self.cells@[i] == after[i] by {
                    lemma_cell_position(w, h, i);
                    let col: int = i % w;
                    let row: int = i / w;
                    let here: bool = 0 <= y < h && row == y && col == x + k;
                    if x + k < w && 0 <= y < h {
                        lemma_cell_index(w, h, x + k, y as int);
                        assert(here <==> i == y * w + (x + k));
                        assert(self.cells@ == painted(before, w, h, x + k, y as int, c, fg, bg));
                    } else {
                        assert(!here);
                        assert(self.cells@ == before);
                    }
                    if here {
                        assert(before[i] == origin[i]);
                        assert(letter(text@.take(k + 1), col - x) == c);
                    } else {
                        if x + k < w && 0 <= y < h {
                            lemma_painted_elsewhere(before, w, h, x + k, y as int, i, c, fg, bg);
                        }
                        assert(self.cells@[i] == before[i]);
                        if 0 <= y < h && row == y && x <= col < x + k && !origin[i].protected {
                            assert(letter(text@.take(k + 1), col - x) == letter(
                                text@.take(k),
                                col - x,
                            ));
                        }
                    }
                }
                assert(self.cells@ =~= after);
            }
        }
        assert(text@.take(text@.len() as int) =~= text@);
    }

    /// Places the image region: exactly the cells inside it are protected
    /// from now on.
    pub fn set_image_mask(&mut self, x0: u16, y0: u16, x1: u16, y1: u16)
        requires
            old(self).wf(),
        ensures
            final(self).wf(),
            final(self).width == old(self).width,
            final(self).height == old(self).height,
            final(self).mask == Some(Region { x0, y0, x1, y1 }),
            final(self).cells@ == masked_by(
                old(self).cells@,
                old(self).width as int,
                Region { x0, y0, x1, y1 },
            ),
    {
        let region = Region { x0, y0, x1, y1 };
        self.mask = Some(region);
        let total: usize = self.cells.len();
        let w: usize = self.width as usize;
        let mut i: usize = 0;
        while i < total
            invariant
                i <= total,
                total == self.cells@.len(),
                self.cells@.len() == old(self).cells@.len(),
                self.cells@.len() == self.width * self.height,
                self.width == old(self).width,
                self.height == old(self).height,
                self.mask == Some(region),
                w == self.width,
                forall|j: int|
                    0 <= j < i ==> self.cells@[j] == masked_by(old(self).cells@, w as int, region)[j],
                forall|j: int| i <= j < total ==> self.cells@[j] == old(self).cells@[j],
            decreases total - i,
        {
            proof {
                if w == 0 {
                    assert(self.width * self.height == 0) by (nonlinear_arith)
                        requires
                            self.width == 0,
                    ;
                }
            }
            let cell: Cell = self.cells[i];
            let inside: bool = region.holds(i % w, i / w);
            self.cells.set(i, Cell { protected: inside, ..cell });
            i += 1;
        }
        assert(self.cells@ =~= masked_by(old(self).cells@, w as int, region));
    }

    /// Removes the image region: no cell is protected any more.
    pub fn clear_image_mask(&mut self)
        requires
            old(self).wf(),
        ensures
            final(self).wf(),
            final(self).width == old(self).width,
            final(self).height == old(self).height,
            final(self).mask is None,
            final(self).cells@ == unmasked(old(self).cells@),
    {
        self.mask = None;
        let total: usize = self.cells.len();
        let mut i: usize = 0;
        while i < total
            invariant
                i <= total,
                total == self.cells@.len(),
                self.cells@.len() == old(self).cells@.len(),
                self.cells@.len() == self.width * self.height,
                self.width == old(self).width,
                self.height == old(self).height,
                self.mask is None,
                forall|j: int| 0 <= j < i ==> self.cells@[j] == unmasked(old(self).cells@)[j],
                forall|j: int| i <= j < total ==> self.cells@[j] == old(self).cells@[j],
            decreases total - i,
        {
            let cell: Cell = self.cells[i];
            self.cells.set(i, Cell { protected: false, ..cell });
            i += 1;
        }
        assert(self.cells@ =~= unmasked(old(self).cells@));
    }

    /// Releases the protection of the cells inside the given rectangle, so
    /// that they can be painted again. The image region itself stays.
    pub fn unmask_region(&mut self, x0: u16, y0: u16, x1: u16, y1: u16)
        requires
            old(self).wf(),
        ensures
            final(self).wf(),
            final(self).width == old(self).width,
            final(self).height == old(self).height,
            final(self).mask == old(self).mask,
            final(self).cells@ == released(
                old(self).cells@,
                old(self).width as int,
                Region { x0, y0, x1, y1 },
            ),
    {
        let region = Region { x0, y0, x1, y1 };
        let total: usize = self.cells.len();
        let w: usize = self.width as usize;
        let mut i: usize = 0;
        while i < total
            invariant
                i <= total,
                total == self.cells@.len(),
                self.cells@.len() == old(self).cells@.len(),
                self.cells@.len() == self.width * self.height,
                self.width == old(self).width,
                self.height == old(self).height,
                self.mask == old(self).mask,
                w == self.width,
                forall|j: int|
                    0 <= j < i ==> self.cells@[j] == released(old(self).cells@, w as int, region)[j],
                forall|j: int| i <= j < total ==> self.cells@[j] == old(self).cells@[j],
            decreases total - i,
        {
            proof {
                if w == 0 {
                    assert(self.width * self.height == 0) by (nonlinear_arith)
                        requires
                            self.width == 0,
                    ;
                }
            }
            let cell: Cell = self.cells[i];
            if cell.protected && region.holds(i % w, i / w) {
                self.cells.set(i, Cell { protected: false, ..cell });
            }
            i += 1;
        }
        assert(self.cells@ =~= released(old(self).cells@, w as int, region));
    }

    /// Index of the cell at column `x` of row `y`.
    pub(crate) fn offset(&self, x: u16, y: u16) -> (i: usize)
        requires
            self.cells@.len() == self.width * self.height,
            x < self.width,
            y < self.height,
        ensures
            i == y * self.width + x,
            i < self.cells@.len(),
    {
        proof {
            lemma_cell_index(self.width as int, self.height as int, x as int, y as int);
        }
        assert(y * self.width <= 4294836225) by (nonlinear_arith)
            requires
                y <= 0xFFFF,
                self.width <= 0xFFFF,
        ;
        (y as usize) * (self.width as usize) + (x as usize)
    }
}

/// One call by which a painter changes the cells of a canvas.
pub enum PaintCall {
    Clear,
    Paint { x: u16, y: u16, glyph: char, fg: Rgb, bg: Option<Rgb> },
    Write { x: u16, y: u16, text: Seq<char>, fg: Rgb, bg: Option<Rgb> },
}

/// The cells after one painter's call.
pub open spec fn after_paint_call(cells: Seq<Cell>, w: int, h: int, call: PaintCall) -> Seq<Cell> {
    match call {
        PaintCall::Clear => cleared(cells),
        PaintCall::Paint { x, y, glyph, fg, bg } => painted(
            cells,
            w,
            h,
            x as int,
            y as int,
            glyph,
            fg,
            bg,
        ),
        PaintCall::Write { x, y, text, fg, bg } => lettered(
            cells,
            w,
            h,
            x as int,
            y as int,
            text,
            fg,
            bg,
        ),
    }
}

/// The cells after a sequence of painter's calls, made first to last.
pub open spec fn after_paint_calls(cells: Seq<Cell>, w: int, h: int, calls: Seq<PaintCall>) -> Seq<
    Cell,
>
    decreases calls.len(),
{
    if calls.len() == 0 {
        cells
    } else {
        after_paint_call(after_paint_calls(cells, w, h, calls.drop_last()), w, h, calls.last())
    }
}

/// A protected cell is out of the painters' reach: whatever sequence of
/// `clear`, `set` and `put_str` is made, the cell stays exactly as it was,
/// protection included.
pub proof fn lemma_protected_cell_is_untouched(
    cells: Seq<Cell>,
    w: int,
    h: int,
    calls: Seq<PaintCall>,
    i: int,
)
    requires
        cells.len() == w * h,
        0 <= i < cells.len(),
        cells[i].protected,
    ensures
        after_paint_calls(cells, w, h, calls).len() == cells.len(),
        after_paint_calls(cells, w, h, calls)[i] == cells[i],
    decreases calls.len(),
{
    lemma_paint_calls_keep_len(cells, w, h, calls);
    if calls.len() > 0 {
        let before = after_paint_calls(cells, w, h, calls.drop_last());
        lemma_paint_calls_keep_len(cells, w, h, calls.drop_last());
        lemma_protected_cell_is_untouched(cells, w, h, calls.drop_last(), i);
        match calls.last() {
            PaintCall::Paint { x, y, glyph, fg, bg } => {
                if 0 <= x < w && 0 <= y < h && i == y * w + x {
                } else {
                    lemma_painted_elsewhere(before, w, h, x as int, y as int, i, glyph, fg, bg);
                }
            },
            _ => {},
        }
    }
}

/// Painting never changes the number of cells.
pub proof fn lemma_paint_calls_keep_len(cells: Seq<Cell>, w: int, h: int, calls: Seq<PaintCall>)
    requires
        cells.len() == w * h,
    ensures
        after_paint_calls(cells, w, h, calls).len() == cells.len(),
    decreases calls.len(),
{
    if calls.len() > 0 {
        lemma_paint_calls_keep_len(cells, w, h, calls.drop_last());
        match calls.last() {
            PaintCall::Paint { x, y, glyph, fg, bg } => {
                if 0 <= x < w && 0 <= y < h {
                    lemma_cell_index(w, h, x as int, y as int);
                }
            },
            _ => {},
        }
    }
}

/// Placing the image region protects exactly the cells of the grid that lie
/// inside it; releasing a rectangle or removing the region lifts the
/// protection again, and from then on such a cell can be painted.
pub proof fn lemma_mask_protects_region(
    cells: Seq<Cell>,
    w: int,
    h: int,
    region: Region,
    x: int,
    y: int,
)
    requires
        cells.len() == w * h,
        0 <= x < w,
        0 <= y < h,
    ensures
        masked_by(cells, w, region)[y * w + x].protected == region.contains(x, y),
        !unmasked(masked_by(cells, w, region))[y * w + x].protected,
        region.contains(x, y) ==> !released(masked_by(cells, w, region), w, region)[y * w
            + x].protected,
{
    lemma_cell_index(w, h, x, y);
}

/// Number of cells of a grid.
fn cell_count(width: u16, height: u16) -> (n: usize)
    ensures
        n == width * height,
{
    assert(width * height <= 4294836225) by (nonlinear_arith)
        requires
            width <= 0xFFFF,
            height <= 0xFFFF,
    ;
    (width as usize) * (height as usize)
}

} // verus!
