//! A bitmap shown with half-block glyphs.
//!
//! One cell shows two pixels, one above the other: the glyph's foreground
//! is the upper pixel and its background the lower one. The bitmap comes
//! decoded and scaled to twice as many pixel rows as the scene has rows;
//! the brightest pixels can be marked to twinkle like stars.

use vstd::prelude::*;

use crate::canvas::{keeps_protected, lemma_cell_position, Canvas, Cell, Region, Rgb};
use crate::layout::{image_region, image_region_spec};
use crate::rng::{state_after, Rng};

verus! {

/// Upper half block: foreground above, background below.
pub const UPPER_HALF: char = '\u{2580}';

/// Lower half block: foreground below, nothing above.
pub const LOWER_HALF: char = '\u{2584}';

/// One cell in this many that can twinkle changes its brightness in a
/// frame.
pub const TWINKLE_ODDS: u32 = 6;

/// Lowest brightness of a twinkling cell, in 255ths of its own.
pub const TWINKLE_FLOOR: u32 = 160;

/// A cell of the background.
#[derive(Clone, Copy, Debug, PartialEq, Eq, Structural)]
pub struct BgCell {
    pub glyph: char,
    /// The foreground as it came from the bitmap.
    pub base: Rgb,
    /// The foreground as it is drawn.
    pub fg: Rgb,
    pub bg: Option<Rgb>,
    /// The cell is bright enough to twinkle.
    pub star: bool,
}

/// How bright a colour is: the mean of its three channels.
pub open spec fn brightness_spec(c: Rgb) -> int {
    (c.r + c.g + c.b) / 3
}

pub fn brightness(c: Rgb) -> (r: u8)
    ensures
        r == brightness_spec(c),
{
    ((c.r as u16 + c.g as u16 + c.b as u16) / 3) as u8
}

/// The background cell for two pixels. A pixel darker than `transparency`
/// is left out, so that the terminal's own background shows; with a
/// `transparency` of zero every pixel is kept. The cell can twinkle when a
/// threshold is given and one of its pixels reaches it.
pub open spec fn half_block(top: Rgb, bottom: Rgb, transparency: u8, threshold: Option<u8>) -> BgCell {
    let top_clear: bool = brightness_spec(top) < transparency;
    let bottom_clear: bool = brightness_spec(bottom) < transparency;
    let fg: Rgb = if top_clear {
        bottom
    } else {
        top
    };
    BgCell {
        glyph: if top_clear && bottom_clear {
            ' '
        } else if top_clear {
            LOWER_HALF
        } else {
            UPPER_HALF
        },
        base: fg,
        fg,
        bg: if top_clear || bottom_clear {
            None
        } else {
            Some(bottom)
        },
        star: match threshold {
            Some(t) => brightness_spec(top) >= t || brightness_spec(bottom) >= t,
            None => false,
        },
    }
}

pub fn half_block_of(top: Rgb, bottom: Rgb, transparency: u8, threshold: Option<u8>) -> (r:
    BgCell)
    ensures
        r == half_block(top, bottom, transparency, threshold),
{
    let top_level: u8 = brightness(top);
    let bottom_level: u8 = brightness(bottom);
    let top_clear: bool = top_level < transparency;
    let bottom_clear: bool = bottom_level < transparency;
    let fg: Rgb = if top_clear {
        bottom
    } else {
        top
    };
    BgCell {
        glyph: if top_clear && bottom_clear {
            ' '
        } else if top_clear {
            LOWER_HALF
        } else {
            UPPER_HALF
        },
        base: fg,
        fg,
        bg: if top_clear || bottom_clear {
            None
        } else {
            Some(bottom)
        },
        star: match threshold {
            Some(t) => top_level >= t || bottom_level >= t,
            None => false,
        },
    }
}

/// The pixel at column `x` of pixel row `y` of a bitmap `w` wide.
pub open spec fn pixel(pixels: Seq<Rgb>, w: int, x: int, y: int) -> Rgb {
    pixels[y * w + x]
}

/// The background cell at index `k` of a bitmap `w` wide: it shows the
/// pixels of rows `2 * (k / w)` and `2 * (k / w) + 1` in column `k % w`.
pub open spec fn cell_of(
    pixels: Seq<Rgb>,
    w: int,
    k: int,
    transparency: u8,
    threshold: Option<u8>,
) -> BgCell {
    half_block(
        pixel(pixels, w, k % w, 2 * (k / w)),
        pixel(pixels, w, k % w, 2 * (k / w) + 1),
        transparency,
        threshold,
    )
}

/// Turns a bitmap of `width` by `2 * rows` pixels, given row by row, into
/// `width` by `rows` background cells.
pub fn half_blocks(
    pixels: &Vec<Rgb>,
    width: u16,
    rows: u16,
    transparency: u8,
    threshold: Option<u8>,
) -> (cells: Vec<BgCell>)
    requires
        pixels@.len() == width * rows * 2,
    ensures
        cells@.len() == width * rows,
        forall|k: int|
            0 <= k < cells@.len() ==> #[trigger] cells@[k] == cell_of(
                pixels@,
                width as int,
                k,
                transparency,
                threshold,
            ),
{
    let w: usize = width as usize;
    let h: usize = rows as usize;
    assert(w * h <= 4294836225) by (nonlinear_arith)
        requires
            w <= 65535,
            h <= 65535,
    ;
    let total: usize = w * h;
    let available: usize = pixels.len();
    let mut cells: Vec<BgCell> = Vec::new();
    let mut k: usize = 0;
    while k < total
        invariant
            k <= total,
            total == w * h,
            available == pixels@.len(),
            w == width,
            h == rows,
            pixels@.len() == width * rows * 2,
            cells@.len() == k,
            forall|j: int|
                0 <= j < k ==> #[trigger] cells@[j] == cell_of(
                    pixels@,
                    width as int,
                    j,
                    transparency,
                    threshold,
                ),
        decreases total - k,
    {
        proof {
            assert(w > 0) by (nonlinear_arith)
                requires
                    k < w * h,
                    0 <= k,
                    0 <= w,
            ;
            lemma_cell_position(w as int, h as int, k as int);
        }
        let x: usize = k % w;
        let y: usize = k / w;
        let ghost len: int = pixels@.len() as int;
        assert(len == w * h * 2);
        assert(0 <= 2 * y * w && 2 * y * w + x < len && 0 <= (2 * y + 1) * w && (2 * y + 1) * w
            + x < len) by (nonlinear_arith)
            requires
                0 <= x < w,
                0 <= y < h,
                len == w * h * 2,
        ;
        let top: Rgb = pixels[2 * y * w + x];
        let bottom: Rgb = pixels[(2 * y + 1) * w + x];
        cells.push(half_block_of(top, bottom, transparency, threshold));
        k += 1;
    }
    cells
}

/// A cell of the canvas after the background is drawn: the cell at column
/// `x` of row `y` of the scene region takes the background cell of that
/// place, where there is one and the cell is not protected.
pub open spec fn backed_cell(cell: Cell, bg: Seq<BgCell>, region: Region, x: int, y: int) -> Cell {
    let k: int = (y - region.y0) * (region.x1 - region.x0) + (x - region.x0);
    if region.contains(x, y) && k < bg.len() && !cell.protected {
        Cell {
            glyph: bg[k].glyph,
            foreground: bg[k].fg,
            background: bg[k].bg,
            protected: false,
        }
    } else {
        cell
    }
}

/// The cells after the background is drawn into the scene region of a box
/// `w` wide and `h` high.
pub open spec fn backed(cells: Seq<Cell>, w: u16, h: u16, bg: Seq<BgCell>) -> Seq<Cell> {
    Seq::new(
        cells.len(),
        |i: int|
            backed_cell(cells[i], bg, image_region_spec(w, h), i % (w as int), i / (w as int)),
    )
}

/// Draws the background into the scene region of the canvas, row by row.
pub fn draw(canvas: &mut Canvas, bg: &Vec<BgCell>)
    requires
        old(canvas).wf(),
    ensures
        final(canvas).wf(),
        final(canvas).width == old(canvas).width,
        final(canvas).height == old(canvas).height,
        final(canvas).mask == old(canvas).mask,
        keeps_protected(old(canvas).cells@, final(canvas).cells@),
        final(canvas).cells@ == backed(
            old(canvas).cells@,
            old(canvas).width,
            old(canvas).height,
            bg@,
        ),
{
    let region: Region = image_region(canvas.width, canvas.height);
    let total: usize = canvas.cells.len();
    let w: usize = canvas.width as usize;
    let span: usize = (region.x1 - region.x0) as usize;
    let mut i: usize = 0;
    while i < total
        invariant
            i <= total,
            total == canvas.cells@.len(),
            canvas.cells@.len() == old(canvas).cells@.len(),
            canvas.cells@.len() == canvas.width * canvas.height,
            canvas.width == old(canvas).width,
            canvas.height == old(canvas).height,
            canvas.mask == old(canvas).mask,
            w == canvas.width,
            region == image_region_spec(canvas.width, canvas.height),
            region.x0 <= region.x1,
            span == region.x1 - region.x0,
            forall|j: int|
                0 <= j < i ==> canvas.cells@[j] == backed(
                    old(canvas).cells@,
                    canvas.width,
                    canvas.height,
                    bg@,
                )[j],
            forall|j: int| i <= j < total ==> canvas.cells@[j] == old(canvas).cells@[j],
        decreases total - i,
    {
        proof {
            if w == 0 {
                assert(canvas.width * canvas.height == 0) by (nonlinear_arith)
                    requires
                        canvas.width == 0,
                ;
            } else {
                lemma_cell_position(w as int, canvas.height as int, i as int);
            }
        }
        let x: usize = i % w;
        let y: usize = i / w;
        if region.holds(x, y) && !canvas.cells[i].protected {
            let dy: usize = y - region.y0 as usize;
            let dx: usize = x - region.x0 as usize;
            assert(0 <= dy * span <= 4294836225) by (nonlinear_arith)
                requires
                    0 <= dy <= 65535,
                    0 <= span <= 65535,
            ;
            let k: usize = dy * span + dx;
            if k < bg.len() {
                let from: BgCell = bg[k];
                canvas.cells.set(
                    i,
                    Cell {
                        glyph: from.glyph,
                        foreground: from.fg,
                        background: from.bg,
                        protected: false,
                    },
                );
            }
        }
        i += 1;
    }
    assert(canvas.cells@ =~= backed(old(canvas).cells@, canvas.width, canvas.height, bg@));
}

/// One channel of a colour dimmed to `factor` 255ths.
pub open spec fn dimmed_channel(c: u8, factor: int) -> u8 {
    (c * factor / 255) as u8
}

/// A background cell after a twinkle that drew `draw`: a cell that can
/// twinkle is, one draw in `TWINKLE_ODDS`, dimmed to between
/// `TWINKLE_FLOOR` and all 255ths of the brightness it came with.
pub open spec fn twinkled(cell: BgCell, draw: u32) -> BgCell {
    if cell.star && draw % TWINKLE_ODDS == 0 {
        let factor: int = TWINKLE_FLOOR + (draw >> 8) % 96;
        BgCell {
            fg: Rgb {
                r: dimmed_channel(cell.base.r, factor),
                g: dimmed_channel(cell.base.g, factor),
                b: dimmed_channel(cell.base.b, factor),
            },
            ..cell
        }
    } else {
        cell
    }
}

fn dim(c: u8, factor: u32) -> (r: u8)
    requires
        factor <= 255,
    ensures
        r == dimmed_channel(c, factor as int),
{
    assert(c * factor <= 255 * 255 && c * factor / 255 <= 255) by (nonlinear_arith)
        requires
            c <= 255,
            factor <= 255,
    ;
    ((c as u32) * factor / 255) as u8
}

/// The `k`-th cell after a twinkle of the background, which gives it the
/// generator's draw number `k + 1`.
pub open spec fn twinkled_at(cells: Seq<BgCell>, state: u32, k: int) -> BgCell {
    twinkled(cells[k], state_after(state, (k + 1) as nat))
}

/// The background after a twinkle by a generator in state `state`.
pub open spec fn twinkled_all(cells: Seq<BgCell>, state: u32) -> Seq<BgCell> {
    Seq::new(cells.len(), |k: int| twinkled_at(cells, state, k))
}

/// Lets the bright cells of the background twinkle. Every cell takes one
/// draw.
pub fn twinkle(cells: &mut Vec<BgCell>, rng: &mut Rng)
    ensures
        final(cells)@ == twinkled_all(old(cells)@, old(rng).state),
        final(rng).state == state_after(old(rng).state, old(cells)@.len()),
{
    let ghost s0: u32 = rng.state;
    let n: usize = cells.len();
    let mut k: usize = 0;
    while k < n
        invariant
            k <= n,
            n == cells@.len(),
            cells@.len() == old(cells)@.len(),
            rng.state == state_after(s0, k as nat),
            forall|j: int|
                0 <= j < k ==> #[trigger] cells@[j] == twinkled(
                    old(cells)@[j],
                    state_after(s0, (j + 1) as nat),
                ),
            forall|j: int| k <= j < n ==> cells@[j] == old(cells)@[j],
        decreases n - k,
    {
        let draw: u32 = rng.next_u32();
        assert(draw == state_after(s0, (k + 1) as nat));
        let cell: BgCell = cells[k];
        if cell.star && draw % TWINKLE_ODDS == 0 {
            let factor: u32 = TWINKLE_FLOOR + (draw >> 8) % 96;
            cells.set(
                k,
                BgCell {
                    fg: Rgb {
                        r: dim(cell.base.r, factor),
                        g: dim(cell.base.g, factor),
                        b: dim(cell.base.b, factor),
                    },
                    ..cell
                },
            );
        }
        k += 1;
    }
    assert(cells@ =~= twinkled_all(old(cells)@, s0));
}

} // verus!
