//! Where the splash box goes and how large it is.
//!
//! All positions on screen are counted from one, as the terminal counts
//! them; sizes are in character cells unless they are named pixels.

use vstd::prelude::*;

use crate::canvas::Region;

verus! {

/// Width of the box when none is configured.
pub const DEFAULT_WIDTH: u16 = 68;

/// Height of the box when none is configured.
pub const DEFAULT_HEIGHT: u16 = 23;

/// Columns left free between the screen edge and the box.
pub const PAD_LEFT: u16 = 1;

/// Rows left free above the box.
pub const PAD_TOP: u16 = 0;

/// Size assumed for a terminal that does not report one.
pub const DEFAULT_COLUMNS: u16 = 80;

pub const DEFAULT_ROWS: u16 = 24;

/// Pixel size assumed for a character cell where the terminal does not
/// report one.
pub const DEFAULT_CELL_WIDTH: u16 = 8;

pub const DEFAULT_CELL_HEIGHT: u16 = 16;

/// Rows of the box that are not scene: top border, status line and the
/// separator under it; the separator over the footer, the footer and the
/// bottom border.
pub const CHROME_ROWS: u16 = 6;

/// Columns of the box that are not scene: the two side borders.
pub const CHROME_COLUMNS: u16 = 2;

/// First row of the scene inside the box.
pub const SCENE_TOP: u16 = 3;

/// Rows that stay on screen when the box has collapsed: top border, status
/// line and bottom border.
pub const COLLAPSED_ROWS: u16 = 3;

/// Horizontal placement of the box on the screen.
#[derive(Clone, Copy, Debug, PartialEq, Eq, Structural)]
pub enum Align {
    Left,
    Center,
    Right,
}

/// The size the terminal reported, or 80 by 24 where it reported none.
pub fn window_size(reported: Option<(u16, u16)>) -> (r: (u16, u16))
    ensures
        r == match reported {
            Some(size) => size,
            None => (DEFAULT_COLUMNS, DEFAULT_ROWS),
        },
{
    match reported {
        Some(size) => size,
        None => (DEFAULT_COLUMNS, DEFAULT_ROWS),
    }
}

/// The pixel size of a cell that the terminal reported, or 8 by 16 where it
/// reported none.
pub fn cell_pixel_size(reported: Option<(u16, u16)>) -> (r: (u16, u16))
    ensures
        r == match reported {
            Some(size) => size,
            None => (DEFAULT_CELL_WIDTH, DEFAULT_CELL_HEIGHT),
        },
{
    match reported {
        Some(size) => size,
        None => (DEFAULT_CELL_WIDTH, DEFAULT_CELL_HEIGHT),
    }
}

/// `value` brought into the range from `min` to `max`.
pub open spec fn clamp_spec(value: u16, min: u16, max: u16) -> u16 {
    if value < min {
        min
    } else if value > max {
        max
    } else {
        value
    }
}

/// Brings a requested width or height into the configured bounds.
pub fn resolve_size(requested: u16, min: u16, max: u16) -> (r: u16)
    requires
        min <= max,
    ensures
        r == clamp_spec(requested, min, max),
        min <= r <= max,
        min <= requested <= max ==> r == requested,
{
    if requested < min {
        min
    } else if requested > max {
        max
    } else {
        requested
    }
}

/// The alignment that the two flags select; `centered` wins over
/// `right_aligned`.
pub fn alignment(centered: bool, right_aligned: bool) -> (r: Align)
    ensures
        r == if centered {
            Align::Center
        } else if right_aligned {
            Align::Right
        } else {
            Align::Left
        },
{
    if centered {
        Align::Center
    } else if right_aligned {
        Align::Right
    } else {
        Align::Left
    }
}

/// Size that is asked for at the start, before the bounds are looked at:
/// the configured size or 68 by 23, one row higher when an inline image is
/// shown.
pub fn initial_box(width: Option<u16>, height: Option<u16>, image: bool) -> (r: (u16, u16))
    ensures
        r.0 == match width {
            Some(w) => w,
            None => DEFAULT_WIDTH,
        },
        r.1 == capped_sum(
            match height {
                Some(h) => h,
                None => DEFAULT_HEIGHT,
            },
            extra_rows(image),
        ),
{
    let w: u16 = match width {
        Some(w) => w,
        None => DEFAULT_WIDTH,
    };
    let h: u16 = match height {
        Some(h) => h,
        None => DEFAULT_HEIGHT,
    };
    if image && h < u16::MAX {
        (w, h + 1)
    } else {
        (w, h)
    }
}

/// Size of the box at the start of a run: the configured size or 68 by 23,
/// one row higher when an inline image is shown, each brought into the
/// configured bounds.
pub open spec fn start_box_spec(
    width: Option<u16>,
    height: Option<u16>,
    image: bool,
    min: (u16, u16),
    max: (u16, u16),
) -> (u16, u16) {
    let w: u16 = match width {
        Some(w) => w,
        None => DEFAULT_WIDTH,
    };
    let h: u16 = match height {
        Some(h) => h,
        None => DEFAULT_HEIGHT,
    };
    (clamp_spec(w, min.0, max.0), clamp_spec(capped_sum(h, extra_rows_spec(image)), min.1, max.1))
}

pub fn start_box(
    width: Option<u16>,
    height: Option<u16>,
    image: bool,
    min: (u16, u16),
    max: (u16, u16),
) -> (r: (u16, u16))
    requires
        min.0 <= max.0,
        min.1 <= max.1,
    ensures
        r == start_box_spec(width, height, image, min, max),
        min.0 <= r.0 <= max.0,
        min.1 <= r.1 <= max.1,
{
    let wanted: (u16, u16) = initial_box(width, height, image);
    (resolve_size(wanted.0, min.0, max.0), resolve_size(wanted.1, min.1, max.1))
}

/// Rows that an inline image adds to the box: one.
pub open spec fn extra_rows_spec(image: bool) -> u16 {
    if image {
        1
    } else {
        0
    }
}

#[verifier::when_used_as_spec(extra_rows_spec)]
pub fn extra_rows(image: bool) -> (r: u16)
    ensures
        r == extra_rows_spec(image),
{
    if image {
        1
    } else {
        0
    }
}

/// Whether the box can be shown: a live terminal must be at least as wide
/// as the box; captured output is never too narrow.
pub fn fits(term_width: u16, box_width: u16, capture: bool) -> (r: bool)
    ensures
        r == (capture || term_width >= box_width),
{
    capture || term_width >= box_width
}

/// Rows to reserve on screen for the box: padding and box, but no more than
/// the terminal has.
pub fn reserve_rows(box_height: u16, term_height: u16) -> (r: u16)
    ensures
        r == smaller(capped_sum(PAD_TOP, box_height), term_height),
{
    let total: u16 = if box_height <= u16::MAX - PAD_TOP {
        PAD_TOP + box_height
    } else {
        u16::MAX
    };
    if total <= term_height {
        total
    } else {
        term_height
    }
}

/// Line breaks to print so that `reserve` rows are free at the bottom of the
/// screen: the row the cursor is on counts as the first.
pub fn newlines_to_reserve(reserve: u16) -> (r: u16)
    ensures
        r == if reserve == 0 {
            0int
        } else {
            reserve - 1
        },
{
    if reserve == 0 {
        0
    } else {
        reserve - 1
    }
}

/// The screen row of the top of the box, given the row the cursor is on
/// after `reserve` rows were reserved: the reserved rows end with the
/// cursor's. Where the terminal did not answer, the cursor is taken to be
/// on the last row. No row is past the last one that can be addressed.
pub open spec fn origin_row_spec(cursor_row: Option<u16>, term_height: u16, reserve: u16) -> int {
    let cursor = match cursor_row {
        Some(row) => row,
        None => term_height,
    };
    if cursor < reserve {
        1 + PAD_TOP
    } else if cursor - reserve + 1 + PAD_TOP <= u16::MAX {
        cursor - reserve + 1 + PAD_TOP
    } else {
        u16::MAX as int
    }
}

pub fn origin_row(cursor_row: Option<u16>, term_height: u16, reserve: u16) -> (r: u16)
    ensures
        r == origin_row_spec(cursor_row, term_height, reserve),
        r >= 1,
{
    let cursor: u16 = match cursor_row {
        Some(row) => row,
        None => term_height,
    };
    if cursor < reserve {
        1 + PAD_TOP
    } else if cursor - reserve < u16::MAX - PAD_TOP {
        cursor - reserve + 1 + PAD_TOP
    } else {
        u16::MAX
    }
}

/// The screen column of the left edge of the box.
pub open spec fn origin_col_spec(align: Align, term_width: u16, box_width: u16) -> int {
    let spare: int = if term_width >= box_width {
        term_width - box_width
    } else {
        0
    };
    match align {
        Align::Center => spare / 2 + 1,
        Align::Right => if spare >= PAD_LEFT {
            spare - PAD_LEFT + 1
        } else {
            1
        },
        Align::Left => PAD_LEFT + 1,
    }
}

pub fn origin_col(align: Align, term_width: u16, box_width: u16) -> (r: u16)
    ensures
        r == origin_col_spec(align, term_width, box_width),
        r >= 1,
        align != Align::Left && term_width >= box_width ==> r + box_width <= term_width + 1,
{
    let spare: u16 = if term_width >= box_width {
        term_width - box_width
    } else {
        0
    };
    match align {
        Align::Center => spare / 2 + 1,
        Align::Right => if spare >= PAD_LEFT {
            spare - PAD_LEFT + 1
        } else {
            1
        },
        Align::Left => PAD_LEFT + 1,
    }
}

/// One less than `n`, and zero for zero.
pub open spec fn pred(n: u16) -> u16 {
    if n == 0 {
        0
    } else {
        (n - 1) as u16
    }
}

/// The smaller of two sizes.
pub open spec fn smaller(a: u16, b: u16) -> u16 {
    if a <= b {
        a
    } else {
        b
    }
}

/// The sum of two sizes, at most the largest size there is.
pub open spec fn capped_sum(a: u16, b: u16) -> u16 {
    if a + b <= u16::MAX {
        (a + b) as u16
    } else {
        u16::MAX
    }
}

/// Size of the box after the terminal was resized to `term`. With an image
/// the box takes the size `fitted` to the image's proportions, plus the
/// extra row that came with it; without one it keeps its first size as far
/// as the terminal, less one cell each way, has room. Either is then
/// brought into the configured bounds.
pub open spec fn resized_box_spec(
    base: (u16, u16),
    fitted: Option<(u16, u16)>,
    extra_rows: u16,
    term: (u16, u16),
    min: (u16, u16),
    max: (u16, u16),
) -> (u16, u16) {
    let wanted: (u16, u16) = match fitted {
        Some(f) => (f.0, capped_sum(f.1, extra_rows)),
        None => (smaller(base.0, pred(term.0)), smaller(base.1, pred(term.1))),
    };
    (clamp_spec(wanted.0, min.0, max.0), clamp_spec(wanted.1, min.1, max.1))
}

pub fn resized_box(
    base: (u16, u16),
    fitted: Option<(u16, u16)>,
    extra_rows: u16,
    term: (u16, u16),
    min: (u16, u16),
    max: (u16, u16),
) -> (r: (u16, u16))
    requires
        min.0 <= max.0,
        min.1 <= max.1,
    ensures
        r == resized_box_spec(base, fitted, extra_rows, term, min, max),
        min.0 <= r.0 <= max.0,
        min.1 <= r.1 <= max.1,
{
    let (w, h): (u16, u16) = match fitted {
        Some(f) => (
            f.0,
            if f.1 <= u16::MAX - extra_rows {
                f.1 + extra_rows
            } else {
                u16::MAX
            },
        ),
        None => {
            let room_w: u16 = if term.0 == 0 {
                0
            } else {
                term.0 - 1
            };
            let room_h: u16 = if term.1 == 0 {
                0
            } else {
                term.1 - 1
            };
            (
                if base.0 <= room_w {
                    base.0
                } else {
                    room_w
                },
                if base.1 <= room_h {
                    base.1
                } else {
                    room_h
                },
            )
        },
    };
    (resolve_size(w, min.0, max.0), resolve_size(h, min.1, max.1))
}

/// The cells of the box that an inline image covers: everything inside the
/// side borders, from the row under the upper separator to the row over the
/// lower one. It is empty where the box is too small to have a scene.
pub open spec fn image_region_spec(box_width: u16, box_height: u16) -> Region {
    let w: int = if box_width >= CHROME_COLUMNS {
        box_width - CHROME_COLUMNS
    } else {
        0
    };
    let h: int = if box_height >= CHROME_ROWS {
        box_height - CHROME_ROWS
    } else {
        0
    };
    Region { x0: 1, y0: SCENE_TOP, x1: (1 + w) as u16, y1: (SCENE_TOP + h) as u16 }
}

pub fn image_region(box_width: u16, box_height: u16) -> (r: Region)
    ensures
        r == image_region_spec(box_width, box_height),
        r.x0 <= r.x1,
        r.y0 <= r.y1,
        box_width >= CHROME_COLUMNS ==> r.x1 < box_width,
        box_height >= CHROME_ROWS ==> r.y1 + 3 == box_height,
{
    let w: u16 = if box_width >= CHROME_COLUMNS {
        box_width - CHROME_COLUMNS
    } else {
        0
    };
    let h: u16 = if box_height >= CHROME_ROWS {
        box_height - CHROME_ROWS
    } else {
        0
    };
    Region { x0: 1, y0: SCENE_TOP, x1: 1 + w, y1: SCENE_TOP + h }
}

/// Size in pixels of the bitmap that fills a region of cells.
pub fn image_pixels(region: Region, cell: (u16, u16)) -> (r: (u32, u32))
    requires
        region.x0 <= region.x1,
        region.y0 <= region.y1,
    ensures
        r.0 == (region.x1 - region.x0) * cell.0,
        r.1 == (region.y1 - region.y0) * cell.1,
{
    let w: u32 = (region.x1 - region.x0) as u32;
    let h: u32 = (region.y1 - region.y0) as u32;
    assert(w * cell.0 <= 4294836225 && h * cell.1 <= 4294836225) by (nonlinear_arith)
        requires
            w <= 65535,
            h <= 65535,
            cell.0 <= 65535,
            cell.1 <= 65535,
    ;
    (w * (cell.0 as u32), h * (cell.1 as u32))
}

/// Cells that a run of `pixels` pixels covers where a cell is `per_cell`
/// pixels long: a cell that is covered in part counts.
pub open spec fn cells_for(pixels: u32, per_cell: u16) -> int {
    (pixels + per_cell - 1) / (per_cell as int)
}

/// The size of an image in cells, given its size in pixels and the size
/// of a cell in pixels.
pub fn natural_cells(image: (u32, u32), cell: (u16, u16)) -> (r: (u32, u32))
    requires
        cell.0 > 0,
        cell.1 > 0,
    ensures
        r.0 == cells_for(image.0, cell.0),
        r.1 == cells_for(image.1, cell.1),
{
    proof {
        lemma_cells_for_bound(image.0 as int, cell.0 as int);
        lemma_cells_for_bound(image.1 as int, cell.1 as int);
    }
    (
        ((image.0 as u64 + cell.0 as u64 - 1) / (cell.0 as u64)) as u32,
        ((image.1 as u64 + cell.1 as u64 - 1) / (cell.1 as u64)) as u32,
    )
}

/// A run of pixels covers no more cells than it has pixels.
proof fn lemma_cells_for_bound(pixels: int, per_cell: int)
    requires
        0 <= pixels,
        1 <= per_cell,
    ensures
        0 <= (pixels + per_cell - 1) / per_cell <= pixels,
{
    assert(0 <= (pixels + per_cell - 1) / per_cell <= pixels) by (nonlinear_arith)
        requires
            0 <= pixels,
            1 <= per_cell,
    ;
}

/// The part of a length of the terminal that the scene can take: all but
/// one cell and the chrome.
pub open spec fn room(term: u16, chrome: u16) -> int {
    if term >= 1 + chrome {
        term - 1 - chrome
    } else {
        0
    }
}

/// The size of the scene that shows an image of the `natural` size in the
/// room there is: the natural size where it fits; else the largest size
/// with the proportions of the image, rounded down, that does. An image
/// without width or height is cut to the room.
pub open spec fn fitted_scene(natural: (u32, u32), room: (int, int)) -> (int, int) {
    if natural.0 <= room.0 && natural.1 <= room.1 {
        (natural.0 as int, natural.1 as int)
    } else if natural.0 == 0 || natural.1 == 0 {
        (
            if natural.0 <= room.0 {
                natural.0 as int
            } else {
                room.0
            },
            if natural.1 <= room.1 {
                natural.1 as int
            } else {
                room.1
            },
        )
    } else if natural.0 * room.1 >= natural.1 * room.0 {
        (room.0, (natural.1 * room.0) / (natural.0 as int))
    } else {
        ((natural.0 * room.1) / (natural.1 as int), room.1)
    }
}

/// The size of the box that shows an image of the `natural` size in cells
/// on a terminal of size `term`, with `chrome` columns and rows of the box
/// not being scene. The image is never enlarged; where it has to shrink it
/// keeps its proportions.
pub open spec fn fit_with_chrome_spec(natural: (u32, u32), term: (u16, u16), chrome: (u16, u16)) -> (
    int,
    int,
) {
    let scene = fitted_scene(natural, (room(term.0, chrome.0), room(term.1, chrome.1)));
    (scene.0 + chrome.0, scene.1 + chrome.1)
}

pub fn fit_with_chrome(natural: (u32, u32), term: (u16, u16), chrome: (u16, u16)) -> (r: (
    u16,
    u16,
))
    ensures
        (r.0 as int, r.1 as int) == fit_with_chrome_spec(natural, term, chrome),
        r.0 >= chrome.0,
        r.1 >= chrome.1,
        term.0 >= 1 + chrome.0 ==> r.0 < term.0,
        term.1 >= 1 + chrome.1 ==> r.1 < term.1,
{
    let room_w: u64 = if term.0 as u32 >= 1 + chrome.0 as u32 {
        (term.0 - 1 - chrome.0) as u64
    } else {
        0
    };
    let room_h: u64 = if term.1 as u32 >= 1 + chrome.1 as u32 {
        (term.1 - 1 - chrome.1) as u64
    } else {
        0
    };
    let nw: u64 = natural.0 as u64;
    let nh: u64 = natural.1 as u64;
    proof {
        lemma_fitted_scene_fits(natural, (room_w as int, room_h as int));
    }
    assert(nw * room_h <= 281470681677825 && nh * room_w <= 281470681677825) by (nonlinear_arith)
        requires
            nw <= 0xFFFF_FFFF,
            nh <= 0xFFFF_FFFF,
            room_w <= 0xFFFF,
            room_h <= 0xFFFF,
    ;
    let scene: (u64, u64) = if nw <= room_w && nh <= room_h {
        (nw, nh)
    } else if nw == 0 || nh == 0 {
        (
            if nw <= room_w {
                nw
            } else {
                room_w
            },
            if nh <= room_h {
                nh
            } else {
                room_h
            },
        )
    } else if nw * room_h >= nh * room_w {
        (room_w, nh * room_w / nw)
    } else {
        (nw * room_h / nh, room_h)
    };
    ((scene.0 + chrome.0 as u64) as u16, (scene.1 + chrome.1 as u64) as u16)
}

/// The fitted scene fits the room and is no larger than the image. Where
/// an image with width and height had to shrink, the scene fills the room
/// in one direction and has, in the other, the length that keeps the
/// proportions of the image, rounded down.
pub proof fn lemma_fitted_scene_fits(natural: (u32, u32), room: (int, int))
    requires
        0 <= room.0,
        0 <= room.1,
    ensures
        0 <= fitted_scene(natural, room).0 <= room.0,
        0 <= fitted_scene(natural, room).1 <= room.1,
        fitted_scene(natural, room).0 <= natural.0,
        fitted_scene(natural, room).1 <= natural.1,
        !(natural.0 <= room.0 && natural.1 <= room.1) && natural.0 > 0 && natural.1 > 0 ==> {
            let scene = fitted_scene(natural, room);
            ||| (scene.0 == room.0 && scene.1 * natural.0 <= natural.1 * scene.0 < (scene.1 + 1)
                * natural.0)
            ||| (scene.1 == room.1 && scene.0 * natural.1 <= natural.0 * scene.1 < (scene.0 + 1)
                * natural.1)
        },
{
    let nw: int = natural.0 as int;
    let nh: int = natural.1 as int;
    let rw: int = room.0;
    let rh: int = room.1;
    if !(nw <= rw && nh <= rh) && nw > 0 && nh > 0 {
        if nw * rh >= nh * rw {
            let q: int = (nh * rw) / nw;
            assert(0 <= q && q * nw <= nh * rw && nh * rw < (q + 1) * nw) by (nonlinear_arith)
                requires
                    q == (nh * rw) / nw,
                    0 < nw,
                    0 <= nh,
                    0 <= rw,
            ;
            assert(q <= rh) by (nonlinear_arith)
                requires
                    q * nw <= nh * rw,
                    nw * rh >= nh * rw,
                    0 < nw,
                    0 <= q,
                    0 <= rh,
            ;
            assert(rw <= nw) by (nonlinear_arith)
                requires
                    nw * rh >= nh * rw,
                    !(nw <= rw && nh <= rh),
                    0 < nw,
                    0 < nh,
                    0 <= rw,
                    0 <= rh,
            ;
            assert(q <= nh) by (nonlinear_arith)
                requires
                    q * nw <= nh * rw,
                    rw <= nw,
                    0 < nw,
                    0 <= q,
                    0 <= rw,
                    0 < nh,
            ;
        } else {
            let q: int = (nw * rh) / nh;
            assert(0 <= q && q * nh <= nw * rh && nw * rh < (q + 1) * nh) by (nonlinear_arith)
                requires
                    q == (nw * rh) / nh,
                    0 < nh,
                    0 <= nw,
                    0 <= rh,
            ;
            assert(q <= rw) by (nonlinear_arith)
                requires
                    q * nh <= nw * rh,
                    nw * rh < nh * rw,
                    0 < nh,
                    0 <= q,
                    0 <= rw,
            ;
            assert(rh <= nh) by (nonlinear_arith)
                requires
                    nw * rh < nh * rw,
                    !(nw <= rw && nh <= rh),
                    0 < nw,
                    0 < nh,
                    0 <= rw,
                    0 <= rh,
            ;
            assert(q <= nw) by (nonlinear_arith)
                requires
                    q * nh <= nw * rh,
                    rh <= nh,
                    0 < nh,
                    0 <= q,
                    0 <= rh,
                    0 < nw,
            ;
        }
    }
}

} // verus!
