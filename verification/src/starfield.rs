//! The procedural starfield: seeded points of light that twinkle.

use vstd::prelude::*;

use crate::canvas::{
    keeps_protected, lemma_keeps_protected_chain, painted, Canvas, Cell, Region, Rgb,
};
use crate::progress::Progress;
use crate::rng::{state_after, Rng};

verus! {

/// Stars per thousand cells of the field.
pub const DENSITY_PER_MILLE: u16 = 20;

/// One star in this many changes its brightness in a frame.
pub const TWINKLE_ODDS: u32 = 8;

/// Lowest brightness that a twinkle gives.
pub const TWINKLE_FLOOR: u8 = 64;

/// Brightness of every star during the flash.
pub const FLASH_BRIGHTNESS: u8 = 255;

/// One star: its cell in the canvas and how bright it is.
#[derive(Clone, Copy, Debug, PartialEq, Eq, Structural)]
pub struct Star {
    pub x: u16,
    pub y: u16,
    pub brightness: u8,
}

/// Number of stars in a field: `per_mille` for every thousand cells of the
/// region, rounded down.
pub open spec fn star_count(region: Region, per_mille: u16) -> nat {
    if region.x0 < region.x1 && region.y0 < region.y1 {
        ((region.x1 - region.x0) * (region.y1 - region.y0) * per_mille / 1000) as nat
    } else {
        0
    }
}

/// The `k`-th star of the field that a generator in state `state` makes:
/// three draws give its column, its row and its brightness.
pub open spec fn star_at(region: Region, state: u32, k: nat) -> Star {
    Star {
        x: (region.x0 + state_after(state, 3 * k + 1) % ((region.x1 - region.x0) as u32)) as u16,
        y: (region.y0 + state_after(state, 3 * k + 2) % ((region.y1 - region.y0) as u32)) as u16,
        brightness: (state_after(state, 3 * k + 3) % 256) as u8,
    }
}

/// A star after a twinkle that drew `draw`: one draw in `TWINKLE_ODDS`
/// changes the brightness to a value from `TWINKLE_FLOOR` up.
pub open spec fn twinkled(star: Star, draw: u32) -> Star {
    if draw % TWINKLE_ODDS == 0 {
        Star { brightness: (TWINKLE_FLOOR + (draw >> 8) % 192) as u8, ..star }
    } else {
        star
    }
}

/// How bright a star is drawn at a given visibility of the field.
pub open spec fn level_spec(star: Star, visibility: Progress) -> int {
    visibility.scale_spec(star.brightness as u16)
}

/// The glyph for a level of brightness.
pub open spec fn glyph_spec(level: int) -> char {
    if level < 96 {
        '.'
    } else if level < 192 {
        '+'
    } else {
        '*'
    }
}

/// The cells after one star is drawn: a star that is not visible at all is
/// not drawn.
pub open spec fn star_painted(
    cells: Seq<Cell>,
    w: int,
    h: int,
    star: Star,
    visibility: Progress,
) -> Seq<Cell> {
    let level = level_spec(star, visibility);
    if level <= 0 {
        cells
    } else {
        painted(
            cells,
            w,
            h,
            star.x as int,
            star.y as int,
            glyph_spec(level),
            Rgb { r: level as u8, g: level as u8, b: level as u8 },
            None,
        )
    }
}

/// The cells after the stars are drawn in order.
pub open spec fn stars_painted(
    cells: Seq<Cell>,
    w: int,
    h: int,
    stars: Seq<Star>,
    visibility: Progress,
) -> Seq<Cell>
    decreases stars.len(),
{
    if stars.len() == 0 {
        cells
    } else {
        star_painted(
            stars_painted(cells, w, h, stars.drop_last(), visibility),
            w,
            h,
            stars.last(),
            visibility,
        )
    }
}

/// Scatters stars over a region. The field is a function of the region, the
/// density and the generator's state alone.
pub fn generate(region: Region, per_mille: u16, rng: &mut Rng) -> (stars: Vec<Star>)
    requires
        per_mille <= 1000,
    ensures
        stars@.len() == star_count(region, per_mille),
        forall|k: int|
            0 <= k < stars@.len() ==> #[trigger] stars@[k] == star_at(
                region,
                old(rng).state,
                k as nat,
            ),
        forall|k: int|
            0 <= k < stars@.len() ==> region.contains(
                (#[trigger] stars@[k]).x as int,
                stars@[k].y as int,
            ),
        final(rng).state == state_after(old(rng).state, 3 * stars@.len()),
{
    let mut stars: Vec<Star> = Vec::new();
    if region.x0 >= region.x1 || region.y0 >= region.y1 {
        return stars;
    }
    let w: u32 = (region.x1 - region.x0) as u32;
    let h: u32 = (region.y1 - region.y0) as u32;
    assert(w * h <= 4294836225 && w * h * per_mille <= 4294836225000 && w * h * per_mille / 1000
        <= 4294836225) by (nonlinear_arith)
        requires
            w <= 65535,
            h <= 65535,
            per_mille <= 1000,
    ;
    let count: u64 = (w as u64) * (h as u64) * (per_mille as u64) / 1000;
    let ghost s0: u32 = rng.state;
    let mut k: u64 = 0;
    while k < count
        invariant
            k <= count,
            count == star_count(region, per_mille),
            count <= 4294836225,
            region.x0 < region.x1,
            region.y0 < region.y1,
            w == region.x1 - region.x0,
            h == region.y1 - region.y0,
            stars@.len() == k,
            rng.state == state_after(s0, 3 * (k as nat)),
            forall|j: int| 0 <= j < k ==> #[trigger] stars@[j] == star_at(region, s0, j as nat),
            forall|j: int|
                0 <= j < k ==> region.contains((#[trigger] stars@[j]).x as int, stars@[j].y as int),
        decreases count - k,
    {
        let ghost n: nat = 3 * (k as nat);
        let dx: u32 = rng.below(w);
        assert(rng.state == state_after(s0, n + 1));
        let dy: u32 = rng.below(h);
        assert(rng.state == state_after(s0, n + 2));
        let b: u32 = rng.below(256);
        assert(rng.state == state_after(s0, n + 3));
        let star = Star {
            x: region.x0 + dx as u16,
            y: region.y0 + dy as u16,
            brightness: b as u8,
        };
        assert(star == star_at(region, s0, k as nat));
        stars.push(star);
        k += 1;
    }
    stars
}

/// The `k`-th star after a twinkle of the field, which gives it the
/// generator's draw number `k + 1`.
pub open spec fn twinkled_at(stars: Seq<Star>, state: u32, k: int) -> Star {
    twinkled(stars[k], state_after(state, (k + 1) as nat))
}

/// The field after a twinkle by a generator in state `state`.
pub open spec fn twinkled_all(stars: Seq<Star>, state: u32) -> Seq<Star> {
    Seq::new(stars.len(), |k: int| twinkled_at(stars, state, k))
}

/// The `k`-th star at full brightness.
pub open spec fn flashed_at(stars: Seq<Star>, k: int) -> Star {
    Star { brightness: FLASH_BRIGHTNESS, ..stars[k] }
}

/// The field with every star at full brightness.
pub open spec fn flashed_all(stars: Seq<Star>) -> Seq<Star> {
    Seq::new(stars.len(), |k: int| flashed_at(stars, k))
}

/// Lets the stars twinkle: each star takes one draw, and one draw in
/// `TWINKLE_ODDS` changes its brightness.
pub fn twinkle(stars: &mut Vec<Star>, rng: &mut Rng)
    ensures
        final(stars)@ == twinkled_all(old(stars)@, old(rng).state),
        final(rng).state == state_after(old(rng).state, old(stars)@.len()),
{
    let ghost s0: u32 = rng.state;
    let n: usize = stars.len();
    let mut k: usize = 0;
    while k < n
        invariant
            k <= n,
            n == stars@.len(),
            stars@.len() == old(stars)@.len(),
            rng.state == state_after(s0, k as nat),
            forall|j: int|
                0 <= j < k ==> #[trigger] stars@[j] == twinkled(
                    old(stars)@[j],
                    state_after(s0, (j + 1) as nat),
                ),
            forall|j: int| k <= j < n ==> stars@[j] == old(stars)@[j],
        decreases n - k,
    {
        let draw: u32 = rng.next_u32();
        assert(draw == state_after(s0, (k + 1) as nat));
        if draw % TWINKLE_ODDS == 0 {
            let star: Star = stars[k];
            let lift: u32 = (draw >> 8) % 192;
            stars.set(k, Star { brightness: TWINKLE_FLOOR + lift as u8, ..star });
        }
        k += 1;
    }
    assert(stars@ =~= twinkled_all(old(stars)@, s0));
}

/// Brings every star to full brightness, for the flash before the collapse.
pub fn flash_all(stars: &mut Vec<Star>)
    ensures
        final(stars)@ == flashed_all(old(stars)@),
{
    let n: usize = stars.len();
    let mut k: usize = 0;
    while k < n
        invariant
            k <= n,
            n == stars@.len(),
            stars@.len() == old(stars)@.len(),
            forall|j: int|
                0 <= j < k ==> #[trigger] stars@[j] == (Star {
                    brightness: FLASH_BRIGHTNESS,
                    ..old(stars)@[j]
                }),
            forall|j: int| k <= j < n ==> stars@[j] == old(stars)@[j],
        decreases n - k,
    {
        let star: Star = stars[k];
        stars.set(k, Star { brightness: FLASH_BRIGHTNESS, ..star });
        k += 1;
    }
    assert(stars@ =~= flashed_all(old(stars)@));
}

/// Draws the stars at the given visibility of the field: a star's
/// brightness is scaled by it, and a star scaled down to nothing is left
/// out.
pub fn draw(canvas: &mut Canvas, stars: &Vec<Star>, visibility: Progress)
    requires
        old(canvas).wf(),
        visibility.wf(),
    ensures
        final(canvas).wf(),
        final(canvas).width == old(canvas).width,
        final(canvas).height == old(canvas).height,
        final(canvas).mask == old(canvas).mask,
        keeps_protected(old(canvas).cells@, final(canvas).cells@),
        final(canvas).cells@ == stars_painted(
            old(canvas).cells@,
            old(canvas).width as int,
            old(canvas).height as int,
            stars@,
            visibility,
        ),
{
    let ghost w: int = canvas.width as int;
    let ghost h: int = canvas.height as int;
    let n: usize = stars.len();
    let mut k: usize = 0;
    assert(stars@.take(0) =~= Seq::<Star>::empty());
    while k < n
        invariant
            k <= n,
            n == stars@.len(),
            visibility.wf(),
            canvas.wf(),
            canvas.width == old(canvas).width,
            canvas.height == old(canvas).height,
            canvas.mask == old(canvas).mask,
            w == canvas.width,
            h == canvas.height,
            keeps_protected(old(canvas).cells@, canvas.cells@),
            canvas.cells@ == stars_painted(
                old(canvas).cells@,
                w,
                h,
                stars@.take(k as int),
                visibility,
            ),
        decreases n - k,
    {
        let ghost before = canvas.cells@;
        let star: Star = stars[k];
        let level: u16 = visibility.scale(star.brightness as u16);
        if level > 0 {
            let glyph: char = if level < 96 {
                '.'
            } else if level < 192 {
                '+'
            } else {
                '*'
            };
            let shade: u8 = level as u8;
            canvas.set(star.x, star.y, glyph, Rgb { r: shade, g: shade, b: shade }, None);
            proof {
                lemma_keeps_protected_chain(old(canvas).cells@, before, canvas.cells@);
            }
        }
        assert(stars@.take(k + 1).drop_last() =~= stars@.take(k as int));
        k += 1;
    }
    assert(stars@.take(n as int) =~= stars@);
}

} // verus!
