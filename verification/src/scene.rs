//! One frame of the splash: what is painted, in which order.
//!
//! A frame is painted onto a cleared canvas. While the scene plays, the
//! scenery comes first (nothing under an inline image, else the half-block
//! background, else stars, earth and moon), then border, status line and
//! footer. While the box collapses, the scenery is painted in full and the
//! collapsing frame over it.

use vstd::prelude::*;

use crate::background::{backed, BgCell};
use crate::border::{
    border_color, bottom_row, collapsed_bottom, draw_border, draw_collapsing_outline, framed,
    outlined,
};
use crate::canvas::{
    keeps_protected, lemma_keeps_protected_chain, lettered, released, Canvas, Cell, Region,
};
use crate::celestial::{
    disc_painted, draw_earth, draw_moon, earth_color, earth_spec, moon_color, moon_spec,
    EARTH_GLYPH, MOON_GLYPH,
};
use crate::layout::SCENE_TOP;
use crate::progress::Progress;
use crate::rng::{seeded, state_after, Rng};
use crate::starfield::{
    flashed_all, generate, star_at, star_count, stars_painted, twinkled_all, Star,
    DENSITY_PER_MILLE,
};
use crate::status::{
    footed, footer_color, footer_text_spec, shown_chars, status_color, STATUS_COLUMN, STATUS_ROW,
};
use crate::timeline::{Phase, Timeline};

verus! {

/// Earth and moon are drawn once their visibility is above this many
/// tenths.
pub const CELESTIAL_TENTHS: u64 = 3;

/// What the scenery is drawn from.
pub struct Scene {
    pub stars: Vec<Star>,
    /// The half-block form of the background image, if there is one.
    pub background: Option<Vec<BgCell>>,
    pub rng: Rng,
}

/// A scene as specifications see it.
pub struct SceneView {
    pub stars: Seq<Star>,
    pub background: Option<Seq<BgCell>>,
    /// State of the generator.
    pub state: u32,
}

/// A background as specifications see it.
pub open spec fn background_view(background: Option<Vec<BgCell>>) -> Option<Seq<BgCell>> {
    match background {
        Some(cells) => Some(cells@),
        None => None,
    }
}

impl View for Scene {
    type V = SceneView;

    open spec fn view(&self) -> SceneView {
        SceneView {
            stars: self.stars@,
            background: background_view(self.background),
            state: self.rng.state,
        }
    }
}

/// The part of a box in which stars are scattered: inside the side
/// borders, from the first scene row down to the separator over the
/// footer.
pub open spec fn star_region_spec(width: u16, height: u16) -> Region {
    Region {
        x0: 1,
        y0: SCENE_TOP,
        x1: if width == 0 {
            0
        } else {
            (width - 1) as u16
        },
        y1: if height >= 2 * SCENE_TOP {
            (height - SCENE_TOP) as u16
        } else {
            SCENE_TOP
        },
    }
}

pub fn star_region(width: u16, height: u16) -> (r: Region)
    ensures
        r == star_region_spec(width, height),
{
    Region {
        x0: 1,
        y0: SCENE_TOP,
        x1: if width == 0 {
            0
        } else {
            width - 1
        },
        y1: if height >= 2 * SCENE_TOP {
            height - SCENE_TOP
        } else {
            SCENE_TOP
        },
    }
}

/// The scene of a box `width` by `height` when it is made: the stars that
/// a generator seeded with `seed` scatters over the star region, the
/// background as given, and the generator as the stars left it.
pub open spec fn fresh_scene(
    width: u16,
    height: u16,
    background: Option<Seq<BgCell>>,
    seed: u32,
) -> SceneView {
    let region = star_region_spec(width, height);
    let count = star_count(region, DENSITY_PER_MILLE);
    SceneView {
        stars: Seq::new(count, |k: int| star_at(region, seeded(seed), k as nat)),
        background,
        state: state_after(seeded(seed), 3 * count),
    }
}

impl Scene {
    /// The scene of a box: its starfield, scattered by a generator seeded
    /// with `seed`, and the background it was given.
    pub fn new(width: u16, height: u16, background: Option<Vec<BgCell>>, seed: u32) -> (r: Scene)
        ensures
            r@ == fresh_scene(width, height, background_view(background), seed),
            r.background == background,
            r.stars@.len() == star_count(star_region_spec(width, height), DENSITY_PER_MILLE),
            forall|k: int|
                0 <= k < r.stars@.len() ==> #[trigger] r.stars@[k] == star_at(
                    star_region_spec(width, height),
                    seeded(seed),
                    k as nat,
                ),
            forall|k: int|
                0 <= k < r.stars@.len() ==> star_region_spec(width, height).contains(
                    (#[trigger] r.stars@[k]).x as int,
                    r.stars@[k].y as int,
                ),
            r.rng.state == state_after(seeded(seed), 3 * r.stars@.len()),
    {
        let mut rng = Rng::new(seed);
        let stars = generate(star_region(width, height), DENSITY_PER_MILLE, &mut rng);
        assert(stars@ =~= fresh_scene(width, height, background_view(background), seed).stars);
        Scene { stars, background, rng }
    }
}

/// The stars as a frame shows them: at full brightness during the flash,
/// twinkled while the scene is alive, and as they were otherwise and
/// whenever they are not visible at all.
pub open spec fn stars_in_frame(stars: Seq<Star>, state: u32, t: Timeline) -> Seq<Star> {
    if t.star_visibility_spec().is_zero() {
        stars
    } else if t.is_freeze_flash_spec() {
        flashed_all(stars)
    } else if t.phase == Phase::Alive {
        twinkled_all(stars, state)
    } else {
        stars
    }
}

/// The generator's state after the stars of a frame: it has moved on by
/// one draw for every star where the stars twinkled.
pub open spec fn state_after_stars(stars: Seq<Star>, state: u32, t: Timeline) -> u32 {
    if !t.star_visibility_spec().is_zero() && !t.is_freeze_flash_spec() && t.phase
        == Phase::Alive {
        state_after(state, stars.len())
    } else {
        state
    }
}

/// The cells after stars, earth and moon are painted: the stars at their
/// visibility, earth and moon once theirs is above three tenths.
pub open spec fn procedural(
    cells: Seq<Cell>,
    w: u16,
    h: u16,
    stars: Seq<Star>,
    star_visibility: Progress,
    celestial_visibility: Progress,
) -> Seq<Cell> {
    let lit = if star_visibility.is_zero() {
        cells
    } else {
        stars_painted(cells, w as int, h as int, stars, star_visibility)
    };
    if celestial_visibility.exceeds(CELESTIAL_TENTHS, 10) {
        disc_painted(
            disc_painted(lit, w as int, earth_spec(w, h), EARTH_GLYPH, earth_color()),
            w as int,
            moon_spec(w, h),
            MOON_GLYPH,
            moon_color(),
        )
    } else {
        lit
    }
}

/// The cells after the status text is drawn at the given progress of its
/// reveal.
pub open spec fn with_status(
    cells: Seq<Cell>,
    w: u16,
    h: u16,
    status: Seq<char>,
    progress: Progress,
) -> Seq<Cell> {
    lettered(
        cells,
        w as int,
        h as int,
        STATUS_COLUMN as int,
        STATUS_ROW as int,
        status.take(shown_chars(status.len(), w, progress)),
        status_color(),
        None,
    )
}

/// The cells after border, status line and footer are painted over the
/// scenery.
pub open spec fn chrome(cells: Seq<Cell>, w: u16, h: u16, status: Seq<char>, t: Timeline) -> Seq<
    Cell,
> {
    let bordered = outlined(cells, w, h, border_color(), t.border_progress_spec());
    let titled = if t.status_progress_spec().is_zero() {
        bordered
    } else {
        with_status(bordered, w, h, status, t.status_progress_spec())
    };
    if t.footer_visible_spec() {
        footed(titled, w, h, footer_text_spec(t.phase), footer_color())
    } else {
        titled
    }
}

/// The cells after the collapsing frame is painted: the outline with its
/// bottom border slid up, and the whole status text.
pub open spec fn collapsed_frame(
    cells: Seq<Cell>,
    w: u16,
    h: u16,
    status: Seq<char>,
    progress: Progress,
) -> Seq<Cell> {
    with_status(framed(cells, w, h, border_color(), progress), w, h, status, Progress::one_spec())
}

/// The rows of a box that the collapse has wiped: all rows under the
/// bottom border.
pub open spec fn wiped_rows(w: u16, h: u16, progress: Progress) -> Region {
    Region { x0: 0, y0: (collapsed_bottom(h, progress) + 1) as u16, x1: w, y1: h }
}

impl SceneView {
    /// The scene after a frame that is not collapsing: under an inline
    /// image nothing changes; a background twinkles; without one the stars
    /// flash or twinkle as the phase asks.
    pub open spec fn after_frame(self, t: Timeline, image_mode: bool) -> SceneView {
        if image_mode {
            self
        } else {
            match self.background {
                Some(cells) => SceneView {
                    stars: self.stars,
                    background: Some(crate::background::twinkled_all(cells, self.state)),
                    state: state_after(self.state, cells.len()),
                },
                None => SceneView {
                    stars: stars_in_frame(self.stars, self.state, t),
                    background: None,
                    state: state_after_stars(self.stars, self.state, t),
                },
            }
        }
    }

    /// The scene after a frame of the collapse: only a background still
    /// twinkles.
    pub open spec fn after_collapse_frame(self, image_mode: bool) -> SceneView {
        if image_mode {
            self
        } else {
            match self.background {
                Some(cells) => SceneView {
                    stars: self.stars,
                    background: Some(crate::background::twinkled_all(cells, self.state)),
                    state: state_after(self.state, cells.len()),
                },
                None => self,
            }
        }
    }

    /// The cells after the scenery of a frame that is not collapsing is
    /// painted from this scene.
    pub open spec fn scenery(
        self,
        cells: Seq<Cell>,
        w: u16,
        h: u16,
        t: Timeline,
        image_mode: bool,
    ) -> Seq<Cell> {
        if image_mode {
            cells
        } else {
            match self.background {
                Some(bg) => backed(cells, w, h, bg),
                None => procedural(
                    cells,
                    w,
                    h,
                    self.stars,
                    t.star_visibility_spec(),
                    t.celestial_visibility_spec(),
                ),
            }
        }
    }

    /// The cells after the scenery of a frame of the collapse is painted
    /// from this scene: everything at full visibility, and under an inline
    /// image the rows that the collapse has wiped released.
    pub open spec fn collapsing_scenery(
        self,
        cells: Seq<Cell>,
        w: u16,
        h: u16,
        progress: Progress,
        image_mode: bool,
    ) -> Seq<Cell> {
        if image_mode {
            released(cells, w as int, wiped_rows(w, h, progress))
        } else {
            match self.background {
                Some(bg) => backed(cells, w, h, bg),
                None => procedural(
                    cells,
                    w,
                    h,
                    self.stars,
                    Progress::one_spec(),
                    Progress::one_spec(),
                ),
            }
        }
    }
}

/// Paints the stars of a frame: lets them flash or twinkle as the phase
/// asks, and draws them at their visibility.
fn paint_stars(canvas: &mut Canvas, timeline: &Timeline, stars: &mut Vec<Star>, rng: &mut Rng)
    requires
        old(canvas).wf(),
        timeline.wf(),
    ensures
        final(canvas).wf(),
        final(canvas).width == old(canvas).width,
        final(canvas).height == old(canvas).height,
        final(canvas).mask == old(canvas).mask,
        keeps_protected(old(canvas).cells@, final(canvas).cells@),
        final(stars)@ == stars_in_frame(old(stars)@, old(rng).state, *timeline),
        final(rng).state == state_after_stars(old(stars)@, old(rng).state, *timeline),
        final(canvas).cells@ == if timeline.star_visibility_spec().is_zero() {
            old(canvas).cells@
        } else {
            stars_painted(
                old(canvas).cells@,
                old(canvas).width as int,
                old(canvas).height as int,
                final(stars)@,
                timeline.star_visibility_spec(),
            )
        },
{
    let visibility: Progress = timeline.star_visibility();
    if !visibility.is_zero() {
        if timeline.is_freeze_flash() {
            crate::starfield::flash_all(stars);
        } else if timeline.gradient_active() {
            crate::starfield::twinkle(stars, rng);
        }
        crate::starfield::draw(canvas, stars, visibility);
    }
}

/// Paints earth and moon.
fn paint_celestial(canvas: &mut Canvas)
    requires
        old(canvas).wf(),
    ensures
        final(canvas).wf(),
        final(canvas).width == old(canvas).width,
        final(canvas).height == old(canvas).height,
        final(canvas).mask == old(canvas).mask,
        keeps_protected(old(canvas).cells@, final(canvas).cells@),
        final(canvas).cells@ == disc_painted(
            disc_painted(
                old(canvas).cells@,
                old(canvas).width as int,
                earth_spec(old(canvas).width, old(canvas).height),
                EARTH_GLYPH,
                earth_color(),
            ),
            old(canvas).width as int,
            moon_spec(old(canvas).width, old(canvas).height),
            MOON_GLYPH,
            moon_color(),
        ),
{
    draw_earth(canvas);
    let ghost with_earth = canvas.cells@;
    draw_moon(canvas);
    proof {
        lemma_keeps_protected_chain(old(canvas).cells@, with_earth, canvas.cells@);
    }
}

/// Paints the scenery of a frame that is not collapsing.
pub fn paint_scenery(
    canvas: &mut Canvas,
    timeline: &Timeline,
    scene: &mut Scene,
    image_mode: bool,
)
    requires
        old(canvas).wf(),
        timeline.wf(),
    ensures
        final(canvas).wf(),
        final(canvas).width == old(canvas).width,
        final(canvas).height == old(canvas).height,
        final(canvas).mask == old(canvas).mask,
        keeps_protected(old(canvas).cells@, final(canvas).cells@),
        final(scene)@ == old(scene)@.after_frame(*timeline, image_mode),
        final(canvas).cells@ == final(scene)@.scenery(
            old(canvas).cells@,
            old(canvas).width,
            old(canvas).height,
            *timeline,
            image_mode,
        ),
{
    if image_mode {
        return ;
    }
    match scene.background {
        Some(_) => {
            let mut cells: Vec<BgCell> = scene.background.take().unwrap();
            crate::background::twinkle(&mut cells, &mut scene.rng);
            crate::background::draw(canvas, &cells);
            scene.background = Some(cells);
        },
        None => {
            paint_stars(canvas, timeline, &mut scene.stars, &mut scene.rng);
            let ghost lit = canvas.cells@;
            if timeline.celestial_visibility().exceeds(CELESTIAL_TENTHS, 10) {
                paint_celestial(canvas);
                proof {
                    lemma_keeps_protected_chain(old(canvas).cells@, lit, canvas.cells@);
                }
            }
        },
    }
}

/// Paints a frame that is not collapsing onto a cleared canvas: scenery,
/// border, status line where its reveal has begun, and footer where it is
/// visible.
pub fn paint_frame(
    canvas: &mut Canvas,
    timeline: &Timeline,
    scene: &mut Scene,
    status: &str,
    image_mode: bool,
)
    requires
        old(canvas).wf(),
        timeline.wf(),
    ensures
        final(canvas).wf(),
        final(canvas).width == old(canvas).width,
        final(canvas).height == old(canvas).height,
        final(canvas).mask == old(canvas).mask,
        keeps_protected(old(canvas).cells@, final(canvas).cells@),
        final(scene)@ == old(scene)@.after_frame(*timeline, image_mode),
        final(canvas).cells@ == chrome(
            final(scene)@.scenery(
                old(canvas).cells@,
                old(canvas).width,
                old(canvas).height,
                *timeline,
                image_mode,
            ),
            old(canvas).width,
            old(canvas).height,
            status@,
            *timeline,
        ),
{
    paint_scenery(canvas, timeline, scene, image_mode);
    let ghost scenery = canvas.cells@;
    draw_border(canvas, border_color(), timeline.border_progress());
    let ghost bordered = canvas.cells@;
    proof {
        lemma_keeps_protected_chain(old(canvas).cells@, scenery, bordered);
    }
    let progress: Progress = timeline.status_progress();
    if !progress.is_zero() {
        crate::status::draw(canvas, status, STATUS_ROW, status_color(), progress);
    }
    let ghost titled = canvas.cells@;
    proof {
        lemma_keeps_protected_chain(old(canvas).cells@, bordered, titled);
    }
    if timeline.footer_visible() {
        crate::status::draw_footer(canvas, timeline.phase, footer_color());
        proof {
            lemma_keeps_protected_chain(old(canvas).cells@, titled, canvas.cells@);
        }
    }
}

/// Draws the frame of the collapsing box over the scene: top border, status
/// line between the side borders, side borders down to the bottom border,
/// the bottom border slid up by the progress of the collapse, and blanks in
/// every row under it.
pub fn draw_collapsed_frame(canvas: &mut Canvas, status: &str, progress: Progress)
    requires
        old(canvas).wf(),
        progress.wf(),
    ensures
        final(canvas).wf(),
        final(canvas).width == old(canvas).width,
        final(canvas).height == old(canvas).height,
        final(canvas).mask == old(canvas).mask,
        keeps_protected(old(canvas).cells@, final(canvas).cells@),
        final(canvas).cells@ == collapsed_frame(
            old(canvas).cells@,
            old(canvas).width,
            old(canvas).height,
            status@,
            progress,
        ),
{
    draw_collapsing_outline(canvas, border_color(), progress);
    let ghost outlined = canvas.cells@;
    crate::status::draw(canvas, status, STATUS_ROW, status_color(), Progress::one());
    proof {
        lemma_keeps_protected_chain(old(canvas).cells@, outlined, canvas.cells@);
    }
}

/// Paints a frame of the collapse onto a cleared canvas: the scenery in
/// full, and the collapsing frame over it. Under an inline image the
/// scenery is the image itself: the rows that the collapse has wiped are
/// released, so that the blanks of the frame erase the image there.
pub fn paint_collapse(
    canvas: &mut Canvas,
    timeline: &Timeline,
    scene: &mut Scene,
    status: &str,
    image_mode: bool,
)
    requires
        old(canvas).wf(),
        timeline.wf(),
    ensures
        final(canvas).wf(),
        final(canvas).width == old(canvas).width,
        final(canvas).height == old(canvas).height,
        final(canvas).mask == old(canvas).mask,
        !image_mode ==> keeps_protected(old(canvas).cells@, final(canvas).cells@),
        final(scene)@ == old(scene)@.after_collapse_frame(image_mode),
        final(canvas).cells@ == collapsed_frame(
            final(scene)@.collapsing_scenery(
                old(canvas).cells@,
                old(canvas).width,
                old(canvas).height,
                timeline.collapse_progress_spec(),
                image_mode,
            ),
            old(canvas).width,
            old(canvas).height,
            status@,
            timeline.collapse_progress_spec(),
        ),
{
    let progress: Progress = timeline.collapse_progress();
    if image_mode {
        let bottom: u16 = bottom_row(canvas.height, progress);
        canvas.unmask_region(0, bottom + 1, canvas.width, canvas.height);
    } else {
        match scene.background {
            Some(_) => {
                let mut cells: Vec<BgCell> = scene.background.take().unwrap();
                crate::background::twinkle(&mut cells, &mut scene.rng);
                crate::background::draw(canvas, &cells);
                scene.background = Some(cells);
            },
            None => {
                crate::starfield::draw(canvas, &scene.stars, Progress::one());
                let ghost lit = canvas.cells@;
                paint_celestial(canvas);
                proof {
                    lemma_keeps_protected_chain(old(canvas).cells@, lit, canvas.cells@);
                }
            },
        }
    }
    let ghost scenery = canvas.cells@;
    draw_collapsed_frame(canvas, status, progress);
    proof {
        if !image_mode {
            lemma_keeps_protected_chain(old(canvas).cells@, scenery, canvas.cells@);
        }
    }
}

/// The cells of the splash as it is shown where the terminal cannot be
/// controlled: the background, where there is one, the whole border, the
/// whole status text and the footer that invites a key.
pub open spec fn still_cells(
    status: Seq<char>,
    background: Option<Seq<BgCell>>,
    w: u16,
    h: u16,
) -> Seq<Cell> {
    let blank = Seq::new((w * h) as nat, |i: int| Cell::blank_spec());
    let scenery = match background {
        Some(cells) => backed(blank, w, h, cells),
        None => blank,
    };
    footed(
        with_status(
            outlined(scenery, w, h, border_color(), Progress::one_spec()),
            w,
            h,
            status,
            Progress::one_spec(),
        ),
        w,
        h,
        footer_text_spec(Phase::Alive),
        footer_color(),
    )
}

/// The text that shows the splash once, complete, at the cursor, without
/// ever moving it.
pub fn render_still(status: &str, background: Option<&Vec<BgCell>>, width: u16, height: u16) -> (out:
    String)
    ensures
        out@ == crate::render::inline_rows_text(
            still_cells(
                status@,
                match background {
                    Some(cells) => Some(cells@),
                    None => None,
                },
                width,
                height,
            ),
            width as int,
            height as int,
            0,
        ),
{
    let mut canvas = Canvas::new(width, height);
    match background {
        Some(cells) => {
            crate::background::draw(&mut canvas, cells);
        },
        None => {},
    }
    draw_border(&mut canvas, border_color(), Progress::one());
    crate::status::draw(&mut canvas, status, STATUS_ROW, status_color(), Progress::one());
    crate::status::draw_footer(&mut canvas, Phase::Alive, footer_color());
    canvas.render_inline()
}

} // verus!
