//! The frame loop of the splash, as decisions.
//!
//! A [`BootLoop`] owns timeline, canvas and scene. It never reads a key, a
//! clock or the size of the terminal itself: whoever runs the loop reads
//! them, hands them in, and writes out the text that comes back. One turn of
//! the loop is [`BootLoop::begin_frame`], a [`BootLoop::resize`] where the
//! terminal changed its size, [`BootLoop::frame`], and a pause of
//! [`frame_pause_ms`].
//!
//! Where the output is captured, which is the inline mode, no key is
//! waited for, the size of the terminal is not followed, and no text that
//! the loop returns addresses the cursor.

use vstd::prelude::*;
use vstd::string::StringExecFns;

use crate::ansi::{
    cursor_to_spec, erase_rows, erase_rows_spec, push_cursor_to, SHOW_CURSOR,
};
use crate::background::BgCell;
use crate::canvas::{cleared, masked_by, unmasked, Canvas, Cell, Region};
use crate::image_proto::{image_sequence, image_sequence_spec, RenderMode};
use crate::layout::{
    extra_rows, image_region, image_region_spec, origin_col, origin_col_spec, origin_row,
    origin_row_spec, reserve_rows, resized_box, resized_box_spec, start_box, start_box_spec, Align,
    COLLAPSED_ROWS, PAD_TOP, SCENE_TOP,
};
use crate::scene::{
    background_view, chrome, collapsed_frame, fresh_scene, paint_collapse, paint_frame, Scene,
};
use crate::timeline::{Phase, Timeline};

verus! {

/// Frames per second.
pub const FPS: u64 = 30;

/// Time budget of one frame, in milliseconds.
pub const FRAME_MS: u64 = 33;

/// Seconds after which the splash ends by itself when none are configured.
pub const DEFAULT_TIMEOUT_SECS: u64 = 120;

/// Milliseconds after which captured output, which no key can end, begins
/// its exit.
pub const CAPTURE_FREEZE_MS: u64 = 3000;

/// Milliseconds to wait after the terminal changed its size before the new
/// size is read.
pub const RESIZE_SETTLE_MS: u64 = 100;

/// What a run of the splash is configured with.
#[derive(Clone, Copy, Debug)]
pub struct Settings {
    pub align: Align,
    pub mode: RenderMode,
    pub width: Option<u16>,
    pub height: Option<u16>,
    pub timeout_secs: Option<u64>,
    /// Smallest width and height of the box.
    pub min_size: (u16, u16),
    /// Largest width and height of the box.
    pub max_size: (u16, u16),
}

impl Settings {
    /// The bounds are in order.
    pub open spec fn wf(&self) -> bool {
        self.min_size.0 <= self.max_size.0 && self.min_size.1 <= self.max_size.1
    }

    /// Whether the settings meet [`Settings::wf`].
    pub fn is_valid(&self) -> (r: bool)
        ensures
            r == self.wf(),
    {
        self.min_size.0 <= self.max_size.0 && self.min_size.1 <= self.max_size.1
    }
}

/// The timeout in milliseconds: the configured seconds or two minutes, and
/// no more than the counter holds.
pub open spec fn timeout_ms_spec(secs: Option<u64>) -> u64 {
    let s: u64 = match secs {
        Some(s) => s,
        None => DEFAULT_TIMEOUT_SECS,
    };
    if s * 1000 <= u64::MAX {
        (s * 1000) as u64
    } else {
        u64::MAX
    }
}

pub fn timeout_ms(secs: Option<u64>) -> (r: u64)
    ensures
        r == timeout_ms_spec(secs),
{
    let s: u64 = match secs {
        Some(s) => s,
        None => DEFAULT_TIMEOUT_SECS,
    };
    if s <= u64::MAX / 1000 {
        s * 1000
    } else {
        u64::MAX
    }
}

/// Milliseconds to pause after a frame that took `elapsed_ms`: what is left
/// of the frame's budget, and nothing where the frame overran.
pub fn frame_pause_ms(elapsed_ms: u64) -> (r: u64)
    ensures
        r == if elapsed_ms < FRAME_MS {
            FRAME_MS - elapsed_ms
        } else {
            0
        },
{
    if elapsed_ms < FRAME_MS {
        FRAME_MS - elapsed_ms
    } else {
        0
    }
}

/// The splash animation as a state machine. The caller does what only it can
/// do (reading the clock, the keys and the terminal's size, writing,
/// sleeping) and hands what it found to [`BootLoop::frame`], which decides,
/// paints, and returns the text to write.
pub struct BootLoop {
    pub timeline: Timeline,
    pub canvas: Canvas,
    pub scene: Scene,
    /// Text of the status line.
    pub status: String,
    /// The encoded bitmap that is shown inline, in image mode.
    pub image: Option<Vec<u8>>,
    /// The image is on screen.
    pub image_emitted: bool,
    pub align: Align,
    /// Size of the box before any resize.
    pub base: (u16, u16),
    pub min_size: (u16, u16),
    pub max_size: (u16, u16),
    /// The output is captured: no key is read, and the terminal's size is
    /// not followed.
    pub capture: bool,
    /// Screen row of the top of the box.
    pub origin_row: u16,
    /// Screen column of the left edge of the box.
    pub origin_col: u16,
    /// Size of the terminal as last seen.
    pub term: (u16, u16),
    pub timeout_ms: u64,
    /// The frame that shows the finished timeline has been painted.
    pub done_rendered: bool,
    /// Seed of the scene's generator.
    pub seed: u32,
}

/// The timeline after the checks at the start of a frame: a freeze is
/// requested once the timeout has passed, and by a key on a live terminal;
/// captured output freezes by itself three seconds in, once alive.
pub open spec fn checked_timeline(
    t: Timeline,
    timeout_ms: u64,
    capture: bool,
    elapsed_ms: u64,
    key_pressed: bool,
) -> Timeline {
    let timed = if elapsed_ms > timeout_ms {
        t.after_freeze()
    } else {
        t
    };
    let by_key = if capture {
        timed.phase == Phase::Alive && elapsed_ms > CAPTURE_FREEZE_MS
    } else {
        key_pressed
    };
    if timed.phase == Phase::Done {
        timed
    } else if by_key {
        timed.after_freeze()
    } else {
        timed
    }
}

impl BootLoop {
    /// Timeline and canvas are well formed, the size bounds are in order,
    /// and captured output shows no inline image.
    pub open spec fn wf(&self) -> bool {
        &&& self.timeline.wf()
        &&& self.canvas.wf()
        &&& self.min_size.0 <= self.max_size.0
        &&& self.min_size.1 <= self.max_size.1
        &&& self.capture ==> self.image is None
    }

    /// Whether the loop meets [`BootLoop::wf`].
    pub fn is_valid(&self) -> (r: bool)
        ensures
            r == self.wf(),
    {
        self.timeline.is_valid() && self.canvas.is_valid() && self.min_size.0 <= self.max_size.0
            && self.min_size.1 <= self.max_size.1 && (!self.capture || self.image.is_none())
    }

    /// An inline image is shown.
    pub open spec fn image_mode(&self) -> bool {
        self.image is Some
    }

    /// The frame to paint shows the collapse or its end.
    pub open spec fn collapsing(&self) -> bool {
        self.timeline.is_collapsing_spec() || self.timeline.phase == Phase::Done
    }

    /// The frame to paint puts the image on screen.
    pub open spec fn emits_image(&self) -> bool {
        !self.collapsing() && self.image is Some && !self.image_emitted
    }

    /// Sets up a run for a terminal of size `term`: box, canvas, scene and
    /// timeline. The box has the configured size, or 68 by 23, brought into
    /// the bounds. `None` where a live terminal is too narrow for that box.
    /// The image is kept only in image mode, and output is taken to be
    /// captured in inline mode. The box is not placed yet.
    pub fn new(
        settings: Settings,
        entrance: &str,
        exit: &str,
        status: String,
        background: Option<Vec<BgCell>>,
        image: Option<Vec<u8>>,
        term: (u16, u16),
        seed: u32,
    ) -> (r: Option<BootLoop>)
        requires
            settings.wf(),
        ensures
            r is Some <==> (settings.mode == RenderMode::Inline || term.0 >= start_box_spec(
                settings.width,
                settings.height,
                settings.mode == RenderMode::Image && image is Some,
                settings.min_size,
                settings.max_size,
            ).0),
            r matches Some(boot) ==> {
                &&& boot.wf()
                &&& boot.timeline == Timeline::new_spec(entrance@, exit@)
                &&& boot.image == if settings.mode == RenderMode::Image {
                    image
                } else {
                    None
                }
                &&& boot.base == start_box_spec(
                    settings.width,
                    settings.height,
                    boot.image is Some,
                    settings.min_size,
                    settings.max_size,
                )
                &&& settings.min_size.0 <= boot.base.0 <= settings.max_size.0
                &&& settings.min_size.1 <= boot.base.1 <= settings.max_size.1
                &&& (boot.canvas.width, boot.canvas.height) == boot.base
                &&& boot.canvas.mask is None
                &&& boot.canvas.cells@ == Seq::new(
                    (boot.base.0 * boot.base.1) as nat,
                    |i: int| Cell::blank_spec(),
                )
                &&& boot.scene@ == fresh_scene(
                    boot.base.0,
                    boot.base.1,
                    background_view(background),
                    seed,
                )
                &&& boot.scene.background == background
                &&& boot.status == status
                &&& !boot.image_emitted
                &&& !boot.done_rendered
                &&& boot.align == settings.align
                &&& boot.min_size == settings.min_size
                &&& boot.max_size == settings.max_size
                &&& boot.capture == (settings.mode == RenderMode::Inline)
                &&& boot.origin_row == 1
                &&& boot.origin_col == 1
                &&& boot.term == term
                &&& boot.timeout_ms == timeout_ms_spec(settings.timeout_secs)
                &&& boot.seed == seed
            },
    {
        let image: Option<Vec<u8>> = if settings.mode == RenderMode::Image {
            image
        } else {
            None
        };
        let capture: bool = settings.mode == RenderMode::Inline;
        let base: (u16, u16) = start_box(
            settings.width,
            settings.height,
            image.is_some(),
            settings.min_size,
            settings.max_size,
        );
        if !crate::layout::fits(term.0, base.0, capture) {
            return None;
        }
        Some(
            BootLoop {
                timeline: Timeline::new(entrance, exit),
                canvas: Canvas::new(base.0, base.1),
                scene: Scene::new(base.0, base.1, background, seed),
                status,
                image,
                image_emitted: false,
                align: settings.align,
                base,
                min_size: settings.min_size,
                max_size: settings.max_size,
                capture,
                origin_row: 1,
                origin_col: 1,
                term,
                timeout_ms: timeout_ms(settings.timeout_secs),
                done_rendered: false,
                seed,
            },
        )
    }

    /// Rows to reserve on screen before the cursor is asked for: none for
    /// captured output, which starts at the top left.
    pub fn reserve(&self) -> (r: u16)
        ensures
            r == if self.capture {
                0
            } else {
                crate::layout::smaller(
                    crate::layout::capped_sum(PAD_TOP, self.canvas.height),
                    self.term.1,
                )
            },
    {
        if self.capture {
            0
        } else {
            reserve_rows(self.canvas.height, self.term.1)
        }
    }

    /// Places the box on a live terminal, given the row the cursor is on
    /// after the rows were reserved, and returns the text that erases the
    /// rows of the box. Captured output stays at the top left and erases
    /// nothing.
    pub fn place(&mut self, cursor_row: Option<u16>) -> (out: String)
        requires
            old(self).wf(),
        ensures
            final(self).wf(),
            *final(self) == (BootLoop {
                origin_row: final(self).origin_row,
                origin_col: final(self).origin_col,
                ..*old(self)
            }),
            old(self).capture ==> final(self).origin_row == old(self).origin_row
                && final(self).origin_col == old(self).origin_col && out@ == Seq::<char>::empty(),
            !old(self).capture ==> {
                &&& final(self).origin_row == origin_row_spec(
                    cursor_row,
                    old(self).term.1,
                    crate::layout::smaller(
                        crate::layout::capped_sum(PAD_TOP, old(self).canvas.height),
                        old(self).term.1,
                    ),
                )
                &&& final(self).origin_col == origin_col_spec(
                    old(self).align,
                    old(self).term.0,
                    old(self).canvas.width,
                )
                &&& out@ == erase_rows_spec(
                    (final(self).origin_row - PAD_TOP) as nat,
                    (final(self).origin_row + old(self).canvas.height) as nat,
                )
            },
    {
        if self.capture {
            return String::new();
        }
        let reserve: u16 = reserve_rows(self.canvas.height, self.term.1);
        self.origin_row = origin_row(cursor_row, self.term.1, reserve);
        self.origin_col = origin_col(self.align, self.term.0, self.canvas.width);
        erase_rows(
            (self.origin_row - PAD_TOP) as u32,
            self.origin_row as u32 + self.canvas.height as u32,
        )
    }

    /// The checks at the start of a frame. Requests the freeze where the
    /// timeout has passed or a key was pressed, and says whether there is a
    /// frame to paint: there is none once the frame that shows the finished
    /// timeline has been painted.
    pub fn begin_frame(&mut self, elapsed_ms: u64, key_pressed: bool) -> (go_on: bool)
        requires
            old(self).wf(),
        ensures
            final(self).wf(),
            go_on == !(old(self).timeline.phase == Phase::Done && old(self).done_rendered),
            *final(self) == (BootLoop {
                timeline: final(self).timeline,
                done_rendered: final(self).done_rendered,
                ..*old(self)
            }),
            final(self).timeline == if go_on {
                checked_timeline(
                    old(self).timeline,
                    old(self).timeout_ms,
                    old(self).capture,
                    elapsed_ms,
                    key_pressed,
                )
            } else {
                old(self).timeline
            },
            final(self).done_rendered == (old(self).done_rendered || old(self).timeline.phase
                == Phase::Done),
    {
        if elapsed_ms > self.timeout_ms {
            self.timeline.trigger_freeze();
        }
        if self.timeline.is_done() {
            if self.done_rendered {
                return false;
            }
            self.done_rendered = true;
        }
        if !self.capture {
            if key_pressed {
                self.timeline.trigger_freeze();
            }
        } else if self.timeline.gradient_active() && elapsed_ms > CAPTURE_FREEZE_MS {
            self.timeline.trigger_freeze();
        }
        true
    }

    /// Whether the terminal has changed its size since it was last seen.
    /// Captured output has a fixed size.
    pub fn size_changed(&self, term: (u16, u16)) -> (r: bool)
        ensures
            r == (!self.capture && term != self.term),
    {
        !self.capture && (term.0 != self.term.0 || term.1 != self.term.1)
    }

    /// Follows a change of the terminal's size, read after it has settled:
    /// the box takes its new size and place at the top of the screen,
    /// canvas and scene are made afresh for it, and the image, if there is
    /// one, is to be put on screen again. `fitted` is the size that keeps
    /// the image's proportions, where there is an image. Returns the text
    /// that erases the whole screen. Captured output has no size to follow:
    /// there nothing changes and nothing is written.
    pub fn resize(&mut self, term: (u16, u16), fitted: Option<(u16, u16)>) -> (out: String)
        requires
            old(self).wf(),
        ensures
            final(self).wf(),
            old(self).capture ==> *final(self) == *old(self) && out@ == Seq::<char>::empty(),
            !old(self).capture ==> {
                &&& final(self).term == term
                &&& (final(self).canvas.width, final(self).canvas.height) == resized_box_spec(
                    old(self).base,
                    fitted,
                    extra_rows(old(self).image is Some),
                    term,
                    old(self).min_size,
                    old(self).max_size,
                )
                &&& final(self).canvas.mask is None
                &&& final(self).canvas.cells@ == Seq::new(
                    (final(self).canvas.width * final(self).canvas.height) as nat,
                    |i: int| Cell::blank_spec(),
                )
                &&& final(self).origin_row == 1 + PAD_TOP
                &&& final(self).origin_col == origin_col_spec(
                    old(self).align,
                    term.0,
                    final(self).canvas.width,
                )
                &&& !final(self).image_emitted
                &&& final(self).scene@ == fresh_scene(
                    final(self).canvas.width,
                    final(self).canvas.height,
                    old(self).scene@.background,
                    old(self).seed,
                )
                &&& out@ == erase_rows_spec(1, (term.1 + 1) as nat)
            },
            final(self).scene.background == old(self).scene.background,
            final(self).timeline == old(self).timeline,
            final(self).image == old(self).image,
            final(self).status == old(self).status,
            final(self).done_rendered == old(self).done_rendered,
            final(self).base == old(self).base,
            final(self).min_size == old(self).min_size,
            final(self).max_size == old(self).max_size,
            final(self).align == old(self).align,
            final(self).capture == old(self).capture,
            final(self).timeout_ms == old(self).timeout_ms,
            final(self).seed == old(self).seed,
    {
        if self.capture {
            return String::new();
        }
        self.term = term;
        let size: (u16, u16) = resized_box(
            self.base,
            fitted,
            extra_rows(self.image.is_some()),
            term,
            self.min_size,
            self.max_size,
        );
        self.origin_row = 1 + PAD_TOP;
        self.origin_col = origin_col(self.align, term.0, size.0);
        self.canvas = Canvas::new(size.0, size.1);
        let background: Option<Vec<BgCell>> = self.scene.background.take();
        self.scene = Scene::new(size.0, size.1, background, self.seed);
        self.image_emitted = false;
        erase_rows(1, term.1 as u32 + 1)
    }

    /// Size in pixels of the bitmap that fills the image region of the box,
    /// for a terminal whose cells are `cell` pixels large.
    pub fn image_pixels(&self, cell: (u16, u16)) -> (r: (u32, u32))
        ensures
            r.0 == (image_region_spec(self.canvas.width, self.canvas.height).x1 - image_region_spec(
                self.canvas.width,
                self.canvas.height,
            ).x0) * cell.0,
            r.1 == (image_region_spec(self.canvas.width, self.canvas.height).y1 - image_region_spec(
                self.canvas.width,
                self.canvas.height,
            ).y0) * cell.1,
    {
        crate::layout::image_pixels(image_region(self.canvas.width, self.canvas.height), cell)
    }

    /// Replaces the bitmap, after it was scaled for a new size of the box.
    /// Without a bitmap to replace nothing happens.
    pub fn set_image(&mut self, image: Vec<u8>)
        ensures
            *final(self) == (BootLoop {
                image: if old(self).image is Some {
                    Some(image)
                } else {
                    None
                },
                ..*old(self)
            }),
            old(self).wf() ==> final(self).wf(),
    {
        if self.image.is_some() {
            self.image = Some(image);
        }
    }

    /// Width and height in cells of the half-block background that fills
    /// the scene region of the box.
    pub fn background_size(&self) -> (r: (u16, u16))
        ensures
            r.0 == image_region_spec(self.canvas.width, self.canvas.height).x1 - image_region_spec(
                self.canvas.width,
                self.canvas.height,
            ).x0,
            r.1 == image_region_spec(self.canvas.width, self.canvas.height).y1 - image_region_spec(
                self.canvas.width,
                self.canvas.height,
            ).y0,
    {
        let region: Region = image_region(self.canvas.width, self.canvas.height);
        (region.x1 - region.x0, region.y1 - region.y0)
    }

    /// Replaces the half-block background, after it was made again for a
    /// new size of the box. Without a background to replace nothing
    /// happens.
    pub fn set_background(&mut self, cells: Vec<BgCell>)
        ensures
            *final(self) == (BootLoop {
                scene: Scene {
                    background: if old(self).scene.background is Some {
                        Some(cells)
                    } else {
                        None
                    },
                    ..old(self).scene
                },
                ..*old(self)
            }),
            old(self).wf() ==> final(self).wf(),
    {
        if self.scene.background.is_some() {
            self.scene.background = Some(cells);
        }
    }

    /// The cells of a frame, before the timeline moves on: the canvas is
    /// cleared; where the image goes on screen its region is protected;
    /// then the collapse or the scene is painted.
    pub open spec fn frame_cells(&self, scene_after: crate::scene::SceneView) -> Seq<Cell> {
        let w = self.canvas.width;
        let h = self.canvas.height;
        let wiped = cleared(self.canvas.cells@);
        if self.collapsing() {
            collapsed_frame(
                scene_after.collapsing_scenery(
                    wiped,
                    w,
                    h,
                    self.timeline.collapse_progress_spec(),
                    self.image_mode(),
                ),
                w,
                h,
                self.status@,
                self.timeline.collapse_progress_spec(),
            )
        } else {
            let masked = if self.emits_image() {
                masked_by(wiped, w as int, image_region_spec(w, h))
            } else {
                wiped
            };
            chrome(
                scene_after.scenery(masked, w, h, self.timeline, self.image_mode()),
                w,
                h,
                self.status@,
                self.timeline,
            )
        }
    }

    /// The text that shows the canvas: at the place of the box on a live
    /// terminal, and row after row at the cursor, without any cursor
    /// addressing, where the output is captured.
    pub open spec fn shown_text(&self) -> Seq<char> {
        if self.capture {
            self.canvas.render_inline_spec()
        } else {
            self.canvas.render_spec(self.origin_row, self.origin_col)
        }
    }

    /// The text that puts the image on screen, where a frame does so.
    pub open spec fn image_text(&self) -> Seq<char> {
        if self.emits_image() {
            let region = image_region_spec(self.canvas.width, self.canvas.height);
            image_sequence_spec(
                self.image->0@,
                (region.x1 - region.x0) as u16,
                (region.y1 - region.y0) as u16,
                (self.origin_row + SCENE_TOP) as u32,
                (self.origin_col + 1) as u32,
            )
        } else {
            Seq::empty()
        }
    }

    /// Paints one frame and moves the timeline on by one tick. Returns the
    /// text that shows the frame: the image, where it is not on screen yet
    /// and the box is not collapsing, then the canvas. Captured output gets
    /// the canvas without cursor addressing. A timeline whose frame counter
    /// is full stays where it is.
    pub fn frame(&mut self) -> (out: String)
        requires
            old(self).wf(),
        ensures
            final(self).wf(),
            final(self).timeline == if old(self).timeline.frame < u32::MAX {
                old(self).timeline.after_tick()
            } else {
                old(self).timeline
            },
            final(self).scene@ == if old(self).collapsing() {
                old(self).scene@.after_collapse_frame(old(self).image_mode())
            } else {
                old(self).scene@.after_frame(old(self).timeline, old(self).image_mode())
            },
            final(self).canvas.width == old(self).canvas.width,
            final(self).canvas.height == old(self).canvas.height,
            final(self).canvas.mask == if old(self).emits_image() {
                Some(image_region_spec(old(self).canvas.width, old(self).canvas.height))
            } else {
                old(self).canvas.mask
            },
            final(self).canvas.cells@ == old(self).frame_cells(final(self).scene@),
            final(self).image_emitted == (old(self).image_emitted || old(self).emits_image()),
            out@ == old(self).image_text() + final(self).shown_text(),
            old(self).capture ==> out@ == final(self).canvas.render_inline_spec(),
            final(self).image == old(self).image,
            final(self).status == old(self).status,
            final(self).done_rendered == old(self).done_rendered,
            final(self).origin_row == old(self).origin_row,
            final(self).origin_col == old(self).origin_col,
            final(self).term == old(self).term,
            final(self).capture == old(self).capture,
            final(self).base == old(self).base,
            final(self).align == old(self).align,
            final(self).min_size == old(self).min_size,
            final(self).max_size == old(self).max_size,
            final(self).timeout_ms == old(self).timeout_ms,
            final(self).seed == old(self).seed,
    {
        self.canvas.clear();
        let collapsing: bool = self.timeline.is_collapsing() || self.timeline.is_done();
        let image_mode: bool = self.image.is_some();
        let mut out = String::new();
        if !collapsing {
            if !self.image_emitted {
                match &self.image {
                    Some(raw) => {
                        let region: Region = image_region(self.canvas.width, self.canvas.height);
                        self.canvas.set_image_mask(region.x0, region.y0, region.x1, region.y1);
                        out = image_sequence(
                            raw.as_slice(),
                            region.x1 - region.x0,
                            region.y1 - region.y0,
                            self.origin_row as u32 + SCENE_TOP as u32,
                            self.origin_col as u32 + 1,
                        );
                        self.image_emitted = true;
                    },
                    None => {},
                }
            }
            paint_frame(
                &mut self.canvas,
                &self.timeline,
                &mut self.scene,
                self.status.as_str(),
                image_mode,
            );
        } else {
            paint_collapse(
                &mut self.canvas,
                &self.timeline,
                &mut self.scene,
                self.status.as_str(),
                image_mode,
            );
        }
        let shown: String = if self.capture {
            self.canvas.render_inline()
        } else {
            self.canvas.render(self.origin_row, self.origin_col)
        };
        out.append(shown.as_str());
        assert(old(self).capture ==> old(self).image_text() =~= Seq::<char>::empty());
        if self.timeline.frame < u32::MAX {
            self.timeline.tick();
        }
        out
    }

    /// Ends the run: releases the image region and returns the text that
    /// erases the rows of the box under the collapsed frame, shows the
    /// cursor again and leaves it on the row under the frame. Captured
    /// output gets the cursor shown again and nothing else.
    pub fn finish(&mut self) -> (out: String)
        requires
            old(self).wf(),
        ensures
            final(self).wf(),
            final(self).canvas.mask == if old(self).image is Some {
                None
            } else {
                old(self).canvas.mask
            },
            final(self).canvas.cells@ == if old(self).image is Some {
                unmasked(old(self).canvas.cells@)
            } else {
                old(self).canvas.cells@
            },
            final(self).canvas.width == old(self).canvas.width,
            final(self).canvas.height == old(self).canvas.height,
            *final(self) == (BootLoop { canvas: final(self).canvas, ..*old(self) }),
            out@ == if old(self).capture {
                SHOW_CURSOR@
            } else {
                erase_rows_spec(
                    (old(self).origin_row + COLLAPSED_ROWS) as nat,
                    (old(self).origin_row + old(self).canvas.height) as nat,
                ) + SHOW_CURSOR@ + cursor_to_spec(
                    (old(self).origin_row + COLLAPSED_ROWS) as nat,
                    1,
                )
            },
    {
        if self.image.is_some() {
            self.canvas.clear_image_mask();
        }
        if self.capture {
            return SHOW_CURSOR.to_owned();
        }
        let below: u32 = self.origin_row as u32 + COLLAPSED_ROWS as u32;
        let mut out: String = erase_rows(below, self.origin_row as u32 + self.canvas.height as u32);
        out.append(SHOW_CURSOR);
        push_cursor_to(&mut out, below, 1);
        out
    }
}

} // verus!
