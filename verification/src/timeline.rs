//! Animation state machine: Entrance, Alive, Freeze, Done.
//!
//! A [`Timeline`] turns an integer frame counter into the visibility and
//! progress of every feature of the scene. The phase only ever moves forward;
//! the lemmas at the end of this file state that for every sequence of calls.

use vstd::prelude::*;

use crate::progress::Progress;
use crate::text::same_text;

verus! {

/// Length of one half of the footer's blink cycle, in frames: about one
/// second on and one second off at the loop's frame rate.
pub const BLINK_FRAMES: u32 = 30;

/// The longest collapse, in frames, that a timeline accepts. It keeps the
/// fourth power of a frame count within 64 bits.
pub const MAX_COLLAPSE_FRAMES: u32 = 0xFFFF;

/// The four lifecycle stages of the splash animation, in the order in which
/// they are passed through.
#[derive(Clone, Copy, Debug, PartialEq, Eq, Structural)]
pub enum Phase {
    Entrance,
    Alive,
    Freeze,
    Done,
}

impl Phase {
    /// Position of the phase in the lifecycle order.
    pub open spec fn rank(self) -> nat {
        match self {
            Phase::Entrance => 0,
            Phase::Alive => 1,
            Phase::Freeze => 2,
            Phase::Done => 3,
        }
    }
}

/// Frame offsets at which each feature starts and finishes appearing.
#[derive(Clone, Copy, Debug, PartialEq, Eq, Structural)]
pub struct EntranceTiming {
    pub border_start: u32,
    pub border_end: u32,
    pub stars_start: u32,
    pub stars_end: u32,
    pub celestial_start: u32,
    pub celestial_end: u32,
    pub status_start: u32,
    pub status_end: u32,
    pub footer_start: u32,
    pub entrance_done: u32,
}

/// Frame counts of the two parts of the exit sequence.
#[derive(Clone, Copy, Debug, PartialEq, Eq, Structural)]
pub struct ExitTiming {
    pub flash_frames: u32,
    pub collapse_frames: u32,
}

impl EntranceTiming {
    pub open spec fn slow_spec() -> EntranceTiming {
        EntranceTiming {
            border_start: 0,
            border_end: 18,
            stars_start: 6,
            stars_end: 12,
            celestial_start: 12,
            celestial_end: 17,
            status_start: 20,
            status_end: 35,
            footer_start: 30,
            entrance_done: 35,
        }
    }

    pub open spec fn fast_spec() -> EntranceTiming {
        EntranceTiming {
            border_start: 0,
            border_end: 6,
            stars_start: 2,
            stars_end: 4,
            celestial_start: 4,
            celestial_end: 6,
            status_start: 6,
            status_end: 12,
            footer_start: 10,
            entrance_done: 12,
        }
    }

    pub open spec fn instant_spec() -> EntranceTiming {
        EntranceTiming {
            border_start: 0,
            border_end: 0,
            stars_start: 0,
            stars_end: 0,
            celestial_start: 0,
            celestial_end: 0,
            status_start: 0,
            status_end: 0,
            footer_start: 0,
            entrance_done: 0,
        }
    }

    /// The preset that a name selects: `fast`, `instant`, and `slow` for
    /// every other name.
    pub open spec fn named(name: Seq<char>) -> EntranceTiming {
        if name == "fast"@ {
            Self::fast_spec()
        } else if name == "instant"@ {
            Self::instant_spec()
        } else {
            Self::slow_spec()
        }
    }

    #[verifier::when_used_as_spec(slow_spec)]
    pub fn slow() -> (r: Self)
        ensures
            r == Self::slow_spec(),
    {
        EntranceTiming {
            border_start: 0,
            border_end: 18,
            stars_start: 6,
            stars_end: 12,
            celestial_start: 12,
            celestial_end: 17,
            status_start: 20,
            status_end: 35,
            footer_start: 30,
            entrance_done: 35,
        }
    }

    #[verifier::when_used_as_spec(fast_spec)]
    pub fn fast() -> (r: Self)
        ensures
            r == Self::fast_spec(),
    {
        EntranceTiming {
            border_start: 0,
            border_end: 6,
            stars_start: 2,
            stars_end: 4,
            celestial_start: 4,
            celestial_end: 6,
            status_start: 6,
            status_end: 12,
            footer_start: 10,
            entrance_done: 12,
        }
    }

    #[verifier::when_used_as_spec(instant_spec)]
    pub fn instant() -> (r: Self)
        ensures
            r == Self::instant_spec(),
    {
        EntranceTiming {
            border_start: 0,
            border_end: 0,
            stars_start: 0,
            stars_end: 0,
            celestial_start: 0,
            celestial_end: 0,
            status_start: 0,
            status_end: 0,
            footer_start: 0,
            entrance_done: 0,
        }
    }

    pub fn from_str(s: &str) -> (r: Self)
        ensures
            r == Self::named(s@),
    {
        if same_text(s, "fast") {
            Self::fast()
        } else if same_text(s, "instant") {
            Self::instant()
        } else {
            Self::slow()
        }
    }
}

impl ExitTiming {
    pub open spec fn slow_spec() -> ExitTiming {
        ExitTiming { flash_frames: 2, collapse_frames: 10 }
    }

    pub open spec fn fast_spec() -> ExitTiming {
        ExitTiming { flash_frames: 1, collapse_frames: 5 }
    }

    pub open spec fn instant_spec() -> ExitTiming {
        ExitTiming { flash_frames: 0, collapse_frames: 0 }
    }

    /// The preset that a name selects: `fast`, `instant`, and `slow` for
    /// every other name.
    pub open spec fn named(name: Seq<char>) -> ExitTiming {
        if name == "fast"@ {
            Self::fast_spec()
        } else if name == "instant"@ {
            Self::instant_spec()
        } else {
            Self::slow_spec()
        }
    }

    /// Frames from the start of the freeze to the end of the collapse.
    pub open spec fn duration_spec(self) -> int {
        self.flash_frames + self.collapse_frames
    }

    /// The frame counts are such that the exit sequence can be timed.
    pub open spec fn wf(self) -> bool {
        &&& self.flash_frames + self.collapse_frames <= u32::MAX
        &&& self.collapse_frames <= MAX_COLLAPSE_FRAMES
    }

    #[verifier::when_used_as_spec(slow_spec)]
    pub fn slow() -> (r: Self)
        ensures
            r == Self::slow_spec(),
    {
        ExitTiming { flash_frames: 2, collapse_frames: 10 }
    }

    #[verifier::when_used_as_spec(fast_spec)]
    pub fn fast() -> (r: Self)
        ensures
            r == Self::fast_spec(),
    {
        ExitTiming { flash_frames: 1, collapse_frames: 5 }
    }

    #[verifier::when_used_as_spec(instant_spec)]
    pub fn instant() -> (r: Self)
        ensures
            r == Self::instant_spec(),
    {
        ExitTiming { flash_frames: 0, collapse_frames: 0 }
    }

    pub fn from_str(s: &str) -> (r: Self)
        ensures
            r == Self::named(s@),
    {
        if same_text(s, "fast") {
            Self::fast()
        } else if same_text(s, "instant") {
            Self::instant()
        } else {
            Self::slow()
        }
    }

    pub fn duration(&self) -> (r: u32)
        requires
            self.wf(),
        ensures
            r == self.duration_spec(),
    {
        self.flash_frames + self.collapse_frames
    }
}

/// The fraction of the window from `start` to `end` that `frame` has passed:
/// zero before `start`, one from `end` on, linear in between, and always one
/// when the window is empty. Where `end` lies before `start`, the ramp
/// steps from zero to one at `start`.
pub open spec fn ramp_spec(frame: u32, start: u32, end: u32) -> Progress {
    if start == end {
        Progress::one_spec()
    } else if frame < start {
        Progress::zero_spec()
    } else if frame >= end {
        Progress::one_spec()
    } else {
        Progress { num: (frame - start) as u64, den: (end - start) as u64 }
    }
}

/// The fraction of the window from `start` to `end` that `frame` has passed.
pub fn ramp(frame: u32, start: u32, end: u32) -> (r: Progress)
    ensures
        r == ramp_spec(frame, start, end),
        r.wf(),
        start == end ==> r.is_one(),
        start != end && frame < start ==> r.is_zero(),
        frame >= start && frame >= end ==> r.is_one(),
{
    if start == end {
        return Progress::one();
    }
    if frame < start {
        Progress::zero()
    } else if frame >= end {
        Progress::one()
    } else {
        Progress { num: (frame - start) as u64, den: (end - start) as u64 }
    }
}

/// A ramp is a fraction from zero to one that never falls as the frames
/// go by, and a ramp over an empty window is one at every frame.
pub proof fn lemma_ramp_rises(earlier: u32, later: u32, start: u32, end: u32)
    requires
        earlier <= later,
    ensures
        ramp_spec(earlier, start, end).wf(),
        ramp_spec(later, start, end).wf(),
        ramp_spec(earlier, start, end).le(ramp_spec(later, start, end)),
        start == end ==> ramp_spec(earlier, start, end).is_one(),
{
    let a = ramp_spec(earlier, start, end);
    let b = ramp_spec(later, start, end);
    if start != end && start <= earlier && earlier < end {
        let d: int = end - start;
        let x: int = earlier - start;
        assert(a == Progress { num: x as u64, den: d as u64 });
        if later < end {
            let y: int = later - start;
            assert(b == Progress { num: y as u64, den: d as u64 });
            assert(x * d <= y * d) by (nonlinear_arith)
                requires
                    0 <= x <= y,
                    0 < d,
            ;
        } else {
            assert(b == Progress::one_spec());
            assert(x * 1 <= 1 * d);
        }
    }
}

/// The fourth power, the easing curve of the collapse.
pub open spec fn quartic(n: int) -> int {
    n * n * n * n
}

/// The state of the animation: which frame it is at, which phase it is in,
/// and by which timing it goes.
#[derive(Clone, Copy, Debug, PartialEq, Eq, Structural)]
pub struct Timeline {
    /// Frames passed since the start.
    pub frame: u32,
    pub phase: Phase,
    /// The frame at which the freeze began, once it has.
    pub freeze_start: u32,
    pub entrance: EntranceTiming,
    pub exit: ExitTiming,
}

impl Timeline {
    /// What every method asks of a timeline: the exit sequence can be timed,
    /// `Alive` is only entered once the entrance is over, and a freeze does
    /// not start in the future. `new` establishes it, and `tick` and
    /// `trigger_freeze` keep it.
    pub open spec fn wf(self) -> bool {
        &&& self.exit.wf()
        &&& (self.phase == Phase::Alive ==> self.entrance.entrance_done <= self.frame)
        &&& (self.phase == Phase::Freeze ==> self.freeze_start <= self.frame)
    }

    /// Frames since the freeze began.
    pub open spec fn elapsed(self) -> int {
        self.frame - self.freeze_start
    }

    /// The timeline one frame later.
    pub open spec fn after_tick(self) -> Timeline {
        let frame = (self.frame + 1) as u32;
        Timeline {
            frame,
            phase: match self.phase {
                Phase::Entrance => if frame >= self.entrance.entrance_done {
                    Phase::Alive
                } else {
                    Phase::Entrance
                },
                Phase::Freeze => if frame - self.freeze_start >= self.exit.duration_spec() {
                    Phase::Done
                } else {
                    Phase::Freeze
                },
                Phase::Alive => Phase::Alive,
                Phase::Done => Phase::Done,
            },
            ..self
        }
    }

    /// The timeline after a request to freeze: from `Entrance` and `Alive` the
    /// freeze starts at the current frame, otherwise nothing changes.
    pub open spec fn after_freeze(self) -> Timeline {
        if self.phase == Phase::Entrance || self.phase == Phase::Alive {
            Timeline { phase: Phase::Freeze, freeze_start: self.frame, ..self }
        } else {
            self
        }
    }

    /// The freeze is in its flash: fewer frames have passed since it began
    /// than the flash has.
    pub open spec fn is_freeze_flash_spec(self) -> bool {
        self.phase == Phase::Freeze && self.elapsed() < self.exit.flash_frames
    }

    /// The freeze is past its flash.
    pub open spec fn is_collapsing_spec(self) -> bool {
        self.phase == Phase::Freeze && !self.is_freeze_flash_spec()
    }

    /// The ramp of the border during the entrance, one from then on.
    pub open spec fn border_progress_spec(self) -> Progress {
        match self.phase {
            Phase::Entrance => ramp_spec(
                self.frame,
                self.entrance.border_start,
                self.entrance.border_end,
            ),
            _ => Progress::one_spec(),
        }
    }

    /// The ramp of the stars during the entrance, one while alive and during
    /// the flash, zero during the collapse and once done.
    pub open spec fn star_visibility_spec(self) -> Progress {
        match self.phase {
            Phase::Entrance => ramp_spec(
                self.frame,
                self.entrance.stars_start,
                self.entrance.stars_end,
            ),
            Phase::Alive => Progress::one_spec(),
            Phase::Freeze => if self.is_freeze_flash_spec() {
                Progress::one_spec()
            } else {
                Progress::zero_spec()
            },
            Phase::Done => Progress::zero_spec(),
        }
    }

    /// The ramp of earth and moon during the entrance, one while alive and
    /// during the flash, zero during the collapse and once done.
    pub open spec fn celestial_visibility_spec(self) -> Progress {
        match self.phase {
            Phase::Entrance => ramp_spec(
                self.frame,
                self.entrance.celestial_start,
                self.entrance.celestial_end,
            ),
            Phase::Alive => Progress::one_spec(),
            Phase::Freeze => if self.is_freeze_flash_spec() {
                Progress::one_spec()
            } else {
                Progress::zero_spec()
            },
            Phase::Done => Progress::zero_spec(),
        }
    }

    /// The ramp of the status line during the entrance, one from then on.
    pub open spec fn status_progress_spec(self) -> Progress {
        match self.phase {
            Phase::Entrance => ramp_spec(
                self.frame,
                self.entrance.status_start,
                self.entrance.status_end,
            ),
            _ => Progress::one_spec(),
        }
    }

    /// Shown from `footer_start` during the entrance; while alive, shown for
    /// `BLINK_FRAMES` frames and hidden for as many, in turn; shown during
    /// the freeze; hidden once done.
    pub open spec fn footer_visible_spec(self) -> bool {
        match self.phase {
            Phase::Entrance => self.frame >= self.entrance.footer_start,
            Phase::Alive => ((self.frame - self.entrance.entrance_done) / (BLINK_FRAMES as int))
                % 2 == 0,
            Phase::Freeze => true,
            Phase::Done => false,
        }
    }

    /// Frames of the collapse that have passed: none during the flash, and
    /// never more than the collapse has.
    pub open spec fn collapse_frames_passed(self) -> int {
        if self.phase == Phase::Done {
            self.exit.collapse_frames as int
        } else if self.phase == Phase::Freeze && self.elapsed() >= self.exit.flash_frames {
            if self.elapsed() - self.exit.flash_frames >= self.exit.collapse_frames {
                self.exit.collapse_frames as int
            } else {
                self.elapsed() - self.exit.flash_frames
            }
        } else {
            0
        }
    }

    /// How far the collapse has come. With no collapse frames it is a step:
    /// zero before the freeze and one from then on. Otherwise it is zero until
    /// the flash ends, then the fourth power of the linear fraction of the
    /// collapse that has passed, and one once `Done`.
    pub open spec fn collapse_progress_spec(self) -> Progress {
        if self.exit.collapse_frames == 0 {
            if self.phase == Phase::Freeze || self.phase == Phase::Done {
                Progress::one_spec()
            } else {
                Progress::zero_spec()
            }
        } else {
            match self.phase {
                Phase::Done => Progress::one_spec(),
                Phase::Freeze => if self.elapsed() < self.exit.flash_frames {
                    Progress::zero_spec()
                } else {
                    Progress {
                        num: quartic(self.collapse_frames_passed()) as u64,
                        den: quartic(self.exit.collapse_frames as int) as u64,
                    }
                },
                _ => Progress::zero_spec(),
            }
        }
    }

    /// A timeline at its start, with the presets that the two names select.
    pub open spec fn new_spec(entrance: Seq<char>, exit: Seq<char>) -> Timeline {
        Timeline {
            frame: 0,
            phase: Phase::Entrance,
            freeze_start: 0,
            entrance: EntranceTiming::named(entrance),
            exit: ExitTiming::named(exit),
        }
    }

    /// A timeline at frame zero, in `Entrance`, with the presets that the two
    /// names select.
    pub fn new(entrance: &str, exit: &str) -> (r: Self)
        ensures
            r == Timeline::new_spec(entrance@, exit@),
            r.wf(),
    {
        Timeline {
            frame: 0,
            phase: Phase::Entrance,
            freeze_start: 0,
            entrance: EntranceTiming::from_str(entrance),
            exit: ExitTiming::from_str(exit),
        }
    }

    /// Whether the timeline meets [`Timeline::wf`].
    pub fn is_valid(&self) -> (r: bool)
        ensures
            r == self.wf(),
    {
        self.exit.collapse_frames <= MAX_COLLAPSE_FRAMES
            && self.exit.flash_frames <= u32::MAX - self.exit.collapse_frames
            && (self.phase != Phase::Alive || self.entrance.entrance_done <= self.frame)
            && (self.phase != Phase::Freeze || self.freeze_start <= self.frame)
    }

    /// Advances by one frame. `Entrance` gives way to `Alive` once the
    /// entrance is over, `Freeze` to `Done` once flash and collapse have
    /// played; `Alive` and `Done` stay.
    pub fn tick(&mut self)
        requires
            old(self).wf(),
            old(self).frame < u32::MAX,
        ensures
            *final(self) == old(self).after_tick(),
            final(self).frame == old(self).frame + 1,
            final(self).wf(),
            old(self).phase.rank() <= final(self).phase.rank(),
    {
        self.frame += 1;

        match self.phase {
            Phase::Entrance => {
                if self.frame >= self.entrance.entrance_done {
                    self.phase = Phase::Alive;
                }
            },
            Phase::Freeze => {
                if self.frame - self.freeze_start >= self.exit.duration() {
                    self.phase = Phase::Done;
                }
            },
            _ => {},
        }
    }

    /// Starts the exit sequence at the current frame. Does nothing once the
    /// timeline is in `Freeze` or `Done`.
    pub fn trigger_freeze(&mut self)
        ensures
            *final(self) == old(self).after_freeze(),
            old(self).wf() ==> final(self).wf(),
            old(self).phase.rank() <= final(self).phase.rank(),
            old(self).phase == Phase::Freeze || old(self).phase == Phase::Done ==> *final(self)
                == *old(self),
    {
        if self.phase == Phase::Entrance || self.phase == Phase::Alive {
            self.phase = Phase::Freeze;
            self.freeze_start = self.frame;
        }
    }

    /// The exit sequence has played; nothing changes any more.
    pub fn is_done(&self) -> (r: bool)
        ensures
            r == (self.phase == Phase::Done),
    {
        self.phase == Phase::Done
    }

    /// How much of the border is revealed: ramping up during the entrance,
    /// all of it from then on.
    pub fn border_progress(&self) -> (r: Progress)
        ensures
            r == self.border_progress_spec(),
            r.wf(),
            self.phase != Phase::Entrance ==> r.is_one(),
    {
        match self.phase {
            Phase::Entrance => ramp(
                self.frame,
                self.entrance.border_start,
                self.entrance.border_end,
            ),
            _ => Progress::one(),
        }
    }

    /// How visible the stars are: ramping up during the entrance, full while
    /// alive and during the flash, gone during the collapse and after.
    pub fn star_visibility(&self) -> (r: Progress)
        requires
            self.wf(),
        ensures
            r == self.star_visibility_spec(),
            r.wf(),
    {
        match self.phase {
            Phase::Entrance => ramp(self.frame, self.entrance.stars_start, self.entrance.stars_end),
            Phase::Freeze => {
                if self.is_freeze_flash() {
                    Progress::one()
                } else {
                    Progress::zero()
                }
            },
            Phase::Done => Progress::zero(),
            Phase::Alive => Progress::one(),
        }
    }

    /// How visible earth and moon are: ramping up during the entrance, full
    /// while alive and during the flash, gone during the collapse and after.
    pub fn celestial_visibility(&self) -> (r: Progress)
        requires
            self.wf(),
        ensures
            r == self.celestial_visibility_spec(),
            r.wf(),
    {
        match self.phase {
            Phase::Entrance => ramp(
                self.frame,
                self.entrance.celestial_start,
                self.entrance.celestial_end,
            ),
            Phase::Freeze => {
                if self.is_freeze_flash() {
                    Progress::one()
                } else {
                    Progress::zero()
                }
            },
            Phase::Done => Progress::zero(),
            Phase::Alive => Progress::one(),
        }
    }

    /// How much of the status line is revealed: ramping up during the
    /// entrance, all of it from then on.
    pub fn status_progress(&self) -> (r: Progress)
        ensures
            r == self.status_progress_spec(),
            r.wf(),
    {
        match self.phase {
            Phase::Entrance => ramp(
                self.frame,
                self.entrance.status_start,
                self.entrance.status_end,
            ),
            _ => Progress::one(),
        }
    }

    /// Whether the footer is shown: from its start during the entrance,
    /// blinking while alive, always during the freeze, never once done.
    pub fn footer_visible(&self) -> (r: bool)
        requires
            self.wf(),
        ensures
            r == self.footer_visible_spec(),
    {
        match self.phase {
            Phase::Entrance => self.frame >= self.entrance.footer_start,
            Phase::Alive => {
                ((self.frame - self.entrance.entrance_done) / BLINK_FRAMES) % 2 == 0
            },
            Phase::Freeze => true,
            Phase::Done => false,
        }
    }

    /// The scene is fully visible and idle: the stars twinkle.
    pub fn gradient_active(&self) -> (r: bool)
        ensures
            r == (self.phase == Phase::Alive),
    {
        self.phase == Phase::Alive
    }

    /// The brief full-brightness flash at the start of the freeze.
    pub fn is_freeze_flash(&self) -> (r: bool)
        requires
            self.wf(),
        ensures
            r == self.is_freeze_flash_spec(),
    {
        self.phase == Phase::Freeze && (self.frame - self.freeze_start) < self.exit.flash_frames
    }

    /// How far the collapse has come, eased by the fourth power.
    pub fn collapse_progress(&self) -> (r: Progress)
        requires
            self.wf(),
        ensures
            r == self.collapse_progress_spec(),
            r.wf(),
    {
        if self.exit.collapse_frames == 0 {
            return if self.phase == Phase::Freeze || self.phase == Phase::Done {
                Progress::one()
            } else {
                Progress::zero()
            };
        }
        match self.phase {
            Phase::Done => Progress::one(),
            Phase::Freeze => {
                let elapsed: u32 = self.frame - self.freeze_start;
                if elapsed < self.exit.flash_frames {
                    Progress::zero()
                } else {
                    let total: u32 = self.exit.collapse_frames;
                    let passed: u32 = if elapsed - self.exit.flash_frames >= total {
                        total
                    } else {
                        elapsed - self.exit.flash_frames
                    };
                    proof {
                        lemma_quartic_bounds(passed as int, total as int);
                    }
                    Progress { num: fourth_power(passed), den: fourth_power(total) }
                }
            },
            _ => Progress::zero(),
        }
    }

    /// The collapse part of the freeze, after the flash.
    pub fn is_collapsing(&self) -> (r: bool)
        requires
            self.wf(),
        ensures
            r == self.is_collapsing_spec(),
    {
        self.phase == Phase::Freeze && !self.is_freeze_flash()
    }
}

fn fourth_power(n: u32) -> (r: u64)
    requires
        n <= MAX_COLLAPSE_FRAMES,
    ensures
        r == quartic(n as int),
{
    proof {
        lemma_quartic_bounds(n as int, MAX_COLLAPSE_FRAMES as int);
    }
    let n: u64 = n as u64;
    assert(n * n <= 4294836225) by (nonlinear_arith)
        requires
            n <= 65535,
    ;
    let square: u64 = n * n;
    assert(square * square == quartic(n as int)) by (nonlinear_arith)
        requires
            square == n * n,
    ;
    assert(square * square <= 18445618199572250625) by (nonlinear_arith)
        requires
            square <= 4294836225,
    ;
    square * square
}

/// Fourth powers keep the order of the frame counts they are taken of, and
/// those of counts up to `MAX_COLLAPSE_FRAMES` fit in 64 bits.
pub proof fn lemma_quartic_bounds(n: int, m: int)
    requires
        0 <= n <= m,
    ensures
        0 <= quartic(n) <= quartic(m),
        0 < m ==> 0 < quartic(m),
        m <= MAX_COLLAPSE_FRAMES ==> quartic(m) <= u64::MAX,
{
    assert(0 <= n * n <= m * m) by (nonlinear_arith)
        requires
            0 <= n <= m,
    ;
    let a: int = n * n;
    let b: int = m * m;
    assert(0 <= a * a <= b * b) by (nonlinear_arith)
        requires
            0 <= a <= b,
    ;
    assert(quartic(n) == a * a) by (nonlinear_arith)
        requires
            a == n * n,
    ;
    assert(quartic(m) == b * b) by (nonlinear_arith)
        requires
            b == m * m,
    ;
    if 0 < m {
        assert(0 < b * b) by (nonlinear_arith)
            requires
                b == m * m,
                0 < m,
        ;
    }
    if m <= MAX_COLLAPSE_FRAMES {
        assert(b <= 4294836225) by (nonlinear_arith)
            requires
                b == m * m,
                0 <= m <= 65535,
        ;
        assert(b * b <= 18445618199572250625) by (nonlinear_arith)
            requires
                0 <= b <= 4294836225,
        ;
    }
}

/// One call that changes a timeline.
#[derive(Clone, Copy, Debug, PartialEq, Eq, Structural)]
pub enum TimelineCall {
    Tick,
    TriggerFreeze,
}

impl Timeline {
    /// The timeline after a sequence of calls, made first to last.
    pub open spec fn after_calls(self, calls: Seq<TimelineCall>) -> Timeline
        decreases calls.len(),
    {
        if calls.len() == 0 {
            self
        } else {
            let before = self.after_calls(calls.drop_last());
            match calls.last() {
                TimelineCall::Tick => before.after_tick(),
                TimelineCall::TriggerFreeze => before.after_freeze(),
            }
        }
    }

    /// The timeline `n` frames later.
    pub open spec fn after_ticks(self, n: nat) -> Timeline
        decreases n,
    {
        if n == 0 {
            self
        } else {
            self.after_ticks((n - 1) as nat).after_tick()
        }
    }
}

/// The phase never moves backward: along any sequence of ticks and freeze
/// requests, the phase reached after the first `j` calls is at or past the
/// one reached after the first `i <= j` of them.
pub proof fn lemma_phase_never_moves_back(t: Timeline, calls: Seq<TimelineCall>, i: int, j: int)
    requires
        0 <= i <= j <= calls.len(),
    ensures
        t.after_calls(calls.take(i)).phase.rank() <= t.after_calls(calls.take(j)).phase.rank(),
    decreases j - i,
{
    if i < j {
        lemma_phase_never_moves_back(t, calls, i, j - 1);
        assert(calls.take(j).drop_last() =~= calls.take(j - 1));
    }
}

/// Calls keep a well-formed timeline well formed, as long as the frame
/// counter has room for the ticks among them.
pub proof fn lemma_calls_keep_wf(t: Timeline, calls: Seq<TimelineCall>)
    requires
        t.wf(),
        t.frame + calls.len() <= u32::MAX,
    ensures
        t.after_calls(calls).wf(),
        t.frame <= t.after_calls(calls).frame <= t.frame + calls.len(),
        t.after_calls(calls).entrance == t.entrance,
        t.after_calls(calls).exit == t.exit,
    decreases calls.len(),
{
    if calls.len() > 0 {
        lemma_calls_keep_wf(t, calls.drop_last());
    }
}

/// Once `Done`, a timeline stays `Done` whatever is called.
pub proof fn lemma_done_is_terminal(t: Timeline, calls: Seq<TimelineCall>)
    requires
        t.phase == Phase::Done,
    ensures
        t.after_calls(calls).phase == Phase::Done,
        t.after_calls(calls).freeze_start == t.freeze_start,
    decreases calls.len(),
{
    if calls.len() > 0 {
        lemma_done_is_terminal(t, calls.drop_last());
    }
}

/// A freeze request takes effect once: a second one right after it changes
/// nothing, in particular not the frame at which the freeze started, and one
/// on a finished timeline changes nothing either.
pub proof fn lemma_freeze_request_is_idempotent(t: Timeline)
    ensures
        t.after_freeze().after_freeze() == t.after_freeze(),
        t.after_freeze().after_freeze().freeze_start == t.after_freeze().freeze_start,
        t.phase == Phase::Freeze || t.phase == Phase::Done ==> t.after_freeze() == t,
{
}

/// The collapse progress of a well-formed timeline is a fraction from zero
/// to one.
pub proof fn lemma_collapse_progress_wf(t: Timeline)
    requires
        t.wf(),
    ensures
        t.collapse_progress_spec().wf(),
{
    lemma_quartic_bounds(t.collapse_frames_passed(), t.exit.collapse_frames as int);
}

/// The collapse never recedes: a tick or a freeze request leaves
/// `collapse_progress` where it was or moves it toward one.
pub proof fn lemma_collapse_never_recedes(t: Timeline)
    requires
        t.wf(),
        t.frame < u32::MAX,
    ensures
        t.collapse_progress_spec().le(t.after_tick().collapse_progress_spec()),
        t.collapse_progress_spec().le(t.after_freeze().collapse_progress_spec()),
{
    let total: int = t.exit.collapse_frames as int;
    let a: int = t.collapse_frames_passed();
    let b: int = t.after_tick().collapse_frames_passed();
    let c: int = t.after_freeze().collapse_frames_passed();
    assert(0 <= a <= total);
    assert(0 <= b <= total);
    assert(0 <= c <= total);
    lemma_quartic_bounds(a, total);
    lemma_quartic_bounds(b, total);
    lemma_quartic_bounds(c, total);
    if total > 0 {
        let d: int = quartic(total);
        if t.phase == Phase::Freeze && t.elapsed() >= t.exit.flash_frames {
            assert(a <= b);
            lemma_quartic_bounds(a, b);
            assert(quartic(a) * 1 <= 1 * d);
            assert(quartic(a) * d <= quartic(b) * d) by (nonlinear_arith)
                requires
                    quartic(a) <= quartic(b),
                    0 < d,
            ;
        }
    }
}

/// The collapse never recedes along any sequence of calls.
pub proof fn lemma_collapse_order_along_calls(
    t: Timeline,
    calls: Seq<TimelineCall>,
    i: int,
    j: int,
)
    requires
        t.wf(),
        t.frame + calls.len() <= u32::MAX,
        0 <= i <= j <= calls.len(),
    ensures
        t.after_calls(calls.take(i)).collapse_progress_spec().le(
            t.after_calls(calls.take(j)).collapse_progress_spec(),
        ),
    decreases j - i,
{
    let at_i = t.after_calls(calls.take(i));
    lemma_calls_keep_wf(t, calls.take(i));
    if i < j {
        let before = t.after_calls(calls.take(j - 1));
        let at_j = t.after_calls(calls.take(j));
        lemma_collapse_order_along_calls(t, calls, i, j - 1);
        assert(calls.take(j).drop_last() =~= calls.take(j - 1));
        lemma_calls_keep_wf(t, calls.take(j - 1));
        lemma_calls_keep_wf(t, calls.take(j));
        lemma_collapse_never_recedes(before);
        lemma_collapse_progress_wf(before);
        lemma_collapse_progress_wf(at_i);
        lemma_collapse_progress_wf(at_j);
        crate::progress::lemma_le_transitive(
            at_i.collapse_progress_spec(),
            before.collapse_progress_spec(),
            at_j.collapse_progress_spec(),
        );
    }
}

/// The exit sequence is bounded: a frozen timeline is `Done` after `n` ticks
/// exactly when at least one tick was made and flash and collapse have
/// played in full.
pub proof fn lemma_freeze_ends(t: Timeline, n: nat)
    requires
        t.wf(),
        t.phase == Phase::Freeze,
        t.frame + n <= u32::MAX,
    ensures
        t.after_ticks(n).frame == t.frame + n,
        t.after_ticks(n).freeze_start == t.freeze_start,
        t.after_ticks(n).exit == t.exit,
        t.after_ticks(n).phase == Phase::Freeze || t.after_ticks(n).phase == Phase::Done,
        t.after_ticks(n).phase == Phase::Done <==> n >= 1 && t.elapsed() + n
            >= t.exit.duration_spec(),
    decreases n,
{
    if n > 0 {
        lemma_freeze_ends(t, (n - 1) as nat);
    }
}

/// A freeze request completes the border, however early in the entrance it
/// comes, and the border stays complete whatever is called after it.
pub proof fn lemma_border_complete_after_freeze(t: Timeline, calls: Seq<TimelineCall>)
    ensures
        t.after_freeze().border_progress_spec().is_one(),
        t.after_freeze().after_calls(calls).border_progress_spec().is_one(),
{
    let frozen = t.after_freeze();
    lemma_phase_never_moves_back(frozen, calls, 0, calls.len() as int);
    assert(calls.take(0) =~= Seq::<TimelineCall>::empty());
    assert(calls.take(calls.len() as int) =~= calls);
}

/// With the `instant` presets the border is complete at every frame, and a
/// freeze request is followed by `Done` at the next tick, so also at the one
/// after it.
pub proof fn lemma_instant_presets(t: Timeline)
    requires
        t.wf(),
        t.entrance == EntranceTiming::instant_spec(),
        t.exit == ExitTiming::instant_spec(),
        t.frame + 2 <= u32::MAX,
    ensures
        t.border_progress_spec().is_one(),
        t.after_freeze().after_tick().phase == Phase::Done,
        t.after_freeze().after_tick().after_tick().phase == Phase::Done,
{
}

} // verus!
