use blaeckfetch::progress::Progress;
use blaeckfetch::timeline::{ramp, EntranceTiming, ExitTiming, Phase, Timeline};

fn value(p: Progress) -> f32 {
    p.num as f32 / p.den as f32
}

fn frozen(entrance: &str, exit: &str, at: u32) -> Timeline {
    let mut t = Timeline::new(entrance, exit);
    for _ in 0..at {
        t.tick();
    }
    t.trigger_freeze();
    t
}

#[test]
fn ramp_is_linear_between_start_and_end() {
    assert_eq!(value(ramp(0, 0, 6)), 0.0);
    assert_eq!(value(ramp(3, 0, 6)), 0.5);
    assert_eq!(value(ramp(6, 0, 6)), 1.0);
    assert_eq!(value(ramp(100, 0, 6)), 1.0);
    assert_eq!(ramp(3, 0, 6), Progress { num: 3, den: 6 });
    assert_eq!(ramp(7, 4, 12), Progress { num: 3, den: 8 });
}

#[test]
fn ramp_over_empty_window_is_one() {
    for f in [0u32, 4, 5, 6, 1000, u32::MAX] {
        assert_eq!(value(ramp(f, 5, 5)), 1.0);
    }
}

#[test]
fn ramp_before_start_is_zero() {
    assert_eq!(ramp(5, 6, 12), Progress { num: 0, den: 1 });
    assert_eq!(ramp(6, 6, 12), Progress { num: 0, den: 6 });
}

#[test]
fn ramp_with_reversed_window() {
    assert_eq!(value(ramp(3, 10, 2)), 0.0);
    assert_eq!(value(ramp(10, 10, 2)), 1.0);
    assert_eq!(value(ramp(50, 10, 2)), 1.0);
}

#[test]
fn entrance_presets() {
    let slow = EntranceTiming::slow();
    assert_eq!(
        (slow.border_start, slow.border_end, slow.stars_start, slow.stars_end),
        (0, 18, 6, 12)
    );
    assert_eq!(
        (slow.celestial_start, slow.celestial_end, slow.status_start, slow.status_end),
        (12, 17, 20, 35)
    );
    assert_eq!((slow.footer_start, slow.entrance_done), (30, 35));
    let fast = EntranceTiming::fast();
    assert_eq!(
        (fast.border_start, fast.border_end, fast.stars_start, fast.stars_end),
        (0, 6, 2, 4)
    );
    assert_eq!(
        (fast.celestial_start, fast.celestial_end, fast.status_start, fast.status_end),
        (4, 6, 6, 12)
    );
    assert_eq!((fast.footer_start, fast.entrance_done), (10, 12));
    let instant = EntranceTiming::instant();
    assert_eq!(instant.entrance_done, 0);
    assert_eq!(instant.border_end, 0);
    assert_eq!(instant.status_end, 0);
}

#[test]
fn entrance_from_str_selects_preset() {
    assert_eq!(EntranceTiming::from_str("fast"), EntranceTiming::fast());
    assert_eq!(EntranceTiming::from_str("instant"), EntranceTiming::instant());
    assert_eq!(EntranceTiming::from_str("slow"), EntranceTiming::slow());
    assert_eq!(EntranceTiming::from_str(""), EntranceTiming::slow());
    assert_eq!(EntranceTiming::from_str("FAST"), EntranceTiming::slow());
    assert_eq!(EntranceTiming::from_str("fastest"), EntranceTiming::slow());
}

#[test]
fn exit_presets_and_from_str() {
    assert_eq!(ExitTiming::slow(), ExitTiming { flash_frames: 2, collapse_frames: 10 });
    assert_eq!(ExitTiming::fast(), ExitTiming { flash_frames: 1, collapse_frames: 5 });
    assert_eq!(ExitTiming::instant(), ExitTiming { flash_frames: 0, collapse_frames: 0 });
    assert_eq!(ExitTiming::from_str("fast"), ExitTiming::fast());
    assert_eq!(ExitTiming::from_str("instant"), ExitTiming::instant());
    assert_eq!(ExitTiming::from_str("anything"), ExitTiming::slow());
    assert_eq!(ExitTiming::slow().duration(), 12);
    assert_eq!(ExitTiming::fast().duration(), 6);
    assert_eq!(ExitTiming::instant().duration(), 0);
}

#[test]
fn new_timeline_starts_in_entrance() {
    let t = Timeline::new("fast", "slow");
    assert_eq!(t.frame, 0);
    assert_eq!(t.phase, Phase::Entrance);
    assert_eq!(t.freeze_start, 0);
    assert_eq!(t.entrance, EntranceTiming::fast());
    assert_eq!(t.exit, ExitTiming::slow());
    assert!(t.is_valid());
    assert!(!t.is_done());
}

#[test]
fn entrance_gives_way_to_alive() {
    let mut t = Timeline::new("fast", "fast");
    for f in 1..12 {
        t.tick();
        assert_eq!(t.frame, f);
        assert_eq!(t.phase, Phase::Entrance);
        assert!(!t.gradient_active());
    }
    t.tick();
    assert_eq!(t.frame, 12);
    assert_eq!(t.phase, Phase::Alive);
    assert!(t.gradient_active());
    t.tick();
    assert_eq!(t.phase, Phase::Alive);
}

#[test]
fn phase_never_moves_back() {
    let rank = |p: Phase| match p {
        Phase::Entrance => 0,
        Phase::Alive => 1,
        Phase::Freeze => 2,
        Phase::Done => 3,
    };
    let mut t = Timeline::new("slow", "slow");
    let mut last = rank(t.phase);
    for i in 0..200u32 {
        if i == 77 || i == 78 || i == 150 {
            t.trigger_freeze();
        } else {
            t.tick();
        }
        assert!(rank(t.phase) >= last);
        last = rank(t.phase);
    }
    assert_eq!(t.phase, Phase::Done);
}

#[test]
fn trigger_freeze_twice_keeps_freeze_start() {
    let mut t = Timeline::new("slow", "slow");
    for _ in 0..40 {
        t.tick();
    }
    t.trigger_freeze();
    assert_eq!(t.phase, Phase::Freeze);
    assert_eq!(t.freeze_start, 40);
    t.tick();
    t.trigger_freeze();
    assert_eq!(t.freeze_start, 40);
    assert_eq!(t.phase, Phase::Freeze);
    assert_eq!(t.frame, 41);
}

#[test]
fn trigger_freeze_when_done_is_a_no_op() {
    let mut t = frozen("instant", "instant", 3);
    t.tick();
    assert!(t.is_done());
    let (frame, start) = (t.frame, t.freeze_start);
    t.trigger_freeze();
    assert!(t.is_done());
    assert_eq!(t.frame, frame);
    assert_eq!(t.freeze_start, start);
}

#[test]
fn freeze_during_entrance() {
    let mut t = Timeline::new("slow", "fast");
    t.tick();
    t.tick();
    t.trigger_freeze();
    assert_eq!(t.phase, Phase::Freeze);
    assert_eq!(t.freeze_start, 2);
    assert!(t.footer_visible());
}

#[test]
fn fast_exit_sequence() {
    let mut t = frozen("fast", "fast", 20);
    assert_eq!(t.freeze_start, 20);
    // freeze_start + 0
    assert!(t.is_freeze_flash());
    assert!(!t.is_collapsing());
    assert_eq!(value(t.collapse_progress()), 0.0);
    assert_eq!(value(t.star_visibility()), 1.0);
    assert_eq!(value(t.celestial_visibility()), 1.0);
    // freeze_start + 1: the flash is over, the collapse begins
    t.tick();
    assert!(!t.is_freeze_flash());
    assert!(t.is_collapsing());
    assert_eq!(t.collapse_progress(), Progress { num: 0, den: 625 });
    assert_eq!(value(t.star_visibility()), 0.0);
    assert_eq!(value(t.celestial_visibility()), 0.0);
    // freeze_start + 2 .. + 5: rising with the fourth power
    let mut last = 0.0f32;
    for n in 1..5u64 {
        t.tick();
        assert_eq!(t.phase, Phase::Freeze);
        assert_eq!(t.collapse_progress(), Progress { num: n * n * n * n, den: 625 });
        let now = value(t.collapse_progress());
        assert!(now > last);
        last = now;
    }
    // freeze_start + 6
    t.tick();
    assert_eq!(t.frame, 26);
    assert_eq!(t.phase, Phase::Done);
    assert!(t.is_done());
    assert_eq!(value(t.collapse_progress()), 1.0);
    assert!(!t.is_collapsing());
    assert!(!t.footer_visible());
}

#[test]
fn collapse_progress_never_decreases() {
    for exit in ["slow", "fast", "instant"] {
        let mut t = Timeline::new("fast", exit);
        let mut last = t.collapse_progress();
        for i in 0..60u32 {
            if i == 30 {
                t.trigger_freeze();
            } else {
                t.tick();
            }
            let now = t.collapse_progress();
            assert!(last.at_most(&now));
            assert!(value(last) <= value(now));
            last = now;
        }
        assert!(t.is_done());
        assert!(last.is_one());
    }
}

#[test]
fn collapse_progress_is_zero_before_the_freeze() {
    let mut t = Timeline::new("fast", "slow");
    for _ in 0..30 {
        assert!(t.collapse_progress().is_zero());
        t.tick();
    }
    let mut t = Timeline::new("fast", "instant");
    for _ in 0..30 {
        assert!(t.collapse_progress().is_zero());
        t.tick();
    }
    t.trigger_freeze();
    assert!(t.collapse_progress().is_one());
}

#[test]
fn slow_exit_eases_in() {
    let mut t = frozen("instant", "slow", 5);
    t.tick();
    t.tick();
    assert!(t.is_collapsing());
    assert_eq!(t.collapse_progress(), Progress { num: 0, den: 10000 });
    for _ in 0..5 {
        t.tick();
    }
    assert_eq!(t.collapse_progress(), Progress { num: 625, den: 10000 });
    assert_eq!(value(t.collapse_progress()), 0.0625);
    for _ in 0..4 {
        t.tick();
    }
    assert_eq!(t.phase, Phase::Freeze);
    assert_eq!(t.collapse_progress(), Progress { num: 6561, den: 10000 });
    t.tick();
    assert!(t.is_done());
}

#[test]
fn instant_presets_end_to_end() {
    let mut t = Timeline::new("instant", "instant");
    assert_eq!(value(t.border_progress()), 1.0);
    assert_eq!(value(t.status_progress()), 1.0);
    for _ in 0..10 {
        t.tick();
        assert_eq!(value(t.border_progress()), 1.0);
    }
    assert_eq!(t.phase, Phase::Alive);
    t.trigger_freeze();
    assert_eq!(value(t.border_progress()), 1.0);
    let mut ticks = 0;
    while !t.is_done() {
        t.tick();
        ticks += 1;
        assert_eq!(value(t.border_progress()), 1.0);
    }
    assert!(ticks <= 2);
    assert_eq!(ticks, 1);
}

#[test]
fn instant_timeline_leaves_entrance_at_first_tick() {
    let mut t = Timeline::new("instant", "slow");
    assert_eq!(t.phase, Phase::Entrance);
    assert!(t.footer_visible());
    t.tick();
    assert_eq!(t.phase, Phase::Alive);
}

#[test]
fn border_and_status_progress_during_entrance() {
    let mut t = Timeline::new("slow", "slow");
    assert_eq!(t.border_progress(), Progress { num: 0, den: 18 });
    assert_eq!(value(t.status_progress()), 0.0);
    for _ in 0..9 {
        t.tick();
    }
    assert_eq!(value(t.border_progress()), 0.5);
    assert_eq!(t.star_visibility(), Progress { num: 3, den: 6 });
    assert_eq!(value(t.celestial_visibility()), 0.0);
    for _ in 0..5 {
        t.tick();
    }
    assert_eq!(t.celestial_visibility(), Progress { num: 2, den: 5 });
    assert!(t.celestial_visibility().exceeds(3, 10));
    for _ in 0..11 {
        t.tick();
    }
    assert_eq!(t.frame, 25);
    assert_eq!(value(t.border_progress()), 1.0);
    assert_eq!(t.status_progress(), Progress { num: 5, den: 15 });
    for _ in 0..10 {
        t.tick();
    }
    assert_eq!(t.phase, Phase::Alive);
    assert_eq!(value(t.status_progress()), 1.0);
    assert_eq!(value(t.star_visibility()), 1.0);
}

#[test]
fn footer_appears_then_blinks() {
    let mut t = Timeline::new("fast", "fast");
    for _ in 0..9 {
        assert!(!t.footer_visible());
        t.tick();
    }
    assert_eq!(t.frame, 9);
    assert!(!t.footer_visible());
    t.tick();
    assert!(t.footer_visible());
    t.tick();
    t.tick();
    assert_eq!(t.phase, Phase::Alive);
    // on for 30 frames, off for 30, on again
    for _ in 0..30 {
        assert!(t.footer_visible());
        t.tick();
    }
    for _ in 0..30 {
        assert!(!t.footer_visible());
        t.tick();
    }
    assert!(t.footer_visible());
    t.trigger_freeze();
    assert!(t.footer_visible());
}

#[test]
fn flash_lasts_for_flash_frames() {
    let mut t = frozen("fast", "slow", 15);
    assert!(t.is_freeze_flash());
    t.tick();
    assert!(t.is_freeze_flash());
    t.tick();
    assert!(!t.is_freeze_flash());
    assert!(t.is_collapsing());
}

#[test]
fn done_stays_done() {
    let mut t = frozen("fast", "fast", 0);
    for _ in 0..6 {
        t.tick();
    }
    assert!(t.is_done());
    for _ in 0..50 {
        t.tick();
        assert!(t.is_done());
        assert!(!t.is_freeze_flash());
        assert!(!t.is_collapsing());
        assert_eq!(value(t.star_visibility()), 0.0);
        assert_eq!(value(t.status_progress()), 1.0);
    }
}

#[test]
fn is_valid_rejects_a_freeze_in_the_future() {
    let mut t = Timeline::new("slow", "slow");
    t.phase = Phase::Freeze;
    t.freeze_start = 10;
    assert!(!t.is_valid());
    t.frame = 10;
    assert!(t.is_valid());
    t.exit = ExitTiming { flash_frames: u32::MAX, collapse_frames: 1 };
    assert!(!t.is_valid());
    t.exit = ExitTiming { flash_frames: 0, collapse_frames: 70000 };
    assert!(!t.is_valid());
}

#[test]
fn progress_scale_rounds_down() {
    assert_eq!(Progress { num: 1, den: 3 }.scale(10), 3);
    assert_eq!(Progress { num: 2, den: 3 }.scale(10), 6);
    assert_eq!(Progress { num: 0, den: 7 }.scale(65535), 0);
    assert_eq!(Progress { num: 7, den: 7 }.scale(65535), 65535);
    assert_eq!(Progress { num: 6561, den: 10000 }.scale(20), 13);
    assert_eq!(Progress::zero().scale(99), 0);
    assert_eq!(Progress::one().scale(99), 99);
}

#[test]
fn progress_comparisons() {
    let third = Progress { num: 1, den: 3 };
    let half = Progress { num: 2, den: 4 };
    assert!(third.at_most(&half));
    assert!(!half.at_most(&third));
    assert!(half.at_most(&Progress { num: 1, den: 2 }));
    assert!(half.exceeds(3, 10));
    assert!(!third.exceeds(1, 3));
    assert!(!Progress { num: 3, den: 10 }.exceeds(3, 10));
    assert!(Progress { num: u64::MAX, den: u64::MAX }.at_most(&Progress::one()));
}

#[test]
fn border_is_complete_once_the_entrance_is_left() {
    // a freeze requested early in the entrance
    let mut t = Timeline::new("slow", "slow");
    for _ in 0..3 {
        t.tick();
    }
    assert_eq!(t.phase, Phase::Entrance);
    assert_eq!(t.border_progress(), Progress { num: 3, den: 18 });
    t.trigger_freeze();
    assert_eq!(t.phase, Phase::Freeze);
    assert_eq!(value(t.border_progress()), 1.0);
    while !t.is_done() {
        t.tick();
        assert_eq!(value(t.border_progress()), 1.0);
    }
    assert_eq!(value(t.border_progress()), 1.0);
    // the entrance played to its end
    let mut t = Timeline::new("slow", "slow");
    for frame in 0..200 {
        let shown = value(t.border_progress());
        if t.phase == Phase::Entrance {
            assert_eq!(shown, (frame as f32 / 18.0).min(1.0));
        } else {
            assert_eq!(shown, 1.0);
        }
        t.tick();
    }
    assert_eq!(t.phase, Phase::Alive);
}
