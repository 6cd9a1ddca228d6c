use blaeckfetch::ansi::{erase_rows, CURSOR_QUERY, ERASE_LINE, HIDE_CURSOR, RESET, SHOW_CURSOR};
use blaeckfetch::background::BgCell;
use blaeckfetch::boot::{
    frame_pause_ms, timeout_ms, BootLoop, Settings, CAPTURE_FREEZE_MS, DEFAULT_TIMEOUT_SECS, FPS,
    FRAME_MS, RESIZE_SETTLE_MS,
};
use blaeckfetch::canvas::{Region, Rgb};
use blaeckfetch::image_proto::{image_sequence, RenderMode};
use blaeckfetch::layout::Align;
use blaeckfetch::progress::Progress;
use blaeckfetch::timeline::Phase;

fn settings(mode: RenderMode) -> Settings {
    Settings {
        align: Align::Left,
        mode,
        width: Some(30),
        height: Some(10),
        timeout_secs: Some(5),
        min_size: (10, 5),
        max_size: (120, 40),
    }
}

fn boot(mode: RenderMode, entrance: &str, exit: &str) -> BootLoop {
    BootLoop::new(settings(mode), entrance, exit, "status".to_string(), None, None, (80, 24), 7)
        .unwrap()
}

fn image_boot(entrance: &str, exit: &str) -> BootLoop {
    BootLoop::new(
        settings(RenderMode::Image),
        entrance,
        exit,
        "status".to_string(),
        None,
        Some(b"foo".to_vec()),
        (80, 24),
        7,
    )
    .unwrap()
}

fn value(p: Progress) -> f32 {
    p.num as f32 / p.den as f32
}

/// Runs the loop with a key pressed at the given frame; returns the phase
/// that each frame was painted in.
fn run(boot: &mut BootLoop, key_at: Option<u32>) -> Vec<Phase> {
    let mut phases = Vec::new();
    let mut n: u32 = 0;
    loop {
        let go_on = boot.begin_frame(n as u64 * FRAME_MS, key_at == Some(n));
        if !go_on {
            break;
        }
        phases.push(boot.timeline.phase);
        let out = boot.frame();
        if boot.capture {
            assert!(out.ends_with("\x1b[0m\n"));
        } else {
            assert!(out.ends_with(RESET));
        }
        n += 1;
        assert!(n < 10_000, "the loop does not end");
    }
    phases
}

#[test]
fn constants_of_the_loop() {
    assert_eq!(FPS, 30);
    assert_eq!(FRAME_MS, 1000 / FPS);
    assert_eq!(DEFAULT_TIMEOUT_SECS, 120);
    assert_eq!(CAPTURE_FREEZE_MS, 3000);
    assert_eq!(RESIZE_SETTLE_MS, 100);
    assert_eq!(HIDE_CURSOR, "\x1b[?25l");
    assert_eq!(SHOW_CURSOR, "\x1b[?25h");
    assert_eq!(ERASE_LINE, "\x1b[2K");
    assert_eq!(CURSOR_QUERY, "\x1b[6n");
    assert_eq!(RESET, "\x1b[0m");
}

#[test]
fn timeout_defaults_to_two_minutes() {
    assert_eq!(timeout_ms(None), 120_000);
    assert_eq!(timeout_ms(Some(5)), 5_000);
    assert_eq!(timeout_ms(Some(0)), 0);
    assert_eq!(timeout_ms(Some(u64::MAX / 1000)), u64::MAX / 1000 * 1000);
    assert_eq!(timeout_ms(Some(u64::MAX / 1000 + 1)), u64::MAX);
    assert_eq!(timeout_ms(Some(u64::MAX)), u64::MAX);
}

#[test]
fn pause_is_what_is_left_of_the_frame() {
    assert_eq!(frame_pause_ms(0), 33);
    assert_eq!(frame_pause_ms(10), 23);
    assert_eq!(frame_pause_ms(32), 1);
    assert_eq!(frame_pause_ms(33), 0);
    assert_eq!(frame_pause_ms(34), 0);
    assert_eq!(frame_pause_ms(u64::MAX), 0);
}

#[test]
fn settings_bounds_must_be_in_order() {
    assert!(settings(RenderMode::Ascii).is_valid());
    let mut s = settings(RenderMode::Ascii);
    s.min_size = (121, 5);
    assert!(!s.is_valid());
    s.min_size = (10, 41);
    assert!(!s.is_valid());
    s.min_size = (120, 40);
    assert!(s.is_valid());
}

#[test]
fn new_loop_has_a_blank_canvas_of_the_configured_size() {
    let b = boot(RenderMode::Ascii, "slow", "fast");
    assert_eq!((b.canvas.width, b.canvas.height), (30, 10));
    assert_eq!(b.base, (30, 10));
    assert!(b.canvas.is_valid());
    assert!(b.canvas.mask.is_none());
    assert_eq!(b.timeline.phase, Phase::Entrance);
    assert_eq!(b.timeline.frame, 0);
    assert_eq!(b.timeline.exit.collapse_frames, 5);
    assert_eq!(b.timeline.entrance.entrance_done, 35);
    assert_eq!(b.timeout_ms, 5000);
    assert_eq!(b.term, (80, 24));
    assert_eq!((b.origin_row, b.origin_col), (1, 1));
    assert_eq!(b.status, "status");
    assert!(!b.capture);
    assert!(!b.image_emitted);
    assert!(!b.done_rendered);
    assert!(b.image.is_none());
    assert_eq!(b.seed, 7);
}

#[test]
fn default_box_is_68_by_23() {
    let mut s = settings(RenderMode::Ascii);
    s.width = None;
    s.height = None;
    s.timeout_secs = None;
    let b = BootLoop::new(s, "slow", "slow", String::new(), None, None, (80, 24), 1).unwrap();
    assert_eq!((b.canvas.width, b.canvas.height), (68, 23));
    assert_eq!(b.timeout_ms, 120_000);
    assert_eq!(b.scene.stars.len(), 22);
}

#[test]
fn a_terminal_that_is_too_narrow_gets_no_splash() {
    let s = settings(RenderMode::Ascii);
    assert!(BootLoop::new(s, "slow", "slow", String::new(), None, None, (29, 24), 1).is_none());
    assert!(BootLoop::new(s, "slow", "slow", String::new(), None, None, (30, 24), 1).is_some());
    assert!(BootLoop::new(s, "slow", "slow", String::new(), None, None, (0, 0), 1).is_none());
    // captured output is never too narrow
    let s = settings(RenderMode::Inline);
    let b = BootLoop::new(s, "slow", "slow", String::new(), None, None, (29, 24), 1).unwrap();
    assert!(b.capture);
}

#[test]
fn the_image_is_kept_only_in_image_mode() {
    let image = Some(b"foo".to_vec());
    for mode in [RenderMode::Ascii, RenderMode::Inline] {
        let b = BootLoop::new(settings(mode), "slow", "slow", String::new(), None, image.clone(), (80, 24), 1)
            .unwrap();
        assert!(b.image.is_none());
        assert_eq!(b.canvas.height, 10);
    }
    let b = image_boot("slow", "slow");
    assert_eq!(b.image, image);
    // an image adds a row to the box
    assert_eq!((b.canvas.width, b.canvas.height), (30, 11));
    assert_eq!(b.base, (30, 11));
    // image mode without an image is a plain scene
    let b = boot(RenderMode::Image, "slow", "slow");
    assert!(b.image.is_none());
    assert_eq!(b.canvas.height, 10);
}

#[test]
fn box_is_placed_above_the_cursor() {
    let mut b = boot(RenderMode::Ascii, "slow", "slow");
    assert_eq!(b.reserve(), 10);
    let out = b.place(Some(24));
    assert_eq!(b.origin_row, 15);
    assert_eq!(b.origin_col, 2);
    assert_eq!(out, erase_rows(15, 25));
    assert!(out.starts_with("\x1b[15;1H\x1b[2K\x1b[16;1H\x1b[2K"));
    assert!(out.ends_with("\x1b[24;1H\x1b[2K"));
    assert_eq!(out.matches("\x1b[2K").count(), 10);
}

#[test]
fn box_placement_without_an_answer() {
    let mut b = boot(RenderMode::Ascii, "slow", "slow");
    let out = b.place(None);
    assert_eq!(b.origin_row, 15);
    assert_eq!(out, erase_rows(15, 25));
    let mut b = boot(RenderMode::Ascii, "slow", "slow");
    b.place(Some(3));
    assert_eq!(b.origin_row, 1);
}

#[test]
fn box_placement_by_alignment() {
    for (align, col) in [(Align::Left, 2), (Align::Center, 26), (Align::Right, 50)] {
        let mut s = settings(RenderMode::Ascii);
        s.align = align;
        let mut b =
            BootLoop::new(s, "slow", "slow", String::new(), None, None, (80, 24), 1).unwrap();
        b.place(Some(24));
        assert_eq!(b.origin_col, col);
    }
}

#[test]
fn captured_output_stays_at_the_top_left() {
    let mut b = boot(RenderMode::Inline, "slow", "slow");
    assert_eq!(b.reserve(), 0);
    let out = b.place(Some(24));
    assert_eq!(out, "");
    assert_eq!((b.origin_row, b.origin_col), (1, 1));
}

#[test]
fn erase_rows_text() {
    assert_eq!(erase_rows(3, 5), "\x1b[3;1H\x1b[2K\x1b[4;1H\x1b[2K");
    assert_eq!(erase_rows(5, 5), "");
    assert_eq!(erase_rows(6, 5), "");
    assert_eq!(erase_rows(4294967294, 4294967295), "\x1b[4294967294;1H\x1b[2K");
}

#[test]
fn frame_is_the_rendered_canvas() {
    let mut b = boot(RenderMode::Ascii, "fast", "fast");
    b.place(Some(24));
    for n in 0..40u64 {
        assert!(b.begin_frame(n * 33, false));
        let out = b.frame();
        assert_eq!(out, b.canvas.render(15, 2));
        assert_eq!(b.timeline.frame as u64, n + 1);
    }
    assert_eq!(b.timeline.phase, Phase::Alive);
    assert!(b.canvas.is_valid());
}

#[test]
fn loop_with_instant_presets_ends_two_frames_after_the_key() {
    for key_at in [0u32, 1, 5, 50] {
        let mut b = boot(RenderMode::Ascii, "instant", "instant");
        let mut frames_after_key = 0;
        let mut n: u32 = 0;
        let mut ticks_to_done = None;
        loop {
            assert_eq!(value(b.timeline.border_progress()), 1.0);
            if !b.begin_frame(n as u64 * FRAME_MS, n == key_at) {
                break;
            }
            b.frame();
            assert_eq!(value(b.timeline.border_progress()), 1.0);
            if n >= key_at {
                frames_after_key += 1;
                if b.timeline.is_done() && ticks_to_done.is_none() {
                    ticks_to_done = Some(frames_after_key);
                }
            }
            n += 1;
            assert!(n < 1000);
        }
        assert!(ticks_to_done.unwrap() <= 2);
        assert_eq!(ticks_to_done, Some(1));
        // the frame with the freeze and the frame that shows the end
        assert_eq!(frames_after_key, 2);
        assert!(b.done_rendered);
    }
}

#[test]
fn a_key_starts_the_exit() {
    let mut b = boot(RenderMode::Ascii, "fast", "fast");
    let phases = run(&mut b, Some(20));
    // 12 frames of entrance, 8 alive, 6 of freeze, 1 done
    assert_eq!(phases.len(), 27);
    assert!(phases[..12].iter().all(|p| *p == Phase::Entrance));
    assert!(phases[12..20].iter().all(|p| *p == Phase::Alive));
    assert!(phases[20..26].iter().all(|p| *p == Phase::Freeze));
    assert_eq!(phases[26], Phase::Done);
    assert_eq!(b.timeline.freeze_start, 20);
    assert!(b.done_rendered);
    // once ended, the loop stays ended
    assert!(!b.begin_frame(0, false));
    assert!(!b.begin_frame(u64::MAX, true));
}

#[test]
fn a_key_during_the_entrance_starts_the_exit_too() {
    let mut b = boot(RenderMode::Ascii, "slow", "slow");
    let phases = run(&mut b, Some(3));
    assert_eq!(phases.len(), 3 + 12 + 1);
    assert_eq!(phases[2], Phase::Entrance);
    assert_eq!(phases[3], Phase::Freeze);
    assert_eq!(phases[15], Phase::Done);
}

#[test]
fn the_timeout_starts_the_exit() {
    let mut b = boot(RenderMode::Ascii, "fast", "fast");
    let phases = run(&mut b, None);
    // 5000 ms are passed at frame 152
    let first_freeze = phases.iter().position(|p| *p == Phase::Freeze).unwrap();
    assert_eq!(first_freeze, 152);
    assert_eq!(phases.len(), 152 + 6 + 1);
    assert_eq!(*phases.last().unwrap(), Phase::Done);
}

#[test]
fn timeout_is_passed_only_after_it() {
    let mut b = boot(RenderMode::Ascii, "fast", "fast");
    assert!(b.begin_frame(5000, false));
    assert_eq!(b.timeline.phase, Phase::Entrance);
    assert!(b.begin_frame(5001, false));
    assert_eq!(b.timeline.phase, Phase::Freeze);
}

#[test]
fn captured_output_freezes_by_itself_and_reads_no_key() {
    let mut b = boot(RenderMode::Inline, "fast", "fast");
    let phases = run(&mut b, Some(20));
    // the key is not seen; 3000 ms are passed at frame 91
    let first_freeze = phases.iter().position(|p| *p == Phase::Freeze).unwrap();
    assert_eq!(first_freeze, 91);
    assert_eq!(phases.len(), 91 + 6 + 1);
}

#[test]
fn captured_output_freezes_only_once_alive() {
    let mut b = boot(RenderMode::Inline, "slow", "fast");
    assert!(b.begin_frame(4000, true));
    assert_eq!(b.timeline.phase, Phase::Entrance);
    for _ in 0..35 {
        b.frame();
    }
    assert_eq!(b.timeline.phase, Phase::Alive);
    assert!(b.begin_frame(3000, false));
    assert_eq!(b.timeline.phase, Phase::Alive);
    assert!(b.begin_frame(3001, false));
    assert_eq!(b.timeline.phase, Phase::Freeze);
}

#[test]
fn a_second_key_changes_nothing() {
    let mut b = boot(RenderMode::Ascii, "fast", "slow");
    for n in 0..15 {
        assert!(b.begin_frame(n, n == 14));
        b.frame();
    }
    assert_eq!(b.timeline.freeze_start, 14);
    assert!(b.begin_frame(15, true));
    assert_eq!(b.timeline.freeze_start, 14);
    assert_eq!(b.timeline.phase, Phase::Freeze);
}

#[test]
fn resize_is_seen_on_live_terminals_only() {
    let b = boot(RenderMode::Ascii, "slow", "slow");
    assert!(!b.size_changed((80, 24)));
    assert!(b.size_changed((81, 24)));
    assert!(b.size_changed((80, 25)));
    assert!(b.size_changed((0, 0)));
    let b = boot(RenderMode::Inline, "slow", "slow");
    assert!(!b.size_changed((81, 24)));
}

#[test]
fn resize_makes_canvas_and_scene_afresh() {
    let mut s = settings(RenderMode::Ascii);
    s.align = Align::Center;
    let mut b = BootLoop::new(s, "fast", "fast", "status".to_string(), None, None, (80, 24), 7)
        .unwrap();
    b.place(Some(24));
    for n in 0..20 {
        b.begin_frame(n, false);
        b.frame();
    }
    let out = b.resize((20, 8), None);
    assert_eq!(out, erase_rows(1, 9));
    assert_eq!(b.term, (20, 8));
    assert_eq!((b.canvas.width, b.canvas.height), (19, 7));
    assert!(b.canvas.cells.iter().all(|c| c.glyph == ' '));
    assert_eq!(b.origin_row, 1);
    assert_eq!(b.origin_col, 1);
    assert_eq!(b.timeline.frame, 20);
    assert_eq!(b.timeline.phase, Phase::Alive);
    assert!(!b.size_changed((20, 8)));
    let region = Region { x0: 1, y0: 3, x1: 18, y1: 4 };
    assert!(b.scene.stars.iter().all(|s| region.holds(s.x as usize, s.y as usize)));
    // back to a large terminal: the box takes its first size again
    b.resize((200, 50), None);
    assert_eq!((b.canvas.width, b.canvas.height), (30, 10));
    assert_eq!(b.origin_col, 86);
    let frame = b.frame();
    assert_eq!(frame, b.canvas.render(1, 86));
}

#[test]
fn resize_keeps_to_the_bounds() {
    let mut b = boot(RenderMode::Ascii, "fast", "fast");
    b.resize((5, 3), None);
    assert_eq!((b.canvas.width, b.canvas.height), (10, 5));
    let mut s = settings(RenderMode::Ascii);
    s.width = Some(200);
    s.height = Some(100);
    let mut b =
        BootLoop::new(s, "fast", "fast", String::new(), None, None, (300, 200), 7).unwrap();
    assert_eq!((b.canvas.width, b.canvas.height), (120, 40));
    b.resize((300, 200), None);
    assert_eq!((b.canvas.width, b.canvas.height), (120, 40));
    b.resize((100, 30), None);
    assert_eq!((b.canvas.width, b.canvas.height), (99, 29));
}

#[test]
fn requested_width_is_brought_into_the_bounds_at_the_start() {
    let mut s = settings(RenderMode::Ascii);
    s.width = Some(200);
    s.height = None;
    s.min_size = (10, 5);
    s.max_size = (120, 40);
    let b = BootLoop::new(s, "slow", "slow", String::new(), None, None, (200, 50), 7).unwrap();
    assert_eq!(b.canvas.width, 120);
    assert_eq!(b.canvas.height, 23);
    assert_eq!(b.base, (120, 23));
    assert_eq!(b.canvas.cells.len(), 120 * 23);
    // the terminal is held against the resolved width, not the requested one
    assert!(BootLoop::new(s, "slow", "slow", String::new(), None, None, (120, 50), 7).is_some());
    assert!(BootLoop::new(s, "slow", "slow", String::new(), None, None, (119, 50), 7).is_none());
}

#[test]
fn a_small_request_is_raised_to_the_bounds_at_the_start() {
    let mut s = settings(RenderMode::Ascii);
    s.width = Some(4);
    s.height = Some(2);
    let b = BootLoop::new(s, "slow", "slow", String::new(), None, None, (80, 24), 7).unwrap();
    assert_eq!((b.canvas.width, b.canvas.height), (10, 5));
    s.width = None;
    s.height = None;
    s.min_size = (70, 30);
    let b = BootLoop::new(s, "slow", "slow", String::new(), None, None, (80, 24), 7).unwrap();
    assert_eq!((b.canvas.width, b.canvas.height), (70, 30));
}

#[test]
fn the_image_row_counts_before_the_bounds() {
    let mut s = settings(RenderMode::Image);
    s.height = Some(40);
    let image = Some(b"foo".to_vec());
    let b = BootLoop::new(s, "slow", "slow", String::new(), None, image.clone(), (80, 24), 7)
        .unwrap();
    assert_eq!((b.canvas.width, b.canvas.height), (30, 40));
    s.height = Some(20);
    let b = BootLoop::new(s, "slow", "slow", String::new(), None, image, (80, 24), 7).unwrap();
    assert_eq!((b.canvas.width, b.canvas.height), (30, 21));
}

#[test]
fn new_loop_has_the_scene_of_its_box() {
    let grey = Rgb { r: 9, g: 9, b: 9 };
    let cells: Vec<BgCell> = (0..28 * 4)
        .map(|_| BgCell { glyph: '▀', base: grey, fg: grey, bg: None, star: false })
        .collect();
    let b = BootLoop::new(
        settings(RenderMode::Ascii),
        "slow",
        "slow",
        String::new(),
        Some(cells.clone()),
        None,
        (80, 24),
        7,
    )
    .unwrap();
    let scene = blaeckfetch::scene::Scene::new(30, 10, Some(cells.clone()), 7);
    assert_eq!(b.scene.background, Some(cells));
    assert_eq!(b.scene.stars, scene.stars);
    assert_eq!(b.scene.rng.state, scene.rng.state);
    assert!(!b.scene.stars.is_empty());
    let other = boot(RenderMode::Ascii, "slow", "slow");
    assert_eq!(other.scene.background, None);
    assert_eq!(other.scene.stars, scene.stars);
}

#[test]
fn resize_makes_the_scene_of_the_new_box_and_keeps_the_settings() {
    let mut b = boot(RenderMode::Ascii, "fast", "fast");
    b.frame();
    b.frame();
    let timeline = b.timeline;
    b.resize((60, 20), None);
    let scene = blaeckfetch::scene::Scene::new(b.canvas.width, b.canvas.height, None, 7);
    assert_eq!(b.scene.stars, scene.stars);
    assert_eq!(b.scene.rng.state, scene.rng.state);
    assert_eq!(b.timeline, timeline);
    assert_eq!(b.base, (30, 10));
    assert_eq!(b.min_size, (10, 5));
    assert_eq!(b.max_size, (120, 40));
    assert_eq!(b.align, Align::Left);
    assert!(!b.capture);
    assert_eq!(b.timeout_ms, 5000);
    assert_eq!(b.seed, 7);
    assert_eq!(b.term, (60, 20));
    assert_eq!(b.status, "status");
}

#[test]
fn an_early_key_shows_the_whole_border_during_the_flash() {
    let mut b = boot(RenderMode::Ascii, "slow", "slow");
    for n in 0..3 {
        assert!(b.begin_frame(n * FRAME_MS, false));
        b.frame();
    }
    assert_eq!(b.timeline.phase, Phase::Entrance);
    assert_eq!(b.timeline.border_progress(), Progress { num: 3, den: 18 });
    assert!(b.begin_frame(3 * FRAME_MS, true));
    assert_eq!(b.timeline.phase, Phase::Freeze);
    assert!(b.timeline.is_freeze_flash());
    assert_eq!(value(b.timeline.border_progress()), 1.0);
    b.frame();
    let w = b.canvas.width;
    let h = b.canvas.height;
    assert_eq!(b.canvas.get(0, 0).unwrap().glyph, '╭');
    assert_eq!(b.canvas.get(w - 1, 0).unwrap().glyph, '╮');
    assert_eq!(b.canvas.get(0, h - 1).unwrap().glyph, '╰');
    assert_eq!(b.canvas.get(w - 1, h - 1).unwrap().glyph, '╯');
    for x in 1..w - 1 {
        assert_eq!(b.canvas.get(x, 0).unwrap().glyph, '─');
        assert_eq!(b.canvas.get(x, h - 1).unwrap().glyph, '─');
    }
    for y in 1..h - 1 {
        let left = b.canvas.get(0, y).unwrap().glyph;
        assert!(left == '│' || left == '├', "row {}", y);
    }
}

#[test]
fn resize_keeps_the_background() {
    let grey = Rgb { r: 9, g: 9, b: 9 };
    let cells: Vec<BgCell> = (0..28 * 4)
        .map(|_| BgCell { glyph: '▀', base: grey, fg: grey, bg: None, star: false })
        .collect();
    let mut b = BootLoop::new(
        settings(RenderMode::Ascii),
        "instant",
        "fast",
        String::new(),
        Some(cells.clone()),
        None,
        (80, 24),
        7,
    )
    .unwrap();
    b.resize((60, 20), None);
    assert_eq!(b.scene.background, Some(cells));
    b.frame();
    assert_eq!(b.canvas.get(1, 3).unwrap().glyph, '▀');
}

#[test]
fn image_goes_on_screen_once() {
    let mut b = image_boot("fast", "fast");
    b.place(Some(24));
    assert_eq!(b.origin_row, 14);
    assert!(b.begin_frame(0, false));
    let first = b.frame();
    let image = image_sequence(b"foo", 28, 5, 17, 3);
    assert_eq!(
        image,
        "\x1b[17;3H\x1b]1337;File=inline=1;width=28;height=5;preserveAspectRatio=0:Zm9v\x07"
    );
    assert_eq!(first, format!("{}{}", image, b.canvas.render(14, 2)));
    assert!(b.image_emitted);
    assert_eq!(b.canvas.mask, Some(Region { x0: 1, y0: 3, x1: 29, y1: 8 }));
    assert!(b.canvas.get(1, 3).unwrap().protected);
    assert!(b.canvas.get(28, 7).unwrap().protected);
    assert!(!b.canvas.get(0, 3).unwrap().protected);
    assert!(!b.canvas.get(1, 8).unwrap().protected);
    for n in 1..20 {
        assert!(b.begin_frame(n, false));
        let out = b.frame();
        assert!(!out.contains("1337"));
        assert_eq!(out, b.canvas.render(14, 2));
        assert!(b.canvas.get(5, 5).unwrap().protected);
    }
}

#[test]
fn image_pixels_fill_the_image_region() {
    let b = image_boot("fast", "fast");
    assert_eq!(b.image_pixels((8, 16)), (28 * 8, 5 * 16));
    assert_eq!(b.image_pixels((10, 20)), (280, 100));
    let b = boot(RenderMode::Ascii, "fast", "fast");
    assert_eq!(b.image_pixels((8, 16)), (28 * 8, 4 * 16));
}

#[test]
fn image_goes_on_screen_again_after_a_resize() {
    let mut b = image_boot("fast", "fast");
    b.frame();
    assert!(b.image_emitted);
    b.resize((60, 30), Some((40, 12)));
    assert!(!b.image_emitted);
    assert_eq!((b.canvas.width, b.canvas.height), (40, 13));
    assert!(b.canvas.mask.is_none());
    assert_eq!(b.image_pixels((8, 16)), (38 * 8, 7 * 16));
    b.set_image(b"foobar".to_vec());
    let out = b.frame();
    assert!(out.starts_with(
        "\x1b[4;3H\x1b]1337;File=inline=1;width=38;height=7;preserveAspectRatio=0:Zm9vYmFy\x07"
    ));
    assert!(b.image_emitted);
}

#[test]
fn set_image_needs_an_image_to_replace() {
    let mut b = boot(RenderMode::Ascii, "fast", "fast");
    b.set_image(b"foo".to_vec());
    assert!(b.image.is_none());
    let mut b = image_boot("fast", "fast");
    b.set_image(b"bar".to_vec());
    assert_eq!(b.image, Some(b"bar".to_vec()));
}

#[test]
fn collapse_wipes_the_image_from_the_bottom() {
    let mut b = image_boot("instant", "slow");
    b.place(Some(24));
    let mut n = 0;
    let mut protected_rows: Vec<usize> = Vec::new();
    loop {
        if !b.begin_frame(n, n == 3) {
            break;
        }
        b.frame();
        let rows = (0..b.canvas.height)
            .filter(|y| b.canvas.get(5, *y).unwrap().protected)
            .count();
        protected_rows.push(rows);
        n += 1;
    }
    // five rows of image until the collapse; none at its end
    assert_eq!(protected_rows[0], 5);
    assert_eq!(*protected_rows.last().unwrap(), 0);
    for pair in protected_rows.windows(2) {
        assert!(pair[1] <= pair[0]);
    }
    assert!(b.canvas.cells.iter().all(|c| !c.protected));
    let grid: Vec<String> = (0..b.canvas.height)
        .map(|y| (0..b.canvas.width).map(|x| b.canvas.get(x, y).unwrap().glyph).collect())
        .collect();
    assert_eq!(grid[0], "╭────────────────────────────╮");
    assert_eq!(grid[1], "│ status                     │");
    assert_eq!(grid[2], "╰────────────────────────────╯");
    for row in &grid[3..] {
        assert_eq!(*row, " ".repeat(30));
    }
}

#[test]
fn finish_cleans_up_under_the_collapsed_frame() {
    let mut b = boot(RenderMode::Ascii, "instant", "instant");
    b.place(Some(24));
    run(&mut b, Some(2));
    let out = b.finish();
    let expected = format!("{}\x1b[?25h\x1b[18;1H", erase_rows(18, 25));
    assert_eq!(out, expected);
    assert_eq!(out.matches("\x1b[2K").count(), 7);
}

#[test]
fn finish_releases_the_image_region() {
    let mut b = image_boot("fast", "fast");
    b.frame();
    assert!(b.canvas.mask.is_some());
    let out = b.finish();
    assert!(b.canvas.mask.is_none());
    assert!(b.canvas.cells.iter().all(|c| !c.protected));
    assert!(out.ends_with("\x1b[?25h\x1b[4;1H"));
}

#[test]
fn frame_counter_that_is_full_stays() {
    let mut b = boot(RenderMode::Ascii, "fast", "fast");
    b.timeline.frame = u32::MAX - 1;
    b.timeline.phase = Phase::Alive;
    b.frame();
    assert_eq!(b.timeline.frame, u32::MAX);
    b.frame();
    assert_eq!(b.timeline.frame, u32::MAX);
    assert_eq!(b.timeline.phase, Phase::Alive);
}

/// Whether the text holds a cursor-position sequence, `ESC [ row ; col H`.
fn addresses_the_cursor(text: &str) -> bool {
    let bytes = text.as_bytes();
    let mut i = 0;
    while i + 1 < bytes.len() {
        if bytes[i] == 0x1b && bytes[i + 1] == b'[' {
            let mut j = i + 2;
            while j < bytes.len() && (bytes[j].is_ascii_digit() || bytes[j] == b';') {
                j += 1;
            }
            if j < bytes.len() && (bytes[j] == b'H' || bytes[j] == b'f') {
                return true;
            }
        }
        i += 1;
    }
    false
}

#[test]
fn captured_frames_never_address_the_cursor() {
    let mut b = boot(RenderMode::Inline, "fast", "fast");
    assert_eq!(b.place(Some(24)), "");
    let mut n: u64 = 0;
    loop {
        if !b.begin_frame(n * FRAME_MS, n == 3) {
            break;
        }
        let out = b.frame();
        assert_eq!(out, b.canvas.render_inline());
        assert!(!addresses_the_cursor(&out), "frame {}", n);
        assert_eq!(out.matches('\n').count(), 10);
        n += 1;
    }
    assert_eq!(b.timeline.phase, Phase::Done);
    let out = b.finish();
    assert_eq!(out, SHOW_CURSOR);
    assert!(!addresses_the_cursor(&out));
}

#[test]
fn live_frames_address_the_cursor_once_for_every_row() {
    let mut b = boot(RenderMode::Ascii, "fast", "fast");
    b.place(Some(24));
    assert!(b.begin_frame(0, false));
    let out = b.frame();
    assert!(addresses_the_cursor(&out));
    assert_eq!(out.matches('H').count(), 10);
    assert!(!out.contains('\n'));
}

#[test]
fn captured_output_follows_no_resize() {
    let mut b = boot(RenderMode::Inline, "fast", "fast");
    b.frame();
    let cells = b.canvas.cells.clone();
    let stars = b.scene.stars.clone();
    let out = b.resize((200, 60), None);
    assert_eq!(out, "");
    assert_eq!((b.canvas.width, b.canvas.height), (30, 10));
    assert_eq!(b.term, (80, 24));
    assert_eq!((b.origin_row, b.origin_col), (1, 1));
    assert_eq!(b.canvas.cells, cells);
    assert_eq!(b.scene.stars, stars);
    assert!(b.is_valid());
}

#[test]
fn captured_output_with_an_image_is_not_well_formed() {
    let mut b = boot(RenderMode::Inline, "fast", "fast");
    assert!(b.is_valid());
    assert_eq!(b.image, None);
    b.image = Some(b"foo".to_vec());
    assert!(!b.is_valid());
    let mut b = image_boot("fast", "fast");
    assert!(b.is_valid());
    b.capture = true;
    assert!(!b.is_valid());
}

#[test]
fn background_is_replaced_after_a_resize() {
    let grey = Rgb { r: 9, g: 9, b: 9 };
    let white = Rgb { r: 250, g: 250, b: 250 };
    let cells = |n: usize, c: Rgb| -> Vec<BgCell> {
        (0..n).map(|_| BgCell { glyph: '▀', base: c, fg: c, bg: None, star: false }).collect()
    };
    let mut b = BootLoop::new(
        settings(RenderMode::Ascii),
        "instant",
        "fast",
        String::new(),
        Some(cells(28 * 4, grey)),
        None,
        (80, 24),
        7,
    )
    .unwrap();
    assert_eq!(b.background_size(), (28, 4));
    b.resize((21, 9), None);
    assert_eq!((b.canvas.width, b.canvas.height), (20, 8));
    assert_eq!(b.background_size(), (18, 2));
    b.set_background(cells(18 * 2, white));
    assert_eq!(b.scene.background, Some(cells(18 * 2, white)));
    assert!(b.is_valid());
    b.frame();
    assert_eq!(b.canvas.get(1, 3).unwrap().foreground, white);
    assert_eq!(b.canvas.get(18, 4).unwrap().foreground, white);
    // without a background there is none to replace
    let mut plain = boot(RenderMode::Ascii, "instant", "fast");
    plain.set_background(cells(4, white));
    assert_eq!(plain.scene.background, None);
    assert_eq!(boot(RenderMode::Ascii, "fast", "fast").background_size(), (28, 4));
    let mut tiny = settings(RenderMode::Ascii);
    tiny.width = Some(1);
    tiny.height = Some(1);
    tiny.min_size = (0, 0);
    let tiny = BootLoop::new(tiny, "fast", "fast", String::new(), None, None, (80, 24), 7).unwrap();
    assert_eq!(tiny.background_size(), (0, 0));
}
