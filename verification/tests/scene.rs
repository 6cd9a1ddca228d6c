use blaeckfetch::background::{self, half_block_of, half_blocks, BgCell};
use blaeckfetch::border::{
    border_color, bottom_row, draw_border, draw_collapsing_outline,
};
use blaeckfetch::canvas::{Canvas, Cell, Region, Rgb};
use blaeckfetch::celestial::{
    draw_disc, draw_earth, draw_moon, earth, earth_color, moon, moon_color, Disc, EARTH_GLYPH,
    MOON_GLYPH,
};
use blaeckfetch::progress::Progress;
use blaeckfetch::rng::Rng;
use blaeckfetch::scene::{
    draw_collapsed_frame, paint_collapse, paint_frame, paint_scenery, star_region, Scene,
};
use blaeckfetch::starfield::{self, Star};
use blaeckfetch::status::{self, draw_footer, footer_color, footer_text, status_color};
use blaeckfetch::timeline::{Phase, Timeline};

const GREY: Rgb = Rgb { r: 9, g: 9, b: 9 };

fn half() -> Progress {
    Progress { num: 1, den: 2 }
}

fn row(c: &Canvas, y: u16) -> String {
    (0..c.width).map(|x| c.get(x, y).unwrap().glyph).collect()
}

fn rows(c: &Canvas) -> Vec<String> {
    (0..c.height).map(|y| row(c, y)).collect()
}

fn xorshift(mut x: u32) -> u32 {
    x ^= x << 13;
    x ^= x >> 17;
    x ^= x << 5;
    x
}

fn ticked(entrance: &str, exit: &str, ticks: u32) -> Timeline {
    let mut t = Timeline::new(entrance, exit);
    for _ in 0..ticks {
        t.tick();
    }
    t
}

#[test]
fn generator_is_a_xorshift() {
    let mut rng = Rng::new(1);
    assert_eq!(rng.state, 1);
    assert_eq!(rng.next_u32(), 270369);
    assert_eq!(rng.state, 270369);
    let mut expected = 270369u32;
    for _ in 0..1000 {
        expected = xorshift(expected);
        assert_eq!(rng.next_u32(), expected);
    }
}

#[test]
fn generator_is_fixed_by_its_seed() {
    let mut a = Rng::new(12345);
    let mut b = Rng::new(12345);
    let mut c = Rng::new(12346);
    let from_a: Vec<u32> = (0..50).map(|_| a.next_u32()).collect();
    let from_b: Vec<u32> = (0..50).map(|_| b.next_u32()).collect();
    let from_c: Vec<u32> = (0..50).map(|_| c.next_u32()).collect();
    assert_eq!(from_a, from_b);
    assert_ne!(from_a, from_c);
}

#[test]
fn zero_seed_is_replaced() {
    let mut rng = Rng::new(0);
    assert_eq!(rng.state, 0x9E37_79B9);
    assert_ne!(rng.next_u32(), 0);
}

#[test]
fn below_stays_below_its_bound() {
    let mut rng = Rng::new(7);
    let mut twin = Rng::new(7);
    for bound in [1u32, 2, 3, 10, 256, 65535, u32::MAX] {
        for _ in 0..20 {
            let r = rng.below(bound);
            assert!(r < bound);
            assert_eq!(r, twin.next_u32() % bound);
        }
    }
}

#[test]
fn border_outline_with_separators() {
    let mut c = Canvas::new(6, 7);
    draw_border(&mut c, GREY, Progress::one());
    assert_eq!(
        rows(&c),
        ["╭────╮", "│    │", "├────┤", "│    │", "├────┤", "│    │", "╰────╯"]
    );
    assert_eq!(c.get(0, 0).unwrap().foreground, GREY);
    assert_eq!(c.get(0, 0).unwrap().background, None);
    assert_eq!(c.get(2, 1), Some(Cell::blank()));
}

#[test]
fn border_of_a_low_box_has_no_separators() {
    let mut c = Canvas::new(4, 5);
    draw_border(&mut c, GREY, Progress::one());
    assert_eq!(rows(&c), ["╭──╮", "│  │", "│  │", "│  │", "╰──╯"]);
    let mut c = Canvas::new(4, 6);
    draw_border(&mut c, GREY, Progress::one());
    assert_eq!(rows(&c), ["╭──╮", "│  │", "├──┤", "├──┤", "│  │", "╰──╯"]);
}

#[test]
fn border_is_revealed_from_the_left() {
    let mut c = Canvas::new(6, 7);
    draw_border(&mut c, GREY, half());
    assert_eq!(
        rows(&c),
        ["╭──   ", "│     ", "├──   ", "│     ", "├──   ", "│     ", "╰──   "]
    );
    let mut c = Canvas::new(6, 7);
    draw_border(&mut c, GREY, Progress::zero());
    assert!(c.cells.iter().all(|cell| *cell == Cell::blank()));
    let mut c = Canvas::new(6, 7);
    draw_border(&mut c, GREY, Progress { num: 5, den: 6 });
    assert_eq!(row(&c, 0), "╭──── ");
    assert_eq!(row(&c, 1), "│     ");
}

#[test]
fn border_leaves_the_inside_alone() {
    let mut c = Canvas::new(6, 7);
    c.set(2, 3, 'x', GREY, None);
    c.set(0, 3, 'y', GREY, None);
    draw_border(&mut c, border_color(), Progress::one());
    assert_eq!(c.get(2, 3).unwrap().glyph, 'x');
    assert_eq!(c.get(0, 3).unwrap().glyph, '│');
    assert_eq!(border_color(), Rgb { r: 100, g: 100, b: 120 });
}

#[test]
fn bottom_border_slides_up() {
    assert_eq!(bottom_row(23, Progress::zero()), 22);
    assert_eq!(bottom_row(23, Progress::one()), 2);
    assert_eq!(bottom_row(23, half()), 12);
    assert_eq!(bottom_row(23, Progress { num: 1, den: 625 }), 22);
    assert_eq!(bottom_row(23, Progress { num: 256, den: 625 }), 14);
    assert_eq!(bottom_row(7, half()), 4);
    // boxes too low to collapse
    assert_eq!(bottom_row(3, Progress::zero()), 2);
    assert_eq!(bottom_row(3, Progress::one()), 2);
    assert_eq!(bottom_row(2, Progress::zero()), 2);
    assert_eq!(bottom_row(0, half()), 2);
    assert_eq!(bottom_row(u16::MAX, Progress::zero()), u16::MAX - 1);
    assert_eq!(bottom_row(u16::MAX, Progress::one()), 2);
}

#[test]
fn bottom_border_never_moves_down() {
    let mut t = Timeline::new("instant", "slow");
    t.tick();
    t.trigger_freeze();
    let mut last = bottom_row(23, t.collapse_progress());
    assert_eq!(last, 22);
    while !t.is_done() {
        t.tick();
        let now = bottom_row(23, t.collapse_progress());
        assert!(now <= last);
        last = now;
    }
    assert_eq!(last, 2);
}

#[test]
fn collapsing_outline_wipes_under_the_bottom_border() {
    let mut c = Canvas::new(6, 7);
    for y in 0..7 {
        c.put_str(0, y, "zzzzzz", GREY, None);
    }
    draw_collapsing_outline(&mut c, GREY, half());
    assert_eq!(
        rows(&c),
        ["╭────╮", "│zzzz│", "│zzzz│", "│zzzz│", "╰────╯", "      ", "      "]
    );
    assert_eq!(c.get(0, 5), Some(Cell::blank()));
    assert_eq!(c.get(5, 6), Some(Cell::blank()));
}

#[test]
fn collapsing_outline_at_start_and_end() {
    let mut c = Canvas::new(6, 7);
    draw_collapsing_outline(&mut c, GREY, Progress::zero());
    assert_eq!(
        rows(&c),
        ["╭────╮", "│    │", "│    │", "│    │", "│    │", "│    │", "╰────╯"]
    );
    let mut c = Canvas::new(6, 7);
    c.put_str(0, 5, "zzzzzz", GREY, None);
    draw_collapsing_outline(&mut c, GREY, Progress::one());
    assert_eq!(
        rows(&c),
        ["╭────╮", "│    │", "╰────╯", "      ", "      ", "      ", "      "]
    );
}

#[test]
fn collapsing_outline_of_boxes_too_low_to_collapse() {
    let mut c = Canvas::new(4, 3);
    draw_collapsing_outline(&mut c, GREY, half());
    assert_eq!(rows(&c), ["╭──╮", "│  │", "╰──╯"]);
    let mut c = Canvas::new(4, 2);
    draw_collapsing_outline(&mut c, GREY, half());
    assert_eq!(rows(&c), ["╭──╮", "│  │"]);
    let mut c = Canvas::new(4, 1);
    draw_collapsing_outline(&mut c, GREY, half());
    assert_eq!(rows(&c), ["╭──╮"]);
}

#[test]
fn collapsed_frame_shows_the_whole_status() {
    let mut c = Canvas::new(16, 7);
    draw_collapsed_frame(&mut c, "up 3 days", Progress::one());
    assert_eq!(
        rows(&c),
        [
            "╭──────────────╮",
            "│ up 3 days    │",
            "╰──────────────╯",
            "                ",
            "                ",
            "                ",
            "                ",
        ]
    );
    assert_eq!(c.get(2, 1).unwrap().foreground, status_color());
    assert_eq!(c.get(0, 1).unwrap().foreground, border_color());
}

#[test]
fn status_is_revealed_from_its_start() {
    let mut c = Canvas::new(20, 3);
    status::draw(&mut c, "hello world", 1, GREY, Progress::one());
    assert_eq!(row(&c, 1), "  hello world       ");
    let mut c = Canvas::new(20, 3);
    status::draw(&mut c, "hello world", 1, GREY, half());
    assert_eq!(row(&c, 1), "  hello             ");
    let mut c = Canvas::new(20, 3);
    status::draw(&mut c, "hello world", 1, GREY, Progress { num: 1, den: 12 });
    assert_eq!(row(&c, 1), "                    ");
    let mut c = Canvas::new(20, 3);
    status::draw(&mut c, "hello world", 1, GREY, Progress::zero());
    assert_eq!(row(&c, 1), "                    ");
    assert_eq!(row(&c, 0), "                    ");
}

#[test]
fn status_is_cut_between_the_borders() {
    let mut c = Canvas::new(12, 3);
    status::draw(&mut c, "hello world", 1, GREY, Progress::one());
    assert_eq!(row(&c, 1), "  hello wo  ");
    let mut c = Canvas::new(4, 3);
    status::draw(&mut c, "hello world", 1, GREY, Progress::one());
    assert_eq!(row(&c, 1), "    ");
    let mut c = Canvas::new(3, 3);
    status::draw(&mut c, "hello world", 1, GREY, Progress::one());
    assert_eq!(row(&c, 1), "   ");
    let mut c = Canvas::new(12, 3);
    status::draw(&mut c, "héllo ✓ wörld", 1, GREY, Progress::one());
    assert_eq!(row(&c, 1), "  héllo ✓   ");
}

#[test]
fn footer_text_by_phase() {
    assert_eq!(footer_text(Phase::Entrance), "press any key to start");
    assert_eq!(footer_text(Phase::Alive), "press any key to start");
    assert_eq!(footer_text(Phase::Freeze), "ready");
    assert_eq!(footer_text(Phase::Done), "press any key to start");
    assert_eq!(footer_color(), Rgb { r: 140, g: 140, b: 140 });
    assert_eq!(status_color(), Rgb { r: 140, g: 140, b: 140 });
}

#[test]
fn footer_is_centred_over_the_bottom_border() {
    let mut c = Canvas::new(30, 5);
    draw_footer(&mut c, Phase::Alive, GREY);
    assert_eq!(row(&c, 3), "    press any key to start    ");
    assert_eq!(row(&c, 4), " ".repeat(30));
    let mut c = Canvas::new(30, 5);
    draw_footer(&mut c, Phase::Freeze, GREY);
    assert_eq!(row(&c, 3), "            ready             ");
    let mut c = Canvas::new(68, 23);
    draw_footer(&mut c, Phase::Entrance, GREY);
    assert_eq!(c.get(22, 21).unwrap().glyph, ' ');
    assert_eq!(c.get(23, 21).unwrap().glyph, 'p');
    assert_eq!(c.get(44, 21).unwrap().glyph, 't');
    assert_eq!(c.get(45, 21).unwrap().glyph, ' ');
}

#[test]
fn footer_in_boxes_too_small_for_it() {
    let mut c = Canvas::new(10, 5);
    draw_footer(&mut c, Phase::Alive, GREY);
    assert_eq!(row(&c, 3), "press any ");
    let mut c = Canvas::new(10, 1);
    draw_footer(&mut c, Phase::Alive, GREY);
    assert_eq!(row(&c, 0), "          ");
    let mut c = Canvas::new(10, 2);
    draw_footer(&mut c, Phase::Freeze, GREY);
    assert_eq!(row(&c, 0), "  ready   ");
}

#[test]
fn starfield_is_fixed_by_the_seed() {
    let region = Region { x0: 1, y0: 3, x1: 67, y1: 20 };
    let mut a = Rng::new(99);
    let mut b = Rng::new(99);
    let stars_a = starfield::generate(region, 20, &mut a);
    let stars_b = starfield::generate(region, 20, &mut b);
    assert_eq!(stars_a, stars_b);
    assert_eq!(a.state, b.state);
    // 66 * 17 cells, 20 per thousand
    assert_eq!(stars_a.len(), 22);
    for s in &stars_a {
        assert!(region.holds(s.x as usize, s.y as usize));
    }
    let mut c = Rng::new(100);
    assert_ne!(starfield::generate(region, 20, &mut c), stars_a);
}

#[test]
fn stars_take_three_draws_each() {
    let region = Region { x0: 2, y0: 5, x1: 12, y1: 9 };
    let mut rng = Rng::new(4242);
    let stars = starfield::generate(region, 500, &mut rng);
    assert_eq!(stars.len(), 20);
    let mut state = 4242u32;
    for star in &stars {
        state = xorshift(state);
        let x = 2 + (state % 10) as u16;
        state = xorshift(state);
        let y = 5 + (state % 4) as u16;
        state = xorshift(state);
        let brightness = (state % 256) as u8;
        assert_eq!(*star, Star { x, y, brightness });
    }
    assert_eq!(rng.state, state);
}

#[test]
fn star_counts() {
    let mut rng = Rng::new(1);
    let full = Region { x0: 0, y0: 0, x1: 10, y1: 10 };
    assert_eq!(starfield::generate(full, 1000, &mut rng).len(), 100);
    assert_eq!(starfield::generate(full, 0, &mut rng).len(), 0);
    assert_eq!(starfield::generate(full, 9, &mut rng).len(), 0);
    assert_eq!(starfield::generate(full, 10, &mut rng).len(), 1);
    let before = rng.state;
    assert_eq!(starfield::generate(Region { x0: 5, y0: 0, x1: 5, y1: 10 }, 1000, &mut rng).len(), 0);
    assert_eq!(starfield::generate(Region { x0: 6, y0: 0, x1: 5, y1: 10 }, 1000, &mut rng).len(), 0);
    assert_eq!(starfield::generate(Region { x0: 0, y0: 3, x1: 5, y1: 3 }, 1000, &mut rng).len(), 0);
    assert_eq!(rng.state, before);
}

#[test]
fn twinkle_changes_one_star_in_eight() {
    let mut stars: Vec<Star> = (0..200).map(|i| Star { x: i, y: 1, brightness: 10 }).collect();
    let mut rng = Rng::new(555);
    starfield::twinkle(&mut stars, &mut rng);
    let mut state = 555u32;
    let mut changed = 0;
    for (i, star) in stars.iter().enumerate() {
        state = xorshift(state);
        let expected = if state % 8 == 0 { 64 + ((state >> 8) % 192) as u8 } else { 10 };
        assert_eq!(*star, Star { x: i as u16, y: 1, brightness: expected });
        if state % 8 == 0 {
            changed += 1;
            assert!(star.brightness >= 64);
        }
    }
    assert!(changed > 0);
    assert!(changed < 200);
    assert_eq!(rng.state, state);
}

#[test]
fn flash_brings_every_star_to_full_brightness() {
    let mut stars = vec![
        Star { x: 1, y: 2, brightness: 0 },
        Star { x: 3, y: 4, brightness: 100 },
        Star { x: 5, y: 6, brightness: 255 },
    ];
    starfield::flash_all(&mut stars);
    assert_eq!(
        stars,
        [
            Star { x: 1, y: 2, brightness: 255 },
            Star { x: 3, y: 4, brightness: 255 },
            Star { x: 5, y: 6, brightness: 255 },
        ]
    );
    let mut none: Vec<Star> = Vec::new();
    starfield::flash_all(&mut none);
    assert!(none.is_empty());
}

#[test]
fn stars_are_drawn_by_brightness() {
    let stars = vec![
        Star { x: 0, y: 0, brightness: 255 },
        Star { x: 1, y: 0, brightness: 192 },
        Star { x: 2, y: 0, brightness: 191 },
        Star { x: 3, y: 0, brightness: 96 },
        Star { x: 4, y: 0, brightness: 95 },
        Star { x: 5, y: 0, brightness: 1 },
        Star { x: 6, y: 0, brightness: 0 },
        Star { x: 99, y: 0, brightness: 255 },
    ];
    let mut c = Canvas::new(8, 1);
    starfield::draw(&mut c, &stars, Progress::one());
    assert_eq!(row(&c, 0), "**++..  ");
    assert_eq!(c.get(0, 0).unwrap().foreground, Rgb { r: 255, g: 255, b: 255 });
    assert_eq!(c.get(3, 0).unwrap().foreground, Rgb { r: 96, g: 96, b: 96 });
    assert_eq!(c.get(5, 0).unwrap().foreground, Rgb { r: 1, g: 1, b: 1 });
    assert_eq!(c.get(6, 0), Some(Cell::blank()));
}

#[test]
fn stars_fade_with_the_visibility() {
    let stars = vec![
        Star { x: 0, y: 0, brightness: 255 },
        Star { x: 1, y: 0, brightness: 192 },
        Star { x: 2, y: 0, brightness: 1 },
    ];
    let mut c = Canvas::new(3, 1);
    starfield::draw(&mut c, &stars, half());
    assert_eq!(row(&c, 0), "++ ");
    assert_eq!(c.get(0, 0).unwrap().foreground, Rgb { r: 127, g: 127, b: 127 });
    assert_eq!(c.get(1, 0).unwrap().foreground, Rgb { r: 96, g: 96, b: 96 });
    let mut c = Canvas::new(3, 1);
    starfield::draw(&mut c, &stars, Progress::zero());
    assert_eq!(row(&c, 0), "   ");
}

#[test]
fn later_stars_are_drawn_over_earlier_ones() {
    let stars = vec![Star { x: 1, y: 0, brightness: 255 }, Star { x: 1, y: 0, brightness: 10 }];
    let mut c = Canvas::new(3, 1);
    starfield::draw(&mut c, &stars, Progress::one());
    assert_eq!(row(&c, 0), " . ");
}

#[test]
fn disc_covers_the_cells_whose_middle_it_holds() {
    let disc = Disc { cx: 250, cy: 250, radius: 100 };
    let mut c = Canvas::new(6, 5);
    draw_disc(&mut c, &disc, 'o', GREY);
    assert_eq!(rows(&c), ["      ", "  o   ", "ooooo ", "  o   ", "      "]);
    assert!(disc.holds(2, 2));
    assert!(disc.holds(4, 2));
    assert!(!disc.holds(5, 2));
    assert!(disc.holds(2, 3));
    assert!(!disc.holds(3, 3));
    assert!(!disc.holds(2, 4));
}

#[test]
fn disc_without_radius_and_off_the_grid() {
    let mut c = Canvas::new(4, 4);
    draw_disc(&mut c, &Disc { cx: 200, cy: 200, radius: 0 }, 'o', GREY);
    assert!(c.cells.iter().all(|cell| *cell == Cell::blank()));
    draw_disc(&mut c, &Disc { cx: 150, cy: 150, radius: 0 }, 'o', GREY);
    assert_eq!(rows(&c), ["    ", " o  ", "    ", "    "]);
    let mut c = Canvas::new(4, 4);
    draw_disc(&mut c, &Disc { cx: -5000, cy: -5000, radius: 100 }, 'o', GREY);
    draw_disc(&mut c, &Disc { cx: 7_000_000, cy: 7_000_000, radius: 2_000_000 }, 'o', GREY);
    assert!(c.cells.iter().all(|cell| *cell == Cell::blank()));
    draw_disc(&mut c, &Disc { cx: 0, cy: 0, radius: 2_000_000 }, 'o', GREY);
    assert!(c.cells.iter().all(|cell| cell.glyph == 'o'));
}

#[test]
fn earth_and_moon_follow_the_box() {
    assert_eq!(earth(68, 23), Disc { cx: 5400, cy: 1380, radius: 598 });
    assert_eq!(moon(68, 23), Disc { cx: 1020, cy: 598, radius: 253 });
    assert_eq!(earth(0, 0), Disc { cx: 0, cy: 0, radius: 0 });
    assert_eq!(earth(34, 10), Disc { cx: 2700, cy: 600, radius: 260 });
    assert_eq!(earth(136, 46), Disc { cx: 10800, cy: 2760, radius: 1196 });
    assert_eq!(earth(100, 23), Disc { cx: 7941, cy: 1380, radius: 598 });
    assert_eq!(
        earth(u16::MAX, u16::MAX),
        Disc { cx: 5204250, cy: 3932100, radius: 1703910 }
    );
    assert_eq!(moon(u16::MAX, u16::MAX), Disc { cx: 983025, cy: 1703910, radius: 720885 });
}

#[test]
fn earth_sits_low_on_the_right_and_moon_high_on_the_left() {
    let mut c = Canvas::new(68, 23);
    draw_earth(&mut c);
    draw_moon(&mut c);
    let earth_cell = c.get(53, 13).unwrap();
    assert_eq!(earth_cell.glyph, EARTH_GLYPH);
    assert_eq!(earth_cell.foreground, earth_color());
    let moon_cell = c.get(10, 5).unwrap();
    assert_eq!(moon_cell.glyph, MOON_GLYPH);
    assert_eq!(moon_cell.foreground, moon_color());
    assert_eq!(c.get(30, 10), Some(Cell::blank()));
    assert_eq!(c.get(0, 0), Some(Cell::blank()));
    for y in 0..23 {
        for x in 0..68 {
            let cell = c.get(x, y).unwrap();
            if cell.glyph == EARTH_GLYPH {
                assert!(x > 34 && y > 7);
            }
            if cell.glyph == MOON_GLYPH {
                assert!(x < 34 && y < 9);
            }
        }
    }
}

#[test]
fn half_block_shows_two_pixels() {
    let top = Rgb { r: 200, g: 100, b: 0 };
    let bottom = Rgb { r: 0, g: 0, b: 90 };
    assert_eq!(
        half_block_of(top, bottom, 0, None),
        BgCell { glyph: '▀', base: top, fg: top, bg: Some(bottom), star: false }
    );
    // the lower pixel is darker than 40 and left out
    assert_eq!(
        half_block_of(top, bottom, 40, None),
        BgCell { glyph: '▀', base: top, fg: top, bg: None, star: false }
    );
    assert_eq!(
        half_block_of(bottom, top, 40, None),
        BgCell { glyph: '▄', base: top, fg: top, bg: None, star: false }
    );
    assert_eq!(
        half_block_of(bottom, bottom, 40, None),
        BgCell { glyph: ' ', base: bottom, fg: bottom, bg: None, star: false }
    );
    assert_eq!(background::brightness(top), 100);
    assert_eq!(background::brightness(bottom), 30);
    assert_eq!(background::brightness(Rgb { r: 255, g: 255, b: 255 }), 255);
    assert_eq!(background::brightness(Rgb { r: 1, g: 1, b: 0 }), 0);
}

#[test]
fn bright_pixels_can_twinkle() {
    let top = Rgb { r: 200, g: 100, b: 0 };
    let bottom = Rgb { r: 0, g: 0, b: 90 };
    assert!(half_block_of(top, bottom, 0, Some(100)).star);
    assert!(half_block_of(bottom, top, 0, Some(100)).star);
    assert!(!half_block_of(top, bottom, 0, Some(101)).star);
    assert!(!half_block_of(top, bottom, 0, None).star);
    assert!(half_block_of(bottom, bottom, 0, Some(0)).star);
}

#[test]
fn half_blocks_pair_the_pixel_rows() {
    let p = |n: u8| Rgb { r: n, g: n, b: n };
    // 3 by 4 pixels: rows of 10s, 20s, 30s, 40s
    let pixels: Vec<Rgb> = (0..12).map(|i| p(10 * (i / 3 + 1) + i % 3)).collect();
    let cells = half_blocks(&pixels, 3, 2, 0, None);
    assert_eq!(cells.len(), 6);
    for (k, cell) in cells.iter().enumerate() {
        let x = (k % 3) as u8;
        let y = (k / 3) as u8;
        assert_eq!(cell.glyph, '▀');
        assert_eq!(cell.fg, p(10 * (2 * y + 1) + x));
        assert_eq!(cell.bg, Some(p(10 * (2 * y + 2) + x)));
    }
    assert!(half_blocks(&Vec::new(), 0, 0, 0, None).is_empty());
    assert!(half_blocks(&Vec::new(), 5, 0, 0, None).is_empty());
    assert!(half_blocks(&Vec::new(), 0, 5, 0, None).is_empty());
}

#[test]
fn background_is_drawn_into_the_scene() {
    let mut c = Canvas::new(5, 8);
    // scene is 3 by 2, from column 1 of row 3
    let cells: Vec<BgCell> = "abcdef"
        .chars()
        .map(|glyph| BgCell { glyph, base: GREY, fg: GREY, bg: Some(GREY), star: false })
        .collect();
    background::draw(&mut c, &cells);
    assert_eq!(
        rows(&c),
        ["     ", "     ", "     ", " abc ", " def ", "     ", "     ", "     "]
    );
    assert_eq!(
        c.get(1, 3),
        Some(Cell { glyph: 'a', foreground: GREY, background: Some(GREY), protected: false })
    );
    // fewer cells than the scene has
    let mut c = Canvas::new(5, 8);
    background::draw(&mut c, &cells[..4].to_vec());
    assert_eq!(row(&c, 3), " abc ");
    assert_eq!(row(&c, 4), " d   ");
    // more cells than the scene has
    let mut c = Canvas::new(5, 7);
    background::draw(&mut c, &cells);
    assert_eq!(rows(&c), ["     ", "     ", "     ", " abc ", "     ", "     ", "     "]);
    let mut c = Canvas::new(5, 5);
    background::draw(&mut c, &cells);
    assert!(c.cells.iter().all(|cell| *cell == Cell::blank()));
}

#[test]
fn background_twinkle_dims_bright_cells() {
    let base = Rgb { r: 255, g: 200, b: 100 };
    let mut cells: Vec<BgCell> = (0..300)
        .map(|i| BgCell { glyph: '▀', base, fg: base, bg: None, star: i % 2 == 0 })
        .collect();
    let mut rng = Rng::new(31337);
    background::twinkle(&mut cells, &mut rng);
    let mut state = 31337u32;
    let mut dimmed = 0;
    for (i, cell) in cells.iter().enumerate() {
        state = xorshift(state);
        assert_eq!(cell.base, base);
        if i % 2 == 0 && state % 6 == 0 {
            let f = 160 + (state >> 8) % 96;
            let dim = |c: u8| (c as u32 * f / 255) as u8;
            assert_eq!(cell.fg, Rgb { r: dim(255), g: dim(200), b: dim(100) });
            assert!(cell.fg.r >= 160);
            dimmed += 1;
        } else {
            assert_eq!(cell.fg, base);
        }
    }
    assert!(dimmed > 0);
    assert_eq!(rng.state, state);
    // a second twinkle starts from the colours the cells came with
    background::twinkle(&mut cells, &mut rng);
    assert!(cells.iter().all(|cell| cell.fg.r >= 160 && cell.base == base));
}

#[test]
fn star_region_of_a_box() {
    assert_eq!(star_region(68, 23), Region { x0: 1, y0: 3, x1: 67, y1: 20 });
    assert_eq!(star_region(68, 24), Region { x0: 1, y0: 3, x1: 67, y1: 21 });
    assert_eq!(star_region(0, 0), Region { x0: 1, y0: 3, x1: 0, y1: 3 });
    assert_eq!(star_region(1, 5), Region { x0: 1, y0: 3, x1: 0, y1: 3 });
    assert_eq!(star_region(2, 6), Region { x0: 1, y0: 3, x1: 1, y1: 3 });
    assert_eq!(star_region(3, 7), Region { x0: 1, y0: 3, x1: 2, y1: 4 });
}

#[test]
fn scene_is_fixed_by_its_seed() {
    let a = Scene::new(68, 23, None, 77);
    let b = Scene::new(68, 23, None, 77);
    let c = Scene::new(68, 23, None, 78);
    assert_eq!(a.stars, b.stars);
    assert_eq!(a.rng.state, b.rng.state);
    assert_ne!(a.stars, c.stars);
    assert_eq!(a.stars.len(), 22);
    assert!(a.background.is_none());
    let region = star_region(68, 23);
    assert!(a.stars.iter().all(|s| region.holds(s.x as usize, s.y as usize)));
    assert!(Scene::new(0, 0, None, 77).stars.is_empty());
}

#[test]
fn frame_of_a_fresh_timeline_shows_nothing_but_the_first_border_column() {
    let t = Timeline::new("slow", "slow");
    let mut scene = Scene::new(20, 9, None, 5);
    let mut c = Canvas::new(20, 9);
    paint_frame(&mut c, &t, &mut scene, "status", false);
    assert!(c.cells.iter().all(|cell| *cell == Cell::blank()));
    let t = ticked("slow", "slow", 1);
    paint_frame(&mut c, &t, &mut scene, "status", false);
    assert_eq!(c.get(0, 0).unwrap().glyph, '╭');
    assert_eq!(c.get(1, 0).unwrap().glyph, ' ');
    assert_eq!(row(&c, 1), "│                   ");
}

#[test]
fn frame_of_an_alive_timeline_is_complete() {
    let t = ticked("fast", "slow", 12);
    assert_eq!(t.phase, Phase::Alive);
    let mut scene = Scene::new(30, 10, None, 5);
    scene.stars = vec![Star { x: 3, y: 4, brightness: 255 }];
    let mut c = Canvas::new(30, 10);
    paint_frame(&mut c, &t, &mut scene, "the status", false);
    assert_eq!(row(&c, 0), "╭────────────────────────────╮");
    assert_eq!(row(&c, 1), "│ the status                 │");
    assert_eq!(row(&c, 2), "├────────────────────────────┤");
    assert_eq!(row(&c, 7), "├────────────────────────────┤");
    assert_eq!(row(&c, 8), "│   press any key to start   │");
    assert_eq!(row(&c, 9), "╰────────────────────────────╯");
    let star = c.get(3, 4).unwrap().glyph;
    assert!(star == '*' || star == '+' || star == '.');
}

#[test]
fn stars_twinkle_only_while_alive() {
    let stars: Vec<Star> = (0..64).map(|i| Star { x: 1 + i % 20, y: 3, brightness: 7 }).collect();
    // entrance: drawn as they are
    let t = ticked("slow", "slow", 9);
    let mut scene = Scene::new(30, 10, None, 5);
    scene.stars = stars.clone();
    let state = scene.rng.state;
    let mut c = Canvas::new(30, 10);
    paint_scenery(&mut c, &t, &mut scene, false);
    assert_eq!(scene.stars, stars);
    assert_eq!(scene.rng.state, state);
    // alive: twinkled
    let t = ticked("fast", "slow", 20);
    paint_scenery(&mut c, &t, &mut scene, false);
    let mut expected = stars.clone();
    let mut twin = Rng { state };
    starfield::twinkle(&mut expected, &mut twin);
    assert_eq!(scene.stars, expected);
    assert_eq!(scene.rng.state, twin.state);
    assert_ne!(scene.stars, stars);
    // flash: full brightness
    let mut t = ticked("fast", "slow", 20);
    t.trigger_freeze();
    paint_scenery(&mut c, &t, &mut scene, false);
    assert!(scene.stars.iter().all(|s| s.brightness == 255));
    assert_eq!(scene.rng.state, twin.state);
}

#[test]
fn earth_and_moon_appear_above_three_tenths() {
    let mut scene = Scene::new(68, 23, None, 5);
    scene.stars.clear();
    // slow entrance: celestial ramp runs from frame 12 to 17
    for (frame, shown) in [(12, false), (13, false), (14, true), (16, true), (40, true)] {
        let t = ticked("slow", "slow", frame);
        let mut c = Canvas::new(68, 23);
        paint_scenery(&mut c, &t, &mut scene, false);
        let has_earth = c.cells.iter().any(|cell| cell.glyph == EARTH_GLYPH);
        let has_moon = c.cells.iter().any(|cell| cell.glyph == MOON_GLYPH);
        assert_eq!(has_earth, shown, "frame {}", frame);
        assert_eq!(has_moon, shown, "frame {}", frame);
    }
}

#[test]
fn image_mode_paints_no_scenery() {
    let t = ticked("fast", "slow", 20);
    let mut scene = Scene::new(30, 10, None, 5);
    let stars = scene.stars.clone();
    let state = scene.rng.state;
    let mut c = Canvas::new(30, 10);
    paint_scenery(&mut c, &t, &mut scene, true);
    assert!(c.cells.iter().all(|cell| *cell == Cell::blank()));
    assert_eq!(scene.stars, stars);
    assert_eq!(scene.rng.state, state);
}

#[test]
fn background_replaces_the_procedural_scenery() {
    let t = ticked("fast", "slow", 20);
    let cells: Vec<BgCell> = (0..8 * 4)
        .map(|_| BgCell { glyph: '▀', base: GREY, fg: GREY, bg: Some(GREY), star: false })
        .collect();
    let mut scene = Scene::new(10, 10, Some(cells), 5);
    let mut c = Canvas::new(10, 10);
    paint_scenery(&mut c, &t, &mut scene, false);
    assert_eq!(row(&c, 2), "          ");
    assert_eq!(row(&c, 3), " ▀▀▀▀▀▀▀▀ ");
    assert_eq!(row(&c, 6), " ▀▀▀▀▀▀▀▀ ");
    assert_eq!(row(&c, 7), "          ");
    assert!(!c.cells.iter().any(|cell| cell.glyph == EARTH_GLYPH));
    assert!(scene.background.is_some());
}

#[test]
fn frame_painting_leaves_masked_cells_alone() {
    let t = ticked("fast", "slow", 20);
    let mut scene = Scene::new(30, 10, None, 5);
    let mut c = Canvas::new(30, 10);
    c.set(5, 0, 'i', GREY, None);
    c.set(2, 1, 'j', GREY, None);
    c.set(9, 8, 'k', GREY, None);
    c.set_image_mask(0, 0, 30, 10);
    let before = c.cells.clone();
    paint_frame(&mut c, &t, &mut scene, "the status", false);
    assert_eq!(c.cells, before);
    paint_collapse(&mut c, &t, &mut scene, "the status", false);
    assert_eq!(c.cells, before);
}

#[test]
fn collapse_in_image_mode_releases_the_wiped_rows() {
    let mut t = ticked("instant", "slow", 1);
    t.trigger_freeze();
    for _ in 0..7 {
        t.tick();
    }
    // five of ten collapse frames have passed: 625 / 10000 of 7 rows is none
    assert_eq!(bottom_row(10, t.collapse_progress()), 9);
    for _ in 0..4 {
        t.tick();
    }
    // nine of ten: 6561 / 10000 of 7 rows are 4
    assert_eq!(bottom_row(10, t.collapse_progress()), 5);
    let mut scene = Scene::new(12, 10, None, 5);
    let mut c = Canvas::new(12, 10);
    c.set_image_mask(1, 3, 11, 7);
    paint_collapse(&mut c, &t, &mut scene, "s", true);
    for y in 0..10u16 {
        for x in 0..12u16 {
            let held = (1..11).contains(&x) && (3..6).contains(&y);
            assert_eq!(c.get(x, y).unwrap().protected, held, "cell {} {}", x, y);
        }
    }
    assert_eq!(row(&c, 5), "╰          ╯");
    assert_eq!(row(&c, 6), "            ");
    assert_eq!(row(&c, 0), "╭──────────╮");
    assert_eq!(row(&c, 1), "│ s        │");
}

#[test]
fn collapse_paints_the_scenery_in_full() {
    let mut t = ticked("instant", "slow", 1);
    t.trigger_freeze();
    for _ in 0..3 {
        t.tick();
    }
    assert!(t.is_collapsing());
    let mut scene = Scene::new(68, 23, None, 5);
    let stars = scene.stars.clone();
    let state = scene.rng.state;
    let mut c = Canvas::new(68, 23);
    paint_collapse(&mut c, &t, &mut scene, "status", false);
    assert!(c.cells.iter().any(|cell| cell.glyph == EARTH_GLYPH));
    assert!(c.cells.iter().any(|cell| cell.glyph == MOON_GLYPH));
    assert_eq!(scene.stars, stars);
    assert_eq!(scene.rng.state, state);
    assert_eq!(c.get(0, 22).unwrap().glyph, '╰');
    assert_eq!(c.get(0, 2).unwrap().glyph, '│');
}
