use blaeckfetch::canvas::Region;
use blaeckfetch::layout::{
    alignment, cell_pixel_size, extra_rows, fit_with_chrome, fits, image_pixels, image_region,
    initial_box, natural_cells, newlines_to_reserve, origin_col, origin_row, reserve_rows,
    resized_box, resolve_size, start_box, window_size, Align,
};

#[test]
fn requested_width_is_brought_into_bounds() {
    assert_eq!(resolve_size(200, 10, 120), 120);
    assert_eq!(resolve_size(5, 10, 120), 10);
    assert_eq!(resolve_size(68, 10, 120), 68);
    assert_eq!(resolve_size(10, 10, 120), 10);
    assert_eq!(resolve_size(120, 10, 120), 120);
    assert_eq!(resolve_size(121, 10, 120), 120);
    assert_eq!(resolve_size(0, 0, u16::MAX), 0);
    assert_eq!(resolve_size(u16::MAX, 0, u16::MAX), u16::MAX);
    assert_eq!(resolve_size(7, 40, 40), 40);
}

#[test]
fn window_size_falls_back_to_80_by_24() {
    assert_eq!(window_size(None), (80, 24));
    assert_eq!(window_size(Some((132, 43))), (132, 43));
    assert_eq!(window_size(Some((0, 0))), (0, 0));
}

#[test]
fn cell_pixel_size_falls_back_to_8_by_16() {
    assert_eq!(cell_pixel_size(None), (8, 16));
    assert_eq!(cell_pixel_size(Some((9, 18))), (9, 18));
}

#[test]
fn alignment_from_flags() {
    assert_eq!(alignment(true, false), Align::Center);
    assert_eq!(alignment(true, true), Align::Center);
    assert_eq!(alignment(false, true), Align::Right);
    assert_eq!(alignment(false, false), Align::Left);
}

#[test]
fn initial_box_defaults_to_68_by_23() {
    assert_eq!(initial_box(None, None, false), (68, 23));
    assert_eq!(initial_box(None, None, true), (68, 24));
    assert_eq!(initial_box(Some(100), None, false), (100, 23));
    assert_eq!(initial_box(None, Some(30), true), (68, 31));
    assert_eq!(initial_box(Some(0), Some(0), false), (0, 0));
    assert_eq!(initial_box(Some(5), Some(u16::MAX), true), (5, u16::MAX));
    assert_eq!(extra_rows(true), 1);
    assert_eq!(extra_rows(false), 0);
}

#[test]
fn narrow_terminals_do_not_fit() {
    assert!(fits(80, 68, false));
    assert!(fits(68, 68, false));
    assert!(!fits(67, 68, false));
    assert!(fits(10, 68, true));
}

#[test]
fn reserve_is_box_height_capped_by_terminal() {
    assert_eq!(reserve_rows(23, 24), 23);
    assert_eq!(reserve_rows(23, 23), 23);
    assert_eq!(reserve_rows(23, 10), 10);
    assert_eq!(reserve_rows(0, 24), 0);
    assert_eq!(reserve_rows(u16::MAX, u16::MAX), u16::MAX);
    assert_eq!(newlines_to_reserve(23), 22);
    assert_eq!(newlines_to_reserve(1), 0);
    assert_eq!(newlines_to_reserve(0), 0);
}

#[test]
fn origin_row_sits_reserve_rows_above_the_cursor() {
    // cursor on the last of the reserved rows
    assert_eq!(origin_row(Some(24), 24, 23), 2);
    assert_eq!(origin_row(Some(23), 24, 23), 1);
    assert_eq!(origin_row(Some(40), 50, 23), 18);
    // the cursor above the reserve: the box starts at the top
    assert_eq!(origin_row(Some(5), 24, 23), 1);
    assert_eq!(origin_row(Some(0), 24, 23), 1);
    // no answer: the cursor is taken to be on the last row
    assert_eq!(origin_row(None, 24, 23), 2);
    assert_eq!(origin_row(None, 50, 23), 28);
    assert_eq!(origin_row(None, 10, 10), 1);
    // the edge of what can be addressed
    assert_eq!(origin_row(Some(u16::MAX), 24, 0), u16::MAX);
    assert_eq!(origin_row(Some(u16::MAX), 24, 1), u16::MAX);
    assert_eq!(origin_row(Some(u16::MAX - 1), 24, 0), u16::MAX);
    assert_eq!(origin_row(Some(u16::MAX), 24, 2), u16::MAX - 1);
}

#[test]
fn origin_col_by_alignment() {
    assert_eq!(origin_col(Align::Left, 80, 68), 2);
    assert_eq!(origin_col(Align::Left, 10, 68), 2);
    assert_eq!(origin_col(Align::Center, 80, 68), 7);
    assert_eq!(origin_col(Align::Center, 81, 68), 7);
    assert_eq!(origin_col(Align::Center, 68, 68), 1);
    assert_eq!(origin_col(Align::Center, 10, 68), 1);
    assert_eq!(origin_col(Align::Right, 80, 68), 12);
    assert_eq!(origin_col(Align::Right, 69, 68), 1);
    assert_eq!(origin_col(Align::Right, 68, 68), 1);
    assert_eq!(origin_col(Align::Right, 10, 68), 1);
    assert_eq!(origin_col(Align::Right, u16::MAX, 0), u16::MAX);
    assert_eq!(origin_col(Align::Center, u16::MAX, 0), 32768);
}

#[test]
fn resized_box_without_image_keeps_base_where_there_is_room() {
    let min = (10, 5);
    let max = (u16::MAX, u16::MAX);
    assert_eq!(resized_box((68, 23), None, 0, (100, 40), min, max), (68, 23));
    assert_eq!(resized_box((68, 23), None, 0, (69, 24), min, max), (68, 23));
    assert_eq!(resized_box((68, 23), None, 0, (68, 23), min, max), (67, 22));
    assert_eq!(resized_box((68, 23), None, 0, (40, 12), min, max), (39, 11));
    // bounds win over the terminal
    assert_eq!(resized_box((68, 23), None, 0, (5, 3), min, max), (10, 5));
    assert_eq!(resized_box((68, 23), None, 0, (0, 0), min, max), (10, 5));
    assert_eq!(resized_box((200, 80), None, 0, (300, 100), (10, 5), (120, 40)), (120, 40));
}

#[test]
fn resized_box_with_image_takes_the_fitted_size() {
    let min = (10, 5);
    let max = (120, 40);
    assert_eq!(resized_box((68, 24), Some((50, 20)), 1, (100, 40), min, max), (50, 21));
    assert_eq!(resized_box((68, 24), Some((200, 80)), 1, (100, 40), min, max), (120, 40));
    assert_eq!(resized_box((68, 24), Some((2, 2)), 1, (100, 40), min, max), (10, 5));
    assert_eq!(
        resized_box((68, 24), Some((50, u16::MAX)), 1, (100, 40), (0, 0), (u16::MAX, u16::MAX)),
        (50, u16::MAX)
    );
}

#[test]
fn image_region_lies_between_the_separators() {
    assert_eq!(image_region(68, 24), Region { x0: 1, y0: 3, x1: 67, y1: 21 });
    assert_eq!(image_region(68, 23), Region { x0: 1, y0: 3, x1: 67, y1: 20 });
    assert_eq!(image_region(2, 6), Region { x0: 1, y0: 3, x1: 1, y1: 3 });
    assert_eq!(image_region(0, 0), Region { x0: 1, y0: 3, x1: 1, y1: 3 });
    assert_eq!(image_region(1, 5), Region { x0: 1, y0: 3, x1: 1, y1: 3 });
    assert_eq!(
        image_region(u16::MAX, u16::MAX),
        Region { x0: 1, y0: 3, x1: 65534, y1: 65532 }
    );
}

#[test]
fn image_pixels_are_cells_times_cell_size() {
    assert_eq!(image_pixels(image_region(68, 24), (8, 16)), (528, 288));
    assert_eq!(image_pixels(image_region(2, 6), (8, 16)), (0, 0));
    assert_eq!(
        image_pixels(Region { x0: 0, y0: 0, x1: u16::MAX, y1: u16::MAX }, (u16::MAX, u16::MAX)),
        (4294836225, 4294836225)
    );
}

#[test]
fn natural_cells_round_up() {
    assert_eq!(natural_cells((800, 600), (8, 16)), (100, 38));
    assert_eq!(natural_cells((801, 608), (8, 16)), (101, 38));
    assert_eq!(natural_cells((0, 0), (8, 16)), (0, 0));
    assert_eq!(natural_cells((1, 1), (8, 16)), (1, 1));
    assert_eq!(natural_cells((u32::MAX, u32::MAX), (1, 1)), (u32::MAX, u32::MAX));
    assert_eq!(natural_cells((u32::MAX, 7), (u16::MAX, u16::MAX)), (65537, 1));
    assert_eq!(natural_cells((65536, 65535), (u16::MAX, u16::MAX)), (2, 1));
}

#[test]
fn image_that_fits_keeps_its_size() {
    assert_eq!(fit_with_chrome((40, 10), (100, 40), (2, 6)), (42, 16));
    assert_eq!(fit_with_chrome((97, 33), (100, 40), (2, 6)), (99, 39));
    assert_eq!(fit_with_chrome((0, 0), (100, 40), (2, 6)), (2, 6));
}

#[test]
fn image_that_is_too_large_shrinks_in_proportion() {
    // room is 97 by 33
    assert_eq!(fit_with_chrome((194, 66), (100, 40), (2, 6)), (99, 39));
    // too wide: the width is filled, 50 * 97 / 200 = 24.25
    assert_eq!(fit_with_chrome((200, 50), (100, 40), (2, 6)), (99, 30));
    // too high: the height is filled, 60 * 33 / 100 = 19.8
    assert_eq!(fit_with_chrome((60, 100), (100, 40), (2, 6)), (21, 39));
    assert_eq!(fit_with_chrome((u32::MAX, u32::MAX), (100, 40), (2, 6)), (35, 39));
    assert_eq!(fit_with_chrome((u32::MAX, 1), (100, 40), (2, 6)), (99, 6));
}

#[test]
fn image_on_a_tiny_terminal() {
    assert_eq!(fit_with_chrome((40, 10), (2, 6), (2, 6)), (2, 6));
    assert_eq!(fit_with_chrome((40, 10), (0, 0), (2, 6)), (2, 6));
    assert_eq!(fit_with_chrome((40, 10), (3, 7), (2, 6)), (2, 6));
    assert_eq!(fit_with_chrome((40, 10), (13, 17), (2, 6)), (12, 8));
    assert_eq!(fit_with_chrome((0, 50), (100, 40), (2, 6)), (2, 39));
    assert_eq!(fit_with_chrome((500, 0), (100, 40), (2, 6)), (99, 6));
}

#[test]
fn start_box_is_the_request_within_the_bounds() {
    let min = (10, 5);
    let max = (120, 40);
    assert_eq!(start_box(Some(200), None, false, min, max), (120, 23));
    assert_eq!(start_box(None, None, false, min, max), (68, 23));
    assert_eq!(start_box(None, None, true, min, max), (68, 24));
    assert_eq!(start_box(Some(3), Some(3), false, min, max), (10, 5));
    assert_eq!(start_box(Some(50), Some(40), true, min, max), (50, 40));
    assert_eq!(start_box(Some(50), Some(u16::MAX), true, min, (120, u16::MAX)), (50, u16::MAX));
    assert_eq!(start_box(Some(77), Some(9), false, (77, 9), (77, 9)), (77, 9));
}
