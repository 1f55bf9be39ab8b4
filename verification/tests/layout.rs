use winister::geometry::{shrink_extent, Area};
use winister::layout::Layout;

fn area(x: u32, y: u32, width: u32, height: u32) -> Area {
    Area { x, y, width, height }
}

fn covers(a: &Area, px: u64, py: u64) -> bool {
    let (x, y, w, h) = (a.x as u64, a.y as u64, a.width as u64, a.height as u64);
    x <= px && px < x + w && y <= py && py < y + h
}

fn assert_tiles(count: usize, region: Area) {
    let tiles = Layout::Bsp.partition(count, region);
    assert_eq!(tiles.len(), count);
    let left = (region.x as u64).saturating_sub(2);
    let top = (region.y as u64).saturating_sub(2);
    let right = region.x as u64 + region.width as u64 + 2;
    let bottom = region.y as u64 + region.height as u64 + 2;
    for py in top..bottom {
        for px in left..right {
            let holders = tiles.iter().filter(|t| covers(t, px, py)).count();
            let expected = if covers(&region, px, py) { 1 } else { 0 };
            assert_eq!(holders, expected, "pixel ({}, {}) with {} windows", px, py, count);
        }
    }
    let total: u64 = tiles.iter().map(|t| t.width as u64 * t.height as u64).sum();
    assert_eq!(total, region.width as u64 * region.height as u64);
}

#[test]
fn no_window_gets_no_rectangle() {
    assert_eq!(Layout::Winister.partition(0, area(0, 0, 100, 100)), vec![]);
    assert_eq!(Layout::Winister.generate_window_sizes(0, 0, 0, 0, 100, 100, 0), vec![]);
}

#[test]
fn one_window_gets_the_whole_region() {
    assert_eq!(Layout::Winister.partition(1, area(3, 4, 5, 7)), vec![area(3, 4, 5, 7)]);
    assert_eq!(Layout::Winister.partition(1, area(0, 0, 0, 0)), vec![area(0, 0, 0, 0)]);
}

#[test]
fn four_windows_tile_a_square() {
    let areas = Layout::Winister.partition(4, area(0, 0, 100, 100));
    assert_eq!(
        areas,
        vec![
            area(0, 0, 100, 50),
            area(0, 50, 50, 50),
            area(50, 50, 50, 25),
            area(50, 75, 50, 25),
        ]
    );
    let total: u64 = areas.iter().map(|a| a.width as u64 * a.height as u64).sum();
    assert_eq!(total, 10000);
    for i in 0..areas.len() {
        for j in (i + 1)..areas.len() {
            for py in 0..100 {
                for px in 0..100 {
                    assert!(!(covers(&areas[i], px, py) && covers(&areas[j], px, py)));
                }
            }
        }
    }
}

#[test]
fn the_odd_pixel_goes_to_the_second_half() {
    assert_eq!(
        Layout::Winister.partition(2, area(0, 0, 5, 7)),
        vec![area(0, 0, 5, 3), area(0, 3, 5, 4)]
    );
    assert_eq!(
        Layout::Winister.partition(3, area(10, 20, 5, 7)),
        vec![area(10, 20, 5, 3), area(10, 23, 2, 4), area(12, 23, 3, 4)]
    );
    assert_eq!(
        Layout::Winister.partition(4, area(0, 0, 101, 101)),
        vec![
            area(0, 0, 101, 50),
            area(0, 50, 50, 51),
            area(50, 50, 51, 25),
            area(50, 75, 51, 26),
        ]
    );
}

#[test]
fn partitions_cover_every_pixel_once() {
    for count in 1..9 {
        assert_tiles(count, area(2, 3, 13, 7));
        assert_tiles(count, area(0, 0, 16, 16));
        assert_tiles(count, area(5, 0, 1, 9));
    }
}

#[test]
fn more_windows_than_pixels_still_tile() {
    let tiles = Layout::Winister.partition(5, area(0, 0, 2, 2));
    assert_eq!(
        tiles,
        vec![
            area(0, 0, 2, 1),
            area(0, 1, 1, 1),
            area(1, 1, 1, 0),
            area(1, 1, 0, 1),
            area(1, 1, 1, 1),
        ]
    );
    assert_tiles(5, area(0, 0, 2, 2));
    assert_tiles(4, area(7, 7, 0, 0));
}

#[test]
fn a_region_may_end_at_the_last_coordinate() {
    let far = u32::MAX - 10;
    assert_eq!(
        Layout::Winister.partition(3, area(far, far, 10, 10)),
        vec![area(far, far, 10, 5), area(far, far + 5, 5, 5), area(far + 5, far + 5, 5, 5)]
    );
    assert_eq!(
        Layout::Winister.partition(2, area(0, 0, u32::MAX, u32::MAX)),
        vec![area(0, 0, u32::MAX, u32::MAX / 2), area(0, u32::MAX / 2, u32::MAX, u32::MAX / 2 + 1)]
    );
}

#[test]
fn a_region_past_the_last_coordinate_goes_on_from_zero() {
    let near = u32::MAX - 1;
    assert_eq!(
        Layout::Winister.partition(3, area(near, near, 10, 10)),
        vec![area(near, near, 10, 5), area(near, 3, 5, 5), area(3, 3, 5, 5)]
    );
    assert_eq!(
        Layout::Winister.partition(2, area(u32::MAX, u32::MAX, u32::MAX, u32::MAX)),
        vec![
            area(u32::MAX, u32::MAX, u32::MAX, u32::MAX / 2),
            area(u32::MAX, u32::MAX / 2 - 1, u32::MAX, u32::MAX / 2 + 1),
        ]
    );
}

#[test]
fn every_layout_partitions_alike() {
    let region = area(0, 0, 100, 60);
    let expected = Layout::Winister.partition(6, region);
    assert_eq!(Layout::Bsp.partition(6, region), expected);
    assert_eq!(Layout::Stacking.partition(6, region), expected);
    assert_eq!(Layout::Floating.partition(6, region), expected);
}

#[test]
fn partition_cuts_rows_at_even_depths() {
    assert_eq!(
        Layout::Winister.partition(5, area(0, 0, 64, 64)),
        Layout::Winister.generate_window_sizes(5, 0, 0, 0, 64, 64, 0)
    );
    assert_eq!(
        Layout::Winister.partition(5, area(0, 0, 64, 64)),
        vec![
            area(0, 0, 64, 32),
            area(0, 32, 32, 32),
            area(32, 32, 32, 16),
            area(32, 48, 16, 16),
            area(48, 48, 16, 16),
        ]
    );
}

#[test]
fn the_parity_picks_the_first_cut() {
    assert_eq!(
        Layout::Winister.generate_window_sizes(3, 0, 0, 0, 100, 100, 1),
        vec![area(0, 0, 50, 100), area(50, 0, 50, 50), area(50, 50, 50, 50)]
    );
    assert_eq!(
        Layout::Winister.generate_window_sizes(3, 1, 0, 0, 100, 100, 1),
        vec![area(0, 0, 100, 50), area(0, 50, 50, 50), area(50, 50, 50, 50)]
    );
    assert_eq!(
        Layout::Winister.generate_window_sizes(3, 7, 0, 0, 100, 100, 0),
        vec![area(0, 0, 50, 100), area(50, 0, 50, 50), area(50, 50, 50, 50)]
    );
}

#[test]
fn a_parity_that_no_depth_has_cuts_columns_first() {
    assert_eq!(
        Layout::Winister.generate_window_sizes(4, 0, 0, 0, 80, 10, 2),
        vec![area(0, 0, 40, 10), area(40, 0, 40, 5), area(40, 5, 20, 5), area(60, 5, 20, 5)]
    );
    assert_eq!(
        Layout::Winister.generate_window_sizes(2, usize::MAX, 0, 0, 80, 10, usize::MAX),
        vec![area(0, 0, 40, 10), area(40, 0, 40, 10)]
    );
}

#[test]
fn the_cuts_take_turns_from_the_largest_depth_on() {
    assert_eq!(
        Layout::Winister.generate_window_sizes(3, usize::MAX, 0, 0, 8, 8, 1),
        vec![area(0, 0, 8, 4), area(0, 4, 4, 4), area(4, 4, 4, 4)]
    );
}

#[test]
fn a_border_shrinks_both_dimensions_twice() {
    assert_eq!(area(10, 20, 100, 50).shrink(2), area(10, 20, 96, 46));
    assert_eq!(area(10, 20, 100, 50).shrink(0), area(10, 20, 100, 50));
    assert_eq!(area(0, 0, 4, 5).shrink(2), area(0, 0, 0, 1));
    assert_eq!(shrink_extent(100, 2), 96);
    assert_eq!(shrink_extent(u32::MAX, 1), u32::MAX - 2);
}

#[test]
fn a_border_that_does_not_fit_leaves_nothing() {
    assert_eq!(area(1, 1, 3, 50).shrink(2), area(1, 1, 0, 46));
    assert_eq!(area(1, 1, 0, 0).shrink(1), area(1, 1, 0, 0));
    assert_eq!(shrink_extent(3, 2), 0);
    assert_eq!(shrink_extent(10, u32::MAX), 0);
    assert_eq!(shrink_extent(u32::MAX, u32::MAX / 2 + 1), 0);
    assert_eq!(shrink_extent(u32::MAX, u32::MAX / 2), 1);
}
