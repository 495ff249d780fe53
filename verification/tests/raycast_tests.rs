use raycaster::level::TileMap;
use raycaster::raycast::{grid_line_after, grid_line_before, strip_left, RayScan, MAX_DEPTH, NUM_RAYS};

#[test]
fn grid_lines_around_a_point() {
    assert_eq!(grid_line_before(150), 128);
    assert_eq!(grid_line_after(150), 192);
    assert_eq!(grid_line_before(128), 128);
    assert_eq!(grid_line_after(128), 192);
    assert_eq!(grid_line_before(0), 0);
    assert_eq!(grid_line_before(63), 0);
    assert_eq!(grid_line_after(63), 64);
}

#[test]
fn grid_lines_round_down_for_negative_points() {
    assert_eq!(grid_line_before(-1), -64);
    assert_eq!(grid_line_before(-64), -64);
    assert_eq!(grid_line_before(-65), -128);
    assert_eq!(grid_line_after(-1), 0);
    assert_eq!(grid_line_before(i32::MIN), i32::MIN);
}

#[test]
fn scan_passes_open_cells_then_stops_on_a_wall() {
    let m = TileMap::level();
    let mut s = RayScan::start();
    assert!(!s.done());
    // from (1, 6) to the right: open floor up to column 6, wall at column 7
    for x in 1..7 {
        assert!(!s.step(&m, x, 6));
        assert_eq!(s.depth, x as u32);
    }
    assert!(s.step(&m, 7, 6));
    assert_eq!(s.depth, MAX_DEPTH);
    assert!(s.done());
}

#[test]
fn scan_gives_up_after_eight_cells() {
    let m = TileMap::level();
    let mut s = RayScan::start();
    let mut steps = 0;
    while !s.done() {
        // outside the grid: never a hit
        assert!(!s.step(&m, -5, -5));
        steps += 1;
    }
    assert_eq!(steps, 8);
    assert_eq!(s.depth, MAX_DEPTH);
}

#[test]
fn parallel_scan_is_over_at_once() {
    let s = RayScan::parallel();
    assert!(s.done());
    assert_eq!(s.depth, 8);
}

#[test]
fn strips_are_eight_pixels_apart() {
    assert_eq!(strip_left(0), 530);
    assert_eq!(strip_left(1), 538);
    assert_eq!(strip_left(NUM_RAYS - 1), 530 + 59 * 8);
}
