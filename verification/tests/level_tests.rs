use raycaster::level::{tile_color, wall_texture, TileColor, TileMap, WallTexture, MAP_CELLS, MAP_X, MAP_Y};

#[test]
fn level_has_red_border_and_blue_blocks() {
    let m = TileMap::level();
    assert_eq!(MAP_X * MAP_Y, MAP_CELLS);
    for x in 0..MAP_X {
        assert_eq!(m.tile_at(x, 0), 1);
        assert_eq!(m.tile_at(x, MAP_Y - 1), 1);
    }
    for y in 0..MAP_Y {
        assert_eq!(m.tile_at(0, y), 1);
        assert_eq!(m.tile_at(MAP_X - 1, y), 1);
    }
    assert_eq!(m.tile_at(2, 2), 2);
    assert_eq!(m.tile_at(2, 3), 2);
    assert_eq!(m.tile_at(5, 3), 2);
    assert_eq!(m.tile_at(5, 4), 2);
    assert_eq!(m.tile_at(3, 5), 2);
    assert_eq!(m.tile_at(4, 5), 2);
    assert_eq!(m.tile_at(5, 5), 2);
    assert_eq!(m.tile_at(1, 1), 0);
    assert_eq!(m.tile(10), 0);
    assert_eq!(m.tile(18), 2);
}

#[test]
fn column_past_the_row_reads_the_next_row() {
    let m = TileMap::level();
    // column 9 of row 0 is the cell at index 9, in row 1
    assert_eq!(m.tile_at(9, 0), m.tile(9));
    assert_eq!(m.tile_at(9, 0), 0);
}

#[test]
fn walker_is_blocked_by_every_wall() {
    let m = TileMap::level();
    assert!(m.blocks_walker(0, 0));
    assert!(m.blocks_walker(2, 2));
    assert!(!m.blocks_walker(2, 6));
}

#[test]
fn bullets_pass_blue_walls_only() {
    let m = TileMap::level();
    assert!(m.stops_bullet(0, 3));
    assert!(!m.stops_bullet(2, 2));
    assert!(!m.stops_bullet(3, 3));
}

#[test]
fn ray_hits_only_walls_inside_the_grid() {
    let m = TileMap::level();
    assert!(m.ray_hits_wall(0, 0));
    assert!(m.ray_hits_wall(5, 5));
    assert!(!m.ray_hits_wall(1, 1));
    assert!(!m.ray_hits_wall(-1, 0));
    assert!(!m.ray_hits_wall(0, -1));
    assert!(!m.ray_hits_wall(0, 8));
    assert!(!m.ray_hits_wall(100, 100));
    // index 1 * 8 - 1 = 7 is inside the grid: the top right corner
    assert!(m.ray_hits_wall(-1, 1));
}

#[test]
fn wall_tile_and_texture() {
    let m = TileMap::level();
    assert_eq!(m.wall_tile_at(2, 2), 2);
    assert_eq!(m.wall_tile_at(7, 4), 1);
    assert_eq!(wall_texture(m.wall_tile_at(7, 4)), WallTexture::Bricks);
    assert_eq!(wall_texture(m.wall_tile_at(2, 2)), WallTexture::DarkBricks);
    assert_eq!(wall_texture(0), WallTexture::DarkBricks);
}

#[test]
fn tile_colors() {
    assert_eq!(tile_color(1), TileColor::Red);
    assert_eq!(tile_color(2), TileColor::Blue);
    assert_eq!(tile_color(0), TileColor::Empty);
    assert_eq!(tile_color(7), TileColor::Empty);
    assert_eq!(tile_color(-1), TileColor::Empty);
}
