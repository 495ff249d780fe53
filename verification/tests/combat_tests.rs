use raycaster::combat::{enemy_spawns, resolve_flight, strike_first, tile_center, Flight};
use raycaster::level::TileMap;

#[test]
fn centres_of_cells() {
    assert_eq!(tile_center(0), 32);
    assert_eq!(tile_center(2), 160);
    assert_eq!(tile_center(5), 352);
    assert_eq!(tile_center(u32::MAX), u32::MAX as u64 * 64 + 32);
}

#[test]
fn spawns_of_the_level_stand_on_floor() {
    let m = TileMap::level();
    let s = enemy_spawns();
    assert_eq!(s, vec![(2, 1), (5, 2), (5, 6)]);
    for (x, y) in s {
        assert_eq!(m.tile_at(x as usize, y as usize), 0);
    }
}

#[test]
fn strike_hits_first_living_enemy_in_reach() {
    let mut alive = vec![true, false, true, true];
    let reach = vec![false, true, true, true];
    assert_eq!(strike_first(&mut alive, &reach), Some(2));
    assert_eq!(alive, vec![true, false, false, true]);
}

#[test]
fn strike_misses_when_nobody_in_reach() {
    let mut alive = vec![true, false, true];
    let reach = vec![false, true, false];
    assert_eq!(strike_first(&mut alive, &reach), None);
    assert_eq!(alive, vec![true, false, true]);
    let mut none: Vec<bool> = vec![];
    assert_eq!(strike_first(&mut none, &vec![]), None);
}

#[test]
fn flight_out_of_the_arena() {
    let m = TileMap::level();
    let mut alive = vec![true];
    let f = resolve_flight(&m, None, &mut alive, &vec![true]);
    assert_eq!(f, Flight::OutOfArena);
    assert!(!f.keeps_flying());
    assert_eq!(alive, vec![true]);
}

#[test]
fn flight_into_a_red_wall() {
    let m = TileMap::level();
    let mut alive = vec![true];
    let f = resolve_flight(&m, Some((7, 3)), &mut alive, &vec![true]);
    assert_eq!(f, Flight::HitWall);
    assert!(!f.keeps_flying());
    assert_eq!(alive, vec![true]);
}

#[test]
fn flight_through_a_blue_wall_into_an_enemy() {
    let m = TileMap::level();
    let mut alive = vec![true, true, true];
    let f = resolve_flight(&m, Some((2, 2)), &mut alive, &vec![false, true, true]);
    assert_eq!(f, Flight::HitEnemy(1));
    assert!(!f.keeps_flying());
    assert_eq!(alive, vec![true, false, true]);
}

#[test]
fn flight_goes_on_in_open_floor() {
    let m = TileMap::level();
    let mut alive = vec![false, true];
    let f = resolve_flight(&m, Some((3, 3)), &mut alive, &vec![true, false]);
    assert_eq!(f, Flight::Flying);
    assert!(f.keeps_flying());
    assert_eq!(alive, vec![false, true]);
}
