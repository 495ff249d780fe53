//! Enemies and the bullet: where an enemy stands, and what a flying bullet
//! runs into.
use vstd::prelude::*;
use crate::level::{TileMap, MAP_CELLS, cell_of, blocks_bullets, blocks_walking, level_layout};

verus! {

/// The pixel coordinate of the centre of the cell numbered `tile` along one
/// axis.
pub fn tile_center(tile: u32) -> (c: u64)
    ensures
        c == tile * 64 + 32,
        c / 64 == tile,
        c % 64 == 32,
{
    tile as u64 * 64 + 32
}

/// The cells, as (column, row), on which the enemies of the level stand at
/// the start.
pub fn enemy_spawns() -> (v: Vec<(u32, u32)>)
    ensures
        v@ == spawn_cells(),
{
    let v: Vec<(u32, u32)> = vec![(2, 1), (5, 2), (5, 6)];
    assert(v@ =~= spawn_cells());
    v
}

/// The cells on which the enemies of the level stand at the start.
pub open spec fn spawn_cells() -> Seq<(u32, u32)> {
    seq![(2u32, 1u32), (5u32, 2u32), (5u32, 6u32)]
}

/// Every enemy of the level starts on open floor.
pub proof fn lemma_spawns_on_floor(k: int)
    requires
        0 <= k < spawn_cells().len(),
    ensures
        !blocks_walking(level_layout()[cell_of(spawn_cells()[k].0 as int, spawn_cells()[k].1 as int)]),
{
    let l = level_layout();
    assert(l[10] == 0 && l[21] == 0 && l[53] == 0);
}

/// Enemy `i` can be struck: it is alive and the bullet is within its reach.
pub open spec fn is_target(alive: Seq<bool>, in_reach: Seq<bool>, i: int) -> bool {
    0 <= i < alive.len() && alive[i] && in_reach[i]
}

/// Enemy `i` is the first that can be struck.
pub open spec fn is_first_target(alive: Seq<bool>, in_reach: Seq<bool>, i: int) -> bool {
    &&& is_target(alive, in_reach, i)
    &&& forall|j: int| 0 <= j < i ==> !is_target(alive, in_reach, j)
}

/// No enemy can be struck.
pub open spec fn no_target(alive: Seq<bool>, in_reach: Seq<bool>) -> bool {
    forall|j: int| 0 <= j < alive.len() ==> !is_target(alive, in_reach, j)
}

/// The bullet strikes the first living enemy within its reach, in the order
/// of `alive`, which then dies. `in_reach[i]` says whether the bullet is
/// within the hit radius of enemy `i`; it is read for living enemies only.
/// Returns the index of the enemy struck, if any.
pub fn strike_first(alive: &mut Vec<bool>, in_reach: &Vec<bool>) -> (struck: Option<usize>)
    requires
        old(alive)@.len() == in_reach@.len(),
    ensures
        match struck {
            Some(i) => is_first_target(old(alive)@, in_reach@, i as int)
                && final(alive)@ == old(alive)@.update(i as int, false),
            None => no_target(old(alive)@, in_reach@) && final(alive)@ == old(alive)@,
        },
        struck is None <==> forall|j: int|
            0 <= j < old(alive)@.len() ==> !(#[trigger] old(alive)@[j] && in_reach@[j]),
        struck matches Some(i) ==> {
            &&& i < old(alive)@.len()
            &&& old(alive)@[i as int] && in_reach@[i as int]
            &&& !final(alive)@[i as int]
            &&& forall|j: int| 0 <= j < i ==> !(#[trigger] old(alive)@[j] && in_reach@[j])
        },
        final(alive)@.len() == old(alive)@.len(),
        forall|j: int|
            0 <= j < old(alive)@.len() && (struck is None || j != struck->0 as int)
                ==> #[trigger] final(alive)@[j] == old(alive)@[j],
{
    let n = alive.len();
    let mut i: usize = 0;
    while i < n
        invariant
            n == alive@.len(),
            n == in_reach@.len(),
            alive@ == old(alive)@,
            i <= n,
            forall|j: int| 0 <= j < i ==> !is_target(alive@, in_reach@, j),
            forall|j: int| 0 <= j < i ==> !(#[trigger] alive@[j] && in_reach@[j]),
        decreases n - i,
    {
        if alive[i] && in_reach[i] {
            alive.set(i, false);
            return Some(i);
        }
        i = i + 1;
    }
    None
}

/// Whenever some enemy is alive and within reach, a strike is owed: there is
/// then no "no target" answer, and the first such enemy, at or before it, is
/// the one struck.
pub proof fn lemma_target_in_reach_is_struck(alive: Seq<bool>, in_reach: Seq<bool>, j: int)
    requires
        alive.len() == in_reach.len(),
        0 <= j < alive.len(),
        alive[j],
        in_reach[j],
    ensures
        !no_target(alive, in_reach),
        exists|i: int| 0 <= i <= j && #[trigger] is_first_target(alive, in_reach, i),
    decreases j,
{
    assert(is_target(alive, in_reach, j));
    if forall|k: int| 0 <= k < j ==> !is_target(alive, in_reach, k) {
        assert(is_first_target(alive, in_reach, j));
    } else {
        let k = choose|k: int| 0 <= k < j && is_target(alive, in_reach, k);
        lemma_target_in_reach_is_struck(alive, in_reach, k);
    }
}

/// The enemy struck is determined by its inputs: there is at most one first
/// target.
pub proof fn lemma_first_target_unique(alive: Seq<bool>, in_reach: Seq<bool>, i: int, k: int)
    requires
        is_first_target(alive, in_reach, i),
        is_first_target(alive, in_reach, k),
    ensures
        i == k,
{
    if i < k {
        assert(!is_target(alive, in_reach, i));
    } else if k < i {
        assert(!is_target(alive, in_reach, k));
    }
}

/// What happened to a flying bullet in one step.
#[derive(Clone, Copy, Debug, PartialEq, Eq, Structural)]
pub enum Flight {
    /// It left the level and is gone.
    OutOfArena,
    /// It hit a red wall and is gone.
    HitWall,
    /// It struck the enemy with this index and is gone.
    HitEnemy(usize),
    /// It flies on.
    Flying,
}

impl Flight {
    /// Whether the bullet is still in flight after this step.
    pub fn keeps_flying(&self) -> (b: bool)
        ensures
            b == (*self == Flight::Flying),
    {
        match self {
            Flight::Flying => true,
            _ => false,
        }
    }
}

/// One step of a flying bullet, after it moved. `cell` is the (column, row)
/// it is now in, or `None` where it has left the level. Outside the level it
/// is gone; in a red wall it is gone; else it strikes the first living enemy
/// within reach (see `strike_first`) or flies on. Only a strike changes `alive`.
pub fn resolve_flight(
    map: &TileMap,
    cell: Option<(usize, usize)>,
    alive: &mut Vec<bool>,
    in_reach: &Vec<bool>,
) -> (f: Flight)
    requires
        old(alive)@.len() == in_reach@.len(),
        cell matches Some((x, y)) ==> cell_of(x as int, y as int) < MAP_CELLS,
    ensures
        match cell {
            None => f == Flight::OutOfArena && final(alive)@ == old(alive)@,
            Some((x, y)) => if blocks_bullets(map@[cell_of(x as int, y as int)]) {
                f == Flight::HitWall && final(alive)@ == old(alive)@
            } else {
                match f {
                    Flight::HitEnemy(i) => is_first_target(old(alive)@, in_reach@, i as int)
                        && final(alive)@ == old(alive)@.update(i as int, false),
                    Flight::Flying => no_target(old(alive)@, in_reach@)
                        && final(alive)@ == old(alive)@,
                    _ => false,
                }
            },
        },
        f == Flight::Flying ==> forall|j: int|
            0 <= j < old(alive)@.len() ==> !(#[trigger] old(alive)@[j] && in_reach@[j]),
        f matches Flight::HitEnemy(i) ==> i < old(alive)@.len() && old(alive)@[i as int]
            && in_reach@[i as int],
{
    match cell {
        None => Flight::OutOfArena,
        Some((x, y)) => {
            if map.stops_bullet(x, y) {
                Flight::HitWall
            } else {
                match strike_first(alive, in_reach) {
                    Some(i) => Flight::HitEnemy(i),
                    None => Flight::Flying,
                }
            }
        },
    }
}

/// Number of living enemies in `alive`.
pub open spec fn alive_count(alive: Seq<bool>) -> nat
    decreases alive.len(),
{
    if alive.len() == 0 {
        0
    } else {
        alive_count(alive.drop_last()) + if alive.last() { 1nat } else { 0nat }
    }
}

/// A strike kills exactly one enemy: the count of the living drops by one.
pub proof fn lemma_strike_kills_one(alive: Seq<bool>, i: int)
    requires
        0 <= i < alive.len(),
        alive[i],
    ensures
        alive_count(alive.update(i, false)) + 1 == alive_count(alive),
    decreases alive.len(),
{
    let after = alive.update(i, false);
    if i == alive.len() - 1 {
        assert(after.drop_last() =~= alive.drop_last());
    } else {
        assert(after.drop_last() =~= alive.drop_last().update(i, false));
        lemma_strike_kills_one(alive.drop_last(), i);
    }
}

/// The dead stay dead: no step of a bullet brings an enemy back, and a step
/// kills at most one.
pub proof fn lemma_dead_stay_dead(before: Seq<bool>, in_reach: Seq<bool>, after: Seq<bool>, f: Flight)
    requires
        before.len() == in_reach.len(),
        match f {
            Flight::HitEnemy(i) => is_first_target(before, in_reach, i as int)
                && after == before.update(i as int, false),
            _ => after == before,
        },
    ensures
        after.len() == before.len(),
        forall|j: int| 0 <= j < after.len() && after[j] ==> before[j],
        alive_count(after) + 1 >= alive_count(before),
        alive_count(after) <= alive_count(before),
{
    match f {
        Flight::HitEnemy(i) => {
            lemma_strike_kills_one(before, i as int);
        },
        _ => {},
    }
}

} // verus!
