//! The integer side of casting one ray: the first grid line that the ray
//! crosses, and the cell-by-cell scan for a wall.
use vstd::prelude::*;
use crate::level::{TileMap, MAP_CELLS, cell_of, blocks_walking};

verus! {

/// The largest multiple of the cell size that is at most `p` (rounding toward
/// minus infinity, also for negative `p`).
pub open spec fn cell_floor(p: int) -> int {
    (p / 64) * 64
}

/// The grid line at or before pixel coordinate `p`: `p` with its low six bits
/// cleared.
pub fn grid_line_before(p: i32) -> (r: i32)
    ensures
        r == cell_floor(p as int),
        r <= p < r + 64,
{
    let r: i32 = (p >> 6u32) << 6u32;
    assert(r == p - (p & 63i32)) by (bit_vector)
        requires
            r == (p >> 6u32) << 6u32;
    assert(0 <= (p & 63i32) < 64) by (bit_vector);
    assert((p & 63i32) == p % 64) by (bit_vector);
    r
}

/// The grid line after pixel coordinate `p`: the next multiple of the cell
/// size above `p`.
pub fn grid_line_after(p: i32) -> (r: i32)
    requires
        cell_floor(p as int) + 64 <= i32::MAX,
    ensures
        r == cell_floor(p as int) + 64,
        p < r <= p + 64,
{
    grid_line_before(p) + 64
}

/// Number of rays cast per frame, one per degree of the field of view; each
/// gives one column of the 3D view.
pub const NUM_RAYS: usize = 60;

/// Width, in pixels, of one column of the 3D view.
pub const STRIP_WIDTH: u64 = 8;

/// Left edge, in pixels, of the 3D view.
pub const VIEW_LEFT: u64 = 530;

/// Left edge, in pixels, of column `column` of the 3D view, where both the
/// wall strip of ray `column` and a sprite seen in that column are drawn.
pub fn strip_left(column: usize) -> (x: u64)
    requires
        column < NUM_RAYS,
    ensures
        x == VIEW_LEFT + column * STRIP_WIDTH,
        VIEW_LEFT <= x < VIEW_LEFT + NUM_RAYS * STRIP_WIDTH,
{
    VIEW_LEFT + column as u64 * STRIP_WIDTH
}

/// Number of cells that a ray is followed before it is given up.
pub const MAX_DEPTH: u32 = 8;

/// The wall scan of one ray, one grid line at a time. `depth` counts the grid
/// lines passed; the scan is over once it reaches `MAX_DEPTH`, which it does
/// at once on a hit.
#[derive(Clone, Copy, Debug, PartialEq, Eq, Structural)]
pub struct RayScan {
    pub depth: u32,
}

/// The depth after one step of a scan at `depth` that did (`hit`) or did not
/// find a wall.
pub open spec fn depth_after(depth: u32, hit: bool) -> u32 {
    if hit {
        MAX_DEPTH
    } else {
        (depth + 1) as u32
    }
}

/// The depth after feeding a scan at `depth` the outcomes `hits`, one per
/// step, for as long as the scan is not over.
pub open spec fn depth_after_all(depth: u32, hits: Seq<bool>) -> u32
    decreases hits.len(),
{
    if hits.len() == 0 || depth >= MAX_DEPTH {
        depth
    } else {
        depth_after_all(depth_after(depth, hits[0]), hits.drop_first())
    }
}

impl RayScan {
    /// A scan for a ray that crosses vertical (or horizontal) grid lines:
    /// nothing passed yet.
    pub fn start() -> (s: RayScan)
        ensures
            s.depth == 0,
            !s.is_over(),
    {
        RayScan { depth: 0 }
    }

    /// A scan for a ray that runs (nearly) parallel to the grid lines it
    /// would cross: over before it begins.
    pub fn parallel() -> (s: RayScan)
        ensures
            s.depth == MAX_DEPTH,
            s.is_over(),
    {
        RayScan { depth: MAX_DEPTH }
    }

    /// Whether the scan is over.
    pub open spec fn is_over(&self) -> bool {
        self.depth >= MAX_DEPTH
    }

    /// Whether the scan is over.
    pub fn done(&self) -> (b: bool)
        ensures
            b == self.is_over(),
    {
        self.depth >= MAX_DEPTH
    }

    /// One step of the scan, at the cell in column `mx` and row `my` that the
    /// ray has reached: on a wall the scan ends and `true` is returned; else
    /// it passes one more grid line and `false` is returned.
    pub fn step(&mut self, map: &TileMap, mx: i32, my: i32) -> (hit: bool)
        requires
            !old(self).is_over(),
            i32::MIN <= my * 8 <= i32::MAX,
            i32::MIN <= cell_of(mx as int, my as int) <= i32::MAX,
        ensures
            hit == (0 <= cell_of(mx as int, my as int) < MAP_CELLS
                && blocks_walking(map@[cell_of(mx as int, my as int)])),
            final(self).depth == depth_after(old(self).depth, hit),
    {
        let hit = map.ray_hits_wall(mx, my);
        if hit {
            self.depth = MAX_DEPTH;
        } else {
            self.depth = self.depth + 1;
        }
        hit
    }
}

/// Every scan is over after at most `MAX_DEPTH` steps, whatever it meets: a
/// scan at `depth` fed `MAX_DEPTH - depth` outcomes or more is over.
pub proof fn lemma_scan_ends(depth: u32, hits: Seq<bool>)
    requires
        depth <= MAX_DEPTH,
        hits.len() >= MAX_DEPTH - depth,
    ensures
        depth_after_all(depth, hits) == MAX_DEPTH,
    decreases hits.len(),
{
    if depth < MAX_DEPTH {
        lemma_scan_ends(depth_after(depth, hits[0]), hits.drop_first());
    }
}

/// A scan that meets a wall is over at once, whatever comes after.
pub proof fn lemma_hit_ends_scan(depth: u32, hits: Seq<bool>)
    requires
        depth < MAX_DEPTH,
        hits.len() > 0,
        hits[0],
    ensures
        depth_after_all(depth, hits) == MAX_DEPTH,
{
    assert(depth_after_all(MAX_DEPTH, hits.drop_first()) == MAX_DEPTH);
}

} // verus!
