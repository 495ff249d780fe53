//! The level: an 8 by 8 grid of tiles, stored row by row.
use vstd::prelude::*;

verus! {

/// Number of cells in one row of the grid.
pub const MAP_X: usize = 8;

/// Number of rows of the grid.
pub const MAP_Y: usize = 8;

/// Number of cells of the grid.
pub const MAP_CELLS: usize = 64;

/// Side of one cell, in pixels.
pub const CELL_SIZE: u64 = 64;

/// The tiles of the level, row by row: 0 is open floor, 1 a red wall,
/// 2 a blue wall.
pub open spec fn level_layout() -> Seq<i32> {
    seq![
        1, 1, 1, 1, 1, 1, 1, 1,
        1, 0, 0, 0, 0, 0, 0, 1,
        1, 0, 2, 0, 0, 0, 0, 1,
        1, 0, 2, 0, 0, 2, 0, 1,
        1, 0, 0, 0, 0, 2, 0, 1,
        1, 0, 0, 2, 2, 2, 0, 1,
        1, 0, 0, 0, 0, 0, 0, 1,
        1, 1, 1, 1, 1, 1, 1, 1,
    ]
}

/// Index, in the row-by-row order, of the cell in column `x` and row `y`.
pub open spec fn cell_of(x: int, y: int) -> int {
    y * MAP_X + x
}

/// A tile that the player cannot walk into.
pub open spec fn blocks_walking(tile: i32) -> bool {
    tile != 0
}

/// A tile that a bullet cannot fly through (only the red walls).
pub open spec fn blocks_bullets(tile: i32) -> bool {
    tile == 1
}

/// The grid of tiles that the player walks, the rays scan and the bullets fly in.
pub struct TileMap {
    cells: Vec<i32>,
}

impl View for TileMap {
    type V = Seq<i32>;

    closed spec fn view(&self) -> Seq<i32> {
        self.cells@
    }
}

impl TileMap {
    #[verifier::type_invariant]
    spec fn well_formed(&self) -> bool {
        self.cells@.len() == MAP_CELLS
    }

    /// The level of the game.
    pub fn level() -> (m: TileMap)
        ensures
            m@ == level_layout(),
            m@.len() == MAP_CELLS,
            forall|x: int, y: int|
                0 <= x < MAP_X && 0 <= y < MAP_Y ==> #[trigger] m@[cell_of(x, y)] == designed_tile(x, y),
    {
        let cells: Vec<i32> = vec![
            1, 1, 1, 1, 1, 1, 1, 1,
            1, 0, 0, 0, 0, 0, 0, 1,
            1, 0, 2, 0, 0, 0, 0, 1,
            1, 0, 2, 0, 0, 2, 0, 1,
            1, 0, 0, 0, 0, 2, 0, 1,
            1, 0, 0, 2, 2, 2, 0, 1,
            1, 0, 0, 0, 0, 0, 0, 1,
            1, 1, 1, 1, 1, 1, 1, 1,
        ];
        assert(cells@ =~= level_layout());
        assert forall|x: int, y: int|
            0 <= x < MAP_X && 0 <= y < MAP_Y implies #[trigger] cells@[cell_of(x, y)] == designed_tile(x, y) by {
            lemma_level_is_designed(x, y);
        }
        TileMap { cells }
    }

    /// The tile at row-by-row index `index`.
    pub fn tile(&self, index: usize) -> (t: i32)
        requires
            index < MAP_CELLS,
        ensures
            t == self@[index as int],
    {
        proof {
            use_type_invariant(self);
        }
        self.cells[index]
    }

    /// The tile in column `x` and row `y`. The index `y * 8 + x` must fall in
    /// the grid; a column past the last one reads into the next row.
    pub fn tile_at(&self, x: usize, y: usize) -> (t: i32)
        requires
            cell_of(x as int, y as int) < MAP_CELLS,
        ensures
            t == self@[cell_of(x as int, y as int)],
    {
        self.tile(y * MAP_X + x)
    }

    /// Whether the player, once in column `x` and row `y`, has walked into a
    /// wall and is to be put back.
    pub fn blocks_walker(&self, x: usize, y: usize) -> (b: bool)
        requires
            cell_of(x as int, y as int) < MAP_CELLS,
        ensures
            b == blocks_walking(self@[cell_of(x as int, y as int)]),
    {
        self.tile_at(x, y) != 0
    }

    /// Whether a bullet in column `x` and row `y` is stopped by a wall.
    pub fn stops_bullet(&self, x: usize, y: usize) -> (b: bool)
        requires
            cell_of(x as int, y as int) < MAP_CELLS,
        ensures
            b == blocks_bullets(self@[cell_of(x as int, y as int)]),
    {
        self.tile_at(x, y) == 1
    }

    /// Whether a ray that has reached column `mx` and row `my` has hit a wall.
    /// A position whose index `my * 8 + mx` falls outside the grid is no hit.
    pub fn ray_hits_wall(&self, mx: i32, my: i32) -> (b: bool)
        requires
            i32::MIN <= my * 8 <= i32::MAX,
            i32::MIN <= cell_of(mx as int, my as int) <= i32::MAX,
        ensures
            b == (0 <= cell_of(mx as int, my as int) < MAP_CELLS
                && blocks_walking(self@[cell_of(mx as int, my as int)])),
    {
        let mp: i32 = my * 8 + mx;
        if mp >= 0 && mp < 64 {
            self.tile(mp as usize) != 0
        } else {
            false
        }
    }

    /// The tile that a ray ended on, in column `mx` and row `my`, which
    /// chooses the texture of the wall strip.
    pub fn wall_tile_at(&self, mx: i32, my: i32) -> (t: i32)
        requires
            i32::MIN <= my * 8 <= i32::MAX,
            0 <= cell_of(mx as int, my as int) < MAP_CELLS,
        ensures
            t == self@[cell_of(mx as int, my as int)],
    {
        let mp: i32 = my * 8 + mx;
        self.tile(mp as usize)
    }
}

/// The colour in which the top view draws a tile.
#[derive(Clone, Copy, Debug, PartialEq, Eq, Structural)]
pub enum TileColor {
    Red,
    Blue,
    Empty,
}

/// The colour of `tile` in the top view: 1 red, 2 blue, anything else empty.
pub fn tile_color(tile: i32) -> (c: TileColor)
    ensures
        c == (if tile == 1 {
            TileColor::Red
        } else if tile == 2 {
            TileColor::Blue
        } else {
            TileColor::Empty
        }),
{
    match tile {
        1 => TileColor::Red,
        2 => TileColor::Blue,
        _ => TileColor::Empty,
    }
}

/// Which of the two wall textures a wall strip is drawn with.
#[derive(Clone, Copy, Debug, PartialEq, Eq, Structural)]
pub enum WallTexture {
    Bricks,
    DarkBricks,
}

/// The texture of a wall strip whose ray ended on `tile`: the first for a red
/// wall, the second for any other tile.
pub fn wall_texture(tile: i32) -> (w: WallTexture)
    ensures
        w == (if tile == 1 { WallTexture::Bricks } else { WallTexture::DarkBricks }),
{
    if tile == 1 {
        WallTexture::Bricks
    } else {
        WallTexture::DarkBricks
    }
}

/// A cell of the border (column or row 0 or 7).
pub open spec fn on_border(x: int, y: int) -> bool {
    x == 0 || x == MAP_X - 1 || y == 0 || y == MAP_Y - 1
}

/// One of the seven blue blocks inside the level: column 2 in rows 2 and 3,
/// column 5 in rows 3 to 5, and columns 3 and 4 of row 5.
pub open spec fn is_blue_block(x: int, y: int) -> bool {
    ||| x == 2 && (y == 2 || y == 3)
    ||| x == 5 && 3 <= y <= 5
    ||| y == 5 && (x == 3 || x == 4)
}

/// The tile that the level's design puts in column `x` and row `y`: a red
/// wall on the border, a blue wall on the seven blue blocks, open floor
/// everywhere else.
pub open spec fn designed_tile(x: int, y: int) -> i32 {
    if on_border(x, y) {
        1
    } else if is_blue_block(x, y) {
        2
    } else {
        0
    }
}

/// The level is its design: a red border, the seven blue blocks, and open
/// floor in every other cell; and it has exactly one tile per cell.
pub proof fn lemma_level_is_designed(x: int, y: int)
    requires
        0 <= x < MAP_X,
        0 <= y < MAP_Y,
    ensures
        level_layout().len() == MAP_CELLS,
        level_layout()[cell_of(x, y)] == designed_tile(x, y),
{
    let l = level_layout();
        if y == 0 {
            if x == 0 {
                assert(l[0] == 1);
            } else if x == 1 {
                assert(l[1] == 1);
            } else if x == 2 {
                assert(l[2] == 1);
            } else if x == 3 {
                assert(l[3] == 1);
            } else if x == 4 {
                assert(l[4] == 1);
            } else if x == 5 {
                assert(l[5] == 1);
            } else if x == 6 {
                assert(l[6] == 1);
            } else if x == 7 {
                assert(l[7] == 1);
            }
        } else if y == 1 {
            if x == 0 {
                assert(l[8] == 1);
            } else if x == 1 {
                assert(l[9] == 0);
            } else if x == 2 {
                assert(l[10] == 0);
            } else if x == 3 {
                assert(l[11] == 0);
            } else if x == 4 {
                assert(l[12] == 0);
            } else if x == 5 {
                assert(l[13] == 0);
            } else if x == 6 {
                assert(l[14] == 0);
            } else if x == 7 {
                assert(l[15] == 1);
            }
        } else if y == 2 {
            if x == 0 {
                assert(l[16] == 1);
            } else if x == 1 {
                assert(l[17] == 0);
            } else if x == 2 {
                assert(l[18] == 2);
            } else if x == 3 {
                assert(l[19] == 0);
            } else if x == 4 {
                assert(l[20] == 0);
            } else if x == 5 {
                assert(l[21] == 0);
            } else if x == 6 {
                assert(l[22] == 0);
            } else if x == 7 {
                assert(l[23] == 1);
            }
        } else if y == 3 {
            if x == 0 {
                assert(l[24] == 1);
            } else if x == 1 {
                assert(l[25] == 0);
            } else if x == 2 {
                assert(l[26] == 2);
            } else if x == 3 {
                assert(l[27] == 0);
            } else if x == 4 {
                assert(l[28] == 0);
            } else if x == 5 {
                assert(l[29] == 2);
            } else if x == 6 {
                assert(l[30] == 0);
            } else if x == 7 {
                assert(l[31] == 1);
            }
        } else if y == 4 {
            if x == 0 {
                assert(l[32] == 1);
            } else if x == 1 {
                assert(l[33] == 0);
            } else if x == 2 {
                assert(l[34] == 0);
            } else if x == 3 {
                assert(l[35] == 0);
            } else if x == 4 {
                assert(l[36] == 0);
            } else if x == 5 {
                assert(l[37] == 2);
            } else if x == 6 {
                assert(l[38] == 0);
            } else if x == 7 {
                assert(l[39] == 1);
            }
        } else if y == 5 {
            if x == 0 {
                assert(l[40] == 1);
            } else if x == 1 {
                assert(l[41] == 0);
            } else if x == 2 {
                assert(l[42] == 0);
            } else if x == 3 {
                assert(l[43] == 2);
            } else if x == 4 {
                assert(l[44] == 2);
            } else if x == 5 {
                assert(l[45] == 2);
            } else if x == 6 {
                assert(l[46] == 0);
            } else if x == 7 {
                assert(l[47] == 1);
            }
        } else if y == 6 {
            if x == 0 {
                assert(l[48] == 1);
            } else if x == 1 {
                assert(l[49] == 0);
            } else if x == 2 {
                assert(l[50] == 0);
            } else if x == 3 {
                assert(l[51] == 0);
            } else if x == 4 {
                assert(l[52] == 0);
            } else if x == 5 {
                assert(l[53] == 0);
            } else if x == 6 {
                assert(l[54] == 0);
            } else if x == 7 {
                assert(l[55] == 1);
            }
        } else if y == 7 {
            if x == 0 {
                assert(l[56] == 1);
            } else if x == 1 {
                assert(l[57] == 1);
            } else if x == 2 {
                assert(l[58] == 1);
            } else if x == 3 {
                assert(l[59] == 1);
            } else if x == 4 {
                assert(l[60] == 1);
            } else if x == 5 {
                assert(l[61] == 1);
            } else if x == 6 {
                assert(l[62] == 1);
            } else if x == 7 {
                assert(l[63] == 1);
            }
        }
}

/// Every wall that stops a bullet also stops the player; the blue walls stop
/// the player but let bullets through.
pub proof fn lemma_bullet_walls_block_walking(tile: i32)
    ensures
        blocks_bullets(tile) ==> blocks_walking(tile),
        tile == 2 ==> blocks_walking(tile) && !blocks_bullets(tile),
{
}

/// The level is enclosed: every cell of its border is a red wall, which
/// neither the player nor a bullet passes.
pub proof fn lemma_level_enclosed(x: int, y: int)
    requires
        0 <= x < MAP_X,
        0 <= y < MAP_Y,
        x == 0 || x == MAP_X - 1 || y == 0 || y == MAP_Y - 1,
    ensures
        blocks_bullets(level_layout()[cell_of(x, y)]),
        blocks_walking(level_layout()[cell_of(x, y)]),
{
    let l = level_layout();
    assert(l[0] == 1 && l[1] == 1 && l[2] == 1 && l[3] == 1);
    assert(l[4] == 1 && l[5] == 1 && l[6] == 1 && l[7] == 1);
    assert(l[8] == 1 && l[16] == 1 && l[24] == 1 && l[32] == 1 && l[40] == 1 && l[48] == 1);
    assert(l[15] == 1 && l[23] == 1 && l[31] == 1 && l[39] == 1 && l[47] == 1 && l[55] == 1);
    assert(l[56] == 1 && l[57] == 1 && l[58] == 1 && l[59] == 1);
    assert(l[60] == 1 && l[61] == 1 && l[62] == 1 && l[63] == 1);
}

} // verus!
