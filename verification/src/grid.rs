//! Integer grid cells, world coordinates and the world/grid transform.
//!
//! World positions are whole world units (the game's pixels); grid cells are
//! squares of `cell_size` world units. The y axis is flipped between the two:
//! the level origin sits at the top-left of the map, while world y grows
//! upward, so a cell's row is counted down from `origin_y + height`.

use vstd::prelude::*;

verus! {

/// A grid cell coordinate.
#[derive(Clone, Copy, Debug, PartialEq, Eq, Hash, Structural)]
pub struct Pos {
    pub x: i32,
    pub y: i32,
}

/// A world-space position in whole world units.
#[derive(Clone, Copy, Debug, PartialEq, Eq, Structural)]
pub struct WorldVec2 {
    pub x: i64,
    pub y: i64,
}

/// Bound on the magnitude of world coordinates the transform accepts.
pub const WORLD_BOUND: i64 = 0x2000_0000;

/// Largest cell size the transform accepts, in world units.
pub const MAX_CELL_SIZE: i64 = 4096;

/// Bound on grid dimensions, in cells.
pub const MAX_GRID_DIM: i32 = 0x100000;

/// Euclidean (floor, for a positive divisor) quotient of `a` by `b`.
pub open spec fn floor_div(a: int, b: int) -> int {
    a / b
}

/// Division that rounds toward negative infinity, matching `floor` of the
/// exact quotient for a positive divisor.
pub fn floor_div_i64(a: i64, b: i64) -> (q: i64)
    requires
        0 < b <= 0x1_0000_0000,
        -0x4000_0000_0000_0000 < a < 0x4000_0000_0000_0000,
    ensures
        q == floor_div(a as int, b as int),
{
    proof {
        lemma_floor_div_bounds(a as int, b as int);
    }
    floor_div_i128(a as i128, b as i128) as i64
}

/// Division that rounds toward negative infinity, on wide intermediates.
pub fn floor_div_i128(a: i128, b: i128) -> (q: i128)
    requires
        0 < b <= 0x4000_0000_0000_0000,
        -0x4000_0000_0000_0000_0000_0000_0000_0000 < a
            < 0x4000_0000_0000_0000_0000_0000_0000_0000,
    ensures
        q == floor_div(a as int, b as int),
{
    if a >= 0 {
        let q = (a as u128 / b as u128) as i128;
        proof {
            vstd::arithmetic::div_mod::lemma_fundamental_div_mod(a as int, b as int);
        }
        q
    } else {
        let m = (-a) as u128;
        let bb = b as u128;
        let q_u = (m + bb - 1) / bb;
        proof {
            lemma_floor_div_bounds(m + bb - 1, bb as int);
        }
        let r = q_u as i128;
        proof {
            let mi = m as int;
            let bi = b as int;
            vstd::arithmetic::div_mod::lemma_fundamental_div_mod(mi, bi);
            vstd::arithmetic::div_mod::lemma_fundamental_div_mod(mi + bi - 1, bi);
            vstd::arithmetic::div_mod::lemma_fundamental_div_mod(a as int, bi);
            assert(-r == a as int / bi) by (nonlinear_arith)
                requires
                    mi == a as int * -1,
                    0 < bi,
                    r == (mi + bi - 1) / bi,
                    mi == bi * (mi / bi) + mi % bi,
                    0 <= mi % bi < bi,
                    mi + bi - 1 == bi * ((mi + bi - 1) / bi) + (mi + bi - 1) % bi,
                    0 <= (mi + bi - 1) % bi < bi,
                    a as int == bi * (a as int / bi) + a as int % bi,
                    0 <= a as int % bi < bi,
            ;
        }
        -r
    }
}

/// The immutable per-level record mapping world positions to grid cells.
///
/// `transform_x`/`transform_y` are the level's world-space translation,
/// `height` its world-space height, `cell_size` the side of one square cell
/// and `grid_size` the level's dimensions in cells. The record is not usable
/// until the level geometry is known, which `ready` reports.
pub struct TransformToGrid {
    pub height: i64,
    pub transform_x: i64,
    pub transform_y: i64,
    pub cell_size: i64,
    pub grid_size: Pos,
    pub ready: bool,
}

impl TransformToGrid {
    /// The transform's fields are in range for overflow-free conversions.
    pub open spec fn wf(self) -> bool {
        &&& 0 < self.cell_size <= MAX_CELL_SIZE
        &&& 0 <= self.height <= WORLD_BOUND
        &&& -WORLD_BOUND <= self.transform_x <= WORLD_BOUND
        &&& -WORLD_BOUND <= self.transform_y <= WORLD_BOUND
        &&& 0 <= self.grid_size.x <= MAX_GRID_DIM
        &&& 0 <= self.grid_size.y <= MAX_GRID_DIM
    }

    /// The cell column enclosing world x coordinate `wx`.
    pub open spec fn cell_x_of(self, wx: int) -> int {
        floor_div(wx - self.transform_x, self.cell_size as int)
    }

    /// The cell row enclosing world y coordinate `wy` (y axis flipped).
    pub open spec fn cell_y_of(self, wy: int) -> int {
        floor_div(self.transform_y + self.height - wy, self.cell_size as int)
    }

    /// The world x coordinate of the centre of cell column `cx`.
    pub open spec fn world_x_of(self, cx: int) -> int {
        self.transform_x + cx * self.cell_size + self.cell_size / 2
    }

    /// The world y coordinate of the centre of cell row `cy` (y axis flipped).
    pub open spec fn world_y_of(self, cy: int) -> int {
        self.transform_y + self.height - cy * self.cell_size - self.cell_size / 2
    }

    /// An un-ready transform with empty dimensions, as installed before the
    /// level geometry has loaded.
    pub fn unready() -> (t: TransformToGrid)
        ensures
            !t.ready,
            t.wf(),
    {
        TransformToGrid {
            height: 0,
            transform_x: 0,
            transform_y: 0,
            cell_size: 16,
            grid_size: Pos { x: 0, y: 0 },
            ready: false,
        }
    }


    /// Builds the transform from a loaded level's pixel dimensions and
    /// world translation, with the level format's 16-unit square cells;
    /// `None` when the level's geometry exceeds the supported bounds.
    pub fn from_level(px_wid: i64, px_hei: i64, translation_x: i64, translation_y: i64) -> (r:
        Option<TransformToGrid>)
        ensures
            match r {
                Some(t) => {
                    &&& t.wf()
                    &&& t.ready
                    &&& t.height == px_hei
                    &&& t.transform_x == translation_x
                    &&& t.transform_y == translation_y
                    &&& t.cell_size == 16
                    &&& t.grid_size.x == px_wid / 16
                    &&& t.grid_size.y == px_hei / 16
                },
                None => {
                    ||| !(0 <= px_wid <= 16 * MAX_GRID_DIM as i64)
                    ||| !(0 <= px_hei <= 16 * MAX_GRID_DIM as i64)
                    ||| !(-WORLD_BOUND <= translation_x <= WORLD_BOUND)
                    ||| !(-WORLD_BOUND <= translation_y <= WORLD_BOUND)
                },
            },
    {
        let dim_cap: i64 = 16 * (MAX_GRID_DIM as i64);
        if !(0 <= px_wid && px_wid <= dim_cap && 0 <= px_hei && px_hei <= dim_cap && -WORLD_BOUND
            <= translation_x && translation_x <= WORLD_BOUND && -WORLD_BOUND <= translation_y
            && translation_y <= WORLD_BOUND) {
            return None;
        }
        Some(
            TransformToGrid {
                height: px_hei,
                transform_x: translation_x,
                transform_y: translation_y,
                cell_size: 16,
                grid_size: Pos { x: (px_wid / 16) as i32, y: (px_hei / 16) as i32 },
                ready: true,
            },
        )
    }

    /// Maps a world position to the enclosing grid cell, flooring on both
    /// axes and flipping the y axis.
    pub fn from_world_i32(&self, position: WorldVec2) -> (c: Pos)
        requires
            self.wf(),
            -WORLD_BOUND <= position.x <= WORLD_BOUND,
            -WORLD_BOUND <= position.y <= WORLD_BOUND,
        ensures
            c.x == self.cell_x_of(position.x as int),
            c.y == self.cell_y_of(position.y as int),
    {
        let cx = floor_div_i64(position.x - self.transform_x, self.cell_size);
        let cy = floor_div_i64(self.transform_y + self.height - position.y, self.cell_size);
        proof {
            lemma_floor_div_bounds(position.x - self.transform_x, self.cell_size as int);
            lemma_floor_div_bounds(
                self.transform_y + self.height - position.y as int,
                self.cell_size as int,
            );
            assert(-0x8000_0000 <= cx < 0x8000_0000);
            assert(-0x8000_0000 <= cy < 0x8000_0000);
        }
        Pos { x: cx as i32, y: cy as i32 }
    }

    /// Maps a grid cell to the world position of its centre.
    pub fn to_world(&self, position: Pos) -> (w: WorldVec2)
        requires
            self.wf(),
            -MAX_GRID_DIM <= position.x <= MAX_GRID_DIM,
            -MAX_GRID_DIM <= position.y <= MAX_GRID_DIM,
        ensures
            w.x == self.world_x_of(position.x as int),
            w.y == self.world_y_of(position.y as int),
    {
        let half = self.cell_size / 2;
        proof {
            assert(-(MAX_GRID_DIM as int) * MAX_CELL_SIZE <= position.x as int * self.cell_size
                <= MAX_GRID_DIM as int * MAX_CELL_SIZE) by (nonlinear_arith)
                requires
                    -MAX_GRID_DIM <= position.x <= MAX_GRID_DIM,
                    0 < self.cell_size <= MAX_CELL_SIZE,
            ;
            assert(-(MAX_GRID_DIM as int) * MAX_CELL_SIZE <= position.y as int * self.cell_size
                <= MAX_GRID_DIM as int * MAX_CELL_SIZE) by (nonlinear_arith)
                requires
                    -MAX_GRID_DIM <= position.y <= MAX_GRID_DIM,
                    0 < self.cell_size <= MAX_CELL_SIZE,
            ;
        }
        let wx = self.transform_x + (position.x as i64) * self.cell_size + half;
        let wy = self.transform_y + self.height - (position.y as i64) * self.cell_size - half;
        WorldVec2 { x: wx, y: wy }
    }
}

/// For a positive divisor, the floor quotient of a bounded dividend is itself
/// bounded by the dividend's bounds.
pub proof fn lemma_floor_div_bounds(a: int, b: int)
    requires
        0 < b,
    ensures
        a >= 0 ==> 0 <= floor_div(a, b) <= a,
        a < 0 ==> a <= floor_div(a, b) < 0,
{
    vstd::arithmetic::div_mod::lemma_fundamental_div_mod(a, b);
    assert(a >= 0 ==> 0 <= a / b <= a) by (nonlinear_arith)
        requires
            0 < b,
            a == b * (a / b) + a % b,
            0 <= a % b < b,
    ;
    assert(a < 0 ==> a <= a / b < 0) by (nonlinear_arith)
        requires
            0 < b,
            a == b * (a / b) + a % b,
            0 <= a % b < b,
    ;
}

/// Mapping a cell to its world-space centre and back yields the same cell:
/// the transform is a one-sided inverse at cell resolution.
pub proof fn lemma_world_roundtrip(t: TransformToGrid, c: Pos)
    requires
        t.wf(),
    ensures
        t.cell_x_of(t.world_x_of(c.x as int)) == c.x,
        t.cell_y_of(t.world_y_of(c.y as int)) == c.y,
{
    let cs = t.cell_size as int;
    vstd::arithmetic::div_mod::lemma_fundamental_div_mod(cs, 2);
    assert((c.x * cs + cs / 2) / cs == c.x) by (nonlinear_arith)
        requires
            0 < cs,
            0 <= cs / 2 < cs,
    ;
    assert((c.y * cs + cs / 2) / cs == c.y) by (nonlinear_arith)
        requires
            0 < cs,
            0 <= cs / 2 < cs,
    ;
    assert(t.world_x_of(c.x as int) - t.transform_x == c.x * cs + cs / 2);
    assert(t.transform_y + t.height - t.world_y_of(c.y as int) == c.y * cs + cs / 2);
}

} // verus!
