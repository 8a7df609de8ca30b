//! The walkability and occupancy grid shared by all pathfinding queries.
//!
//! The static walkability matrix is written once, when the level's collision
//! geometry has been fully indexed; the dynamic occupied-cell list is cleared
//! and repopulated once per simulation tick from every moving unit's current
//! cell. A cell is trespassable iff it lies within the grid bounds and the
//! matrix marks it walkable; anything out of bounds counts as blocked.

use vstd::prelude::*;
use crate::grid::{Pos, MAX_GRID_DIM};

verus! {

/// Combined static walkability matrix and per-tick unit occupancy.
pub struct TrespassableCells {
    pub cells: Vec<Vec<bool>>,
    pub units: Vec<Pos>,
    pub ready: bool,
}

impl TrespassableCells {
    /// The matrix dimensions stay within the supported grid bounds.
    pub open spec fn wf(self) -> bool {
        &&& self.cells@.len() <= MAX_GRID_DIM as int
        &&& forall|x: int|
            0 <= x < self.cells@.len() ==> (#[trigger] self.cells@[x])@.len()
                <= MAX_GRID_DIM as int
    }

    /// Whether the column/row pair lies in the grid and is marked walkable.
    pub open spec fn tres_at(self, x: int, y: int) -> bool {
        &&& 0 <= x < self.cells@.len()
        &&& 0 <= y < self.cells@[x]@.len()
        &&& self.cells@[x]@[y]
    }

    /// Whether the cell lies in the grid and is marked walkable.
    pub open spec fn spec_trespassable(self, pos: Pos) -> bool {
        self.tres_at(pos.x as int, pos.y as int)
    }

    /// Whether a moving unit currently stands on the cell.
    pub open spec fn occupied(self, pos: Pos) -> bool {
        self.units@.contains(pos)
    }

    /// An empty, un-ready grid, as installed before the level loads.
    pub fn unready() -> (t: TrespassableCells)
        ensures
            !t.ready,
            t.wf(),
            t.cells@.len() == 0,
            t.units@.len() == 0,
    {
        TrespassableCells { cells: Vec::new(), units: Vec::new(), ready: false }
    }

    /// Reports whether the cell may legally be traversed; out-of-bounds
    /// queries answer no.
    pub fn is_trespassable(&self, pos: &Pos) -> (r: bool)
        ensures
            r == self.spec_trespassable(*pos),
    {
        if pos.x < 0 || pos.y < 0 {
            return false;
        }
        let x = pos.x as usize;
        let y = pos.y as usize;
        if x >= self.cells.len() {
            return false;
        }
        let column = &self.cells[x];
        if y >= column.len() {
            return false;
        }
        column[y]
    }

    /// Reports whether a moving unit currently stands on the cell.
    pub fn contains_unit(&self, pos: &Pos) -> (r: bool)
        ensures
            r == self.occupied(*pos),
    {
        let mut i: usize = 0;
        while i < self.units.len()
            invariant
                i <= self.units@.len(),
                forall|j: int| 0 <= j < i ==> self.units@[j] != *pos,
            decreases self.units@.len() - i,
        {
            if self.units[i].x == pos.x && self.units[i].y == pos.y {
                return true;
            }
            i = i + 1;
        }
        false
    }

    /// Clears the dynamic occupied-cell list and repopulates it from the
    /// given unit cells; the walkability matrix is untouched. Run once per
    /// tick before any pathfinding query of that tick.
    pub fn update_units(&mut self, positions: &Vec<Pos>)
        ensures
            final(self).units@ == positions@,
            final(self).cells@ == old(self).cells@,
            final(self).ready == old(self).ready,
            final(self).wf() == old(self).wf(),
    {
        self.units.clear();
        let mut i: usize = 0;
        while i < positions.len()
            invariant
                i <= positions@.len(),
                self.units@ == positions@.subrange(0, i as int),
                self.cells@ == old(self).cells@,
                self.ready == old(self).ready,
            decreases positions@.len() - i,
        {
            self.units.push(positions[i]);
            i = i + 1;
        }
        proof {
            assert(self.units@ =~= positions@);
        }
    }

    /// Installs the static walkability matrix from the level's dimensions
    /// and its obstacle tiles, and marks the grid ready.
    ///
    /// Obstacle coordinates arrive in the level format's convention, with
    /// rows counted from the bottom; row `y` lands on matrix row
    /// `height - y - 1`. Every cell is walkable except those carrying an
    /// obstacle.
    pub fn init_cells(&mut self, grid_size: Pos, obstacles: &Vec<Pos>)
        requires
            0 < grid_size.x <= MAX_GRID_DIM,
            0 < grid_size.y <= MAX_GRID_DIM,
            forall|k: int|
                0 <= k < obstacles@.len() ==> 0 <= (#[trigger] obstacles@[k]).x < grid_size.x
                    && 0 <= obstacles@[k].y < grid_size.y,
        ensures
            final(self).ready,
            final(self).units@ == old(self).units@,
            final(self).wf(),
            final(self).cells@.len() == grid_size.x as int,
            forall|x: int|
                0 <= x < grid_size.x ==> (#[trigger] final(self).cells@[x])@.len() == grid_size.y as int,
            forall|x: int, y: int|
                0 <= x < grid_size.x && 0 <= y < grid_size.y ==> ((#[trigger] final(self).tres_at(x, y)) <==> !exists|
                    k: int,
                |
                    0 <= k < obstacles@.len() && (#[trigger] obstacles@[k]).x == x && grid_size.y
                        - obstacles@[k].y - 1 == y),
    {
        let height = grid_size.y as usize;
        let width = grid_size.x as usize;
        let mut grid: Vec<Vec<bool>> = Vec::new();
        while grid.len() < width
            invariant
                grid@.len() <= width,
                forall|x: int|
                    0 <= x < grid@.len() ==> (#[trigger] grid@[x])@.len() == height as int,
                forall|x: int, y: int|
                    0 <= x < grid@.len() && 0 <= y < height ==> (#[trigger] grid@[x]@[y]),
            decreases width - grid@.len(),
        {
            let mut column: Vec<bool> = Vec::new();
            while column.len() < height
                invariant
                    column@.len() <= height,
                    forall|y: int| 0 <= y < column@.len() ==> (#[trigger] column@[y]),
                decreases height - column@.len(),
            {
                column.push(true);
            }
            grid.push(column);
        }
        let mut k: usize = 0;
        while k < obstacles.len()
            invariant
                k <= obstacles@.len(),
                grid@.len() == width,
                width == grid_size.x as int,
                height == grid_size.y as int,
                grid_size.y <= MAX_GRID_DIM,
                forall|x: int|
                    0 <= x < grid@.len() ==> (#[trigger] grid@[x])@.len() == height as int,
                forall|j: int|
                    0 <= j < obstacles@.len() ==> 0 <= (#[trigger] obstacles@[j]).x < width && 0
                        <= obstacles@[j].y < height,
                forall|x: int, y: int|
                    0 <= x < width && 0 <= y < height ==> ((#[trigger] grid@[x]@[y]) <==> !exists|
                        j: int,
                    |
                        0 <= j < k && (#[trigger] obstacles@[j]).x == x && height - obstacles@[j].y
                            - 1 == y),
            decreases obstacles@.len() - k,
        {
            let ob = obstacles[k];
            let x = ob.x as usize;
            let y = height - 1 - (ob.y as usize);
            let column = &mut grid[x];
            column.set(y, false);
            k = k + 1;
        }
        self.cells = grid;
        self.ready = true;
    }
}

} // verus!
