use vstd::prelude::*;

use crate::cell::next_state;
use crate::cell::ind;
use crate::cell::CellState;

verus! {

/// A fixed-size two-dimensional field of cells, stored row-major as
/// `grid[y][x]`. Dimensions are set at construction and never change.
/// The grid has hard edges: positions outside it are treated as dead,
/// never wrapped to the opposite side.
pub struct GameOfLife {
    pub grid: Vec<Vec<CellState>>,
    pub width: usize,
    pub height: usize,
}

impl GameOfLife {
    /// Well-formedness: positive dimensions and a dense `width x height` array
    /// with exactly one cell per position.
    pub open spec fn wf(self) -> bool {
        &&& 0 < self.width
        &&& 0 < self.height
        &&& self.grid@.len() == self.height
        &&& forall|y: int|
            0 <= y < self.height ==> (#[trigger] self.grid@[y])@.len() == self.width
    }

    /// The state of the cell at (x, y).
    pub open spec fn cell(self, x: int, y: int) -> CellState
        recommends
            0 <= x < self.width,
            0 <= y < self.height,
    {
        self.grid@[y]@[x]
    }

    /// Whether (x, y) names a live cell; positions outside the grid count as
    /// dead.
    pub open spec fn alive(self, x: int, y: int) -> bool {
        &&& 0 <= x < self.width
        &&& 0 <= y < self.height
        &&& self.cell(x, y) == CellState::Alive
    }

    /// The number of live cells among the 8 Moore-neighborhood positions of
    /// (x, y). Positions outside `[0,width) x [0,height)` are never counted.
    pub open spec fn live_neighbors(self, x: int, y: int) -> int {
        ind(self.alive(x - 1, y - 1)) + ind(self.alive(x, y - 1)) + ind(
            self.alive(x + 1, y - 1),
        ) + ind(self.alive(x - 1, y)) + ind(self.alive(x + 1, y)) + ind(
            self.alive(x - 1, y + 1),
        ) + ind(self.alive(x, y + 1)) + ind(self.alive(x + 1, y + 1))
    }

    /// Every cell of the grid is dead.
    pub open spec fn all_dead(self) -> bool {
        forall|x: int, y: int|
            0 <= x < self.width && 0 <= y < self.height ==> #[trigger] self.cell(x, y)
                == CellState::Dead
    }

    /// `post` is `pre` advanced by exactly one synchronous generation: every
    /// cell of `post` is the rule applied to the corresponding cell of `pre`
    /// and its neighbor count taken wholly from `pre`.
    pub open spec fn stepped(pre: GameOfLife, post: GameOfLife) -> bool {
        &&& post.width == pre.width
        &&& post.height == pre.height
        &&& forall|x: int, y: int|
            0 <= x < pre.width && 0 <= y < pre.height ==> #[trigger] post.cell(x, y) == next_state(
                pre.cell(x, y),
                pre.live_neighbors(x, y),
            )
    }

    /// Returns a grid of the given dimensions with all cells dead.
    pub fn new(width: usize, height: usize) -> (r: GameOfLife)
        requires
            0 < width,
            0 < height,
        ensures
            r.wf(),
            r.width == width,
            r.height == height,
            r.all_dead(),
    {
        let r = GameOfLife { grid: dead_grid(width, height), width, height };
        assert forall|x: int, y: int| 0 <= x < r.width && 0 <= y < r.height implies #[trigger] r.cell(
            x,
            y,
        ) == CellState::Dead by {
            assert(r.grid@[y]@[x] == CellState::Dead);
        }
        r
    }

    /// Sets every cell of the grid back to dead.
    pub fn clear_grid(&mut self)
        requires
            old(self).wf(),
        ensures
            final(self).wf(),
            final(self).width == old(self).width,
            final(self).height == old(self).height,
            final(self).all_dead(),
    {
        self.grid = dead_grid(self.width, self.height);
        assert forall|x: int, y: int|
            0 <= x < self.width && 0 <= y < self.height implies #[trigger] self.cell(x, y)
            == CellState::Dead by {
            assert(self.grid@[y]@[x] == CellState::Dead);
        }
    }
    /// Whether (x, y) lies inside the grid.
    pub fn is_valid_position(&self, x: i32, y: i32) -> (r: bool)
        ensures
            r == (0 <= x < self.width && 0 <= y < self.height),
    {
        x >= 0 && (x as usize) < self.width && y >= 0 && (y as usize) < self.height
    }

    /// Whether the cell at (x, y) is alive.
    pub fn is_alive(&self, x: usize, y: usize) -> (r: bool)
        requires
            self.wf(),
            x < self.width,
            y < self.height,
        ensures
            r == self.alive(x as int, y as int),
    {
        self.grid[y][x] == CellState::Alive
    }

    /// Applies the Conway rule to one cell state and neighbor count.
    pub fn apply_rules(&self, current_state: CellState, neighbors: usize) -> (r: CellState)
        ensures
            r == next_state(current_state, neighbors as int),
    {
        match current_state {
            CellState::Alive => if neighbors == 2 || neighbors == 3 {
                CellState::Alive
            } else {
                CellState::Dead
            },
            CellState::Dead => if neighbors == 3 {
                CellState::Alive
            } else {
                CellState::Dead
            },
        }
    }

    /// Counts the live cells among the 8 Moore-neighborhood positions of
    /// (x, y); neighbor positions outside the grid are skipped, never wrapped.
    pub fn count_live_neighbors(&self, x: usize, y: usize) -> (count: usize)
        requires
            self.wf(),
            x < self.width,
            y < self.height,
        ensures
            count == self.live_neighbors(x as int, y as int),
            count <= 8,
    {
        let mut count: usize = 0;
        if x > 0 && y > 0 && self.is_alive(x - 1, y - 1) {
            count += 1;
        }
        if y > 0 && self.is_alive(x, y - 1) {
            count += 1;
        }
        if x + 1 < self.width && y > 0 && self.is_alive(x + 1, y - 1) {
            count += 1;
        }
        if x > 0 && self.is_alive(x - 1, y) {
            count += 1;
        }
        if x + 1 < self.width && self.is_alive(x + 1, y) {
            count += 1;
        }
        if x > 0 && y + 1 < self.height && self.is_alive(x - 1, y + 1) {
            count += 1;
        }
        if y + 1 < self.height && self.is_alive(x, y + 1) {
            count += 1;
        }
        if x + 1 < self.width && y + 1 < self.height && self.is_alive(x + 1, y + 1) {
            count += 1;
        }
        count
    }

    /// Sets the cell at (x, y) alive, leaving every other cell as it was.
    pub fn set_alive(&mut self, x: usize, y: usize)
        requires
            old(self).wf(),
            x < old(self).width,
            y < old(self).height,
        ensures
            final(self).wf(),
            final(self).width == old(self).width,
            final(self).height == old(self).height,
            final(self).cell(x as int, y as int) == CellState::Alive,
            forall|qx: int, qy: int|
                0 <= qx < old(self).width && 0 <= qy < old(self).height && !(qx == x && qy == y)
                    ==> #[trigger] final(self).cell(qx, qy) == old(self).cell(qx, qy),
    {
        self.grid[y][x] = CellState::Alive;
    }

    /// Advances the grid one generation. The rule is evaluated for every cell
    /// against the old grid only: a full next-state array is built first and
    /// committed at the end, so no partially updated state leaks into any
    /// neighbor count.
    pub fn next_generation(&mut self)
        requires
            old(self).wf(),
        ensures
            final(self).wf(),
            GameOfLife::stepped(*old(self), *final(self)),
    {
        let ghost g = *self;
        let mut new_grid: Vec<Vec<CellState>> = Vec::new();
        for y in 0..self.height
            invariant
                *self == g,
                self.wf(),
                new_grid@.len() == y,
                forall|q: int| 0 <= q < y ==> (#[trigger] new_grid@[q])@.len() == self.width,
                forall|q: int, p: int|
                    0 <= q < y && 0 <= p < self.width ==> #[trigger] new_grid@[q]@[p] == next_state(
                        self.cell(p, q),
                        self.live_neighbors(p, q),
                    ),
        {
            let mut row: Vec<CellState> = Vec::new();
            for x in 0..self.width
                invariant
                    *self == g,
                    self.wf(),
                    y < self.height,
                    row@.len() == x,
                    forall|p: int|
                        0 <= p < x ==> #[trigger] row@[p] == next_state(
                            self.cell(p, y as int),
                            self.live_neighbors(p, y as int),
                        ),
            {
                let neighbors = self.count_live_neighbors(x, y);
                row.push(self.apply_rules(self.grid[y][x], neighbors));
            }
            new_grid.push(row);
        }
        self.grid = new_grid;
        assert forall|x: int, y: int|
            0 <= x < g.width && 0 <= y < g.height implies #[trigger] self.cell(x, y) == next_state(
            g.cell(x, y),
            g.live_neighbors(x, y),
        ) by {
            assert(self.grid@[y]@[x] == next_state(g.cell(x, y), g.live_neighbors(x, y)));
        }
    }
}

/// One all-dead row of the given width.
fn dead_row(width: usize) -> (r: Vec<CellState>)
    ensures
        r@.len() == width,
        forall|i: int| 0 <= i < width ==> r@[i] == CellState::Dead,
{
    let mut row: Vec<CellState> = Vec::new();
    for i in 0..width
        invariant
            row@.len() == i,
            forall|j: int| 0 <= j < i ==> row@[j] == CellState::Dead,
    {
        row.push(CellState::Dead);
    }
    row
}

/// A dense all-dead array of the given dimensions.
fn dead_grid(width: usize, height: usize) -> (r: Vec<Vec<CellState>>)
    ensures
        r@.len() == height,
        forall|y: int| 0 <= y < height ==> (#[trigger] r@[y])@.len() == width,
        forall|y: int, x: int|
            0 <= y < height && 0 <= x < width ==> #[trigger] r@[y]@[x] == CellState::Dead,
{
    let mut rows: Vec<Vec<CellState>> = Vec::new();
    for y in 0..height
        invariant
            rows@.len() == y,
            forall|q: int| 0 <= q < y ==> (#[trigger] rows@[q])@.len() == width,
            forall|q: int, x: int|
                0 <= q < y && 0 <= x < width ==> #[trigger] rows@[q]@[x] == CellState::Dead,
    {
        rows.push(dead_row(width));
    }
    rows
}

} // verus!
