use vstd::prelude::*;

use crate::cell::CellState;
use crate::grid::GameOfLife;

verus! {

/// Whether (x, y) is one of the four cells of a Block whose top-left corner
/// sits at (bx, by).
pub open spec fn block_at(bx: int, by: int, x: int, y: int) -> bool {
    bx <= x <= bx + 1 && by <= y <= by + 1
}

/// Whether (x, y) is one of the three cells of a horizontal Blinker whose
/// left cell sits at (bx, by).
pub open spec fn blinker_row_at(bx: int, by: int, x: int, y: int) -> bool {
    y == by && bx <= x <= bx + 2
}

/// Whether (x, y) is one of the three cells of the vertical line a horizontal
/// Blinker based at (bx, by) turns into after one generation.
pub open spec fn blinker_column_at(bx: int, by: int, x: int, y: int) -> bool {
    x == bx + 1 && by - 1 <= y <= by + 1
}

/// Whether (x, y) is one of the five cells of a Glider based at (bx, by), in
/// its starting orientation.
pub open spec fn glider_phase0_at(bx: int, by: int, x: int, y: int) -> bool {
    ||| (x == bx + 1 && y == by)
    ||| (x == bx + 2 && y == by + 1)
    ||| (x == bx && y == by + 2)
    ||| (x == bx + 1 && y == by + 2)
    ||| (x == bx + 2 && y == by + 2)
}

/// The Glider shape one generation after its starting orientation.
pub open spec fn glider_phase1_at(bx: int, by: int, x: int, y: int) -> bool {
    ||| (x == bx && y == by + 1)
    ||| (x == bx + 2 && y == by + 1)
    ||| (x == bx + 1 && y == by + 2)
    ||| (x == bx + 2 && y == by + 2)
    ||| (x == bx + 1 && y == by + 3)
}

/// The Glider shape two generations after its starting orientation.
pub open spec fn glider_phase2_at(bx: int, by: int, x: int, y: int) -> bool {
    ||| (x == bx + 2 && y == by + 1)
    ||| (x == bx && y == by + 2)
    ||| (x == bx + 2 && y == by + 2)
    ||| (x == bx + 1 && y == by + 3)
    ||| (x == bx + 2 && y == by + 3)
}

/// The Glider shape three generations after its starting orientation.
pub open spec fn glider_phase3_at(bx: int, by: int, x: int, y: int) -> bool {
    ||| (x == bx + 1 && y == by + 1)
    ||| (x == bx + 2 && y == by + 2)
    ||| (x == bx + 3 && y == by + 2)
    ||| (x == bx + 1 && y == by + 3)
    ||| (x == bx + 2 && y == by + 3)
}

/// The grid holds exactly the given shape: an in-bounds cell is alive if and
/// only if the shape covers it.
pub open spec fn exact_shape(g: GameOfLife, shape: spec_fn(int, int) -> bool) -> bool {
    forall|x: int, y: int|
        0 <= x < g.width && 0 <= y < g.height ==> (#[trigger] g.cell(x, y) == CellState::Alive
            <==> shape(x, y))
}

/// No spontaneous birth: one step of an all-dead grid is all-dead, since no
/// dead cell ever sees the three live neighbors a birth needs.
pub proof fn lemma_step_of_all_dead(pre: GameOfLife, post: GameOfLife)
    requires
        pre.all_dead(),
        GameOfLife::stepped(pre, post),
    ensures
        post.all_dead(),
{
    assert forall|x: int, y: int|
        0 <= x < post.width && 0 <= y < post.height implies #[trigger] post.cell(x, y)
        == CellState::Dead by {
        assert(pre.live_neighbors(x, y) == 0);
    }
}

/// A Block away from every grid edge is a fixed point: one step leaves every
/// cell of the grid unchanged.
pub proof fn lemma_block_fixed_point(pre: GameOfLife, post: GameOfLife, bx: int, by: int)
    requires
        1 <= bx,
        bx + 2 < pre.width,
        1 <= by,
        by + 2 < pre.height,
        exact_shape(pre, |x: int, y: int| block_at(bx, by, x, y)),
        GameOfLife::stepped(pre, post),
    ensures
        forall|x: int, y: int|
            0 <= x < pre.width && 0 <= y < pre.height ==> #[trigger] post.cell(x, y) == pre.cell(
                x,
                y,
            ),
{
    assert forall|x: int, y: int|
        0 <= x < pre.width && 0 <= y < pre.height implies #[trigger] post.cell(x, y) == pre.cell(
        x,
        y,
    ) by {
        assert(pre.cell(x, y) == CellState::Alive <==> block_at(bx, by, x, y));
    }
}

/// One step turns a horizontal Blinker away from every edge into the vertical
/// three-cell line through its middle cell, on an otherwise empty grid.
pub proof fn lemma_blinker_row_to_column(pre: GameOfLife, post: GameOfLife, bx: int, by: int)
    requires
        1 <= bx,
        bx + 3 < pre.width,
        2 <= by,
        by + 2 < pre.height,
        exact_shape(pre, |x: int, y: int| blinker_row_at(bx, by, x, y)),
        GameOfLife::stepped(pre, post),
    ensures
        exact_shape(post, |x: int, y: int| blinker_column_at(bx, by, x, y)),
{
    assert forall|x: int, y: int|
        0 <= x < post.width && 0 <= y < post.height implies (#[trigger] post.cell(x, y)
        == CellState::Alive <==> blinker_column_at(bx, by, x, y)) by {
        assert(pre.cell(x, y) == CellState::Alive <==> blinker_row_at(bx, by, x, y));
    }
}

/// One step turns the vertical Blinker line back into the horizontal one: the
/// second half of the period-2 oscillation.
pub proof fn lemma_blinker_column_to_row(pre: GameOfLife, post: GameOfLife, bx: int, by: int)
    requires
        1 <= bx,
        bx + 3 < pre.width,
        2 <= by,
        by + 2 < pre.height,
        exact_shape(pre, |x: int, y: int| blinker_column_at(bx, by, x, y)),
        GameOfLife::stepped(pre, post),
    ensures
        exact_shape(post, |x: int, y: int| blinker_row_at(bx, by, x, y)),
{
    assert forall|x: int, y: int|
        0 <= x < post.width && 0 <= y < post.height implies (#[trigger] post.cell(x, y)
        == CellState::Alive <==> blinker_row_at(bx, by, x, y)) by {
        assert(pre.cell(x, y) == CellState::Alive <==> blinker_column_at(bx, by, x, y));
    }
}

/// A Blinker away from every edge has period 2: two steps return exactly the
/// original grid contents, and the intermediate grid is the perpendicular
/// three-cell line.
pub proof fn lemma_blinker_period_two(
    pre: GameOfLife,
    mid: GameOfLife,
    post: GameOfLife,
    bx: int,
    by: int,
)
    requires
        1 <= bx,
        bx + 3 < pre.width,
        2 <= by,
        by + 2 < pre.height,
        exact_shape(pre, |x: int, y: int| blinker_row_at(bx, by, x, y)),
        GameOfLife::stepped(pre, mid),
        GameOfLife::stepped(mid, post),
    ensures
        exact_shape(mid, |x: int, y: int| blinker_column_at(bx, by, x, y)),
        forall|x: int, y: int|
            0 <= x < pre.width && 0 <= y < pre.height ==> #[trigger] post.cell(x, y) == pre.cell(
                x,
                y,
            ),
{
    lemma_blinker_row_to_column(pre, mid, bx, by);
    lemma_blinker_column_to_row(mid, post, bx, by);
    assert forall|x: int, y: int|
        0 <= x < pre.width && 0 <= y < pre.height implies #[trigger] post.cell(x, y) == pre.cell(
        x,
        y,
    ) by {
        assert(post.cell(x, y) == CellState::Alive <==> blinker_row_at(bx, by, x, y));
        assert(pre.cell(x, y) == CellState::Alive <==> blinker_row_at(bx, by, x, y));
    }
}

/// One step advances a Glider from its starting orientation to its second
/// phase, on an otherwise empty grid away from every edge.
pub proof fn lemma_glider_step_one(pre: GameOfLife, post: GameOfLife, bx: int, by: int)
    requires
        1 <= bx,
        bx + 4 < pre.width,
        1 <= by,
        by + 4 < pre.height,
        exact_shape(pre, |x: int, y: int| glider_phase0_at(bx, by, x, y)),
        GameOfLife::stepped(pre, post),
    ensures
        exact_shape(post, |x: int, y: int| glider_phase1_at(bx, by, x, y)),
{
    assert forall|x: int, y: int|
        0 <= x < post.width && 0 <= y < post.height implies (#[trigger] post.cell(x, y)
        == CellState::Alive <==> glider_phase1_at(bx, by, x, y)) by {
        assert(pre.cell(x, y) == CellState::Alive <==> glider_phase0_at(bx, by, x, y));
    }
}

/// One step advances a Glider from its second phase to its third.
pub proof fn lemma_glider_step_two(pre: GameOfLife, post: GameOfLife, bx: int, by: int)
    requires
        1 <= bx,
        bx + 4 < pre.width,
        1 <= by,
        by + 4 < pre.height,
        exact_shape(pre, |x: int, y: int| glider_phase1_at(bx, by, x, y)),
        GameOfLife::stepped(pre, post),
    ensures
        exact_shape(post, |x: int, y: int| glider_phase2_at(bx, by, x, y)),
{
    assert forall|x: int, y: int|
        0 <= x < post.width && 0 <= y < post.height implies (#[trigger] post.cell(x, y)
        == CellState::Alive <==> glider_phase2_at(bx, by, x, y)) by {
        assert(pre.cell(x, y) == CellState::Alive <==> glider_phase1_at(bx, by, x, y));
    }
}

/// One step advances a Glider from its third phase to its fourth.
pub proof fn lemma_glider_step_three(pre: GameOfLife, post: GameOfLife, bx: int, by: int)
    requires
        1 <= bx,
        bx + 4 < pre.width,
        1 <= by,
        by + 4 < pre.height,
        exact_shape(pre, |x: int, y: int| glider_phase2_at(bx, by, x, y)),
        GameOfLife::stepped(pre, post),
    ensures
        exact_shape(post, |x: int, y: int| glider_phase3_at(bx, by, x, y)),
{
    assert forall|x: int, y: int|
        0 <= x < post.width && 0 <= y < post.height implies (#[trigger] post.cell(x, y)
        == CellState::Alive <==> glider_phase3_at(bx, by, x, y)) by {
        assert(pre.cell(x, y) == CellState::Alive <==> glider_phase2_at(bx, by, x, y));
    }
}

/// One step advances a Glider from its fourth phase back to its starting
/// orientation, translated one cell right and one cell down.
pub proof fn lemma_glider_step_four(pre: GameOfLife, post: GameOfLife, bx: int, by: int)
    requires
        1 <= bx,
        bx + 4 < pre.width,
        1 <= by,
        by + 4 < pre.height,
        exact_shape(pre, |x: int, y: int| glider_phase3_at(bx, by, x, y)),
        GameOfLife::stepped(pre, post),
    ensures
        exact_shape(post, |x: int, y: int| glider_phase0_at(bx + 1, by + 1, x, y)),
{
    assert forall|x: int, y: int|
        0 <= x < post.width && 0 <= y < post.height implies (#[trigger] post.cell(x, y)
        == CellState::Alive <==> glider_phase0_at(bx + 1, by + 1, x, y)) by {
        assert(pre.cell(x, y) == CellState::Alive <==> glider_phase3_at(bx, by, x, y));
    }
}

/// A Glider away from every edge reproduces its exact five-cell shape,
/// translated by (+1, +1), after four steps.
pub proof fn lemma_glider_period_four(
    pre: GameOfLife,
    step1: GameOfLife,
    step2: GameOfLife,
    step3: GameOfLife,
    post: GameOfLife,
    bx: int,
    by: int,
)
    requires
        1 <= bx,
        bx + 4 < pre.width,
        1 <= by,
        by + 4 < pre.height,
        exact_shape(pre, |x: int, y: int| glider_phase0_at(bx, by, x, y)),
        GameOfLife::stepped(pre, step1),
        GameOfLife::stepped(step1, step2),
        GameOfLife::stepped(step2, step3),
        GameOfLife::stepped(step3, post),
    ensures
        exact_shape(post, |x: int, y: int| glider_phase0_at(bx + 1, by + 1, x, y)),
{
    lemma_glider_step_one(pre, step1, bx, by);
    lemma_glider_step_two(step1, step2, bx, by);
    lemma_glider_step_three(step2, step3, bx, by);
    lemma_glider_step_four(step3, post, bx, by);
}

/// Neighbor counting never consults positions outside the grid: the corner
/// cell (0, 0) has only three positions that can ever be counted, so its
/// neighbor count never exceeds 3.
pub proof fn lemma_corner_neighbor_bound(g: GameOfLife)
    ensures
        g.live_neighbors(0, 0) <= 3,
{
    assert(!g.alive(-1, -1) && !g.alive(0, -1) && !g.alive(1, -1) && !g.alive(-1, 0) && !g.alive(
        -1,
        1,
    ));
}

} // verus!
