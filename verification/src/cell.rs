use vstd::prelude::*;

verus! {

/// The state of one grid cell: a closed two-variant tag, nothing more.
#[derive(Clone, Copy, PartialEq, Eq, Structural, Debug)]
pub enum CellState {
    Dead,
    Alive,
}

/// The Conway B3/S23 rule: the state a cell takes in the next generation,
/// given its current state and its number of live Moore neighbors.
/// A live cell survives with 2 or 3 live neighbors and dies otherwise;
/// a dead cell is born with exactly 3 live neighbors and stays dead otherwise.
pub open spec fn next_state(current: CellState, neighbors: int) -> CellState {
    match current {
        CellState::Alive => if 2 <= neighbors && neighbors <= 3 {
            CellState::Alive
        } else {
            CellState::Dead
        },
        CellState::Dead => if neighbors == 3 {
            CellState::Alive
        } else {
            CellState::Dead
        },
    }
}

/// 1 if the condition holds, else 0; used to sum live neighbors.
pub open spec fn ind(b: bool) -> int {
    if b {
        1
    } else {
        0
    }
}

} // verus!
