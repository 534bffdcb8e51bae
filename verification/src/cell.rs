//! The state of a single cell and the rule by which it changes.

use vstd::prelude::*;

verus! {

/// The state of one cell of the automaton.
#[derive(Debug, Clone, Copy, PartialEq, Eq, Structural)]
pub enum Cell {
    Dead,
    Alive,
}

/// Conway's rule: what a cell in state `state` becomes when `alive_neighbors`
/// of the cells around it are alive.
pub open spec fn next_state(state: Cell, alive_neighbors: nat) -> Cell {
    match state {
        Cell::Dead => if alive_neighbors == 3 {
            Cell::Alive
        } else {
            Cell::Dead
        },
        Cell::Alive => if alive_neighbors == 2 || alive_neighbors == 3 {
            Cell::Alive
        } else {
            Cell::Dead
        },
    }
}

impl Cell {
    /// The cell that a fair draw stands for: `Dead` for `true`, `Alive` for `false`.
    pub fn from_draw(draw: bool) -> (cell: Cell)
        ensures
            cell == (if draw { Cell::Dead } else { Cell::Alive }),
    {
        if draw {
            Cell::Dead
        } else {
            Cell::Alive
        }
    }

    /// Applies Conway's rule to this cell.
    pub fn evolve(self, alive_neighbors: usize) -> (next: Cell)
        ensures
            next == next_state(self, alive_neighbors as nat),
    {
        match self {
            Cell::Dead => {
                if alive_neighbors == 3 {
                    Cell::Alive
                } else {
                    Cell::Dead
                }
            },
            Cell::Alive => {
                if alive_neighbors == 2 || alive_neighbors == 3 {
                    Cell::Alive
                } else {
                    Cell::Dead
                }
            },
        }
    }
}

} // verus!
