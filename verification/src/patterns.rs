//! Patterns whose fate is known on every grid that has room for them.

use crate::cell::Cell;
use crate::generation::{
    is_rectangle, lemma_neighbors_on_ring, next_generation, ring_succ, Generation,
};
use vstd::prelude::*;

verus! {

/// `(row, col)` lies in the block of two rows and two columns whose upper
/// left cell is `(top, left)`. The block may reach across the edges of a grid
/// of `height` rows and `width` columns.
pub open spec fn in_block(
    width: nat,
    height: nat,
    top: int,
    left: int,
    row: int,
    col: int,
) -> bool {
    &&& row == top || row == ring_succ(top, height as int)
    &&& col == left || col == ring_succ(left, width as int)
}

/// The grid of `height` rows and `width` columns in which the cells of the
/// block at `(top, left)` are alive and all others are dead.
pub open spec fn block_grid(width: nat, height: nat, top: int, left: int) -> Generation {
    Seq::new(
        height,
        |row: int|
            Seq::new(
                width,
                |col: int|
                    if in_block(width, height, top, left, row, col) {
                        Cell::Alive
                    } else {
                        Cell::Dead
                    },
            ),
    )
}

/// A block on an otherwise dead grid of at least three rows and three
/// columns is a still life: the next generation is the same grid. Each cell
/// of the block has the other three as its alive neighbors, and no dead cell
/// has exactly three. On two rows or two columns this fails: the block then
/// meets itself across the edge.
pub proof fn lemma_block_is_still(width: nat, height: nat, top: int, left: int)
    requires
        width >= 3,
        height >= 3,
        0 <= top < height,
        0 <= left < width,
    ensures
        is_rectangle(block_grid(width, height, top, left)),
        next_generation(block_grid(width, height, top, left)) == block_grid(
            width,
            height,
            top,
            left,
        ),
{
    let cells = block_grid(width, height, top, left);
    let next = next_generation(cells);
    assert forall|row: int| 0 <= row < height implies next[row] == cells[row] by {
        assert forall|col: int| 0 <= col < width implies next[row][col] == cells[row][col] by {
            lemma_block_cell_is_still(width, height, top, left, row, col);
        }
    }
}

/// One cell of the block grid keeps its state.
proof fn lemma_block_cell_is_still(
    width: nat,
    height: nat,
    top: int,
    left: int,
    row: int,
    col: int,
)
    requires
        width >= 3,
        height >= 3,
        0 <= top < height,
        0 <= left < width,
        0 <= row < height,
        0 <= col < width,
    ensures
        next_generation(block_grid(width, height, top, left))[row][col] == block_grid(
            width,
            height,
            top,
            left,
        )[row][col],
{
    lemma_neighbors_on_ring(block_grid(width, height, top, left), row, col);
}

} // verus!
