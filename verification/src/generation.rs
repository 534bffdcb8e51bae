//! The mathematical model of the automaton: a generation is a rectangle of
//! cells, read as a torus, and each generation determines the next.

use crate::cell::{next_state, Cell};
use vstd::arithmetic::div_mod::{lemma_mod_add_multiples_vanish, lemma_small_mod};
use vstd::prelude::*;

verus! {

/// A generation: the cells row by row.
pub type Generation = Seq<Seq<Cell>>;

/// The number of rows of `cells`.
pub open spec fn height_of(cells: Generation) -> nat {
    cells.len()
}

/// The number of columns of `cells`, read off its first row.
pub open spec fn width_of(cells: Generation) -> nat {
    cells[0].len()
}

/// `cells` is a generation: it has at least one row and one column, and every
/// row has the same length.
pub open spec fn is_rectangle(cells: Generation) -> bool {
    &&& height_of(cells) >= 1
    &&& width_of(cells) >= 1
    &&& forall|row: int| 0 <= row < cells.len() ==> (#[trigger] cells[row]).len() == width_of(cells)
}

/// The cell at `(row, col)` on the torus: both indices are taken modulo the
/// dimensions, so every pair of integers names a cell.
pub open spec fn torus_cell(cells: Generation, row: int, col: int) -> Cell {
    cells[row % (height_of(cells) as int)][col % (width_of(cells) as int)]
}

/// 1 if the cell at `(row, col)` on the torus is alive, else 0.
pub open spec fn alive_at(cells: Generation, row: int, col: int) -> nat {
    if torus_cell(cells, row, col) == Cell::Alive {
        1
    } else {
        0
    }
}

/// The number of alive cells among the eight positions `(row + dy, col + dx)`
/// with `dy` and `dx` in `{-1, 0, 1}` and not both 0, each read on the torus.
///
/// Only the offset `(0, 0)` is left out. On a grid with a single row the
/// positions above and below a cell are that cell's own row, so the cell
/// counts itself there, and likewise for a single column.
pub open spec fn alive_neighbors(cells: Generation, row: int, col: int) -> nat {
    alive_at(cells, row - 1, col - 1) + alive_at(cells, row - 1, col) + alive_at(
        cells,
        row - 1,
        col + 1,
    ) + alive_at(cells, row, col - 1) + alive_at(cells, row, col + 1) + alive_at(
        cells,
        row + 1,
        col - 1,
    ) + alive_at(cells, row + 1, col) + alive_at(cells, row + 1, col + 1)
}

/// The state of the cell at `(row, col)` in the generation after `cells`.
pub open spec fn next_cell(cells: Generation, row: int, col: int) -> Cell {
    next_state(cells[row][col], alive_neighbors(cells, row, col))
}

/// The generation after `cells`: every cell is decided from `cells` alone.
pub open spec fn next_generation(cells: Generation) -> Generation {
    Seq::new(
        height_of(cells),
        |row: int| Seq::new(width_of(cells), |col: int| next_cell(cells, row, col)),
    )
}

/// The generation reached from `cells` by `steps` steps.
pub open spec fn generation_after(cells: Generation, steps: nat) -> Generation
    decreases steps,
{
    if steps == 0 {
        cells
    } else {
        next_generation(generation_after(cells, (steps - 1) as nat))
    }
}

/// The index before `index` on a ring of `len` positions.
pub open spec fn ring_pred(index: int, len: int) -> int {
    if index == 0 {
        len - 1
    } else {
        index - 1
    }
}

/// The index after `index` on a ring of `len` positions.
pub open spec fn ring_succ(index: int, len: int) -> int {
    if index + 1 == len {
        0
    } else {
        index + 1
    }
}

/// On a ring of `len` positions, stepping back or forth from an index in
/// range is the same as subtracting or adding 1 modulo `len`.
pub proof fn lemma_ring_steps(index: int, len: int)
    requires
        0 <= index < len,
    ensures
        (index - 1) % len == ring_pred(index, len),
        index % len == index,
        (index + 1) % len == ring_succ(index, len),
        0 <= ring_pred(index, len) < len,
        0 <= ring_succ(index, len) < len,
{
    lemma_small_mod(index as nat, len as nat);
    if index == 0 {
        lemma_mod_add_multiples_vanish(-1, len);
        lemma_small_mod((len - 1) as nat, len as nat);
    } else {
        lemma_small_mod((index - 1) as nat, len as nat);
    }
    if index + 1 == len {
        lemma_mod_add_multiples_vanish(0, len);
        lemma_small_mod(0, len as nat);
    } else {
        lemma_small_mod((index + 1) as nat, len as nat);
    }
}

/// 1 if the cell stored at `(row, col)` is alive, else 0.
pub open spec fn alive_in(cells: Generation, row: int, col: int) -> nat {
    if cells[row][col] == Cell::Alive {
        1
    } else {
        0
    }
}

/// For a position of the grid, the eight neighbors on the torus are the cells
/// one ring step away in each direction.
pub proof fn lemma_neighbors_on_ring(cells: Generation, row: int, col: int)
    requires
        is_rectangle(cells),
        0 <= row < height_of(cells),
        0 <= col < width_of(cells),
    ensures
        alive_neighbors(cells, row, col) == ({
            let up = ring_pred(row, height_of(cells) as int);
            let down = ring_succ(row, height_of(cells) as int);
            let left = ring_pred(col, width_of(cells) as int);
            let right = ring_succ(col, width_of(cells) as int);
            alive_in(cells, up, left) + alive_in(cells, up, col) + alive_in(cells, up, right)
                + alive_in(cells, row, left) + alive_in(cells, row, right) + alive_in(
                cells,
                down,
                left,
            ) + alive_in(cells, down, col) + alive_in(cells, down, right)
        }),
{
    lemma_ring_steps(row, height_of(cells) as int);
    lemma_ring_steps(col, width_of(cells) as int);
}

/// The next generation has the shape of the one it comes from.
pub proof fn lemma_next_generation_shape(cells: Generation)
    requires
        is_rectangle(cells),
    ensures
        is_rectangle(next_generation(cells)),
        height_of(next_generation(cells)) == height_of(cells),
        width_of(next_generation(cells)) == width_of(cells),
{
}

/// The dimensions never change: after any number of steps the grid is still
/// a rectangle, as wide and as high as it was at the start.
pub proof fn lemma_dimensions_stable(cells: Generation, steps: nat)
    requires
        is_rectangle(cells),
    ensures
        is_rectangle(generation_after(cells, steps)),
        height_of(generation_after(cells, steps)) == height_of(cells),
        width_of(generation_after(cells, steps)) == width_of(cells),
    decreases steps,
{
    if steps > 0 {
        lemma_dimensions_stable(cells, (steps - 1) as nat);
        lemma_next_generation_shape(generation_after(cells, (steps - 1) as nat));
    }
}

/// Two grids of the same dimensions that hold the same cell at every position
/// hold the same generation.
pub proof fn lemma_same_cells_same_generation(first: Generation, second: Generation)
    requires
        is_rectangle(first),
        is_rectangle(second),
        height_of(first) == height_of(second),
        width_of(first) == width_of(second),
        forall|row: int, col: int|
            0 <= row < height_of(first) && 0 <= col < width_of(first) ==> first[row][col]
                == second[row][col],
    ensures
        first == second,
{
    assert forall|row: int| 0 <= row < first.len() implies first[row] == second[row] by {
        assert forall|col: int| 0 <= col < first[row].len() implies first[row][col]
            == second[row][col] by {}
    }
}

/// Stepping is a function of the cells alone: two grids that start from the
/// same cells hold the same cells after every number of steps.
pub proof fn lemma_steps_deterministic(first: Generation, second: Generation, steps: nat)
    requires
        is_rectangle(first),
        is_rectangle(second),
        height_of(first) == height_of(second),
        width_of(first) == width_of(second),
        forall|row: int, col: int|
            0 <= row < height_of(first) && 0 <= col < width_of(first) ==> first[row][col]
                == second[row][col],
    ensures
        generation_after(first, steps) == generation_after(second, steps),
{
    lemma_same_cells_same_generation(first, second);
}

/// Birth: a dead cell is alive in the next generation exactly when three of
/// its neighbors are alive.
pub proof fn lemma_birth(cells: Generation, row: int, col: int)
    requires
        is_rectangle(cells),
        0 <= row < height_of(cells),
        0 <= col < width_of(cells),
        cells[row][col] == Cell::Dead,
    ensures
        next_generation(cells)[row][col] == Cell::Alive <==> alive_neighbors(cells, row, col) == 3,
{
}

/// Survival: an alive cell is alive in the next generation exactly when two
/// or three of its neighbors are alive.
pub proof fn lemma_survival(cells: Generation, row: int, col: int)
    requires
        is_rectangle(cells),
        0 <= row < height_of(cells),
        0 <= col < width_of(cells),
        cells[row][col] == Cell::Alive,
    ensures
        next_generation(cells)[row][col] == Cell::Alive <==> (alive_neighbors(cells, row, col) == 2
            || alive_neighbors(cells, row, col) == 3),
{
}

} // verus!
