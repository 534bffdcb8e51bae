//! The automaton itself: a grid of cells that steps from one generation to
//! the next.

use crate::cell::Cell;
use crate::generation::{
    alive_in, alive_neighbors, generation_after, height_of, is_rectangle,
    lemma_dimensions_stable, lemma_neighbors_on_ring, next_cell, next_generation, width_of,
    Generation,
};
use crate::random::{draw_ratio, thread_generator};
use vstd::prelude::*;

verus! {

/// Why a grid could not be made.
#[derive(Debug, Clone, Copy, PartialEq, Eq, Structural)]
pub enum GameOfLifeError {
    /// The width or the height is zero, or the rows differ in length.
    InvalidDimensions,
}

impl GameOfLifeError {
    /// What went wrong, in words.
    pub fn message(&self) -> (text: &'static str)
        ensures
            text@ == "width and height must be positive"@,
    {
        "width and height must be positive"
    }
}

/// The rows that `rows` holds, as a sequence of sequences.
pub open spec fn rows_view(rows: Vec<Vec<Cell>>) -> Generation {
    Seq::new(rows.len() as nat, |row: int| rows[row]@)
}

/// A grid of cells on a torus. It always holds one complete generation, with
/// at least one row and one column.
#[derive(Debug)]
pub struct GameOfLife {
    cells: Vec<Vec<Cell>>,
}

impl View for GameOfLife {
    type V = Generation;

    /// The current generation.
    closed spec fn view(&self) -> Generation {
        rows_view(self.cells)
    }
}

impl GameOfLife {
    #[verifier::type_invariant]
    spec fn well_formed(&self) -> bool {
        is_rectangle(self@)
    }

    /// The number of columns.
    pub open spec fn width(&self) -> nat {
        width_of(self@)
    }

    /// The number of rows.
    pub open spec fn height(&self) -> nat {
        height_of(self@)
    }

    /// Makes a grid of the given rows. The rows must form a rectangle with at
    /// least one row and one column.
    pub fn from_cells(cells: Vec<Vec<Cell>>) -> (result: Result<GameOfLife, GameOfLifeError>)
        ensures
            result is Ok <==> is_rectangle(rows_view(cells)),
            result matches Ok(grid) ==> grid@ == rows_view(cells),
            result matches Err(error) ==> error == GameOfLifeError::InvalidDimensions,
    {
        if cells.len() == 0 || cells[0].len() == 0 {
            return Err(GameOfLifeError::InvalidDimensions);
        }
        let width: usize = cells[0].len();
        let mut row: usize = 1;
        while row < cells.len()
            invariant
                1 <= row <= cells.len(),
                width == cells[0].len(),
                forall|r: int| 0 <= r < row ==> (#[trigger] cells[r]).len() == width,
            decreases cells.len() - row,
        {
            if cells[row].len() != width {
                assert(rows_view(cells)[row as int].len() != width_of(rows_view(cells)));
                return Err(GameOfLifeError::InvalidDimensions);
            }
            row += 1;
        }
        Ok(GameOfLife { cells })
    }

    /// Makes a grid of `width` columns and `height` rows in which each cell is
    /// alive or dead by a fair draw of its own. Fails when either dimension
    /// is zero.
    pub fn new(width: usize, height: usize) -> (result: Result<GameOfLife, GameOfLifeError>)
        ensures
            result is Err <==> width == 0 || height == 0,
            result matches Err(error) ==> error == GameOfLifeError::InvalidDimensions,
            result matches Ok(grid) ==> is_rectangle(grid@) && grid.width() == width
                && grid.height() == height,
    {
        if width == 0 || height == 0 {
            return Err(GameOfLifeError::InvalidDimensions);
        }
        let mut rng = thread_generator();
        let mut cells: Vec<Vec<Cell>> = Vec::new();
        let mut row: usize = 0;
        while row < height
            invariant
                row <= height,
                cells.len() == row,
                forall|r: int| 0 <= r < row ==> (#[trigger] cells[r]).len() == width,
            decreases height - row,
        {
            let mut line: Vec<Cell> = Vec::new();
            let mut col: usize = 0;
            while col < width
                invariant
                    col <= width,
                    line.len() == col,
                decreases width - col,
            {
                line.push(Cell::from_draw(draw_ratio(&mut rng, 1, 2)));
                col += 1;
            }
            cells.push(line);
            row += 1;
        }
        Ok(GameOfLife { cells })
    }

    /// The dimensions, as `(width, height)`.
    pub fn size(&self) -> (dims: (usize, usize))
        ensures
            dims.0 == self.width(),
            dims.1 == self.height(),
            is_rectangle(self@),
    {
        proof {
            use_type_invariant(self);
        }
        let width = self.cells[0].len();
        let height = self.cells.len();
        (width, height)
    }

    /// The cell at `(row, col)`.
    pub fn get_cell(&self, row: usize, col: usize) -> (cell: Cell)
        requires
            row < self.height(),
            col < self.width(),
        ensures
            cell == self@[row as int][col as int],
    {
        proof {
            use_type_invariant(self);
        }
        self.cells[row][col]
    }

    /// 1 if the cell at `(row, col)` is alive, else 0.
    fn alive(&self, row: usize, col: usize) -> (count: usize)
        requires
            row < self.height(),
            col < self.width(),
        ensures
            count == alive_in(self@, row as int, col as int),
    {
        if self.get_cell(row, col) == Cell::Alive {
            1
        } else {
            0
        }
    }

    /// Counts the alive cells among the eight neighbors of `(row, col)` on
    /// the torus.
    fn count_alive_neighbors(&self, row: usize, col: usize) -> (n_alive: usize)
        requires
            row < self.height(),
            col < self.width(),
        ensures
            n_alive == alive_neighbors(self@, row as int, col as int),
    {
        let (width, height) = self.size();
        let up = if row == 0 {
            height - 1
        } else {
            row - 1
        };
        let down = if row + 1 == height {
            0
        } else {
            row + 1
        };
        let left = if col == 0 {
            width - 1
        } else {
            col - 1
        };
        let right = if col + 1 == width {
            0
        } else {
            col + 1
        };
        proof {
            lemma_neighbors_on_ring(self@, row as int, col as int);
        }
        self.alive(up, left) + self.alive(up, col) + self.alive(up, right) + self.alive(row, left)
            + self.alive(row, right) + self.alive(down, left) + self.alive(down, col) + self.alive(
            down,
            right,
        )
    }

    /// The state of the cell at `(row, col)` in the next generation.
    fn tick_cell(&self, row: usize, col: usize) -> (cell: Cell)
        requires
            row < self.height(),
            col < self.width(),
        ensures
            cell == next_cell(self@, row as int, col as int),
    {
        let n_alive = self.count_alive_neighbors(row, col);
        self.get_cell(row, col).evolve(n_alive)
    }

    /// Advances the grid by one generation. Every cell of the new generation
    /// is decided from the old one, which is replaced only when all are known.
    pub fn tick(&mut self)
        ensures
            final(self)@ == next_generation(old(self)@),
            final(self).width() == old(self).width(),
            final(self).height() == old(self).height(),
            is_rectangle(final(self)@),
    {
        let (width, height) = self.size();
        let mut next_cells: Vec<Vec<Cell>> = Vec::new();
        let mut row: usize = 0;
        while row < height
            invariant
                *self == *old(self),
                width == self.width(),
                height == self.height(),
                row <= height,
                next_cells.len() == row,
                forall|r: int| 0 <= r < row ==> (#[trigger] next_cells[r])@ == next_generation(self@)[r],
            decreases height - row,
        {
            let mut line: Vec<Cell> = Vec::new();
            let mut col: usize = 0;
            while col < width
                invariant
                    *self == *old(self),
                    width == self.width(),
                    height == self.height(),
                    row < height,
                    col <= width,
                    line.len() == col,
                    forall|c: int| 0 <= c < col ==> #[trigger] line[c] == next_cell(self@, row as int, c),
                decreases width - col,
            {
                line.push(self.tick_cell(row, col));
                col += 1;
            }
            next_cells.push(line);
            row += 1;
        }
        self.cells = next_cells;
    }

    /// Advances the grid by `generations` generations, one after the other.
    pub fn advance(&mut self, generations: usize)
        ensures
            final(self)@ == generation_after(old(self)@, generations as nat),
            final(self).width() == old(self).width(),
            final(self).height() == old(self).height(),
            is_rectangle(final(self)@),
    {
        proof {
            use_type_invariant(&*self);
        }
        let mut done: usize = 0;
        while done < generations
            invariant
                done <= generations,
                is_rectangle(old(self)@),
                self@ == generation_after(old(self)@, done as nat),
            decreases generations - done,
        {
            self.tick();
            done += 1;
        }
        proof {
            lemma_dimensions_stable(old(self)@, generations as nat);
        }
    }
}

} // verus!
