use game_of_life::{Cell, GameOfLife, GameOfLifeError};

const D: Cell = Cell::Dead;
const A: Cell = Cell::Alive;

fn grid_of(rows: &[&[Cell]]) -> GameOfLife {
    let cells: Vec<Vec<Cell>> = rows.iter().map(|row| row.to_vec()).collect();
    GameOfLife::from_cells(cells).unwrap()
}

fn cells_of(grid: &GameOfLife) -> Vec<Vec<Cell>> {
    let (width, height) = grid.size();
    (0..height)
        .map(|row| (0..width).map(|col| grid.get_cell(row, col)).collect())
        .collect()
}

fn rows_of(rows: &[&[Cell]]) -> Vec<Vec<Cell>> {
    rows.iter().map(|row| row.to_vec()).collect()
}

/// Counts the alive neighbors of a position by signed offsets on the torus.
fn neighbors_by_hand(cells: &[Vec<Cell>], row: usize, col: usize) -> usize {
    let height = cells.len() as i64;
    let width = cells[0].len() as i64;
    let mut count = 0;
    for dy in [-1i64, 0, 1] {
        for dx in [-1i64, 0, 1] {
            if dy == 0 && dx == 0 {
                continue;
            }
            let r = (row as i64 + dy).rem_euclid(height) as usize;
            let c = (col as i64 + dx).rem_euclid(width) as usize;
            if cells[r][c] == Cell::Alive {
                count += 1;
            }
        }
    }
    count
}

#[test]
fn new_rejects_zero_width() {
    for height in [0usize, 1, 2, 7, 100] {
        assert_eq!(
            GameOfLife::new(0, height).err(),
            Some(GameOfLifeError::InvalidDimensions)
        );
    }
}

#[test]
fn new_rejects_zero_height() {
    for width in [0usize, 1, 2, 7, 100] {
        assert_eq!(
            GameOfLife::new(width, 0).err(),
            Some(GameOfLifeError::InvalidDimensions)
        );
    }
}

#[test]
fn new_keeps_the_dimensions() {
    for (width, height) in [(1usize, 1usize), (1, 9), (9, 1), (3, 5), (100, 100)] {
        let grid = GameOfLife::new(width, height).unwrap();
        assert_eq!(grid.size(), (width, height));
    }
}

#[test]
fn new_fills_every_cell() {
    let grid = GameOfLife::new(17, 11).unwrap();
    let (width, height) = grid.size();
    let mut seen = 0;
    for row in 0..height {
        for col in 0..width {
            let cell = grid.get_cell(row, col);
            assert!(cell == Cell::Alive || cell == Cell::Dead);
            seen += 1;
        }
    }
    assert_eq!(seen, 17 * 11);
}

#[test]
fn new_draws_both_states() {
    // 4096 fair draws that all come out alike would be a fault of the source.
    let grid = GameOfLife::new(64, 64).unwrap();
    let cells = cells_of(&grid);
    let alive = cells.iter().flatten().filter(|c| **c == Cell::Alive).count();
    assert!(alive > 0);
    assert!(alive < 64 * 64);
}

#[test]
fn from_cells_keeps_the_cells() {
    let rows = rows_of(&[&[A, D, D], &[D, D, A]]);
    let grid = GameOfLife::from_cells(rows.clone()).unwrap();
    assert_eq!(grid.size(), (3, 2));
    assert_eq!(cells_of(&grid), rows);
    assert_eq!(grid.get_cell(0, 0), Cell::Alive);
    assert_eq!(grid.get_cell(1, 2), Cell::Alive);
    assert_eq!(grid.get_cell(1, 0), Cell::Dead);
}

#[test]
fn from_cells_rejects_no_rows() {
    assert_eq!(
        GameOfLife::from_cells(Vec::new()).err(),
        Some(GameOfLifeError::InvalidDimensions)
    );
}

#[test]
fn from_cells_rejects_empty_rows() {
    assert_eq!(
        GameOfLife::from_cells(vec![Vec::new(), Vec::new()]).err(),
        Some(GameOfLifeError::InvalidDimensions)
    );
}

#[test]
fn from_cells_rejects_ragged_rows() {
    assert_eq!(
        GameOfLife::from_cells(vec![vec![A, D], vec![A]]).err(),
        Some(GameOfLifeError::InvalidDimensions)
    );
    assert_eq!(
        GameOfLife::from_cells(vec![vec![A], vec![A, D], vec![D]]).err(),
        Some(GameOfLifeError::InvalidDimensions)
    );
}

#[test]
fn error_message() {
    assert_eq!(
        GameOfLifeError::InvalidDimensions.message(),
        "width and height must be positive"
    );
}

#[test]
fn size_is_stable_across_ticks() {
    let mut grid = GameOfLife::new(13, 7).unwrap();
    for _ in 0..25 {
        grid.tick();
        assert_eq!(grid.size(), (13, 7));
    }
}

#[test]
fn lone_center_dies_on_three_by_three() {
    let mut grid = grid_of(&[&[D, D, D], &[D, A, D], &[D, D, D]]);
    let before = cells_of(&grid);
    assert_eq!(neighbors_by_hand(&before, 1, 1), 0);
    for row in 0..3 {
        for col in 0..3 {
            if (row, col) != (1, 1) {
                assert_eq!(neighbors_by_hand(&before, row, col), 1);
            }
        }
    }
    grid.tick();
    assert_eq!(cells_of(&grid), vec![vec![D; 3]; 3]);
}

#[test]
fn blinker_turns_on_five_by_five() {
    let mut grid = grid_of(&[
        &[D, D, D, D, D],
        &[D, D, D, D, D],
        &[D, A, A, A, D],
        &[D, D, D, D, D],
        &[D, D, D, D, D],
    ]);
    let before = cells_of(&grid);
    assert_eq!(neighbors_by_hand(&before, 1, 2), 3);
    assert_eq!(neighbors_by_hand(&before, 3, 2), 3);
    assert_eq!(neighbors_by_hand(&before, 2, 1), 1);
    assert_eq!(neighbors_by_hand(&before, 2, 2), 2);
    assert_eq!(neighbors_by_hand(&before, 2, 3), 1);
    grid.tick();
    assert_eq!(grid.get_cell(1, 2), Cell::Alive);
    assert_eq!(grid.get_cell(3, 2), Cell::Alive);
    assert_eq!(grid.get_cell(2, 1), Cell::Dead);
    assert_eq!(grid.get_cell(2, 3), Cell::Dead);
    assert_eq!(grid.get_cell(2, 2), Cell::Alive);
    assert_eq!(
        cells_of(&grid),
        rows_of(&[
            &[D, D, D, D, D],
            &[D, D, A, D, D],
            &[D, D, A, D, D],
            &[D, D, A, D, D],
            &[D, D, D, D, D],
        ])
    );
    grid.tick();
    assert_eq!(cells_of(&grid), before);
}

#[test]
fn block_is_a_still_life() {
    let start = rows_of(&[&[D, D, D, D], &[D, A, A, D], &[D, A, A, D], &[D, D, D, D]]);
    for (row, col) in [(1, 1), (1, 2), (2, 1), (2, 2)] {
        assert_eq!(neighbors_by_hand(&start, row, col), 3);
    }
    for row in 0..4 {
        for col in 0..4 {
            if start[row][col] == Cell::Dead {
                assert!(neighbors_by_hand(&start, row, col) <= 2);
            }
        }
    }
    let mut grid = GameOfLife::from_cells(start.clone()).unwrap();
    for _ in 0..5 {
        grid.tick();
        assert_eq!(cells_of(&grid), start);
    }
}

#[test]
fn block_is_a_still_life_across_the_edge() {
    // The block sits in the four corners of a 6 x 5 grid, joined by the wrap.
    let mut start = vec![vec![D; 6]; 5];
    start[0][0] = A;
    start[0][5] = A;
    start[4][0] = A;
    start[4][5] = A;
    for (row, col) in [(0, 0), (0, 5), (4, 0), (4, 5)] {
        assert_eq!(neighbors_by_hand(&start, row, col), 3);
    }
    let mut grid = GameOfLife::from_cells(start.clone()).unwrap();
    grid.tick();
    assert_eq!(cells_of(&grid), start);
}

#[test]
fn block_is_a_still_life_on_three_by_three() {
    let start = rows_of(&[&[A, A, D], &[A, A, D], &[D, D, D]]);
    for (row, col) in [(0, 0), (0, 1), (1, 0), (1, 1)] {
        assert_eq!(neighbors_by_hand(&start, row, col), 3);
    }
    assert_eq!(neighbors_by_hand(&start, 0, 2), 4);
    assert_eq!(neighbors_by_hand(&start, 2, 0), 4);
    assert_eq!(neighbors_by_hand(&start, 2, 2), 4);
    let mut grid = GameOfLife::from_cells(start.clone()).unwrap();
    grid.tick();
    assert_eq!(cells_of(&grid), start);
}

#[test]
fn block_is_no_still_life_on_two_columns() {
    let mut grid = grid_of(&[&[A, A], &[A, A], &[D, D], &[D, D]]);
    grid.tick();
    assert_eq!(grid.get_cell(0, 0), Cell::Dead);
}

#[test]
fn tick_follows_the_rule_everywhere() {
    let mut grid = GameOfLife::new(9, 6).unwrap();
    for _ in 0..10 {
        let before = cells_of(&grid);
        grid.tick();
        for row in 0..6 {
            for col in 0..9 {
                let n = neighbors_by_hand(&before, row, col);
                let expected = match before[row][col] {
                    Cell::Dead if n == 3 => Cell::Alive,
                    Cell::Alive if n == 2 || n == 3 => Cell::Alive,
                    _ => Cell::Dead,
                };
                assert_eq!(grid.get_cell(row, col), expected);
            }
        }
    }
}

#[test]
fn equal_grids_stay_equal() {
    let start = cells_of(&GameOfLife::new(12, 8).unwrap());
    let mut first = GameOfLife::from_cells(start.clone()).unwrap();
    let mut second = GameOfLife::from_cells(start).unwrap();
    for _ in 0..20 {
        first.tick();
        second.tick();
        assert_eq!(cells_of(&first), cells_of(&second));
    }
}

#[test]
fn every_position_can_be_read() {
    for (width, height) in [(1usize, 1usize), (1, 4), (4, 1), (5, 3)] {
        let mut grid = GameOfLife::new(width, height).unwrap();
        grid.tick();
        let mut read = 0;
        for row in 0..height {
            for col in 0..width {
                assert!(matches!(grid.get_cell(row, col), Cell::Alive | Cell::Dead));
                read += 1;
            }
        }
        assert_eq!(read, width * height);
    }
}

#[test]
fn single_cell_grid() {
    // The one cell is all of its own eight neighbors.
    let mut alive = grid_of(&[&[A]]);
    assert_eq!(neighbors_by_hand(&cells_of(&alive), 0, 0), 8);
    alive.tick();
    assert_eq!(alive.get_cell(0, 0), Cell::Dead);
    let mut dead = grid_of(&[&[D]]);
    dead.tick();
    assert_eq!(dead.get_cell(0, 0), Cell::Dead);
}

#[test]
fn single_row_grid() {
    // With one row a cell is its own neighbor above and below: a lone alive
    // cell counts itself twice and stays, and the cells beside it see it
    // three times and are born.
    let start = rows_of(&[&[D, D, A, D, D]]);
    assert_eq!(neighbors_by_hand(&start, 0, 2), 2);
    assert_eq!(neighbors_by_hand(&start, 0, 1), 3);
    assert_eq!(neighbors_by_hand(&start, 0, 3), 3);
    assert_eq!(neighbors_by_hand(&start, 0, 0), 0);
    let mut grid = GameOfLife::from_cells(start).unwrap();
    grid.tick();
    assert_eq!(cells_of(&grid), rows_of(&[&[D, A, A, A, D]]));
}

#[test]
fn single_column_grid() {
    // Two alive cells on top of each other: each counts itself twice and the
    // other three times.
    let start = rows_of(&[&[A], &[A], &[D], &[D]]);
    assert_eq!(neighbors_by_hand(&start, 0, 0), 5);
    assert_eq!(neighbors_by_hand(&start, 2, 0), 3);
    assert_eq!(neighbors_by_hand(&start, 3, 0), 3);
    let mut grid = GameOfLife::from_cells(start).unwrap();
    grid.tick();
    assert_eq!(cells_of(&grid), rows_of(&[&[D], &[D], &[A], &[A]]));
}

#[test]
fn two_wide_grid_counts_the_same_neighbor_twice() {
    // On two columns the cell to the left is also the cell to the right.
    let start = rows_of(&[&[D, D], &[A, D], &[D, D]]);
    assert_eq!(neighbors_by_hand(&start, 1, 1), 2);
    assert_eq!(neighbors_by_hand(&start, 0, 1), 2);
    assert_eq!(neighbors_by_hand(&start, 0, 0), 1);
    let mut grid = GameOfLife::from_cells(start).unwrap();
    grid.tick();
    assert_eq!(cells_of(&grid), vec![vec![D; 2]; 3]);
}

#[test]
fn cell_from_draw() {
    assert_eq!(Cell::from_draw(true), Cell::Dead);
    assert_eq!(Cell::from_draw(false), Cell::Alive);
}

#[test]
fn cell_evolves_by_the_rule() {
    for n in 0..=8usize {
        assert_eq!(
            Cell::Dead.evolve(n),
            if n == 3 { Cell::Alive } else { Cell::Dead }
        );
        assert_eq!(
            Cell::Alive.evolve(n),
            if n == 2 || n == 3 { Cell::Alive } else { Cell::Dead }
        );
    }
}

#[test]
fn advance_by_zero_changes_nothing() {
    let start = rows_of(&[&[A, D, A], &[D, A, D], &[D, D, A]]);
    let mut grid = GameOfLife::from_cells(start.clone()).unwrap();
    grid.advance(0);
    assert_eq!(cells_of(&grid), start);
}

#[test]
fn advance_is_repeated_ticking() {
    let start = cells_of(&GameOfLife::new(10, 7).unwrap());
    for generations in [1usize, 2, 5, 12] {
        let mut stepped = GameOfLife::from_cells(start.clone()).unwrap();
        for _ in 0..generations {
            stepped.tick();
        }
        let mut advanced = GameOfLife::from_cells(start.clone()).unwrap();
        advanced.advance(generations);
        assert_eq!(advanced.size(), (10, 7));
        assert_eq!(cells_of(&advanced), cells_of(&stepped));
    }
}

#[test]
fn blinker_returns_after_two_generations() {
    let start = rows_of(&[
        &[D, D, D, D, D],
        &[D, D, A, D, D],
        &[D, D, A, D, D],
        &[D, D, A, D, D],
        &[D, D, D, D, D],
    ]);
    let mut grid = GameOfLife::from_cells(start.clone()).unwrap();
    grid.advance(1);
    assert_eq!(grid.get_cell(2, 1), Cell::Alive);
    assert_eq!(grid.get_cell(1, 2), Cell::Dead);
    grid.advance(1);
    assert_eq!(cells_of(&grid), start);
    grid.advance(6);
    assert_eq!(cells_of(&grid), start);
}
