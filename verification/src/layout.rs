//! Where the grid goes on the screen: the pixel geometry of the lines, the
//! cells and the window, and the colors as the host packs them.

use crate::game_of_life::GameOfLife;
use vstd::prelude::*;

verus! {

/// The side of a cell's square, in pixels.
pub const CELL_PIXEL_SIZE: i32 = 10;

/// The space left free between the window's left edge and the grid.
pub const MARGIN_LEFT: i32 = 10;

/// The space left free between the window's top edge and the grid.
pub const MARGIN_TOP: i32 = 10;

/// The space left free between the grid and the window's right edge.
pub const MARGIN_RIGHT: i32 = 10;

/// The most columns or rows whose pixel coordinates still fit in 32 bits.
pub const MAX_EXTENT: usize = 214748362;

/// The width and height of a window, in pixels.
#[derive(Debug, Clone, Copy, PartialEq, Eq, Structural)]
pub struct Size {
    pub cx: i32,
    pub cy: i32,
}

/// A rectangle on the screen, by the pixel coordinates of its edges.
#[derive(Debug, Clone, Copy, PartialEq, Eq, Structural)]
pub struct Rect {
    pub left: i32,
    pub top: i32,
    pub right: i32,
    pub bottom: i32,
}

/// The color with the given parts, packed as the host takes it: red in the
/// lowest byte, then green, then blue.
pub fn rgb(r: u8, g: u8, b: u8) -> (color: u32)
    ensures
        color == r + 0x100 * g + 0x10000 * b,
{
    let red: u32 = r as u32;
    let green: u32 = g as u32;
    let blue: u32 = b as u32;
    assert(red | (green << 8) | (blue << 16) == red + 0x100 * green + 0x10000 * blue) by (bit_vector)
        requires
            red < 0x100,
            green < 0x100,
            blue < 0x100,
    ;
    red | (green << 8) | (blue << 16)
}

/// The horizontal position of the grid line to the left of column `col`.
/// For `col` equal to the width it is the grid's right edge.
pub fn column_x(col: usize) -> (x: i32)
    requires
        col <= MAX_EXTENT,
    ensures
        x == MARGIN_LEFT + CELL_PIXEL_SIZE * col,
{
    MARGIN_LEFT + CELL_PIXEL_SIZE * (col as i32)
}

/// The vertical position of the grid line above row `row`. For `row` equal
/// to the height it is the grid's bottom edge.
pub fn row_y(row: usize) -> (y: i32)
    requires
        row <= MAX_EXTENT,
    ensures
        y == MARGIN_TOP + CELL_PIXEL_SIZE * row,
{
    MARGIN_TOP + CELL_PIXEL_SIZE * (row as i32)
}

/// The rectangle that is filled for the cell at `(row, col)`: it starts one
/// pixel inside the cell's upper left grid lines and is one cell wide and
/// high.
pub fn cell_rect(row: usize, col: usize) -> (rect: Rect)
    requires
        row < MAX_EXTENT,
        col < MAX_EXTENT,
    ensures
        rect.left == MARGIN_LEFT + CELL_PIXEL_SIZE * col + 1,
        rect.top == MARGIN_TOP + CELL_PIXEL_SIZE * row + 1,
        rect.right == rect.left + CELL_PIXEL_SIZE,
        rect.bottom == rect.top + CELL_PIXEL_SIZE,
{
    let left = column_x(col) + 1;
    let top = row_y(row) + 1;
    Rect { left, top, right: left + CELL_PIXEL_SIZE, bottom: top + CELL_PIXEL_SIZE }
}

/// The size of the window that shows the whole grid with its margins. The
/// margin below the grid is as high as the one above it.
pub fn calculate_window_size(game_of_life: &GameOfLife) -> (size: Size)
    requires
        game_of_life.width() <= MAX_EXTENT,
        game_of_life.height() <= MAX_EXTENT,
    ensures
        size.cx == MARGIN_LEFT + CELL_PIXEL_SIZE * game_of_life.width() + MARGIN_RIGHT,
        size.cy == MARGIN_TOP + CELL_PIXEL_SIZE * game_of_life.height() + MARGIN_TOP,
{
    let (width, height) = game_of_life.size();
    Size { cx: column_x(width) + MARGIN_RIGHT, cy: row_y(height) + MARGIN_TOP }
}

} // verus!
