//! Conway's Game of Life on a torus, with the small helpers its host needs:
//! the pixel geometry of the picture and the wide strings of the windowing
//! interface.

pub mod cell;
pub mod game_of_life;
pub mod generation;
pub mod layout;
pub mod patterns;
mod random;
pub mod utf16;
pub mod wstr;

pub use crate::cell::Cell;
pub use crate::game_of_life::{GameOfLife, GameOfLifeError};
pub use crate::wstr::WSTR;
