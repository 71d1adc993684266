pub mod cell;
pub mod grid;
pub mod laws;
pub mod patterns;
pub mod render;
pub mod seeding;

pub use cell::CellState;
pub use grid::GameOfLife;
