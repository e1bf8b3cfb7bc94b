//! A small cellular-automaton core: a rectangular grid of two-state cells,
//! a column-major scan over it, Conway's Game of Life, and Langton's Ant
//! with its grid-walking agent.

pub mod automaton;
pub mod binarycell;
pub mod cell;
pub mod direction;
pub mod direction4;
pub mod error;
pub mod gameoflife;
pub mod grid;
pub mod langtonsant;
mod random;
pub mod scanner;
pub mod simulation;
pub mod text;
pub mod turmite;

pub use automaton::Automaton;
pub use binarycell::{BinaryCell, SimCell};
pub use cell::Cell;
pub use direction::Direction;
pub use direction4::{Direction4, Orient};
pub use error::AutomatonError;
pub use gameoflife::GameOfLife;
pub use grid::{CellGrid, Dimensions, GridCell};
pub use langtonsant::LangtonsAnt;
pub use scanner::GridScanner;
pub use simulation::Simulation;
pub use turmite::Turmite;
