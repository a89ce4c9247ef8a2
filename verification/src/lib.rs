//! Conway's Game of Life on a bounded (non-wraparound) grid.
//!
//! The crate holds the simulation core: the cell grid with its
//! indexed reads and writes, the generation-advancing transition
//! rule, and the three-state mode machine that gates which commands
//! are legal. Rendering and input polling live outside the library
//! and talk to it only through plain commands and queries.

pub mod game;
pub mod grid;
pub mod mode;
pub mod sim;
