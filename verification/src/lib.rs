//! A falling-block puzzle engine: pieces, the board they settle on, and the
//! rules that move, rotate, lock and clear them.
//!
//! The board is turned by a quarter: pieces fall along the first coordinate
//! and are shifted along the second. A row is the set of cells with one first
//! coordinate, and a full row is what a line clear removes.

pub mod board;
pub mod color;
pub mod input;
pub mod laws;
pub mod layout;
pub mod model;
pub mod rng;
pub mod shape;
pub mod tetris;
pub mod tetris_block;

pub use color::Color;
pub use input::{Command, KeyCode, KeyEvent};
pub use layout::{Layout, Rect};
pub use model::{SleepPlan, Tick};
pub use tetris::{GameState, MoveDirection, Tetris};
pub use tetris_block::TetrisBlock;
