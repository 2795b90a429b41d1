//! Game-state engine for a turn-driven terminal lane-crossing game.
//!
//! A player token advances up a vertically scrolling lane of cells, some
//! occupied by obstacles. The engine owns the board (a stack of rows), the
//! player position and the score, and applies key events under collision
//! and scroll rules. Terminal rendering and raw key acquisition are left to
//! the surrounding program; the engine produces frame data and consumes
//! plain key values.

use vstd::prelude::*;

pub mod row;
pub mod input;
pub mod engine;
pub mod render;
pub mod laws;

verus! {

/// Number of cells in each row of the board.
pub const LANE_WIDTH: usize = 14;

/// Number of rows the board holds, lookahead rows included.
pub const BOARD_DEPTH: usize = 7;

/// Number of rows the player can stand on; rows at and above this index
/// exist only as lookahead terrain for the scroll rule.
pub const VISIBLE_DEPTH: usize = 4;

} // verus!
