//! Game logic of a multiplayer snake game: the board, the moves of the
//! snake, the rows that a game keeps, the transitions that each request
//! makes on them, and the read models that players subscribe to.

use vstd::prelude::*;

pub mod direction;
pub mod laws;
pub mod position;
pub mod reducers;
pub mod tables;
pub mod views;

verus! {

/// Number of columns of the board.
pub const BOARD_WIDTH: u8 = 10;

/// Number of rows of the board.
pub const BOARD_HEIGHT: u8 = 10;

} // verus!
