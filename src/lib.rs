//! Connect 4 on a fixed 6 x 7 grid: the board, gravity placement, the
//! four-direction win scan, the validation of a typed column, and the
//! retry budget of a player's turn.

pub mod board;
pub mod moves;
pub mod scan;
pub mod turn;
