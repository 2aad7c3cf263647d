//! Core of a small chess-like board game: board occupancy, move legality,
//! the two-click selection state machine, and turn tracking.
//!
//! The library owns all game rules. Input mapping (pointer to square) and
//! rendering are external collaborators that call in with plain values.

pub mod board;
pub mod game;
pub mod input;
pub mod pieces;
pub mod rules;

use vstd::prelude::*;

verus! {

/// Side length of the square board: coordinates range over `0 .. MAX`.
pub const MAX: u8 = 8;

} // verus!
