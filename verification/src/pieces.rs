//! The basic data of the game: squares, colors, piece kinds, and pieces.

use vstd::prelude::*;
use crate::MAX;

verus! {

/// A board coordinate pair. The input collaborator only ever hands the core
/// in-bounds squares; `in_bounds` states that promise.
#[derive(Clone, Copy, PartialEq, Eq, Structural, Debug)]
pub struct Square {
    pub x: u8,
    pub y: u8,
}

impl Square {
    /// Both coordinates lie on the board.
    pub open spec fn in_bounds(self) -> bool {
        self.x < MAX && self.y < MAX
    }

    pub fn new(x: u8, y: u8) -> (sq: Square)
        requires
            x < MAX,
            y < MAX,
        ensures
            sq.x == x,
            sq.y == y,
            sq.in_bounds(),
    {
        Square { x, y }
    }
}

/// The two sides of the game.
#[derive(Clone, Copy, PartialEq, Eq, Structural, Debug)]
pub enum PieceColor {
    White,
    Black,
}

impl PieceColor {
    /// The opposing side.
    pub open spec fn spec_other(self) -> PieceColor {
        match self {
            PieceColor::White => PieceColor::Black,
            PieceColor::Black => PieceColor::White,
        }
    }

    pub fn other(self) -> (c: PieceColor)
        ensures
            c == self.spec_other(),
    {
        match self {
            PieceColor::White => PieceColor::Black,
            PieceColor::Black => PieceColor::White,
        }
    }
}

impl Default for PieceColor {
    /// White moves first, so the default side is White.
    fn default() -> (c: PieceColor)
        ensures
            c == PieceColor::White,
    {
        PieceColor::White
    }
}

/// The closed set of piece kinds; legality is one exhaustive match over it.
#[derive(Clone, Copy, PartialEq, Eq, Structural, Debug)]
pub enum PieceType {
    King,
    Queen,
    Bishop,
    Knight,
    Rook,
    Pawn,
}

/// A piece together with the square it stands on. The board keeps each
/// piece's recorded coordinates equal to the square that holds it.
#[derive(Clone, Copy, PartialEq, Eq, Structural, Debug)]
pub struct Piece {
    pub my_type: PieceType,
    pub color: PieceColor,
    pub x: u8,
    pub y: u8,
}

impl Piece {
    /// The square this piece records as its position.
    pub open spec fn pos(self) -> Square {
        Square { x: self.x, y: self.y }
    }

    /// The recorded position is on the board.
    pub open spec fn in_bounds(self) -> bool {
        self.x < MAX && self.y < MAX
    }

    /// The same piece, relocated to `sq`.
    pub open spec fn spec_moved_to(self, sq: Square) -> Piece {
        Piece { my_type: self.my_type, color: self.color, x: sq.x, y: sq.y }
    }

    pub fn moved_to(self, sq: Square) -> (p: Piece)
        ensures
            p == self.spec_moved_to(sq),
    {
        Piece { my_type: self.my_type, color: self.color, x: sq.x, y: sq.y }
    }
}

} // verus!
