//! Turn tracking and the two-click selection state.

use vstd::prelude::*;
use crate::pieces::{PieceColor, Square};

verus! {

/// Whose turn it is. It flips exactly once per successfully applied move.
#[derive(Clone, Copy, PartialEq, Eq, Structural, Debug)]
pub struct TurnManager(pub PieceColor);

impl TurnManager {
    /// Hand the turn to the other side.
    pub fn next_turn(&mut self)
        ensures
            final(self).0 == old(self).0.spec_other(),
    {
        match self.0 {
            PieceColor::Black => self.0 = PieceColor::White,
            PieceColor::White => self.0 = PieceColor::Black,
        }
    }

    /// Whether `color` is the side to move.
    pub fn same_color(&self, color: PieceColor) -> (r: bool)
        ensures
            r == (self.0 == color),
    {
        self.0 == color
    }
}

impl Default for TurnManager {
    /// White opens the game.
    fn default() -> (t: TurnManager)
        ensures
            t.0 == PieceColor::White,
    {
        TurnManager(PieceColor::White)
    }
}

/// The states of the selection gesture: nothing pending, or an origin square
/// picked and awaiting a destination.
#[derive(Clone, Copy, PartialEq, Eq, Structural, Debug)]
pub enum Selection {
    Empty,
    PendingFrom(Square),
}

/// The in-progress two-click gesture: `from` is set once a piece of the side
/// to move is clicked, `to` only transiently while a destination is handed
/// to the move applier. Both are cleared after every applied or cancelled
/// move.
#[derive(Clone, Copy, Debug)]
pub struct SelectedPieces {
    pub from: Option<Square>,
    pub to: Option<Square>,
}

impl SelectedPieces {
    /// The selection state this gesture is in.
    pub open spec fn spec_state(self) -> Selection {
        match self.from {
            None => Selection::Empty,
            Some(sq) => Selection::PendingFrom(sq),
        }
    }

    /// The selection state this gesture is in.
    pub fn state(&self) -> (s: Selection)
        ensures
            s == self.spec_state(),
    {
        match self.from {
            None => Selection::Empty,
            Some(sq) => Selection::PendingFrom(sq),
        }
    }

    /// Make `sq` the pending origin, discarding any previous one.
    pub fn from(&mut self, sq: Square)
        ensures
            final(self).from == Some(sq),
            final(self).to == old(self).to,
    {
        self.remove_from();
        self.assign_from(sq);
    }

    /// Clear the pending origin.
    pub fn remove_from(&mut self)
        ensures
            final(self).from is None,
            final(self).to == old(self).to,
    {
        self.from = None;
    }

    /// Record `sq` as the pending origin.
    pub fn assign_from(&mut self, sq: Square)
        ensures
            final(self).from == Some(sq),
            final(self).to == old(self).to,
    {
        self.from = Some(sq);
    }

    /// Make `sq` the finalized destination, discarding any previous one.
    pub fn to(&mut self, sq: Square)
        ensures
            final(self).to == Some(sq),
            final(self).from == old(self).from,
    {
        self.remove_to();
        self.assign_to(sq);
    }

    /// Clear the finalized destination.
    pub fn remove_to(&mut self)
        ensures
            final(self).to is None,
            final(self).from == old(self).from,
    {
        self.to = None;
    }

    /// Record `sq` as the finalized destination.
    pub fn assign_to(&mut self, sq: Square)
        ensures
            final(self).to == Some(sq),
            final(self).from == old(self).from,
    {
        self.to = Some(sq);
    }

    /// Drop the whole gesture, from any state.
    pub fn cancel(&mut self)
        ensures
            final(self).from is None,
            final(self).to is None,
            final(self).spec_state() == Selection::Empty,
    {
        self.from = None;
        self.to = None;
    }
}

impl Default for SelectedPieces {
    /// A fresh gesture: nothing selected.
    fn default() -> (s: SelectedPieces)
        ensures
            s.from is None,
            s.to is None,
    {
        SelectedPieces { from: None, to: None }
    }
}

} // verus!
