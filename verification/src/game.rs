//! The game session: one object owning the board, the turn, and the pending
//! selection, driven by primary clicks and cancel inputs.
//!
//! The whole behavior of a click is written down as a transition relation
//! over the session state; `click` is proved to realize it, and the laws of
//! the game (idempotent re-click, turn alternation, exchange, piece count)
//! are proved from the relation alone.

use vstd::prelude::*;
use crate::board::{BoardState, initial_piece};
use crate::input::{SelectedPieces, Selection, TurnManager};
use crate::pieces::{Piece, PieceColor, Square};
use crate::rules::{exchange_pair, is_exchange_pair, is_legal, legal_move};

verus! {

/// A running game: board, side to move, and the in-progress selection.
pub struct Game {
    pub board: BoardState,
    pub turn: TurnManager,
    pub selected: SelectedPieces,
}

impl Game {
    /// The occupant of `sq` on this session's board.
    pub open spec fn at_sq(self, sq: Square) -> Option<Piece> {
        self.board.at(sq.x as int, sq.y as int)
    }

    /// The board is well-formed and a pending origin square, if any, holds a
    /// piece of the side to move.
    pub open spec fn wf_core(self) -> bool {
        &&& self.board.wf()
        &&& (self.selected.from matches Some(fr) ==> fr.in_bounds() && (self.at_sq(fr)
            matches Some(p) && p.color == self.turn.0))
    }

    /// Session invariant: `wf_core`, and no destination is pending between
    /// inputs (a finalized destination is consumed within the same tick).
    pub open spec fn inv(self) -> bool {
        self.wf_core() && self.selected.to is None
    }

    /// Nothing observable changed.
    pub open spec fn unchanged(pre: Game, post: Game) -> bool {
        &&& post.board == pre.board
        &&& post.turn == pre.turn
        &&& post.selected.from == pre.selected.from
        &&& post.selected.to == pre.selected.to
    }

    /// The click selected `sq` as the pending origin; board and turn stay.
    pub open spec fn selects(pre: Game, post: Game, sq: Square) -> bool {
        &&& post.board == pre.board
        &&& post.turn == pre.turn
        &&& post.selected.from == Some(sq)
        &&& post.selected.to is None
    }

    /// The move request was rejected: board and turn stay, the origin `fr`
    /// remains pending, and the destination is dropped.
    pub open spec fn rejects(pre: Game, post: Game, fr: Square) -> bool {
        &&& post.board == pre.board
        &&& post.turn == pre.turn
        &&& post.selected.from == Some(fr)
        &&& post.selected.to is None
    }

    /// The piece at `fr` moved to `to`, capturing any occupant of `to`; the
    /// turn advanced and the selection was cleared.
    pub open spec fn moves_piece(pre: Game, post: Game, fr: Square, to: Square) -> bool {
        let fp = pre.at_sq(fr)->Some_0;
        &&& post.board.wf()
        &&& forall|x: int, y: int|
            0 <= x < 8 && 0 <= y < 8 ==> post.board.at(x, y) == (if x == to.x && y == to.y {
                Some(fp.spec_moved_to(to))
            } else if x == fr.x && y == fr.y {
                None::<Piece>
            } else {
                pre.board.at(x, y)
            })
        &&& post.board.count() + (if pre.at_sq(to) is Some {
            1nat
        } else {
            0nat
        }) == pre.board.count()
        &&& post.turn.0 == pre.turn.0.spec_other()
        &&& post.selected.from is None
        &&& post.selected.to is None
    }

    /// The king/rook pair on `fr` and `to` swapped squares, no piece left
    /// the board, the turn advanced, and the selection was cleared.
    pub open spec fn exchanges(pre: Game, post: Game, fr: Square, to: Square) -> bool {
        let fp = pre.at_sq(fr)->Some_0;
        let q = pre.at_sq(to)->Some_0;
        &&& post.board.wf()
        &&& forall|x: int, y: int|
            0 <= x < 8 && 0 <= y < 8 ==> post.board.at(x, y) == (if x == to.x && y == to.y {
                Some(fp.spec_moved_to(to))
            } else if x == fr.x && y == fr.y {
                Some(q.spec_moved_to(fr))
            } else {
                pre.board.at(x, y)
            })
        &&& post.board.count() == pre.board.count()
        &&& post.turn.0 == pre.turn.0.spec_other()
        &&& post.selected.from is None
        &&& post.selected.to is None
    }

    /// The move applier on a finalized `(fr, to)`: an illegal request is
    /// rejected without touching board or turn; a legal one is applied as an
    /// exchange when the destination holds a same-color piece, as a plain
    /// move (with capture) otherwise.
    pub open spec fn applies(pre: Game, post: Game, fr: Square, to: Square) -> bool {
        match pre.at_sq(fr) {
            Some(fp) => if legal_move(pre.board, fp, to) {
                if pre.at_sq(to) matches Some(q) && q.color == fp.color {
                    Game::exchanges(pre, post, fr, to)
                } else {
                    Game::moves_piece(pre, post, fr, to)
                }
            } else {
                Game::rejects(pre, post, fr)
            },
            None => Game::unchanged(pre, post),
        }
    }

    /// The whole effect of a primary click at `sq`: select an origin when
    /// none is pending and `sq` holds a piece of the side to move; ignore a
    /// re-click of the pending origin; re-target onto another piece of the
    /// side to move unless it is the king/rook exchange partner; otherwise
    /// finalize `sq` as the destination and apply the move.
    pub open spec fn click_rel(pre: Game, post: Game, sq: Square) -> bool {
        match pre.selected.from {
            None => match pre.at_sq(sq) {
                Some(p) => if p.color == pre.turn.0 {
                    Game::selects(pre, post, sq)
                } else {
                    Game::unchanged(pre, post)
                },
                None => Game::unchanged(pre, post),
            },
            Some(fr) => if sq == fr {
                Game::unchanged(pre, post)
            } else {
                match (pre.at_sq(fr), pre.at_sq(sq)) {
                    (Some(fp), Some(p)) => if p.color == pre.turn.0 && !exchange_pair(fp, p) {
                        Game::selects(pre, post, sq)
                    } else {
                        Game::applies(pre, post, fr, sq)
                    },
                    (Some(fp), None) => Game::applies(pre, post, fr, sq),
                    (None, _) => Game::unchanged(pre, post),
                }
            },
        }
    }

    /// Whether a click at `sq` finalizes a move request that is applied.
    pub open spec fn click_applies_move(pre: Game, sq: Square) -> bool {
        match pre.selected.from {
            Some(fr) => sq != fr && (match (pre.at_sq(fr), pre.at_sq(sq)) {
                (Some(fp), Some(p)) => !(p.color == pre.turn.0 && !exchange_pair(fp, p))
                    && legal_move(pre.board, fp, sq),
                (Some(fp), None) => legal_move(pre.board, fp, sq),
                _ => false,
            }),
            None => false,
        }
    }

    /// Whether a click at `sq` applies a move that captures a piece.
    pub open spec fn click_captures(pre: Game, sq: Square) -> bool {
        Game::click_applies_move(pre, sq) && (pre.at_sq(sq) matches Some(q) && q.color
            != pre.turn.0)
    }

    /// Turn alternation: the side to move flips exactly when a click applies
    /// a move (the king/rook exchange included), and not at all on an
    /// ignored click, a re-selection, or a rejected move.
    pub proof fn lemma_turn_alternation(pre: Game, post: Game, sq: Square)
        requires
            pre.inv(),
            sq.in_bounds(),
            Game::click_rel(pre, post, sq),
        ensures
            post.turn.0 == (if Game::click_applies_move(pre, sq) {
                pre.turn.0.spec_other()
            } else {
                pre.turn.0
            }),
            (post.turn.0 != pre.turn.0) == Game::click_applies_move(pre, sq),
    {
    }

    /// Re-click idempotence: right after a click at `sq`, a second click at
    /// the same square leaves the selection exactly as the first click left
    /// it.
    pub proof fn lemma_click_idempotent(g1: Game, g2: Game, g3: Game, sq: Square)
        requires
            g1.inv(),
            sq.in_bounds(),
            Game::click_rel(g1, g2, sq),
            Game::click_rel(g2, g3, sq),
        ensures
            g3.selected.from == g2.selected.from,
            g3.selected.to == g2.selected.to,
    {
        assert(g1.turn.0.spec_other() != g1.turn.0);
    }

    /// King/rook exchange: finalizing on the pending piece's same-color
    /// exchange partner swaps the two pieces' squares, keeps the piece
    /// count, still advances the turn, and clears the selection.
    pub proof fn lemma_exchange(pre: Game, post: Game, fr: Square, sq: Square)
        requires
            pre.inv(),
            sq.in_bounds(),
            pre.selected.from == Some(fr),
            sq != fr,
            pre.at_sq(fr) matches Some(fp) && pre.at_sq(sq) matches Some(q) && exchange_pair(
                fp,
                q,
            ),
            Game::click_rel(pre, post, sq),
        ensures
            post.at_sq(sq) == Some(pre.at_sq(fr)->Some_0.spec_moved_to(sq)),
            post.at_sq(fr) == Some(pre.at_sq(sq)->Some_0.spec_moved_to(fr)),
            post.board.count() == pre.board.count(),
            post.turn.0 == pre.turn.0.spec_other(),
            post.selected.spec_state() == Selection::Empty,
    {
    }

    /// Piece count: a click never increases it, and decreases it by exactly
    /// one when and only when it applies a capturing move.
    pub proof fn lemma_click_count(pre: Game, post: Game, sq: Square)
        requires
            pre.inv(),
            sq.in_bounds(),
            Game::click_rel(pre, post, sq),
        ensures
            post.board.count() <= pre.board.count(),
            post.board.count() + (if Game::click_captures(pre, sq) {
                1nat
            } else {
                0nat
            }) == pre.board.count(),
    {
    }

    /// A fresh game: the standard layout, White to move, nothing selected.
    pub fn new() -> (g: Game)
        ensures
            g.inv(),
            forall|x: int, y: int|
                0 <= x < 8 && 0 <= y < 8 ==> #[trigger] g.board.at(x, y) == initial_piece(x, y),
            g.turn.0 == PieceColor::White,
            g.selected.from is None,
            g.selected.to is None,
    {
        Game {
            board: BoardState::new_standard(),
            turn: TurnManager::default(),
            selected: SelectedPieces::default(),
        }
    }

    /// Apply the finalized move request `(from, to)`: validate it, and on
    /// success mutate the board, advance the turn and clear the selection;
    /// on an illegal request drop only the destination, leaving `from`
    /// pending for a new try.
    pub fn apply_move(&mut self, from: Square, to: Square)
        requires
            old(self).wf_core(),
            from.in_bounds(),
            to.in_bounds(),
            old(self).selected.from == Some(from),
            !(to.x == from.x && to.y == from.y),
        ensures
            final(self).inv(),
            Game::applies(*old(self), *final(self), from, to),
    {
        let fp = self.board.piece_at(from).unwrap();
        if is_legal(fp, to, &self.board) {
            let same = match self.board.piece_at(to) {
                Some(q) => q.color == fp.color,
                None => false,
            };
            if same {
                self.board.exchange(from, to);
            } else {
                self.board.relocate(from, to);
            }
            self.turn.next_turn();
            self.selected.cancel();
        } else {
            self.selected.remove_to();
        }
    }

    /// Process a primary click at the in-bounds square `sq`.
    pub fn click(&mut self, sq: Square)
        requires
            old(self).inv(),
            sq.in_bounds(),
        ensures
            final(self).inv(),
            Game::click_rel(*old(self), *final(self), sq),
    {
        let pending = self.selected.from;
        match pending {
            None => {
                match self.board.piece_at(sq) {
                    Some(p) => {
                        if self.turn.same_color(p.color) {
                            self.selected.from(sq);
                        }
                    },
                    None => {},
                }
            },
            Some(fr) => {
                if sq == fr {
                    // re-click of the pending origin: nothing to do
                } else {
                    let fp = self.board.piece_at(fr).unwrap();
                    let retarget = match self.board.piece_at(sq) {
                        Some(p) => self.turn.same_color(p.color) && !is_exchange_pair(fp, p),
                        None => false,
                    };
                    if retarget {
                        self.selected.from(sq);
                    } else {
                        self.selected.to(sq);
                        self.apply_move(fr, sq);
                    }
                }
            },
        }
    }

    /// A secondary (cancel) input: clear the whole gesture, whatever was
    /// pending; the board and the turn stay as they are.
    pub fn cancel(&mut self)
        requires
            old(self).wf_core(),
        ensures
            final(self).inv(),
            final(self).selected.from is None,
            final(self).selected.to is None,
            final(self).selected.spec_state() == Selection::Empty,
            final(self).board == old(self).board,
            final(self).turn == old(self).turn,
    {
        self.selected.cancel();
    }
}

} // verus!
