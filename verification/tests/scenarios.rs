use chess_core::game::Game;
use chess_core::input::Selection;
use chess_core::pieces::{PieceColor, PieceType, Square};

fn sq(x: u8, y: u8) -> Square {
    Square { x, y }
}

#[test]
fn white_pawn_double_step() {
    let mut g = Game::new();
    g.click(sq(4, 1));
    assert_eq!(g.selected.from, Some(sq(4, 1)));
    g.click(sq(4, 3));
    let p = g.board.piece_at(sq(4, 3)).unwrap();
    assert_eq!(p.my_type, PieceType::Pawn);
    assert_eq!(p.color, PieceColor::White);
    assert_eq!((p.x, p.y), (4, 3));
    assert!(g.board.piece_at(sq(4, 1)).is_none());
    assert_eq!(g.turn.0, PieceColor::Black);
    assert_eq!(g.selected.from, None);
    assert_eq!(g.selected.to, None);
}

#[test]
fn blocked_rook_rejected() {
    let mut g = Game::new();
    g.click(sq(0, 0));
    assert_eq!(g.selected.from, Some(sq(0, 0)));
    g.click(sq(0, 5));
    let r = g.board.piece_at(sq(0, 0)).unwrap();
    assert_eq!(r.my_type, PieceType::Rook);
    assert!(g.board.piece_at(sq(0, 5)).is_none());
    assert_eq!(g.turn.0, PieceColor::White);
    // the origin stays pending so the user may pick a new destination
    assert_eq!(g.selected.from, Some(sq(0, 0)));
    assert_eq!(g.selected.to, None);
}

#[test]
fn knight_ignores_path() {
    let mut g = Game::new();
    // pawns stand at (1,1) and (2,1); the knight jumps over them
    assert!(g.board.piece_at(sq(1, 1)).is_some());
    assert!(g.board.piece_at(sq(2, 1)).is_some());
    g.click(sq(1, 0));
    g.click(sq(2, 2));
    let n = g.board.piece_at(sq(2, 2)).unwrap();
    assert_eq!(n.my_type, PieceType::Knight);
    assert!(g.board.piece_at(sq(1, 0)).is_none());
    assert_eq!(g.turn.0, PieceColor::Black);
}

#[test]
fn king_rook_exchange() {
    let mut g = Game::new();
    let before = g.board.piece_count();
    g.click(sq(4, 0));
    g.click(sq(7, 0));
    let at_rook_corner = g.board.piece_at(sq(7, 0)).unwrap();
    let at_king_home = g.board.piece_at(sq(4, 0)).unwrap();
    assert_eq!(at_rook_corner.my_type, PieceType::King);
    assert_eq!(at_king_home.my_type, PieceType::Rook);
    assert_eq!(at_rook_corner.color, PieceColor::White);
    assert_eq!(at_king_home.color, PieceColor::White);
    assert_eq!(g.board.piece_count(), before);
    assert_eq!(g.turn.0, PieceColor::Black);
    assert_eq!(g.selected.from, None);
}

#[test]
fn empty_square_click_ignored() {
    let mut g = Game::new();
    g.click(sq(3, 3));
    assert_eq!(g.selected.from, None);
    assert_eq!(g.selected.to, None);
    assert_eq!(g.turn.0, PieceColor::White);
    assert_eq!(g.board.piece_count(), 32);
}

#[test]
fn cancel_resets_pending_selection() {
    let mut g = Game::new();
    g.click(sq(4, 1));
    assert_eq!(g.selected.from, Some(sq(4, 1)));
    g.cancel();
    assert_eq!(g.selected.state(), Selection::Empty);
    assert_eq!(g.selected.from, None);
    assert_eq!(g.selected.to, None);
}

#[test]
fn cancel_from_empty_state() {
    let mut g = Game::new();
    g.cancel();
    assert_eq!(g.selected.state(), Selection::Empty);
    assert_eq!(g.turn.0, PieceColor::White);
    assert_eq!(g.board.piece_count(), 32);
}

#[test]
fn reclick_same_square_is_noop() {
    let mut g = Game::new();
    g.click(sq(4, 1));
    let first = g.selected.from;
    g.click(sq(4, 1));
    assert_eq!(g.selected.from, first);
    assert_eq!(g.selected.to, None);
    assert_eq!(g.turn.0, PieceColor::White);
    assert_eq!(g.board.piece_count(), 32);
}

#[test]
fn retarget_onto_other_own_piece() {
    let mut g = Game::new();
    g.click(sq(4, 1));
    g.click(sq(3, 1));
    assert_eq!(g.selected.from, Some(sq(3, 1)));
    assert_eq!(g.turn.0, PieceColor::White);
}

#[test]
fn enemy_piece_cannot_open_selection() {
    let mut g = Game::new();
    g.click(sq(4, 6));
    assert_eq!(g.selected.from, None);
    assert_eq!(g.turn.0, PieceColor::White);
}

#[test]
fn rook_selected_first_also_exchanges() {
    let mut g = Game::new();
    g.click(sq(7, 0));
    assert_eq!(g.selected.from, Some(sq(7, 0)));
    g.click(sq(4, 0));
    assert_eq!(g.board.piece_at(sq(4, 0)).unwrap().my_type, PieceType::Rook);
    assert_eq!(g.board.piece_at(sq(7, 0)).unwrap().my_type, PieceType::King);
    assert_eq!(g.turn.0, PieceColor::Black);
}

#[test]
fn new_destination_allowed_after_rejection() {
    let mut g = Game::new();
    g.click(sq(4, 1));
    g.click(sq(4, 5));
    // rejected (three ranks forward): the pawn stays pending
    assert_eq!(g.selected.from, Some(sq(4, 1)));
    assert_eq!(g.turn.0, PieceColor::White);
    // a legal retry needs no re-click of the origin
    g.click(sq(4, 3));
    assert!(g.board.piece_at(sq(4, 3)).is_some());
    assert_eq!(g.selected.from, None);
    assert_eq!(g.turn.0, PieceColor::Black);
}

#[test]
fn capture_decreases_count_by_one() {
    let mut g = Game::new();
    // 1. e-pawn up two; black d-pawn up two; white pawn captures diagonally
    g.click(sq(4, 1));
    g.click(sq(4, 3));
    assert_eq!(g.turn.0, PieceColor::Black);
    g.click(sq(3, 6));
    g.click(sq(3, 4));
    assert_eq!(g.turn.0, PieceColor::White);
    assert_eq!(g.board.piece_count(), 32);
    g.click(sq(4, 3));
    g.click(sq(3, 4));
    assert_eq!(g.board.piece_count(), 31);
    let p = g.board.piece_at(sq(3, 4)).unwrap();
    assert_eq!(p.color, PieceColor::White);
    assert_eq!(p.my_type, PieceType::Pawn);
    assert_eq!(g.turn.0, PieceColor::Black);
}
