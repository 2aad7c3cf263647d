use chess_core::board::BoardState;
use chess_core::pieces::{Piece, PieceColor, PieceType, Square};

fn sq(x: u8, y: u8) -> Square {
    Square { x, y }
}

fn piece(t: PieceType, c: PieceColor, x: u8, y: u8) -> Piece {
    Piece { my_type: t, color: c, x, y }
}

#[test]
fn standard_layout_back_ranks() {
    let b = BoardState::new_standard();
    let expected = [
        PieceType::Rook,
        PieceType::Knight,
        PieceType::Bishop,
        PieceType::Queen,
        PieceType::King,
        PieceType::Bishop,
        PieceType::Knight,
        PieceType::Rook,
    ];
    for x in 0..8u8 {
        let w = b.piece_at(sq(x, 0)).unwrap();
        assert_eq!(w.my_type, expected[x as usize]);
        assert_eq!(w.color, PieceColor::White);
        let bl = b.piece_at(sq(x, 7)).unwrap();
        assert_eq!(bl.my_type, expected[x as usize]);
        assert_eq!(bl.color, PieceColor::Black);
        let wp = b.piece_at(sq(x, 1)).unwrap();
        assert_eq!(wp.my_type, PieceType::Pawn);
        assert_eq!(wp.color, PieceColor::White);
        let bp = b.piece_at(sq(x, 6)).unwrap();
        assert_eq!(bp.my_type, PieceType::Pawn);
        assert_eq!(bp.color, PieceColor::Black);
        for y in 2..6u8 {
            assert!(b.piece_at(sq(x, y)).is_none());
        }
    }
    assert_eq!(b.piece_count(), 32);
}

#[test]
fn empty_board_has_no_pieces() {
    let b = BoardState::empty();
    for x in 0..8u8 {
        for y in 0..8u8 {
            assert!(b.piece_at(sq(x, y)).is_none());
        }
    }
    assert_eq!(b.piece_count(), 0);
    assert!(b.pieces().is_empty());
}

#[test]
fn place_and_remove() {
    let mut b = BoardState::empty();
    b.place(piece(PieceType::Knight, PieceColor::White, 3, 3));
    assert_eq!(b.piece_count(), 1);
    let p = b.piece_at(sq(3, 3)).unwrap();
    assert_eq!(p.my_type, PieceType::Knight);
    b.remove(sq(3, 3));
    assert!(b.piece_at(sq(3, 3)).is_none());
    assert_eq!(b.piece_count(), 0);
    // removing an empty square is a no-op
    b.remove(sq(3, 3));
    assert_eq!(b.piece_count(), 0);
}

#[test]
fn relocate_without_capture() {
    let mut b = BoardState::empty();
    b.place(piece(PieceType::Queen, PieceColor::White, 0, 0));
    b.relocate(sq(0, 0), sq(5, 5));
    assert!(b.piece_at(sq(0, 0)).is_none());
    let q = b.piece_at(sq(5, 5)).unwrap();
    assert_eq!(q.my_type, PieceType::Queen);
    assert_eq!((q.x, q.y), (5, 5));
    assert_eq!(b.piece_count(), 1);
}

#[test]
fn relocate_with_capture() {
    let mut b = BoardState::empty();
    b.place(piece(PieceType::Rook, PieceColor::White, 2, 2));
    b.place(piece(PieceType::Pawn, PieceColor::Black, 2, 6));
    assert_eq!(b.piece_count(), 2);
    b.relocate(sq(2, 2), sq(2, 6));
    assert_eq!(b.piece_count(), 1);
    let r = b.piece_at(sq(2, 6)).unwrap();
    assert_eq!(r.my_type, PieceType::Rook);
    assert_eq!(r.color, PieceColor::White);
}

#[test]
fn exchange_swaps_occupants() {
    let mut b = BoardState::empty();
    b.place(piece(PieceType::King, PieceColor::Black, 4, 7));
    b.place(piece(PieceType::Rook, PieceColor::Black, 0, 7));
    b.exchange(sq(4, 7), sq(0, 7));
    let k = b.piece_at(sq(0, 7)).unwrap();
    let r = b.piece_at(sq(4, 7)).unwrap();
    assert_eq!(k.my_type, PieceType::King);
    assert_eq!(r.my_type, PieceType::Rook);
    assert_eq!((k.x, k.y), (0, 7));
    assert_eq!((r.x, r.y), (4, 7));
    assert_eq!(b.piece_count(), 2);
}

#[test]
fn pieces_lists_every_occupant_once() {
    let b = BoardState::new_standard();
    let all = b.pieces();
    assert_eq!(all.len(), 32);
    let whites = all.iter().filter(|p| p.color == PieceColor::White).count();
    let pawns = all.iter().filter(|p| p.my_type == PieceType::Pawn).count();
    assert_eq!(whites, 16);
    assert_eq!(pawns, 16);
    for p in all.iter() {
        let on_board = b.piece_at(sq(p.x, p.y)).unwrap();
        assert_eq!(&on_board, p);
    }
}
