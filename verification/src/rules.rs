//! The move-legality engine: pure functions over a board answering whether a
//! piece may move to a square.
//!
//! A destination held by a same-color piece is illegal, except the king/rook
//! pair, whose move is an exchange and legal regardless of distance or path.
//! Every other kind follows its geometric rule, and the sliding kinds also
//! need the squares strictly between origin and destination to be empty.

use vstd::prelude::*;
use crate::board::BoardState;
use crate::pieces::{Piece, PieceColor, PieceType, Square};

verus! {

/// Distance between two coordinates on one axis.
pub open spec fn dist(a: int, b: int) -> int {
    if a >= b {
        a - b
    } else {
        b - a
    }
}

/// The coordinate `k` single steps from `from` toward `to` on one axis.
pub open spec fn step_toward(from: int, to: int, k: int) -> int {
    if to > from {
        from + k
    } else if to < from {
        from - k
    } else {
        from
    }
}

/// How many king-steps long the move line is.
pub open spec fn line_len(fx: int, fy: int, tx: int, ty: int) -> int {
    if dist(fx, tx) >= dist(fy, ty) {
        dist(fx, tx)
    } else {
        dist(fy, ty)
    }
}

/// The move keeps to a rank, a file, or a diagonal.
pub open spec fn straight_or_diagonal(fx: int, fy: int, tx: int, ty: int) -> bool {
    fx == tx || fy == ty || dist(fx, tx) == dist(fy, ty)
}

/// No occupied square strictly between origin and destination along the
/// move line; the endpoints themselves are not part of the check.
pub open spec fn path_clear(b: BoardState, fx: int, fy: int, tx: int, ty: int) -> bool {
    forall|k: int|
        1 <= k < line_len(fx, fy, tx, ty) ==> (#[trigger] b.at(
            step_toward(fx, tx, k),
            step_toward(fy, ty, k),
        )) is None
}

/// The one same-color destination that is allowed: a king and a rook of one
/// color exchange squares.
pub open spec fn exchange_pair(p: Piece, q: Piece) -> bool {
    p.color == q.color && ((p.my_type == PieceType::King && q.my_type == PieceType::Rook) || (
    p.my_type == PieceType::Rook && q.my_type == PieceType::King))
}

/// Whether `p` and `q` are a same-color king/rook pair.
pub fn is_exchange_pair(p: Piece, q: Piece) -> (r: bool)
    ensures
        r == exchange_pair(p, q),
{
    p.color == q.color && ((p.my_type == PieceType::King && q.my_type == PieceType::Rook) || (
    p.my_type == PieceType::Rook && q.my_type == PieceType::King))
}

/// The rank direction a pawn of color `c` advances in.
pub open spec fn pawn_dir(c: PieceColor) -> int {
    if c == PieceColor::White {
        1
    } else {
        -1
    }
}

/// The rank a pawn of color `c` starts the game on.
pub open spec fn pawn_start_rank(c: PieceColor) -> int {
    if c == PieceColor::White {
        1
    } else {
        6
    }
}

/// Pawn rule: a single step forward onto an empty square; a double step from
/// the start rank when both the destination and the skipped square are
/// empty; or a diagonal step forward capturing an opposing piece.
pub open spec fn pawn_legal(b: BoardState, p: Piece, to: Square) -> bool {
    let fx = p.x as int;
    let fy = p.y as int;
    let tx = to.x as int;
    let ty = to.y as int;
    let d = pawn_dir(p.color);
    ||| (tx == fx && ty == fy + d && b.at(tx, ty) is None)
    ||| (tx == fx && ty == fy + 2 * d && fy == pawn_start_rank(p.color) && b.at(tx, ty) is None
        && b.at(fx, fy + d) is None)
    ||| (dist(fx, tx) == 1 && ty == fy + d && (b.at(tx, ty) matches Some(q) && q.color != p.color))
}

/// The per-kind geometry rule, for a destination not held by a same-color
/// piece.
pub open spec fn kind_legal(b: BoardState, p: Piece, to: Square) -> bool {
    let fx = p.x as int;
    let fy = p.y as int;
    let tx = to.x as int;
    let ty = to.y as int;
    let dx = dist(fx, tx);
    let dy = dist(fy, ty);
    match p.my_type {
        PieceType::King => ((dx == 1 && dy == 0) || (dx == 0 && dy == 1) || (dx == 1 && dy == 1))
            && path_clear(b, fx, fy, tx, ty),
        PieceType::Queen => (dx == dy || ((dx == 0) != (dy == 0))) && path_clear(b, fx, fy, tx, ty),
        PieceType::Bishop => dx == dy && dx > 0 && path_clear(b, fx, fy, tx, ty),
        PieceType::Knight => (dx == 2 && dy == 1) || (dx == 1 && dy == 2),
        PieceType::Rook => ((dx == 0) != (dy == 0)) && path_clear(b, fx, fy, tx, ty),
        PieceType::Pawn => pawn_legal(b, p, to),
    }
}

/// Whether `p` may move to `to` on board `b`: a same-color destination only
/// as the king/rook exchange, anything else by the kind's rule.
pub open spec fn legal_move(b: BoardState, p: Piece, to: Square) -> bool {
    match b.at(to.x as int, to.y as int) {
        Some(q) => if q.color == p.color {
            exchange_pair(p, q)
        } else {
            kind_legal(b, p, to)
        },
        None => kind_legal(b, p, to),
    }
}

/// Walk the squares strictly between `from` and `to` along the move line and
/// report whether all of them are empty.
fn path_is_clear(board: &BoardState, from: Square, to: Square) -> (r: bool)
    requires
        board.wf(),
        from.in_bounds(),
        to.in_bounds(),
        straight_or_diagonal(from.x as int, from.y as int, to.x as int, to.y as int),
    ensures
        r == path_clear(*board, from.x as int, from.y as int, to.x as int, to.y as int),
{
    let ghost fx = from.x as int;
    let ghost fy = from.y as int;
    let ghost tx = to.x as int;
    let ghost ty = to.y as int;
    let sx: i8 = if to.x > from.x {
        1
    } else if to.x < from.x {
        -1
    } else {
        0
    };
    let sy: i8 = if to.y > from.y {
        1
    } else if to.y < from.y {
        -1
    } else {
        0
    };
    let dx: u8 = if to.x >= from.x {
        to.x - from.x
    } else {
        from.x - to.x
    };
    let dy: u8 = if to.y >= from.y {
        to.y - from.y
    } else {
        from.y - to.y
    };
    let n: u8 = if dx >= dy {
        dx
    } else {
        dy
    };
    let mut k: u8 = 1;
    let mut cx: i8 = (from.x as i8) + sx;
    let mut cy: i8 = (from.y as i8) + sy;
    while k < n
        invariant
            board.wf(),
            from.in_bounds(),
            to.in_bounds(),
            straight_or_diagonal(fx, fy, tx, ty),
            fx == from.x as int && fy == from.y as int && tx == to.x as int && ty == to.y as int,
            n == line_len(fx, fy, tx, ty),
            sx as int == step_toward(fx, tx, 1) - fx,
            sy as int == step_toward(fy, ty, 1) - fy,
            1 <= k,
            k <= n || k == 1,
            cx as int == step_toward(fx, tx, k as int),
            cy as int == step_toward(fy, ty, k as int),
            forall|j: int|
                1 <= j < k ==> (#[trigger] board.at(
                    step_toward(fx, tx, j),
                    step_toward(fy, ty, j),
                )) is None,
        decreases n - k,
    {
        proof {
            assert(dist(fx, tx) == 0 || dist(fx, tx) == line_len(fx, fy, tx, ty));
            assert(dist(fy, ty) == 0 || dist(fy, ty) == line_len(fx, fy, tx, ty));
            assert(0 <= cx < 8);
            assert(0 <= cy < 8);
        }
        let sq = Square { x: cx as u8, y: cy as u8 };
        if board.piece_at(sq).is_some() {
            proof {
                assert(board.at(step_toward(fx, tx, k as int), step_toward(fy, ty, k as int))
                    is Some);
            }
            return false;
        }
        k = k + 1;
        cx = cx + sx;
        cy = cy + sy;
    }
    true
}

/// Per-kind legality of a move of `p` to `to` whose destination is not held
/// by a same-color piece.
fn kind_legal_at(p: Piece, to: Square, board: &BoardState) -> (r: bool)
    requires
        board.wf(),
        p.in_bounds(),
        to.in_bounds(),
    ensures
        r == kind_legal(*board, p, to),
{
    let from = Square { x: p.x, y: p.y };
    let dx: u8 = if to.x >= p.x {
        to.x - p.x
    } else {
        p.x - to.x
    };
    let dy: u8 = if to.y >= p.y {
        to.y - p.y
    } else {
        p.y - to.y
    };
    match p.my_type {
        PieceType::King => {
            if (dx == 1 && dy == 0) || (dx == 0 && dy == 1) || (dx == 1 && dy == 1) {
                path_is_clear(board, from, to)
            } else {
                false
            }
        },
        PieceType::Queen => {
            if dx == dy || ((dx == 0) != (dy == 0)) {
                path_is_clear(board, from, to)
            } else {
                false
            }
        },
        PieceType::Bishop => {
            if dx == dy && dx > 0 {
                path_is_clear(board, from, to)
            } else {
                false
            }
        },
        PieceType::Knight => (dx == 2 && dy == 1) || (dx == 1 && dy == 2),
        PieceType::Rook => {
            if (dx == 0) != (dy == 0) {
                path_is_clear(board, from, to)
            } else {
                false
            }
        },
        PieceType::Pawn => pawn_legal_at(p, to, board),
    }
}

/// Pawn legality, split by color so the rank arithmetic stays in bounds.
fn pawn_legal_at(p: Piece, to: Square, board: &BoardState) -> (r: bool)
    requires
        board.wf(),
        p.in_bounds(),
        to.in_bounds(),
        p.my_type == PieceType::Pawn,
    ensures
        r == pawn_legal(*board, p, to),
{
    let dx: u8 = if to.x >= p.x {
        to.x - p.x
    } else {
        p.x - to.x
    };
    match p.color {
        PieceColor::White => {
            if to.x == p.x && to.y == p.y + 1 {
                board.piece_at(to).is_none()
            } else if to.x == p.x && p.y == 1 && to.y == 3 {
                board.piece_at(to).is_none() && board.piece_at(Square { x: p.x, y: 2 }).is_none()
            } else if dx == 1 && to.y == p.y + 1 {
                match board.piece_at(to) {
                    Some(q) => q.color != PieceColor::White,
                    None => false,
                }
            } else {
                false
            }
        },
        PieceColor::Black => {
            if to.x == p.x && to.y + 1 == p.y {
                board.piece_at(to).is_none()
            } else if to.x == p.x && p.y == 6 && to.y == 4 {
                board.piece_at(to).is_none() && board.piece_at(Square { x: p.x, y: 5 }).is_none()
            } else if dx == 1 && to.y + 1 == p.y {
                match board.piece_at(to) {
                    Some(q) => q.color != PieceColor::Black,
                    None => false,
                }
            } else {
                false
            }
        },
    }
}

/// Whether `piece` may legally move to `destination` on `board`.
pub fn is_legal(piece: Piece, destination: Square, board: &BoardState) -> (r: bool)
    requires
        board.wf(),
        piece.in_bounds(),
        destination.in_bounds(),
    ensures
        r == legal_move(*board, piece, destination),
{
    match board.piece_at(destination) {
        Some(q) => {
            if q.color == piece.color {
                is_exchange_pair(piece, q)
            } else {
                kind_legal_at(piece, destination, board)
            }
        },
        None => kind_legal_at(piece, destination, board),
    }
}

} // verus!
