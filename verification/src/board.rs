//! `BoardState`: the single source of truth for piece placement.
//!
//! The board is a mapping from squares to at most one piece, stored as a
//! row-major grid of optional pieces. Well-formedness ties each stored
//! piece's recorded coordinates to the square that holds it, which is what
//! makes "no two pieces share a square" hold by construction.

use vstd::prelude::*;
use crate::pieces::{Piece, PieceColor, PieceType, Square};

verus! {

/// Row-major index of the square `(x, y)`.
pub open spec fn idx_of(x: int, y: int) -> int {
    y * 8 + x
}

/// Number of occupied cells in a grid.
pub closed spec fn count_pieces(s: Seq<Option<Piece>>) -> nat
    decreases s.len(),
{
    if s.len() == 0 {
        0
    } else {
        count_pieces(s.drop_last()) + (if s.last() is Some {
            1nat
        } else {
            0nat
        })
    }
}

/// Updating one cell changes the occupied count exactly by the difference
/// between the new and the old occupancy of that cell.
proof fn lemma_count_update(s: Seq<Option<Piece>>, i: int, v: Option<Piece>)
    requires
        0 <= i < s.len(),
    ensures
        count_pieces(s.update(i, v)) + (if s[i] is Some {
            1nat
        } else {
            0nat
        }) == count_pieces(s) + (if v is Some {
            1nat
        } else {
            0nat
        }),
    decreases s.len(),
{
    let t = s.update(i, v);
    if i == s.len() - 1 {
        assert(t.drop_last() =~= s.drop_last());
        assert(t.last() == v);
    } else {
        assert(t.drop_last() =~= s.drop_last().update(i, v));
        assert(t.last() == s.last());
        lemma_count_update(s.drop_last(), i, v);
    }
}

/// A prefix one longer counts one more cell.
proof fn lemma_count_prefix(s: Seq<Option<Piece>>, i: int)
    requires
        0 <= i < s.len(),
    ensures
        count_pieces(s.subrange(0, i + 1)) == count_pieces(s.subrange(0, i)) + (if s[i] is Some {
            1nat
        } else {
            0nat
        }),
{
    let t = s.subrange(0, i + 1);
    assert(t.drop_last() =~= s.subrange(0, i));
    assert(t.last() == s[i]);
}

/// The kind that opens the game on file `x` of a back rank: rooks in the
/// corners, then knights, then bishops, the queen on file 3, the king on 4.
pub open spec fn back_rank(x: int) -> PieceType {
    if x == 0 || x == 7 {
        PieceType::Rook
    } else if x == 1 || x == 6 {
        PieceType::Knight
    } else if x == 2 || x == 5 {
        PieceType::Bishop
    } else if x == 3 {
        PieceType::Queen
    } else {
        PieceType::King
    }
}

/// The occupant of `(x, y)` in the standard starting layout: White's back
/// rank on rank 0 and pawns on rank 1, mirrored for Black on ranks 7 and 6.
pub open spec fn initial_piece(x: int, y: int) -> Option<Piece> {
    if y == 0 {
        Some(Piece { my_type: back_rank(x), color: PieceColor::White, x: x as u8, y: 0 })
    } else if y == 1 {
        Some(Piece { my_type: PieceType::Pawn, color: PieceColor::White, x: x as u8, y: 1 })
    } else if y == 6 {
        Some(Piece { my_type: PieceType::Pawn, color: PieceColor::Black, x: x as u8, y: 6 })
    } else if y == 7 {
        Some(Piece { my_type: back_rank(x), color: PieceColor::Black, x: x as u8, y: 7 })
    } else {
        None
    }
}

fn back_rank_exec(x: u8) -> (t: PieceType)
    requires
        x < 8,
    ensures
        t == back_rank(x as int),
{
    if x == 0 || x == 7 {
        PieceType::Rook
    } else if x == 1 || x == 6 {
        PieceType::Knight
    } else if x == 2 || x == 5 {
        PieceType::Bishop
    } else if x == 3 {
        PieceType::Queen
    } else {
        PieceType::King
    }
}

fn initial_piece_exec(x: u8, y: u8) -> (r: Option<Piece>)
    requires
        x < 8,
        y < 8,
    ensures
        r == initial_piece(x as int, y as int),
{
    if y == 0 {
        Some(Piece { my_type: back_rank_exec(x), color: PieceColor::White, x, y: 0 })
    } else if y == 1 {
        Some(Piece { my_type: PieceType::Pawn, color: PieceColor::White, x, y: 1 })
    } else if y == 6 {
        Some(Piece { my_type: PieceType::Pawn, color: PieceColor::Black, x, y: 6 })
    } else if y == 7 {
        Some(Piece { my_type: back_rank_exec(x), color: PieceColor::Black, x, y: 7 })
    } else {
        None
    }
}

/// The piece placement of the whole board.
pub struct BoardState {
    grid: Vec<Option<Piece>>,
}

impl BoardState {
    /// The occupant of square `(x, y)`, if any.
    pub closed spec fn at(self, x: int, y: int) -> Option<Piece> {
        self.grid@[idx_of(x, y)]
    }

    /// The grid covers every square of the board.
    pub closed spec fn complete(self) -> bool {
        self.grid@.len() == 64
    }

    /// How many pieces stand on the board.
    pub closed spec fn count(self) -> nat {
        count_pieces(self.grid@)
    }

    /// Well-formed: every square exists, and each stored piece records the
    /// coordinates of the square that holds it.
    pub open spec fn wf(self) -> bool {
        &&& self.complete()
        &&& forall|x: int, y: int|
            0 <= x < 8 && 0 <= y < 8 ==> ((#[trigger] self.at(x, y)) matches Some(p) ==> p.x == x
                && p.y == y)
    }

    /// No two distinct squares of a well-formed board hold the same piece:
    /// a piece records a single position, so it stands on one square only.
    pub proof fn lemma_no_shared_square(self, x1: int, y1: int, x2: int, y2: int)
        requires
            self.wf(),
            0 <= x1 < 8,
            0 <= y1 < 8,
            0 <= x2 < 8,
            0 <= y2 < 8,
            !(x1 == x2 && y1 == y2),
            self.at(x1, y1) is Some,
            self.at(x2, y2) is Some,
        ensures
            self.at(x1, y1) != self.at(x2, y2),
    {
    }

    /// An empty board: every square exists and none is occupied.
    pub fn empty() -> (b: BoardState)
        ensures
            b.wf(),
            forall|x: int, y: int| 0 <= x < 8 && 0 <= y < 8 ==> b.at(x, y) is None,
            b.count() == 0,
    {
        let mut grid: Vec<Option<Piece>> = Vec::new();
        let mut i: usize = 0;
        while i < 64
            invariant
                i <= 64,
                grid@.len() == i,
                forall|j: int| 0 <= j < i ==> grid@[j] is None,
                count_pieces(grid@.subrange(0, i as int)) == 0,
            decreases 64 - i,
        {
            proof {
                lemma_count_prefix(grid@.push(None), i as int);
                assert(grid@.push(None).subrange(0, i as int) =~= grid@.subrange(0, i as int));
            }
            grid.push(None);
            proof {
                assert(grid@.subrange(0, i + 1) =~= grid@);
            }
            i = i + 1;
        }
        let b = BoardState { grid };
        proof {
            assert(b.grid@.subrange(0, 64) =~= b.grid@);
        }
        b
    }

    /// The board as the game starts: the standard layout, mirrored across
    /// the board for the two colors.
    pub fn new_standard() -> (b: BoardState)
        ensures
            b.wf(),
            forall|x: int, y: int|
                0 <= x < 8 && 0 <= y < 8 ==> #[trigger] b.at(x, y) == initial_piece(x, y),
    {
        let mut grid: Vec<Option<Piece>> = Vec::new();
        let mut i: usize = 0;
        while i < 64
            invariant
                i <= 64,
                grid@.len() == i,
                forall|j: int| 0 <= j < i ==> #[trigger] grid@[j] == initial_piece(j % 8, j / 8),
            decreases 64 - i,
        {
            let x: u8 = (i % 8) as u8;
            let y: u8 = (i / 8) as u8;
            grid.push(initial_piece_exec(x, y));
            i = i + 1;
        }
        let b = BoardState { grid };
        proof {
            assert forall|x: int, y: int| 0 <= x < 8 && 0 <= y < 8 implies #[trigger] b.at(x, y)
                == initial_piece(x, y) by {
                assert(idx_of(x, y) % 8 == x);
                assert(idx_of(x, y) / 8 == y);
            }
            assert(b.wf());
        }
        b
    }

    /// The occupant of `sq`; read-only.
    pub fn piece_at(&self, sq: Square) -> (r: Option<Piece>)
        requires
            self.wf(),
            sq.in_bounds(),
        ensures
            r == self.at(sq.x as int, sq.y as int),
    {
        let i: usize = (sq.y as usize) * 8 + (sq.x as usize);
        self.grid[i]
    }

    /// Put `p` on its recorded square. Only used at setup; the target square
    /// must be free, which callers establish before calling.
    pub fn place(&mut self, p: Piece)
        requires
            old(self).wf(),
            p.in_bounds(),
            old(self).at(p.x as int, p.y as int) is None,
        ensures
            final(self).wf(),
            forall|x: int, y: int|
                0 <= x < 8 && 0 <= y < 8 ==> final(self).at(x, y) == (if x == p.x && y == p.y {
                    Some(p)
                } else {
                    old(self).at(x, y)
                }),
            final(self).count() == old(self).count() + 1,
    {
        let i: usize = (p.y as usize) * 8 + (p.x as usize);
        proof {
            lemma_count_update(self.grid@, i as int, Some(p));
        }
        self.grid[i] = Some(p);
        proof {
            assert forall|x: int, y: int| 0 <= x < 8 && 0 <= y < 8 implies #[trigger] self.at(x, y)
                == (if x == p.x && y == p.y {
                Some(p)
            } else {
                old(self).at(x, y)
            }) by {}
            assert(self.wf());
        }
    }

    /// Take whatever stands on `sq` off the board; no-op if `sq` is empty.
    pub fn remove(&mut self, sq: Square)
        requires
            old(self).wf(),
            sq.in_bounds(),
        ensures
            final(self).wf(),
            forall|x: int, y: int|
                0 <= x < 8 && 0 <= y < 8 ==> final(self).at(x, y) == (if x == sq.x && y == sq.y {
                    None::<Piece>
                } else {
                    old(self).at(x, y)
                }),
            final(self).count() + (if old(self).at(sq.x as int, sq.y as int) is Some {
                1nat
            } else {
                0nat
            }) == old(self).count(),
    {
        let i: usize = (sq.y as usize) * 8 + (sq.x as usize);
        proof {
            lemma_count_update(self.grid@, i as int, None);
        }
        self.grid[i] = None;
        proof {
            assert forall|x: int, y: int| 0 <= x < 8 && 0 <= y < 8 implies #[trigger] self.at(x, y)
                == (if x == sq.x && y == sq.y {
                None::<Piece>
            } else {
                old(self).at(x, y)
            }) by {}
            assert(self.wf());
        }
    }

    /// Move the piece at `from` to `to`, capturing any opposing occupant of
    /// `to`. A same-color occupant of `to` is a caller error, ruled out here;
    /// the king/rook exchange goes through `exchange` instead.
    pub fn relocate(&mut self, from: Square, to: Square)
        requires
            old(self).wf(),
            from.in_bounds(),
            to.in_bounds(),
            !(from.x == to.x && from.y == to.y),
            old(self).at(from.x as int, from.y as int) is Some,
            !(old(self).at(to.x as int, to.y as int) matches Some(q) && q.color == old(self).at(
                from.x as int,
                from.y as int,
            )->Some_0.color),
        ensures
            final(self).wf(),
            forall|x: int, y: int|
                0 <= x < 8 && 0 <= y < 8 ==> final(self).at(x, y) == (if x == to.x && y == to.y {
                    Some(old(self).at(from.x as int, from.y as int)->Some_0.spec_moved_to(to))
                } else if x == from.x && y == from.y {
                    None::<Piece>
                } else {
                    old(self).at(x, y)
                }),
            final(self).count() + (if old(self).at(to.x as int, to.y as int) is Some {
                1nat
            } else {
                0nat
            }) == old(self).count(),
    {
        let ifrom: usize = (from.y as usize) * 8 + (from.x as usize);
        let ito: usize = (to.y as usize) * 8 + (to.x as usize);
        let p = self.grid[ifrom].unwrap();
        proof {
            lemma_count_update(self.grid@, ifrom as int, None);
        }
        self.grid[ifrom] = None;
        proof {
            lemma_count_update(self.grid@, ito as int, Some(p.spec_moved_to(to)));
        }
        let moved = p.moved_to(to);
        self.grid[ito] = Some(moved);
        proof {
            assert forall|x: int, y: int| 0 <= x < 8 && 0 <= y < 8 implies #[trigger] self.at(x, y)
                == (if x == to.x && y == to.y {
                Some(old(self).at(from.x as int, from.y as int)->Some_0.spec_moved_to(to))
            } else if x == from.x && y == from.y {
                None::<Piece>
            } else {
                old(self).at(x, y)
            }) by {}
            assert(self.wf());
        }
    }

    /// Swap the occupants of two distinct occupied squares, each taking the
    /// other's place; used for the king/rook exchange. No capture happens.
    pub fn exchange(&mut self, a: Square, b: Square)
        requires
            old(self).wf(),
            a.in_bounds(),
            b.in_bounds(),
            !(a.x == b.x && a.y == b.y),
            old(self).at(a.x as int, a.y as int) is Some,
            old(self).at(b.x as int, b.y as int) is Some,
        ensures
            final(self).wf(),
            forall|x: int, y: int|
                0 <= x < 8 && 0 <= y < 8 ==> final(self).at(x, y) == (if x == a.x && y == a.y {
                    Some(old(self).at(b.x as int, b.y as int)->Some_0.spec_moved_to(a))
                } else if x == b.x && y == b.y {
                    Some(old(self).at(a.x as int, a.y as int)->Some_0.spec_moved_to(b))
                } else {
                    old(self).at(x, y)
                }),
            final(self).count() == old(self).count(),
    {
        let ia: usize = (a.y as usize) * 8 + (a.x as usize);
        let ib: usize = (b.y as usize) * 8 + (b.x as usize);
        let pa = self.grid[ia].unwrap();
        let pb = self.grid[ib].unwrap();
        proof {
            lemma_count_update(self.grid@, ia as int, Some(pb.spec_moved_to(a)));
        }
        let pba = pb.moved_to(a);
        self.grid[ia] = Some(pba);
        proof {
            lemma_count_update(self.grid@, ib as int, Some(pa.spec_moved_to(b)));
        }
        let pab = pa.moved_to(b);
        self.grid[ib] = Some(pab);
        proof {
            assert forall|x: int, y: int| 0 <= x < 8 && 0 <= y < 8 implies #[trigger] self.at(x, y)
                == (if x == a.x && y == a.y {
                Some(old(self).at(b.x as int, b.y as int)->Some_0.spec_moved_to(a))
            } else if x == b.x && y == b.y {
                Some(old(self).at(a.x as int, a.y as int)->Some_0.spec_moved_to(b))
            } else {
                old(self).at(x, y)
            }) by {}
            assert(self.wf());
        }
    }

    /// Every piece on the board, for read-only iteration by a renderer:
    /// exactly the occupants of the occupied squares, one entry each.
    pub fn pieces(&self) -> (r: Vec<Piece>)
        requires
            self.wf(),
        ensures
            r@.len() == self.count(),
            forall|k: int|
                0 <= k < r@.len() ==> (#[trigger] r@[k]).in_bounds() && self.at(
                    r@[k].x as int,
                    r@[k].y as int,
                ) == Some(r@[k]),
            forall|x: int, y: int|
                0 <= x < 8 && 0 <= y < 8 ==> ((#[trigger] self.at(x, y)) matches Some(p)
                    ==> r@.contains(p)),
    {
        let mut r: Vec<Piece> = Vec::new();
        let mut i: usize = 0;
        while i < 64
            invariant
                self.wf(),
                i <= 64,
                r@.len() == count_pieces(self.grid@.subrange(0, i as int)),
                forall|k: int|
                    0 <= k < r@.len() ==> (#[trigger] r@[k]).in_bounds() && self.at(
                        r@[k].x as int,
                        r@[k].y as int,
                    ) == Some(r@[k]),
                forall|j: int|
                    0 <= j < i ==> ((#[trigger] self.grid@[j]) matches Some(p) ==> r@.contains(p)),
            decreases 64 - i,
        {
            proof {
                lemma_count_prefix(self.grid@, i as int);
            }
            match self.grid[i] {
                Some(p) => {
                    let ghost old_r = r@;
                    r.push(p);
                    proof {
                        assert(r@[r@.len() - 1] == p);
                        assert(self.at(i as int % 8, i as int / 8) == Some(p));
                        assert forall|j: int|
                            0 <= j < i + 1 implies ((#[trigger] self.grid@[j]) matches Some(q)
                            ==> r@.contains(q)) by {
                            if self.grid@[j] is Some {
                                let q = self.grid@[j]->Some_0;
                                if j < i {
                                    assert(old_r.contains(q));
                                    let k = choose|k: int| 0 <= k < old_r.len() && old_r[k] == q;
                                    assert(r@[k] == q);
                                } else {
                                    assert(r@[r@.len() - 1] == q);
                                }
                            }
                        }
                    }
                },
                None => {},
            }
            i = i + 1;
        }
        proof {
            assert(self.grid@.subrange(0, 64) =~= self.grid@);
            assert forall|x: int, y: int|
                0 <= x < 8 && 0 <= y < 8 implies ((#[trigger] self.at(x, y)) matches Some(p)
                ==> r@.contains(p)) by {
                assert(self.at(x, y) == self.grid@[idx_of(x, y)]);
            }
        }
        r
    }

    /// Count the pieces on the board by walking the grid.
    pub fn piece_count(&self) -> (n: usize)
        requires
            self.wf(),
        ensures
            n == self.count(),
    {
        let mut n: usize = 0;
        let mut i: usize = 0;
        while i < 64
            invariant
                self.wf(),
                i <= 64,
                n <= i,
                n == count_pieces(self.grid@.subrange(0, i as int)),
            decreases 64 - i,
        {
            proof {
                lemma_count_prefix(self.grid@, i as int);
            }
            if self.grid[i].is_some() {
                n = n + 1;
            }
            i = i + 1;
        }
        proof {
            assert(self.grid@.subrange(0, 64) =~= self.grid@);
        }
        n
    }
}

} // verus!
