//! Simultaneous-move resolution.
//!
//! Both sides' moves are applied together. When the destinations differ,
//! each piece simply relocates, with a pawn reaching its promotion rank
//! replaced by a knight of the same side. When both moves target the same
//! square (a clash), same-kind pieces annihilate each other and the
//! destination is left empty, while in a mixed clash the knight survives,
//! whichever side owns it.

use vstd::prelude::*;
use vstd::pervasive::unreached;
use crate::board::Board;
use crate::board::spec_kind_at;
use crate::board::Colour;
use crate::board::Kind;
use crate::board::MovePair;
use crate::board::Piece;
use crate::board::SquareVal;
use crate::board::board_wf;
use crate::movegen::spec_is_legal;

verus! {

/// The promotion rank for a side: the far row, nearest the opponent's
/// home row. White promotes on the high-index rank, Black on the low one.
pub open spec fn spec_promo_rank(c: Colour, i: int) -> bool {
    match c {
        Colour::White => 43 <= i <= 47,
        Colour::Black => 15 <= i <= 19,
    }
}

/// What lands on a mover's destination square: the moved piece itself,
/// or a knight of the same side when a pawn reaches its promotion rank.
pub open spec fn spec_piece_to_place(square_val: SquareVal, colour: Colour, to_square: u8) -> SquareVal {
    match square_val {
        SquareVal::Piece(p) => if p.kind is Pawn && spec_promo_rank(colour, to_square as int) {
            SquareVal::Piece(Piece { colour, kind: Kind::Knight })
        } else {
            square_val
        },
        _ => square_val,
    }
}

/// Runtime counterpart of `spec_piece_to_place`. The caller must hand in
/// an occupied square; anything else is an upstream contract violation.
pub fn piece_to_place(square_val: SquareVal, colour: Colour, to_square: u8) -> (r: SquareVal)
    requires
        square_val is Piece,
    ensures
        r == spec_piece_to_place(square_val, colour, to_square),
{
    match square_val {
        SquareVal::Piece(piece) => {
            let on_promo_rank = match colour {
                Colour::White => 43 <= to_square && to_square <= 47,
                Colour::Black => 15 <= to_square && to_square <= 19,
            };
            if piece.kind == Kind::Pawn && on_promo_rank {
                SquareVal::Piece(Piece { colour, kind: Kind::Knight })
            } else {
                square_val
            }
        },
        _ => square_val,
    }
}

/// The board after a move pair whose destinations differ: both origins
/// are cleared, then each side's piece (promoted if due) is placed on its
/// destination.
pub open spec fn spec_resolve_diff(b: Seq<SquareVal>, p: MovePair) -> Seq<SquareVal> {
    let white_piece = b[p.white.from_square as int];
    let black_piece = b[p.black.from_square as int];
    b.update(p.white.from_square as int, SquareVal::Empty).update(
        p.black.from_square as int,
        SquareVal::Empty,
    ).update(
        p.white.to_square as int,
        spec_piece_to_place(white_piece, Colour::White, p.white.to_square),
    ).update(
        p.black.to_square as int,
        spec_piece_to_place(black_piece, Colour::Black, p.black.to_square),
    )
}

/// The board after a clash: both origins are cleared; the shared
/// destination becomes empty when the kinds match, and holds the
/// knight's piece when they differ.
pub open spec fn spec_resolve_same(b: Seq<SquareVal>, p: MovePair) -> Seq<SquareVal> {
    let cleared = b.update(p.white.from_square as int, SquareVal::Empty).update(
        p.black.from_square as int,
        SquareVal::Empty,
    );
    match (b[p.white.from_square as int], b[p.black.from_square as int]) {
        (SquareVal::Piece(wp), SquareVal::Piece(bp)) => {
            if wp.kind == bp.kind {
                cleared.update(p.white.to_square as int, SquareVal::Empty)
            } else {
                let winner = if wp.kind is Knight {
                    wp
                } else {
                    bp
                };
                cleared.update(p.white.to_square as int, SquareVal::Piece(winner))
            }
        },
        _ => cleared,
    }
}

/// The board after resolving a move pair.
pub open spec fn spec_resolve(b: Seq<SquareVal>, p: MovePair) -> Seq<SquareVal> {
    if p.white.to_square == p.black.to_square {
        spec_resolve_same(b, p)
    } else {
        spec_resolve_diff(b, p)
    }
}

impl Board {
    /// Applies a move pair whose destinations differ.
    pub fn execute_moves_to_different_squares(&mut self, mov_pair: MovePair)
        requires
            old(self).wf(),
            spec_is_legal(old(self)@, mov_pair.white, Colour::White),
            spec_is_legal(old(self)@, mov_pair.black, Colour::Black),
            mov_pair.white.to_square != mov_pair.black.to_square,
        ensures
            final(self)@ == spec_resolve_diff(old(self)@, mov_pair),
            final(self).wf(),
    {
        let white_piece = self.at(mov_pair.white.from_square);
        let black_piece = self.at(mov_pair.black.from_square);
        self.set_square(mov_pair.white.from_square, SquareVal::Empty);
        self.set_square(mov_pair.black.from_square, SquareVal::Empty);
        self.set_square(
            mov_pair.white.to_square,
            piece_to_place(white_piece, Colour::White, mov_pair.white.to_square),
        );
        self.set_square(
            mov_pair.black.to_square,
            piece_to_place(black_piece, Colour::Black, mov_pair.black.to_square),
        );
    }

    /// Applies a move pair whose destinations coincide: the clash rule.
    pub fn execute_moves_to_same_square(&mut self, mov_pair: MovePair)
        requires
            old(self).wf(),
            spec_is_legal(old(self)@, mov_pair.white, Colour::White),
            spec_is_legal(old(self)@, mov_pair.black, Colour::Black),
            mov_pair.white.to_square == mov_pair.black.to_square,
        ensures
            final(self)@ == spec_resolve_same(old(self)@, mov_pair),
            final(self).wf(),
    {
        let white_piece = match self.at(mov_pair.white.from_square) {
            SquareVal::Piece(p) => p,
            _ => unreached(),
        };
        let black_piece = match self.at(mov_pair.black.from_square) {
            SquareVal::Piece(p) => p,
            _ => unreached(),
        };
        self.set_square(mov_pair.white.from_square, SquareVal::Empty);
        self.set_square(mov_pair.black.from_square, SquareVal::Empty);
        if white_piece.kind == black_piece.kind {
            self.set_square(mov_pair.white.to_square, SquareVal::Empty);
        } else {
            let winner = if white_piece.kind == Kind::Knight {
                white_piece
            } else {
                black_piece
            };
            self.set_square(mov_pair.white.to_square, SquareVal::Piece(winner));
        }
    }

    /// Advances the game by one full turn: applies one legal move per
    /// side simultaneously, dispatching on whether the destinations
    /// clash. Exactly one new board state results, it is well-formed, and
    /// it is a function of the previous state and the move pair alone.
    pub fn execute_moves(&mut self, mov_pair: MovePair)
        requires
            old(self).wf(),
            spec_is_legal(old(self)@, mov_pair.white, Colour::White),
            spec_is_legal(old(self)@, mov_pair.black, Colour::Black),
        ensures
            final(self)@ == spec_resolve(old(self)@, mov_pair),
            final(self).wf(),
    {
        if mov_pair.white.to_square == mov_pair.black.to_square {
            self.execute_moves_to_same_square(mov_pair);
        } else {
            self.execute_moves_to_different_squares(mov_pair);
        }
    }
}

/// Law: resolution is deterministic. Identical boards and identical move
/// pairs always yield identical resulting boards.
pub proof fn lemma_resolve_deterministic(
    b1: Seq<SquareVal>,
    b2: Seq<SquareVal>,
    p1: MovePair,
    p2: MovePair,
)
    requires
        b1 == b2,
        p1 == p2,
    ensures
        spec_resolve(b1, p1) == spec_resolve(b2, p2),
{
}

/// Law: the clash rule. When both legal moves target the same square, a
/// same-kind clash leaves that square empty, and a mixed-kind clash
/// leaves exactly the knight's piece there, whichever side owned the
/// knight; both origin squares end up empty either way.
pub proof fn lemma_clash(b: Seq<SquareVal>, p: MovePair)
    requires
        board_wf(b),
        spec_is_legal(b, p.white, Colour::White),
        spec_is_legal(b, p.black, Colour::Black),
        p.white.to_square == p.black.to_square,
    ensures
        (b[p.white.from_square as int] matches SquareVal::Piece(wp)
            && b[p.black.from_square as int] matches SquareVal::Piece(bp) && {
            let r = spec_resolve(b, p);
            &&& wp.kind == bp.kind ==> r[p.white.to_square as int] is Empty
            &&& wp.kind != bp.kind ==> r[p.white.to_square as int] == SquareVal::Piece(
                if wp.kind is Knight {
                    wp
                } else {
                    bp
                },
            )
            &&& r[p.white.from_square as int] is Empty
            &&& r[p.black.from_square as int] is Empty
        }),
{
}

/// Law: promotion. When the destinations differ and the side `c` moves a
/// pawn onto its promotion rank, the resulting board holds a knight of
/// side `c` on that destination, never a pawn.
pub proof fn lemma_promotion(b: Seq<SquareVal>, p: MovePair, c: Colour)
    requires
        board_wf(b),
        spec_is_legal(b, p.white, Colour::White),
        spec_is_legal(b, p.black, Colour::Black),
        p.white.to_square != p.black.to_square,
        spec_kind_at(b, (if c is White { p.white } else { p.black }).from_square as int)
            == Option::Some(Kind::Pawn),
        spec_promo_rank(c, (if c is White { p.white } else { p.black }).to_square as int),
    ensures
        spec_resolve(b, p)[(if c is White { p.white } else { p.black }).to_square as int]
            == SquareVal::Piece(Piece { colour: c, kind: Kind::Knight }),
{
}

} // verus!
