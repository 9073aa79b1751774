//! One-ply positional evaluation.
//!
//! A board's desirability for a side is the sum, over every occupied
//! square, of a square-dependent value, positive for the viewing side's
//! pieces and negated for the opponent's. Values are kept in integer
//! tenths of a pawn unit. Central squares are worth more than edge
//! squares for both kinds; the pawn table is side-dependent (mirrored
//! between White and Black) while the knight table is shared, since a
//! knight's worth does not depend on its direction of travel. Border
//! cells and empty squares contribute zero.

use vstd::prelude::*;
use crate::board::Board;
use crate::board::Colour;
use crate::board::Kind;
use crate::board::Piece;
use crate::board::SquareVal;
use crate::board::sq_valid;
use crate::board::square_on_board;

verus! {

/// Absolute difference of two integers, used for distance from the
/// board's central file and rank.
pub open spec fn spec_dist(a: int, b: int) -> int {
    if a >= b {
        a - b
    } else {
        b - a
    }
}

/// How many ranks a pawn of side `c` standing on cell `i` has advanced
/// from its own back rank.
pub open spec fn spec_pawn_advance(c: Colour, i: int) -> int {
    match c {
        Colour::White => i / 7 - 2,
        Colour::Black => 6 - i / 7,
    }
}

/// The pawn value table, in tenths: zero on border cells and on the
/// side's own back rank; otherwise highest just off the back rank and on
/// the central file, falling off toward the far rank and the edges.
pub open spec fn spec_pawn_table(c: Colour, i: int) -> int {
    if !sq_valid(i) {
        0
    } else {
        let advance = spec_pawn_advance(c, i);
        if advance == 0 {
            0
        } else {
            10 + 2 * (4 - advance) + 2 * (2 - spec_dist(i % 7, 3))
        }
    }
}

/// The knight value table, in tenths: zero on border cells, highest on
/// the central square, falling off toward the edges; shared by both
/// sides.
pub open spec fn spec_knight_table(i: int) -> int {
    if !sq_valid(i) {
        0
    } else {
        30 + 2 * (2 - spec_dist(i / 7, 4)) + 2 * (2 - spec_dist(i % 7, 3))
    }
}

/// The unsigned table value of piece `p` standing on cell `i`.
pub open spec fn spec_absolute_piece_value(p: Piece, i: int) -> int {
    match p.kind {
        Kind::Knight => spec_knight_table(i),
        Kind::Pawn => spec_pawn_table(p.colour, i),
    }
}

/// The signed value of piece `p` on cell `i` from side `c`'s viewpoint.
pub open spec fn spec_piece_value(p: Piece, i: int, c: Colour) -> int {
    if p.colour == c {
        spec_absolute_piece_value(p, i)
    } else {
        -spec_absolute_piece_value(p, i)
    }
}

/// The contribution of one cell to the evaluation: zero unless occupied.
pub open spec fn spec_square_value(square: SquareVal, i: int, c: Colour) -> int {
    match square {
        SquareVal::Piece(p) => spec_piece_value(p, i, c),
        _ => 0,
    }
}

/// The evaluation of the first `n` cells from side `c`'s viewpoint.
pub open spec fn spec_value_upto(b: Seq<SquareVal>, c: Colour, n: int) -> int
    decreases n,
{
    if n <= 0 {
        0
    } else {
        spec_value_upto(b, c, n - 1) + spec_square_value(b[n - 1], n - 1, c)
    }
}

/// The evaluation of a whole board from side `c`'s viewpoint.
pub open spec fn spec_value(b: Seq<SquareVal>, c: Colour) -> int {
    spec_value_upto(b, c, 63)
}

/// Looks up the pawn table for the pawn's side, in tenths.
pub fn get_pawn_val(piece: &Piece, index: usize) -> (r: i64)
    requires
        index < 63,
    ensures
        r == spec_pawn_table(piece.colour, index as int),
{
    if !square_on_board(index) {
        return 0;
    }
    let row = index / 7;
    let advance: usize = match piece.colour {
        Colour::White => row - 2,
        Colour::Black => 6 - row,
    };
    if advance == 0 {
        return 0;
    }
    let col = index % 7;
    let file_dist: usize = if col >= 3 {
        col - 3
    } else {
        3 - col
    };
    10 + 2 * (4 - advance as i64) + 2 * (2 - file_dist as i64)
}

/// Looks up the table value of a piece on a cell, in tenths.
pub fn get_absolute_piece_value(piece: &Piece, index: usize) -> (r: i64)
    requires
        index < 63,
    ensures
        r == spec_absolute_piece_value(*piece, index as int),
        0 <= r <= 38,
{
    let r: i64 = match piece.kind {
        Kind::Knight => {
            if !square_on_board(index) {
                0
            } else {
                let row = index / 7;
                let col = index % 7;
                let rank_dist: usize = if row >= 4 {
                    row - 4
                } else {
                    4 - row
                };
                let file_dist: usize = if col >= 3 {
                    col - 3
                } else {
                    3 - col
                };
                30 + 2 * (2 - rank_dist as i64) + 2 * (2 - file_dist as i64)
            }
        },
        Kind::Pawn => get_pawn_val(piece, index),
    };
    r
}

/// The signed value of a piece on a cell from `colour`'s viewpoint.
pub fn get_piece_val(piece: &Piece, index: usize, colour: &Colour) -> (r: i64)
    requires
        index < 63,
    ensures
        r == spec_piece_value(*piece, index as int, *colour),
        -38 <= r <= 38,
{
    let absolute_piece_value = get_absolute_piece_value(piece, index);
    if piece.colour == *colour {
        absolute_piece_value
    } else {
        -absolute_piece_value
    }
}

/// The contribution of one indexed cell to the evaluation.
pub fn get_square_val(element: (usize, &SquareVal), colour: &Colour) -> (r: i64)
    requires
        element.0 < 63,
    ensures
        r == spec_square_value(*element.1, element.0 as int, *colour),
        -38 <= r <= 38,
{
    match element.1 {
        SquareVal::Piece(piece) => get_piece_val(piece, element.0, colour),
        _ => 0,
    }
}

impl Board {
    /// Evaluates the board from `colour`'s viewpoint, in tenths: the sum
    /// of the signed table values of every occupied square.
    pub fn get_value(&self, colour: &Colour) -> (r: i64)
        ensures
            r == spec_value(self@, *colour),
    {
        let mut acc: i64 = 0;
        let mut index: usize = 0;
        while index < 63
            invariant
                index <= 63,
                acc == spec_value_upto(self@, *colour, index as int),
                -38 * index <= acc <= 38 * index,
            decreases 63 - index,
        {
            let square = self.at(index as u8);
            acc = acc + get_square_val((index, &square), colour);
            index = index + 1;
        }
        acc
    }
}

} // verus!
