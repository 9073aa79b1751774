//! Board representation for a 5x5 simultaneous-move chess variant.
//!
//! The playing area is a 5x5 grid embedded in a flat array of 63 cells
//! (7 columns by 9 rows). The outer ring of cells is permanently invalid,
//! so adding a knight or pawn offset to an on-board square always lands
//! either on another on-board square or on an invalid sentinel cell,
//! never outside the array.

use vstd::prelude::*;

verus! {

/// The two competing players.
#[derive(Copy, Clone, PartialEq, Eq, Structural, Debug)]
pub enum Colour {
    White,
    Black,
}

/// The two piece types of this variant.
#[derive(Copy, Clone, PartialEq, Eq, Structural, Debug)]
pub enum Kind {
    Pawn,
    Knight,
}

/// A piece: a side and a kind. Immutable once created.
#[derive(Copy, Clone, PartialEq, Eq, Structural, Debug)]
pub struct Piece {
    pub colour: Colour,
    pub kind: Kind,
}

/// The state of one cell of the backing array.
#[derive(Copy, Clone, PartialEq, Eq, Structural, Debug)]
pub enum SquareVal {
    /// Off-board sentinel; never occupied, never a legal source or destination.
    Invalid,
    /// On-board and unoccupied.
    Empty,
    /// On-board and holding the given piece.
    Piece(Piece),
}

/// An ordered pair of flat square indices. Validity is not an invariant of
/// the type; it is checked by the move generator and required by the resolver.
#[derive(Copy, Clone, PartialEq, Eq, Structural, Debug)]
pub struct Move {
    pub from_square: u8,
    pub to_square: u8,
}

/// One move per side, proposed independently and applied together.
#[derive(Copy, Clone, PartialEq, Eq, Structural, Debug)]
pub struct MovePair {
    pub white: Move,
    pub black: Move,
}

/// How a pawn candidate square may be used: diagonal squares are
/// capture-only, the straight-ahead square is advance-only.
#[derive(Copy, Clone, PartialEq, Eq, Structural, Debug)]
pub enum MoveType {
    Attack,
    MoveOnly,
}

/// The outcome reported by the game-state classifier.
#[derive(Copy, Clone, PartialEq, Eq, Structural, Debug)]
pub enum GameState {
    Ongoing,
    Draw,
    Win(Colour),
}

/// The side opposing `c`.
pub open spec fn spec_opponent(c: Colour) -> Colour {
    match c {
        Colour::White => Colour::Black,
        Colour::Black => Colour::White,
    }
}

/// Total function giving the opposing side.
#[verifier::when_used_as_spec(spec_opponent)]
pub fn opponent(colour: Colour) -> (r: Colour)
    ensures
        r == spec_opponent(colour),
{
    match colour {
        Colour::White => Colour::Black,
        Colour::Black => Colour::White,
    }
}

/// True of the 25 playable indices: rows 2 through 6 of the 7-wide grid,
/// columns 1 through 5.
pub open spec fn sq_valid(i: int) -> bool {
    &&& 0 <= i < 63
    &&& 2 <= i / 7 <= 6
    &&& 1 <= i % 7 <= 5
}

/// Runtime test matching `sq_valid`.
pub fn square_on_board(index: usize) -> (r: bool)
    ensures
        r == sq_valid(index as int),
{
    index < 63 && 2 <= index / 7 && index / 7 <= 6 && 1 <= index % 7 && index % 7 <= 5
}

/// Well-formedness of a board image: 63 cells, and a cell is the invalid
/// sentinel exactly when it lies on the border ring. The valid/invalid
/// partition of the cells never changes over the life of a game.
pub open spec fn board_wf(b: Seq<SquareVal>) -> bool {
    &&& b.len() == 63
    &&& forall|i: int| 0 <= i < 63 ==> ((b[i] is Invalid) <==> !sq_valid(i))
}

/// The full array of 63 cell states. A copyable value type: hypothetical
/// boards used for evaluation are cheap disposable copies.
#[derive(Copy, Clone, PartialEq, Eq, Debug)]
pub struct Board {
    pub board: [SquareVal; 63],
}

impl View for Board {
    type V = Seq<SquareVal>;

    open spec fn view(&self) -> Seq<SquareVal> {
        self.board@
    }
}

/// The kind of the piece standing on cell `i`, if any.
pub open spec fn spec_kind_at(b: Seq<SquareVal>, i: int) -> Option<Kind> {
    match b[i] {
        SquareVal::Piece(p) => Option::Some(p.kind),
        _ => Option::None,
    }
}

/// The contents of cell `i` in the fixed starting position: White on the
/// low-index home ranks advancing toward higher indices, Black mirrored.
/// Each side has two knights on the flanks of its back rank and four pawns.
pub open spec fn spec_start_square(i: int) -> SquareVal {
    if !sq_valid(i) {
        SquareVal::Invalid
    } else if i == 15 || i == 19 {
        SquareVal::Piece(Piece { colour: Colour::White, kind: Kind::Knight })
    } else if i == 16 || i == 18 || i == 22 || i == 26 {
        SquareVal::Piece(Piece { colour: Colour::White, kind: Kind::Pawn })
    } else if i == 43 || i == 47 {
        SquareVal::Piece(Piece { colour: Colour::Black, kind: Kind::Knight })
    } else if i == 36 || i == 40 || i == 44 || i == 46 {
        SquareVal::Piece(Piece { colour: Colour::Black, kind: Kind::Pawn })
    } else {
        SquareVal::Empty
    }
}

/// The fixed starting position as a sequence.
pub open spec fn spec_start_board() -> Seq<SquareVal> {
    Seq::new(63, |i: int| spec_start_square(i))
}

impl Board {
    /// Internal invariant: see `board_wf`.
    pub open spec fn wf(self) -> bool {
        board_wf(self@)
    }

    /// A board whose playable squares are all empty.
    pub fn empty() -> (r: Board)
        ensures
            r.wf(),
            forall|i: int| sq_valid(i) ==> r@[i] is Empty,
    {
        let mut cells: [SquareVal; 63] = [SquareVal::Invalid; 63];
        let mut index: usize = 0;
        while index < 63
            invariant
                index <= 63,
                cells@.len() == 63,
                forall|j: int|
                    0 <= j < index ==> (cells@[j] == (if sq_valid(j) {
                        SquareVal::Empty
                    } else {
                        SquareVal::Invalid
                    })),
                forall|j: int| index <= j < 63 ==> cells@[j] is Invalid,
            decreases 63 - index,
        {
            if square_on_board(index) {
                cells[index] = SquareVal::Empty;
            }
            index = index + 1;
        }
        Board { board: cells }
    }

    /// The fixed starting position.
    pub fn new() -> (r: Board)
        ensures
            r@ == spec_start_board(),
            r.wf(),
    {
        let mut b = Board::empty();
        b.set_square(15, SquareVal::Piece(Piece { colour: Colour::White, kind: Kind::Knight }));
        b.set_square(16, SquareVal::Piece(Piece { colour: Colour::White, kind: Kind::Pawn }));
        b.set_square(18, SquareVal::Piece(Piece { colour: Colour::White, kind: Kind::Pawn }));
        b.set_square(19, SquareVal::Piece(Piece { colour: Colour::White, kind: Kind::Knight }));
        b.set_square(22, SquareVal::Piece(Piece { colour: Colour::White, kind: Kind::Pawn }));
        b.set_square(26, SquareVal::Piece(Piece { colour: Colour::White, kind: Kind::Pawn }));
        b.set_square(36, SquareVal::Piece(Piece { colour: Colour::Black, kind: Kind::Pawn }));
        b.set_square(40, SquareVal::Piece(Piece { colour: Colour::Black, kind: Kind::Pawn }));
        b.set_square(43, SquareVal::Piece(Piece { colour: Colour::Black, kind: Kind::Knight }));
        b.set_square(44, SquareVal::Piece(Piece { colour: Colour::Black, kind: Kind::Pawn }));
        b.set_square(46, SquareVal::Piece(Piece { colour: Colour::Black, kind: Kind::Pawn }));
        b.set_square(47, SquareVal::Piece(Piece { colour: Colour::Black, kind: Kind::Knight }));
        proof {
            assert(b@ =~= spec_start_board());
        }
        b
    }

    /// Pure lookup of one cell.
    pub fn at(&self, square: u8) -> (r: SquareVal)
        requires
            square < 63,
        ensures
            r == self@[square as int],
    {
        self.board[square as usize]
    }

    /// The single mutation entry point: writes one playable cell. The border
    /// ring cannot be written, so well-formedness is preserved.
    pub fn set_square(&mut self, square: u8, val: SquareVal)
        requires
            old(self).wf(),
            sq_valid(square as int),
            !(val is Invalid),
        ensures
            final(self)@ == old(self)@.update(square as int, val),
            final(self).wf(),
    {
        self.board[square as usize] = val;
    }
}

/// Maps a playing-area coordinate (row and column within the 5x5 area)
/// to a flat index of the backing array.
pub fn grid_to_one_d(row: usize, col: usize) -> (r: usize)
    requires
        row < 5,
        col < 5,
    ensures
        r == 15 + 7 * row + col,
        sq_valid(r as int),
{
    15 + (7 * row) + (col)
}

} // verus!
