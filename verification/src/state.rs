//! Game-termination detection.
//!
//! The game is drawn when both sides are simultaneously out of pawns
//! ("footmen"), or when either side has no legal move left. Only if the
//! game is not drawn, a side with no pawns remaining loses: knights
//! alone cannot win. The draw check takes precedence, so both sides
//! running out of pawns at once is a draw, not a win.

use vstd::prelude::*;
use crate::board::Board;
use crate::board::Colour;
use crate::board::GameState;
use crate::board::Kind;
use crate::board::SquareVal;
use crate::movegen::spec_legal_moves;

verus! {

/// Whether one cell holds a pawn of side `c`.
pub open spec fn spec_is_footman(square: SquareVal, c: Colour) -> bool {
    square matches SquareVal::Piece(p) && p.kind is Pawn && p.colour == c
}

/// Runtime counterpart of `spec_is_footman`.
pub fn is_right_colour_footman(square: &SquareVal, colour: &Colour) -> (r: bool)
    ensures
        r == spec_is_footman(*square, *colour),
{
    match square {
        SquareVal::Piece(piece) => piece.kind == Kind::Pawn && piece.colour == *colour,
        _ => false,
    }
}

/// Whether side `c` has no pawn anywhere on the board.
pub open spec fn spec_has_no_footmen(b: Seq<SquareVal>, c: Colour) -> bool {
    forall|i: int| 0 <= i < b.len() ==> !spec_is_footman(b[i], c)
}

/// Whether both sides are simultaneously out of pawns.
pub open spec fn spec_both_sides_no_footmen(b: Seq<SquareVal>) -> bool {
    spec_has_no_footmen(b, Colour::White) && spec_has_no_footmen(b, Colour::Black)
}

/// Whether side `c` has no legal move.
pub open spec fn spec_has_no_moves(b: Seq<SquareVal>, c: Colour) -> bool {
    spec_legal_moves(b, c).len() == 0
}

/// Whether the board is drawn: both sides out of pawns at once, or
/// either side without a legal move.
pub open spec fn spec_is_game_drawn(b: Seq<SquareVal>) -> bool {
    ||| spec_both_sides_no_footmen(b)
    ||| spec_has_no_moves(b, Colour::White)
    ||| spec_has_no_moves(b, Colour::Black)
}

/// The winner, if any, of a board that is not drawn: a side with no
/// pawns remaining loses, so the other side wins.
pub open spec fn spec_winner(b: Seq<SquareVal>) -> Option<Colour> {
    if spec_has_no_footmen(b, Colour::White) {
        Option::Some(Colour::Black)
    } else if spec_has_no_footmen(b, Colour::Black) {
        Option::Some(Colour::White)
    } else {
        Option::None
    }
}

/// The classifier's verdict on a board: the draw check comes first, then
/// the win check, otherwise the game is ongoing.
pub open spec fn spec_game_state(b: Seq<SquareVal>) -> GameState {
    if spec_is_game_drawn(b) {
        GameState::Draw
    } else {
        match spec_winner(b) {
            Option::Some(c) => GameState::Win(c),
            Option::None => GameState::Ongoing,
        }
    }
}

impl Board {
    /// Whether side `colour` has no pawn left on the board.
    pub fn has_no_footmen(&self, colour: Colour) -> (r: bool)
        ensures
            r == spec_has_no_footmen(self@, colour),
    {
        let mut index: u8 = 0;
        while index < 63
            invariant
                index <= 63,
                forall|j: int| 0 <= j < index ==> !spec_is_footman(self@[j], colour),
            decreases 63 - index,
        {
            let square = self.at(index);
            if is_right_colour_footman(&square, &colour) {
                return false;
            }
            index = index + 1;
        }
        true
    }

    /// Whether both sides are out of pawns at once.
    pub fn both_sides_no_footmen(&self) -> (r: bool)
        ensures
            r == spec_both_sides_no_footmen(self@),
    {
        self.has_no_footmen(Colour::White) && self.has_no_footmen(Colour::Black)
    }

    /// Whether side `colour` has no legal move available.
    pub fn has_no_moves(&self, colour: &Colour) -> (r: bool)
        requires
            self.wf(),
        ensures
            r == spec_has_no_moves(self@, *colour),
    {
        self.get_all_legal_moves(*colour).len() == 0
    }

    /// Whether the board is drawn: both sides without pawns, or either
    /// side without a legal move.
    pub fn is_game_drawn(&self) -> (r: bool)
        requires
            self.wf(),
        ensures
            r == spec_is_game_drawn(self@),
    {
        self.both_sides_no_footmen() || self.has_no_moves(&Colour::White) || self.has_no_moves(
            &Colour::Black,
        )
    }

    /// The winner of a board that is not drawn, if any: running out of
    /// pawns loses the game.
    pub fn try_get_winner(&self) -> (r: Option<Colour>)
        ensures
            r == spec_winner(self@),
    {
        if self.has_no_footmen(Colour::White) {
            Option::Some(Colour::Black)
        } else if self.has_no_footmen(Colour::Black) {
            Option::Some(Colour::White)
        } else {
            Option::None
        }
    }

    /// Classifies the board: drawn, won, or ongoing, with the draw check
    /// taking precedence over the win check.
    pub fn get_game_state(&self) -> (r: GameState)
        requires
            self.wf(),
        ensures
            r == spec_game_state(self@),
    {
        if self.is_game_drawn() {
            GameState::Draw
        } else {
            match self.try_get_winner() {
                Option::Some(colour) => GameState::Win(colour),
                Option::None => GameState::Ongoing,
            }
        }
    }
}

/// Law: whenever both sides are simultaneously out of pawns, the board
/// classifies as a draw, even if one side still has legal knight moves.
pub proof fn lemma_draw_when_both_sides_out_of_footmen(b: Seq<SquareVal>)
    requires
        spec_both_sides_no_footmen(b),
    ensures
        spec_game_state(b) == GameState::Draw,
{
}

} // verus!
