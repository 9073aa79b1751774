//! Rules engine for a miniature simultaneous-move chess variant: a 5x5
//! board with pawns and knights where both sides reveal one move per
//! turn and same-square collisions are resolved by combat rules.
//!
//! This file offers the boundary surface used by the surrounding
//! program: starting a game, enumerating and validating moves, resolving
//! a move pair, classifying the position, and picking the automated
//! side's move.

pub mod board;
pub mod coords;
pub mod eval;
pub mod movegen;
pub mod resolve;
pub mod select;
pub mod state;

use vstd::prelude::*;
use crate::board::Board;
use crate::board::Colour;
use crate::board::GameState;
use crate::board::Move;
use crate::board::MovePair;
use crate::board::spec_opponent;
use crate::movegen::spec_is_legal;
use crate::movegen::spec_legal_moves;
use crate::select::spec_best_index;
use crate::state::spec_game_state;

verus! {

/// The fixed starting position.
pub fn new_game() -> (r: Board)
    ensures
        r@ == crate::board::spec_start_board(),
        r.wf(),
{
    Board::new()
}

/// Every legal move for `side`, in board scan order: the list holds a
/// move if and only if `is_legal` accepts it.
pub fn legal_moves(board: &Board, side: Colour) -> (r: Vec<Move>)
    requires
        board.wf(),
    ensures
        r@ == spec_legal_moves(board@, side),
        forall|m: Move| r@.contains(m) <==> spec_is_legal(board@, m, side),
{
    board.get_all_legal_moves(side)
}

/// Single-move validation for `side`.
pub fn is_legal(board: &Board, mov: &Move, side: Colour) -> (r: bool)
    ensures
        r == spec_is_legal(board@, *mov, side),
{
    board.is_legal_move(mov, &side)
}

/// Advances the game by one full turn, resolving one legal move per
/// side simultaneously, and returns the single resulting board.
pub fn resolve(board: &Board, move_pair: &MovePair) -> (r: Board)
    requires
        board.wf(),
        spec_is_legal(board@, move_pair.white, Colour::White),
        spec_is_legal(board@, move_pair.black, Colour::Black),
    ensures
        r@ == crate::resolve::spec_resolve(board@, *move_pair),
        r.wf(),
{
    let mut next = *board;
    next.execute_moves(*move_pair);
    next
}

/// Classifies a board as ongoing, drawn, or won.
pub fn classify(board: &Board) -> (r: GameState)
    requires
        board.wf(),
    ensures
        r == spec_game_state(board@),
{
    board.get_game_state()
}

/// The automated player's decision; yields no move exactly when no
/// legal move exists.
pub fn select_move(board: &Board, side: Colour) -> (r: Option<Move>)
    requires
        board.wf(),
    ensures
        r is Some <==> spec_legal_moves(board@, side).len() > 0,
        (r matches Option::Some(m) ==> spec_is_legal(board@, m, side)),
        ({
            let ms = spec_legal_moves(board@, side);
            let os = spec_legal_moves(board@, spec_opponent(side));
            &&& (ms.len() > 0 && os.len() == 0 ==> r == Option::Some(ms[0]))
            &&& (ms.len() > 0 && os.len() > 0 ==> r == Option::Some(
                ms[spec_best_index(board@, side, ms, os, ms.len() as int)],
            ))
        }),
{
    board.get_move(side)
}

} // verus!
