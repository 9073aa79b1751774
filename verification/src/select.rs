//! Move selection for the automated side.
//!
//! The full rule is a one-ply worst-case analysis: for every own legal
//! move, every opposing legal move is answered, each resulting board is
//! evaluated from the opponent's perspective, and the own move whose
//! worst (largest) opponent outcome is smallest is chosen, the earliest
//! such move in scan order on ties. A simplified mode picks uniformly at
//! random among the legal moves instead.

use vstd::prelude::*;
use rand::Rng;
use crate::board::Board;
use crate::board::Colour;
use crate::board::Move;
use crate::board::MovePair;
use crate::board::SquareVal;
use crate::board::opponent;
use crate::board::spec_opponent;
use crate::eval::spec_value;
use crate::movegen::spec_is_legal;
use crate::movegen::spec_legal_moves;
use crate::resolve::spec_resolve;

verus! {

/// The move pair formed by our move and the opponent's reply, with each
/// move assigned to the side that owns it.
pub open spec fn spec_move_pair(our_colour: Colour, our_move: Move, opp_move: Move) -> MovePair {
    match our_colour {
        Colour::White => MovePair { white: our_move, black: opp_move },
        Colour::Black => MovePair { white: opp_move, black: our_move },
    }
}

/// The opponent's evaluation of the board reached when our move meets
/// the given reply.
pub open spec fn spec_outcome(
    b: Seq<SquareVal>,
    our_colour: Colour,
    our_move: Move,
    opp_move: Move,
) -> int {
    spec_value(
        spec_resolve(b, spec_move_pair(our_colour, our_move, opp_move)),
        spec_opponent(our_colour),
    )
}

/// The worst (largest) opponent outcome of our move over the first `k`
/// replies in `os`.
pub open spec fn spec_worst_value(
    b: Seq<SquareVal>,
    our_colour: Colour,
    our_move: Move,
    os: Seq<Move>,
    k: int,
) -> int
    decreases k,
{
    if k <= 1 {
        spec_outcome(b, our_colour, our_move, os[0])
    } else {
        let prev = spec_worst_value(b, our_colour, our_move, os, k - 1);
        let cur = spec_outcome(b, our_colour, our_move, os[k - 1]);
        if cur > prev {
            cur
        } else {
            prev
        }
    }
}

/// The index, among the first `k` moves of `ms`, of the earliest move
/// whose worst-case outcome over all replies in `os` is smallest.
pub open spec fn spec_best_index(
    b: Seq<SquareVal>,
    our_colour: Colour,
    ms: Seq<Move>,
    os: Seq<Move>,
    k: int,
) -> int
    decreases k,
{
    if k <= 1 {
        0
    } else {
        let best_prev = spec_best_index(b, our_colour, ms, os, k - 1);
        if spec_worst_value(b, our_colour, ms[k - 1], os, os.len() as int) < spec_worst_value(
            b,
            our_colour,
            ms[best_prev],
            os,
            os.len() as int,
        ) {
            k - 1
        } else {
            best_prev
        }
    }
}

/// Law: the selection rule is optimal against a worst-case reply. The
/// chosen index lies among the first `k` moves, and no other of those
/// moves has a strictly smaller worst-case outcome.
pub proof fn lemma_best_index_optimal(
    b: Seq<SquareVal>,
    our_colour: Colour,
    ms: Seq<Move>,
    os: Seq<Move>,
    k: int,
)
    requires
        1 <= k,
    ensures
        0 <= spec_best_index(b, our_colour, ms, os, k) < k,
        forall|j: int|
            0 <= j < k ==> spec_worst_value(
                b,
                our_colour,
                ms[spec_best_index(b, our_colour, ms, os, k)],
                os,
                os.len() as int,
            ) <= #[trigger] spec_worst_value(b, our_colour, ms[j], os, os.len() as int),
    decreases k,
{
    if k > 1 {
        lemma_best_index_optimal(b, our_colour, ms, os, k - 1);
    }
}

/// Relies on rand::Rng::gen_range over the range 0..n of a thread-local
/// generator: it returns a value of that range, and panics only when the
/// range is empty, which n > 0 rules out.
#[verifier::external_body]
fn random_index_below(n: usize) -> (r: usize)
    requires
        n > 0,
    ensures
        r < n,
{
    rand::thread_rng().gen_range(0..n)
}

impl Board {
    /// The boards reached when `our_move` meets each opposing reply in
    /// turn, in the replies' order.
    pub fn get_boards_possible_for_move(
        &self,
        our_move: &Move,
        our_colour: &Colour,
        all_opponent_moves: &Vec<Move>,
    ) -> (r: Vec<Board>)
        requires
            self.wf(),
            spec_is_legal(self@, *our_move, *our_colour),
            forall|j: int|
                0 <= j < all_opponent_moves@.len() ==> spec_is_legal(
                    self@,
                    all_opponent_moves@[j],
                    spec_opponent(*our_colour),
                ),
        ensures
            r@.len() == all_opponent_moves@.len(),
            forall|j: int|
                0 <= j < r@.len() ==> r@[j]@ == spec_resolve(
                    self@,
                    spec_move_pair(*our_colour, *our_move, all_opponent_moves@[j]),
                ) && r@[j].wf(),
    {
        let mut boards: Vec<Board> = Vec::new();
        let mut j: usize = 0;
        while j < all_opponent_moves.len()
            invariant
                j <= all_opponent_moves@.len(),
                self.wf(),
                spec_is_legal(self@, *our_move, *our_colour),
                forall|t: int|
                    0 <= t < all_opponent_moves@.len() ==> spec_is_legal(
                        self@,
                        all_opponent_moves@[t],
                        spec_opponent(*our_colour),
                    ),
                boards@.len() == j,
                forall|t: int|
                    0 <= t < j ==> boards@[t]@ == spec_resolve(
                        self@,
                        spec_move_pair(*our_colour, *our_move, all_opponent_moves@[t]),
                    ) && boards@[t].wf(),
            decreases all_opponent_moves@.len() - j,
        {
            let opp_move = all_opponent_moves[j];
            let mov_pair = match our_colour {
                Colour::White => MovePair { white: *our_move, black: opp_move },
                Colour::Black => MovePair { white: opp_move, black: *our_move },
            };
            let mut new_board = *self;
            new_board.execute_moves(mov_pair);
            boards.push(new_board);
            j = j + 1;
        }
        boards
    }

    /// The worst (largest) opponent evaluation `our_move` can run into
    /// over all the opponent's replies.
    fn worst_case_value(
        &self,
        our_move: &Move,
        our_colour: &Colour,
        all_opponent_moves: &Vec<Move>,
    ) -> (r: i64)
        requires
            self.wf(),
            spec_is_legal(self@, *our_move, *our_colour),
            all_opponent_moves@.len() >= 1,
            forall|j: int|
                0 <= j < all_opponent_moves@.len() ==> spec_is_legal(
                    self@,
                    all_opponent_moves@[j],
                    spec_opponent(*our_colour),
                ),
        ensures
            r == spec_worst_value(
                self@,
                *our_colour,
                *our_move,
                all_opponent_moves@,
                all_opponent_moves@.len() as int,
            ),
    {
        let boards = self.get_boards_possible_for_move(our_move, our_colour, all_opponent_moves);
        let opp = opponent(*our_colour);
        let mut worst: i64 = boards[0].get_value(&opp);
        let mut j: usize = 1;
        while j < boards.len()
            invariant
                1 <= j <= boards@.len(),
                boards@.len() == all_opponent_moves@.len(),
                forall|t: int|
                    0 <= t < boards@.len() ==> boards@[t]@ == spec_resolve(
                        self@,
                        spec_move_pair(*our_colour, *our_move, all_opponent_moves@[t]),
                    ),
                opp == spec_opponent(*our_colour),
                worst == spec_worst_value(
                    self@,
                    *our_colour,
                    *our_move,
                    all_opponent_moves@,
                    j as int,
                ),
            decreases boards@.len() - j,
        {
            let value = boards[j].get_value(&opp);
            if value > worst {
                worst = value;
            }
            j = j + 1;
        }
        worst
    }

    /// The automated side's decision: the legal move whose worst-case
    /// opponent outcome is smallest (the earliest such move on ties).
    /// Returns no move exactly when the side has no legal move; when
    /// only the opponent is out of moves, the first own legal move is
    /// returned.
    pub fn get_move(&self, colour: Colour) -> (r: Option<Move>)
        requires
            self.wf(),
        ensures
            r is Some <==> spec_legal_moves(self@, colour).len() > 0,
            (r matches Option::Some(m) ==> spec_is_legal(self@, m, colour)),
            ({
                let ms = spec_legal_moves(self@, colour);
                let os = spec_legal_moves(self@, spec_opponent(colour));
                &&& (ms.len() > 0 && os.len() == 0 ==> r == Option::Some(ms[0]))
                &&& (ms.len() > 0 && os.len() > 0 ==> r == Option::Some(
                    ms[spec_best_index(self@, colour, ms, os, ms.len() as int)],
                ))
            }),
    {
        let all_our_moves = self.get_all_legal_moves(colour);
        let all_opponent_moves = self.get_all_legal_moves(opponent(colour));
        if all_our_moves.len() == 0 {
            return Option::None;
        }
        if all_opponent_moves.len() == 0 {
            proof {
                assert(all_our_moves@.contains(all_our_moves@[0]));
            }
            return Option::Some(all_our_moves[0]);
        }
        proof {
            assert forall|t: int| 0 <= t < all_opponent_moves@.len() implies spec_is_legal(
                self@,
                all_opponent_moves@[t],
                spec_opponent(colour),
            ) by {
                assert(all_opponent_moves@.contains(all_opponent_moves@[t]));
            }
            assert(all_our_moves@.contains(all_our_moves@[0]));
        }
        let mut best_index: usize = 0;
        let mut best_value: i64 = self.worst_case_value(
            &all_our_moves[0],
            &colour,
            &all_opponent_moves,
        );
        let mut i: usize = 1;
        while i < all_our_moves.len()
            invariant
                1 <= i <= all_our_moves@.len(),
                0 <= best_index < i,
                self.wf(),
                all_our_moves@ == spec_legal_moves(self@, colour),
                all_opponent_moves@ == spec_legal_moves(self@, spec_opponent(colour)),
                all_opponent_moves@.len() >= 1,
                forall|m: Move| all_our_moves@.contains(m) <==> spec_is_legal(self@, m, colour),
                forall|t: int|
                    0 <= t < all_opponent_moves@.len() ==> spec_is_legal(
                        self@,
                        all_opponent_moves@[t],
                        spec_opponent(colour),
                    ),
                best_index as int == spec_best_index(
                    self@,
                    colour,
                    all_our_moves@,
                    all_opponent_moves@,
                    i as int,
                ),
                best_value == spec_worst_value(
                    self@,
                    colour,
                    all_our_moves@[best_index as int],
                    all_opponent_moves@,
                    all_opponent_moves@.len() as int,
                ),
            decreases all_our_moves@.len() - i,
        {
            proof {
                assert(all_our_moves@.contains(all_our_moves@[i as int]));
            }
            let value = self.worst_case_value(&all_our_moves[i], &colour, &all_opponent_moves);
            if value < best_value {
                best_index = i;
                best_value = value;
            }
            i = i + 1;
        }
        proof {
            assert(all_our_moves@.contains(all_our_moves@[best_index as int]));
        }
        Option::Some(all_our_moves[best_index])
    }

    /// The simplified selection mode: a uniformly random choice among
    /// the side's legal moves, with no evaluation. Returns no move
    /// exactly when the side has no legal move.
    pub fn get_random_move(&self, colour: Colour) -> (r: Option<Move>)
        requires
            self.wf(),
        ensures
            r is Some <==> spec_legal_moves(self@, colour).len() > 0,
            (r matches Option::Some(m) ==> spec_is_legal(self@, m, colour)),
    {
        let moves = self.get_all_legal_moves(colour);
        if moves.len() == 0 {
            Option::None
        } else {
            let k = random_index_below(moves.len());
            proof {
                assert(moves@.contains(moves@[k as int]));
            }
            Option::Some(moves[k])
        }
    }
}

} // verus!
