//! Legal-move generation for pawns and knights.
//!
//! A knight move adds one of the eight leap offsets (plus or minus 5, 9,
//! 13, 15 on the 7-wide grid) and is legal when the destination is empty
//! or holds an opposing piece. A pawn has a side-dependent forward
//! direction (White advances toward higher indices, Black toward lower):
//! the straight-ahead square is advance-only and must be empty, the two
//! forward diagonals are capture-only and must hold an opposing piece.

use vstd::prelude::*;
use crate::board::Board;
use crate::board::Colour;
use crate::board::Kind;
use crate::board::Move;
use crate::board::MoveType;
use crate::board::Piece;
use crate::board::SquareVal;
use crate::board::board_wf;
use crate::board::spec_kind_at;
use crate::board::spec_opponent;
use crate::board::sq_valid;

verus! {

/// The signed offset a move covers on the flat grid.
pub open spec fn spec_delta(m: Move) -> int {
    m.to_square as int - m.from_square as int
}

/// The eight knight-leap offsets of the 7-wide grid.
pub open spec fn spec_knight_delta(d: int) -> bool {
    d == 13 || d == 15 || d == -13 || d == -15 || d == 5 || d == 9 || d == -5 || d == -9
}

/// A pawn's straight-ahead offset: White advances toward higher indices,
/// Black toward lower ones.
pub open spec fn spec_pawn_dir(c: Colour) -> int {
    match c {
        Colour::White => 7,
        Colour::Black => -7,
    }
}

/// The three pawn offsets for a side: straight ahead and the two
/// forward diagonals.
pub open spec fn spec_pawn_delta(c: Colour, d: int) -> bool {
    d == spec_pawn_dir(c) || d == spec_pawn_dir(c) - 1 || d == spec_pawn_dir(c) + 1
}

/// Whether a knight of side `c` may land on cell `to`: on-board, and
/// empty or holding an opposing piece.
pub open spec fn spec_dest_ok_knight(b: Seq<SquareVal>, to: int, c: Colour) -> bool {
    match b[to] {
        SquareVal::Invalid => false,
        SquareVal::Empty => true,
        SquareVal::Piece(p) => p.colour != c,
    }
}

/// Whether a pawn of side `c` may land on cell `to` when the candidate
/// square is of the given use: the advance square must be empty, a
/// capture square must hold an opposing piece.
pub open spec fn spec_dest_ok_pawn(b: Seq<SquareVal>, to: int, c: Colour, mt: MoveType) -> bool {
    match b[to] {
        SquareVal::Invalid => false,
        SquareVal::Empty => mt is MoveOnly,
        SquareVal::Piece(p) => p.colour != c && mt is Attack,
    }
}

/// What `is_legal_pawn_move` decides: the origin holds a pawn of side `c`
/// and the destination accepts the given move type. The offset pattern is
/// checked separately by `is_invalid_movement`.
pub open spec fn spec_legal_pawn_move(b: Seq<SquareVal>, m: Move, mt: MoveType, c: Colour) -> bool {
    &&& m.from_square < 63
    &&& m.to_square < 63
    &&& (b[m.from_square as int] matches SquareVal::Piece(p) && p.colour == c && p.kind is Pawn)
    &&& spec_dest_ok_pawn(b, m.to_square as int, c, mt)
}

/// What `is_legal_knight_move` decides: the origin holds a knight of side
/// `c` and the destination is empty or holds an opposing piece.
pub open spec fn spec_legal_knight_move(b: Seq<SquareVal>, m: Move, c: Colour) -> bool {
    &&& m.from_square < 63
    &&& m.to_square < 63
    &&& (b[m.from_square as int] matches SquareVal::Piece(p) && p.colour == c && p.kind is Knight)
    &&& spec_dest_ok_knight(b, m.to_square as int, c)
}

/// Full single-move legality for side `c`: indices in bounds, the origin
/// holds a piece of side `c`, the offset fits that piece's pattern, and
/// the destination accepts the move.
pub open spec fn spec_is_legal(b: Seq<SquareVal>, m: Move, c: Colour) -> bool {
    &&& m.from_square < 63
    &&& m.to_square < 63
    &&& match b[m.from_square as int] {
        SquareVal::Piece(p) => {
            &&& p.colour == c
            &&& match p.kind {
                Kind::Knight => {
                    &&& spec_knight_delta(spec_delta(m))
                    &&& spec_dest_ok_knight(b, m.to_square as int, c)
                },
                Kind::Pawn => {
                    &&& spec_pawn_delta(c, spec_delta(m))
                    &&& spec_dest_ok_pawn(
                        b,
                        m.to_square as int,
                        c,
                        if spec_delta(m) == spec_pawn_dir(c) {
                            MoveType::MoveOnly
                        } else {
                            MoveType::Attack
                        },
                    )
                },
            }
        },
        _ => false,
    }
}

/// The pawn candidate move numbered `which` from `index`: 0 is the
/// straight advance, 1 and 2 the two forward diagonals.
pub open spec fn spec_pawn_candidate(c: Colour, index: u8, which: int) -> Move {
    let d = if which == 0 {
        spec_pawn_dir(c)
    } else if which == 1 {
        spec_pawn_dir(c) - 1
    } else {
        spec_pawn_dir(c) + 1
    };
    Move { from_square: index, to_square: (index + d) as u8 }
}

/// The pawn moves generated from `index` for side `c`, in the order
/// straight ahead, forward-left, forward-right.
pub open spec fn spec_pawn_moves(b: Seq<SquareVal>, c: Colour, index: u8) -> Seq<Move> {
    let m0 = spec_pawn_candidate(c, index, 0);
    let m1 = spec_pawn_candidate(c, index, 1);
    let m2 = spec_pawn_candidate(c, index, 2);
    (if spec_legal_pawn_move(b, m0, MoveType::MoveOnly, c) {
        seq![m0]
    } else {
        Seq::<Move>::empty()
    }) + (if spec_legal_pawn_move(b, m1, MoveType::Attack, c) {
        seq![m1]
    } else {
        Seq::<Move>::empty()
    }) + (if spec_legal_pawn_move(b, m2, MoveType::Attack, c) {
        seq![m2]
    } else {
        Seq::<Move>::empty()
    })
}

/// The eight knight offsets in generation order.
pub open spec fn knight_offsets() -> Seq<i16> {
    seq![13i16, 15i16, -13i16, -15i16, 5i16, 9i16, -5i16, -9i16]
}

/// The knight candidate move numbered `j` from `index`.
pub open spec fn spec_knight_candidate(index: u8, j: int) -> Move {
    Move { from_square: index, to_square: (index + knight_offsets()[j]) as u8 }
}

/// The knight moves generated from the first `k` offsets.
pub open spec fn spec_knight_moves_upto(b: Seq<SquareVal>, c: Colour, index: u8, k: int) -> Seq<
    Move,
>
    decreases k,
{
    if k <= 0 {
        Seq::<Move>::empty()
    } else {
        let prev = spec_knight_moves_upto(b, c, index, k - 1);
        let m = spec_knight_candidate(index, k - 1);
        if spec_legal_knight_move(b, m, c) {
            prev + seq![m]
        } else {
            prev
        }
    }
}

/// The knight moves generated from `index` for side `c`.
pub open spec fn spec_knight_moves(b: Seq<SquareVal>, c: Colour, index: u8) -> Seq<Move> {
    spec_knight_moves_upto(b, c, index, 8)
}

/// The moves generated for piece `p` standing on `index`.
pub open spec fn spec_piece_moves(b: Seq<SquareVal>, p: Piece, index: u8) -> Seq<Move> {
    match p.kind {
        Kind::Pawn => spec_pawn_moves(b, p.colour, index),
        Kind::Knight => spec_knight_moves(b, p.colour, index),
    }
}

/// The moves contributed by cell `i` to side `c`'s move list.
pub open spec fn spec_square_moves(b: Seq<SquareVal>, c: Colour, i: int) -> Seq<Move> {
    match b[i] {
        SquareVal::Piece(p) => if p.colour == c {
            spec_piece_moves(b, p, i as u8)
        } else {
            Seq::<Move>::empty()
        },
        _ => Seq::<Move>::empty(),
    }
}

/// Side `c`'s moves gathered from the first `n` cells in scan order.
pub open spec fn spec_all_moves_upto(b: Seq<SquareVal>, c: Colour, n: int) -> Seq<Move>
    decreases n,
{
    if n <= 0 {
        Seq::<Move>::empty()
    } else {
        spec_all_moves_upto(b, c, n - 1) + spec_square_moves(b, c, n - 1)
    }
}

/// Every legal move of side `c`, in board scan order.
pub open spec fn spec_legal_moves(b: Seq<SquareVal>, c: Colour) -> Seq<Move> {
    spec_all_moves_upto(b, c, 63)
}

/// Classifies a candidate pawn move by its offset: a straight step of one
/// rank (either direction) is advance-only, everything else is treated as
/// a capture.
pub open spec fn spec_move_type(m: Move) -> MoveType {
    if spec_delta(m) == 7 || spec_delta(m) == -7 {
        MoveType::MoveOnly
    } else {
        MoveType::Attack
    }
}

/// Runtime counterpart of `spec_move_type`.
pub fn get_move_type(mov: &Move) -> (r: MoveType)
    ensures
        r == spec_move_type(*mov),
{
    let d: i16 = mov.to_square as i16 - mov.from_square as i16;
    if d == 7 || d == -7 {
        MoveType::MoveOnly
    } else {
        MoveType::Attack
    }
}

/// True when the offset is not a knight leap.
pub fn is_invalid_knight_movement(mov: &Move) -> (r: bool)
    ensures
        r == !spec_knight_delta(spec_delta(*mov)),
{
    let d: i16 = mov.to_square as i16 - mov.from_square as i16;
    !(d == 13 || d == 15 || d == -13 || d == -15 || d == 5 || d == 9 || d == -5 || d == -9)
}

/// True when the offset is not one of the side's three pawn offsets.
pub fn is_invalid_pawn_movement(mov: &Move, colour: &Colour) -> (r: bool)
    ensures
        r == !spec_pawn_delta(*colour, spec_delta(*mov)),
{
    let d: i16 = mov.to_square as i16 - mov.from_square as i16;
    match colour {
        Colour::White => !(d == 6 || d == 7 || d == 8),
        Colour::Black => !(d == -6 || d == -7 || d == -8),
    }
}

/// True when the offset does not fit the piece's movement pattern.
pub fn is_invalid_movement(mov: &Move, piece: &Piece) -> (r: bool)
    ensures
        r == !(match piece.kind {
            Kind::Knight => spec_knight_delta(spec_delta(*mov)),
            Kind::Pawn => spec_pawn_delta(piece.colour, spec_delta(*mov)),
        }),
{
    match piece.kind {
        Kind::Knight => is_invalid_knight_movement(mov),
        Kind::Pawn => is_invalid_pawn_movement(mov, &piece.colour),
    }
}

impl Board {
    /// Decides `spec_legal_pawn_move`; offsets are not examined here.
    pub fn is_legal_pawn_move(&self, mov: &Move, mov_type: MoveType, piece_colour: &Colour) -> (r:
        bool)
        ensures
            r == spec_legal_pawn_move(self@, *mov, mov_type, *piece_colour),
    {
        if mov.from_square >= 63 || mov.to_square >= 63 {
            return false;
        }
        match self.at(mov.from_square) {
            SquareVal::Piece(p) => {
                if !(p.colour == *piece_colour && p.kind == Kind::Pawn) {
                    return false;
                }
            },
            _ => { return false; },
        }
        match self.at(mov.to_square) {
            SquareVal::Invalid => false,
            SquareVal::Empty => mov_type == MoveType::MoveOnly,
            SquareVal::Piece(p) => p.colour != *piece_colour && mov_type == MoveType::Attack,
        }
    }

    /// Decides `spec_legal_knight_move`; offsets are not examined here.
    pub fn is_legal_knight_move(&self, mov: &Move, piece_colour: &Colour) -> (r: bool)
        ensures
            r == spec_legal_knight_move(self@, *mov, *piece_colour),
    {
        if mov.from_square >= 63 || mov.to_square >= 63 {
            return false;
        }
        match self.at(mov.from_square) {
            SquareVal::Piece(p) => {
                if !(p.colour == *piece_colour && p.kind == Kind::Knight) {
                    return false;
                }
            },
            _ => { return false; },
        }
        match self.at(mov.to_square) {
            SquareVal::Invalid => false,
            SquareVal::Empty => true,
            SquareVal::Piece(p) => p.colour != *piece_colour,
        }
    }

    /// The pawn moves generated from `index`, in the order straight
    /// ahead, forward-left, forward-right.
    pub fn get_pawn_moves(&self, piece: &Piece, index: u8) -> (r: Vec<Move>)
        requires
            sq_valid(index as int),
        ensures
            r@ == spec_pawn_moves(self@, piece.colour, index),
    {
        let mut legal_moves: Vec<Move> = Vec::new();
        let dir: i16 = match piece.colour {
            Colour::White => 7,
            Colour::Black => -7,
        };
        let straight: u8 = (index as i16 + dir) as u8;
        let diag_low: u8 = (index as i16 + dir - 1) as u8;
        let diag_high: u8 = (index as i16 + dir + 1) as u8;
        if self.is_legal_pawn_move(
            &(Move { from_square: index, to_square: straight }),
            MoveType::MoveOnly,
            &piece.colour,
        ) {
            legal_moves.push(Move { from_square: index, to_square: straight });
        }
        if self.is_legal_pawn_move(
            &(Move { from_square: index, to_square: diag_low }),
            MoveType::Attack,
            &piece.colour,
        ) {
            legal_moves.push(Move { from_square: index, to_square: diag_low });
        }
        if self.is_legal_pawn_move(
            &(Move { from_square: index, to_square: diag_high }),
            MoveType::Attack,
            &piece.colour,
        ) {
            legal_moves.push(Move { from_square: index, to_square: diag_high });
        }
        proof {
            assert(legal_moves@ =~= spec_pawn_moves(self@, piece.colour, index));
        }
        legal_moves
    }

    /// The knight moves generated from `index`: the eight leap offsets,
    /// filtered by destination legality.
    pub fn get_knight_moves(&self, piece: &Piece, index: u8) -> (r: Vec<Move>)
        requires
            sq_valid(index as int),
        ensures
            r@ == spec_knight_moves(self@, piece.colour, index),
    {
        let offsets: [i16; 8] = [13, 15, -13, -15, 5, 9, -5, -9];
        let mut legal_moves: Vec<Move> = Vec::new();
        let mut k: usize = 0;
        while k < 8
            invariant
                k <= 8,
                sq_valid(index as int),
                offsets@ =~= knight_offsets(),
                legal_moves@ == spec_knight_moves_upto(self@, piece.colour, index, k as int),
            decreases 8 - k,
        {
            let to: u8 = (index as i16 + offsets[k]) as u8;
            let mov = Move { from_square: index, to_square: to };
            if self.is_legal_knight_move(&mov, &piece.colour) {
                legal_moves.push(mov);
            }
            proof {
                assert(legal_moves@ =~= spec_knight_moves_upto(
                    self@,
                    piece.colour,
                    index,
                    k as int + 1,
                ));
            }
            k = k + 1;
        }
        legal_moves
    }

    /// The moves generated for the piece standing on `index`, by its kind.
    pub fn get_piece_moves(&self, piece: &Piece, index: u8) -> (r: Vec<Move>)
        requires
            sq_valid(index as int),
        ensures
            r@ == spec_piece_moves(self@, *piece, index),
    {
        match piece.kind {
            Kind::Pawn => self.get_pawn_moves(piece, index),
            Kind::Knight => self.get_knight_moves(piece, index),
        }
    }

    /// Every legal move for one side, gathered in board scan order.
    /// The returned sequence holds a move if and only if that move is
    /// legal for the side.
    pub fn get_all_legal_moves(&self, colour: Colour) -> (r: Vec<Move>)
        requires
            self.wf(),
        ensures
            r@ == spec_legal_moves(self@, colour),
            forall|m: Move| r@.contains(m) <==> spec_is_legal(self@, m, colour),
    {
        let mut moves: Vec<Move> = Vec::new();
        let mut index: u8 = 0;
        while index < 63
            invariant
                index <= 63,
                self.wf(),
                moves@ == spec_all_moves_upto(self@, colour, index as int),
            decreases 63 - index,
        {
            match self.at(index) {
                SquareVal::Piece(piece) => {
                    if piece.colour == colour {
                        let mut piece_moves = self.get_piece_moves(&piece, index);
                        moves.append(&mut piece_moves);
                    }
                },
                _ => {},
            }
            proof {
                assert(moves@ =~= spec_all_moves_upto(self@, colour, index as int + 1));
            }
            index = index + 1;
        }
        proof {
            lemma_legal_moves_iff_all(self@, colour);
        }
        moves
    }

    /// Decides `spec_is_legal`: the single-move validation hook offered to
    /// the input boundary.
    pub fn is_legal_move(&self, mov: &Move, colour: &Colour) -> (r: bool)
        ensures
            r == spec_is_legal(self@, *mov, *colour),
    {
        if mov.from_square >= 63 || mov.to_square >= 63 {
            return false;
        }
        let piece = match self.at(mov.from_square) {
            SquareVal::Piece(p) => p,
            _ => { return false; },
        };
        if piece.colour != *colour {
            return false;
        }
        if is_invalid_movement(mov, &piece) {
            return false;
        }
        match piece.kind {
            Kind::Knight => self.is_legal_knight_move(mov, colour),
            Kind::Pawn => {
                let mov_type = get_move_type(mov);
                self.is_legal_pawn_move(mov, mov_type, colour)
            },
        }
    }
}

proof fn lemma_add_contains<A>(s1: Seq<A>, s2: Seq<A>, x: A)
    ensures
        (s1 + s2).contains(x) <==> s1.contains(x) || s2.contains(x),
{
    if s1.contains(x) {
        let i = choose|i: int| 0 <= i < s1.len() && s1[i] == x;
        assert((s1 + s2)[i] == x);
    }
    if s2.contains(x) {
        let i = choose|i: int| 0 <= i < s2.len() && s2[i] == x;
        assert((s1 + s2)[s1.len() + i] == x);
    }
    if (s1 + s2).contains(x) {
        let i = choose|i: int| 0 <= i < (s1 + s2).len() && (s1 + s2)[i] == x;
        if i < s1.len() {
            assert(s1[i] == x);
        } else {
            assert(s2[i - s1.len()] == x);
        }
    }
}

proof fn lemma_pawn_moves_iff(b: Seq<SquareVal>, c: Colour, index: u8, m: Move)
    requires
        board_wf(b),
        sq_valid(index as int),
    ensures
        spec_pawn_moves(b, c, index).contains(m) <==> (spec_is_legal(b, m, c)
            && m.from_square == index && spec_kind_at(b, index as int) == Option::Some(Kind::Pawn)),
{
    let m0 = spec_pawn_candidate(c, index, 0);
    let m1 = spec_pawn_candidate(c, index, 1);
    let m2 = spec_pawn_candidate(c, index, 2);
    let s0: Seq<Move> = if spec_legal_pawn_move(b, m0, MoveType::MoveOnly, c) {
        seq![m0]
    } else {
        Seq::<Move>::empty()
    };
    let s1: Seq<Move> = if spec_legal_pawn_move(b, m1, MoveType::Attack, c) {
        seq![m1]
    } else {
        Seq::<Move>::empty()
    };
    let s2: Seq<Move> = if spec_legal_pawn_move(b, m2, MoveType::Attack, c) {
        seq![m2]
    } else {
        Seq::<Move>::empty()
    };
    lemma_add_contains(s0 + s1, s2, m);
    lemma_add_contains(s0, s1, m);
    assert(s0.contains(m) ==> m == m0);
    assert(s1.contains(m) ==> m == m1);
    assert(s2.contains(m) ==> m == m2);
    if spec_is_legal(b, m, c) && m.from_square == index && spec_kind_at(b, index as int)
        == Option::Some(Kind::Pawn) {
        let d = spec_delta(m);
        if d == spec_pawn_dir(c) {
            assert(m == m0);
            assert(s0.contains(m)) by { assert(s0[0] == m0); }
        } else if d == spec_pawn_dir(c) - 1 {
            assert(m == m1);
            assert(s1.contains(m)) by { assert(s1[0] == m1); }
        } else {
            assert(m == m2);
            assert(s2.contains(m)) by { assert(s2[0] == m2); }
        }
    }
}

proof fn lemma_knight_upto_iff(b: Seq<SquareVal>, c: Colour, index: u8, k: int, m: Move)
    requires
        0 <= k <= 8,
    ensures
        spec_knight_moves_upto(b, c, index, k).contains(m) <==> (exists|j: int|
            0 <= j < k && m == spec_knight_candidate(index, j) && spec_legal_knight_move(
                b,
                spec_knight_candidate(index, j),
                c,
            )),
    decreases k,
{
    if k > 0 {
        lemma_knight_upto_iff(b, c, index, k - 1, m);
        let prev = spec_knight_moves_upto(b, c, index, k - 1);
        let mk = spec_knight_candidate(index, k - 1);
        if spec_legal_knight_move(b, mk, c) {
            lemma_add_contains(prev, seq![mk], m);
            assert(seq![mk][0] == mk);
            assert(seq![mk].contains(m) ==> m == mk);
        }
        if exists|j: int|
            0 <= j < k && m == spec_knight_candidate(index, j) && spec_legal_knight_move(
                b,
                spec_knight_candidate(index, j),
                c,
            ) {
            let j = choose|j: int|
                0 <= j < k && m == spec_knight_candidate(index, j) && spec_legal_knight_move(
                    b,
                    spec_knight_candidate(index, j),
                    c,
                );
            if j == k - 1 {
                assert(spec_knight_moves_upto(b, c, index, k).contains(m)) by {
                    assert(spec_knight_moves_upto(b, c, index, k) == prev + seq![mk]);
                    assert((prev + seq![mk])[prev.len() as int] == mk);
                }
            }
        }
    }
}

proof fn lemma_knight_moves_iff(b: Seq<SquareVal>, c: Colour, index: u8, m: Move)
    requires
        board_wf(b),
        sq_valid(index as int),
    ensures
        spec_knight_moves(b, c, index).contains(m) <==> (spec_is_legal(b, m, c)
            && m.from_square == index && spec_kind_at(b, index as int) == Option::Some(
            Kind::Knight,
        )),
{
    lemma_knight_upto_iff(b, c, index, 8, m);
    if spec_is_legal(b, m, c) && m.from_square == index && spec_kind_at(b, index as int)
        == Option::Some(Kind::Knight) {
        let d = spec_delta(m);
        let j: int = if d == 13 {
            0
        } else if d == 15 {
            1
        } else if d == -13 {
            2
        } else if d == -15 {
            3
        } else if d == 5 {
            4
        } else if d == 9 {
            5
        } else if d == -5 {
            6
        } else {
            7
        };
        assert(m == spec_knight_candidate(index, j) && spec_legal_knight_move(
            b,
            spec_knight_candidate(index, j),
            c,
        ));
    }
    if spec_knight_moves(b, c, index).contains(m) {
        let j = choose|j: int|
            0 <= j < 8 && m == spec_knight_candidate(index, j) && spec_legal_knight_move(
                b,
                spec_knight_candidate(index, j),
                c,
            );
        assert(spec_knight_delta(knight_offsets()[j] as int));
    }
}

proof fn lemma_square_moves_iff(b: Seq<SquareVal>, c: Colour, i: int, m: Move)
    requires
        board_wf(b),
        0 <= i < 63,
    ensures
        spec_square_moves(b, c, i).contains(m) <==> (spec_is_legal(b, m, c) && m.from_square as int
            == i),
{
    match b[i] {
        SquareVal::Piece(p) => {
            if p.colour == c {
                match p.kind {
                    Kind::Pawn => lemma_pawn_moves_iff(b, c, i as u8, m),
                    Kind::Knight => lemma_knight_moves_iff(b, c, i as u8, m),
                }
            }
        },
        _ => {},
    }
}

proof fn lemma_all_upto_iff(b: Seq<SquareVal>, c: Colour, n: int, m: Move)
    requires
        board_wf(b),
        0 <= n <= 63,
    ensures
        spec_all_moves_upto(b, c, n).contains(m) <==> (spec_is_legal(b, m, c)
            && (m.from_square as int) < n),
    decreases n,
{
    if n > 0 {
        lemma_all_upto_iff(b, c, n - 1, m);
        lemma_square_moves_iff(b, c, n - 1, m);
        lemma_add_contains(spec_all_moves_upto(b, c, n - 1), spec_square_moves(b, c, n - 1), m);
    }
}

proof fn lemma_legal_moves_iff_all(b: Seq<SquareVal>, c: Colour)
    requires
        board_wf(b),
    ensures
        forall|m: Move| spec_legal_moves(b, c).contains(m) <==> spec_is_legal(b, m, c),
{
    assert forall|m: Move| spec_legal_moves(b, c).contains(m) <==> spec_is_legal(b, m, c) by {
        lemma_all_upto_iff(b, c, 63, m);
    }
}

/// Law: for every well-formed board and every side, a move stands in the
/// generated legal-move list if and only if it passes single-move
/// validation; no legal move is missed and nothing illegal is produced.
pub proof fn lemma_legal_moves_iff(b: Seq<SquareVal>, c: Colour, m: Move)
    requires
        board_wf(b),
    ensures
        spec_legal_moves(b, c).contains(m) <==> spec_is_legal(b, m, c),
{
    lemma_legal_moves_iff_all(b, c);
}

/// Law: a legal knight move always covers one of the eight leap offsets,
/// and its destination is never the invalid sentinel.
pub proof fn lemma_knight_move_shape(b: Seq<SquareVal>, m: Move, c: Colour)
    requires
        spec_is_legal(b, m, c),
        spec_kind_at(b, m.from_square as int) == Option::Some(Kind::Knight),
    ensures
        spec_knight_delta(spec_delta(m)),
        !(b[m.to_square as int] is Invalid),
{
}

/// Law: a legal pawn move to the straight-ahead square is never a
/// capture (its destination is empty), and a legal pawn move to a
/// diagonal square always captures an opposing piece (its destination is
/// never empty).
pub proof fn lemma_pawn_move_shape(b: Seq<SquareVal>, m: Move, c: Colour)
    requires
        spec_is_legal(b, m, c),
        spec_kind_at(b, m.from_square as int) == Option::Some(Kind::Pawn),
    ensures
        spec_delta(m) == spec_pawn_dir(c) ==> b[m.to_square as int] is Empty,
        spec_delta(m) != spec_pawn_dir(c) ==> (b[m.to_square as int] matches SquareVal::Piece(p)
            && p.colour == spec_opponent(c)),
{
}

} // verus!
