use simulchess::board::Board;
use simulchess::board::Colour;
use simulchess::board::GameState;
use simulchess::board::Kind;
use simulchess::board::Move;
use simulchess::board::MovePair;
use simulchess::board::MoveType;
use simulchess::board::Piece;
use simulchess::board::SquareVal;
use simulchess::board::grid_to_one_d;
use simulchess::board::opponent;
use simulchess::board::square_on_board;
use simulchess::classify;
use simulchess::is_legal;
use simulchess::legal_moves;
use simulchess::movegen::get_move_type;
use simulchess::movegen::is_invalid_knight_movement;
use simulchess::movegen::is_invalid_movement;
use simulchess::movegen::is_invalid_pawn_movement;
use simulchess::new_game;
use simulchess::resolve;
use simulchess::resolve::piece_to_place;

fn white_pawn() -> SquareVal {
    SquareVal::Piece(Piece { colour: Colour::White, kind: Kind::Pawn })
}

fn white_knight() -> SquareVal {
    SquareVal::Piece(Piece { colour: Colour::White, kind: Kind::Knight })
}

fn black_pawn() -> SquareVal {
    SquareVal::Piece(Piece { colour: Colour::Black, kind: Kind::Pawn })
}

fn black_knight() -> SquareVal {
    SquareVal::Piece(Piece { colour: Colour::Black, kind: Kind::Knight })
}

fn mv(from: u8, to: u8) -> Move {
    Move { from_square: from, to_square: to }
}

fn count_pieces(board: &Board, colour: Colour, kind: Kind) -> usize {
    let mut n = 0;
    for i in 0..63u8 {
        if let SquareVal::Piece(p) = board.at(i) {
            if p.colour == colour && p.kind == kind {
                n += 1;
            }
        }
    }
    n
}

#[test]
fn test_new_game_material_and_state() {
    let board = new_game();
    assert_eq!(count_pieces(&board, Colour::White, Kind::Pawn), 4);
    assert_eq!(count_pieces(&board, Colour::White, Kind::Knight), 2);
    assert_eq!(count_pieces(&board, Colour::Black, Kind::Pawn), 4);
    assert_eq!(count_pieces(&board, Colour::Black, Kind::Knight), 2);
    assert_eq!(classify(&board), GameState::Ongoing);
    assert!(!legal_moves(&board, Colour::White).is_empty());
    assert!(!legal_moves(&board, Colour::Black).is_empty());
}

#[test]
fn test_new_game_layout() {
    let board = new_game();
    assert_eq!(board.at(15), white_knight());
    assert_eq!(board.at(16), white_pawn());
    assert_eq!(board.at(17), SquareVal::Empty);
    assert_eq!(board.at(18), white_pawn());
    assert_eq!(board.at(19), white_knight());
    assert_eq!(board.at(22), white_pawn());
    assert_eq!(board.at(26), white_pawn());
    assert_eq!(board.at(36), black_pawn());
    assert_eq!(board.at(40), black_pawn());
    assert_eq!(board.at(43), black_knight());
    assert_eq!(board.at(44), black_pawn());
    assert_eq!(board.at(45), SquareVal::Empty);
    assert_eq!(board.at(46), black_pawn());
    assert_eq!(board.at(47), black_knight());
    assert_eq!(board.at(0), SquareVal::Invalid);
    assert_eq!(board.at(21), SquareVal::Invalid);
    assert_eq!(board.at(62), SquareVal::Invalid);
    assert_eq!(board.at(31), SquareVal::Empty);
}

#[test]
fn test_generated_moves_match_validation() {
    // Every move in the generated list validates, and nothing outside it does.
    let board = new_game();
    for side in [Colour::White, Colour::Black] {
        let moves = legal_moves(&board, side);
        for from in 0..63u8 {
            for to in 0..63u8 {
                let m = mv(from, to);
                let generated = moves.iter().any(|x| *x == m);
                assert_eq!(generated, is_legal(&board, &m, side));
            }
        }
    }
}

#[test]
fn test_knight_moves_are_leap_pattern() {
    let mut board = Board::empty();
    board.set_square(31, white_knight());
    board.set_square(16, black_pawn());
    let moves = legal_moves(&board, Colour::White);
    assert_eq!(moves.len(), 8);
    for m in &moves {
        assert_eq!(m.from_square, 31);
        let delta = m.to_square as i16 - m.from_square as i16;
        assert!([13, 15, -13, -15, 5, 9, -5, -9].contains(&delta));
        assert_ne!(board.at(m.to_square), SquareVal::Invalid);
    }
}

#[test]
fn test_knight_in_corner_stays_on_board() {
    let mut board = Board::empty();
    board.set_square(15, white_knight());
    board.set_square(40, black_pawn());
    let moves = legal_moves(&board, Colour::White);
    // From the low corner only the leaps to 24 and 30 stay on the board.
    assert_eq!(moves.len(), 2);
    assert!(moves.iter().any(|m| m.to_square == 24));
    assert!(moves.iter().any(|m| m.to_square == 30));
    for m in &moves {
        assert_ne!(board.at(m.to_square), SquareVal::Invalid);
    }
}

#[test]
fn test_knight_never_captures_own_piece() {
    let mut board = Board::empty();
    board.set_square(31, white_knight());
    board.set_square(44, white_pawn());
    board.set_square(36, black_pawn());
    // 31 + 13 = 44 holds an own pawn: illegal.
    assert!(!is_legal(&board, &mv(31, 44), Colour::White));
    // 31 + 5 = 36 holds an opposing pawn: a legal capture.
    assert!(is_legal(&board, &mv(31, 36), Colour::White));
}

#[test]
fn test_pawn_moves_split_advance_and_capture() {
    let mut board = Board::empty();
    board.set_square(23, white_pawn());
    board.set_square(29, black_pawn());
    // Straight ahead (30) is empty, forward-left diagonal (29) holds an
    // opposing piece, forward-right diagonal (31) is empty.
    let moves = legal_moves(&board, Colour::White);
    assert_eq!(moves.len(), 2);
    assert!(moves.iter().any(|m| *m == mv(23, 30)));
    assert!(moves.iter().any(|m| *m == mv(23, 29)));
    // No advance onto a diagonal square, even though 31 is empty.
    assert!(!is_legal(&board, &mv(23, 31), Colour::White));
}

#[test]
fn test_pawn_cannot_capture_straight_ahead() {
    let mut board = Board::empty();
    board.set_square(23, white_pawn());
    board.set_square(30, black_pawn());
    // The straight-ahead square holds an opposing piece: no advance, no capture.
    assert!(!is_legal(&board, &mv(23, 30), Colour::White));
    // The black pawn is equally blocked going the other way.
    assert!(!is_legal(&board, &mv(30, 23), Colour::Black));
}

#[test]
fn test_black_pawn_direction_is_mirrored() {
    let mut board = Board::empty();
    board.set_square(37, black_pawn());
    board.set_square(29, white_pawn());
    let moves = legal_moves(&board, Colour::Black);
    assert_eq!(moves.len(), 2);
    assert!(moves.iter().any(|m| *m == mv(37, 30)));
    assert!(moves.iter().any(|m| *m == mv(37, 29)));
    // Backward movement is never legal for a pawn.
    assert!(!is_legal(&board, &mv(37, 44), Colour::Black));
}

#[test]
fn test_out_of_range_indices_are_rejected() {
    let board = new_game();
    assert!(!is_legal(&board, &mv(200, 29), Colour::White));
    assert!(!is_legal(&board, &mv(22, 200), Colour::White));
}

#[test]
fn test_resolve_pawn_advances() {
    // From the start, both sides advance one pawn to non-colliding squares.
    let board = new_game();
    let pair = MovePair { white: mv(22, 29), black: mv(40, 33) };
    assert!(is_legal(&board, &pair.white, Colour::White));
    assert!(is_legal(&board, &pair.black, Colour::Black));
    let after = resolve(&board, &pair);
    assert_eq!(after.at(22), SquareVal::Empty);
    assert_eq!(after.at(29), white_pawn());
    assert_eq!(after.at(40), SquareVal::Empty);
    assert_eq!(after.at(33), black_pawn());
    for i in 0..63u8 {
        if ![22u8, 29, 40, 33].contains(&i) {
            assert_eq!(after.at(i), board.at(i));
        }
    }
}

#[test]
fn test_resolve_is_deterministic() {
    let board = new_game();
    let pair = MovePair { white: mv(22, 29), black: mv(40, 33) };
    let first = resolve(&board, &pair);
    let second = resolve(&board, &pair);
    assert_eq!(first, second);
}

#[test]
fn test_clash_white_knight_beats_black_pawn() {
    let mut board = Board::empty();
    board.set_square(17, white_knight());
    board.set_square(37, black_pawn());
    let pair = MovePair { white: mv(17, 30), black: mv(37, 30) };
    assert!(is_legal(&board, &pair.white, Colour::White));
    assert!(is_legal(&board, &pair.black, Colour::Black));
    let after = resolve(&board, &pair);
    assert_eq!(after.at(30), white_knight());
    assert_eq!(after.at(17), SquareVal::Empty);
    assert_eq!(after.at(37), SquareVal::Empty);
}

#[test]
fn test_clash_black_knight_beats_white_pawn() {
    let mut board = Board::empty();
    board.set_square(23, white_pawn());
    board.set_square(43, black_knight());
    let pair = MovePair { white: mv(23, 30), black: mv(43, 30) };
    assert!(is_legal(&board, &pair.white, Colour::White));
    assert!(is_legal(&board, &pair.black, Colour::Black));
    let after = resolve(&board, &pair);
    assert_eq!(after.at(30), black_knight());
    assert_eq!(after.at(23), SquareVal::Empty);
    assert_eq!(after.at(43), SquareVal::Empty);
}

#[test]
fn test_clash_same_kind_annihilates() {
    let mut board = Board::empty();
    board.set_square(23, white_pawn());
    board.set_square(37, black_pawn());
    let pair = MovePair { white: mv(23, 30), black: mv(37, 30) };
    let after = resolve(&board, &pair);
    assert_eq!(after.at(30), SquareVal::Empty);
    assert_eq!(after.at(23), SquareVal::Empty);
    assert_eq!(after.at(37), SquareVal::Empty);

    let mut knights = Board::empty();
    knights.set_square(17, white_knight());
    knights.set_square(43, black_knight());
    let pair = MovePair { white: mv(17, 30), black: mv(43, 30) };
    let after = resolve(&knights, &pair);
    assert_eq!(after.at(30), SquareVal::Empty);
    assert_eq!(after.at(17), SquareVal::Empty);
    assert_eq!(after.at(43), SquareVal::Empty);
}

#[test]
fn test_white_pawn_promotes_to_knight() {
    let mut board = Board::empty();
    board.set_square(38, white_pawn());
    board.set_square(37, black_pawn());
    // White advances 38 -> 45 onto the high promotion rank while Black
    // advances 37 -> 30.
    let pair = MovePair { white: mv(38, 45), black: mv(37, 30) };
    assert!(is_legal(&board, &pair.white, Colour::White));
    assert!(is_legal(&board, &pair.black, Colour::Black));
    let after = resolve(&board, &pair);
    assert_eq!(after.at(45), white_knight());
    assert_eq!(after.at(38), SquareVal::Empty);
}

#[test]
fn test_black_pawn_promotes_to_knight() {
    let mut board = Board::empty();
    board.set_square(24, black_pawn());
    board.set_square(23, white_pawn());
    let pair = MovePair { white: mv(23, 30), black: mv(24, 17) };
    assert!(is_legal(&board, &pair.white, Colour::White));
    assert!(is_legal(&board, &pair.black, Colour::Black));
    let after = resolve(&board, &pair);
    assert_eq!(after.at(17), black_knight());
    assert_eq!(after.at(24), SquareVal::Empty);
}

#[test]
fn test_piece_to_place_only_promotes_pawns_on_far_rank() {
    assert_eq!(piece_to_place(white_pawn(), Colour::White, 45), white_knight());
    assert_eq!(piece_to_place(white_pawn(), Colour::White, 30), white_pawn());
    assert_eq!(piece_to_place(white_knight(), Colour::White, 45), white_knight());
    assert_eq!(piece_to_place(black_pawn(), Colour::Black, 17), black_knight());
    assert_eq!(piece_to_place(black_pawn(), Colour::Black, 30), black_pawn());
}

#[test]
fn test_draw_when_both_sides_have_no_pawns() {
    // Both knights still have moves, yet zero pawns on both sides draws.
    let mut board = Board::empty();
    board.set_square(17, white_knight());
    board.set_square(45, black_knight());
    assert_eq!(classify(&board), GameState::Draw);
}

#[test]
fn test_side_without_pawns_loses() {
    let mut board = Board::empty();
    board.set_square(23, white_pawn());
    board.set_square(17, white_knight());
    board.set_square(45, black_knight());
    assert_eq!(classify(&board), GameState::Win(Colour::White));

    let mut board = Board::empty();
    board.set_square(37, black_pawn());
    board.set_square(45, black_knight());
    board.set_square(17, white_knight());
    assert_eq!(classify(&board), GameState::Win(Colour::Black));
}

#[test]
fn test_stalemated_side_draws() {
    // White's only pawn is blocked and has nothing to capture; Black
    // still has a mobile knight, but a side without moves draws.
    let mut board = Board::empty();
    board.set_square(30, white_pawn());
    board.set_square(37, black_pawn());
    board.set_square(47, black_knight());
    assert!(legal_moves(&board, Colour::White).is_empty());
    assert!(!legal_moves(&board, Colour::Black).is_empty());
    assert_eq!(classify(&board), GameState::Draw);
}

#[test]
fn test_helpers_on_offsets() {
    assert_eq!(get_move_type(&mv(22, 29)), MoveType::MoveOnly);
    assert_eq!(get_move_type(&mv(37, 30)), MoveType::MoveOnly);
    assert_eq!(get_move_type(&mv(22, 28)), MoveType::Attack);
    assert_eq!(get_move_type(&mv(22, 30)), MoveType::Attack);
    assert!(!is_invalid_knight_movement(&mv(31, 44)));
    assert!(!is_invalid_knight_movement(&mv(31, 18)));
    assert!(is_invalid_knight_movement(&mv(31, 38)));
    assert!(!is_invalid_pawn_movement(&mv(22, 29), &Colour::White));
    assert!(is_invalid_pawn_movement(&mv(29, 22), &Colour::White));
    assert!(!is_invalid_pawn_movement(&mv(29, 22), &Colour::Black));
    assert!(is_invalid_pawn_movement(&mv(22, 29), &Colour::Black));
    let knight = Piece { colour: Colour::White, kind: Kind::Knight };
    let pawn = Piece { colour: Colour::White, kind: Kind::Pawn };
    assert!(!is_invalid_movement(&mv(31, 44), &knight));
    assert!(is_invalid_movement(&mv(31, 44), &pawn));
    assert!(!is_invalid_movement(&mv(31, 38), &pawn));
}

#[test]
fn test_grid_to_one_d_covers_playing_area() {
    assert_eq!(grid_to_one_d(0, 0), 15);
    assert_eq!(grid_to_one_d(0, 4), 19);
    assert_eq!(grid_to_one_d(2, 2), 31);
    assert_eq!(grid_to_one_d(4, 4), 47);
    assert!(square_on_board(15));
    assert!(square_on_board(47));
    assert!(!square_on_board(14));
    assert!(!square_on_board(21));
    assert!(!square_on_board(48));
    assert!(!square_on_board(63));
}

#[test]
fn test_opponent_is_total_swap() {
    assert_eq!(opponent(Colour::White), Colour::Black);
    assert_eq!(opponent(Colour::Black), Colour::White);
}
