use simulchess::board::Board;
use simulchess::board::Colour;
use simulchess::board::Kind;
use simulchess::board::Move;
use simulchess::board::Piece;
use simulchess::board::SquareVal;
use simulchess::coords::try_get_col;
use simulchess::coords::try_get_row;
use simulchess::coords::try_get_u8_from_algebraic;
use simulchess::eval::get_absolute_piece_value;
use simulchess::eval::get_pawn_val;
use simulchess::eval::get_piece_val;
use simulchess::eval::get_square_val;
use simulchess::is_legal;
use simulchess::new_game;
use simulchess::select_move;

fn white_pawn() -> SquareVal {
    SquareVal::Piece(Piece { colour: Colour::White, kind: Kind::Pawn })
}

fn white_knight() -> SquareVal {
    SquareVal::Piece(Piece { colour: Colour::White, kind: Kind::Knight })
}

fn black_pawn() -> SquareVal {
    SquareVal::Piece(Piece { colour: Colour::Black, kind: Kind::Pawn })
}

#[test]
fn test_value_tables_exact_entries() {
    let knight = Piece { colour: Colour::White, kind: Kind::Knight };
    // Central square, corner of the playing area, and a border cell.
    assert_eq!(get_absolute_piece_value(&knight, 31), 38);
    assert_eq!(get_absolute_piece_value(&knight, 15), 30);
    assert_eq!(get_absolute_piece_value(&knight, 0), 0);
    let white_pawn = Piece { colour: Colour::White, kind: Kind::Pawn };
    let black_pawn = Piece { colour: Colour::Black, kind: Kind::Pawn };
    // A pawn on its own back rank counts for nothing.
    assert_eq!(get_pawn_val(&white_pawn, 16), 0);
    assert_eq!(get_pawn_val(&black_pawn, 44), 0);
    // One rank advanced, central file: the table's peak.
    assert_eq!(get_pawn_val(&white_pawn, 24), 20);
    assert_eq!(get_pawn_val(&black_pawn, 38), 20);
    // Far rank, edge file: the table's floor.
    assert_eq!(get_pawn_val(&white_pawn, 43), 10);
    assert_eq!(get_pawn_val(&black_pawn, 15), 10);
    // The tables mirror each other between the sides.
    for i in 0..63usize {
        assert_eq!(get_pawn_val(&white_pawn, i), get_pawn_val(&black_pawn, 62 - i));
    }
}

#[test]
fn test_signed_values_flip_with_viewpoint() {
    let knight = Piece { colour: Colour::White, kind: Kind::Knight };
    assert_eq!(get_piece_val(&knight, 31, &Colour::White), 38);
    assert_eq!(get_piece_val(&knight, 31, &Colour::Black), -38);
    let square = white_knight();
    assert_eq!(get_square_val((31, &square), &Colour::White), 38);
    assert_eq!(get_square_val((31, &SquareVal::Empty), &Colour::White), 0);
    assert_eq!(get_square_val((0, &SquareVal::Invalid), &Colour::White), 0);
}

#[test]
fn test_board_value_sums_piece_values() {
    let empty = Board::empty();
    assert_eq!(empty.get_value(&Colour::White), 0);
    assert_eq!(empty.get_value(&Colour::Black), 0);

    let mut board = Board::empty();
    board.set_square(31, white_knight());
    assert_eq!(board.get_value(&Colour::White), 38);
    assert_eq!(board.get_value(&Colour::Black), -38);

    board.set_square(23, white_pawn());
    // White pawn one rank advanced on file 2: 10 + 6 + 2 = 18 tenths.
    assert_eq!(board.get_value(&Colour::White), 56);
    assert_eq!(board.get_value(&Colour::Black), -56);

    // The mirrored starting position is balanced.
    let start = new_game();
    assert_eq!(start.get_value(&Colour::White), 0);
    assert_eq!(start.get_value(&Colour::Black), 0);
}

#[test]
fn test_select_move_none_without_moves() {
    // A lone blocked pawn leaves White without a move to pick.
    let mut board = Board::empty();
    board.set_square(30, white_pawn());
    board.set_square(37, black_pawn());
    assert_eq!(select_move(&board, Colour::White), None);
}

#[test]
fn test_select_move_returns_the_only_move() {
    let mut board = Board::empty();
    board.set_square(30, white_pawn());
    board.set_square(37, black_pawn());
    board.set_square(36, black_pawn());
    // White's one legal move is the diagonal capture 30 -> 36.
    let chosen = select_move(&board, Colour::White);
    assert_eq!(chosen, Some(Move { from_square: 30, to_square: 36 }));
}

#[test]
fn test_select_move_is_legal_and_deterministic() {
    let board = new_game();
    for side in [Colour::White, Colour::Black] {
        let chosen = select_move(&board, side).expect("the start position has moves");
        assert!(is_legal(&board, &chosen, side));
        assert_eq!(select_move(&board, side), Some(chosen));
    }
}

#[test]
fn test_select_move_minimizes_worst_case() {
    // White's options: the knight on 16 may capture the black pawn on
    // 29 or hop to 31 or 25, and the pawn on 18 may advance to 25.
    // Working the value matrix out by hand, the pawn push gains 18
    // tenths of table value against either black reply, more than the
    // capture's 16, so the one-ply worst-case rule must pick 18 -> 25.
    let mut board = Board::empty();
    board.set_square(16, white_knight());
    board.set_square(18, white_pawn());
    board.set_square(29, black_pawn());
    board.set_square(47, black_pawn());
    let chosen = select_move(&board, Colour::White).expect("White has moves");
    assert!(is_legal(&board, &chosen, Colour::White));
    assert_eq!(chosen, Move { from_square: 18, to_square: 25 });
}

#[test]
fn test_random_move_is_always_legal() {
    let board = new_game();
    for _ in 0..20 {
        let m = board.get_random_move(Colour::White).expect("White has moves");
        assert!(is_legal(&board, &m, Colour::White));
    }
    let mut stuck = Board::empty();
    stuck.set_square(30, white_pawn());
    stuck.set_square(37, black_pawn());
    assert_eq!(stuck.get_random_move(Colour::White), None);
}

#[test]
fn test_algebraic_decoding() {
    assert_eq!(try_get_u8_from_algebraic(String::from("a1")), Some(43));
    assert_eq!(try_get_u8_from_algebraic(String::from("A1")), Some(43));
    assert_eq!(try_get_u8_from_algebraic(String::from("e5")), Some(19));
    assert_eq!(try_get_u8_from_algebraic(String::from("c3")), Some(31));
    assert_eq!(try_get_u8_from_algebraic(String::from("b2\n")), Some(37));
    assert_eq!(try_get_u8_from_algebraic(String::from("")), None);
    assert_eq!(try_get_u8_from_algebraic(String::from("a")), None);
    assert_eq!(try_get_u8_from_algebraic(String::from("f1")), None);
    assert_eq!(try_get_u8_from_algebraic(String::from("a0")), None);
    assert_eq!(try_get_u8_from_algebraic(String::from("a6")), None);
    assert_eq!(try_get_u8_from_algebraic(String::from("3a")), None);
}

#[test]
fn test_row_and_col_decoding() {
    assert_eq!(try_get_row('a'), Some(43));
    assert_eq!(try_get_row('E'), Some(47));
    assert_eq!(try_get_row('z'), None);
    assert_eq!(try_get_col('1'), Some(1));
    assert_eq!(try_get_col('5'), Some(5));
    assert_eq!(try_get_col('6'), None);
    assert_eq!(try_get_col('0'), None);
    assert_eq!(try_get_col('x'), None);
}
