use chess_san::{BoardState, CurrentPlayer, MoveError, Piece};

fn play_all(board: &mut BoardState, moves: &[&str]) {
    for m in moves {
        assert_eq!(Ok(()), board.make_move(m), "move {}", m);
    }
}

// column of a file letter: `a` is 7, `h` is 0
fn col(file: char) -> u8 {
    7 - (file as u8 - b'a')
}

#[test]
fn initial_layout() {
    let board = BoardState::init();
    let back_white = [
        Piece::WhiteRook,
        Piece::WhiteKnight,
        Piece::WhiteBishop,
        Piece::WhiteKing,
        Piece::WhiteQueen,
        Piece::WhiteBishop,
        Piece::WhiteKnight,
        Piece::WhiteRook,
    ];
    let back_black = [
        Piece::BlackRook,
        Piece::BlackKnight,
        Piece::BlackBishop,
        Piece::BlackKing,
        Piece::BlackQueen,
        Piece::BlackBishop,
        Piece::BlackKnight,
        Piece::BlackRook,
    ];
    for x in 0..8u8 {
        assert_eq!(back_white[x as usize], board.get_piece(x, 0));
        assert_eq!(Piece::WhitePawn, board.get_piece(x, 1));
        for y in 2..6u8 {
            assert_eq!(Piece::Empty, board.get_piece(x, y));
        }
        assert_eq!(Piece::BlackPawn, board.get_piece(x, 6));
        assert_eq!(back_black[x as usize], board.get_piece(x, 7));
    }
    assert_eq!(CurrentPlayer::White, board.current_player);
    assert_eq!(Piece::WhiteKing, board.get_piece(col('e'), 0));
}

#[test]
fn pawn_double_step_marks_moved_and_flips_turn() {
    let mut board = BoardState::init();
    assert_eq!(Ok(()), board.make_move("e4"));
    assert_eq!(Piece::Empty, board.get_piece(col('e'), 1));
    assert_eq!(Piece::WhitePawnMoved, board.get_piece(col('e'), 3));
    assert_eq!(CurrentPlayer::Black, board.current_player);
    assert_eq!(Ok(()), board.make_move("e6"));
    assert_eq!(Piece::BlackPawnMoved, board.get_piece(col('e'), 5));
    assert_eq!(CurrentPlayer::White, board.current_player);
}

#[test]
fn en_passant_removes_passed_pawn() {
    let mut board = BoardState::init();
    play_all(&mut board, &["e4", "a6", "e5", "d5"]);
    assert_eq!(Ok(()), board.make_move("exd6"));
    assert_eq!(Piece::Empty, board.get_piece(col('d'), 4));
    assert_eq!(Piece::Empty, board.get_piece(col('e'), 4));
    assert_eq!(Piece::WhitePawnMoved, board.get_piece(col('d'), 5));
    assert_eq!(CurrentPlayer::Black, board.current_player);
}

#[test]
fn en_passant_needs_moved_opposing_pawn() {
    let mut board = BoardState::init();
    play_all(&mut board, &["e4", "a6", "e5", "a5"]);
    let before = board.to_piece_vec();
    assert_eq!(Err(MoveError::Illegal), board.make_move("exd6"));
    assert_eq!(before, board.to_piece_vec());
    assert_eq!(CurrentPlayer::White, board.current_player);
}

#[test]
fn promotion_to_queen_by_advance() {
    let mut board = BoardState::init();
    play_all(&mut board, &["d4", "e5", "dxe5", "Ke7", "e6", "Kf6", "e7", "a6"]);
    assert_eq!(Ok(()), board.make_move("e8=Q"));
    assert_eq!(Piece::WhiteQueen, board.get_piece(col('e'), 7));
    assert_eq!(Piece::Empty, board.get_piece(col('e'), 6));
    assert_eq!(CurrentPlayer::Black, board.current_player);
}

#[test]
fn promotion_by_capture_to_knight() {
    let mut board = BoardState::init();
    play_all(&mut board, &["e4", "d5", "exd5", "c6", "dxc6", "Nf6", "cxb7", "e6"]);
    assert_eq!(Ok(()), board.make_move("bxa8=N"));
    assert_eq!(Piece::WhiteKnight, board.get_piece(col('a'), 7));
    assert_eq!(Piece::Empty, board.get_piece(col('b'), 6));
}

#[test]
fn promotion_without_letter_is_parse_error() {
    let mut board = BoardState::init();
    play_all(&mut board, &["d4", "e5", "dxe5", "Ke7", "e6", "Kf6", "e7", "a6"]);
    let before = board.to_piece_vec();
    assert_eq!(Err(MoveError::Parse), board.make_move("e8"));
    assert_eq!(before, board.to_piece_vec());
}

#[test]
fn castle_short_white() {
    let mut board = BoardState::init();
    play_all(&mut board, &["e4", "e5", "Nf3", "Nc6", "Bc4", "Nf6"]);
    assert_eq!(Ok(()), board.make_move("O-O"));
    assert_eq!(Piece::WhiteKingMoved, board.get_piece(1, 0));
    assert_eq!(Piece::WhiteRookMoved, board.get_piece(2, 0));
    assert_eq!(Piece::Empty, board.get_piece(3, 0));
    assert_eq!(Piece::Empty, board.get_piece(0, 0));
    assert_eq!(CurrentPlayer::Black, board.current_player);
}

#[test]
fn castle_long_black() {
    let mut board = BoardState::init();
    play_all(&mut board, &["e4", "d5", "a3", "Nc6", "a4", "Be6", "a5", "Qd6", "h3"]);
    assert_eq!(Ok(()), board.make_move("O-O-O"));
    assert_eq!(Piece::BlackKingMoved, board.get_piece(5, 7));
    assert_eq!(Piece::BlackRookMoved, board.get_piece(4, 7));
    assert_eq!(Piece::Empty, board.get_piece(3, 7));
    assert_eq!(Piece::Empty, board.get_piece(7, 7));
    assert_eq!(CurrentPlayer::White, board.current_player);
}

#[test]
fn castle_after_king_moved_is_illegal() {
    let mut board = BoardState::init();
    play_all(&mut board, &["e4", "e5", "Ke2", "a6", "Ke1", "a5"]);
    assert_eq!(Err(MoveError::Illegal), board.make_move("O-O"));
    assert_eq!(CurrentPlayer::White, board.current_player);
}

#[test]
fn knight_moves_and_file_qualifier() {
    let mut board = BoardState::init();
    play_all(&mut board, &["Nf3", "a6", "Nc3", "a5", "Ne4", "h6"]);
    assert_eq!(Piece::WhiteKnight, board.get_piece(col('e'), 3));
    assert_eq!(Piece::WhiteKnight, board.get_piece(col('f'), 2));
    // both knights reach g5; the file qualifier picks the one on f3
    assert_eq!(Ok(()), board.make_move("Nfg5"));
    assert_eq!(Piece::WhiteKnight, board.get_piece(col('g'), 4));
    assert_eq!(Piece::Empty, board.get_piece(col('f'), 2));
    assert_eq!(Piece::WhiteKnight, board.get_piece(col('e'), 3));
}

#[test]
fn knight_unqualified_takes_first_in_scan_order() {
    let mut board = BoardState::init();
    play_all(&mut board, &["Nf3", "a6", "Nc3", "a5", "Ne4", "h6"]);
    // knights on e4 (column 3) and f3 (column 2) both reach g5 (column 1);
    // the scan goes column by column from the lowest, so f3 moves
    assert_eq!(Ok(()), board.make_move("Ng5"));
    assert_eq!(Piece::Empty, board.get_piece(col('f'), 2));
    assert_eq!(Piece::WhiteKnight, board.get_piece(col('e'), 3));
}

#[test]
fn bishop_blocked_is_illegal() {
    let mut board = BoardState::init();
    let before = board.to_piece_vec();
    assert_eq!(Err(MoveError::Illegal), board.make_move("Bc4"));
    assert_eq!(before, board.to_piece_vec());
    assert_eq!(CurrentPlayer::White, board.current_player);
}

#[test]
fn queen_ray_search_and_capture() {
    let mut board = BoardState::init();
    play_all(&mut board, &["e4", "e5", "Qh5", "Nc6"]);
    assert_eq!(Piece::WhiteQueen, board.get_piece(col('h'), 4));
    assert_eq!(Ok(()), board.make_move("Qxf7#"));
    assert_eq!(Piece::WhiteQueen, board.get_piece(col('f'), 6));
    assert_eq!(Piece::Empty, board.get_piece(col('h'), 4));
}

#[test]
fn rook_earlier_direction_wins() {
    // rooks on h3 and a3 both reach d3; the search towards column 0 (the
    // h-file side) is listed first, so the h3 rook moves
    let mut board = BoardState::init();
    play_all(&mut board, &["h4", "a6", "Rh3", "b6", "a4", "c6", "Raa3", "d6"]);
    assert_eq!(Piece::WhiteRookMoved, board.get_piece(col('h'), 2));
    assert_eq!(Piece::WhiteRookMoved, board.get_piece(col('a'), 2));
    assert_eq!(Ok(()), board.make_move("Rd3"));
    assert_eq!(Piece::WhiteRookMoved, board.get_piece(col('d'), 2));
    assert_eq!(Piece::Empty, board.get_piece(col('h'), 2));
    assert_eq!(Piece::WhiteRookMoved, board.get_piece(col('a'), 2));
}

#[test]
fn rook_moves_with_and_without_qualifier() {
    let mut board = BoardState::init();
    play_all(&mut board, &["h4", "a5", "Rh3", "a4", "Ra3", "e6"]);
    assert_eq!(Piece::WhiteRookMoved, board.get_piece(col('a'), 2));
    // a1 rook and a3 rook on the a-file: qualified file search from rank 1
    assert_eq!(Ok(()), board.make_move("Raxa4"));
    assert_eq!(Piece::Empty, board.get_piece(col('a'), 0));
    assert_eq!(Piece::WhiteRookMoved, board.get_piece(col('a'), 3));
    assert_eq!(Piece::WhiteRookMoved, board.get_piece(col('a'), 2));
}

#[test]
fn rook_from_other_file() {
    let mut board = BoardState::init();
    play_all(&mut board, &["h4", "a5", "Rh3", "a4"]);
    assert_eq!(Ok(()), board.make_move("Rhe3"));
    assert_eq!(Piece::WhiteRookMoved, board.get_piece(col('e'), 2));
    assert_eq!(Piece::Empty, board.get_piece(col('h'), 2));
}

#[test]
fn king_adjacent_move() {
    let mut board = BoardState::init();
    play_all(&mut board, &["e4", "e5"]);
    assert_eq!(Ok(()), board.make_move("Ke2"));
    assert_eq!(Piece::WhiteKingMoved, board.get_piece(col('e'), 1));
    assert_eq!(Err(MoveError::Illegal), board.make_move("Ke5"));
}

#[test]
fn stacked_pawns_nearer_moves_first() {
    let mut board = BoardState::init();
    play_all(&mut board, &["a3", "e5", "a4", "e4", "a5", "e3", "dxe3", "a6"]);
    assert_eq!(Piece::WhitePawn, board.get_piece(col('e'), 1));
    assert_eq!(Piece::WhitePawnMoved, board.get_piece(col('e'), 2));
    assert_eq!(Ok(()), board.make_move("e4"));
    assert_eq!(Piece::WhitePawnMoved, board.get_piece(col('e'), 3));
    assert_eq!(Piece::Empty, board.get_piece(col('e'), 2));
    assert_eq!(Piece::WhitePawn, board.get_piece(col('e'), 1));
}

#[test]
fn malformed_tokens_fail_without_change() {
    let mut board = BoardState::init();
    let before = board.to_piece_vec();
    for m in ["", "e", "e9", "Qz4", "N", "R", "xx", "O-O+", "ix5"] {
        assert_eq!(Err(MoveError::Parse), board.make_move(m), "token {:?}", m);
        assert_eq!(before, board.to_piece_vec());
        assert_eq!(CurrentPlayer::White, board.current_player);
    }
}

#[test]
fn pawn_without_source_is_illegal() {
    let mut board = BoardState::init();
    assert_eq!(Err(MoveError::Illegal), board.make_move("e5"));
    assert_eq!(Err(MoveError::Illegal), board.make_move("exd3"));
}

#[test]
fn feature_vector_planes() {
    let board = BoardState::init();
    let v = board.to_piece_vec();
    assert_eq!(18 * 64, v.len());
    assert_eq!(32, v.iter().map(|&b| b as usize).sum::<usize>());
    // e1 is column 3, rank 0: the white king, plane 0
    let at = |plane: usize, x: usize, y: usize| v[plane * 64 + x * 8 + y];
    assert_eq!(1, at(0, 3, 0));
    for plane in 1..18 {
        assert_eq!(0, at(plane, 3, 0));
    }
    // a white pawn on h2 (column 0, rank 1): plane of WhitePawn (index 6)
    assert_eq!(1, at(5, 0, 1));
    // empty squares have no 1 anywhere
    for plane in 0..18 {
        assert_eq!(0, at(plane, 4, 4));
    }
}

#[test]
fn moved_variant_is_one_way() {
    let mut p = Piece::WhiteKing;
    p.has_moved();
    assert_eq!(Piece::WhiteKingMoved, p);
    p.has_moved();
    assert_eq!(Piece::WhiteKingMoved, p);
    let mut q = Piece::BlackQueen;
    q.has_moved();
    assert_eq!(Piece::BlackQueen, q);
    assert_eq!(6, Piece::WhitePawn.index());
    assert_eq!(CurrentPlayer::Black, CurrentPlayer::White.other());
}

#[test]
fn there_and_back_restores_the_board() {
    let mut board = BoardState::init();
    let start = board.to_piece_vec();
    play_all(&mut board, &["Nf3", "Nf6", "Ng1", "Ng8"]);
    assert_eq!(start, board.to_piece_vec());
    assert_eq!(CurrentPlayer::White, board.current_player);
}

#[test]
fn there_and_back_keeps_moved_form() {
    let mut board = BoardState::init();
    play_all(&mut board, &["e4", "e5", "Ke2", "Ke7", "Ke1", "Ke8"]);
    assert_eq!(Piece::WhiteKingMoved, board.get_piece(col('e'), 0));
    assert_eq!(Piece::BlackKingMoved, board.get_piece(col('e'), 7));
    assert_eq!(Piece::Empty, board.get_piece(col('e'), 1));
}

#[test]
fn knight_round_trip_with_file() {
    let board = BoardState::init();
    let mut plain = board;
    let mut qualified = board;
    assert_eq!(Ok(()), plain.make_move("Nf3"));
    assert_eq!(Ok(()), qualified.make_move("Ngf3"));
    assert_eq!(plain.to_piece_vec(), qualified.to_piece_vec());
    assert_eq!(Piece::Empty, plain.get_piece(col('g'), 0));
    let parsed = chess_san::notation::Notation::parse("Ngf3").unwrap();
    assert_eq!(Some(6), parsed.from_col);
    assert_eq!(5, parsed.col);
    assert_eq!(2, parsed.row);
}

#[test]
fn rook_round_trip_with_file() {
    let mut board = BoardState::init();
    play_all(&mut board, &["h4", "a5", "Rh3", "a4"]);
    let mut plain = board;
    let mut qualified = board;
    assert_eq!(Ok(()), plain.make_move("Re3"));
    assert_eq!(Ok(()), qualified.make_move("Rhe3"));
    assert_eq!(plain.to_piece_vec(), qualified.to_piece_vec());
    assert_eq!(Piece::WhiteRookMoved, plain.get_piece(col('e'), 2));
}
