use chess_san::notation::{Notation, Piece};
use chess_san::{BoardState, MoveError};

#[test]
fn test_command_knight_move() {
    let notation = Notation::parse("Na7b8+").expect("Could not parse \"Ng7f5+\"");
    assert_eq!(Piece::Knight, notation.piece);
    assert_eq!(Some(6), notation.from_row);
    assert_eq!(Some(0), notation.from_col);
    assert_eq!(7, notation.row);
    assert_eq!(1, notation.col);
    assert_eq!(false, notation.is_capturing_piece);
    assert_eq!(None, notation.promote_piece);
    assert_eq!(true, notation.is_check);
    assert_eq!(false, notation.is_checkmate);
    assert_eq!(false, notation.is_short_castle);
    assert_eq!(false, notation.is_long_castle);
}

#[test]
fn test_command_rook_move() {
    let notation = Notation::parse("Rd7xd2+").expect("Could not parse \"Rd7xd2+\"");
    assert_eq!(Piece::Rook, notation.piece);
    assert_eq!(Some(6), notation.from_row);
    assert_eq!(Some(3), notation.from_col);
    assert_eq!(1, notation.row);
    assert_eq!(3, notation.col);
    assert_eq!(true, notation.is_capturing_piece);
    assert_eq!(None, notation.promote_piece);
    assert_eq!(true, notation.is_check);
    assert_eq!(false, notation.is_checkmate);
    assert_eq!(false, notation.is_short_castle);
    assert_eq!(false, notation.is_long_castle);
}

#[test]
fn parse_castles() {
    let long = Notation::parse("O-O-O").unwrap();
    assert!(long.is_long_castle && !long.is_short_castle);
    let short = Notation::parse("O-O+").unwrap();
    assert!(short.is_short_castle && !short.is_long_castle);
    assert_eq!(Piece::Pawn, short.piece);
}

#[test]
fn parse_pawn_capture_with_promotion_and_mate() {
    let n = Notation::parse("exd8=N#").unwrap();
    assert_eq!(Piece::Pawn, n.piece);
    assert_eq!(Some(4), n.from_col);
    assert_eq!(None, n.from_row);
    assert!(n.is_capturing_piece);
    assert_eq!(3, n.col);
    assert_eq!(7, n.row);
    assert_eq!(Some(Piece::Knight), n.promote_piece);
    assert!(!n.is_check);
    assert!(n.is_checkmate);
}

#[test]
fn parse_rank_qualifier() {
    let n = Notation::parse("R1a3").unwrap();
    assert_eq!(Piece::Rook, n.piece);
    assert_eq!(Some(0), n.from_row);
    assert_eq!(None, n.from_col);
    assert_eq!(0, n.col);
    assert_eq!(2, n.row);
}

#[test]
fn parse_capture_without_qualifier() {
    let n = Notation::parse("Nxe5").unwrap();
    assert_eq!(Piece::Knight, n.piece);
    assert_eq!(None, n.from_col);
    assert_eq!(None, n.from_row);
    assert!(n.is_capturing_piece);
    assert_eq!(4, n.col);
    assert_eq!(4, n.row);
}

#[test]
fn parse_rejects_malformed_tokens() {
    assert_eq!(Err(MoveError::Parse), Notation::parse(""));
    assert_eq!(Err(MoveError::Parse), Notation::parse("N"));
    assert_eq!(Err(MoveError::Parse), Notation::parse("e9"));
    assert_eq!(Err(MoveError::Parse), Notation::parse("z4"));
    assert_eq!(Err(MoveError::Parse), Notation::parse("e4?"));
    assert_eq!(Err(MoveError::Parse), Notation::parse("e8="));
    assert_eq!(Err(MoveError::Parse), Notation::parse("e8=K"));
}

#[test]
fn apply_is_unsupported_and_leaves_board() {
    let mut board = BoardState::init();
    let n = Notation::parse("e4").unwrap();
    assert_eq!(Err(MoveError::Unsupported), n.apply(&mut board));
    assert_eq!(board.to_piece_vec(), BoardState::init().to_piece_vec());
}

#[test]
fn default_notation_is_blank_pawn_move() {
    let n = Notation::default();
    assert_eq!(Piece::Pawn, n.piece);
    assert_eq!(Piece::Pawn, Piece::default());
    assert_eq!(None, n.promote_piece);
}
