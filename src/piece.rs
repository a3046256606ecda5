use vstd::prelude::*;

verus! {

/// The side whose turn it is.
#[derive(Debug, Clone, Copy, PartialEq, Eq, Structural)]
pub enum CurrentPlayer {
    White,
    Black,
}

/// What one square of the board holds. King, pawn and rook carry a
/// "moved" variant, because castling and en passant depend on it.
#[derive(Debug, Clone, Copy, PartialEq, Eq, Structural, Hash)]
pub enum Piece {
    Empty,
    WhiteKing,
    WhiteKingMoved,
    WhiteQueen,
    WhiteBishop,
    WhiteKnight,
    WhitePawn,
    WhitePawnMoved,
    WhiteRook,
    WhiteRookMoved,
    BlackKing,
    BlackKingMoved,
    BlackQueen,
    BlackBishop,
    BlackKnight,
    BlackPawn,
    BlackPawnMoved,
    BlackRook,
    BlackRookMoved,
}

/// The other side.
pub open spec fn opponent(p: CurrentPlayer) -> CurrentPlayer {
    match p {
        CurrentPlayer::White => CurrentPlayer::Black,
        CurrentPlayer::Black => CurrentPlayer::White,
    }
}

/// The identity a piece takes once it has moved: unmoved kings, pawns and
/// rooks become their moved variant, everything else stays as it is.
pub open spec fn moved_form(p: Piece) -> Piece {
    match p {
        Piece::WhiteKing => Piece::WhiteKingMoved,
        Piece::WhitePawn => Piece::WhitePawnMoved,
        Piece::WhiteRook => Piece::WhiteRookMoved,
        Piece::BlackKing => Piece::BlackKingMoved,
        Piece::BlackPawn => Piece::BlackPawnMoved,
        Piece::BlackRook => Piece::BlackRookMoved,
        _ => p,
    }
}

/// Position of a piece identity in the enumeration order (`Empty` is 0).
pub open spec fn piece_index(p: Piece) -> int {
    match p {
        Piece::Empty => 0,
        Piece::WhiteKing => 1,
        Piece::WhiteKingMoved => 2,
        Piece::WhiteQueen => 3,
        Piece::WhiteBishop => 4,
        Piece::WhiteKnight => 5,
        Piece::WhitePawn => 6,
        Piece::WhitePawnMoved => 7,
        Piece::WhiteRook => 8,
        Piece::WhiteRookMoved => 9,
        Piece::BlackKing => 10,
        Piece::BlackKingMoved => 11,
        Piece::BlackQueen => 12,
        Piece::BlackBishop => 13,
        Piece::BlackKnight => 14,
        Piece::BlackPawn => 15,
        Piece::BlackPawnMoved => 16,
        Piece::BlackRook => 17,
        Piece::BlackRookMoved => 18,
    }
}

/// Number of non-empty piece identities.
pub const PIECE_KINDS: usize = 18;

impl CurrentPlayer {
    /// The other side.
    pub fn other(self) -> (r: CurrentPlayer)
        ensures
            r == opponent(self),
    {
        match self {
            CurrentPlayer::White => CurrentPlayer::Black,
            CurrentPlayer::Black => CurrentPlayer::White,
        }
    }
}

impl Piece {
    /// Turns an unmoved king, pawn or rook into its moved variant.
    pub fn has_moved(&mut self)
        ensures
            *final(self) == moved_form(*old(self)),
    {
        match *self {
            Piece::WhiteKing => *self = Piece::WhiteKingMoved,
            Piece::WhitePawn => *self = Piece::WhitePawnMoved,
            Piece::WhiteRook => *self = Piece::WhiteRookMoved,
            Piece::BlackKing => *self = Piece::BlackKingMoved,
            Piece::BlackPawn => *self = Piece::BlackPawnMoved,
            Piece::BlackRook => *self = Piece::BlackRookMoved,
            _ => {},
        }
    }

    /// Position of this identity in the enumeration order.
    pub fn index(self) -> (r: u8)
        ensures
            r as int == piece_index(self),
    {
        match self {
            Piece::Empty => 0,
            Piece::WhiteKing => 1,
            Piece::WhiteKingMoved => 2,
            Piece::WhiteQueen => 3,
            Piece::WhiteBishop => 4,
            Piece::WhiteKnight => 5,
            Piece::WhitePawn => 6,
            Piece::WhitePawnMoved => 7,
            Piece::WhiteRook => 8,
            Piece::WhiteRookMoved => 9,
            Piece::BlackKing => 10,
            Piece::BlackKingMoved => 11,
            Piece::BlackQueen => 12,
            Piece::BlackBishop => 13,
            Piece::BlackKnight => 14,
            Piece::BlackPawn => 15,
            Piece::BlackPawnMoved => 16,
            Piece::BlackRook => 17,
            Piece::BlackRookMoved => 18,
        }
    }
}

} // verus!
