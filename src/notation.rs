//! A structured reading of one move token in standard algebraic notation.
use crate::board::BoardState;
use crate::rules::{
    is_file, is_rank, MoveError, DASH, DIGIT_1, DIGIT_8, EQUALS, HASH, LOWER_A, LOWER_H, LOWER_X,
    PLUS, UPPER_B, UPPER_K, UPPER_N, UPPER_O, UPPER_Q, UPPER_R,
};
use vstd::prelude::*;
use vstd::string::StringSliceAdditionalSpecFns;

verus! {

/// A rank index, rank 1 being 0.
pub type Row = u8;

/// A file index, file `a` being 0.
pub type Col = u8;

/// The kind of piece a token moves.
#[derive(Clone, Copy, Debug, PartialEq, Eq, Structural)]
pub enum Piece {
    Pawn,
    Rook,
    Knight,
    Bishop,
    Queen,
    King,
}

impl Default for Piece {
    fn default() -> (r: Piece)
        ensures
            r == Piece::Pawn,
    {
        Piece::Pawn
    }
}

/// One parsed move token.
#[derive(Debug, Copy, Clone, PartialEq, Eq, Structural)]
pub struct Notation {
    pub piece: Piece,
    pub from_row: Option<Row>,
    pub from_col: Option<Col>,
    pub row: Row,
    pub col: Col,
    pub is_capturing_piece: bool,
    pub promote_piece: Option<Piece>,
    pub is_check: bool,
    pub is_checkmate: bool,
    pub is_short_castle: bool,
    pub is_long_castle: bool,
}

/// A pawn move to `a1` with no qualifier and no flag.
pub open spec fn blank() -> Notation {
    Notation {
        piece: Piece::Pawn,
        from_row: None,
        from_col: None,
        row: 0,
        col: 0,
        is_capturing_piece: false,
        promote_piece: None,
        is_check: false,
        is_checkmate: false,
        is_short_castle: false,
        is_long_castle: false,
    }
}

impl Default for Notation {
    fn default() -> (r: Notation)
        ensures
            r == blank(),
    {
        Notation {
            piece: Piece::Pawn,
            from_row: None,
            from_col: None,
            row: 0,
            col: 0,
            is_capturing_piece: false,
            promote_piece: None,
            is_check: false,
            is_checkmate: false,
            is_short_castle: false,
            is_long_castle: false,
        }
    }
}

/// The kind named by a leading letter; any other byte means a pawn.
pub open spec fn letter_kind(b: u8) -> Piece {
    if b == UPPER_Q {
        Piece::Queen
    } else if b == UPPER_R {
        Piece::Rook
    } else if b == UPPER_B {
        Piece::Bishop
    } else if b == UPPER_K {
        Piece::King
    } else if b == UPPER_N {
        Piece::Knight
    } else {
        Piece::Pawn
    }
}

/// The kind a promotion letter names.
pub open spec fn promotion_kind(b: u8) -> Option<Piece> {
    if b == UPPER_Q {
        Some(Piece::Queen)
    } else if b == UPPER_N {
        Some(Piece::Knight)
    } else if b == UPPER_R {
        Some(Piece::Rook)
    } else if b == UPPER_B {
        Some(Piece::Bishop)
    } else {
        None
    }
}

pub open spec fn starts_long_castle(t: Seq<u8>) -> bool {
    t.len() >= 5 && t[0] == UPPER_O && t[1] == DASH && t[2] == UPPER_O && t[3] == DASH && t[4]
        == UPPER_O
}

pub open spec fn starts_short_castle(t: Seq<u8>) -> bool {
    t.len() >= 3 && t[0] == UPPER_O && t[1] == DASH && t[2] == UPPER_O
}

/// Trailing marks from position `i`: an optional `+`, an optional `#`, and
/// then the end of the token.
pub open spec fn read_marks(t: Seq<u8>, i: int, n: Notation) -> Result<Notation, MoveError> {
    let check = i < t.len() && t[i] == PLUS;
    let j = if check {
        i + 1
    } else {
        i
    };
    let mate = j < t.len() && t[j] == HASH;
    let k = if mate {
        j + 1
    } else {
        j
    };
    if k != t.len() {
        Err(MoveError::Parse)
    } else {
        Ok(Notation { is_check: check, is_checkmate: mate, ..n })
    }
}

/// An optional promotion `=<letter>` at position `i`, then the marks.
pub open spec fn read_promotion(t: Seq<u8>, i: int, n: Notation) -> Result<Notation, MoveError> {
    if i < t.len() && t[i] == EQUALS {
        if i + 1 >= t.len() {
            Err(MoveError::Parse)
        } else {
            match promotion_kind(t[i + 1]) {
                None => Err(MoveError::Parse),
                Some(k) => read_marks(t, i + 2, Notation { promote_piece: Some(k), ..n }),
            }
        }
    } else {
        read_marks(t, i, n)
    }
}

/// After the first square: an optional `x`, then an optional second square
/// (the first one then was the source), then the rest.
pub open spec fn read_second(t: Seq<u8>, i: int, n: Notation) -> Result<Notation, MoveError> {
    let capture = i < t.len() && t[i] == LOWER_X;
    let j = if capture {
        i + 1
    } else {
        i
    };
    let n1 = if capture {
        Notation { is_capturing_piece: true, ..n }
    } else {
        n
    };
    if j < t.len() && is_file(t[j]) {
        if j + 1 >= t.len() || !is_rank(t[j + 1]) {
            Err(MoveError::Parse)
        } else {
            read_promotion(
                t,
                j + 2,
                Notation {
                    from_row: Some(n1.row),
                    from_col: Some(n1.col),
                    col: (t[j] - LOWER_A) as u8,
                    row: (t[j + 1] - DIGIT_1) as u8,
                    ..n1
                },
            )
        }
    } else {
        read_promotion(t, j, n1)
    }
}

/// The square at position `i`: a file `a`-`h` and a rank `1`-`8`.
pub open spec fn read_square(t: Seq<u8>, i: int, n: Notation) -> Result<Notation, MoveError> {
    if i + 1 >= t.len() || !is_file(t[i]) || !is_rank(t[i + 1]) {
        Err(MoveError::Parse)
    } else {
        read_second(
            t,
            i + 2,
            Notation { col: (t[i] - LOWER_A) as u8, row: (t[i + 1] - DIGIT_1) as u8, ..n },
        )
    }
}

/// An optional capture marker at position `i`, then the square.
pub open spec fn read_capture(t: Seq<u8>, i: int, n: Notation) -> Result<Notation, MoveError> {
    if i >= t.len() {
        Err(MoveError::Parse)
    } else if t[i] == LOWER_X {
        read_square(t, i + 1, Notation { is_capturing_piece: true, ..n })
    } else {
        read_square(t, i, n)
    }
}

/// An optional source rank at position `i`, then the rest.
pub open spec fn read_from_rank(t: Seq<u8>, i: int, n: Notation) -> Result<Notation, MoveError> {
    if i >= t.len() {
        Err(MoveError::Parse)
    } else if is_rank(t[i]) {
        read_capture(t, i + 1, Notation { from_row: Some((t[i] - DIGIT_1) as u8), ..n })
    } else {
        read_capture(t, i, n)
    }
}

/// An optional source file at position `i` (a file followed by `x` or by
/// another file), then the rest.
pub open spec fn read_from_file(t: Seq<u8>, i: int, n: Notation) -> Result<Notation, MoveError> {
    if i >= t.len() {
        Err(MoveError::Parse)
    } else if is_file(t[i]) && i + 1 < t.len() && (t[i + 1] == LOWER_X || is_file(t[i + 1])) {
        read_from_rank(t, i + 1, Notation { from_col: Some((t[i] - LOWER_A) as u8), ..n })
    } else {
        read_from_rank(t, i, n)
    }
}

/// The reading of token `t`.
pub open spec fn parse_token(t: Seq<u8>) -> Result<Notation, MoveError> {
    if starts_long_castle(t) {
        Ok(Notation { is_long_castle: true, ..blank() })
    } else if starts_short_castle(t) {
        Ok(Notation { is_short_castle: true, ..blank() })
    } else {
        let kind = if t.len() > 0 {
            letter_kind(t[0])
        } else {
            Piece::Pawn
        };
        let start = if kind != Piece::Pawn {
            1int
        } else {
            0int
        };
        read_from_file(t, start, Notation { piece: kind, ..blank() })
    }
}

fn is_file_byte(b: u8) -> (r: bool)
    ensures
        r == is_file(b),
{
    LOWER_A <= b && b <= LOWER_H
}

fn is_rank_byte(b: u8) -> (r: bool)
    ensures
        r == is_rank(b),
{
    DIGIT_1 <= b && b <= DIGIT_8
}

impl Notation {
    /// `O-O-O`.
    fn long_castle() -> (r: Self)
        ensures
            r == (Notation { is_long_castle: true, ..blank() }),
    {
        Notation { is_long_castle: true, ..Notation::default() }
    }

    /// `O-O`.
    fn short_castle() -> (r: Self)
        ensures
            r == (Notation { is_short_castle: true, ..blank() }),
    {
        Notation { is_short_castle: true, ..Notation::default() }
    }

    /// Reads one token: castling, or a piece letter, optional source file
    /// and rank, optional `x`, the square, an optional second square (the
    /// first then being the source), an optional promotion `=<letter>`, and
    /// optional `+` and `#`. Anything else, or anything left over, is a
    /// parse error.
    pub fn parse(s: &str) -> (r: Result<Notation, MoveError>)
        ensures
            r == parse_token(s.spec_bytes()),
    {
        let t = s.as_bytes();
        let len = t.len();
        if len >= 5 && t[0] == UPPER_O && t[1] == DASH && t[2] == UPPER_O && t[3] == DASH && t[4]
            == UPPER_O {
            return Ok(Notation::long_castle());
        }
        if len >= 3 && t[0] == UPPER_O && t[1] == DASH && t[2] == UPPER_O {
            return Ok(Notation::short_castle());
        }
        let mut n = Notation::default();
        if len > 0 {
            let c = t[0];
            if c == UPPER_Q {
                n.piece = Piece::Queen;
            } else if c == UPPER_R {
                n.piece = Piece::Rook;
            } else if c == UPPER_B {
                n.piece = Piece::Bishop;
            } else if c == UPPER_K {
                n.piece = Piece::King;
            } else if c == UPPER_N {
                n.piece = Piece::Knight;
            }
        }
        let i: usize = if n.piece != Piece::Pawn {
            1
        } else {
            0
        };
        Self::from_file(t, i, n)
    }

    fn from_file(t: &[u8], i: usize, n: Notation) -> (r: Result<Notation, MoveError>)
        requires
            i <= t@.len(),
        ensures
            r == read_from_file(t@, i as int, n),
    {
        let mut n = n;
        if i >= t.len() {
            return Err(MoveError::Parse);
        }
        if is_file_byte(t[i]) && i + 1 < t.len() && (t[i + 1] == LOWER_X || is_file_byte(t[i + 1])) {
            n.from_col = Some(t[i] - LOWER_A);
            Self::from_rank(t, i + 1, n)
        } else {
            Self::from_rank(t, i, n)
        }
    }

    fn from_rank(t: &[u8], i: usize, n: Notation) -> (r: Result<Notation, MoveError>)
        requires
            i <= t@.len(),
        ensures
            r == read_from_rank(t@, i as int, n),
    {
        let mut n = n;
        if i >= t.len() {
            return Err(MoveError::Parse);
        }
        if is_rank_byte(t[i]) {
            n.from_row = Some(t[i] - DIGIT_1);
            Self::capture(t, i + 1, n)
        } else {
            Self::capture(t, i, n)
        }
    }

    fn capture(t: &[u8], i: usize, n: Notation) -> (r: Result<Notation, MoveError>)
        requires
            i <= t@.len(),
        ensures
            r == read_capture(t@, i as int, n),
    {
        let mut n = n;
        if i >= t.len() {
            return Err(MoveError::Parse);
        }
        if t[i] == LOWER_X {
            n.is_capturing_piece = true;
            Self::square(t, i + 1, n)
        } else {
            Self::square(t, i, n)
        }
    }

    fn square(t: &[u8], i: usize, n: Notation) -> (r: Result<Notation, MoveError>)
        requires
            i <= t@.len(),
        ensures
            r == read_square(t@, i as int, n),
    {
        let mut n = n;
        if i >= t.len() || t.len() - i < 2 || !is_file_byte(t[i]) || !is_rank_byte(t[i + 1]) {
            return Err(MoveError::Parse);
        }
        n.col = t[i] - LOWER_A;
        n.row = t[i + 1] - DIGIT_1;
        Self::second(t, i + 2, n)
    }

    fn second(t: &[u8], i: usize, n: Notation) -> (r: Result<Notation, MoveError>)
        requires
            i <= t@.len(),
        ensures
            r == read_second(t@, i as int, n),
    {
        let mut n = n;
        let mut i = i;
        if i < t.len() && t[i] == LOWER_X {
            n.is_capturing_piece = true;
            i += 1;
        }
        if i < t.len() && is_file_byte(t[i]) {
            if i + 1 >= t.len() || !is_rank_byte(t[i + 1]) {
                return Err(MoveError::Parse);
            }
            n.from_row = Some(n.row);
            n.from_col = Some(n.col);
            n.col = t[i] - LOWER_A;
            n.row = t[i + 1] - DIGIT_1;
            Self::promotion(t, i + 2, n)
        } else {
            Self::promotion(t, i, n)
        }
    }

    fn promotion(t: &[u8], i: usize, n: Notation) -> (r: Result<Notation, MoveError>)
        requires
            i <= t@.len(),
        ensures
            r == read_promotion(t@, i as int, n),
    {
        let mut n = n;
        if i < t.len() && t[i] == EQUALS {
            if i + 1 >= t.len() {
                return Err(MoveError::Parse);
            }
            let k = t[i + 1];
            if k == UPPER_Q {
                n.promote_piece = Some(Piece::Queen);
            } else if k == UPPER_N {
                n.promote_piece = Some(Piece::Knight);
            } else if k == UPPER_R {
                n.promote_piece = Some(Piece::Rook);
            } else if k == UPPER_B {
                n.promote_piece = Some(Piece::Bishop);
            } else {
                return Err(MoveError::Parse);
            }
            Self::marks(t, i + 2, n)
        } else {
            Self::marks(t, i, n)
        }
    }

    fn marks(t: &[u8], i: usize, n: Notation) -> (r: Result<Notation, MoveError>)
        requires
            i <= t@.len(),
        ensures
            r == read_marks(t@, i as int, n),
    {
        let mut n = n;
        let mut i = i;
        n.is_check = false;
        n.is_checkmate = false;
        if i < t.len() && t[i] == PLUS {
            n.is_check = true;
            i += 1;
        }
        if i < t.len() && t[i] == HASH {
            n.is_checkmate = true;
            i += 1;
        }
        if i != t.len() {
            return Err(MoveError::Parse);
        }
        Ok(n)
    }

    /// Applying a parsed notation to a board is not offered: always
    /// `Unsupported`, and the board is left as it is.
    pub fn apply(&self, _boardstate: &mut BoardState) -> (r: Result<(), MoveError>)
        ensures
            r == Err::<(), MoveError>(MoveError::Unsupported),
            *final(_boardstate) == *old(_boardstate),
    {
        Err(MoveError::Unsupported)
    }
}

} // verus!
