//! The rules of move resolution, stated over the squares of a board
//! (a `Seq<Piece>` of 64 entries, square `(x, y)` at `y * 8 + x`) and the
//! bytes of one move token.
use crate::piece::{moved_form, opponent, CurrentPlayer, Piece};
use vstd::prelude::*;

verus! {

/// ASCII bytes of move notation.
pub const LOWER_A: u8 = 97;
pub const LOWER_H: u8 = 104;
pub const LOWER_X: u8 = 120;
pub const DIGIT_1: u8 = 49;
pub const DIGIT_8: u8 = 56;
pub const UPPER_Q: u8 = 81;
pub const UPPER_R: u8 = 82;
pub const UPPER_B: u8 = 66;
pub const UPPER_N: u8 = 78;
pub const UPPER_K: u8 = 75;
pub const UPPER_O: u8 = 79;
pub const DASH: u8 = 45;
pub const EQUALS: u8 = 61;
pub const PLUS: u8 = 43;
pub const HASH: u8 = 35;

/// Why a move token could not be applied.
#[derive(Debug, Clone, Copy, PartialEq, Eq, Structural)]
pub enum MoveError {
    /// The token is malformed: empty, too short, a square out of range, or a
    /// promotion without a known piece letter.
    Parse,
    /// The token is well formed but names no piece that can make the move.
    Illegal,
    /// The operation is not offered.
    Unsupported,
}

/// A position: the 64 squares and the side to move.
pub type Position = (Seq<Piece>, CurrentPlayer);

pub open spec fn sq(x: int, y: int) -> int {
    y * 8 + x
}

pub open spec fn on_board(x: int, y: int) -> bool {
    0 <= x < 8 && 0 <= y < 8
}

/// The squares after the piece on `from` went to `to`, taking its moved form.
pub open spec fn relocated(s: Seq<Piece>, from: (int, int), to: (int, int)) -> Seq<Piece> {
    s.update(sq(from.0, from.1), Piece::Empty).update(
        sq(to.0, to.1),
        moved_form(s[sq(from.0, from.1)]),
    )
}

/// A plain move: the piece is relocated and the turn passes.
pub open spec fn relocate_move(s: Seq<Piece>, p: CurrentPlayer, from: (int, int), to: (int, int)) -> Position {
    (relocated(s, from, to), opponent(p))
}

/// The identity `white` or `black`, whichever belongs to side `p`.
pub open spec fn own(p: CurrentPlayer, white: Piece, black: Piece) -> Piece {
    if p == CurrentPlayer::White {
        white
    } else {
        black
    }
}

pub open spec fn is_file(b: u8) -> bool {
    LOWER_A <= b <= LOWER_H
}

pub open spec fn is_rank(b: u8) -> bool {
    DIGIT_1 <= b <= DIGIT_8
}

/// Files are stored reversed: `a` is column 7, `h` is column 0.
pub open spec fn file_index(b: u8) -> int {
    7 - (b - LOWER_A)
}

pub open spec fn rank_index(b: u8) -> int {
    b - DIGIT_1
}

/// The first position at or after `i` that is not a capture marker `x`.
pub open spec fn skip_captures(t: Seq<u8>, i: int) -> int
    decreases t.len() - i,
{
    if 0 <= i < t.len() && t[i] == LOWER_X {
        skip_captures(t, i + 1)
    } else {
        i
    }
}

/// The square written at position `i` of `t`, after any `x` markers.
pub open spec fn square_at(t: Seq<u8>, i: int) -> Option<(int, int)> {
    let o = skip_captures(t, i);
    if 0 <= o && o + 1 < t.len() && is_file(t[o]) && is_rank(t[o + 1]) {
        Some((file_index(t[o]), rank_index(t[o + 1])))
    } else {
        None
    }
}

pub open spec fn one_of(p: Piece, wanted: (Piece, Piece)) -> bool {
    p == wanted.0 || p == wanted.1
}

/// The first square reached from `(x, y)` stepping by `(dx, dy)` that holds
/// a wanted piece, unless an edge or another piece comes first. `fuel` bounds
/// the number of steps.
pub open spec fn ray_hit(
    s: Seq<Piece>,
    x: int,
    y: int,
    dx: int,
    dy: int,
    wanted: (Piece, Piece),
    fuel: nat,
) -> Option<(int, int)>
    decreases fuel,
{
    if fuel == 0 {
        None
    } else if !on_board(x + dx, y + dy) {
        None
    } else if one_of(s[sq(x + dx, y + dy)], wanted) {
        Some((x + dx, y + dy))
    } else if s[sq(x + dx, y + dy)] != Piece::Empty {
        None
    } else {
        ray_hit(s, x + dx, y + dy, dx, dy, wanted, (fuel - 1) as nat)
    }
}

/// The hit of the first direction, from index `i` on, whose ray finds a
/// wanted piece.
pub open spec fn first_hit(
    s: Seq<Piece>,
    x: int,
    y: int,
    dirs: Seq<(i8, i8)>,
    wanted: (Piece, Piece),
    i: int,
) -> Option<(int, int)>
    decreases dirs.len() - i,
{
    if i < 0 || i >= dirs.len() {
        None
    } else {
        match ray_hit(s, x, y, dirs[i].0 as int, dirs[i].1 as int, wanted, 8) {
            Some(c) => Some(c),
            None => first_hit(s, x, y, dirs, wanted, i + 1),
        }
    }
}

pub open spec fn diagonals() -> Seq<(i8, i8)> {
    seq![(-1i8, -1i8), (1i8, -1i8), (1i8, 1i8), (-1i8, 1i8)]
}

pub open spec fn straights() -> Seq<(i8, i8)> {
    seq![(-1i8, 0i8), (0i8, 1i8), (1i8, 0i8), (0i8, -1i8)]
}

pub open spec fn all_lines() -> Seq<(i8, i8)> {
    diagonals() + straights()
}

/// A sliding move `<letter><square>`: the piece found by the ray search from
/// the destination is relocated there.
pub open spec fn slide_move(
    s: Seq<Piece>,
    p: CurrentPlayer,
    t: Seq<u8>,
    dirs: Seq<(i8, i8)>,
    wanted: (Piece, Piece),
) -> Result<Position, MoveError> {
    match square_at(t, 1) {
        None => Err(MoveError::Parse),
        Some(to) => match first_hit(s, to.0, to.1, dirs, wanted, 0) {
            None => Err(MoveError::Illegal),
            Some(from) => Ok(relocate_move(s, p, from, to)),
        },
    }
}

pub open spec fn queen_move(s: Seq<Piece>, p: CurrentPlayer, t: Seq<u8>) -> Result<Position, MoveError> {
    let q = own(p, Piece::WhiteQueen, Piece::BlackQueen);
    slide_move(s, p, t, all_lines(), (q, q))
}

pub open spec fn bishop_move(s: Seq<Piece>, p: CurrentPlayer, t: Seq<u8>) -> Result<Position, MoveError> {
    let b = own(p, Piece::WhiteBishop, Piece::BlackBishop);
    slide_move(s, p, t, diagonals(), (b, b))
}

pub open spec fn rooks(p: CurrentPlayer) -> (Piece, Piece) {
    (own(p, Piece::WhiteRook, Piece::BlackRook), own(p, Piece::WhiteRookMoved, Piece::BlackRookMoved))
}

/// The first rank from `i` on, other than `y`, where column `x` holds a
/// wanted piece.
pub open spec fn file_scan(s: Seq<Piece>, x: int, y: int, wanted: (Piece, Piece), i: int) -> Option<int>
    decreases 8 - i,
{
    if i < 0 || i >= 8 {
        None
    } else if i != y && one_of(s[sq(x, i)], wanted) {
        Some(i)
    } else {
        file_scan(s, x, y, wanted, i + 1)
    }
}

/// Offset of the destination square in a knight or rook token (after the
/// letter): 1 when the token's third byte is a capture marker.
pub open spec fn capture_shift(t: Seq<u8>) -> int {
    if t[2] == LOWER_X {
        1
    } else {
        0
    }
}

/// Whether the byte after the letter is a file qualifier followed by the
/// destination's file.
pub open spec fn has_file_qualifier(t: Seq<u8>) -> bool {
    is_file(t[1]) && is_file(t[2 + capture_shift(t)])
}

pub open spec fn rook_move(s: Seq<Piece>, p: CurrentPlayer, t: Seq<u8>) -> Result<Position, MoveError> {
    if t.len() < 3 || t.len() <= 2 + capture_shift(t) {
        Err(MoveError::Parse)
    } else if has_file_qualifier(t) {
        let sx = file_index(t[1]);
        match square_at(t, 2 + capture_shift(t)) {
            None => Err(MoveError::Parse),
            Some(to) => if sx == to.0 {
                match file_scan(s, sx, to.1, rooks(p), 0) {
                    None => Err(MoveError::Illegal),
                    Some(sy) => Ok(relocate_move(s, p, (sx, sy), to)),
                }
            } else if s[sq(sx, to.1)] == Piece::Empty {
                Err(MoveError::Illegal)
            } else {
                Ok(relocate_move(s, p, (sx, to.1), to))
            },
        }
    } else {
        slide_move(s, p, t, straights(), rooks(p))
    }
}

/// Whether a knight on `(x - 2 + a, y - 2 + b)` reaches `(x, y)`.
pub open spec fn knight_jump(a: int, b: int) -> bool {
    ((a == 0 || a == 4) && (b == 1 || b == 3)) || ((a == 1 || a == 3) && (b == 0 || b == 4))
}

/// The first square of the 5x5 box around `(x, y)`, column-major from
/// `(a, b)` on, holding `knight` a knight's jump away, in column `col` if
/// one is given.
pub open spec fn knight_scan(
    s: Seq<Piece>,
    x: int,
    y: int,
    knight: Piece,
    col: Option<int>,
    a: int,
    b: int,
) -> Option<(int, int)>
    decreases 5 - a, 5 - b,
{
    if a < 0 || a >= 5 || b < 0 {
        None
    } else if b >= 5 {
        knight_scan(s, x, y, knight, col, a + 1, 0)
    } else if on_board(x - 2 + a, y - 2 + b) && (col is None || col == Some(x - 2 + a))
        && s[sq(x - 2 + a, y - 2 + b)] == knight && knight_jump(a, b) {
        Some((x - 2 + a, y - 2 + b))
    } else {
        knight_scan(s, x, y, knight, col, a, b + 1)
    }
}

pub open spec fn knight_move(s: Seq<Piece>, p: CurrentPlayer, t: Seq<u8>) -> Result<Position, MoveError> {
    if t.len() < 3 || t.len() <= 2 + capture_shift(t) {
        Err(MoveError::Parse)
    } else {
        let col = if has_file_qualifier(t) {
            Some(file_index(t[1]))
        } else {
            None
        };
        let start = if has_file_qualifier(t) {
            2 + capture_shift(t)
        } else {
            1 + capture_shift(t)
        };
        match square_at(t, start) {
            None => Err(MoveError::Parse),
            Some(to) => match knight_scan(
                s,
                to.0,
                to.1,
                own(p, Piece::WhiteKnight, Piece::BlackKnight),
                col,
                0,
                0,
            ) {
                None => Err(MoveError::Illegal),
                Some(from) => Ok(relocate_move(s, p, from, to)),
            },
        }
    }
}

/// The first square of the 3x3 block centred on `(x, y)`, column-major from
/// `(a, b)` on, holding a wanted piece.
pub open spec fn king_scan(s: Seq<Piece>, x: int, y: int, wanted: (Piece, Piece), a: int, b: int) -> Option<
    (int, int),
>
    decreases 3 - a, 3 - b,
{
    if a < 0 || a >= 3 || b < 0 {
        None
    } else if b >= 3 {
        king_scan(s, x, y, wanted, a + 1, 0)
    } else if on_board(x - 1 + a, y - 1 + b) && one_of(s[sq(x - 1 + a, y - 1 + b)], wanted) {
        Some((x - 1 + a, y - 1 + b))
    } else {
        king_scan(s, x, y, wanted, a, b + 1)
    }
}

pub open spec fn king_move(s: Seq<Piece>, p: CurrentPlayer, t: Seq<u8>) -> Result<Position, MoveError> {
    match square_at(t, 1) {
        None => Err(MoveError::Parse),
        Some(to) => match king_scan(
            s,
            to.0,
            to.1,
            (own(p, Piece::WhiteKing, Piece::BlackKing), own(p, Piece::WhiteKingMoved, Piece::BlackKingMoved)),
            0,
            0,
        ) {
            None => Err(MoveError::Illegal),
            Some(from) => Ok(relocate_move(s, p, from, to)),
        },
    }
}

/// The last `=` at a position from `i` down to `lo`.
pub open spec fn marker_before(t: Seq<u8>, i: int, lo: int) -> Option<int>
    decreases i - lo + 1,
{
    if i < lo || i < 0 || i >= t.len() {
        None
    } else if t[i] == EQUALS {
        Some(i)
    } else {
        marker_before(t, i - 1, lo)
    }
}

/// The piece a pawn reaching rank `y` (7 for White, 0 for Black) becomes for
/// promotion letter `c`.
pub open spec fn promoted(c: u8, y: int) -> Option<Piece> {
    let white = y == 7;
    if c == UPPER_Q {
        Some(if white { Piece::WhiteQueen } else { Piece::BlackQueen })
    } else if c == UPPER_R {
        Some(if white { Piece::WhiteRook } else { Piece::BlackRook })
    } else if c == UPPER_B {
        Some(if white { Piece::WhiteBishop } else { Piece::BlackBishop })
    } else if c == UPPER_N {
        Some(if white { Piece::WhiteKnight } else { Piece::BlackKnight })
    } else {
        None
    }
}

/// The promotion written in the token part `t[lo..]`: the letter after the
/// last `=` found scanning back from its second-to-last byte.
pub open spec fn promotion(t: Seq<u8>, lo: int, y: int) -> Option<Piece> {
    match marker_before(t, t.len() - 2, lo) {
        None => None,
        Some(i) => promoted(t[i + 1], y),
    }
}

/// A pawn from `from` lands on `to`; on the last rank it is replaced by the
/// piece that the token part `t[lo..]` promotes it to.
pub open spec fn pawn_lands(
    s: Seq<Piece>,
    p: CurrentPlayer,
    t: Seq<u8>,
    lo: int,
    from: (int, int),
    to: (int, int),
) -> Result<Position, MoveError> {
    if to.1 == 0 || to.1 == 7 {
        match promotion(t, lo, to.1) {
            None => Err(MoveError::Parse),
            Some(pc) => Ok((relocated(s, from, to).update(sq(to.0, to.1), pc), opponent(p))),
        }
    } else {
        Ok(relocate_move(s, p, from, to))
    }
}

pub open spec fn pawn_on(s: Seq<Piece>, p: CurrentPlayer, x: int, y: int) -> bool {
    on_board(x, y) && one_of(
        s[sq(x, y)],
        (own(p, Piece::WhitePawn, Piece::BlackPawn), own(p, Piece::WhitePawnMoved, Piece::BlackPawnMoved)),
    )
}

/// Rank step of a pawn of side `p` towards its promotion rank.
pub open spec fn forward(p: CurrentPlayer) -> int {
    if p == CurrentPlayer::White {
        1
    } else {
        -1
    }
}

/// A pawn advance `<square>`: the nearest own pawn behind the destination on
/// its column, at most two ranks back.
pub open spec fn pawn_move(s: Seq<Piece>, p: CurrentPlayer, t: Seq<u8>) -> Result<Position, MoveError> {
    match square_at(t, 0) {
        None => Err(MoveError::Parse),
        Some(to) => if pawn_on(s, p, to.0, to.1 - forward(p)) {
            pawn_lands(s, p, t, 0, (to.0, to.1 - forward(p)), to)
        } else if pawn_on(s, p, to.0, to.1 - 2 * forward(p)) {
            pawn_lands(s, p, t, 0, (to.0, to.1 - 2 * forward(p)), to)
        } else {
            Err(MoveError::Illegal)
        },
    }
}

/// A pawn capture `<file>x<square>`. An empty destination means en passant:
/// the opposing moved pawn beside the source is removed first.
pub open spec fn pawn_capture(s: Seq<Piece>, p: CurrentPlayer, t: Seq<u8>) -> Result<Position, MoveError> {
    match square_at(t, 2) {
        None => Err(MoveError::Parse),
        Some(to) => if !is_file(t[0]) {
            Err(MoveError::Parse)
        } else {
            let from = (file_index(t[0]), to.1 - forward(p));
            if !on_board(from.0, from.1) {
                Err(MoveError::Illegal)
            } else if s[sq(to.0, to.1)] == Piece::Empty {
                if s[sq(to.0, from.1)] != own(p, Piece::BlackPawnMoved, Piece::WhitePawnMoved) {
                    Err(MoveError::Illegal)
                } else {
                    let s1 = s.update(sq(to.0, from.1), Piece::Empty);
                    if s1[sq(from.0, from.1)] == Piece::Empty {
                        Err(MoveError::Illegal)
                    } else {
                        pawn_lands(s1, p, t, 2, from, to)
                    }
                }
            } else if s[sq(from.0, from.1)] == Piece::Empty {
                Err(MoveError::Illegal)
            } else {
                pawn_lands(s, p, t, 2, from, to)
            }
        },
    }
}

/// Castling: the unmoved king on column 3 goes two squares towards the rook,
/// which jumps over it; the turn passes once.
pub open spec fn castle(s: Seq<Piece>, p: CurrentPlayer, short: bool) -> Result<Position, MoveError> {
    let r = if p == CurrentPlayer::White {
        0int
    } else {
        7int
    };
    let rook_x: int = if short {
        0
    } else {
        7
    };
    let king_to: int = if short {
        1
    } else {
        5
    };
    let rook_to: int = if short {
        2
    } else {
        4
    };
    if s[sq(3, r)] != own(p, Piece::WhiteKing, Piece::BlackKing) || s[sq(rook_x, r)] != own(
        p,
        Piece::WhiteRook,
        Piece::BlackRook,
    ) {
        Err(MoveError::Illegal)
    } else {
        Ok((relocated(relocated(s, (3, r), (king_to, r)), (rook_x, r), (rook_to, r)), opponent(p)))
    }
}

pub open spec fn short_castle_text() -> Seq<u8> {
    seq![UPPER_O, DASH, UPPER_O]
}

pub open spec fn long_castle_text() -> Seq<u8> {
    seq![UPPER_O, DASH, UPPER_O, DASH, UPPER_O]
}

/// The position after playing token `t` on squares `s` with `p` to move.
pub open spec fn play(s: Seq<Piece>, p: CurrentPlayer, t: Seq<u8>) -> Result<Position, MoveError> {
    if t.len() == 0 {
        Err(MoveError::Parse)
    } else if t[0] == UPPER_Q {
        queen_move(s, p, t)
    } else if t[0] == UPPER_N {
        knight_move(s, p, t)
    } else if t[0] == UPPER_B {
        bishop_move(s, p, t)
    } else if t[0] == UPPER_R {
        rook_move(s, p, t)
    } else if t[0] == UPPER_K {
        king_move(s, p, t)
    } else if t == short_castle_text() {
        castle(s, p, true)
    } else if t == long_castle_text() {
        castle(s, p, false)
    } else if t.len() >= 4 && t[1] == LOWER_X {
        pawn_capture(s, p, t)
    } else {
        pawn_move(s, p, t)
    }
}

} // verus!
