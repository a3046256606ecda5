//! The board: 64 squares and the side to move, with the primitives that
//! read and change it and the resolution of one move token.
use crate::piece::{opponent, piece_index, CurrentPlayer, Piece, PIECE_KINDS};
use crate::rules::{
    all_lines, bishop_move, castle, diagonals, file_scan, first_hit, is_file, king_move, king_scan,
    knight_move, knight_scan, marker_before, on_board, one_of, pawn_capture, pawn_lands,
    pawn_move, play, promoted, promotion, queen_move, ray_hit, relocated, rook_move,
    long_castle_text, short_castle_text, skip_captures, sq, square_at, straights, MoveError,
    Position, DASH, DIGIT_1, DIGIT_8, EQUALS,
    LOWER_A, LOWER_H, LOWER_X, UPPER_B, UPPER_K, UPPER_N, UPPER_O, UPPER_Q, UPPER_R,
};
use vstd::prelude::*;
use vstd::string::StringSliceAdditionalSpecFns;

verus! {

/// The pieces of the back rank of side `white`, by column.
pub open spec fn back_rank(x: int, white: bool) -> Piece {
    if x == 0 || x == 7 {
        if white { Piece::WhiteRook } else { Piece::BlackRook }
    } else if x == 1 || x == 6 {
        if white { Piece::WhiteKnight } else { Piece::BlackKnight }
    } else if x == 2 || x == 5 {
        if white { Piece::WhiteBishop } else { Piece::BlackBishop }
    } else if x == 3 {
        if white { Piece::WhiteKing } else { Piece::BlackKing }
    } else {
        if white { Piece::WhiteQueen } else { Piece::BlackQueen }
    }
}

/// The standard starting layout.
pub open spec fn start_piece(x: int, y: int) -> Piece {
    if y == 0 {
        back_rank(x, true)
    } else if y == 1 {
        Piece::WhitePawn
    } else if y == 6 {
        Piece::BlackPawn
    } else if y == 7 {
        back_rank(x, false)
    } else {
        Piece::Empty
    }
}

pub open spec fn opt_int(c: Option<u8>) -> Option<int> {
    match c {
        Some(v) => Some(v as int),
        None => None,
    }
}

fn is_file_byte(b: u8) -> (r: bool)
    ensures
        r == is_file(b),
{
    LOWER_A <= b && b <= LOWER_H
}

/// The piece that promotion letter `c` gives on rank `y`.
fn promoted_piece(c: u8, y: u8) -> (r: Option<Piece>)
    ensures
        r == promoted(c, y as int),
{
    let white = y == 7;
    if c == UPPER_Q {
        Some(if white { Piece::WhiteQueen } else { Piece::BlackQueen })
    } else if c == UPPER_R {
        Some(if white { Piece::WhiteRook } else { Piece::BlackRook })
    } else if c == UPPER_B {
        Some(if white { Piece::WhiteBishop } else { Piece::BlackBishop })
    } else if c == UPPER_N {
        Some(if white { Piece::WhiteKnight } else { Piece::BlackKnight })
    } else {
        None
    }
}

/// The promotion written in `t[lo..]`: the letter after the last `=`,
/// scanning back from the second-to-last byte.
fn promotion_piece(t: &[u8], lo: usize, y: u8) -> (r: Option<Piece>)
    ensures
        r == promotion(t@, lo as int, y as int),
{
    if t.len() < 2 {
        return None;
    }
    let mut i: usize = t.len() - 2;
    loop
        invariant
            i + 2 <= t@.len(),
            marker_before(t@, t@.len() - 2, lo as int) == marker_before(t@, i as int, lo as int),
        decreases i,
    {
        if i < lo {
            return None;
        }
        if t[i] == EQUALS {
            return promoted_piece(t[i + 1], y);
        }
        if i == 0 {
            return None;
        }
        i -= 1;
    }
}

/// Position in the feature vector of square `(x, y)` in the plane of the
/// identity with index `j + 1`.
pub open spec fn plane_index(j: int, x: int, y: int) -> int {
    j * 64 + x * 8 + y
}

/// The entry of the feature vector for plane `j` and square `(x, y)`.
pub open spec fn occupancy(s: Seq<Piece>, j: int, x: int, y: int) -> u8 {
    if piece_index(s[sq(x, y)]) == j + 1 {
        1
    } else {
        0
    }
}

/// `v` is the feature vector of squares `s`.
pub open spec fn exports(s: Seq<Piece>, v: Seq<u8>) -> bool {
    &&& v.len() == PIECE_KINDS * 64
    &&& forall|j: int, x: int, y: int|
        0 <= j < PIECE_KINDS && on_board(x, y) ==> #[trigger] v[plane_index(j, x, y)] == occupancy(
            s,
            j,
            x,
            y,
        )
}

/// A found square as a pair of integers.
pub open spec fn cell(r: Option<(u8, u8)>) -> Option<(int, int)> {
    match r {
        Some(c) => Some((c.0 as int, c.1 as int)),
        None => None,
    }
}

/// The board went from `(s_before, p_before)` to `(s_after, p_after)` with
/// result `r` as `expected` says: on success to the position it gives, on
/// failure nowhere.
pub open spec fn follows(
    s_before: Seq<Piece>,
    p_before: CurrentPlayer,
    s_after: Seq<Piece>,
    p_after: CurrentPlayer,
    r: Result<(), MoveError>,
    expected: Result<Position, MoveError>,
) -> bool {
    match expected {
        Ok(pos) => r is Ok && s_after == pos.0 && p_after == pos.1,
        Err(e) => r == Err::<(), MoveError>(e) && s_after == s_before && p_after == p_before,
    }
}

/// Squares `(x, y)`: column `x` (file `h` is 0, file `a` is 7) and rank
/// `y` (rank 1 is 0), stored at `y * 8 + x`.
#[derive(Debug, Clone, Copy)]
pub struct BoardState {
    pieces: [Piece; 64],
    pub current_player: CurrentPlayer,
}

impl BoardState {
    /// The 64 squares, square `(x, y)` at `y * 8 + x`.
    pub closed spec fn squares(&self) -> Seq<Piece> {
        self.pieces@
    }

    /// The side to move.
    pub closed spec fn player(&self) -> CurrentPlayer {
        self.current_player
    }

    /// The standard starting position, White to move.
    pub fn init() -> (r: BoardState)
        ensures
            r.squares().len() == 64,
            forall|x: int, y: int| on_board(x, y) ==> r.squares()[sq(x, y)] == start_piece(x, y),
            r.player() == CurrentPlayer::White,
    {
        let wr = Piece::WhiteRook;
        let wn = Piece::WhiteKnight;
        let wb = Piece::WhiteBishop;
        let wp = Piece::WhitePawn;
        let br = Piece::BlackRook;
        let bn = Piece::BlackKnight;
        let bb = Piece::BlackBishop;
        let bp = Piece::BlackPawn;
        let e = Piece::Empty;
        let pieces: [Piece; 64] = [
            wr, wn, wb, Piece::WhiteKing, Piece::WhiteQueen, wb, wn, wr,
            wp, wp, wp, wp, wp, wp, wp, wp,
            e, e, e, e, e, e, e, e,
            e, e, e, e, e, e, e, e,
            e, e, e, e, e, e, e, e,
            e, e, e, e, e, e, e, e,
            bp, bp, bp, bp, bp, bp, bp, bp,
            br, bn, bb, Piece::BlackKing, Piece::BlackQueen, bb, bn, br,
        ];
        let r = BoardState { pieces, current_player: CurrentPlayer::White };
        assert forall|x: int, y: int| on_board(x, y) implies r.squares()[sq(x, y)] == start_piece(x, y) by {
            assert(0 <= sq(x, y) < 64);
        }
        r
    }

    /// The piece on square `(x, y)`.
    pub fn get_piece(&self, x: u8, y: u8) -> (r: Piece)
        requires
            x < 8,
            y < 8,
        ensures
            r == self.squares()[sq(x as int, y as int)],
    {
        self.pieces[(y as usize) * 8 + x as usize]
    }

    /// Overwrites square `position`; the side to move stays.
    fn set_piece(&mut self, position: (u8, u8), piece: Piece)
        requires
            position.0 < 8,
            position.1 < 8,
        ensures
            final(self).squares() == old(self).squares().update(
                sq(position.0 as int, position.1 as int),
                piece,
            ),
            final(self).player() == old(self).player(),
    {
        self.pieces[(position.1 as usize) * 8 + position.0 as usize] = piece;
    }

    /// Relocates the piece on `from` to `to` in its moved form, and passes
    /// the turn.
    fn move_piece(&mut self, from: (u8, u8), to: (u8, u8))
        requires
            from.0 < 8,
            from.1 < 8,
            to.0 < 8,
            to.1 < 8,
            old(self).squares()[sq(from.0 as int, from.1 as int)] != Piece::Empty,
        ensures
            final(self).squares() == relocated(
                old(self).squares(),
                (from.0 as int, from.1 as int),
                (to.0 as int, to.1 as int),
            ),
            final(self).player() == opponent(old(self).player()),
    {
        let mut piece = self.pieces[(from.1 as usize) * 8 + from.0 as usize];
        piece.has_moved();
        self.pieces[(from.1 as usize) * 8 + from.0 as usize] = Piece::Empty;
        self.pieces[(to.1 as usize) * 8 + to.0 as usize] = piece;
        self.current_player = self.current_player.other();
    }

    /// Reads the square written at `t[start..]`, after any `x` markers.
    fn get_position(t: &[u8], start: usize) -> (r: Result<(u8, u8), MoveError>)
        requires
            start <= t@.len(),
        ensures
            match square_at(t@, start as int) {
                Some(c) => r matches Ok(v) && v.0 as int == c.0 && v.1 as int == c.1,
                None => r == Err::<(u8, u8), MoveError>(MoveError::Parse),
            },
            r matches Ok(v) ==> v.0 < 8 && v.1 < 8,
    {
        let mut o: usize = start;
        while o < t.len() && t[o] == LOWER_X
            invariant
                start <= o <= t@.len(),
                skip_captures(t@, start as int) == skip_captures(t@, o as int),
            decreases t.len() - o,
        {
            o += 1;
        }
        if t.len() - o < 2 {
            return Err(MoveError::Parse);
        }
        let x = t[o];
        let y = t[o + 1];
        if x < LOWER_A || x > LOWER_H || y < DIGIT_1 || y > DIGIT_8 {
            return Err(MoveError::Parse);
        }
        Ok((7 - (x - LOWER_A), y - DIGIT_1))
    }

    /// The first wanted piece along the ray from `(x, y)` by `(dx, dy)`.
    fn ray(&self, x: u8, y: u8, dx: i8, dy: i8, wanted: (Piece, Piece)) -> (r: Option<(u8, u8)>)
        requires
            x < 8,
            y < 8,
            -1 <= dx <= 1,
            -1 <= dy <= 1,
        ensures
            cell(r) == ray_hit(self.squares(), x as int, y as int, dx as int, dy as int, wanted, 8),
            r matches Some(c) ==> c.0 < 8 && c.1 < 8 && one_of(
                self.squares()[sq(c.0 as int, c.1 as int)],
                wanted,
            ),
    {
        let mut cx: i8 = x as i8;
        let mut cy: i8 = y as i8;
        let mut fuel: u8 = 8;
        while fuel > 0
            invariant
                0 <= cx < 8,
                0 <= cy < 8,
                -1 <= dx <= 1,
                -1 <= dy <= 1,
                ray_hit(self.squares(), x as int, y as int, dx as int, dy as int, wanted, 8)
                    == ray_hit(self.squares(), cx as int, cy as int, dx as int, dy as int, wanted, fuel as nat),
            decreases fuel,
        {
            let nx: i8 = cx + dx;
            let ny: i8 = cy + dy;
            if nx < 0 || nx > 7 || ny < 0 || ny > 7 {
                return None;
            }
            let piece = self.get_piece(nx as u8, ny as u8);
            if piece == wanted.0 || piece == wanted.1 {
                return Some((nx as u8, ny as u8));
            }
            if piece != Piece::Empty {
                return None;
            }
            cx = nx;
            cy = ny;
            fuel -= 1;
        }
        None
    }

    /// Ray search from `(x, y)`: the hit of the first direction, in the order
    /// given, whose ray reaches a wanted piece before an edge or a blocker.
    fn find_piece(&self, x: u8, y: u8, dirs: &[(i8, i8)], wanted: (Piece, Piece)) -> (r: Option<(u8, u8)>)
        requires
            x < 8,
            y < 8,
            forall|i: int| 0 <= i < dirs@.len() ==> -1 <= #[trigger] dirs@[i].0 <= 1 && -1 <= dirs@[i].1 <= 1,
        ensures
            cell(r) == first_hit(self.squares(), x as int, y as int, dirs@, wanted, 0),
            r matches Some(c) ==> c.0 < 8 && c.1 < 8 && one_of(
                self.squares()[sq(c.0 as int, c.1 as int)],
                wanted,
            ),
    {
        let mut i: usize = 0;
        while i < dirs.len()
            invariant
                i <= dirs@.len(),
                x < 8,
                y < 8,
                forall|j: int| 0 <= j < dirs@.len() ==> -1 <= #[trigger] dirs@[j].0 <= 1 && -1 <= dirs@[j].1 <= 1,
                first_hit(self.squares(), x as int, y as int, dirs@, wanted, 0)
                    == first_hit(self.squares(), x as int, y as int, dirs@, wanted, i as int),
            decreases dirs.len() - i,
        {
            let d = dirs[i];
            let r = self.ray(x, y, d.0, d.1, wanted);
            if r.is_some() {
                return r;
            }
            i += 1;
        }
        None
    }

    /// `Q<square>`: the own queen found by ray search in all eight lines.
    fn queen_move_to(&mut self, t: &[u8]) -> (r: Result<(), MoveError>)
        ensures
            follows(
                old(self).squares(),
                old(self).player(),
                final(self).squares(),
                final(self).player(),
                r,
                queen_move(old(self).squares(), old(self).player(), t@),
            ),
    {
        if t.len() < 1 {
            return Err(MoveError::Parse);
        }
        let (x, y) = match Self::get_position(t, 1) {
            Ok(c) => c,
            Err(e) => return Err(e),
        };
        let q = if self.current_player == CurrentPlayer::White {
            Piece::WhiteQueen
        } else {
            Piece::BlackQueen
        };
        let dirs: [(i8, i8); 8] = [(-1, -1), (1, -1), (1, 1), (-1, 1), (-1, 0), (0, 1), (1, 0), (0, -1)];
        assert(dirs@ == all_lines());
        match self.find_piece(x, y, dirs.as_slice(), (q, q)) {
            None => Err(MoveError::Illegal),
            Some(from) => {
                self.move_piece(from, (x, y));
                Ok(())
            },
        }
    }

    /// `B<square>`: the own bishop found by ray search on the diagonals.
    fn bishop_move_to(&mut self, t: &[u8]) -> (r: Result<(), MoveError>)
        ensures
            follows(
                old(self).squares(),
                old(self).player(),
                final(self).squares(),
                final(self).player(),
                r,
                bishop_move(old(self).squares(), old(self).player(), t@),
            ),
    {
        if t.len() < 1 {
            return Err(MoveError::Parse);
        }
        let (x, y) = match Self::get_position(t, 1) {
            Ok(c) => c,
            Err(e) => return Err(e),
        };
        let b = if self.current_player == CurrentPlayer::White {
            Piece::WhiteBishop
        } else {
            Piece::BlackBishop
        };
        let dirs: [(i8, i8); 4] = [(-1, -1), (1, -1), (1, 1), (-1, 1)];
        assert(dirs@ == diagonals());
        match self.find_piece(x, y, dirs.as_slice(), (b, b)) {
            None => Err(MoveError::Illegal),
            Some(from) => {
                self.move_piece(from, (x, y));
                Ok(())
            },
        }
    }

    /// The first square of the 3x3 block around `(x, y)`, column by column,
    /// holding a wanted piece.
    fn king_source(&self, x: u8, y: u8, wanted: (Piece, Piece)) -> (r: Option<(u8, u8)>)
        requires
            x < 8,
            y < 8,
        ensures
            cell(r) == king_scan(self.squares(), x as int, y as int, wanted, 0, 0),
            r matches Some(c) ==> c.0 < 8 && c.1 < 8 && one_of(
                self.squares()[sq(c.0 as int, c.1 as int)],
                wanted,
            ),
    {
        let mut a: u8 = 0;
        while a < 3
            invariant
                a <= 3,
                x < 8,
                y < 8,
                king_scan(self.squares(), x as int, y as int, wanted, 0, 0)
                    == king_scan(self.squares(), x as int, y as int, wanted, a as int, 0),
            decreases 3 - a,
        {
            let mut b: u8 = 0;
            while b < 3
                invariant
                    a < 3,
                    b <= 3,
                    x < 8,
                    y < 8,
                    king_scan(self.squares(), x as int, y as int, wanted, 0, 0)
                        == king_scan(self.squares(), x as int, y as int, wanted, a as int, b as int),
                decreases 3 - b,
            {
                let nx: i8 = x as i8 - 1 + a as i8;
                let ny: i8 = y as i8 - 1 + b as i8;
                if 0 <= nx && nx < 8 && 0 <= ny && ny < 8 {
                    let piece = self.get_piece(nx as u8, ny as u8);
                    if piece == wanted.0 || piece == wanted.1 {
                        return Some((nx as u8, ny as u8));
                    }
                }
                b += 1;
            }
            a += 1;
        }
        None
    }

    /// `K<square>`: the own king on a square next to the destination.
    fn king_move_to(&mut self, t: &[u8]) -> (r: Result<(), MoveError>)
        ensures
            follows(
                old(self).squares(),
                old(self).player(),
                final(self).squares(),
                final(self).player(),
                r,
                king_move(old(self).squares(), old(self).player(), t@),
            ),
    {
        if t.len() < 1 {
            return Err(MoveError::Parse);
        }
        let (x, y) = match Self::get_position(t, 1) {
            Ok(c) => c,
            Err(e) => return Err(e),
        };
        let wanted = if self.current_player == CurrentPlayer::White {
            (Piece::WhiteKing, Piece::WhiteKingMoved)
        } else {
            (Piece::BlackKing, Piece::BlackKingMoved)
        };
        match self.king_source(x, y, wanted) {
            None => Err(MoveError::Illegal),
            Some(from) => {
                self.move_piece(from, (x, y));
                Ok(())
            },
        }
    }

    /// The first square of the 5x5 box around `(x, y)`, column by column,
    /// holding `knight` a knight's jump away, in column `col` if given.
    fn knight_source(&self, x: u8, y: u8, knight: Piece, col: Option<u8>) -> (r: Option<(u8, u8)>)
        requires
            x < 8,
            y < 8,
        ensures
            cell(r) == knight_scan(self.squares(), x as int, y as int, knight, opt_int(col), 0, 0),
            r matches Some(c) ==> c.0 < 8 && c.1 < 8 && self.squares()[sq(c.0 as int, c.1 as int)]
                == knight,
    {
        let mut a: u8 = 0;
        while a < 5
            invariant
                a <= 5,
                x < 8,
                y < 8,
                knight_scan(self.squares(), x as int, y as int, knight, opt_int(col), 0, 0)
                    == knight_scan(self.squares(), x as int, y as int, knight, opt_int(col), a as int, 0),
            decreases 5 - a,
        {
            let mut b: u8 = 0;
            while b < 5
                invariant
                    a < 5,
                    b <= 5,
                    x < 8,
                    y < 8,
                    knight_scan(self.squares(), x as int, y as int, knight, opt_int(col), 0, 0)
                        == knight_scan(
                        self.squares(),
                        x as int,
                        y as int,
                        knight,
                        opt_int(col),
                        a as int,
                        b as int,
                    ),
                decreases 5 - b,
            {
                let nx: i8 = x as i8 - 2 + a as i8;
                let ny: i8 = y as i8 - 2 + b as i8;
                let in_col = match col {
                    Some(c) => c as i16 == nx as i16,
                    None => true,
                };
                let jump = ((a == 0 || a == 4) && (b == 1 || b == 3)) || ((a == 1 || a == 3) && (b == 0
                    || b == 4));
                if 0 <= nx && nx < 8 && 0 <= ny && ny < 8 && in_col && jump {
                    if self.get_piece(nx as u8, ny as u8) == knight {
                        return Some((nx as u8, ny as u8));
                    }
                }
                b += 1;
            }
            a += 1;
        }
        None
    }

    /// `N[file][x]<square>`: the own knight a knight's jump from the
    /// destination, in the named file if one is given.
    fn knight_move_to(&mut self, t: &[u8]) -> (r: Result<(), MoveError>)
        ensures
            follows(
                old(self).squares(),
                old(self).player(),
                final(self).squares(),
                final(self).player(),
                r,
                knight_move(old(self).squares(), old(self).player(), t@),
            ),
    {
        if t.len() < 3 {
            return Err(MoveError::Parse);
        }
        let off: usize = if t[2] == LOWER_X {
            1
        } else {
            0
        };
        if t.len() <= 2 + off {
            return Err(MoveError::Parse);
        }
        let qualified = is_file_byte(t[1]) && is_file_byte(t[2 + off]);
        let col = if qualified {
            Some(7 - (t[1] - LOWER_A))
        } else {
            None
        };
        let start = if qualified {
            2 + off
        } else {
            1 + off
        };
        let (x, y) = match Self::get_position(t, start) {
            Ok(c) => c,
            Err(e) => return Err(e),
        };
        let knight = if self.current_player == CurrentPlayer::White {
            Piece::WhiteKnight
        } else {
            Piece::BlackKnight
        };
        match self.knight_source(x, y, knight, col) {
            None => Err(MoveError::Illegal),
            Some(from) => {
                self.move_piece(from, (x, y));
                Ok(())
            },
        }
    }

    /// The first rank of column `x`, other than `y`, holding a wanted piece.
    fn file_source(&self, x: u8, y: u8, wanted: (Piece, Piece)) -> (r: Option<u8>)
        requires
            x < 8,
            y < 8,
        ensures
            opt_int(r) == file_scan(self.squares(), x as int, y as int, wanted, 0),
            r matches Some(sy) ==> sy < 8 && one_of(self.squares()[sq(x as int, sy as int)], wanted),
    {
        let mut i: u8 = 0;
        while i < 8
            invariant
                i <= 8,
                x < 8,
                file_scan(self.squares(), x as int, y as int, wanted, 0) == file_scan(
                    self.squares(),
                    x as int,
                    y as int,
                    wanted,
                    i as int,
                ),
            decreases 8 - i,
        {
            if i != y {
                let piece = self.get_piece(x, i);
                if piece == wanted.0 || piece == wanted.1 {
                    return Some(i);
                }
            }
            i += 1;
        }
        None
    }

    /// `R[file][x]<square>`: with a file qualifier on the destination's file,
    /// the first own rook of that file; on another file, the piece on that
    /// file and the destination's rank; otherwise ray search on the lines.
    fn rook_move_to(&mut self, t: &[u8]) -> (r: Result<(), MoveError>)
        ensures
            follows(
                old(self).squares(),
                old(self).player(),
                final(self).squares(),
                final(self).player(),
                r,
                rook_move(old(self).squares(), old(self).player(), t@),
            ),
    {
        if t.len() < 3 {
            return Err(MoveError::Parse);
        }
        let off: usize = if t[2] == LOWER_X {
            1
        } else {
            0
        };
        if t.len() <= 2 + off {
            return Err(MoveError::Parse);
        }
        let wanted = if self.current_player == CurrentPlayer::White {
            (Piece::WhiteRook, Piece::WhiteRookMoved)
        } else {
            (Piece::BlackRook, Piece::BlackRookMoved)
        };
        if is_file_byte(t[1]) && is_file_byte(t[2 + off]) {
            let sx: u8 = 7 - (t[1] - LOWER_A);
            let (x, y) = match Self::get_position(t, 2 + off) {
                Ok(c) => c,
                Err(e) => return Err(e),
            };
            if sx == x {
                match self.file_source(sx, y, wanted) {
                    None => Err(MoveError::Illegal),
                    Some(sy) => {
                        self.move_piece((sx, sy), (x, y));
                        Ok(())
                    },
                }
            } else if self.get_piece(sx, y) == Piece::Empty {
                Err(MoveError::Illegal)
            } else {
                self.move_piece((sx, y), (x, y));
                Ok(())
            }
        } else {
            let (x, y) = match Self::get_position(t, 1) {
                Ok(c) => c,
                Err(e) => return Err(e),
            };
            let dirs: [(i8, i8); 4] = [(-1, 0), (0, 1), (1, 0), (0, -1)];
            assert(dirs@ == straights());
            match self.find_piece(x, y, dirs.as_slice(), wanted) {
                None => Err(MoveError::Illegal),
                Some(from) => {
                    self.move_piece(from, (x, y));
                    Ok(())
                },
            }
        }
    }

    /// Lands a pawn from `from` on `to`; on the last rank it becomes the
    /// piece that `t[lo..]` promotes it to.
    fn pawn_lands(&mut self, t: &[u8], lo: usize, from: (u8, u8), to: (u8, u8)) -> (r: Result<(), MoveError>)
        requires
            from.0 < 8,
            from.1 < 8,
            to.0 < 8,
            to.1 < 8,
            old(self).squares()[sq(from.0 as int, from.1 as int)] != Piece::Empty,
        ensures
            follows(
                old(self).squares(),
                old(self).player(),
                final(self).squares(),
                final(self).player(),
                r,
                pawn_lands(
                    old(self).squares(),
                    old(self).player(),
                    t@,
                    lo as int,
                    (from.0 as int, from.1 as int),
                    (to.0 as int, to.1 as int),
                ),
            ),
    {
        if to.1 == 0 || to.1 == 7 {
            match promotion_piece(t, lo, to.1) {
                None => Err(MoveError::Parse),
                Some(pc) => {
                    self.move_piece(from, to);
                    self.set_piece(to, pc);
                    Ok(())
                },
            }
        } else {
            self.move_piece(from, to);
            Ok(())
        }
    }

    /// `<square>`: the nearest own pawn up to two ranks behind the
    /// destination on its column.
    fn move_pawn(&mut self, t: &[u8]) -> (r: Result<(), MoveError>)
        ensures
            follows(
                old(self).squares(),
                old(self).player(),
                final(self).squares(),
                final(self).player(),
                r,
                pawn_move(old(self).squares(), old(self).player(), t@),
            ),
    {
        let (x, y) = match Self::get_position(t, 0) {
            Ok(c) => c,
            Err(e) => return Err(e),
        };
        let (pawn, pawn_moved) = if self.current_player == CurrentPlayer::White {
            (Piece::WhitePawn, Piece::WhitePawnMoved)
        } else {
            (Piece::BlackPawn, Piece::BlackPawnMoved)
        };
        let white = self.current_player == CurrentPlayer::White;
        let near: Option<u8> = if white {
            if y >= 1 { Some(y - 1) } else { None }
        } else {
            if y <= 6 { Some(y + 1) } else { None }
        };
        let far: Option<u8> = if white {
            if y >= 2 { Some(y - 2) } else { None }
        } else {
            if y <= 5 { Some(y + 2) } else { None }
        };
        if let Some(ny) = near {
            let piece = self.get_piece(x, ny);
            if piece == pawn || piece == pawn_moved {
                return self.pawn_lands(t, 0, (x, ny), (x, y));
            }
        }
        if let Some(fy) = far {
            let piece = self.get_piece(x, fy);
            if piece == pawn || piece == pawn_moved {
                return self.pawn_lands(t, 0, (x, fy), (x, y));
            }
        }
        Err(MoveError::Illegal)
    }

    /// `<file>x<square>`: the piece one rank behind the destination on the
    /// given file captures. An empty destination is en passant: the opposing
    /// moved pawn beside the source is removed first.
    fn capture_with_pawn(&mut self, t: &[u8]) -> (r: Result<(), MoveError>)
        requires
            t@.len() >= 4,
        ensures
            follows(
                old(self).squares(),
                old(self).player(),
                final(self).squares(),
                final(self).player(),
                r,
                pawn_capture(old(self).squares(), old(self).player(), t@),
            ),
    {
        let (x, y) = match Self::get_position(t, 2) {
            Ok(c) => c,
            Err(e) => return Err(e),
        };
        if !is_file_byte(t[0]) {
            return Err(MoveError::Parse);
        }
        let sx: u8 = 7 - (t[0] - LOWER_A);
        let white = self.current_player == CurrentPlayer::White;
        let sy: u8 = if white {
            if y == 0 {
                return Err(MoveError::Illegal);
            }
            y - 1
        } else {
            if y == 7 {
                return Err(MoveError::Illegal);
            }
            y + 1
        };
        if self.get_piece(x, y) == Piece::Empty {
            let passed = if white {
                Piece::BlackPawnMoved
            } else {
                Piece::WhitePawnMoved
            };
            if self.get_piece(x, sy) != passed {
                return Err(MoveError::Illegal);
            }
            if sx == x || self.get_piece(sx, sy) == Piece::Empty {
                return Err(MoveError::Illegal);
            }
            if (y == 0 || y == 7) && promotion_piece(t, 2, y).is_none() {
                return Err(MoveError::Parse);
            }
            self.set_piece((x, sy), Piece::Empty);
            self.pawn_lands(t, 2, (sx, sy), (x, y))
        } else {
            if self.get_piece(sx, sy) == Piece::Empty {
                return Err(MoveError::Illegal);
            }
            self.pawn_lands(t, 2, (sx, sy), (x, y))
        }
    }

    /// Castling of the side to move, short (`O-O`) or long (`O-O-O`).
    fn castle(&mut self, short: bool) -> (r: Result<(), MoveError>)
        ensures
            follows(
                old(self).squares(),
                old(self).player(),
                final(self).squares(),
                final(self).player(),
                r,
                castle(old(self).squares(), old(self).player(), short),
            ),
    {
        let white = self.current_player == CurrentPlayer::White;
        let rank: u8 = if white {
            0
        } else {
            7
        };
        let rook_x: u8 = if short {
            0
        } else {
            7
        };
        let king_to: u8 = if short {
            1
        } else {
            5
        };
        let rook_to: u8 = if short {
            2
        } else {
            4
        };
        let (king, rook) = if white {
            (Piece::WhiteKing, Piece::WhiteRook)
        } else {
            (Piece::BlackKing, Piece::BlackRook)
        };
        if self.get_piece(3, rank) != king || self.get_piece(rook_x, rank) != rook {
            return Err(MoveError::Illegal);
        }
        self.move_piece((3, rank), (king_to, rank));
        self.move_piece((rook_x, rank), (rook_to, rank));
        self.current_player = self.current_player.other();
        Ok(())
    }

    /// `O-O-O`: the king goes from column 3 to 5, the rook from 7 to 4.
    fn castle_long(&mut self) -> (r: Result<(), MoveError>)
        ensures
            follows(
                old(self).squares(),
                old(self).player(),
                final(self).squares(),
                final(self).player(),
                r,
                castle(old(self).squares(), old(self).player(), false),
            ),
    {
        self.castle(false)
    }

    /// `O-O`: the king goes from column 3 to 1, the rook from 0 to 2.
    fn castle_short(&mut self) -> (r: Result<(), MoveError>)
        ensures
            follows(
                old(self).squares(),
                old(self).player(),
                final(self).squares(),
                final(self).player(),
                r,
                castle(old(self).squares(), old(self).player(), true),
            ),
    {
        self.castle(true)
    }

    /// Plays one move token: finds the piece it names, moves it, and passes
    /// the turn. On failure the board is left as it was.
    pub fn make_move(&mut self, m: &str) -> (r: Result<(), MoveError>)
        ensures
            follows(
                old(self).squares(),
                old(self).player(),
                final(self).squares(),
                final(self).player(),
                r,
                play(old(self).squares(), old(self).player(), m.spec_bytes()),
            ),
    {
        let t = m.as_bytes();
        if t.len() == 0 {
            return Err(MoveError::Parse);
        }
        let c = t[0];
        if c == UPPER_Q {
            self.queen_move_to(t)
        } else if c == UPPER_N {
            self.knight_move_to(t)
        } else if c == UPPER_B {
            self.bishop_move_to(t)
        } else if c == UPPER_R {
            self.rook_move_to(t)
        } else if c == UPPER_K {
            self.king_move_to(t)
        } else if t.len() == 3 && t[0] == UPPER_O && t[1] == DASH && t[2] == UPPER_O {
            assert(t@ == short_castle_text());
            self.castle_short()
        } else if t.len() == 5 && t[0] == UPPER_O && t[1] == DASH && t[2] == UPPER_O && t[3] == DASH
            && t[4] == UPPER_O {
            assert(t@ == long_castle_text());
            self.castle_long()
        } else if t.len() >= 4 && t[1] == LOWER_X {
            self.capture_with_pawn(t)
        } else {
            self.move_pawn(t)
        }
    }

    /// One 0/1 occupancy plane of 64 entries for each non-empty identity,
    /// in enumeration order; within a plane, column by column, rank by rank.
    pub fn to_piece_vec(&self) -> (r: Vec<u8>)
        ensures
            exports(self.squares(), r@),
    {
        let mut r: Vec<u8> = Vec::new();
        let mut j: usize = 0;
        while j < PIECE_KINDS
            invariant
                j <= PIECE_KINDS,
                r@.len() == j * 64,
                forall|j2: int, x: int, y: int|
                    0 <= j2 < j && on_board(x, y) ==> #[trigger] r@[plane_index(j2, x, y)]
                        == occupancy(self.squares(), j2, x, y),
            decreases PIECE_KINDS - j,
        {
            let mut x: usize = 0;
            while x < 8
                invariant
                    j < PIECE_KINDS,
                    x <= 8,
                    r@.len() == j * 64 + x * 8,
                    forall|j2: int, x2: int, y: int|
                        ((0 <= j2 < j && on_board(x2, y)) || (j2 == j && 0 <= x2 < x && 0 <= y < 8))
                            ==> #[trigger] r@[plane_index(j2, x2, y)] == occupancy(self.squares(), j2, x2, y),
                decreases 8 - x,
            {
                let mut y: usize = 0;
                while y < 8
                    invariant
                        j < PIECE_KINDS,
                        x < 8,
                        y <= 8,
                        r@.len() == j * 64 + x * 8 + y,
                        forall|j2: int, x2: int, y2: int|
                            ((0 <= j2 < j && on_board(x2, y2)) || (j2 == j && 0 <= x2 < x && 0 <= y2 < 8)
                                || (j2 == j && x2 == x && 0 <= y2 < y)) ==> #[trigger] r@[plane_index(j2, x2, y2)]
                                == occupancy(self.squares(), j2, x2, y2),
                    decreases 8 - y,
                {
                    let here = self.pieces[y * 8 + x].index();
                    if here as usize == j + 1 {
                        r.push(1);
                    } else {
                        r.push(0);
                    }
                    y += 1;
                }
                x += 1;
            }
            j += 1;
        }
        r
    }
}

} // verus!
