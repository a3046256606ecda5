//! Properties of move resolution and of the feature export that hold for
//! every board.
use crate::board::{exports, occupancy, plane_index};
use crate::notation::{parse_token, Piece as NotationPiece};
use crate::piece::{moved_form, opponent, piece_index, CurrentPlayer, Piece, PIECE_KINDS};
use crate::rules::{
    file_index, first_hit, is_file, is_rank, knight_jump, knight_scan, on_board, one_of, own, play,
    rank_index, ray_hit, relocate_move, rooks, skip_captures, sq, square_at, straights, MoveError,
    DIGIT_1, LOWER_A, LOWER_X, UPPER_B, UPPER_K, UPPER_N, UPPER_O, UPPER_Q, UPPER_R,
};
use vstd::prelude::*;

verus! {

/// Relocating always passes the turn. Moving a piece from `a` to an empty
/// square `b` and back again restores every square, except that the piece
/// keeps its moved form, which a further move does not undo.
pub proof fn lemma_relocate_there_and_back(s: Seq<Piece>, p: CurrentPlayer, a: (int, int), b: (int, int))
    requires
        s.len() == 64,
        on_board(a.0, a.1),
        on_board(b.0, b.1),
        a != b,
        s[sq(a.0, a.1)] != Piece::Empty,
        s[sq(b.0, b.1)] == Piece::Empty,
    ensures
        relocate_move(s, p, a, b).1 == opponent(p),
        opponent(p) != p,
        relocate_move(relocate_move(s, p, a, b).0, opponent(p), b, a).1 == p,
        relocate_move(relocate_move(s, p, a, b).0, opponent(p), b, a).0 == s.update(
            sq(a.0, a.1),
            moved_form(s[sq(a.0, a.1)]),
        ),
        moved_form(moved_form(s[sq(a.0, a.1)])) == moved_form(s[sq(a.0, a.1)]),
{
    let there = relocate_move(s, p, a, b).0;
    let back = relocate_move(there, opponent(p), b, a).0;
    assert(sq(a.0, a.1) != sq(b.0, b.1));
    assert(back =~= s.update(sq(a.0, a.1), moved_form(s[sq(a.0, a.1)])));
}

/// Restricting the knight scan to the column of the knight it finds
/// unrestricted finds that same knight.
proof fn lemma_knight_scan_in_column(
    s: Seq<Piece>,
    x: int,
    y: int,
    knight: Piece,
    a: int,
    b: int,
    c: (int, int),
)
    requires
        knight_scan(s, x, y, knight, None, a, b) == Some(c),
    ensures
        knight_scan(s, x, y, knight, Some(c.0), a, b) == Some(c),
    decreases 5 - a, 5 - b,
{
    if a < 0 || a >= 5 || b < 0 {
    } else if b >= 5 {
        lemma_knight_scan_in_column(s, x, y, knight, a + 1, 0, c);
    } else if on_board(x - 2 + a, y - 2 + b) && s[sq(x - 2 + a, y - 2 + b)] == knight
        && knight_jump(a, b) {
    } else {
        lemma_knight_scan_in_column(s, x, y, knight, a, b + 1, c);
    }
}

/// The letter of the file stored in column `x`.
pub open spec fn file_letter(x: int) -> u8 {
    (LOWER_A + 7 - x) as u8
}

/// A knight move `N<square>` resolved on a board, written again with the
/// file of the knight it found (`N<file><square>`), parses as a knight move
/// to that square qualified by that file, and resolves on the same board to
/// the same knight and the same resulting position.
pub proof fn lemma_knight_round_trip(s: Seq<Piece>, p: CurrentPlayer, f: u8, r: u8, from: (int, int))
    requires
        s.len() == 64,
        is_file(f),
        is_rank(r),
        knight_scan(
            s,
            file_index(f),
            rank_index(r),
            own(p, Piece::WhiteKnight, Piece::BlackKnight),
            None,
            0,
            0,
        ) == Some(from),
    ensures
        0 <= from.0 < 8,
        parse_token(seq![UPPER_N, file_letter(from.0), f, r]) matches Ok(n) && n.piece
            == NotationPiece::Knight && n.from_col == Some((7 - from.0) as u8) && n.from_row is None
            && n.col == (f - LOWER_A) as u8 && n.row == (r - DIGIT_1) as u8,
        play(s, p, seq![UPPER_N, file_letter(from.0), f, r]) == play(s, p, seq![UPPER_N, f, r]),
        play(s, p, seq![UPPER_N, f, r]) == Ok::<_, MoveError>(
            relocate_move(s, p, from, (file_index(f), rank_index(r))),
        ),
{
    let knight = own(p, Piece::WhiteKnight, Piece::BlackKnight);
    lemma_knight_scan_found(s, file_index(f), rank_index(r), knight, None, 0, 0);
    lemma_knight_scan_in_column(s, file_index(f), rank_index(r), knight, 0, 0, from);
    let t1 = seq![UPPER_N, f, r];
    let t2 = seq![UPPER_N, file_letter(from.0), f, r];
    assert(skip_captures(t1, 1) == 1);
    assert(skip_captures(t2, 2) == 2);
    assert(file_index(file_letter(from.0)) == from.0);
}

/// A square the knight scan finds lies on the board.
proof fn lemma_knight_scan_found(
    s: Seq<Piece>,
    x: int,
    y: int,
    knight: Piece,
    col: Option<int>,
    a: int,
    b: int,
)
    ensures
        knight_scan(s, x, y, knight, col, a, b) matches Some(c) ==> on_board(c.0, c.1),
    decreases 5 - a, 5 - b,
{
    if a < 0 || a >= 5 || b < 0 {
    } else if b >= 5 {
        lemma_knight_scan_found(s, x, y, knight, col, a + 1, 0);
    } else {
        lemma_knight_scan_found(s, x, y, knight, col, a, b + 1);
    }
}

/// A rook found along a ray stays on the ray's rank when the ray runs along
/// a rank, and on its file when it runs along a file.
proof fn lemma_ray_hit_line(
    s: Seq<Piece>,
    x: int,
    y: int,
    dx: int,
    dy: int,
    wanted: (Piece, Piece),
    fuel: nat,
)
    ensures
        ray_hit(s, x, y, dx, dy, wanted, fuel) matches Some(c) ==> on_board(c.0, c.1) && one_of(
            s[sq(c.0, c.1)],
            wanted,
        ) && (dy == 0 ==> c.1 == y) && (dx == 0 ==> c.0 == x),
    decreases fuel,
{
    if fuel > 0 {
        lemma_ray_hit_line(s, x + dx, y + dy, dx, dy, wanted, (fuel - 1) as nat);
    }
}

/// The search along ranks and files finds a square on the destination's
/// rank or on its file.
proof fn lemma_first_hit_straight(s: Seq<Piece>, x: int, y: int, wanted: (Piece, Piece), i: int)
    ensures
        first_hit(s, x, y, straights(), wanted, i) matches Some(c) ==> on_board(c.0, c.1) && one_of(
            s[sq(c.0, c.1)],
            wanted,
        ) && (c.0 == x || c.1 == y),
    decreases straights().len() - i,
{
    if 0 <= i < straights().len() {
        let d = straights()[i];
        lemma_ray_hit_line(s, x, y, d.0 as int, d.1 as int, wanted, 8);
        lemma_first_hit_straight(s, x, y, wanted, i + 1);
    }
}

/// A rook move `R<square>` whose rook is found on another file (so on the
/// destination's rank), written again with that rook's file
/// (`R<file><square>`), resolves on the same board to the same rook and the
/// same resulting position.
pub proof fn lemma_rook_round_trip(s: Seq<Piece>, p: CurrentPlayer, f: u8, r: u8, from: (int, int))
    requires
        s.len() == 64,
        is_file(f),
        is_rank(r),
        first_hit(s, file_index(f), rank_index(r), straights(), rooks(p), 0) == Some(from),
        from.0 != file_index(f),
    ensures
        0 <= from.0 < 8,
        from.1 == rank_index(r),
        play(s, p, seq![UPPER_R, file_letter(from.0), f, r]) == play(s, p, seq![UPPER_R, f, r]),
        play(s, p, seq![UPPER_R, f, r]) == Ok::<_, MoveError>(
            relocate_move(s, p, from, (file_index(f), rank_index(r))),
        ),
{
    lemma_first_hit_straight(s, file_index(f), rank_index(r), rooks(p), 0);
    let t1 = seq![UPPER_R, f, r];
    let t2 = seq![UPPER_R, file_letter(from.0), f, r];
    assert(skip_captures(t1, 1) == 1);
    assert(skip_captures(t2, 2) == 2);
    assert(file_index(file_letter(from.0)) == from.0);
    assert(s[sq(from.0, from.1)] != Piece::Empty);
}

/// Of two directions whose rays both reach a wanted piece, the ray search
/// picks the hit of the one listed earlier, when no direction before it
/// hits.
pub proof fn lemma_earlier_direction_wins(
    s: Seq<Piece>,
    x: int,
    y: int,
    dirs: Seq<(i8, i8)>,
    wanted: (Piece, Piece),
    i: int,
    j: int,
)
    requires
        0 <= i < j < dirs.len(),
        ray_hit(s, x, y, dirs[i].0 as int, dirs[i].1 as int, wanted, 8) is Some,
        ray_hit(s, x, y, dirs[j].0 as int, dirs[j].1 as int, wanted, 8) is Some,
        forall|k: int|
            0 <= k < i ==> #[trigger] ray_hit(s, x, y, dirs[k].0 as int, dirs[k].1 as int, wanted, 8)
                is None,
    ensures
        first_hit(s, x, y, dirs, wanted, 0) == ray_hit(
            s,
            x,
            y,
            dirs[i].0 as int,
            dirs[i].1 as int,
            wanted,
            8,
        ),
{
    lemma_first_hit_skips(s, x, y, dirs, wanted, 0, i);
}

proof fn lemma_first_hit_skips(
    s: Seq<Piece>,
    x: int,
    y: int,
    dirs: Seq<(i8, i8)>,
    wanted: (Piece, Piece),
    k: int,
    i: int,
)
    requires
        0 <= k <= i < dirs.len(),
        forall|m: int|
            0 <= m < i ==> #[trigger] ray_hit(s, x, y, dirs[m].0 as int, dirs[m].1 as int, wanted, 8)
                is None,
    ensures
        first_hit(s, x, y, dirs, wanted, k) == first_hit(s, x, y, dirs, wanted, i),
    decreases i - k,
{
    if k < i {
        lemma_first_hit_skips(s, x, y, dirs, wanted, k + 1, i);
    }
}

/// In the feature vector of a board, an occupied square has a 1 in the
/// plane of its piece and a 0 in every other plane.
pub proof fn lemma_one_plane_per_square(s: Seq<Piece>, v: Seq<u8>, x: int, y: int)
    requires
        exports(s, v),
        on_board(x, y),
        s[sq(x, y)] != Piece::Empty,
    ensures
        v.len() == PIECE_KINDS * 64,
        1 <= piece_index(s[sq(x, y)]) <= PIECE_KINDS,
        v[plane_index(piece_index(s[sq(x, y)]) - 1, x, y)] == 1,
        forall|j: int|
            0 <= j < PIECE_KINDS && j != piece_index(s[sq(x, y)]) - 1 ==> #[trigger] v[plane_index(
                j,
                x,
                y,
            )] == 0,
{
    let j0 = piece_index(s[sq(x, y)]) - 1;
    assert(v[plane_index(j0, x, y)] == occupancy(s, j0, x, y));
    assert forall|j: int| 0 <= j < PIECE_KINDS && j != j0 implies #[trigger] v[plane_index(j, x, y)] == 0 by {
        assert(v[plane_index(j, x, y)] == occupancy(s, j, x, y));
    }
}

/// An empty token is a parse error.
pub proof fn lemma_empty_token_rejected(s: Seq<Piece>, p: CurrentPlayer)
    ensures
        play(s, p, Seq::<u8>::empty()) == Err::<(Seq<Piece>, CurrentPlayer), _>(
            MoveError::Parse,
        ),
{
}

/// A queen, bishop or king token, or a pawn advance, without a legal
/// destination square is a parse error.
pub proof fn lemma_missing_destination_rejected(s: Seq<Piece>, p: CurrentPlayer, t: Seq<u8>)
    requires
        t.len() > 0,
        t[0] == UPPER_Q || t[0] == UPPER_B || t[0] == UPPER_K || (t[0] != UPPER_N && t[0] != UPPER_R
            && t[0] != UPPER_O && (t.len() < 4 || t[1] != LOWER_X)),
        square_at(t, if t[0] == UPPER_Q || t[0] == UPPER_B || t[0] == UPPER_K { 1 } else { 0 }) is None,
    ensures
        play(s, p, t) == Err::<(Seq<Piece>, CurrentPlayer), _>(MoveError::Parse),
{
}

} // verus!
