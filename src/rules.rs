use vstd::prelude::*;

use crate::piece::{Color, Piece, PieceType};

verus! {

/// A board: 64 squares, each empty or holding a piece. Square `i` lies on row
/// `i / 8` and column `i % 8`; row 0 is rank 8 and column 0 is file A.
pub type Board = [Option<Piece>; 64];

/// The square reached from `pos` by moving `dx` columns and `dy` rows, if that
/// stays on the board (no wrapping round an edge).
pub open spec fn target(pos: int, dx: int, dy: int) -> Option<usize> {
    let r = pos / 8 + dy;
    let c = pos % 8 + dx;
    if 0 <= r < 8 && 0 <= c < 8 {
        Some((r * 8 + c) as usize)
    } else {
        None
    }
}

/// Square `t` holds a piece of color `c`.
pub open spec fn holds_color(b: Seq<Option<Piece>>, t: int, c: Color) -> bool {
    b[t] matches Some(q) && q.color == c
}

/// Square `t` holds a piece of the other color than `c`.
pub open spec fn holds_enemy_of(b: Seq<Option<Piece>>, t: int, c: Color) -> bool {
    b[t] matches Some(q) && q.color != c
}

/// The leap from `pos` by (`dx`, `dy`) for a piece of color `c`: the target
/// square, unless it is off the board or holds a piece of color `c`.
pub open spec fn leap(b: Seq<Option<Piece>>, c: Color, pos: int, dx: int, dy: int) -> Option<usize> {
    match target(pos, dx, dy) {
        Some(t) => if holds_color(b, t as int, c) {
            None
        } else {
            Some(t)
        },
        None => None,
    }
}

/// `s` with the square in `o` appended, if there is one.
pub open spec fn opt_push(s: Seq<usize>, o: Option<usize>) -> Seq<usize> {
    match o {
        Some(t) => s.push(t),
        None => s,
    }
}

/// The squares that a piece of color `c` slides over from `p` in direction
/// (`dx`, `dy`), at most `n` steps: each empty square, then the first occupied
/// one if it holds an enemy piece; never past the edge or past a piece.
pub open spec fn ray(b: Seq<Option<Piece>>, c: Color, p: int, dx: int, dy: int, n: nat) -> Seq<usize>
    decreases n,
{
    if n == 0 {
        seq![]
    } else {
        match target(p, dx, dy) {
            None => seq![],
            Some(t) => match b[t as int] {
                Some(q) => if q.color == c {
                    seq![]
                } else {
                    seq![t]
                },
                None => seq![t] + ray(b, c, t as int, dx, dy, (n - 1) as nat),
            },
        }
    }
}

/// Every square in `s` is on the board.
pub open spec fn on_board(s: Seq<usize>) -> bool {
    forall|k: int| 0 <= k < s.len() ==> s[k] < 64
}

/// The square reached from `pos` by (`dx`, `dy`), if it is on the board.
pub fn target_square(pos: usize, dx: i32, dy: i32) -> (r: Option<usize>)
    requires
        pos < 64,
        -7 <= dx <= 7,
        -7 <= dy <= 7,
    ensures
        r == target(pos as int, dx as int, dy as int),
        r matches Some(t) ==> t < 64,
{
    let row: i32 = (pos / 8) as i32 + dy;
    let col: i32 = (pos % 8) as i32 + dx;
    if 0 <= row && row < 8 && 0 <= col && col < 8 {
        Some((row * 8 + col) as usize)
    } else {
        None
    }
}

/// Appends the leap from `pos` by (`dx`, `dy`) for a piece of color `c`, if
/// it lands on the board and not on a piece of color `c`.
fn push_leap(b: &Board, c: Color, pos: usize, dx: i32, dy: i32, moves: &mut Vec<usize>)
    requires
        pos < 64,
        -7 <= dx <= 7,
        -7 <= dy <= 7,
        on_board(old(moves)@),
    ensures
        final(moves)@ == opt_push(old(moves)@, leap(b@, c, pos as int, dx as int, dy as int)),
        on_board(final(moves)@),
{
    if let Some(t) = target_square(pos, dx, dy) {
        match b[t] {
            Some(q) => {
                if q.color != c {
                    moves.push(t);
                }
            },
            None => moves.push(t),
        }
    }
}

/// Appends the squares of the ray from `start` in direction (`dx`, `dy`) for a
/// piece of color `c`, at most seven steps.
fn march(b: &Board, c: Color, start: usize, dx: i32, dy: i32, moves: &mut Vec<usize>)
    requires
        start < 64,
        -1 <= dx <= 1,
        -1 <= dy <= 1,
        on_board(old(moves)@),
    ensures
        final(moves)@ == old(moves)@ + ray(b@, c, start as int, dx as int, dy as int, 7),
        on_board(final(moves)@),
{
    let ghost goal = old(moves)@ + ray(b@, c, start as int, dx as int, dy as int, 7);
    let mut cur: usize = start;
    let mut n: usize = 7;
    assert(moves@ + ray(b@, c, cur as int, dx as int, dy as int, n as nat) == goal);
    while n > 0
        invariant
            cur < 64,
            n <= 7,
            -1 <= dx <= 1,
            -1 <= dy <= 1,
            on_board(moves@),
            moves@ + ray(b@, c, cur as int, dx as int, dy as int, n as nat) == goal,
        decreases n,
    {
        let ghost before = moves@;
        match target_square(cur, dx, dy) {
            None => {
                n = 0;
            },
            Some(t) => {
                match b[t] {
                    Some(q) => {
                        if q.color != c {
                            moves.push(t);
                        }
                        n = 0;
                    },
                    None => {
                        moves.push(t);
                        proof {
                            assert(before + ray(b@, c, cur as int, dx as int, dy as int, n as nat)
                                =~= moves@ + ray(b@, c, t as int, dx as int, dy as int, (n - 1) as nat));
                        }
                        cur = t;
                        n = n - 1;
                    },
                }
            },
        }
        assert(moves@ + ray(b@, c, cur as int, dx as int, dy as int, n as nat) =~= goal);
    }
    assert(moves@ =~= goal);
}

/// Rook destinations: rays up, down, left, right, in that order.
pub open spec fn rook_moves(b: Seq<Option<Piece>>, c: Color, p: int) -> Seq<usize> {
    ray(b, c, p, 0, -1, 7) + ray(b, c, p, 0, 1, 7) + ray(b, c, p, -1, 0, 7) + ray(b, c, p, 1, 0, 7)
}

/// Bishop destinations: rays up-left, up-right, down-left, down-right.
pub open spec fn bishop_moves(b: Seq<Option<Piece>>, c: Color, p: int) -> Seq<usize> {
    ray(b, c, p, -1, -1, 7) + ray(b, c, p, 1, -1, 7) + ray(b, c, p, -1, 1, 7) + ray(b, c, p, 1, 1, 7)
}

/// Knight destinations: the eight L-shaped leaps, in a fixed order.
pub open spec fn knight_moves(b: Seq<Option<Piece>>, c: Color, p: int) -> Seq<usize> {
    let s = opt_push(seq![], leap(b, c, p, -1, -2));
    let s = opt_push(s, leap(b, c, p, 1, -2));
    let s = opt_push(s, leap(b, c, p, -2, -1));
    let s = opt_push(s, leap(b, c, p, 2, -1));
    let s = opt_push(s, leap(b, c, p, -2, 1));
    let s = opt_push(s, leap(b, c, p, 2, 1));
    let s = opt_push(s, leap(b, c, p, -1, 2));
    opt_push(s, leap(b, c, p, 1, 2))
}

/// King destinations: the eight neighbouring squares, row by row.
pub open spec fn king_moves(b: Seq<Option<Piece>>, c: Color, p: int) -> Seq<usize> {
    let s = opt_push(seq![], leap(b, c, p, -1, -1));
    let s = opt_push(s, leap(b, c, p, 0, -1));
    let s = opt_push(s, leap(b, c, p, 1, -1));
    let s = opt_push(s, leap(b, c, p, -1, 0));
    let s = opt_push(s, leap(b, c, p, 1, 0));
    let s = opt_push(s, leap(b, c, p, -1, 1));
    let s = opt_push(s, leap(b, c, p, 0, 1));
    opt_push(s, leap(b, c, p, 1, 1))
}

/// The row direction in which pawns of color `c` advance: White towards
/// row 0, Black towards row 7.
pub open spec fn pawn_direction(c: Color) -> int {
    match c {
        Color::White => -1,
        Color::Black => 1,
    }
}

/// The row on which pawns of color `c` start.
pub open spec fn pawn_start_row(c: Color) -> int {
    match c {
        Color::White => 6,
        Color::Black => 1,
    }
}

/// The target of a forward pawn step from `p` by `dy` rows, if it is on the
/// board and empty.
pub open spec fn advance(b: Seq<Option<Piece>>, p: int, dy: int) -> Option<usize> {
    match target(p, 0, dy) {
        Some(t) => if b[t as int] is None {
            Some(t)
        } else {
            None
        },
        None => None,
    }
}

/// The target of a diagonal pawn step from `p`, if it holds an enemy piece.
pub open spec fn capture(b: Seq<Option<Piece>>, c: Color, p: int, dx: int, dy: int) -> Option<usize> {
    match target(p, dx, dy) {
        Some(t) => if holds_enemy_of(b, t as int, c) {
            Some(t)
        } else {
            None
        },
        None => None,
    }
}

/// Pawn destinations: one step forward onto an empty square; from the start
/// row, two steps forward where both squares are empty; then the forward-left
/// and forward-right diagonals where they hold an enemy piece.
pub open spec fn pawn_moves(b: Seq<Option<Piece>>, c: Color, p: int) -> Seq<usize> {
    let d = pawn_direction(c);
    let s = opt_push(seq![], advance(b, p, d));
    let s = if p / 8 == pawn_start_row(c) && advance(b, p, d) is Some {
        opt_push(s, advance(b, p, 2 * d))
    } else {
        s
    };
    let s = opt_push(s, capture(b, c, p, -1, d));
    opt_push(s, capture(b, c, p, 1, d))
}

/// The candidate destinations of the piece on square `p`, in generation order;
/// empty for an empty square. They respect board edges, blocking and own
/// pieces, but not the safety of the mover's king.
pub open spec fn moves_from(b: Seq<Option<Piece>>, p: int) -> Seq<usize> {
    match b[p] {
        None => seq![],
        Some(q) => match q.piece_type {
            PieceType::Pawn => pawn_moves(b, q.color, p),
            PieceType::Rook => rook_moves(b, q.color, p),
            PieceType::Knight => knight_moves(b, q.color, p),
            PieceType::Bishop => bishop_moves(b, q.color, p),
            PieceType::Queen => rook_moves(b, q.color, p) + bishop_moves(b, q.color, p),
            PieceType::King => king_moves(b, q.color, p),
        },
    }
}

/// Appends the rook rays from `start`.
fn push_rook_moves(b: &Board, c: Color, start: usize, moves: &mut Vec<usize>)
    requires
        start < 64,
        on_board(old(moves)@),
    ensures
        final(moves)@ == old(moves)@ + rook_moves(b@, c, start as int),
        on_board(final(moves)@),
{
    let ghost m0 = moves@;
    march(b, c, start, 0, -1, moves);
    let ghost r0 = ray(b@, c, start as int, 0, -1, 7);
    march(b, c, start, 0, 1, moves);
    let ghost r1 = ray(b@, c, start as int, 0, 1, 7);
    march(b, c, start, -1, 0, moves);
    let ghost r2 = ray(b@, c, start as int, -1, 0, 7);
    march(b, c, start, 1, 0, moves);
    let ghost r3 = ray(b@, c, start as int, 1, 0, 7);
    assert(moves@ =~= m0 + (r0 + r1 + r2 + r3));
}

/// Appends the bishop rays from `start`.
fn push_bishop_moves(b: &Board, c: Color, start: usize, moves: &mut Vec<usize>)
    requires
        start < 64,
        on_board(old(moves)@),
    ensures
        final(moves)@ == old(moves)@ + bishop_moves(b@, c, start as int),
        on_board(final(moves)@),
{
    let ghost m0 = moves@;
    march(b, c, start, -1, -1, moves);
    let ghost r0 = ray(b@, c, start as int, -1, -1, 7);
    march(b, c, start, 1, -1, moves);
    let ghost r1 = ray(b@, c, start as int, 1, -1, 7);
    march(b, c, start, -1, 1, moves);
    let ghost r2 = ray(b@, c, start as int, -1, 1, 7);
    march(b, c, start, 1, 1, moves);
    let ghost r3 = ray(b@, c, start as int, 1, 1, 7);
    assert(moves@ =~= m0 + (r0 + r1 + r2 + r3));
}

/// Knight destinations from `start` for a knight of color `c`.
fn knight_leaps(b: &Board, c: Color, start: usize) -> (r: Vec<usize>)
    requires
        start < 64,
    ensures
        r@ == knight_moves(b@, c, start as int),
        on_board(r@),
{
    let mut moves: Vec<usize> = Vec::new();
    push_leap(b, c, start, -1, -2, &mut moves);
    push_leap(b, c, start, 1, -2, &mut moves);
    push_leap(b, c, start, -2, -1, &mut moves);
    push_leap(b, c, start, 2, -1, &mut moves);
    push_leap(b, c, start, -2, 1, &mut moves);
    push_leap(b, c, start, 2, 1, &mut moves);
    push_leap(b, c, start, -1, 2, &mut moves);
    push_leap(b, c, start, 1, 2, &mut moves);
    moves
}

/// King destinations from `start` for a king of color `c`.
fn king_steps(b: &Board, c: Color, start: usize) -> (r: Vec<usize>)
    requires
        start < 64,
    ensures
        r@ == king_moves(b@, c, start as int),
        on_board(r@),
{
    let mut moves: Vec<usize> = Vec::new();
    push_leap(b, c, start, -1, -1, &mut moves);
    push_leap(b, c, start, 0, -1, &mut moves);
    push_leap(b, c, start, 1, -1, &mut moves);
    push_leap(b, c, start, -1, 0, &mut moves);
    push_leap(b, c, start, 1, 0, &mut moves);
    push_leap(b, c, start, -1, 1, &mut moves);
    push_leap(b, c, start, 0, 1, &mut moves);
    push_leap(b, c, start, 1, 1, &mut moves);
    moves
}

/// The target of a forward pawn step, if it is on the board and empty.
fn advance_square(b: &Board, pos: usize, dy: i32) -> (r: Option<usize>)
    requires
        pos < 64,
        -7 <= dy <= 7,
    ensures
        r == advance(b@, pos as int, dy as int),
        r matches Some(t) ==> t < 64,
{
    match target_square(pos, 0, dy) {
        Some(t) => if b[t].is_none() {
            Some(t)
        } else {
            None
        },
        None => None,
    }
}

/// The target of a diagonal pawn step, if it holds an enemy of color `c`.
fn capture_square(b: &Board, c: Color, pos: usize, dx: i32, dy: i32) -> (r: Option<usize>)
    requires
        pos < 64,
        -7 <= dx <= 7,
        -7 <= dy <= 7,
    ensures
        r == capture(b@, c, pos as int, dx as int, dy as int),
        r matches Some(t) ==> t < 64,
{
    match target_square(pos, dx, dy) {
        Some(t) => match b[t] {
            Some(q) => if q.color != c {
                Some(t)
            } else {
                None
            },
            None => None,
        },
        None => None,
    }
}

/// Pawn destinations from `start` for a pawn of color `c`.
fn pawn_steps(b: &Board, c: Color, start: usize) -> (r: Vec<usize>)
    requires
        start < 64,
    ensures
        r@ == pawn_moves(b@, c, start as int),
        on_board(r@),
{
    let d: i32 = match c {
        Color::White => -1,
        Color::Black => 1,
    };
    let start_row: usize = match c {
        Color::White => 6,
        Color::Black => 1,
    };
    let mut moves: Vec<usize> = Vec::new();
    let one = advance_square(b, start, d);
    if let Some(t) = one {
        moves.push(t);
    }
    if start / 8 == start_row && one.is_some() {
        if let Some(t) = advance_square(b, start, 2 * d) {
            moves.push(t);
        }
    }
    if let Some(t) = capture_square(b, c, start, -1, d) {
        moves.push(t);
    }
    if let Some(t) = capture_square(b, c, start, 1, d) {
        moves.push(t);
    }
    moves
}

/// The candidate destinations of the piece on `pos` (empty for an empty
/// square), as square indices in generation order.
pub fn piece_moves(b: &Board, pos: usize) -> (r: Vec<usize>)
    requires
        pos < 64,
    ensures
        r@ == moves_from(b@, pos as int),
        on_board(r@),
{
    match b[pos] {
        None => Vec::new(),
        Some(q) => match q.piece_type {
            PieceType::Pawn => pawn_steps(b, q.color, pos),
            PieceType::Rook => {
                let mut moves: Vec<usize> = Vec::new();
                push_rook_moves(b, q.color, pos, &mut moves);
                assert(moves@ =~= rook_moves(b@, q.color, pos as int));
                moves
            },
            PieceType::Knight => knight_leaps(b, q.color, pos),
            PieceType::Bishop => {
                let mut moves: Vec<usize> = Vec::new();
                push_bishop_moves(b, q.color, pos, &mut moves);
                assert(moves@ =~= bishop_moves(b@, q.color, pos as int));
                moves
            },
            PieceType::Queen => {
                let mut moves: Vec<usize> = Vec::new();
                push_rook_moves(b, q.color, pos, &mut moves);
                push_bishop_moves(b, q.color, pos, &mut moves);
                assert(moves@ =~= rook_moves(b@, q.color, pos as int) + bishop_moves(
                    b@,
                    q.color,
                    pos as int,
                ));
                moves
            },
            PieceType::King => king_steps(b, q.color, pos),
        },
    }
}

/// Every square of a ray is on the board.
proof fn lemma_ray_on_board(b: Seq<Option<Piece>>, c: Color, p: int, dx: int, dy: int, n: nat)
    ensures
        on_board(ray(b, c, p, dx, dy, n)),
    decreases n,
{
    if n > 0 {
        if let Some(t) = target(p, dx, dy) {
            lemma_ray_on_board(b, c, t as int, dx, dy, (n - 1) as nat);
        }
    }
}

/// Joining two sequences of board squares gives one.
proof fn lemma_concat_on_board(s: Seq<usize>, t: Seq<usize>)
    requires
        on_board(s),
        on_board(t),
    ensures
        on_board(s + t),
{
    assert forall|k: int| 0 <= k < (s + t).len() implies (s + t)[k] < 64 by {
        if k >= s.len() {
            assert((s + t)[k] == t[k - s.len()]);
        }
    }
}

/// Rook and bishop destinations are squares of the board.
proof fn lemma_slides_on_board(b: Seq<Option<Piece>>, c: Color, p: int)
    ensures
        on_board(rook_moves(b, c, p)),
        on_board(bishop_moves(b, c, p)),
{
    let r0 = ray(b, c, p, 0, -1, 7);
    let r1 = ray(b, c, p, 0, 1, 7);
    let r2 = ray(b, c, p, -1, 0, 7);
    let r3 = ray(b, c, p, 1, 0, 7);
    lemma_ray_on_board(b, c, p, 0, -1, 7);
    lemma_ray_on_board(b, c, p, 0, 1, 7);
    lemma_ray_on_board(b, c, p, -1, 0, 7);
    lemma_ray_on_board(b, c, p, 1, 0, 7);
    lemma_concat_on_board(r0, r1);
    lemma_concat_on_board(r0 + r1, r2);
    lemma_concat_on_board(r0 + r1 + r2, r3);
    let d0 = ray(b, c, p, -1, -1, 7);
    let d1 = ray(b, c, p, 1, -1, 7);
    let d2 = ray(b, c, p, -1, 1, 7);
    let d3 = ray(b, c, p, 1, 1, 7);
    lemma_ray_on_board(b, c, p, -1, -1, 7);
    lemma_ray_on_board(b, c, p, 1, -1, 7);
    lemma_ray_on_board(b, c, p, -1, 1, 7);
    lemma_ray_on_board(b, c, p, 1, 1, 7);
    lemma_concat_on_board(d0, d1);
    lemma_concat_on_board(d0 + d1, d2);
    lemma_concat_on_board(d0 + d1 + d2, d3);
}

/// Appending a square of the board, if any, keeps a sequence on the board.
proof fn lemma_push_on_board(s: Seq<usize>, o: Option<usize>)
    requires
        on_board(s),
        o matches Some(t) ==> t < 64,
    ensures
        on_board(opt_push(s, o)),
{
    if let Some(t) = o {
        assert forall|k: int| 0 <= k < s.push(t).len() implies s.push(t)[k] < 64 by {
            if k < s.len() {
                assert(s.push(t)[k] == s[k]);
            }
        }
    }
}

/// Knight destinations are squares of the board.
proof fn lemma_knight_on_board(b: Seq<Option<Piece>>, c: Color, p: int)
    ensures
        on_board(knight_moves(b, c, p)),
{
    let s0 = opt_push(seq![], leap(b, c, p, -1, -2));
    lemma_push_on_board(seq![], leap(b, c, p, -1, -2));
    let s1 = opt_push(s0, leap(b, c, p, 1, -2));
    lemma_push_on_board(s0, leap(b, c, p, 1, -2));
    let s2 = opt_push(s1, leap(b, c, p, -2, -1));
    lemma_push_on_board(s1, leap(b, c, p, -2, -1));
    let s3 = opt_push(s2, leap(b, c, p, 2, -1));
    lemma_push_on_board(s2, leap(b, c, p, 2, -1));
    let s4 = opt_push(s3, leap(b, c, p, -2, 1));
    lemma_push_on_board(s3, leap(b, c, p, -2, 1));
    let s5 = opt_push(s4, leap(b, c, p, 2, 1));
    lemma_push_on_board(s4, leap(b, c, p, 2, 1));
    let s6 = opt_push(s5, leap(b, c, p, -1, 2));
    lemma_push_on_board(s5, leap(b, c, p, -1, 2));
    let s7 = opt_push(s6, leap(b, c, p, 1, 2));
    lemma_push_on_board(s6, leap(b, c, p, 1, 2));
}

/// King destinations are squares of the board.
proof fn lemma_king_on_board(b: Seq<Option<Piece>>, c: Color, p: int)
    ensures
        on_board(king_moves(b, c, p)),
{
    let s0 = opt_push(seq![], leap(b, c, p, -1, -1));
    lemma_push_on_board(seq![], leap(b, c, p, -1, -1));
    let s1 = opt_push(s0, leap(b, c, p, 0, -1));
    lemma_push_on_board(s0, leap(b, c, p, 0, -1));
    let s2 = opt_push(s1, leap(b, c, p, 1, -1));
    lemma_push_on_board(s1, leap(b, c, p, 1, -1));
    let s3 = opt_push(s2, leap(b, c, p, -1, 0));
    lemma_push_on_board(s2, leap(b, c, p, -1, 0));
    let s4 = opt_push(s3, leap(b, c, p, 1, 0));
    lemma_push_on_board(s3, leap(b, c, p, 1, 0));
    let s5 = opt_push(s4, leap(b, c, p, -1, 1));
    lemma_push_on_board(s4, leap(b, c, p, -1, 1));
    let s6 = opt_push(s5, leap(b, c, p, 0, 1));
    lemma_push_on_board(s5, leap(b, c, p, 0, 1));
    let s7 = opt_push(s6, leap(b, c, p, 1, 1));
    lemma_push_on_board(s6, leap(b, c, p, 1, 1));
}

/// Pawn destinations are squares of the board.
proof fn lemma_pawn_on_board(b: Seq<Option<Piece>>, c: Color, p: int)
    ensures
        on_board(pawn_moves(b, c, p)),
{
    let d = pawn_direction(c);
    let s0 = opt_push(seq![], advance(b, p, d));
    lemma_push_on_board(seq![], advance(b, p, d));
    let s1 = if p / 8 == pawn_start_row(c) && advance(b, p, d) is Some {
        lemma_push_on_board(s0, advance(b, p, 2 * d));
        opt_push(s0, advance(b, p, 2 * d))
    } else {
        s0
    };
    let s2 = opt_push(s1, capture(b, c, p, -1, d));
    lemma_push_on_board(s1, capture(b, c, p, -1, d));
    lemma_push_on_board(s2, capture(b, c, p, 1, d));
}

/// Every candidate destination of any piece is a square of the board.
pub proof fn lemma_moves_on_board(b: Seq<Option<Piece>>, p: int)
    ensures
        on_board(moves_from(b, p)),
{
    if let Some(q) = b[p] {
        match q.piece_type {
            PieceType::Pawn => lemma_pawn_on_board(b, q.color, p),
            PieceType::Rook => lemma_slides_on_board(b, q.color, p),
            PieceType::Knight => lemma_knight_on_board(b, q.color, p),
            PieceType::Bishop => lemma_slides_on_board(b, q.color, p),
            PieceType::Queen => {
                lemma_slides_on_board(b, q.color, p);
                lemma_concat_on_board(rook_moves(b, q.color, p), bishop_moves(b, q.color, p));
            },
            PieceType::King => lemma_king_on_board(b, q.color, p),
        }
    }
}

} // verus!
