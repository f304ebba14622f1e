//! Facts about the rules that hold of every game and every move.
use vstd::prelude::*;

use crate::game::{
    apply_move, king_attacked, move_outcome, reaches_king, start_board, start_square,
    back_rank, GameModel,
};
use crate::notation::{file_letters, file_value, parse_notation};
use crate::piece::{opponent, Color, GameState, MoveError, Piece, PieceType};
use crate::rules::moves_from;

verus! {

/// In the starting position White holds rows 6 and 7 and Black rows 0 and 1,
/// each with pawns on the inner row and the back rank ordered rook, knight,
/// bishop, queen, king, bishop, knight, rook; rows 2 to 5 are empty.
pub proof fn lemma_start_position(i: int)
    requires
        0 <= i < 64,
    ensures
        i / 8 == 0 ==> start_board()[i] == Some(
            Piece { color: Color::Black, piece_type: back_rank()[i % 8] },
        ),
        i / 8 == 1 ==> start_board()[i] == Some(
            Piece { color: Color::Black, piece_type: PieceType::Pawn },
        ),
        2 <= i / 8 <= 5 ==> start_board()[i] is None,
        i / 8 == 6 ==> start_board()[i] == Some(
            Piece { color: Color::White, piece_type: PieceType::Pawn },
        ),
        i / 8 == 7 ==> start_board()[i] == Some(
            Piece { color: Color::White, piece_type: back_rank()[i % 8] },
        ),
        back_rank() == seq![
            PieceType::Rook,
            PieceType::Knight,
            PieceType::Bishop,
            PieceType::Queen,
            PieceType::King,
            PieceType::Bishop,
            PieceType::Knight,
            PieceType::Rook,
        ],
{
}

/// Once a move by one side is committed, the other side is to move: a second
/// move by a piece of the first side is refused as out of turn.
pub proof fn lemma_turns_alternate(g: GameModel, from: int, to: int, from2: int, to2: int)
    requires
        0 <= from < 64,
        0 <= to < 64,
        move_outcome(g, from, to) is Ok,
        move_outcome(g, from, to)->Ok_0.board[from2] matches Some(p) && p.color == g.active,
    ensures
        move_outcome(g, from, to)->Ok_0.active == opponent(g.active),
        move_outcome(move_outcome(g, from, to)->Ok_0, from2, to2) == Err::<GameModel, MoveError>(
            MoveError::WrongColorToMove,
        ),
{
}

/// A committed move whose piece, from its new square, reaches the opposing
/// king yields check, unless the move itself took a king.
pub proof fn lemma_move_gives_check(g: GameModel, from: int, to: int)
    requires
        0 <= from < 64,
        0 <= to < 64,
        move_outcome(g, from, to) is Ok,
        !(g.board[to] matches Some(q) && q.piece_type == PieceType::King),
        reaches_king(
            apply_move(g.board, from, to),
            moves_from(apply_move(g.board, from, to), to),
            opponent(g.active),
        ),
    ensures
        move_outcome(g, from, to)->Ok_0.state == GameState::Check,
{
}

/// A committed move onto a square holding a king ends the game.
pub proof fn lemma_king_capture_ends_game(g: GameModel, from: int, to: int)
    requires
        0 <= from < 64,
        0 <= to < 64,
        move_outcome(g, from, to) is Ok,
        g.board[to] matches Some(q) && q.piece_type == PieceType::King,
    ensures
        move_outcome(g, from, to)->Ok_0.state == GameState::GameOver,
{
}

/// Outside check, a move of the side to move, to one of its candidate
/// squares, that leaves its own king attackable is refused.
pub proof fn lemma_self_check_refused(g: GameModel, from: int, to: int)
    requires
        0 <= from < 64,
        0 <= to < 64,
        g.board[from] matches Some(p) && p.color == g.active,
        moves_from(g.board, from).contains(to as usize),
        g.state != GameState::Check,
        king_attacked(apply_move(g.board, from, to), g.active),
    ensures
        move_outcome(g, from, to) == Err::<GameModel, MoveError>(MoveError::SelfCheckViolation),
{
}

/// In the starting position a White pawn can advance one or two squares and
/// has nothing to capture.
pub proof fn lemma_white_pawn_opening(col: int)
    requires
        0 <= col < 8,
    ensures
        moves_from(start_board(), 48 + col) == seq![(40 + col) as usize, (32 + col) as usize],
{
    let b = start_board();
    assert(b[48 + col] == start_square(48 + col));
    assert(b[40 + col] == start_square(40 + col));
    assert(b[32 + col] == start_square(32 + col));
    assert(moves_from(b, 48 + col) =~= seq![(40 + col) as usize, (32 + col) as usize]);
}

/// In the starting position a Black pawn can advance one or two squares and
/// has nothing to capture.
pub proof fn lemma_black_pawn_opening(col: int)
    requires
        0 <= col < 8,
    ensures
        moves_from(start_board(), 8 + col) == seq![(16 + col) as usize, (24 + col) as usize],
{
    let b = start_board();
    assert(b[8 + col] == start_square(8 + col));
    assert(b[16 + col] == start_square(16 + col));
    assert(b[24 + col] == start_square(24 + col));
    assert(moves_from(b, 8 + col) =~= seq![(16 + col) as usize, (24 + col) as usize]);
}

/// In the starting position each knight has exactly the two jumps onto the
/// empty row in front of its own pawns.
pub proof fn lemma_knight_opening()
    ensures
        moves_from(start_board(), 57) == seq![40usize, 42usize],
        moves_from(start_board(), 62) == seq![45usize, 47usize],
        moves_from(start_board(), 1) == seq![16usize, 18usize],
        moves_from(start_board(), 6) == seq![21usize, 23usize],
{
    let b = start_board();
    assert(moves_from(b, 57) =~= seq![40usize, 42usize]);
    assert(moves_from(b, 62) =~= seq![45usize, 47usize]);
    assert(moves_from(b, 1) =~= seq![16usize, 18usize]);
    assert(moves_from(b, 6) =~= seq![21usize, 23usize]);
}

/// In the starting position no rook can move: its own pieces block it on
/// every side that is not the board's edge.
pub proof fn lemma_rooks_blocked_at_start()
    ensures
        moves_from(start_board(), 0).len() == 0,
        moves_from(start_board(), 7).len() == 0,
        moves_from(start_board(), 56).len() == 0,
        moves_from(start_board(), 63).len() == 0,
{
    let b = start_board();
    assert(moves_from(b, 0) =~= seq![]);
    assert(moves_from(b, 7) =~= seq![]);
    assert(moves_from(b, 56) =~= seq![]);
    assert(moves_from(b, 63) =~= seq![]);
}

/// In the starting position the squares named on ranks 1 and 2 hold White's
/// pieces and those named on ranks 7 and 8 hold Black's.
pub proof fn lemma_start_ranks(col: int)
    requires
        0 <= col < 8,
    ensures
        parse_notation(seq![file_letters()[col], '1']) == Some(56 + col),
        parse_notation(seq![file_letters()[col], '2']) == Some(48 + col),
        parse_notation(seq![file_letters()[col], '7']) == Some(8 + col),
        parse_notation(seq![file_letters()[col], '8']) == Some(col),
        start_board()[56 + col] matches Some(p) && p.color == Color::White,
        start_board()[48 + col] matches Some(p) && p.color == Color::White,
        start_board()[8 + col] matches Some(p) && p.color == Color::Black,
        start_board()[col] matches Some(p) && p.color == Color::Black,
{
    let f = file_letters()[col];
    assert(file_value(f) == Some(col));
}

} // verus!
