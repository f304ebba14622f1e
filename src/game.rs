use vstd::prelude::*;

use crate::notation::{an_to_index, index_to_an, notation_of, parse_notation};
use crate::piece::{opponent, Color, GameState, MoveError, Piece, PieceType};
use crate::render::{board_picture, board_text};
use crate::rules::{holds_enemy_of, moves_from, on_board, piece_moves, Board};

verus! {

/// What a game is, abstractly: its state, the side to move and the squares.
pub ghost struct GameModel {
    pub state: GameState,
    pub active: Color,
    pub board: Seq<Option<Piece>>,
}

/// The kinds of piece on a back rank, by column.
pub open spec fn back_rank() -> Seq<PieceType> {
    seq![
        PieceType::Rook,
        PieceType::Knight,
        PieceType::Bishop,
        PieceType::Queen,
        PieceType::King,
        PieceType::Bishop,
        PieceType::Knight,
        PieceType::Rook,
    ]
}

/// What square `i` holds in the starting position: Black on rows 0 and 1,
/// White on rows 6 and 7, pawns on the inner of the two rows.
pub open spec fn start_square(i: int) -> Option<Piece> {
    let row = i / 8;
    let col = i % 8;
    if row == 0 {
        Some(Piece { color: Color::Black, piece_type: back_rank()[col] })
    } else if row == 1 {
        Some(Piece { color: Color::Black, piece_type: PieceType::Pawn })
    } else if row == 6 {
        Some(Piece { color: Color::White, piece_type: PieceType::Pawn })
    } else if row == 7 {
        Some(Piece { color: Color::White, piece_type: back_rank()[col] })
    } else {
        None
    }
}

/// The starting position.
pub open spec fn start_board() -> Seq<Option<Piece>> {
    Seq::new(64, |i: int| start_square(i))
}

/// Square `t` holds the king of color `c`.
pub open spec fn is_king_of(b: Seq<Option<Piece>>, t: int, c: Color) -> bool {
    b[t] matches Some(q) && q.piece_type == PieceType::King && q.color == c
}

/// One of the squares in `ms` holds the king of color `c`.
pub open spec fn reaches_king(b: Seq<Option<Piece>>, ms: Seq<usize>, c: Color) -> bool {
    exists|k: int| 0 <= k < ms.len() && is_king_of(b, ms[k] as int, c)
}

/// Some piece of the other color than `c` has the king of color `c` among
/// its candidate destinations.
pub open spec fn king_attacked(b: Seq<Option<Piece>>, c: Color) -> bool {
    exists|i: int| 0 <= i < 64 && holds_enemy_of(b, i, c) && reaches_king(b, moves_from(b, i), c)
}

/// The board after the piece on `from` moves to `to`, replacing whatever
/// stood there.
pub open spec fn apply_move(b: Seq<Option<Piece>>, from: int, to: int) -> Seq<Option<Piece>> {
    b.update(to, b[from]).update(from, None)
}

/// The state after a committed move from `from` to `to` on board `b`: game
/// over where it took a king, check where the moved piece now reaches the
/// opposing king, in progress otherwise.
pub open spec fn state_after(b: Seq<Option<Piece>>, c: Color, from: int, to: int) -> GameState {
    let nb = apply_move(b, from, to);
    if b[to] matches Some(q) && q.piece_type == PieceType::King {
        GameState::GameOver
    } else if reaches_king(nb, moves_from(nb, to), opponent(c)) {
        GameState::Check
    } else {
        GameState::InProgress
    }
}

/// The result of asking to move the piece on `from` to `to`: the game after
/// the move, or why it is refused. The own-king test is not made while the
/// game is in check.
pub open spec fn move_outcome(g: GameModel, from: int, to: int) -> Result<GameModel, MoveError> {
    match g.board[from] {
        None => Err(MoveError::NoPieceAtSource),
        Some(p) => if p.color != g.active {
            Err(MoveError::WrongColorToMove)
        } else if !moves_from(g.board, from).contains(to as usize) {
            Err(MoveError::IllegalDestination)
        } else if g.state != GameState::Check && king_attacked(apply_move(g.board, from, to), p.color) {
            Err(MoveError::SelfCheckViolation)
        } else {
            Ok(
                GameModel {
                    state: state_after(g.board, p.color, from, to),
                    active: opponent(p.color),
                    board: apply_move(g.board, from, to),
                },
            )
        },
    }
}

/// `v` holds the names of the squares in `ms`, in the same order.
pub open spec fn names_of(v: Seq<String>, ms: Seq<usize>) -> bool {
    &&& v.len() == ms.len()
    &&& forall|k: int| 0 <= k < ms.len() ==> #[trigger] v[k]@ == notation_of(ms[k] as int)
}

/// The result of asking for the candidate destinations of the square named `s`.
pub open spec fn moves_outcome(g: GameModel, s: Seq<char>) -> Result<Seq<usize>, MoveError> {
    match parse_notation(s) {
        None => Err(MoveError::InvalidNotation),
        Some(i) => if g.board[i] is None {
            Err(MoveError::NoPieceAtSource)
        } else {
            Ok(moves_from(g.board, i))
        },
    }
}

/// The board after the piece on `i` becomes a `kind`, keeping its color.
pub open spec fn promote(b: Seq<Option<Piece>>, i: int, kind: PieceType) -> Seq<Option<Piece>> {
    b.update(i, Some(Piece { color: b[i]->Some_0.color, piece_type: kind }))
}

/// A chess game: board, side to move and state.
pub struct Game {
    state: GameState,
    active_color: Color,
    board: Board,
}

impl View for Game {
    type V = GameModel;

    closed spec fn view(&self) -> GameModel {
        GameModel { state: self.state, active: self.active_color, board: self.board@ }
    }
}

/// A game's board has one entry for each of the 64 squares.
pub proof fn lemma_board_squares(g: &Game)
    ensures
        g@.board.len() == 64,
{
}

/// What square `i` holds in the starting position.
fn start_piece(i: usize) -> (r: Option<Piece>)
    requires
        i < 64,
    ensures
        r == start_square(i as int),
{
    let row = i / 8;
    let kind = match i % 8 {
        0 | 7 => PieceType::Rook,
        1 | 6 => PieceType::Knight,
        2 | 5 => PieceType::Bishop,
        3 => PieceType::Queen,
        _ => PieceType::King,
    };
    if row == 0 {
        Some(Piece { color: Color::Black, piece_type: kind })
    } else if row == 1 {
        Some(Piece { color: Color::Black, piece_type: PieceType::Pawn })
    } else if row == 6 {
        Some(Piece { color: Color::White, piece_type: PieceType::Pawn })
    } else if row == 7 {
        Some(Piece { color: Color::White, piece_type: kind })
    } else {
        None
    }
}

/// Whether one of the squares in `ms` holds the king of color `c`.
fn hits_king(b: &Board, ms: &Vec<usize>, c: Color) -> (r: bool)
    requires
        on_board(ms@),
    ensures
        r == reaches_king(b@, ms@, c),
{
    let mut k: usize = 0;
    while k < ms.len()
        invariant
            k <= ms@.len(),
            on_board(ms@),
            forall|j: int| 0 <= j < k ==> !is_king_of(b@, #[trigger] ms@[j] as int, c),
        decreases ms@.len() - k,
    {
        let t = ms[k];
        if let Some(q) = b[t] {
            if q.piece_type == PieceType::King && q.color == c {
                assert(is_king_of(b@, ms@[k as int] as int, c));
                return true;
            }
        }
        k += 1;
    }
    false
}

/// Whether some piece of the other color than `c` reaches the king of color `c`.
fn king_in_danger(b: &Board, c: Color) -> (r: bool)
    ensures
        r == king_attacked(b@, c),
{
    let mut i: usize = 0;
    while i < 64
        invariant
            i <= 64,
            forall|j: int|
                0 <= j < i ==> !(holds_enemy_of(b@, j, c) && #[trigger] reaches_king(
                    b@,
                    moves_from(b@, j),
                    c,
                )),
        decreases 64 - i,
    {
        if let Some(q) = b[i] {
            if q.color != c {
                let ms = piece_moves(b, i);
                if hits_king(b, &ms, c) {
                    assert(holds_enemy_of(b@, i as int, c) && reaches_king(
                        b@,
                        moves_from(b@, i as int),
                        c,
                    ));
                    return true;
                }
            }
        }
        i += 1;
    }
    false
}

/// The names of the squares in `ms`.
fn square_names(ms: &Vec<usize>) -> (r: Vec<String>)
    requires
        on_board(ms@),
    ensures
        names_of(r@, ms@),
{
    let mut names: Vec<String> = Vec::new();
    let mut k: usize = 0;
    while k < ms.len()
        invariant
            k <= ms@.len(),
            on_board(ms@),
            names_of(names@, ms@.take(k as int)),
        decreases ms@.len() - k,
    {
        names.push(index_to_an(ms[k]));
        k += 1;
        assert(names_of(names@, ms@.take(k as int))) by {
            assert forall|j: int| 0 <= j < k implies #[trigger] names@[j]@ == notation_of(
                ms@.take(k as int)[j] as int,
            ) by {
                if j < k - 1 {
                    assert(ms@.take(k as int)[j] == ms@.take(k - 1)[j]);
                }
            }
        }
    }
    assert(ms@.take(ms@.len() as int) =~= ms@);
    names
}

/// Whether `to` is among the squares in `ms`.
fn among(ms: &Vec<usize>, to: usize) -> (r: bool)
    ensures
        r == ms@.contains(to),
{
    let mut k: usize = 0;
    while k < ms.len()
        invariant
            k <= ms@.len(),
            forall|j: int| 0 <= j < k ==> ms@[j] != to,
        decreases ms@.len() - k,
    {
        if ms[k] == to {
            return true;
        }
        k += 1;
    }
    false
}

impl Game {
    /// A game in the starting position, White to move, in progress.
    pub fn new() -> (r: Game)
        ensures
            r@.state == GameState::InProgress,
            r@.active == Color::White,
            r@.board == start_board(),
    {
        let mut board: Board = [None; 64];
        let mut i: usize = 0;
        while i < 64
            invariant
                i <= 64,
                board@.len() == 64,
                forall|j: int| 0 <= j < i ==> board@[j] == start_square(j),
            decreases 64 - i,
        {
            board[i] = start_piece(i);
            i += 1;
        }
        let g = Game { state: GameState::InProgress, active_color: Color::White, board };
        assert(g@.board =~= start_board());
        g
    }

    /// The current game state.
    pub fn get_game_state(&self) -> (r: GameState)
        ensures
            r == self@.state,
    {
        self.state
    }

    /// A picture of the board, one line per row from row 0.
    pub fn render(&self) -> (r: String)
        ensures
            r@ == board_text(self@.board),
    {
        board_picture(&self.board)
    }

    /// The side to move.
    pub fn active_color(&self) -> (r: Color)
        ensures
            r == self@.active,
    {
        self.active_color
    }

    /// What square `index` holds.
    pub fn piece_at(&self, index: usize) -> (r: Option<Piece>)
        requires
            index < 64,
        ensures
            r == self@.board[index as int],
    {
        self.board[index]
    }

    /// The candidate destinations of the piece on square `index`, as square
    /// indices; `None` where the square is empty.
    pub fn moves_at(&self, index: usize) -> (r: Option<Vec<usize>>)
        requires
            index < 64,
        ensures
            self@.board[index as int] is None ==> r is None,
            self@.board[index as int] is Some ==> (r matches Some(v) && v@ == moves_from(
                self@.board,
                index as int,
            )),
    {
        if self.board[index].is_none() {
            None
        } else {
            Some(piece_moves(&self.board, index))
        }
    }

    /// Moves the piece on square `from` to square `to`, if the rules allow it,
    /// and returns the resulting state; otherwise leaves the game as it was and
    /// says why.
    pub fn move_piece(&mut self, from: usize, to: usize) -> (r: Result<GameState, MoveError>)
        requires
            from < 64,
            to < 64,
        ensures
            match move_outcome(old(self)@, from as int, to as int) {
                Ok(g) => r == Ok::<GameState, MoveError>(g.state) && final(self)@ == g,
                Err(e) => r == Err::<GameState, MoveError>(e) && final(self)@ == old(self)@,
            },
    {
        let mover = match self.board[from] {
            None => return Err(MoveError::NoPieceAtSource),
            Some(p) => p,
        };
        if mover.color != self.active_color {
            return Err(MoveError::WrongColorToMove);
        }
        let candidates = piece_moves(&self.board, from);
        if !among(&candidates, to) {
            return Err(MoveError::IllegalDestination);
        }
        let mut next: Board = self.board;
        next[to] = self.board[from];
        next[from] = None;
        assert(next@ == apply_move(self.board@, from as int, to as int));
        if self.state != GameState::Check && king_in_danger(&next, mover.color) {
            return Err(MoveError::SelfCheckViolation);
        }
        let takes_king = match self.board[to] {
            Some(q) => q.piece_type == PieceType::King,
            None => false,
        };
        let new_state = if takes_king {
            GameState::GameOver
        } else {
            let reach = piece_moves(&next, to);
            if hits_king(&next, &reach, mover.color.other()) {
                GameState::Check
            } else {
                GameState::InProgress
            }
        };
        self.board = next;
        self.active_color = mover.color.other();
        self.state = new_state;
        Ok(new_state)
    }
    /// Moves the piece on the square named `from` to the square named `to`,
    /// if the rules allow it, and returns the resulting state; otherwise leaves
    /// the game as it was and says why.
    pub fn try_move(&mut self, from: &str, to: &str) -> (r: Result<GameState, MoveError>)
        ensures
            (parse_notation(from@) is None || parse_notation(to@) is None) ==> (r == Err::<
                GameState,
                MoveError,
            >(MoveError::InvalidNotation) && final(self)@ == old(self)@),
            parse_notation(from@) matches Some(f) ==> parse_notation(to@) matches Some(t) ==> (
            match move_outcome(old(self)@, f, t) {
                Ok(g) => r == Ok::<GameState, MoveError>(g.state) && final(self)@ == g,
                Err(e) => r == Err::<GameState, MoveError>(e) && final(self)@ == old(self)@,
            }),
    {
        let f = match an_to_index(from) {
            Some(f) => f,
            None => return Err(MoveError::InvalidNotation),
        };
        let t = match an_to_index(to) {
            Some(t) => t,
            None => return Err(MoveError::InvalidNotation),
        };
        self.move_piece(f, t)
    }

    /// Moves the piece on the square named `from` to the square named `to`,
    /// as `try_move` does, and returns the resulting state; `None` where the
    /// move is refused for any reason, the game then being unchanged.
    pub fn make_move(&mut self, from: String, to: String) -> (r: Option<GameState>)
        ensures
            (parse_notation(from@) is None || parse_notation(to@) is None) ==> (r is None
                && final(self)@ == old(self)@),
            parse_notation(from@) matches Some(f) ==> parse_notation(to@) matches Some(t) ==> (
            match move_outcome(old(self)@, f, t) {
                Ok(g) => r == Some(g.state) && final(self)@ == g,
                Err(_) => r is None && final(self)@ == old(self)@,
            }),
    {
        match self.try_move(from.as_str(), to.as_str()) {
            Ok(s) => Some(s),
            Err(_) => None,
        }
    }

    /// The names of the candidate destinations of the piece on the square
    /// named `position`, in generation order; not filtered for the safety of
    /// the mover's king.
    pub fn possible_moves(&self, position: &str) -> (r: Result<Vec<String>, MoveError>)
        ensures
            match moves_outcome(self@, position@) {
                Ok(ms) => r matches Ok(v) && names_of(v@, ms),
                Err(e) => r == Err::<Vec<String>, MoveError>(e),
            },
    {
        let index = match an_to_index(position) {
            Some(i) => i,
            None => return Err(MoveError::InvalidNotation),
        };
        if self.board[index].is_none() {
            return Err(MoveError::NoPieceAtSource);
        }
        let ms = piece_moves(&self.board, index);
        Ok(square_names(&ms))
    }

    /// The names of the candidate destinations of the piece on the square
    /// named `position`, as `possible_moves` gives them; `None` where the name
    /// is malformed or the square is empty.
    pub fn get_possible_moves(&self, position: &String) -> (r: Option<Vec<String>>)
        ensures
            match moves_outcome(self@, position@) {
                Ok(ms) => r matches Some(v) && names_of(v@, ms),
                Err(_) => r is None,
            },
    {
        match self.possible_moves(position.as_str()) {
            Ok(v) => Some(v),
            Err(_) => None,
        }
    }

    /// Turns the piece on the square named `piece` into a `new_type`, keeping
    /// its color, with no test of legality; the state and the side to move
    /// stay as they are.
    pub fn set_promotion(&mut self, piece: String, new_type: PieceType) -> (r: Result<(), MoveError>)
        ensures
            final(self)@.state == old(self)@.state,
            final(self)@.active == old(self)@.active,
            match parse_notation(piece@) {
                None => r == Err::<(), MoveError>(MoveError::InvalidNotation) && final(self)@
                    == old(self)@,
                Some(i) => if old(self)@.board[i] is None {
                    r == Err::<(), MoveError>(MoveError::NoPieceAtSource) && final(self)@
                        == old(self)@
                } else {
                    r is Ok && final(self)@.board == promote(old(self)@.board, i, new_type)
                },
            },
    {
        let index = match an_to_index(piece.as_str()) {
            Some(i) => i,
            None => return Err(MoveError::InvalidNotation),
        };
        match self.board[index] {
            None => Err(MoveError::NoPieceAtSource),
            Some(p) => {
                self.board[index] = Some(Piece { color: p.color, piece_type: new_type });
                Ok(())
            },
        }
    }
}

} // verus!
