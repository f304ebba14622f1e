use chess::{an_to_index, index_to_an, Color, Game, GameState, MoveError, Piece, PieceType};

fn names(v: &[&str]) -> Vec<String> {
    v.iter().map(|s| String::from(*s)).collect()
}

fn snapshot(game: &Game) -> Vec<Option<Piece>> {
    (0..64).map(|i| game.piece_at(i)).collect()
}

#[test]
fn notation_round_trip_every_square() {
    for i in 0..64usize {
        assert_eq!(an_to_index(&index_to_an(i)), Some(i));
    }
}

#[test]
fn notation_exact_names() {
    assert_eq!(index_to_an(0), "A8");
    assert_eq!(index_to_an(7), "H8");
    assert_eq!(index_to_an(56), "A1");
    assert_eq!(index_to_an(63), "H1");
    assert_eq!(index_to_an(12), "E7");
}

#[test]
fn notation_is_case_insensitive() {
    assert_eq!(an_to_index("e7"), Some(12));
    assert_eq!(an_to_index("E7"), Some(12));
    assert_eq!(an_to_index("h1"), Some(63));
}

#[test]
fn notation_rejects_malformed_names() {
    for bad in ["", "A", "A10", "I1", "A0", "A9", "5A", "é2", "a 2"] {
        assert_eq!(an_to_index(bad), None, "{}", bad);
    }
}

#[test]
fn invalid_notation_errors() {
    let mut game = Game::new();
    let before = snapshot(&game);
    assert_eq!(game.try_move("Z9", "A3"), Err(MoveError::InvalidNotation));
    assert_eq!(game.try_move("A2", "A66"), Err(MoveError::InvalidNotation));
    assert_eq!(game.make_move(String::from("A2"), String::from("")), None);
    assert_eq!(game.possible_moves("J1"), Err(MoveError::InvalidNotation));
    assert_eq!(game.get_possible_moves(&String::from("J1")), None);
    assert_eq!(game.set_promotion(String::from("B"), PieceType::Queen), Err(MoveError::InvalidNotation));
    assert_eq!(snapshot(&game), before);
    assert_eq!(game.active_color(), Color::White);
}

#[test]
fn start_position_layout() {
    let game = Game::new();
    assert_eq!(game.get_game_state(), GameState::InProgress);
    assert_eq!(game.active_color(), Color::White);
    let back = [
        PieceType::Rook,
        PieceType::Knight,
        PieceType::Bishop,
        PieceType::Queen,
        PieceType::King,
        PieceType::Bishop,
        PieceType::Knight,
        PieceType::Rook,
    ];
    for col in 0..8usize {
        assert_eq!(game.piece_at(col), Some(Piece { color: Color::Black, piece_type: back[col] }));
        assert_eq!(game.piece_at(8 + col), Some(Piece { color: Color::Black, piece_type: PieceType::Pawn }));
        assert_eq!(game.piece_at(48 + col), Some(Piece { color: Color::White, piece_type: PieceType::Pawn }));
        assert_eq!(game.piece_at(56 + col), Some(Piece { color: Color::White, piece_type: back[col] }));
        for row in 2..6usize {
            assert_eq!(game.piece_at(row * 8 + col), None);
        }
    }
}

#[test]
fn pawn_openings_every_file() {
    let game = Game::new();
    for file in ["A", "B", "C", "D", "E", "F", "G", "H"] {
        assert_eq!(
            game.possible_moves(&format!("{}2", file)),
            Ok(vec![format!("{}3", file), format!("{}4", file)])
        );
        assert_eq!(
            game.possible_moves(&format!("{}7", file)),
            Ok(vec![format!("{}6", file), format!("{}5", file)])
        );
    }
}

#[test]
fn knight_openings() {
    let game = Game::new();
    assert_eq!(game.possible_moves("B1"), Ok(names(&["A3", "C3"])));
    assert_eq!(game.possible_moves("G1"), Ok(names(&["F3", "H3"])));
    assert_eq!(game.possible_moves("B8"), Ok(names(&["A6", "C6"])));
    assert_eq!(game.possible_moves("G8"), Ok(names(&["F6", "H6"])));
}

#[test]
fn rooks_blocked_at_start() {
    let game = Game::new();
    for sq in ["A8", "H8", "A1", "H1"] {
        assert_eq!(game.possible_moves(sq), Ok(vec![]));
        assert_eq!(game.get_possible_moves(&String::from(sq)), Some(vec![]));
    }
    // Bishops, queens and kings are hemmed in as well.
    for sq in ["C8", "D8", "E8", "F8", "C1", "D1", "E1", "F1"] {
        assert_eq!(game.possible_moves(sq), Ok(vec![]));
    }
}

#[test]
fn empty_square_has_no_piece() {
    let mut game = Game::new();
    assert_eq!(game.possible_moves("E5"), Err(MoveError::NoPieceAtSource));
    assert_eq!(game.get_possible_moves(&String::from("E5")), None);
    assert_eq!(game.try_move("E5", "E4"), Err(MoveError::NoPieceAtSource));
    assert_eq!(game.set_promotion(String::from("E5"), PieceType::Queen), Err(MoveError::NoPieceAtSource));
    assert_eq!(game.piece_at(28), None);
}

#[test]
fn turns_alternate() {
    let mut game = Game::new();
    assert_eq!(game.try_move("E7", "E6"), Err(MoveError::WrongColorToMove));
    assert_eq!(game.try_move("E2", "E4"), Ok(GameState::InProgress));
    assert_eq!(game.active_color(), Color::Black);
    let before = snapshot(&game);
    assert_eq!(game.try_move("D2", "D4"), Err(MoveError::WrongColorToMove));
    assert_eq!(game.try_move("E4", "E5"), Err(MoveError::WrongColorToMove));
    assert_eq!(snapshot(&game), before);
    assert_eq!(game.active_color(), Color::Black);
    assert_eq!(game.try_move("E7", "E5"), Ok(GameState::InProgress));
    assert_eq!(game.active_color(), Color::White);
}

#[test]
fn illegal_destination_refused() {
    let mut game = Game::new();
    assert_eq!(game.try_move("E2", "E5"), Err(MoveError::IllegalDestination));
    assert_eq!(game.try_move("B1", "B3"), Err(MoveError::IllegalDestination));
    assert_eq!(game.try_move("A1", "A2"), Err(MoveError::IllegalDestination));
    assert_eq!(game.active_color(), Color::White);
}

#[test]
fn pawn_cannot_advance_onto_a_piece() {
    let mut game = Game::new();
    assert_eq!(game.try_move("E2", "E4"), Ok(GameState::InProgress));
    assert_eq!(game.try_move("E7", "E5"), Ok(GameState::InProgress));
    assert_eq!(game.possible_moves("E4"), Ok(vec![]));
    assert_eq!(game.try_move("E4", "E5"), Err(MoveError::IllegalDestination));
}

#[test]
fn sliding_and_king_moves_after_opening() {
    let mut game = Game::new();
    assert_eq!(game.try_move("E2", "E4"), Ok(GameState::InProgress));
    assert_eq!(game.possible_moves("D1"), Ok(names(&["E2", "F3", "G4", "H5"])));
    assert_eq!(game.possible_moves("F1"), Ok(names(&["E2", "D3", "C4", "B5", "A6"])));
    assert_eq!(game.possible_moves("E1"), Ok(names(&["E2"])));
}

#[test]
fn pinned_pawn_cannot_move() {
    let mut game = Game::new();
    assert_eq!(game.try_move("A2", "A3"), Ok(GameState::InProgress));
    assert_eq!(game.try_move("E7", "E6"), Ok(GameState::InProgress));
    assert_eq!(game.try_move("A3", "A4"), Ok(GameState::InProgress));
    assert_eq!(game.try_move("D8", "H4"), Ok(GameState::InProgress));
    let before = snapshot(&game);
    let picture = game.render();
    assert_eq!(game.try_move("F2", "F3"), Err(MoveError::SelfCheckViolation));
    assert_eq!(game.make_move(String::from("F2"), String::from("F4")), None);
    assert_eq!(snapshot(&game), before);
    assert_eq!(game.render(), picture);
    assert_eq!(game.active_color(), Color::White);
    assert_eq!(game.get_game_state(), GameState::InProgress);
}

#[test]
fn check_then_king_capture() {
    let mut game = Game::new();
    assert_eq!(game.try_move("A2", "A3"), Ok(GameState::InProgress));
    assert_eq!(game.try_move("E7", "E6"), Ok(GameState::InProgress));
    assert_eq!(game.try_move("A3", "A4"), Ok(GameState::InProgress));
    assert_eq!(game.try_move("D8", "H4"), Ok(GameState::InProgress));
    assert_eq!(game.try_move("A4", "A5"), Ok(GameState::InProgress));
    assert_eq!(game.try_move("H4", "F2"), Ok(GameState::Check));
    assert_eq!(game.get_game_state(), GameState::Check);
    // While in check the own-king test is not made, so an idle move passes.
    assert_eq!(game.try_move("A5", "A6"), Ok(GameState::InProgress));
    assert_eq!(game.try_move("F2", "E1"), Ok(GameState::GameOver));
    assert_eq!(game.get_game_state(), GameState::GameOver);
    assert_eq!(game.piece_at(60), Some(Piece { color: Color::Black, piece_type: PieceType::Queen }));
    assert_eq!(game.piece_at(53), None);
}

#[test]
fn promotion_keeps_color_and_turn() {
    let mut game = Game::new();
    assert_eq!(game.set_promotion(String::from("A2"), PieceType::Knight), Ok(()));
    assert_eq!(game.piece_at(48), Some(Piece { color: Color::White, piece_type: PieceType::Knight }));
    assert_eq!(game.set_promotion(String::from("h7"), PieceType::Queen), Ok(()));
    assert_eq!(game.piece_at(15), Some(Piece { color: Color::Black, piece_type: PieceType::Queen }));
    assert_eq!(game.active_color(), Color::White);
    assert_eq!(game.get_game_state(), GameState::InProgress);
    assert_eq!(game.possible_moves("A2"), Ok(names(&["B4", "C3"])));
}

#[test]
fn moves_at_gives_indices() {
    let game = Game::new();
    assert_eq!(game.moves_at(52), Some(vec![44, 36]));
    assert_eq!(game.moves_at(30), None);
}

#[test]
fn render_start_position() {
    let game = Game::new();
    let frame = "|:--------------------------------:|";
    let expected = format!(
        "{f}\n{}{}{}{}{}{}{}{}{f}",
        "|  bR  bKn bB  bQ  bK  bB  bKn bR  |\n",
        "|  bP  bP  bP  bP  bP  bP  bP  bP  |\n",
        "|  *   *   *   *   *   *   *   *   |\n",
        "|  *   *   *   *   *   *   *   *   |\n",
        "|  *   *   *   *   *   *   *   *   |\n",
        "|  *   *   *   *   *   *   *   *   |\n",
        "|  wP  wP  wP  wP  wP  wP  wP  wP  |\n",
        "|  wR  wKn wB  wQ  wK  wB  wKn wR  |\n",
        f = frame
    );
    assert_eq!(game.render(), expected);
}

#[test]
fn start_position_by_name() {
    let game = Game::new();
    let at = |name: &str| game.piece_at(an_to_index(name).unwrap());
    assert_eq!(at("A1"), Some(Piece { color: Color::White, piece_type: PieceType::Rook }));
    assert_eq!(at("E1"), Some(Piece { color: Color::White, piece_type: PieceType::King }));
    assert_eq!(at("D8"), Some(Piece { color: Color::Black, piece_type: PieceType::Queen }));
    for file in ["A", "B", "C", "D", "E", "F", "G", "H"] {
        for rank in ["1", "2"] {
            assert_eq!(at(&format!("{}{}", file, rank)).map(|p| p.color), Some(Color::White));
        }
        for rank in ["7", "8"] {
            assert_eq!(at(&format!("{}{}", file, rank)).map(|p| p.color), Some(Color::Black));
        }
    }
}
