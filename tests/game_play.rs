use chess::{an_to_index, index_to_an, Game, GameState, PieceType};

#[test]
fn lib_it_works() {
    assert_eq!(2 + 2, 4);
}

#[test]
fn lib_game_in_progress_after_init() {
    let game = Game::new();

    println!("{}", game.render());

    assert_eq!(game.get_game_state(), GameState::InProgress);
}

#[test]
fn an_index_conversion() {
    assert_eq!(index_to_an(32), String::from("A4"));
    assert_eq!(an_to_index(&String::from("A4")), Some(32));
}

#[test]
fn movesets() {
    let mut game = Game::new();
    println!("{}", game.render());

    // Pawn
    assert_eq!(
        game.get_possible_moves(&String::from("B2")),
        Some(vec![String::from("B3"), String::from("B4")])
    );

    assert_eq!(game.make_move(String::from("A2"), String::from("A4")), Some(GameState::InProgress)); // White
    assert_eq!(game.make_move(String::from("A4"), String::from("A5")), None); // White cannot move again
    assert_eq!(game.make_move(String::from("B7"), String::from("B5")), Some(GameState::InProgress)); // Black

    // Rook
    assert_eq!(game.make_move(String::from("A1"), String::from("A4")), None); // Cannot move into white pawn
    println!("{:?}", game.get_possible_moves(&String::from("A1")));
    assert_eq!(game.make_move(String::from("A1"), String::from("A3")), Some(GameState::InProgress));

    // Knight
    assert_eq!(game.make_move(String::from("B8"), String::from("C6")), Some(GameState::InProgress));
    assert_eq!(game.make_move(String::from("A4"), String::from("B5")), Some(GameState::InProgress)); // White pawn kills black pawn

    // Bishop
    assert_eq!(game.make_move(String::from("C8"), String::from("A6")), Some(GameState::InProgress));
    assert_eq!(game.make_move(String::from("B5"), String::from("B6")), Some(GameState::InProgress)); // White pawn forward

    // Queen
    assert_eq!(game.make_move(String::from("D8"), String::from("C8")), Some(GameState::InProgress));
    assert_eq!(game.make_move(String::from("B6"), String::from("B7")), Some(GameState::InProgress)); // White pawn forward

    // King
    assert_eq!(game.make_move(String::from("E8"), String::from("D8")), Some(GameState::InProgress));
    assert_eq!(game.make_move(String::from("B7"), String::from("B8")), Some(GameState::InProgress)); // White pawn forward

    // Promote pawn
    let _ = game.set_promotion(String::from("B8"), PieceType::Queen);

    assert_eq!(game.make_move(String::from("C8"), String::from("E6")), None); // Black queen cannot move through pawn
    assert_eq!(game.make_move(String::from("C8"), String::from("B7")), None); // Queen, cannot escape since it causes check
    assert_eq!(game.make_move(String::from("F7"), String::from("F6")), Some(GameState::InProgress)); // Idly black pawn forward
    assert_eq!(game.make_move(String::from("B8"), String::from("C8")), Some(GameState::Check)); // Kill black queen
    assert_eq!(game.make_move(String::from("F6"), String::from("F5")), Some(GameState::InProgress)); // Idly black pawn forward
    assert_eq!(game.make_move(String::from("C8"), String::from("D8")), Some(GameState::GameOver)); // Kill black king
}

#[test]
fn main_it_works() {
    assert_eq!(2 + 2, 4);
}

#[test]
fn main_game_in_progress_after_init() {
    let game = Game::new();

    println!("{}", game.render());

    assert_eq!(game.get_game_state(), GameState::InProgress);
}

#[test]
#[allow(non_snake_case)]
fn AN_index_conversion() {
    assert_eq!(index_to_an(32), String::from("A4"));
}
