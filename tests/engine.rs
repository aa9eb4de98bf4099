use xo_core::{Cell, GameEngine, GameState, MoveError, Player};

fn play(game: &mut GameEngine, moves: &[usize]) {
    for &m in moves {
        game.make_move(m).unwrap();
    }
}

#[test]
fn x_can_win() {
    let mut game = GameEngine::new();
    game.make_move(0).unwrap();
    game.make_move(3).unwrap();
    game.make_move(1).unwrap();
    game.make_move(4).unwrap();
    game.make_move(2).unwrap();
    assert_eq!(game.check_state(), GameState::Win(Player::X));
}

#[test]
fn game_engine_tie_game() {
    let mut game = GameEngine::new();
    let moves = [0, 1, 2, 4, 3, 5, 7, 6, 8];
    for &i in &moves {
        game.make_move(i).unwrap();
    }
    assert_eq!(game.check_state(), GameState::Tie);
}

#[test]
fn invalid_move_out_of_bounds() {
    let mut game = GameEngine::new();
    assert_eq!(game.make_move(9), Err(MoveError::OutOfBounds));
}

#[test]
fn invalid_move_occupied() {
    let mut game = GameEngine::new();
    game.make_move(0).unwrap();
    assert_eq!(game.make_move(0), Err(MoveError::CellOccupied));
}

#[test]
fn minimax_ai_blocks_win() {
    let mut game = GameEngine::new();
    game.make_move(0).unwrap();
    game.make_move(4).unwrap();
    game.make_move(1).unwrap();
    assert_eq!(game.get_best_move(), Some(2));
}

#[test]
fn human_vs_human_mode() {
    let game = GameEngine::with_ai(false);
    assert_eq!(game.get_best_move(), None);
}

#[test]
fn new_game_is_empty_with_x_to_move() {
    let game = GameEngine::new();
    assert!(game.get_board().iter().all(|&c| c == Cell::Empty));
    assert_eq!(game.current_player(), Player::X);
    assert!(game.ai_enabled());
    assert_eq!(game.check_state(), GameState::InProgress);
    assert!(!game.is_over());
}

#[test]
fn with_ai_sets_the_flag() {
    assert!(GameEngine::with_ai(true).ai_enabled());
    assert!(!GameEngine::with_ai(false).ai_enabled());
    assert_eq!(GameEngine::with_ai(false).current_player(), Player::X);
}

#[test]
fn turns_alternate_from_x() {
    let mut game = GameEngine::new();
    let moves = [4, 0, 8, 2, 1, 7, 6, 3, 5];
    let mut expected = Player::X;
    for &m in &moves {
        assert_eq!(game.current_player(), expected);
        game.make_move(m).unwrap();
        expected = expected.opponent();
    }
    assert_eq!(game.current_player(), Player::O);
}

#[test]
fn rejected_moves_leave_the_game_unchanged() {
    let mut game = GameEngine::new();
    play(&mut game, &[0, 4]);
    let board = *game.get_board();
    assert_eq!(game.make_move(9), Err(MoveError::OutOfBounds));
    assert_eq!(game.make_move(usize::MAX), Err(MoveError::OutOfBounds));
    assert_eq!(game.make_move(4), Err(MoveError::CellOccupied));
    assert_eq!(game.make_move(0), Err(MoveError::CellOccupied));
    assert_eq!(*game.get_board(), board);
    assert_eq!(game.current_player(), Player::X);
}

#[test]
fn move_marks_the_cell_of_the_mover() {
    let mut game = GameEngine::new();
    play(&mut game, &[5, 7]);
    let board = game.get_board();
    assert_eq!(board[5], Cell::X);
    assert_eq!(board[7], Cell::O);
    assert_eq!(board.iter().filter(|&&c| c == Cell::Empty).count(), 7);
}

#[test]
fn moves_are_accepted_after_a_win() {
    let mut game = GameEngine::new();
    play(&mut game, &[0, 3, 1, 4, 2]);
    assert!(game.is_over());
    assert_eq!(game.make_move(8), Ok(()));
    assert_eq!(game.get_board()[8], Cell::O);
}

#[test]
fn no_best_move_once_the_game_is_over() {
    let mut game = GameEngine::new();
    play(&mut game, &[0, 3, 1, 4, 2]);
    assert_eq!(game.get_best_move(), None);
    let mut tie = GameEngine::new();
    play(&mut tie, &[0, 1, 2, 4, 3, 5, 7, 6, 8]);
    assert_eq!(tie.get_best_move(), None);
}

#[test]
fn best_move_is_always_accepted() {
    let mut game = GameEngine::new();
    play(&mut game, &[4, 0]);
    while let Some(m) = game.get_best_move() {
        assert_eq!(game.get_board()[m], Cell::Empty);
        assert_eq!(game.make_move(m), Ok(()));
    }
    assert!(game.is_over());
}

#[test]
fn best_play_from_the_start_is_a_tie() {
    let mut game = GameEngine::new();
    let mut moves = 0;
    while let Some(m) = game.get_best_move() {
        game.make_move(m).unwrap();
        moves += 1;
    }
    assert_eq!(moves, 9);
    assert_eq!(game.check_state(), GameState::Tie);
}

#[test]
fn first_move_on_an_empty_board_is_the_lowest_index() {
    let game = GameEngine::new();
    assert_eq!(game.get_best_move(), Some(0));
}

#[test]
fn best_move_takes_the_only_cell_left() {
    let mut game = GameEngine::new();
    play(&mut game, &[0, 1, 2, 4, 3, 5, 7, 6]);
    assert_eq!(game.get_best_move(), Some(8));
}

#[test]
fn search_for_o_with_x_threatening_two_lines() {
    let mut game = GameEngine::new();
    play(&mut game, &[0, 4, 8]);
    // X holds opposite corners; O must take an edge to avoid a fork.
    assert_eq!(game.get_best_move(), Some(1));
}
