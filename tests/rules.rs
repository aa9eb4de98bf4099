use xo_core::rules::{winning_line, BOARD_SIZE, LINE_COUNT};
use xo_core::{Cell, GameEngine, GameState, Player};

const E: Cell = Cell::Empty;
const X: Cell = Cell::X;
const O: Cell = Cell::O;

#[test]
fn empty_board_is_in_progress() {
    assert_eq!(GameEngine::check_board_state([E; 9]), GameState::InProgress);
}

#[test]
fn every_line_wins_for_either_player() {
    for k in 0..LINE_COUNT {
        let (a, b, c) = winning_line(k);
        for (mark, player) in [(X, Player::X), (O, Player::O)] {
            let mut board = [E; 9];
            board[a] = mark;
            board[b] = mark;
            board[c] = mark;
            assert_eq!(GameEngine::check_board_state(board), GameState::Win(player));
        }
    }
}

#[test]
fn winning_lines_are_rows_columns_and_diagonals() {
    let lines: Vec<(usize, usize, usize)> = (0..LINE_COUNT).map(winning_line).collect();
    assert_eq!(
        lines,
        vec![(0, 1, 2), (3, 4, 5), (6, 7, 8), (0, 3, 6), (1, 4, 7), (2, 5, 8), (0, 4, 8), (2, 4, 6)]
    );
    assert!(lines.iter().all(|&(a, b, c)| a < BOARD_SIZE && b < BOARD_SIZE && c < BOARD_SIZE));
}

#[test]
fn mixed_line_is_no_win() {
    assert_eq!(GameEngine::check_board_state([X, X, O, E, E, E, E, E, E]), GameState::InProgress);
}

#[test]
fn full_board_without_line_is_a_tie() {
    assert_eq!(GameEngine::check_board_state([X, O, X, X, O, O, O, X, X]), GameState::Tie);
}

#[test]
fn full_board_with_line_is_a_win() {
    assert_eq!(GameEngine::check_board_state([X, X, X, O, O, X, X, O, O]), GameState::Win(Player::X));
}

#[test]
fn board_with_one_empty_cell_and_no_line_is_in_progress() {
    assert_eq!(GameEngine::check_board_state([X, O, X, X, O, O, O, X, E]), GameState::InProgress);
}

#[test]
fn first_line_in_scan_order_decides_when_both_players_have_one() {
    assert_eq!(GameEngine::check_board_state([O, O, O, X, X, X, E, E, E]), GameState::Win(Player::O));
    assert_eq!(GameEngine::check_board_state([X, X, X, O, O, O, E, E, E]), GameState::Win(Player::X));
}

#[test]
fn opponent_swaps_players() {
    assert_eq!(Player::X.opponent(), Player::O);
    assert_eq!(Player::O.opponent(), Player::X);
    assert_eq!(Player::X.opponent().opponent(), Player::X);
}

#[test]
fn players_mark_their_own_cells() {
    assert_eq!(Player::X.mark(), Cell::X);
    assert_eq!(Player::O.mark(), Cell::O);
}

#[test]
fn cells_draw_as_characters() {
    assert_eq!(Cell::X.symbol(), 'X');
    assert_eq!(Cell::O.symbol(), 'O');
    assert_eq!(Cell::Empty.symbol(), '.');
}
