use tictactoe::board::{Board, GameOutcome};
use tictactoe::error::BadMoveError;
use tictactoe::player::Player;

const FRESH: &str = "0|1|2\n-+-+-\n3|4|5\n-+-+-\n6|7|8";

fn drawn_board() -> Board {
    let mut board = Board::new();
    for position in [4u8, 3, 2, 7] {
        board.play_x(position).unwrap();
        board.play_o();
    }
    board.play_x(8).unwrap();
    board
}

#[test]
fn fresh_board_renders_positions() {
    assert_eq!(Board::new().render(), FRESH);
}

#[test]
fn fresh_board_is_ongoing() {
    let board = Board::new();
    assert_eq!(board.outcome(), None);
    assert_eq!(board.winner(), None);
    assert!(!board.is_draw());
}

#[test]
fn out_of_range_position_is_rejected() {
    let mut board = Board::new();
    board.play_x(4).unwrap();
    let before = board.render();
    assert_eq!(board.play_x(9), Err(BadMoveError::InvalidPosition));
    assert_eq!(board.play_x(200), Err(BadMoveError::InvalidPosition));
    assert_eq!(board.play_x(255), Err(BadMoveError::InvalidPosition));
    assert_eq!(board.render(), before);
}

#[test]
fn occupied_cell_is_rejected() {
    let mut board = Board::new();
    board.play_x(4).unwrap();
    board.play_o();
    let before = board.render();
    assert_eq!(board.play_x(4), Err(BadMoveError::AlreadyOccupied));
    assert_eq!(board.play_x(0), Err(BadMoveError::AlreadyOccupied));
    assert_eq!(board.render(), before);
}

#[test]
fn human_move_marks_only_its_cell() {
    let mut board = Board::new();
    assert_eq!(board.play_x(8), Ok(()));
    assert_eq!(board.render(), "0|1|2\n-+-+-\n3|4|5\n-+-+-\n6|7|X");
    assert_eq!(board.play_x(0), Ok(()));
    assert_eq!(board.render(), "X|1|2\n-+-+-\n3|4|5\n-+-+-\n6|7|X");
}

#[test]
fn opponent_takes_lowest_empty_cell() {
    let mut board = Board::new();
    board.play_x(0).unwrap();
    board.play_o();
    assert_eq!(board.render(), "X|O|2\n-+-+-\n3|4|5\n-+-+-\n6|7|8");
    board.play_o();
    assert_eq!(board.render(), "X|O|O\n-+-+-\n3|4|5\n-+-+-\n6|7|8");
}

#[test]
fn opponent_on_full_board_changes_nothing() {
    let mut board = drawn_board();
    let before = board.render();
    assert_eq!(before, "O|O|X\n-+-+-\nX|X|O\n-+-+-\nO|X|X");
    board.play_o();
    assert_eq!(board.render(), before);
    assert_eq!(board.outcome(), Some(GameOutcome::Draw));
}

#[test]
fn outcome_is_repeatable() {
    let mut board = Board::new();
    assert_eq!(board.outcome(), board.outcome());
    board.play_x(6).unwrap();
    board.play_o();
    board.play_x(7).unwrap();
    board.play_o();
    board.play_x(8).unwrap();
    let first = board.outcome();
    let second = board.outcome();
    assert_eq!(first, Some(GameOutcome::Winner(Player::X)));
    assert_eq!(first, second);
}

#[test]
fn draw_reports_no_winner() {
    let board = drawn_board();
    assert!(board.is_draw());
    assert_eq!(board.winner(), None);
    assert_eq!(board.outcome(), Some(GameOutcome::Draw));
}

#[test]
fn opponent_wins_top_row() {
    let mut board = Board::new();
    for position in [3u8, 4, 6] {
        board.play_x(position).unwrap();
        board.play_o();
    }
    assert_eq!(board.winner(), Some(Player::O));
    assert!(!board.is_draw());
    assert_eq!(board.render(), "O|O|O\n-+-+-\nX|X|5\n-+-+-\nX|7|8");
}

#[test]
fn rising_diagonal_wins() {
    let mut board = Board::new();
    for position in [6u8, 4, 2] {
        board.play_x(position).unwrap();
    }
    assert_eq!(board.outcome(), Some(GameOutcome::Winner(Player::X)));
}

#[test]
fn column_wins() {
    let mut board = Board::new();
    for position in [1u8, 4, 7] {
        board.play_x(position).unwrap();
    }
    assert_eq!(board.winner(), Some(Player::X));
}

#[test]
fn two_in_a_line_is_no_win() {
    let mut board = Board::new();
    board.play_x(0).unwrap();
    board.play_x(4).unwrap();
    board.play_o();
    assert_eq!(board.winner(), None);
    assert_eq!(board.outcome(), None);
}

#[test]
fn full_board_with_a_line_is_a_win() {
    let mut board = Board::new();
    for position in [2u8, 5, 8] {
        board.play_x(position).unwrap();
    }
    for _ in 0..6 {
        board.play_o();
    }
    assert_eq!(board.render(), "O|O|X\n-+-+-\nO|O|X\n-+-+-\nO|O|X");
    assert!(!board.is_draw());
    assert_eq!(board.winner(), Some(Player::O));
    assert_eq!(board.outcome(), Some(GameOutcome::Winner(Player::O)));
}
