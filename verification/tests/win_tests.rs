use tictactoe::board::{Board, CellState};
use tictactoe::player::Player;
use tictactoe::win::check_win;

const E: CellState = CellState::Empty;
const O: CellState = CellState::Nought;
const X: CellState = CellState::Cross;

/// The three cells of each of the eight lines.
const LINE_CELLS: [[(usize, usize); 3]; 8] = [
    [(0, 0), (1, 0), (2, 0)],
    [(0, 1), (1, 1), (2, 1)],
    [(0, 2), (1, 2), (2, 2)],
    [(0, 0), (0, 1), (0, 2)],
    [(1, 0), (1, 1), (1, 2)],
    [(2, 0), (2, 1), (2, 2)],
    [(0, 0), (1, 1), (2, 2)],
    [(0, 2), (1, 1), (2, 0)],
];

#[test]
fn empty_board_has_no_winner() {
    assert_eq!(check_win(&Board::new()), None);
}

#[test]
fn every_line_wins_for_its_player() {
    for line in LINE_CELLS {
        for player in [Player::Crosses, Player::Noughts] {
            let mut board = Board::new();
            for (row, col) in line {
                assert_eq!(board.mark(row, col, player), Ok(()));
            }
            assert_eq!(check_win(&board), Some(player));
        }
    }
}

#[test]
fn two_in_a_line_do_not_win() {
    for line in LINE_CELLS {
        for missing in 0..3 {
            let mut board = Board::new();
            for (i, (row, col)) in line.into_iter().enumerate() {
                if i != missing {
                    assert_eq!(board.mark(row, col, Player::Crosses), Ok(()));
                }
            }
            assert_eq!(check_win(&board), None);
        }
    }
}

#[test]
fn mixed_line_does_not_win() {
    for line in LINE_CELLS {
        for odd in 0..3 {
            let mut board = Board::new();
            for (i, (row, col)) in line.into_iter().enumerate() {
                let player = if i == odd { Player::Noughts } else { Player::Crosses };
                assert_eq!(board.mark(row, col, player), Ok(()));
            }
            assert_eq!(check_win(&board), None);
        }
    }
}

#[test]
fn full_board_without_line_has_no_winner() {
    let board = Board { cells: [[X, O, X], [X, O, O], [O, X, X]] };
    assert!(board.is_full());
    assert_eq!(check_win(&board), None);
}

#[test]
fn win_is_found_among_other_marks() {
    let board = Board { cells: [[X, O, X], [O, X, O], [E, E, X]] };
    assert_eq!(check_win(&board), Some(Player::Crosses));
    let board = Board { cells: [[X, X, O], [X, O, E], [O, E, X]] };
    assert_eq!(check_win(&board), Some(Player::Noughts));
}

#[test]
fn two_lines_of_one_player_give_that_player() {
    let board = Board { cells: [[X, X, X], [X, O, O], [X, O, O]] };
    assert_eq!(check_win(&board), Some(Player::Crosses));
}

#[test]
fn with_lines_of_both_players_the_first_in_order_counts() {
    // Two players can both hold a line only on parallel rows or parallel
    // columns; the upper row and the left column come first.
    let board = Board { cells: [[O, O, O], [X, X, X], [E, E, E]] };
    assert_eq!(check_win(&board), Some(Player::Noughts));
    let board = Board { cells: [[X, X, X], [O, O, O], [E, E, E]] };
    assert_eq!(check_win(&board), Some(Player::Crosses));
    let board = Board { cells: [[X, O, E], [X, O, E], [X, O, E]] };
    assert_eq!(check_win(&board), Some(Player::Crosses));
    let board = Board { cells: [[O, X, E], [O, X, E], [O, X, E]] };
    assert_eq!(check_win(&board), Some(Player::Noughts));
    let board = Board { cells: [[E, O, X], [E, O, X], [E, O, X]] };
    assert_eq!(check_win(&board), Some(Player::Noughts));
}

#[test]
fn check_win_leaves_the_board_alone() {
    let board = Board { cells: [[X, O, X], [O, X, O], [E, E, X]] };
    let before = board;
    let _ = check_win(&board);
    assert_eq!(board, before);
}
