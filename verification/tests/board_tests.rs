use tictactoe::board::{Board, CellState};
use tictactoe::error::Error;
use tictactoe::player::Player;

const E: CellState = CellState::Empty;
const O: CellState = CellState::Nought;
const X: CellState = CellState::Cross;

#[test]
fn new_board_is_empty() {
    let board = Board::new();
    assert_eq!(board.cells, [[E, E, E], [E, E, E], [E, E, E]]);
    for row in 0..3 {
        for col in 0..3 {
            assert_eq!(board.cell_at(row, col), E);
        }
    }
    assert!(!board.is_full());
}

#[test]
fn cell_at_reads_row_then_column() {
    let board = Board { cells: [[E, X, E], [E, E, O], [E, E, E]] };
    assert_eq!(board.cell_at(0, 1), X);
    assert_eq!(board.cell_at(1, 0), E);
    assert_eq!(board.cell_at(1, 2), O);
    assert_eq!(board.cell_at(2, 1), E);
}

#[test]
fn mark_sets_only_the_chosen_cell() {
    let mut board = Board::new();
    assert_eq!(board.mark(1, 2, Player::Crosses), Ok(()));
    assert_eq!(board.cells, [[E, E, E], [E, E, X], [E, E, E]]);
    assert_eq!(board.mark(2, 0, Player::Noughts), Ok(()));
    assert_eq!(board.cells, [[E, E, E], [E, E, X], [O, E, E]]);
}

#[test]
fn mark_on_every_empty_cell_succeeds() {
    for row in 0..3 {
        for col in 0..3 {
            for player in [Player::Crosses, Player::Noughts] {
                let mut board = Board::new();
                assert_eq!(board.mark(row, col, player), Ok(()));
                assert_eq!(board.cell_at(row, col), player.to_cell());
            }
        }
    }
}

#[test]
fn second_mark_fails_for_either_player() {
    for first in [Player::Crosses, Player::Noughts] {
        for second in [Player::Crosses, Player::Noughts] {
            let mut board = Board::new();
            assert_eq!(board.mark(0, 0, first), Ok(()));
            let before = board;
            assert_eq!(board.mark(0, 0, second), Err(Error::CellOccupied));
            assert_eq!(board, before);
            assert_eq!(board.cell_at(0, 0), first.to_cell());
        }
    }
}

#[test]
fn is_full_needs_all_nine_cells() {
    let mut board = Board { cells: [[X, O, X], [X, O, O], [O, X, E]] };
    assert!(!board.is_full());
    assert_eq!(board.mark(2, 2, Player::Crosses), Ok(()));
    assert!(board.is_full());
    let hole_first = Board { cells: [[E, O, X], [X, O, O], [O, X, X]] };
    assert!(!hole_first.is_full());
    let hole_middle = Board { cells: [[X, O, X], [X, E, O], [O, X, X]] };
    assert!(!hole_middle.is_full());
}

#[test]
fn to_player_names_the_owner() {
    assert_eq!(CellState::Nought.to_player(), Ok(Player::Noughts));
    assert_eq!(CellState::Cross.to_player(), Ok(Player::Crosses));
    assert_eq!(CellState::Empty.to_player(), Err("Cell has not been played!"));
}

#[test]
fn cell_states_compare_by_value() {
    assert_eq!(CellState::Empty, CellState::Empty);
    assert_eq!(CellState::Cross, CellState::Cross);
    assert_ne!(CellState::Cross, CellState::Nought);
    assert_ne!(CellState::Empty, CellState::Nought);
}

#[test]
fn player_letters_numbers_and_names() {
    assert_eq!(Player::Crosses.to_letter(), 'X');
    assert_eq!(Player::Noughts.to_letter(), 'O');
    assert_eq!(Player::Crosses.to_number(), 1);
    assert_eq!(Player::Noughts.to_number(), 2);
    assert_eq!(Player::Crosses.to_name(), "Crosses");
    assert_eq!(Player::Noughts.to_name(), "Noughts");
    assert_eq!(Player::Crosses.to_cell(), CellState::Cross);
    assert_eq!(Player::Noughts.to_cell(), CellState::Nought);
}
