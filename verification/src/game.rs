use vstd::prelude::*;

use crate::board::{empty_grid, grid_full, grid_mark, grid_wf, grid_with, Board, CellState, Grid};
use crate::error::Error;
use crate::input::{key_cell, resolve_input, KeyPress};
use crate::player::Player;
use crate::win::{
    check_win, holds_line, lemma_no_winner_iff_no_line, lemma_winner_holds_line, lemma_winner_iff_holds_line,
    line_cell, line_held_by, line_owner, line_state, no_line, winner, LINES,
};

verus! {

/// Where a game stands.
#[derive(Clone, Copy, Debug, PartialEq, Eq)]
pub enum GameState {
    /// The active player is to move.
    AwaitingMove,
    /// The game has ended, with a winner or, for `None`, in a draw.
    GameOver(Option<Player>),
}

/// What a move led to.
#[derive(Clone, Copy, Debug, PartialEq, Eq)]
pub enum MoveResult {
    /// Nothing was placed and nothing changed; the same player is to try
    /// again.
    Rejected(Error),
    /// The mark was placed and the turn passed to the other player.
    Placed,
    /// The mark was placed and completed a line for the player named.
    Won(Player),
    /// The mark was placed, filled the board and completed no line.
    Draw,
}

/// The mathematical model of a game.
pub struct GameView {
    pub board: Grid,
    pub player: Player,
    pub state: GameState,
}

impl GameView {
    /// The game before the first move: nothing on the board, Crosses to
    /// move.
    pub open spec fn initial() -> GameView {
        GameView { board: empty_grid(), player: Player::Crosses, state: GameState::AwaitingMove }
    }

    /// The state agrees with the board: while a move is awaited no line is
    /// complete and a cell is free; a game that was won shows a line of
    /// the winner and none of the opponent; a drawn game shows a full board
    /// without a complete line.
    pub open spec fn wf(self) -> bool {
        &&& grid_wf(self.board)
        &&& match self.state {
            GameState::AwaitingMove => no_line(self.board) && !grid_full(self.board),
            GameState::GameOver(Some(player)) => winner(self.board) == Some(player) && !holds_line(
                self.board,
                player.opponent(),
            ),
            GameState::GameOver(None) => no_line(self.board) && grid_full(self.board),
        }
    }

    /// What a move of the active player on (`row`, `col`) leads to.
    pub open spec fn move_result(self, row: int, col: int) -> MoveResult {
        match grid_mark(self.board, row, col, self.player) {
            Err(e) => MoveResult::Rejected(e),
            Ok(grid) => match winner(grid) {
                Some(player) => MoveResult::Won(player),
                None => if grid_full(grid) {
                    MoveResult::Draw
                } else {
                    MoveResult::Placed
                },
            },
        }
    }

    /// The game after a move of the active player on (`row`, `col`). A
    /// rejected move changes nothing. An accepted one places the mark; the
    /// turn passes to the opponent unless the move ended the game.
    pub open spec fn after_move(self, row: int, col: int) -> GameView {
        match grid_mark(self.board, row, col, self.player) {
            Err(_) => self,
            Ok(grid) => match self.move_result(row, col) {
                MoveResult::Won(player) => GameView {
                    board: grid,
                    player: self.player,
                    state: GameState::GameOver(Some(player)),
                },
                MoveResult::Draw => GameView { board: grid, player: self.player, state: GameState::GameOver(None) },
                _ => GameView { board: grid, player: self.player.opponent(), state: GameState::AwaitingMove },
            },
        }
    }
}

/// Marking a free cell completes no line for the other player: a line
/// that is the opponent's afterwards was the opponent's before.
pub proof fn lemma_mark_gives_opponent_nothing(grid: Grid, row: int, col: int, player: Player, line: int)
    requires
        grid_wf(grid),
        0 <= row < 3,
        0 <= col < 3,
        0 <= line < LINES,
        line_held_by(grid_with(grid, row, col, player.mark()), line, player.opponent()),
    ensures
        line_held_by(grid, line, player.opponent()),
{
    let marked = grid_with(grid, row, col, player.mark());
    assert forall|i: int| 0 <= i < 3 implies #[trigger] line_state(marked, line, i) == line_state(grid, line, i) by {
        let (r, c) = line_cell(line, i);
        assert(grid[r].len() == 3);
        assert(marked[r][c] != player.mark());
    }
}

/// A move keeps the game well-formed, and only the player who moves can
/// win by it. Cells that were marked stay as they were, and an accepted
/// move marks exactly the chosen cell.
pub proof fn lemma_move_keeps_wf(game: GameView, row: int, col: int)
    requires
        game.wf(),
        game.state == GameState::AwaitingMove,
        0 <= row < 3,
        0 <= col < 3,
    ensures
        game.after_move(row, col).wf(),
        game.move_result(row, col) matches MoveResult::Won(player) ==> player == game.player,
        forall|r: int, c: int|
            0 <= r < 3 && 0 <= c < 3 && (r != row || c != col) ==> #[trigger] game.after_move(row, col).board[r][c]
                == game.board[r][c],
        forall|r: int, c: int|
            0 <= r < 3 && 0 <= c < 3 && game.board[r][c] != CellState::Empty ==> #[trigger] game.after_move(
                row,
                col,
            ).board[r][c] == game.board[r][c],
        game.move_result(row, col) is Rejected <==> game.board[row][col] != CellState::Empty,
        !(game.move_result(row, col) is Rejected) ==> game.after_move(row, col).board[row][col]
            == game.player.mark(),
{
    if let Ok(grid) = grid_mark(game.board, row, col, game.player) {
        assert(grid[row][col] == game.player.mark());
        assert forall|r: int, c: int| 0 <= r < 3 && 0 <= c < 3 && (r != row || c != col) implies #[trigger] grid[r][c]
            == game.board[r][c] by {
            assert(game.board[r].len() == 3);
        }
        assert(grid_wf(grid)) by {
            assert forall|r: int| 0 <= r < 3 implies (#[trigger] grid[r]).len() == 3 by {
                assert(game.board[r].len() == 3);
            }
        }
        lemma_no_winner_iff_no_line(game.board);
        lemma_no_winner_iff_no_line(grid);
        let opponent = game.player.opponent();
        assert(!holds_line(grid, opponent)) by {
            if holds_line(grid, opponent) {
                let line = choose|line: int| 0 <= line < LINES && line_held_by(grid, line, opponent);
                lemma_mark_gives_opponent_nothing(game.board, row, col, game.player, line);
                assert(holds_line(game.board, opponent));
            }
        }
        if let Some(player) = winner(grid) {
            lemma_winner_holds_line(grid, player);
        }
    }
}

/// In a well-formed game at most one player holds a line, so the winner
/// that the board shows is `player` if and only if some row, column or
/// diagonal is entirely `player`'s.
pub proof fn lemma_game_winner_iff_line(game: GameView, player: Player)
    requires
        game.wf(),
    ensures
        !(holds_line(game.board, Player::Noughts) && holds_line(game.board, Player::Crosses)),
        winner(game.board) == Some(player) <==> holds_line(game.board, player),
{
    lemma_no_winner_iff_no_line(game.board);
    lemma_winner_iff_holds_line(game.board, player);
}

/// After an accepted move that does not end the game it is the other
/// player's turn, and after that player's next such move the first
/// player's again.
pub proof fn lemma_turn_alternates(game: GameView, row: int, col: int)
    requires
        game.move_result(row, col) == MoveResult::Placed,
    ensures
        game.after_move(row, col).state == GameState::AwaitingMove,
        game.after_move(row, col).player == game.player.opponent(),
        game.after_move(row, col).player != game.player,
        game.player.opponent().opponent() == game.player,
{
}

/// A move that fills the last free cell and leaves no line complete ends
/// the game in a draw.
pub proof fn lemma_full_board_without_line_is_draw(game: GameView, row: int, col: int)
    requires
        grid_mark(game.board, row, col, game.player) matches Ok(grid) && grid_full(grid) && no_line(grid),
    ensures
        game.move_result(row, col) == MoveResult::Draw,
        game.after_move(row, col).state == GameState::GameOver(None),
{
    lemma_no_winner_iff_no_line(grid_mark(game.board, row, col, game.player)->Ok_0);
}

/// A game in progress or finished: the board, the player whose turn it
/// is, and whether a move is awaited.
#[derive(Clone, Copy, Debug, PartialEq, Eq)]
pub struct Game {
    board: Board,
    player: Player,
    state: GameState,
}

impl View for Game {
    type V = GameView;

    closed spec fn view(&self) -> GameView {
        GameView { board: self.board@, player: self.player, state: self.state }
    }
}

impl Game {
    /// A new game: an empty board, Crosses to move.
    pub fn new() -> (game: Game)
        ensures
            game@ == GameView::initial(),
            game@.wf(),
    {
        let game = Game { board: Board::new(), player: Player::Crosses, state: GameState::AwaitingMove };
        proof {
            let grid = game.board@;
            assert(grid[0][0] == CellState::Empty);
            assert forall|line: int| 0 <= line < LINES implies line_owner(grid, line) is None by {
                assert(grid[line_cell(line, 0).0][line_cell(line, 0).1] == CellState::Empty);
            }
        }
        game
    }

    /// The board as it stands.
    pub fn board(&self) -> (board: &Board)
        ensures
            board@ == self@.board,
    {
        &self.board
    }

    /// The player whose turn it is. A move that ends the game leaves the
    /// turn with the player who made it.
    pub fn player(&self) -> (player: Player)
        ensures
            player == self@.player,
    {
        self.player
    }

    /// Whether a move is awaited or the game is over, and how it ended.
    pub fn state(&self) -> (state: GameState)
        ensures
            state == self@.state,
    {
        self.state
    }

    /// Hands the turn to the other player. Board and state stay.
    pub fn switch(&mut self)
        ensures
            final(self)@ == (GameView { player: old(self)@.player.opponent(), ..old(self)@ }),
            old(self)@.wf() ==> final(self)@.wf(),
    {
        match self.player {
            Player::Noughts => self.player = Player::Crosses,
            Player::Crosses => self.player = Player::Noughts,
        }
    }

    /// Plays the active player's mark on the cell at (`row`, `col`).
    ///
    /// An occupied cell is rejected and the game stays as it was. Else
    /// the mark is placed; if that completes a line the game is over and
    /// won, else if the board is now full it is over and drawn, else the
    /// turn passes to the other player.
    pub fn apply_move(&mut self, row: usize, col: usize) -> (r: MoveResult)
        requires
            old(self)@.wf(),
            old(self)@.state == GameState::AwaitingMove,
            row < 3,
            col < 3,
        ensures
            r == old(self)@.move_result(row as int, col as int),
            final(self)@ == old(self)@.after_move(row as int, col as int),
            final(self)@.wf(),
            r is Rejected ==> *final(self) == *old(self),
            r matches MoveResult::Won(player) ==> player == old(self)@.player,
    {
        proof {
            lemma_move_keeps_wf(self@, row as int, col as int);
        }
        match self.board.mark(row, col, self.player) {
            Err(e) => MoveResult::Rejected(e),
            Ok(()) => {
                match check_win(&self.board) {
                    Some(player) => {
                        self.state = GameState::GameOver(Some(player));
                        MoveResult::Won(player)
                    },
                    None => {
                        if self.board.is_full() {
                            self.state = GameState::GameOver(None);
                            MoveResult::Draw
                        } else {
                            self.switch();
                            MoveResult::Placed
                        }
                    },
                }
            },
        }
    }

    /// Takes one key press of the active player: a digit from `'1'` to
    /// `'9'` is played on the cell it stands for, see [`Game::apply_move`];
    /// any other key is rejected and changes nothing.
    pub fn handle_key(&mut self, key: KeyPress) -> (r: MoveResult)
        requires
            old(self)@.wf(),
            old(self)@.state == GameState::AwaitingMove,
        ensures
            match key_cell(key) {
                Some(cell) => r == old(self)@.move_result(cell.0 as int, cell.1 as int) && final(self)@ == old(
                    self,
                )@.after_move(cell.0 as int, cell.1 as int),
                None => r == MoveResult::Rejected(Error::InvalidInputSymbol),
            },
            final(self)@.wf(),
            r is Rejected ==> *final(self) == *old(self),
            r matches MoveResult::Won(player) ==> player == old(self)@.player,
    {
        match key {
            KeyPress::Char(symbol) => match resolve_input(symbol) {
                Ok((row, col)) => self.apply_move(row, col),
                Err(e) => MoveResult::Rejected(e),
            },
            KeyPress::Other => MoveResult::Rejected(Error::InvalidInputSymbol),
        }
    }
}

} // verus!
