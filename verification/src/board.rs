use vstd::prelude::*;

use crate::error::Error;
use crate::player::Player;

verus! {

/// What one cell of the board holds.
#[derive(Clone, Copy, Debug, PartialEq, Eq, Structural)]
pub enum CellState {
    Empty,
    Nought,
    Cross,
}

impl CellState {
    /// The player whose mark this is, if it is a mark.
    pub open spec fn owner(self) -> Option<Player> {
        match self {
            CellState::Empty => None,
            CellState::Nought => Some(Player::Noughts),
            CellState::Cross => Some(Player::Crosses),
        }
    }

    /// The player who marked the cell; an empty cell has none and yields
    /// a message saying so.
    pub fn to_player(&self) -> (r: Result<Player, &'static str>)
        ensures
            match self.owner() {
                Some(player) => r == Ok::<Player, &'static str>(player),
                None => r is Err && r->Err_0@ == "Cell has not been played!"@,
            },
    {
        match self {
            CellState::Empty => Err("Cell has not been played!"),
            CellState::Nought => Ok(Player::Noughts),
            CellState::Cross => Ok(Player::Crosses),
        }
    }
}

/// The 3×3 grid, stored row by row: `cells[row][col]`, both indices from
/// 0 to 2. Pressing the digit shown reaches the cell:
///
/// ```text
/// [1] [2] [3]   row 0
/// [4] [5] [6]   row 1
/// [7] [8] [9]   row 2
/// ```
#[derive(Clone, Copy, Debug, PartialEq, Eq)]
pub struct Board {
    pub cells: [[CellState; 3]; 3],
}

/// The mathematical model of a board: three rows of three cells.
pub type Grid = Seq<Seq<CellState>>;

/// A grid has exactly three rows of exactly three cells.
pub open spec fn grid_wf(grid: Grid) -> bool {
    &&& grid.len() == 3
    &&& forall|row: int| 0 <= row < 3 ==> (#[trigger] grid[row]).len() == 3
}

/// The grid in which no cell is marked.
pub open spec fn empty_grid() -> Grid {
    Seq::new(3, |row: int| Seq::new(3, |col: int| CellState::Empty))
}

/// `grid` with the cell at (`row`, `col`) replaced by `state`.
pub open spec fn grid_with(grid: Grid, row: int, col: int, state: CellState) -> Grid {
    grid.update(row, grid[row].update(col, state))
}

/// Every cell of `grid` holds a mark.
pub open spec fn grid_full(grid: Grid) -> bool {
    forall|row: int, col: int| 0 <= row < 3 && 0 <= col < 3 ==> #[trigger] grid[row][col] != CellState::Empty
}

/// What marking (`row`, `col`) for `player` does to `grid`: the new grid
/// when the cell is empty, `CellOccupied` otherwise.
pub open spec fn grid_mark(grid: Grid, row: int, col: int, player: Player) -> Result<Grid, Error> {
    if grid[row][col] == CellState::Empty {
        Ok(grid_with(grid, row, col, player.mark()))
    } else {
        Err(Error::CellOccupied)
    }
}

/// Marking a free cell succeeds, and from then on the cell is taken:
/// whoever tries to mark it again, either player, is turned down with
/// `CellOccupied`.
pub proof fn lemma_mark_once(grid: Grid, row: int, col: int, first: Player, second: Player)
    requires
        grid_wf(grid),
        0 <= row < 3,
        0 <= col < 3,
        grid[row][col] == CellState::Empty,
    ensures
        grid_mark(grid, row, col, first) == Ok::<Grid, Error>(grid_with(grid, row, col, first.mark())),
        grid_mark(grid_with(grid, row, col, first.mark()), row, col, second) == Err::<Grid, Error>(
            Error::CellOccupied,
        ),
{
}

impl View for Board {
    type V = Grid;

    open spec fn view(&self) -> Grid {
        Seq::new(3, |row: int| self.cells[row]@)
    }
}

impl Board {
    /// A board with nothing on it.
    pub fn new() -> (board: Board)
        ensures
            board@ == empty_grid(),
    {
        let board = Board { cells: [[CellState::Empty; 3]; 3] };
        assert(board@ =~~= empty_grid());
        board
    }

    /// What the cell at (`row`, `col`) holds.
    pub fn cell_at(&self, row: usize, col: usize) -> (state: CellState)
        requires
            row < 3,
            col < 3,
        ensures
            state == self@[row as int][col as int],
    {
        self.cells[row][col]
    }

    /// Marks the cell at (`row`, `col`) for `player` if it is empty.
    /// An occupied cell is an error and leaves the board as it was.
    pub fn mark(&mut self, row: usize, col: usize, player: Player) -> (r: Result<(), Error>)
        requires
            row < 3,
            col < 3,
        ensures
            match grid_mark(old(self)@, row as int, col as int, player) {
                Ok(grid) => r == Ok::<(), Error>(()) && final(self)@ == grid,
                Err(e) => r == Err::<(), Error>(e) && *final(self) == *old(self),
            },
    {
        match self.cells[row][col] {
            CellState::Empty => {
                self.cells[row][col] = player.to_cell();
                Ok(())
            },
            _ => Err(Error::CellOccupied),
        }
    }

    /// Whether every cell holds a mark.
    pub fn is_full(&self) -> (full: bool)
        ensures
            full == grid_full(self@),
    {
        let mut row: usize = 0;
        while row < 3
            invariant
                row <= 3,
                forall|r: int, c: int| 0 <= r < row && 0 <= c < 3 ==> #[trigger] self@[r][c] != CellState::Empty,
            decreases 3 - row,
        {
            let mut col: usize = 0;
            while col < 3
                invariant
                    row < 3,
                    col <= 3,
                    forall|r: int, c: int| 0 <= r < row && 0 <= c < 3 ==> #[trigger] self@[r][c] != CellState::Empty,
                    forall|c: int| 0 <= c < col ==> #[trigger] self@[row as int][c] != CellState::Empty,
                decreases 3 - col,
            {
                if self.cells[row][col] == CellState::Empty {
                    return false;
                }
                col += 1;
            }
            row += 1;
        }
        true
    }
}

} // verus!
