use vstd::prelude::*;

use crate::board::{Board, CellState, Grid};
use crate::player::Player;

verus! {

/// The number of lines on the board: three columns, three rows, two
/// diagonals.
pub const LINES: usize = 8;

/// The position (row, column) of the `i`-th cell of a line. Lines are
/// numbered in the order in which they are examined: 0 to 2 are the
/// columns from left to right, 3 to 5 the rows from top to bottom, 6 is the
/// diagonal from the top left and 7 the diagonal from the top right.
pub open spec fn line_cell(line: int, i: int) -> (int, int) {
    if line < 3 {
        (i, line)
    } else if line < 6 {
        (line - 3, i)
    } else if line == 6 {
        (i, i)
    } else {
        (i, 2 - i)
    }
}

/// What the `i`-th cell of a line holds.
pub open spec fn line_state(grid: Grid, line: int, i: int) -> CellState {
    grid[line_cell(line, i).0][line_cell(line, i).1]
}

/// The player who has completed a line: its three cells are equal and not
/// empty, and the mark is that player's.
pub open spec fn line_owner(grid: Grid, line: int) -> Option<Player> {
    let first = line_state(grid, line, 0);
    if first == line_state(grid, line, 1) && first == line_state(grid, line, 2) {
        first.owner()
    } else {
        None
    }
}

/// All three cells of a line carry `player`'s mark.
pub open spec fn line_held_by(grid: Grid, line: int, player: Player) -> bool {
    &&& line_state(grid, line, 0) == player.mark()
    &&& line_state(grid, line, 1) == player.mark()
    &&& line_state(grid, line, 2) == player.mark()
}

/// Some row, column or diagonal is entirely `player`'s.
pub open spec fn holds_line(grid: Grid, player: Player) -> bool {
    exists|line: int| 0 <= line < LINES && line_held_by(grid, line, player)
}

/// No line is complete.
pub open spec fn no_line(grid: Grid) -> bool {
    forall|line: int| 0 <= line < LINES ==> line_owner(grid, line) is None
}

/// The owner of the first complete line among those numbered `from` and
/// above.
pub open spec fn first_owner(grid: Grid, from: int) -> Option<Player>
    decreases LINES - from,
{
    if from < 0 || from >= LINES {
        None
    } else if line_owner(grid, from) is Some {
        line_owner(grid, from)
    } else {
        first_owner(grid, from + 1)
    }
}

/// The winner that the board shows: the owner of the first complete line
/// in the order columns, rows, diagonals; `None` when no line is complete.
pub open spec fn winner(grid: Grid) -> Option<Player> {
    first_owner(grid, 0)
}

/// A line is owned by exactly the player whose mark fills it.
pub proof fn lemma_line_owner_held(grid: Grid, line: int, player: Player)
    ensures
        line_owner(grid, line) == Some(player) <==> line_held_by(grid, line, player),
{
}

/// `first_owner` is the owner of the least complete line at or after
/// `from`, and `None` exactly when there is none.
pub proof fn lemma_first_owner(grid: Grid, from: int)
    requires
        0 <= from <= LINES,
    ensures
        match first_owner(grid, from) {
            Some(player) => exists|line: int|
                from <= line < LINES && line_owner(grid, line) == Some(player) && forall|before: int|
                    from <= before < line ==> line_owner(grid, before) is None,
            None => forall|line: int| from <= line < LINES ==> line_owner(grid, line) is None,
        },
    decreases LINES - from,
{
    if from < LINES {
        if line_owner(grid, from) is Some {
            assert(from <= from < LINES && line_owner(grid, from) == first_owner(grid, from));
        } else {
            lemma_first_owner(grid, from + 1);
            if let Some(player) = first_owner(grid, from + 1) {
                let line = choose|line: int|
                    from + 1 <= line < LINES && line_owner(grid, line) == Some(player) && forall|before: int|
                        from + 1 <= before < line ==> line_owner(grid, before) is None;
                assert(from <= line < LINES && line_owner(grid, line) == Some(player));
            }
        }
    }
}

/// Lines that are not complete do not count: when none below `line` is
/// complete, the search from the start finds what the search from `line`
/// finds.
pub proof fn lemma_first_owner_skip(grid: Grid, line: int)
    requires
        0 <= line <= LINES,
        forall|before: int| 0 <= before < line ==> line_owner(grid, before) is None,
    ensures
        winner(grid) == first_owner(grid, line),
    decreases line,
{
    if line > 0 {
        lemma_first_owner_skip(grid, line - 1);
    }
}

/// The winner is the owner of the first complete line; there is no winner
/// exactly when no line is complete.
pub proof fn lemma_winner_is_first_line(grid: Grid)
    ensures
        match winner(grid) {
            Some(player) => exists|line: int|
                0 <= line < LINES && line_owner(grid, line) == Some(player) && forall|before: int|
                    0 <= before < line ==> line_owner(grid, before) is None,
            None => no_line(grid),
        },
{
    lemma_first_owner(grid, 0);
}

/// There is no winner exactly when neither player holds a line.
pub proof fn lemma_no_winner_iff_no_line(grid: Grid)
    ensures
        winner(grid) is None <==> no_line(grid),
        no_line(grid) <==> !holds_line(grid, Player::Noughts) && !holds_line(grid, Player::Crosses),
{
    lemma_first_owner(grid, 0);
    if no_line(grid) {
        assert forall|player: Player| !holds_line(grid, player) by {
            if holds_line(grid, player) {
                let line = choose|line: int| 0 <= line < LINES && line_held_by(grid, line, player);
                lemma_line_owner_held(grid, line, player);
            }
        }
    } else {
        let line = choose|line: int| 0 <= line < LINES && line_owner(grid, line) is Some;
        let player = line_owner(grid, line)->Some_0;
        lemma_line_owner_held(grid, line, player);
        assert(holds_line(grid, player));
    }
}

/// A winner holds a line.
pub proof fn lemma_winner_holds_line(grid: Grid, player: Player)
    requires
        winner(grid) == Some(player),
    ensures
        holds_line(grid, player),
{
    lemma_first_owner(grid, 0);
    let line = choose|line: int| 0 <= line < LINES && line_owner(grid, line) == Some(player);
    lemma_line_owner_held(grid, line, player);
}

/// On a board where not both players hold a line, `player` is the winner
/// if and only if some row, column or diagonal is entirely `player`'s.
pub proof fn lemma_winner_iff_holds_line(grid: Grid, player: Player)
    requires
        !(holds_line(grid, Player::Noughts) && holds_line(grid, Player::Crosses)),
    ensures
        winner(grid) == Some(player) <==> holds_line(grid, player),
{
    lemma_no_winner_iff_no_line(grid);
    if let Some(found) = winner(grid) {
        lemma_winner_holds_line(grid, found);
    }
}

/// The position of the `i`-th cell of a line, see [`line_cell`].
fn line_cell_at(line: usize, i: usize) -> (cell: (usize, usize))
    requires
        line < LINES,
        i < 3,
    ensures
        (cell.0 as int, cell.1 as int) == line_cell(line as int, i as int),
        cell.0 < 3,
        cell.1 < 3,
{
    if line < 3 {
        (i, line)
    } else if line < 6 {
        (line - 3, i)
    } else if line == 6 {
        (i, i)
    } else {
        (i, 2 - i)
    }
}

/// The player who has completed the given line, if anyone has.
fn owner_of_line(board: &Board, line: usize) -> (owner: Option<Player>)
    requires
        line < LINES,
    ensures
        owner == line_owner(board@, line as int),
{
    let (row0, col0) = line_cell_at(line, 0);
    let (row1, col1) = line_cell_at(line, 1);
    let (row2, col2) = line_cell_at(line, 2);
    let first = board.cell_at(row0, col0);
    if first == board.cell_at(row1, col1) && first == board.cell_at(row2, col2) {
        match first.to_player() {
            Ok(player) => Some(player),
            Err(_) => None,
        }
    } else {
        None
    }
}

/// Looks for a complete line: first down the columns, then along the rows,
/// then along the two diagonals, and returns the owner of the first one
/// found. The board is not changed. A full board without a complete line
/// gives `None` like any other board without one.
pub fn check_win(board: &Board) -> (r: Option<Player>)
    ensures
        r == winner(board@),
        r is None <==> no_line(board@),
        r matches Some(player) ==> holds_line(board@, player),
        forall|player: Player|
            !(holds_line(board@, Player::Noughts) && holds_line(board@, Player::Crosses)) ==> (r == Some(player)
                <==> #[trigger] holds_line(board@, player)),
{
    let mut line: usize = 0;
    let mut found: Option<Player> = None;
    while line < LINES && found.is_none()
        invariant
            line <= LINES,
            found is None ==> forall|before: int| 0 <= before < line ==> line_owner(board@, before) is None,
            found is Some ==> found == winner(board@),
        decreases LINES - line + if found is None { 1int } else { 0int },
    {
        let owner = owner_of_line(board, line);
        proof {
            lemma_first_owner_skip(board@, line as int);
        }
        match owner {
            Some(player) => {
                found = Some(player);
            },
            None => {
                line += 1;
            },
        }
    }
    proof {
        if found is None {
            lemma_first_owner_skip(board@, LINES as int);
        }
        lemma_no_winner_iff_no_line(board@);
        if let Some(player) = found {
            lemma_winner_holds_line(board@, player);
        }
        assert forall|player: Player|
            !(holds_line(board@, Player::Noughts) && holds_line(board@, Player::Crosses)) implies (found == Some(player)
            <==> #[trigger] holds_line(board@, player)) by {
            lemma_winner_iff_holds_line(board@, player);
        }
    }
    found
}

} // verus!
