use vstd::prelude::*;

use crate::board::{Board, CellState, Grid};
use crate::input::{cell_symbol, symbol_cell};
use crate::player::Player;

verus! {

/// The character of a decimal digit.
pub open spec fn digit_char(digit: int) -> char {
    ('0' as int + digit) as char
}

/// A number written in decimal, without leading zeros.
pub open spec fn decimal(n: nat) -> Seq<char>
    decreases n,
{
    if n < 10 {
        seq![digit_char(n as int)]
    } else {
        decimal(n / 10).push(digit_char((n % 10) as int))
    }
}

/// How a cell is shown: a mark as `[X]` or `[O]`, an empty cell as its
/// position in brackets, counted from 1.
pub open spec fn cell_text(state: CellState, position: nat) -> Seq<char> {
    match state.owner() {
        Some(player) => seq!['[', player.letter(), ']'],
        None => seq!['['] + decimal(position) + seq![']'],
    }
}

/// How a row is shown: its three cells, one space between them. The
/// cells of row `row` have the positions `3 * row + 1` to `3 * row + 3`.
pub open spec fn row_text(grid: Grid, row: int) -> Seq<char> {
    cell_text(grid[row][0], (3 * row + 1) as nat) + seq![' '] + cell_text(grid[row][1], (3 * row + 2) as nat)
        + seq![' '] + cell_text(grid[row][2], (3 * row + 3) as nat)
}

/// The line that asks a player for a move.
pub open spec fn prompt_text(player: Player) -> Seq<char> {
    "Please type a number to place an "@ + seq![player.letter()] + "\nPlayer "@ + decimal(player.number() as nat)
        + " ("@ + seq![player.letter()] + "): "@
}

/// The line that closes a game.
pub open spec fn outcome_text(winner: Option<Player>) -> Seq<char> {
    match winner {
        Some(player) => player.name() + " wins!"@,
        None => "It's a draw!"@,
    }
}

/// The legend is the input mapping read backwards: an empty cell shows the
/// digit that selects it.
pub proof fn lemma_legend_matches_input(row: int, col: int)
    requires
        0 <= row < 3,
        0 <= col < 3,
    ensures
        cell_text(CellState::Empty, (3 * row + col + 1) as nat) == seq!['[', cell_symbol(row, col), ']'],
        symbol_cell(cell_symbol(row, col)) == Some((row as usize, col as usize)),
{
    assert(decimal((3 * row + col + 1) as nat) == seq![cell_symbol(row, col)]);
    assert(seq!['['] + seq![cell_symbol(row, col)] + seq![']'] =~= seq!['[', cell_symbol(row, col), ']']);
}

/// One decimal digit as text.
fn digit_str(digit: usize) -> (text: &'static str)
    requires
        digit < 10,
    ensures
        text@ == seq![digit_char(digit as int)],
{
    proof {
        reveal_strlit("0");
        reveal_strlit("1");
        reveal_strlit("2");
        reveal_strlit("3");
        reveal_strlit("4");
        reveal_strlit("5");
        reveal_strlit("6");
        reveal_strlit("7");
        reveal_strlit("8");
        reveal_strlit("9");
    }
    let text = match digit {
        0 => "0",
        1 => "1",
        2 => "2",
        3 => "3",
        4 => "4",
        5 => "5",
        6 => "6",
        7 => "7",
        8 => "8",
        _ => "9",
    };
    assert(text@ =~= seq![digit_char(digit as int)]);
    text
}

/// A player's letter as text.
fn letter_str(player: &Player) -> (text: &'static str)
    ensures
        text@ == seq![player.letter()],
{
    proof {
        reveal_strlit("O");
        reveal_strlit("X");
    }
    let text = match player {
        Player::Noughts => "O",
        Player::Crosses => "X",
    };
    assert(text@ =~= seq![player.letter()]);
    text
}

/// Writes a number in decimal.
pub fn decimal_string(n: usize) -> (text: String)
    ensures
        text@ == decimal(n as nat),
    decreases n,
{
    if n < 10 {
        String::from_str(digit_str(n))
    } else {
        let mut text = decimal_string(n / 10);
        text.append(digit_str(n % 10));
        text
    }
}

/// Advances the position counter `cell` by one and shows the cell at the
/// new position: `[X]` or `[O]` for a mark, the position in brackets for
/// an empty cell.
pub fn get_cell(state: &CellState, cell: &mut usize) -> (text: String)
    requires
        *old(cell) < usize::MAX,
    ensures
        *final(cell) == *old(cell) + 1,
        text@ == cell_text(*state, (*old(cell) + 1) as nat),
{
    *cell += 1;
    let mut text = String::from_str("[");
    match state.to_player() {
        Ok(player) => text.append(letter_str(&player)),
        Err(_) => text.append(decimal_string(*cell).as_str()),
    }
    text.append("]");
    proof {
        reveal_strlit("[");
        reveal_strlit("]");
        assert(text@ =~= cell_text(*state, (*old(cell) + 1) as nat));
    }
    text
}

/// The board as three lines of text, top row first. Each line shows the
/// three cells of a row with one space between them; an empty cell shows
/// the digit to press for it.
pub fn render(board: &Board) -> (lines: Vec<String>)
    ensures
        lines@.len() == 3,
        forall|row: int| 0 <= row < 3 ==> (#[trigger] lines@[row])@ == row_text(board@, row),
{
    let mut lines: Vec<String> = Vec::new();
    let mut position: usize = 0;
    let mut row: usize = 0;
    while row < 3
        invariant
            row <= 3,
            position == 3 * row,
            lines@.len() == row,
            forall|r: int| 0 <= r < row ==> (#[trigger] lines@[r])@ == row_text(board@, r),
        decreases 3 - row,
    {
        let mut line = get_cell(&board.cells[row][0], &mut position);
        line.append(" ");
        line.append(get_cell(&board.cells[row][1], &mut position).as_str());
        line.append(" ");
        line.append(get_cell(&board.cells[row][2], &mut position).as_str());
        proof {
            reveal_strlit(" ");
            assert(line@ =~= row_text(board@, row as int));
        }
        lines.push(line);
        row += 1;
    }
    lines
}

/// The line that asks `player` for a move.
pub fn prompt(player: &Player) -> (text: String)
    ensures
        text@ == prompt_text(*player),
{
    let number = player.to_number();
    let mut text = String::from_str("Please type a number to place an ");
    text.append(letter_str(player));
    text.append("\nPlayer ");
    text.append(decimal_string(number as usize).as_str());
    text.append(" (");
    text.append(letter_str(player));
    text.append("): ");
    text
}

/// The line that closes a game: who won, or that nobody did.
pub fn announce(winner: Option<Player>) -> (text: String)
    ensures
        text@ == outcome_text(winner),
{
    match winner {
        Some(player) => {
            let mut text = String::from_str(player.to_name());
            text.append(" wins!");
            text
        },
        None => String::from_str("It's a draw!"),
    }
}

} // verus!
