use vstd::prelude::*;

use crate::error::Error;

verus! {

/// One key press, as far as the game cares about it.
#[derive(Clone, Copy, Debug, PartialEq, Eq)]
pub enum KeyPress {
    /// A key that produces a character.
    Char(char),
    /// Any other key.
    Other,
}

/// The cell that an input symbol stands for. The digits `'1'` to `'9'`
/// number the cells row by row from the top left; nothing else stands for
/// a cell.
pub open spec fn symbol_cell(symbol: char) -> Option<(usize, usize)> {
    if '1' <= symbol && symbol <= '9' {
        let position = symbol as int - '1' as int;
        Some(((position / 3) as usize, (position % 3) as usize))
    } else {
        None
    }
}

/// The cell that a key selects, if it selects one.
pub open spec fn key_cell(key: KeyPress) -> Option<(usize, usize)> {
    match key {
        KeyPress::Char(symbol) => symbol_cell(symbol),
        KeyPress::Other => None,
    }
}

/// The digit that stands for the cell at (`row`, `col`).
pub open spec fn cell_symbol(row: int, col: int) -> char {
    ('1' as int + 3 * row + col) as char
}

/// Maps a key's character to the cell it selects. Whether the cell is
/// free is not looked at here.
pub fn resolve_input(symbol: char) -> (r: Result<(usize, usize), Error>)
    ensures
        match symbol_cell(symbol) {
            Some(cell) => r == Ok::<(usize, usize), Error>(cell),
            None => r == Err::<(usize, usize), Error>(Error::InvalidInputSymbol),
        },
        r matches Ok(cell) ==> cell.0 < 3 && cell.1 < 3,
{
    match symbol {
        '1' => Ok((0, 0)),
        '2' => Ok((0, 1)),
        '3' => Ok((0, 2)),
        '4' => Ok((1, 0)),
        '5' => Ok((1, 1)),
        '6' => Ok((1, 2)),
        '7' => Ok((2, 0)),
        '8' => Ok((2, 1)),
        '9' => Ok((2, 2)),
        _ => Err(Error::InvalidInputSymbol),
    }
}

/// The input mapping is a one-to-one correspondence between the nine
/// digits `'1'` to `'9'` and the nine cells: every digit selects a cell of
/// the board, two symbols that select the same cell are the same symbol,
/// and every cell is selected by its digit. No other symbol selects a cell.
pub proof fn lemma_input_mapping_bijective()
    ensures
        forall|symbol: char|
            '1' <= symbol && symbol <= '9' <==> (#[trigger] symbol_cell(symbol)) is Some,
        forall|symbol: char|
            (#[trigger] symbol_cell(symbol)) matches Some(cell) ==> cell.0 < 3 && cell.1 < 3,
        forall|a: char, b: char|
            (#[trigger] symbol_cell(a)) is Some && symbol_cell(a) == (#[trigger] symbol_cell(b)) ==> a == b,
        forall|row: int, col: int|
            0 <= row < 3 && 0 <= col < 3 ==> '1' <= (#[trigger] cell_symbol(row, col)) <= '9' && symbol_cell(
                cell_symbol(row, col),
            ) == Some((row as usize, col as usize)),
{
    assert forall|a: char, b: char|
        (#[trigger] symbol_cell(a)) is Some && symbol_cell(a) == (#[trigger] symbol_cell(b)) implies a == b by {
        let i = a as int - '1' as int;
        let j = b as int - '1' as int;
        assert(i == 3 * (i / 3) + i % 3);
        assert(j == 3 * (j / 3) + j % 3);
    }
}

} // verus!
