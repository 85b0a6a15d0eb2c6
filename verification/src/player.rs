use vstd::prelude::*;

use crate::board::CellState;

verus! {

/// The two sides. Crosses moves first.
#[derive(Clone, Copy, Debug, PartialEq, Eq, Structural)]
pub enum Player {
    Noughts,
    Crosses,
}

impl Player {
    /// The other side.
    pub open spec fn opponent(self) -> Player {
        match self {
            Player::Noughts => Player::Crosses,
            Player::Crosses => Player::Noughts,
        }
    }

    /// The state of a cell that this player has marked.
    pub open spec fn mark(self) -> CellState {
        match self {
            Player::Noughts => CellState::Nought,
            Player::Crosses => CellState::Cross,
        }
    }

    /// The letter this player draws on the board.
    pub open spec fn letter(self) -> char {
        match self {
            Player::Noughts => 'O',
            Player::Crosses => 'X',
        }
    }

    /// The number under which this player is addressed.
    pub open spec fn number(self) -> int {
        match self {
            Player::Noughts => 2,
            Player::Crosses => 1,
        }
    }

    /// The name under which this player's side is known.
    pub open spec fn name(self) -> Seq<char> {
        match self {
            Player::Noughts => "Noughts"@,
            Player::Crosses => "Crosses"@,
        }
    }

    /// The letter this player draws: `'X'` for Crosses, `'O'` for Noughts.
    pub fn to_letter(&self) -> (letter: char)
        ensures
            letter == self.letter(),
    {
        match self {
            Player::Noughts => 'O',
            Player::Crosses => 'X',
        }
    }

    /// The number under which this player is addressed: 1 for Crosses, 2
    /// for Noughts.
    pub fn to_number(&self) -> (number: i32)
        ensures
            number == self.number(),
    {
        match self {
            Player::Noughts => 2,
            Player::Crosses => 1,
        }
    }

    /// The name of this player's side.
    pub fn to_name(&self) -> (name: &'static str)
        ensures
            name@ == self.name(),
    {
        match self {
            Player::Noughts => "Noughts",
            Player::Crosses => "Crosses",
        }
    }

    /// The cell state that a move of this player leaves behind.
    pub fn to_cell(&self) -> (state: CellState)
        ensures
            state == self.mark(),
    {
        match self {
            Player::Noughts => CellState::Nought,
            Player::Crosses => CellState::Cross,
        }
    }
}

} // verus!
