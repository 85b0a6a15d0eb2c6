use vstd::prelude::*;

verus! {

/// Why an input or a move was turned down. Neither is fatal: the game is
/// left as it was and the same player is asked again.
#[derive(Clone, Copy, Debug, PartialEq, Eq, Structural)]
pub enum Error {
    /// The chosen cell already holds a mark.
    CellOccupied,
    /// The key pressed is not one of the digits `'1'` to `'9'`.
    InvalidInputSymbol,
}

} // verus!
