use vstd::prelude::*;

use crate::grid::GridConfig;

verus! {

/// A cell of the grid: `row` counts upward from the bottom row, `col`
/// rightward from the left column.
#[derive(Clone, Copy, Debug, PartialEq, Eq, Structural)]
pub struct GridPosition {
    pub row: i32,
    pub col: i32,
}

impl GridPosition {
    /// The cell lies inside the grid that `config` describes.
    pub open spec fn in_bounds(self, config: GridConfig) -> bool {
        0 <= self.row < config.rows && 0 <= self.col < config.cols
    }
}

impl Default for GridPosition {
    /// The bottom-left cell.
    fn default() -> (r: GridPosition)
        ensures
            r == (GridPosition { row: 0, col: 0 }),
    {
        GridPosition { row: 0, col: 0 }
    }
}

/// The number a block shows, and whether the player has eaten it.
#[derive(Clone, Copy, Debug, PartialEq, Eq, Structural)]
pub struct NumberBlock {
    pub value: i32,
    pub is_eaten: bool,
}

/// A block of the grid together with the cell it stands on.
#[derive(Clone, Copy, Debug, PartialEq, Eq, Structural)]
pub struct Block {
    pub grid_position: GridPosition,
    pub number: NumberBlock,
}

/// The player's score.
#[derive(Clone, Copy, Debug, PartialEq, Eq, Structural)]
pub struct Player {
    pub score: i32,
}

impl Default for Player {
    /// A player who has scored nothing yet.
    fn default() -> (r: Player)
        ensures
            r.score == 0,
    {
        Player { score: 0 }
    }
}

/// Damage dealt by one hit.
#[derive(Clone, Copy, Debug, PartialEq, Eq, Structural)]
pub struct Damage {
    pub amount: i32,
}

impl Default for Damage {
    /// One point of damage.
    fn default() -> (r: Damage)
        ensures
            r.amount == 1,
    {
        Damage { amount: 1 }
    }
}

} // verus!
