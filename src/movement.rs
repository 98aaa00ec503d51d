use vstd::prelude::*;

use crate::components::GridPosition;
use crate::grid::{GridConfig, WorldPos, block_center_of, calculate_block_center, calculate_grid_layout};

verus! {

/// The directions pressed during one tick. Up and right add one to the row
/// and to the column, down and left take one away.
#[derive(Clone, Copy, Debug, PartialEq, Eq, Structural)]
pub struct MoveInput {
    pub up: bool,
    pub down: bool,
    pub left: bool,
    pub right: bool,
}

impl MoveInput {
    /// At least one direction was pressed.
    pub open spec fn any(self) -> bool {
        self.up || self.down || self.left || self.right
    }
}

/// `v` brought into `[lo, hi]`.
pub open spec fn clamp_int(v: int, lo: int, hi: int) -> int {
    if v < lo {
        lo
    } else if v > hi {
        hi
    } else {
        v
    }
}

/// One step along an axis: +1 for `forward`, -1 for `backward`, both or neither cancel.
pub open spec fn step_of(forward: bool, backward: bool) -> int {
    (if forward { 1int } else { 0int }) - (if backward { 1int } else { 0int })
}

/// `pos` brought inside the grid, each coordinate clamped on its own.
pub open spec fn clamped(pos: GridPosition, config: GridConfig) -> GridPosition {
    GridPosition {
        row: clamp_int(pos.row as int, 0, config.rows - 1) as i32,
        col: clamp_int(pos.col as int, 0, config.cols - 1) as i32,
    }
}

/// Where the player stands after one tick of `input`: every pressed
/// direction is applied, then both coordinates are clamped to the grid.
/// Without input the position is left as it is.
pub open spec fn moved_position(pos: GridPosition, input: MoveInput, config: GridConfig) -> GridPosition {
    if input.any() {
        GridPosition {
            row: clamp_int(pos.row + step_of(input.up, input.down), 0, config.rows - 1) as i32,
            col: clamp_int(pos.col + step_of(input.right, input.left), 0, config.cols - 1) as i32,
        }
    } else {
        pos
    }
}

/// `v` clamped to `[0, hi]`.
fn clamp_to(v: i64, hi: i32) -> (r: i32)
    requires
        hi >= 0,
    ensures
        r == clamp_int(v as int, 0, hi as int),
{
    if v < 0 {
        0
    } else if v > hi as i64 {
        hi
    } else {
        v as i32
    }
}

/// Brings a position inside the grid.
pub fn clamp_grid_position(pos: &mut GridPosition, config: &GridConfig)
    requires
        config.wf(),
    ensures
        *final(pos) == clamped(*old(pos), *config),
        final(pos).in_bounds(*config),
{
    pos.row = clamp_to(pos.row as i64, config.rows - 1);
    pos.col = clamp_to(pos.col as i64, config.cols - 1);
}

/// Moves the player by one tick of directional input, staying on the grid.
pub fn move_player_on_grid(grid_pos: &mut GridPosition, input: &MoveInput, config: &GridConfig)
    requires
        config.wf(),
    ensures
        *final(grid_pos) == moved_position(*old(grid_pos), *input, *config),
        input.any() ==> final(grid_pos).in_bounds(*config),
        old(grid_pos).in_bounds(*config) ==> final(grid_pos).in_bounds(*config),
{
    if input.up || input.down || input.left || input.right {
        let mut row: i64 = grid_pos.row as i64;
        let mut col: i64 = grid_pos.col as i64;
        if input.up {
            row = row + 1;
        }
        if input.down {
            row = row - 1;
        }
        if input.left {
            col = col - 1;
        }
        if input.right {
            col = col + 1;
        }
        grid_pos.row = clamp_to(row, config.rows - 1);
        grid_pos.col = clamp_to(col, config.cols - 1);
    }
}

/// The cell where the player starts: the middle of the grid.
pub fn spawn_player(config: &GridConfig) -> (r: GridPosition)
    requires
        config.wf(),
    ensures
        r.row == config.rows / 2,
        r.col == config.cols / 2,
        r.in_bounds(*config),
{
    GridPosition { row: config.rows / 2, col: config.cols / 2 }
}

/// The render position last handed out for the player, and the cell it was
/// computed from.
#[derive(Clone, Copy, Debug, PartialEq, Eq, Structural)]
pub struct PositionSync {
    pub last_synced: Option<GridPosition>,
    pub translation: WorldPos,
}

impl PositionSync {
    /// Nothing synchronised yet; the player is drawn at the origin.
    pub open spec fn new_spec() -> PositionSync {
        PositionSync { last_synced: None, translation: WorldPos { twice_x: 0, twice_y: 0 } }
    }

    /// Nothing synchronised yet; the player is drawn at the origin.
    pub fn new() -> (r: PositionSync)
        ensures
            r == PositionSync::new_spec(),
    {
        PositionSync { last_synced: None, translation: WorldPos::origin() }
    }
}

/// What synchronising the render position to cell `pos` does: when `pos` is
/// the cell last synchronised nothing changes; otherwise the translation
/// becomes the cell's centre. The flag tells whether anything was recomputed.
pub open spec fn sync_step(config: GridConfig, pos: GridPosition, sync: PositionSync) -> (PositionSync, bool) {
    if sync.last_synced == Some(pos) {
        (sync, false)
    } else {
        (
            PositionSync {
                last_synced: Some(pos),
                translation: block_center_of(config, pos.row as int, pos.col as int),
            },
            true,
        )
    }
}

/// Brings the player's render position up to date with its cell, only when
/// the cell changed since the last call. Returns whether it recomputed.
pub fn sync_player_to_grid_position(config: &GridConfig, grid_pos: &GridPosition, sync: &mut PositionSync) -> (changed: bool)
    requires
        config.wf(),
        grid_pos.in_bounds(*config),
    ensures
        (*final(sync), changed) == sync_step(*config, *grid_pos, *old(sync)),
{
    let unchanged = match sync.last_synced {
        Some(last) => last.row == grid_pos.row && last.col == grid_pos.col,
        None => false,
    };
    if unchanged {
        false
    } else {
        let layout = calculate_grid_layout(config);
        let center = calculate_block_center(config, layout.bottom_left, grid_pos.row, grid_pos.col);
        sync.last_synced = Some(*grid_pos);
        sync.translation = center;
        true
    }
}

/// Synchronising twice to the same cell: the second call changes nothing and
/// reports that nothing was recomputed.
pub proof fn lemma_sync_twice_is_noop(config: GridConfig, pos: GridPosition, sync: PositionSync)
    ensures
        sync_step(config, pos, sync_step(config, pos, sync).0) == (sync_step(config, pos, sync).0, false),
{
}

} // verus!
