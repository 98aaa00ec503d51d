use vstd::prelude::*;

use crate::components::{Block, GridPosition};
use crate::eating::{eat_number_on_spacebar, eat_step, unique_positions};
use crate::grid::{Extent, GridConfig};
use crate::level::{
    MAX_BLOCK_VALUE, MIN_BLOCK_VALUE, blocks_from_values, cell_count, cell_of, fresh_block,
    lemma_spawned_cells, spawn_grid,
};
use crate::movement::{
    MoveInput, PositionSync, move_player_on_grid, moved_position, spawn_player, sync_player_to_grid_position,
    sync_step,
};

verus! {

/// Everything the player did during one tick.
#[derive(Clone, Copy, Debug, PartialEq, Eq, Structural)]
pub struct TickInput {
    pub moves: MoveInput,
    pub eat: bool,
}

/// What one tick changed that the presentation layer must follow.
#[derive(Clone, Copy, Debug, PartialEq, Eq, Structural)]
pub struct TickOutcome {
    /// The player's render position was recomputed.
    pub repositioned: bool,
    /// Index of the block eaten during the tick, if any.
    pub eaten: Option<usize>,
}

/// One gameplay session: the grid's configuration, its blocks, the player's
/// cell and the player's render position. Each tick runs its phases in a
/// fixed order: movement, then render synchronisation, then eating.
pub struct GamePlugin {
    pub config: GridConfig,
    /// Size of the backdrop behind the grid: the size of the display.
    pub background: Extent,
    pub blocks: Vec<Block>,
    pub player: GridPosition,
    pub sync: PositionSync,
}

impl GamePlugin {
    /// A valid configuration, the player inside the grid, every block inside
    /// the grid and no two blocks on one cell.
    pub open spec fn wf(&self) -> bool {
        &&& self.config.wf()
        &&& self.player.in_bounds(self.config)
        &&& unique_positions(self.blocks@)
        &&& forall|i: int| 0 <= i < self.blocks.len() ==> (#[trigger] self.blocks[i]).grid_position.in_bounds(self.config)
    }

    /// A session just started on `config` with a backdrop of size
    /// `background`: one block on every cell, row by row from the bottom-left
    /// cell, none eaten; the player in the middle cell, drawn at its centre.
    pub open spec fn freshly_spawned(&self, config: GridConfig, background: Extent) -> bool {
        &&& self.wf()
        &&& self.config == config
        &&& self.background == background
        &&& self.blocks.len() == cell_count(config)
        &&& forall|i: int| 0 <= i < self.blocks.len() ==> (#[trigger] self.blocks[i]).grid_position == cell_of(i, config.cols as int)
        &&& forall|i: int| 0 <= i < self.blocks.len() ==> !(#[trigger] self.blocks[i]).number.is_eaten
        &&& self.player.row == config.rows / 2 && self.player.col == config.cols / 2
        &&& self.sync == sync_step(config, self.player, PositionSync::new_spec()).0
    }

    /// Starts a session on freshly spawned blocks.
    fn start(config: GridConfig, background: Extent, blocks: Vec<Block>) -> (r: GamePlugin)
        requires
            config.wf(),
            blocks.len() == cell_count(config),
            forall|i: int| 0 <= i < blocks.len() ==> (#[trigger] blocks[i]).grid_position == cell_of(i, config.cols as int),
            forall|i: int| 0 <= i < blocks.len() ==> !(#[trigger] blocks[i]).number.is_eaten,
        ensures
            r.freshly_spawned(config, background),
            r.blocks@ == blocks@,
    {
        proof {
            lemma_spawned_cells(config, blocks@);
        }
        let player = spawn_player(&config);
        let mut sync = PositionSync::new();
        sync_player_to_grid_position(&config, &player, &mut sync);
        GamePlugin { config, background, blocks, player, sync }
    }

    /// Starts a session on a new grid whose blocks carry random values in
    /// `[1, 100]`.
    pub fn build(config: GridConfig, background: Extent) -> (r: GamePlugin)
        requires
            config.wf(),
            cell_count(config) <= usize::MAX,
        ensures
            r.freshly_spawned(config, background),
            forall|i: int| 0 <= i < r.blocks.len() ==> MIN_BLOCK_VALUE <= (#[trigger] r.blocks[i]).number.value <= MAX_BLOCK_VALUE,
    {
        let blocks = spawn_grid(&config);
        GamePlugin::start(config, background, blocks)
    }

    /// Starts a session on a new grid whose `i`-th block, counted row by row
    /// from the bottom-left cell, shows `values[i]`.
    pub fn with_values(config: GridConfig, background: Extent, values: &Vec<i32>) -> (r: GamePlugin)
        requires
            config.wf(),
            values.len() == cell_count(config),
        ensures
            r.freshly_spawned(config, background),
            forall|i: int| 0 <= i < r.blocks.len() ==> #[trigger] r.blocks[i] == fresh_block(config, i, values[i]),
    {
        let blocks = blocks_from_values(&config, values);
        GamePlugin::start(config, background, blocks)
    }

    /// Runs one tick: moves the player, brings its render position up to
    /// date, then resolves an eat action on the player's new cell.
    pub fn tick(&mut self, input: &TickInput) -> (r: TickOutcome)
        requires
            old(self).wf(),
        ensures
            final(self).wf(),
            final(self).config == old(self).config,
            final(self).player == moved_position(old(self).player, input.moves, old(self).config),
            (final(self).sync, r.repositioned) == sync_step(old(self).config, final(self).player, old(self).sync),
            input.eat ==> eat_step(old(self).blocks@, final(self).player, r.eaten, final(self).blocks@),
            !input.eat ==> r.eaten is None && final(self).blocks@ == old(self).blocks@,
    {
        move_player_on_grid(&mut self.player, &input.moves, &self.config);
        let repositioned = sync_player_to_grid_position(&self.config, &self.player, &mut self.sync);
        let eaten = eat_number_on_spacebar(input.eat, &self.player, &mut self.blocks);
        proof {
            let before = old(self).blocks@;
            let after = self.blocks@;
            assert forall|i: int, j: int| 0 <= i < after.len() && 0 <= j < after.len() && i != j implies #[trigger] after[i].grid_position
                != #[trigger] after[j].grid_position by {
                assert(after[i].grid_position == before[i].grid_position);
                assert(after[j].grid_position == before[j].grid_position);
            }
            assert forall|i: int| 0 <= i < after.len() implies (#[trigger] after[i]).grid_position.in_bounds(self.config) by {
                assert(after[i].grid_position == before[i].grid_position);
            }
        }
        TickOutcome { repositioned, eaten }
    }
}

/// Why a level could not be spawned.
#[derive(Clone, Copy, Debug, PartialEq, Eq, Structural)]
pub enum SpawnError {
    /// No display size was available to size the backdrop; nothing was spawned.
    NoPrimaryWindow,
}

/// Spawns a level on `config`: its backdrop takes the size of the display,
/// and the grid and player are spawned as `GamePlugin::build` does. Without a
/// display size nothing is spawned and the error is reported.
pub fn spawn_level(config: GridConfig, window_size: Option<Extent>) -> (r: Result<GamePlugin, SpawnError>)
    requires
        config.wf(),
        cell_count(config) <= usize::MAX,
    ensures
        window_size is None <==> r == Err::<GamePlugin, SpawnError>(SpawnError::NoPrimaryWindow),
        window_size is Some <==> r is Ok,
        r matches Ok(g) ==> g.freshly_spawned(config, window_size->0),
        r matches Ok(g) ==> forall|i: int| 0 <= i < g.blocks.len() ==> MIN_BLOCK_VALUE <= (#[trigger] g.blocks[i]).number.value <= MAX_BLOCK_VALUE,
{
    match window_size {
        Some(size) => Ok(GamePlugin::build(config, size)),
        None => Err(SpawnError::NoPrimaryWindow),
    }
}

} // verus!
