use math_mono::components::{Block, Damage, GridPosition, NumberBlock, Player};
use math_mono::eating::{eat_number_on_spacebar, update_block_visuals, LabelVisibility};
use math_mono::game::{spawn_level, GamePlugin, SpawnError, TickInput};
use math_mono::grid::{calculate_block_center, calculate_grid_layout, Extent, GridConfig, WorldPos};
use math_mono::level::{blocks_from_values, spawn_grid};
use math_mono::movement::{
    clamp_grid_position, move_player_on_grid, spawn_player, sync_player_to_grid_position, MoveInput,
    PositionSync,
};

const SCREEN: Extent = Extent { width: 1280, height: 720 };

const NONE: MoveInput = MoveInput { up: false, down: false, left: false, right: false };

fn block(row: i32, col: i32, value: i32) -> Block {
    Block { grid_position: GridPosition { row, col }, number: NumberBlock { value, is_eaten: false } }
}

#[test]
fn move_left_and_down_at_corner_stays() {
    let config = GridConfig::default();
    let mut pos = GridPosition { row: 0, col: 0 };
    move_player_on_grid(&mut pos, &MoveInput { left: true, down: true, ..NONE }, &config);
    assert_eq!(pos, GridPosition { row: 0, col: 0 });
}

#[test]
fn move_up_and_right_mid_grid_is_diagonal() {
    let config = GridConfig::default();
    let mut pos = GridPosition { row: 3, col: 3 };
    move_player_on_grid(&mut pos, &MoveInput { up: true, right: true, ..NONE }, &config);
    assert_eq!(pos, GridPosition { row: 4, col: 4 });
}

#[test]
fn move_at_top_right_corner_clamps() {
    let config = GridConfig::default();
    let mut pos = GridPosition { row: 6, col: 6 };
    move_player_on_grid(&mut pos, &MoveInput { up: true, right: true, ..NONE }, &config);
    assert_eq!(pos, GridPosition { row: 6, col: 6 });
    move_player_on_grid(&mut pos, &MoveInput { down: true, left: true, ..NONE }, &config);
    assert_eq!(pos, GridPosition { row: 5, col: 5 });
}

#[test]
fn opposite_directions_cancel() {
    let config = GridConfig::default();
    let mut pos = GridPosition { row: 2, col: 4 };
    move_player_on_grid(&mut pos, &MoveInput { up: true, down: true, left: true, right: true }, &config);
    assert_eq!(pos, GridPosition { row: 2, col: 4 });
}

#[test]
fn no_input_leaves_position_alone() {
    let config = GridConfig::default();
    let mut pos = GridPosition { row: 9, col: -4 };
    move_player_on_grid(&mut pos, &NONE, &config);
    assert_eq!(pos, GridPosition { row: 9, col: -4 });
    move_player_on_grid(&mut pos, &MoveInput { right: true, ..NONE }, &config);
    assert_eq!(pos, GridPosition { row: 6, col: 0 });
}

#[test]
fn clamp_brings_position_inside() {
    let config = GridConfig::new(3, 4, 10, 10, 1).unwrap();
    let mut pos = GridPosition { row: -5, col: 12 };
    clamp_grid_position(&mut pos, &config);
    assert_eq!(pos, GridPosition { row: 0, col: 3 });
    let mut inside = GridPosition { row: 1, col: 2 };
    clamp_grid_position(&mut inside, &config);
    assert_eq!(inside, GridPosition { row: 1, col: 2 });
}

#[test]
fn player_starts_in_middle() {
    assert_eq!(spawn_player(&GridConfig::default()), GridPosition { row: 3, col: 3 });
    let config = GridConfig::new(4, 5, 10, 10, 0).unwrap();
    assert_eq!(spawn_player(&config), GridPosition { row: 2, col: 2 });
}

#[test]
fn sync_recomputes_only_on_change() {
    let config = GridConfig::default();
    let mut sync = PositionSync::new();
    assert_eq!(sync.translation, WorldPos::origin());
    let pos = GridPosition { row: 0, col: 0 };
    assert!(sync_player_to_grid_position(&config, &pos, &mut sync));
    assert_eq!(sync.translation, WorldPos::from_units(-309, -309));
    assert_eq!(sync.last_synced, Some(pos));
    let before = sync;
    assert!(!sync_player_to_grid_position(&config, &pos, &mut sync));
    assert_eq!(sync, before);
    let moved = GridPosition { row: 1, col: 0 };
    assert!(sync_player_to_grid_position(&config, &moved, &mut sync));
    assert_eq!(sync.translation, WorldPos::from_units(-309, -206));
}

#[test]
fn eat_twice_eats_once() {
    let mut blocks = vec![block(0, 0, 5), block(3, 3, 42), block(6, 6, 7)];
    let player = GridPosition { row: 3, col: 3 };
    assert_eq!(eat_number_on_spacebar(true, &player, &mut blocks), Some(1));
    assert!(blocks[1].number.is_eaten);
    let after_first = blocks.clone();
    assert_eq!(eat_number_on_spacebar(true, &player, &mut blocks), None);
    assert_eq!(blocks, after_first);
}

#[test]
fn eat_affects_only_colocated_block() {
    let mut blocks = vec![block(1, 2, 10), block(2, 1, 20)];
    let player = GridPosition { row: 2, col: 1 };
    assert_eq!(eat_number_on_spacebar(true, &player, &mut blocks), Some(1));
    assert_eq!(blocks[0], block(1, 2, 10));
    assert_eq!(blocks[1].number, NumberBlock { value: 20, is_eaten: true });
    assert_eq!(blocks[1].grid_position, player);
}

#[test]
fn eat_on_empty_cell_or_without_press_is_noop() {
    let mut blocks = vec![block(0, 0, 1)];
    let original = blocks.clone();
    assert_eq!(eat_number_on_spacebar(true, &GridPosition { row: 4, col: 4 }, &mut blocks), None);
    assert_eq!(blocks, original);
    assert_eq!(eat_number_on_spacebar(false, &GridPosition { row: 0, col: 0 }, &mut blocks), None);
    assert_eq!(blocks, original);
    let mut empty: Vec<Block> = Vec::new();
    assert_eq!(eat_number_on_spacebar(true, &GridPosition { row: 0, col: 0 }, &mut empty), None);
}

#[test]
fn eat_takes_first_uneaten_match() {
    let mut blocks = vec![block(1, 1, 3), block(1, 1, 4)];
    blocks[0].number.is_eaten = true;
    assert_eq!(eat_number_on_spacebar(true, &GridPosition { row: 1, col: 1 }, &mut blocks), Some(1));
    assert!(blocks[1].number.is_eaten);
}

#[test]
fn label_hidden_exactly_when_eaten() {
    assert_eq!(update_block_visuals(&NumberBlock { value: 9, is_eaten: true }), LabelVisibility::Hidden);
    assert_eq!(update_block_visuals(&NumberBlock { value: 9, is_eaten: false }), LabelVisibility::Visible);
}

#[test]
fn blocks_cover_grid_row_by_row() {
    let config = GridConfig::new(2, 3, 10, 10, 0).unwrap();
    let values = vec![1, 2, 3, 4, 5, 6];
    let blocks = blocks_from_values(&config, &values);
    assert_eq!(
        blocks,
        vec![block(0, 0, 1), block(0, 1, 2), block(0, 2, 3), block(1, 0, 4), block(1, 1, 5), block(1, 2, 6)]
    );
}

#[test]
fn spawned_grid_has_random_values_in_range() {
    let config = GridConfig::default();
    let blocks = spawn_grid(&config);
    assert_eq!(blocks.len(), 49);
    for (i, b) in blocks.iter().enumerate() {
        assert!((1..=100).contains(&b.number.value));
        assert!(!b.number.is_eaten);
        assert_eq!(b.grid_position, GridPosition { row: (i / 7) as i32, col: (i % 7) as i32 });
    }
    // 49 draws that all agree are practically impossible.
    assert!(blocks.iter().any(|b| b.number.value != blocks[0].number.value));
}

#[test]
fn session_tick_moves_syncs_and_eats() {
    let config = GridConfig::default();
    let values: Vec<i32> = (1..=49).collect();
    let mut game = GamePlugin::with_values(config, SCREEN, &values);
    assert_eq!(game.player, GridPosition { row: 3, col: 3 });
    assert_eq!(game.sync.translation, WorldPos::origin());
    assert_eq!(game.sync.last_synced, Some(GridPosition { row: 3, col: 3 }));

    let out = game.tick(&TickInput { moves: MoveInput { up: true, right: true, ..NONE }, eat: true });
    assert_eq!(game.player, GridPosition { row: 4, col: 4 });
    assert!(out.repositioned);
    assert_eq!(game.sync.translation, WorldPos::from_units(103, 103));
    assert_eq!(out.eaten, Some(4 * 7 + 4));
    assert!(game.blocks[32].number.is_eaten);
    assert_eq!(game.blocks[32].number.value, 33);

    let out = game.tick(&TickInput { moves: NONE, eat: true });
    assert!(!out.repositioned);
    assert_eq!(out.eaten, None);
    assert_eq!(game.blocks.iter().filter(|b| b.number.is_eaten).count(), 1);
}

#[test]
fn session_build_places_player_and_blocks() {
    let config = GridConfig::new(3, 3, 100, 100, 10).unwrap();
    let game = GamePlugin::build(config, SCREEN);
    assert_eq!(game.blocks.len(), 9);
    assert_eq!(game.player, GridPosition { row: 1, col: 1 });
    let layout = calculate_grid_layout(&config);
    assert_eq!(game.sync.translation, calculate_block_center(&config, layout.bottom_left, 1, 1));
    assert_eq!(game.sync.translation, WorldPos::origin());
}

#[test]
fn component_defaults() {
    assert_eq!(GridPosition::default(), GridPosition { row: 0, col: 0 });
    assert_eq!(Player::default(), Player { score: 0 });
    assert_eq!(Damage::default(), Damage { amount: 1 });
}

#[test]
fn spawn_level_needs_a_display() {
    let config = GridConfig::default();
    assert!(matches!(spawn_level(config, None), Err(SpawnError::NoPrimaryWindow)));
    let game = spawn_level(config, Some(SCREEN)).expect("a display is available");
    assert_eq!(game.background, SCREEN);
    assert_eq!(game.blocks.len(), 49);
    assert!(game.blocks.iter().all(|b| (1..=100).contains(&b.number.value) && !b.number.is_eaten));
    assert_eq!(game.player, GridPosition { row: 3, col: 3 });
}
