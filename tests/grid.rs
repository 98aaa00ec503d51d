use math_mono::grid::{
    calculate_block_center, calculate_grid_layout, BlockSize, Extent, GridConfig, GridLayout, WorldPos,
};

fn config(rows: i32, cols: i32, width: i32, height: i32, gap: i32) -> GridConfig {
    GridConfig::new(rows, cols, width, height, gap).expect("valid configuration")
}

#[test]
fn test_calculate_grid_layout() {
    let config = GridConfig {
        rows: 2,
        cols: 2,
        block_size: BlockSize { width: 100, height: 100 },
        gap_between_blocks: 10,
    };
    // Total size should be (2 * 100 + 1 * 10) = 210
    let layout = calculate_grid_layout(&config);

    assert_eq!(layout.total_size, Extent { width: 210, height: 210 });
    // bottom_left should be (-105, -105) to center it
    assert_eq!(layout.bottom_left, WorldPos::from_units(-105, -105));
}

#[test]
fn test_calculate_block_center_for_origin_block() {
    let config = GridConfig::default();
    let layout = calculate_grid_layout(&config);

    let pos_0_0 = calculate_block_center(&config, layout.bottom_left, 0, 0);

    // Total width: 7 * 100 + 6 * 3 = 718, bottom left: -359, centre: -359 + 50 = -309
    assert_eq!(pos_0_0, WorldPos::from_units(-309, -309));
}

#[test]
fn default_config_is_seven_by_seven() {
    let config = GridConfig::default();
    assert_eq!(config.rows, 7);
    assert_eq!(config.cols, 7);
    assert_eq!(config.block_size, BlockSize { width: 100, height: 100 });
    assert_eq!(config.gap_between_blocks, 3);
    let layout = calculate_grid_layout(&config);
    assert_eq!(layout.total_size, Extent { width: 718, height: 718 });
    assert_eq!(layout.bottom_left, WorldPos::from_units(-359, -359));
}

#[test]
fn layout_twice_is_identical() {
    let config = config(3, 5, 40, 60, 7);
    let first: GridLayout = calculate_grid_layout(&config);
    let second: GridLayout = calculate_grid_layout(&config);
    assert_eq!(first, second);
}

#[test]
fn odd_extent_has_half_unit_corner() {
    let config = config(2, 2, 100, 100, 3);
    let layout = calculate_grid_layout(&config);
    assert_eq!(layout.total_size, Extent { width: 203, height: 203 });
    // -101.5 in world units
    assert_eq!(layout.bottom_left, WorldPos { twice_x: -203, twice_y: -203 });
    let c = calculate_block_center(&config, layout.bottom_left, 1, 0);
    // x: -101.5 + 50 = -51.5, y: -101.5 + 103 + 50 = 51.5
    assert_eq!(c, WorldPos { twice_x: -103, twice_y: 103 });
}

#[test]
fn centers_increase_with_fixed_spacing() {
    let config = GridConfig::default();
    let layout = calculate_grid_layout(&config);
    for row in 0..7 {
        for col in 0..7 {
            let c = calculate_block_center(&config, layout.bottom_left, row, col);
            if col + 1 < 7 {
                let right = calculate_block_center(&config, layout.bottom_left, row, col + 1);
                assert_eq!(right.twice_x - c.twice_x, 2 * 103);
                assert_eq!(right.twice_y, c.twice_y);
            }
            if row + 1 < 7 {
                let up = calculate_block_center(&config, layout.bottom_left, row + 1, col);
                assert_eq!(up.twice_y - c.twice_y, 2 * 103);
                assert_eq!(up.twice_x, c.twice_x);
            }
        }
    }
    let last = calculate_block_center(&config, layout.bottom_left, 6, 6);
    assert_eq!(last, WorldPos::from_units(309, 309));
}

#[test]
fn rectangular_grid_maps_col_to_x_and_row_to_y() {
    let config = config(2, 3, 10, 20, 2);
    let layout = calculate_grid_layout(&config);
    // width 3 * 12 - 2 = 34, height 2 * 22 - 2 = 42
    assert_eq!(layout.total_size, Extent { width: 34, height: 42 });
    let c = calculate_block_center(&config, layout.bottom_left, 1, 2);
    // x: -17 + 2 * 12 + 5 = 12, y: -21 + 22 + 10 = 11
    assert_eq!(c, WorldPos::from_units(12, 11));
}

#[test]
fn degenerate_configs_are_rejected() {
    assert!(GridConfig::new(0, 7, 100, 100, 3).is_none());
    assert!(GridConfig::new(7, 0, 100, 100, 3).is_none());
    assert!(GridConfig::new(7, 7, 0, 100, 3).is_none());
    assert!(GridConfig::new(7, 7, 100, -1, 3).is_none());
    assert!(GridConfig::new(7, 7, 100, 100, -3).is_none());
    assert!(GridConfig::new(-2, 7, 100, 100, 3).is_none());
    assert_eq!(GridConfig::new(7, 7, 100, 100, 0).map(|c| c.gap_between_blocks), Some(0));
}

#[test]
fn largest_config_does_not_overflow() {
    let m = i32::MAX;
    let config = config(m, m, m, m, m);
    let layout = calculate_grid_layout(&config);
    let expected = (m as i64) * (2 * m as i64) - m as i64;
    assert_eq!(layout.total_size, Extent { width: expected, height: expected });
    let far = calculate_block_center(&config, layout.bottom_left, m - 1, m - 1);
    assert_eq!(far.twice_x, (m as i64 - 2) * (2 * m as i64) + 2 * m as i64);
}
