use vstd::prelude::*;

verus! {

/// Width and height of one block, in world units.
#[derive(Clone, Copy, Debug, PartialEq, Eq, Structural)]
pub struct BlockSize {
    pub width: i32,
    pub height: i32,
}

/// Layout parameters of the grid, fixed for a game session.
#[derive(Clone, Copy, Debug, PartialEq, Eq, Structural)]
pub struct GridConfig {
    pub rows: i32,
    pub cols: i32,
    pub block_size: BlockSize,
    pub gap_between_blocks: i32,
}

/// Number of rows in the default grid.
pub const GRID_ROWS: i32 = 7;
/// Number of columns in the default grid.
pub const GRID_COLS: i32 = 7;
/// Width of a block in the default grid.
pub const BLOCK_WIDTH: i32 = 100;
/// Height of a block in the default grid.
pub const BLOCK_HEIGHT: i32 = 100;
/// Gap between neighbouring blocks in the default grid.
pub const GAP_BETWEEN_BLOCKS: i32 = 3;

impl GridConfig {
    /// At least one row and one column, blocks of positive size, no negative gap.
    pub open spec fn wf(self) -> bool {
        &&& self.rows > 0
        &&& self.cols > 0
        &&& self.block_size.width > 0
        &&& self.block_size.height > 0
        &&& self.gap_between_blocks >= 0
    }

    /// Builds a configuration, refusing a degenerate one.
    pub fn new(rows: i32, cols: i32, block_width: i32, block_height: i32, gap: i32) -> (r: Option<
        GridConfig,
    >)
        ensures
            r is Some <==> (rows > 0 && cols > 0 && block_width > 0 && block_height > 0 && gap
                >= 0),
            r matches Some(c) ==> c.wf() && c == (GridConfig {
                rows,
                cols,
                block_size: BlockSize { width: block_width, height: block_height },
                gap_between_blocks: gap,
            }),
    {
        if rows > 0 && cols > 0 && block_width > 0 && block_height > 0 && gap >= 0 {
            Some(
                GridConfig {
                    rows,
                    cols,
                    block_size: BlockSize { width: block_width, height: block_height },
                    gap_between_blocks: gap,
                },
            )
        } else {
            None
        }
    }
}

impl Default for GridConfig {
    /// A 7 by 7 grid of 100 by 100 blocks, 3 apart.
    fn default() -> (r: GridConfig)
        ensures
            r.wf(),
            r.rows == GRID_ROWS && r.cols == GRID_COLS,
            r.block_size == (BlockSize { width: BLOCK_WIDTH, height: BLOCK_HEIGHT }),
            r.gap_between_blocks == GAP_BETWEEN_BLOCKS,
    {
        GridConfig {
            rows: GRID_ROWS,
            cols: GRID_COLS,
            block_size: BlockSize { width: BLOCK_WIDTH, height: BLOCK_HEIGHT },
            gap_between_blocks: GAP_BETWEEN_BLOCKS,
        }
    }
}

/// A width and a height in world units.
#[derive(Clone, Copy, Debug, PartialEq, Eq, Structural)]
pub struct Extent {
    pub width: i64,
    pub height: i64,
}

/// A point of the world, held as twice its coordinates so that every centre
/// of the grid is exact: the point (x, y) has `twice_x == 2 * x` and
/// `twice_y == 2 * y`.
#[derive(Clone, Copy, Debug, PartialEq, Eq, Structural)]
pub struct WorldPos {
    pub twice_x: i64,
    pub twice_y: i64,
}

impl WorldPos {
    /// The point with whole coordinates (x, y).
    pub fn from_units(x: i32, y: i32) -> (r: WorldPos)
        ensures
            r.twice_x == 2 * x,
            r.twice_y == 2 * y,
    {
        WorldPos { twice_x: 2 * (x as i64), twice_y: 2 * (y as i64) }
    }

    /// The world origin.
    pub fn origin() -> (r: WorldPos)
        ensures
            r.twice_x == 0 && r.twice_y == 0,
    {
        WorldPos { twice_x: 0, twice_y: 0 }
    }
}

/// Extent of the whole grid and the corner that centres it on the origin.
#[derive(Clone, Copy, Debug, PartialEq, Eq, Structural)]
pub struct GridLayout {
    pub total_size: Extent,
    pub bottom_left: WorldPos,
}

/// Length spanned by `count` blocks of length `size` with `gap` between neighbours.
pub open spec fn span(count: int, size: int, gap: int) -> int {
    count * (size + gap) - gap
}

/// The layout that a configuration determines.
pub open spec fn layout_of(config: GridConfig) -> GridLayout {
    let w = span(config.cols as int, config.block_size.width as int, config.gap_between_blocks as int);
    let h = span(config.rows as int, config.block_size.height as int, config.gap_between_blocks as int);
    GridLayout {
        total_size: Extent { width: w as i64, height: h as i64 },
        bottom_left: WorldPos { twice_x: (-w) as i64, twice_y: (-h) as i64 },
    }
}

/// Twice the coordinate of the centre of block `index` along one axis of a
/// grid of `count` blocks: `bottom_left + index * (size + gap) + size / 2`.
pub open spec fn twice_center(count: int, size: int, gap: int, index: int) -> int {
    -span(count, size, gap) + 2 * (index * (size + gap)) + size
}

/// The centre of the block at (`row`, `col`): `col` runs along x, `row` along y.
pub open spec fn block_center_of(config: GridConfig, row: int, col: int) -> WorldPos {
    WorldPos {
        twice_x: twice_center(
            config.cols as int,
            config.block_size.width as int,
            config.gap_between_blocks as int,
            col,
        ) as i64,
        twice_y: twice_center(
            config.rows as int,
            config.block_size.height as int,
            config.gap_between_blocks as int,
            row,
        ) as i64,
    }
}

/// Bounds that keep the arithmetic of one axis inside `i64`.
proof fn lemma_axis_bounds(count: int, size: int, gap: int, index: int)
    requires
        0 < count <= i32::MAX,
        0 < size <= i32::MAX,
        0 <= gap <= i32::MAX,
        0 <= index < count,
    ensures
        0 <= index * (size + gap) <= (count - 1) * (size + gap),
        count * (size + gap) <= (i32::MAX as int) * (2 * (i32::MAX as int)),
        (count - 1) * (size + gap) + size + gap == count * (size + gap),
{
    assert(0 <= index * (size + gap) <= (count - 1) * (size + gap)) by (nonlinear_arith)
        requires
            0 <= index < count,
            0 < size + gap,
    ;
    assert(count * (size + gap) <= (i32::MAX as int) * (2 * (i32::MAX as int))) by (nonlinear_arith)
        requires
            0 < count <= i32::MAX,
            0 < size + gap <= 2 * (i32::MAX as int),
    ;
    assert((count - 1) * (size + gap) + size + gap == count * (size + gap)) by (nonlinear_arith);
}

/// Length of one axis of the grid: `count * (size + gap) - gap`.
fn axis_span(count: i32, size: i32, gap: i32) -> (r: i64)
    requires
        count > 0,
        size > 0,
        gap >= 0,
    ensures
        r == span(count as int, size as int, gap as int),
        r > 0,
{
    proof {
        lemma_axis_bounds(count as int, size as int, gap as int, 0);
    }
    (count as i64) * (size as i64 + gap as i64) - gap as i64
}

/// Total size of the grid, and the bottom-left corner that centres it on the origin.
pub fn calculate_grid_layout(config: &GridConfig) -> (r: GridLayout)
    requires
        config.wf(),
    ensures
        r == layout_of(*config),
{
    let w = axis_span(config.cols, config.block_size.width, config.gap_between_blocks);
    let h = axis_span(config.rows, config.block_size.height, config.gap_between_blocks);
    GridLayout {
        total_size: Extent { width: w, height: h },
        bottom_left: WorldPos { twice_x: -w, twice_y: -h },
    }
}

/// Twice one coordinate of a block centre, from twice the corner's coordinate.
fn axis_center(twice_corner: i64, count: i32, size: i32, gap: i32, index: i32) -> (r: i64)
    requires
        count > 0,
        size > 0,
        gap >= 0,
        0 <= index < count,
        twice_corner == -span(count as int, size as int, gap as int),
    ensures
        r == twice_center(count as int, size as int, gap as int, index as int),
{
    proof {
        lemma_axis_bounds(count as int, size as int, gap as int, index as int);
    }
    let step: i64 = size as i64 + gap as i64;
    let offset: i64 = index as i64 * step;
    twice_corner + offset + offset + size as i64
}

/// Centre of the block at (`row`, `col`), given the corner that
/// `calculate_grid_layout` computed for the same configuration.
pub fn calculate_block_center(config: &GridConfig, grid_bottom_left: WorldPos, row: i32, col: i32) -> (r: WorldPos)
    requires
        config.wf(),
        grid_bottom_left == layout_of(*config).bottom_left,
        0 <= row < config.rows,
        0 <= col < config.cols,
    ensures
        r == block_center_of(*config, row as int, col as int),
{
    proof {
        lemma_axis_bounds(config.cols as int, config.block_size.width as int, config.gap_between_blocks as int, 0);
        lemma_axis_bounds(config.rows as int, config.block_size.height as int, config.gap_between_blocks as int, 0);
    }
    let x = axis_center(
        grid_bottom_left.twice_x,
        config.cols,
        config.block_size.width,
        config.gap_between_blocks,
        col,
    );
    let y = axis_center(
        grid_bottom_left.twice_y,
        config.rows,
        config.block_size.height,
        config.gap_between_blocks,
        row,
    );
    WorldPos { twice_x: x, twice_y: y }
}

/// Twice a centre coordinate along one axis stays within `i64` for every block in range.
proof fn lemma_twice_center_fits(count: int, size: int, gap: int, index: int)
    requires
        0 < count <= i32::MAX,
        0 < size <= i32::MAX,
        0 <= gap <= i32::MAX,
        0 <= index < count,
    ensures
        i64::MIN <= twice_center(count, size, gap, index) <= i64::MAX,
{
    lemma_axis_bounds(count, size, gap, index);
}

/// Laying out the same configuration twice gives the same layout: the
/// layout depends on the configuration alone.
pub proof fn lemma_layout_deterministic(config: GridConfig, first: GridLayout, second: GridLayout)
    requires
        config.wf(),
        first == layout_of(config),
        second == layout_of(config),
    ensures
        first == second,
{
}

/// Neighbouring blocks are one block plus one gap apart: moving one column
/// right adds `block width + gap` to x and keeps y, moving one row up adds
/// `block height + gap` to y and keeps x.
pub proof fn lemma_block_centers_evenly_spaced(config: GridConfig, row: int, col: int)
    requires
        config.wf(),
        0 <= row < config.rows,
        0 <= col < config.cols,
    ensures
        col + 1 < config.cols ==> block_center_of(config, row, col + 1).twice_x
            == block_center_of(config, row, col).twice_x + 2 * (config.block_size.width
            + config.gap_between_blocks),
        col + 1 < config.cols ==> block_center_of(config, row, col + 1).twice_y
            == block_center_of(config, row, col).twice_y,
        row + 1 < config.rows ==> block_center_of(config, row + 1, col).twice_y
            == block_center_of(config, row, col).twice_y + 2 * (config.block_size.height
            + config.gap_between_blocks),
        row + 1 < config.rows ==> block_center_of(config, row + 1, col).twice_x
            == block_center_of(config, row, col).twice_x,
{
    let w = config.block_size.width as int;
    let h = config.block_size.height as int;
    let g = config.gap_between_blocks as int;
    lemma_twice_center_fits(config.cols as int, w, g, col);
    lemma_twice_center_fits(config.rows as int, h, g, row);
    if col + 1 < config.cols {
        lemma_twice_center_fits(config.cols as int, w, g, col + 1);
        assert((col + 1) * (w + g) == col * (w + g) + (w + g)) by (nonlinear_arith);
    }
    if row + 1 < config.rows {
        lemma_twice_center_fits(config.rows as int, h, g, row + 1);
        assert((row + 1) * (h + g) == row * (h + g) + (h + g)) by (nonlinear_arith);
    }
}

/// Block centres grow strictly with the column along x and with the row along
/// y, and each coordinate depends on its own index alone.
pub proof fn lemma_block_centers_increasing(config: GridConfig, row1: int, col1: int, row2: int, col2: int)
    requires
        config.wf(),
        0 <= row1 < config.rows,
        0 <= col1 < config.cols,
        0 <= row2 < config.rows,
        0 <= col2 < config.cols,
    ensures
        col1 < col2 ==> block_center_of(config, row1, col1).twice_x < block_center_of(config, row2, col2).twice_x,
        col1 == col2 ==> block_center_of(config, row1, col1).twice_x == block_center_of(config, row2, col2).twice_x,
        row1 < row2 ==> block_center_of(config, row1, col1).twice_y < block_center_of(config, row2, col2).twice_y,
        row1 == row2 ==> block_center_of(config, row1, col1).twice_y == block_center_of(config, row2, col2).twice_y,
{
    let w = config.block_size.width as int;
    let h = config.block_size.height as int;
    let g = config.gap_between_blocks as int;
    lemma_twice_center_fits(config.cols as int, w, g, col1);
    lemma_twice_center_fits(config.cols as int, w, g, col2);
    lemma_twice_center_fits(config.rows as int, h, g, row1);
    lemma_twice_center_fits(config.rows as int, h, g, row2);
    if col1 < col2 {
        assert(col1 * (w + g) < col2 * (w + g)) by (nonlinear_arith)
            requires
                col1 < col2,
                w + g > 0,
        ;
    }
    if row1 < row2 {
        assert(row1 * (h + g) < row2 * (h + g)) by (nonlinear_arith)
            requires
                row1 < row2,
                h + g > 0,
        ;
    }
}

} // verus!
