use vstd::prelude::*;

use rand::Rng;
use vstd::arithmetic::div_mod::{lemma_fundamental_div_mod, lemma_fundamental_div_mod_converse};

use crate::components::{Block, GridPosition, NumberBlock};
use crate::eating::unique_positions;
use crate::grid::GridConfig;

verus! {

/// Smallest value a block can carry.
pub const MIN_BLOCK_VALUE: i32 = 1;
/// Largest value a block can carry.
pub const MAX_BLOCK_VALUE: i32 = 100;

/// The cell of the `index`-th block of a grid with `cols` columns, filled row
/// by row from the bottom-left cell.
pub open spec fn cell_of(index: int, cols: int) -> GridPosition {
    GridPosition { row: (index / cols) as i32, col: (index % cols) as i32 }
}

/// Number of cells of the grid.
pub open spec fn cell_count(config: GridConfig) -> int {
    config.rows * config.cols
}

/// The `index`-th block of a freshly spawned grid that shows `value`.
pub open spec fn fresh_block(config: GridConfig, index: int, value: i32) -> Block {
    Block { grid_position: cell_of(index, config.cols as int), number: NumberBlock { value, is_eaten: false } }
}

/// The cell of each index below the cell count lies inside the grid, and its
/// row and column are the quotient and remainder of the index by the column count.
pub proof fn lemma_cell_of_in_bounds(config: GridConfig, index: int)
    requires
        config.wf(),
        0 <= index < cell_count(config),
    ensures
        cell_of(index, config.cols as int).row == index / (config.cols as int),
        cell_of(index, config.cols as int).col == index % (config.cols as int),
        cell_of(index, config.cols as int).in_bounds(config),
{
    let c = config.cols as int;
    let r = config.rows as int;
    lemma_fundamental_div_mod(index, c);
    let q = index / c;
    let m = index % c;
    assert(0 <= m < c);
    assert(0 <= q < r) by (nonlinear_arith)
        requires
            index == c * q + m,
            0 <= m < c,
            0 <= index < r * c,
            c > 0,
    ;
}

/// Distinct indices below the cell count stand on distinct cells.
pub proof fn lemma_cells_distinct(config: GridConfig, i: int, j: int)
    requires
        config.wf(),
        0 <= i < cell_count(config),
        0 <= j < cell_count(config),
        i != j,
    ensures
        cell_of(i, config.cols as int) != cell_of(j, config.cols as int),
{
    let c = config.cols as int;
    lemma_cell_of_in_bounds(config, i);
    lemma_cell_of_in_bounds(config, j);
    lemma_fundamental_div_mod(i, c);
    lemma_fundamental_div_mod(j, c);
}

/// A grid spawned row by row has one block on every cell and no two blocks on one cell.
pub proof fn lemma_spawned_cells(config: GridConfig, blocks: Seq<Block>)
    requires
        config.wf(),
        blocks.len() == cell_count(config),
        forall|i: int| 0 <= i < blocks.len() ==> (#[trigger] blocks[i]).grid_position == cell_of(i, config.cols as int),
    ensures
        unique_positions(blocks),
        forall|i: int| 0 <= i < blocks.len() ==> (#[trigger] blocks[i]).grid_position.in_bounds(config),
        forall|p: GridPosition| #[trigger] p.in_bounds(config) ==> exists|i: int| 0 <= i < blocks.len() && (#[trigger] blocks[i]).grid_position == p,
{
    assert forall|i: int, j: int| 0 <= i < blocks.len() && 0 <= j < blocks.len() && i != j implies #[trigger] blocks[i].grid_position
        != #[trigger] blocks[j].grid_position by {
        lemma_cells_distinct(config, i, j);
    }
    assert forall|i: int| 0 <= i < blocks.len() implies (#[trigger] blocks[i]).grid_position.in_bounds(config) by {
        lemma_cell_of_in_bounds(config, i);
    }
    assert forall|p: GridPosition| #[trigger] p.in_bounds(config) implies exists|i: int| 0 <= i < blocks.len() && (#[trigger] blocks[i]).grid_position == p by {
        let c = config.cols as int;
        let i = p.row * c + p.col;
        assert(0 <= i < cell_count(config)) by (nonlinear_arith)
            requires
                0 <= p.row < config.rows,
                0 <= p.col < c,
                i == p.row * c + p.col,
                cell_count(config) == config.rows * c,
        ;
        lemma_fundamental_div_mod_converse(i, c, p.row as int, p.col as int);
        assert(blocks[i].grid_position == p);
    }
}

/// Places one block on every cell, row by row from the bottom-left cell, the
/// `i`-th block showing `values[i]` and none of them eaten.
pub fn blocks_from_values(config: &GridConfig, values: &Vec<i32>) -> (r: Vec<Block>)
    requires
        config.wf(),
        values.len() == cell_count(*config),
    ensures
        r.len() == values.len(),
        forall|i: int| 0 <= i < r.len() ==> #[trigger] r[i] == fresh_block(*config, i, values[i]),
{
    let mut blocks: Vec<Block> = Vec::new();
    let cols = config.cols;
    assert(0 * cols == 0);
    for row in 0..config.rows
        invariant
            config.wf(),
            cols == config.cols,
            values.len() == cell_count(*config),
            blocks.len() == row * cols,
            forall|i: int| 0 <= i < blocks.len() ==> #[trigger] blocks[i] == fresh_block(*config, i, values[i]),
    {
        for col in 0..cols
            invariant
                config.wf(),
                cols == config.cols,
                0 <= row < config.rows,
                values.len() == cell_count(*config),
                blocks.len() == row * cols + col,
                forall|i: int| 0 <= i < blocks.len() ==> #[trigger] blocks[i] == fresh_block(*config, i, values[i]),
        {
            let k = blocks.len();
            proof {
                assert(k < cell_count(*config)) by (nonlinear_arith)
                    requires
                        k == row * cols + col,
                        0 <= col < cols,
                        0 <= row < config.rows,
                        cell_count(*config) == config.rows * cols,
                ;
                lemma_fundamental_div_mod_converse(k as int, cols as int, row as int, col as int);
            }
            let block = Block {
                grid_position: GridPosition { row, col },
                number: NumberBlock { value: values[k], is_eaten: false },
            };
            blocks.push(block);
        }
        proof {
            assert((row + 1) * cols == row * cols + cols) by (nonlinear_arith);
        }
    }
    blocks
}

/// Relies on rand::rng and Rng::random_range: a value drawn from the
/// thread-local generator in the inclusive range `[lo, hi]`, which the
/// range must not be empty for.
#[verifier::external_body]
fn random_in_range(lo: i32, hi: i32) -> (r: i32)
    requires
        lo <= hi,
    ensures
        lo <= r <= hi,
{
    rand::rng().random_range(lo..=hi)
}

/// Spawns the blocks of a new grid: one on every cell, row by row from the
/// bottom-left cell, each showing a random value in `[1, 100]` and not eaten.
pub fn spawn_grid(config: &GridConfig) -> (r: Vec<Block>)
    requires
        config.wf(),
        cell_count(*config) <= usize::MAX,
    ensures
        r.len() == cell_count(*config),
        forall|i: int| 0 <= i < r.len() ==> (#[trigger] r[i]).grid_position == cell_of(i, config.cols as int),
        forall|i: int| 0 <= i < r.len() ==> MIN_BLOCK_VALUE <= (#[trigger] r[i]).number.value <= MAX_BLOCK_VALUE,
        forall|i: int| 0 <= i < r.len() ==> !(#[trigger] r[i]).number.is_eaten,
{
    proof {
        assert(config.rows * config.cols >= 0) by (nonlinear_arith)
            requires
                config.rows > 0,
                config.cols > 0,
        ;
    }
    let n = config.rows as usize * config.cols as usize;
    let mut values: Vec<i32> = Vec::new();
    for _i in 0..n
        invariant
            values.len() == _i,
            forall|j: int| 0 <= j < values.len() ==> MIN_BLOCK_VALUE <= #[trigger] values[j] <= MAX_BLOCK_VALUE,
    {
        let v = random_in_range(MIN_BLOCK_VALUE, MAX_BLOCK_VALUE);
        values.push(v);
    }
    blocks_from_values(config, &values)
}

} // verus!
