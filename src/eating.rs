use vstd::prelude::*;

use crate::components::{Block, GridPosition, NumberBlock};

verus! {

/// A block that the player standing on `pos` can eat: on that cell, not yet eaten.
pub open spec fn edible_at(block: Block, pos: GridPosition) -> bool {
    block.grid_position == pos && !block.number.is_eaten
}

/// `block` once eaten.
pub open spec fn eaten(block: Block) -> Block {
    Block { grid_position: block.grid_position, number: NumberBlock { value: block.number.value, is_eaten: true } }
}

/// One eat action by a player on `pos` takes `before` to `after` and reports
/// `index`: the first block edible there is eaten and its index reported; when
/// there is none nothing changes and no index is reported.
pub open spec fn eat_step(before: Seq<Block>, pos: GridPosition, index: Option<usize>, after: Seq<Block>) -> bool {
    match index {
        Some(i) => {
            &&& i < before.len()
            &&& edible_at(before[i as int], pos)
            &&& forall|j: int| 0 <= j < i ==> !edible_at(#[trigger] before[j], pos)
            &&& after == before.update(i as int, eaten(before[i as int]))
        },
        None => {
            &&& forall|j: int| 0 <= j < before.len() ==> !edible_at(#[trigger] before[j], pos)
            &&& after == before
        },
    }
}

/// No two blocks stand on the same cell.
pub open spec fn unique_positions(blocks: Seq<Block>) -> bool {
    forall|i: int, j: int|
        0 <= i < blocks.len() && 0 <= j < blocks.len() && i != j ==> #[trigger] blocks[i].grid_position
            != #[trigger] blocks[j].grid_position
}

/// When `eat_pressed`, eats the first uneaten block on the player's cell and
/// returns its index; otherwise, or when there is no such block, does nothing.
pub fn eat_number_on_spacebar(eat_pressed: bool, player_pos: &GridPosition, blocks: &mut Vec<Block>) -> (r: Option<usize>)
    ensures
        eat_pressed ==> eat_step(old(blocks)@, *player_pos, r, final(blocks)@),
        !eat_pressed ==> r is None && final(blocks)@ == old(blocks)@,
{
    if !eat_pressed {
        return None;
    }
    let n = blocks.len();
    let mut i: usize = 0;
    while i < n
        invariant
            eat_pressed,
            n == blocks.len(),
            blocks@ == old(blocks)@,
            i <= n,
            forall|j: int| 0 <= j < i ==> !edible_at(#[trigger] blocks@[j], *player_pos),
        decreases n - i,
    {
        let b = blocks[i];
        if b.grid_position == *player_pos && !b.number.is_eaten {
            let updated = Block {
                grid_position: b.grid_position,
                number: NumberBlock { value: b.number.value, is_eaten: true },
            };
            blocks.set(i, updated);
            return Some(i);
        }
        i = i + 1;
    }
    None
}

/// Eating twice on the same cell: when the first action ate a block and no
/// two blocks share a cell, the block stays eaten and the second action
/// changes nothing.
pub proof fn lemma_eat_twice(
    blocks: Seq<Block>,
    pos: GridPosition,
    first: Option<usize>,
    middle: Seq<Block>,
    second: Option<usize>,
    last: Seq<Block>,
)
    requires
        unique_positions(blocks),
        first is Some,
        eat_step(blocks, pos, first, middle),
        eat_step(middle, pos, second, last),
    ensures
        middle[first->0 as int].number.is_eaten,
        second is None,
        last == middle,
{
    let i = first->0 as int;
    if let Some(k) = second {
        let k = k as int;
        assert(edible_at(middle[k], pos));
        if k != i {
            assert(middle[k] == blocks[k]);
            assert(blocks[k].grid_position == blocks[i].grid_position);
        }
    }
}

/// An eat action touches no block on another cell than the player's, and
/// changes no block's cell or value.
pub proof fn lemma_eat_only_at_player_cell(
    before: Seq<Block>,
    pos: GridPosition,
    index: Option<usize>,
    after: Seq<Block>,
)
    requires
        eat_step(before, pos, index, after),
    ensures
        after.len() == before.len(),
        forall|j: int| 0 <= j < before.len() && before[j].grid_position != pos ==> #[trigger] after[j] == before[j],
        forall|j: int| 0 <= j < before.len() ==> (#[trigger] after[j]).grid_position == before[j].grid_position
            && after[j].number.value == before[j].number.value,
        forall|j: int| 0 <= j < before.len() && before[j].number.is_eaten ==> (#[trigger] after[j]).number.is_eaten,
{
}

/// Whether a block's label is drawn.
#[derive(Clone, Copy, Debug, PartialEq, Eq, Structural)]
pub enum LabelVisibility {
    Visible,
    Hidden,
}

/// The label of an eaten block is hidden, that of any other block shown.
pub fn update_block_visuals(block: &NumberBlock) -> (r: LabelVisibility)
    ensures
        r == (if block.is_eaten { LabelVisibility::Hidden } else { LabelVisibility::Visible }),
{
    if block.is_eaten {
        LabelVisibility::Hidden
    } else {
        LabelVisibility::Visible
    }
}

} // verus!
