use vstd::prelude::*;
use vstd::arithmetic::div_mod::{
    lemma_fundamental_div_mod, lemma_fundamental_div_mod_converse, lemma_mod_bound,
};

verus! {

/// Lowest grid coordinate tiled by the arena, on both axes.
pub const ARENA_LEFT: i64 = -14;

/// One past the highest grid coordinate tiled by the arena, on both axes.
pub const ARENA_RIGHT: i64 = 15;

/// Distance between adjacent grid cells, in world units.
pub const BLOCK_SIZE: i64 = 32;

/// Cells along one side of the arena.
pub open spec fn arena_width() -> int {
    ARENA_RIGHT - ARENA_LEFT
}

/// Blocks in a full arena: one per cell of the square.
pub open spec fn arena_size() -> int {
    arena_width() * arena_width()
}

/// One tile of the arena, by its grid cell.
#[derive(Clone, Copy, Debug, PartialEq, Eq, Structural)]
pub struct Block {
    pub col: i64,
    pub row: i64,
}

/// The `i`-th block of the arena in row-major order.
pub open spec fn arena_cell(i: int) -> Block {
    Block {
        col: (ARENA_LEFT + i % arena_width()) as i64,
        row: (ARENA_LEFT + i / arena_width()) as i64,
    }
}

/// A cell lies in the tiled square.
pub open spec fn in_arena(col: int, row: int) -> bool {
    ARENA_LEFT <= col < ARENA_RIGHT && ARENA_LEFT <= row < ARENA_RIGHT
}

/// Index in row-major order of the cell at `(col, row)`.
pub open spec fn cell_index(col: int, row: int) -> int {
    (row - ARENA_LEFT) * arena_width() + (col - ARENA_LEFT)
}

/// The arena lists each cell exactly where row-major order puts it.
proof fn cell_at_index(col: int, row: int)
    requires
        in_arena(col, row),
    ensures
        0 <= cell_index(col, row) < arena_size(),
        arena_cell(cell_index(col, row)) == (Block { col: col as i64, row: row as i64 }),
{
    lemma_fundamental_div_mod_converse(
        cell_index(col, row),
        arena_width(),
        row - ARENA_LEFT,
        col - ARENA_LEFT,
    );
}

impl Block {
    /// World position of the block's centre: its cell times the pitch.
    pub open spec fn position_spec(self) -> (int, int) {
        (self.col * BLOCK_SIZE, self.row * BLOCK_SIZE)
    }

    pub fn position(&self) -> (r: (i64, i64))
        requires
            in_arena(self.col as int, self.row as int),
        ensures
            r.0 == self.position_spec().0,
            r.1 == self.position_spec().1,
    {
        (self.col * BLOCK_SIZE, self.row * BLOCK_SIZE)
    }
}

/// Every cell of the arena square, one block each, in row-major order.
pub fn arena_blocks() -> (r: Vec<Block>)
    ensures
        r@.len() == arena_size(),
        forall|i: int| 0 <= i < r@.len() ==> r@[i] == arena_cell(i),
{
    let mut blocks: Vec<Block> = Vec::new();
    let mut row: i64 = ARENA_LEFT;
    while row < ARENA_RIGHT
        invariant
            ARENA_LEFT <= row <= ARENA_RIGHT,
            blocks@.len() == (row - ARENA_LEFT) * arena_width(),
            forall|i: int| 0 <= i < blocks@.len() ==> blocks@[i] == arena_cell(i),
        decreases ARENA_RIGHT - row,
    {
        let mut col: i64 = ARENA_LEFT;
        while col < ARENA_RIGHT
            invariant
                ARENA_LEFT <= row < ARENA_RIGHT,
                ARENA_LEFT <= col <= ARENA_RIGHT,
                blocks@.len() == cell_index(col as int, row as int),
                forall|i: int| 0 <= i < blocks@.len() ==> blocks@[i] == arena_cell(i),
            decreases ARENA_RIGHT - col,
        {
            proof {
                cell_at_index(col as int, row as int);
            }
            blocks.push(Block { col, row });
            col = col + 1;
        }
        row = row + 1;
    }
    blocks
}

/// The arena covers the square exactly: each of its blocks lies in it, and
/// each cell of it holds one block.
pub proof fn arena_covers_square(blocks: Seq<Block>)
    requires
        blocks.len() == arena_size(),
        forall|i: int| 0 <= i < blocks.len() ==> blocks[i] == arena_cell(i),
    ensures
        forall|i: int|
            0 <= i < blocks.len() ==> in_arena(
                (#[trigger] blocks[i]).col as int,
                blocks[i].row as int,
            ),
        forall|col: int, row: int|
            in_arena(col, row) ==> blocks[#[trigger] cell_index(col, row)] == (Block {
                col: col as i64,
                row: row as i64,
            }),
{
    assert forall|i: int| 0 <= i < blocks.len() implies in_arena(
        (#[trigger] blocks[i]).col as int,
        blocks[i].row as int,
    ) by {
        lemma_fundamental_div_mod(i, arena_width());
        lemma_mod_bound(i, arena_width());
        let q = i / arena_width();
        let r = i % arena_width();
        assert(i == 29 * q + r);
        assert(0 <= q < 29);
        assert(blocks[i] == arena_cell(i));
        assert(arena_cell(i).col as int == ARENA_LEFT + r);
        assert(arena_cell(i).row as int == ARENA_LEFT + q);
    }
    assert forall|col: int, row: int| in_arena(col, row) implies blocks[#[trigger] cell_index(
        col,
        row,
    )] == (Block { col: col as i64, row: row as i64 }) by {
        cell_at_index(col, row);
    }
}

} // verus!
