//! The playing field: blocks, rows, the fixed-size grid and the clearing of
//! full rows.

use vstd::prelude::*;

verus! {

/// Number of columns of the playing field.
pub const PLAYGROUND_WIDTH: i32 = 10;

/// Number of rows of the playing field; row 0 is the top.
pub const PLAYGROUND_HEIGHT: i32 = 16;

/// Display colours of the pieces.
#[derive(Clone, Copy, Debug, PartialEq, Eq, Structural)]
pub enum Color {
    Blue,
    Yellow,
    Cyan,
    White,
    Magenta,
    Red,
    Green,
}

/// One cell of the playing field. A `value` of 0 means that the cell is
/// empty; any other value means that it is occupied.
#[derive(Clone, Copy, Debug, PartialEq)]
pub struct Block {
    pub value: u8,
    pub color: Option<Color>,
}

/// One row of the playing field.
pub type Row = [Block; 10];

/// The playing field, row 0 at the top.
pub type Grid = [[Block; 10]; 16];

impl Block {
    /// A block with the given value and colour.
    pub fn new(value: u8, color: Option<Color>) -> (block: Block)
        ensures
            block == (Block { value, color }),
    {
        Block { value, color }
    }
}

/// The block of an empty cell.
pub open spec fn empty_block() -> Block {
    Block { value: 0, color: None }
}

/// A row of empty cells.
pub open spec fn empty_row() -> Seq<Block> {
    Seq::new(10, |c: int| empty_block())
}

/// `n` rows of empty cells.
pub open spec fn empty_rows(n: int) -> Seq<Seq<Block>> {
    Seq::new(n as nat, |r: int| empty_row())
}

/// The rows of a grid, top to bottom, each as the sequence of its blocks.
pub open spec fn grid_rows(grid: Grid) -> Seq<Seq<Block>> {
    Seq::new(16, |r: int| grid[r]@)
}

/// The grid has a block with a value other than 0 in row `r`, column `c`.
pub open spec fn occupied(grid: Grid, r: int, c: int) -> bool {
    0 <= r < PLAYGROUND_HEIGHT && 0 <= c < PLAYGROUND_WIDTH && grid[r][c].value != 0
}

/// No block of the grid is occupied.
pub open spec fn vacant(grid: Grid) -> bool {
    forall|r: int, c: int| !#[trigger] occupied(grid, r, c)
}

/// The sum of the block values of a row.
pub open spec fn row_sum(row: Seq<Block>) -> int
    decreases row.len(),
{
    if row.len() == 0 {
        0
    } else {
        row_sum(row.drop_last()) + row.last().value
    }
}

/// A row is full when its block values add up to the width of the field.
pub open spec fn row_is_full(row: Seq<Block>) -> bool {
    row_sum(row) == PLAYGROUND_WIDTH
}

/// The test that a row passes when clearing leaves it in place.
pub open spec fn stays() -> spec_fn(Seq<Block>) -> bool {
    |row: Seq<Block>| !row_is_full(row)
}

/// The rows that are not full, in their order.
pub open spec fn kept_rows(rows: Seq<Seq<Block>>) -> Seq<Seq<Block>> {
    rows.filter(stays())
}

/// How many of the rows are full.
pub open spec fn full_row_count(rows: Seq<Seq<Block>>) -> int {
    rows.len() - kept_rows(rows).len()
}

/// The rows after clearing: every full row is taken out, the rows above it
/// move down, and as many empty rows enter at the top.
pub open spec fn cleared(rows: Seq<Seq<Block>>) -> Seq<Seq<Block>> {
    empty_rows(full_row_count(rows)) + kept_rows(rows)
}

/// A row of empty blocks.
pub fn create_empty_row() -> (row: Row)
    ensures
        row@ == empty_row(),
{
    [Block::new(0, None); 10]
}

/// A grid of empty rows.
pub fn create_grid() -> (grid: Grid)
    ensures
        grid_rows(grid) == empty_rows(16),
        vacant(grid),
{
    [create_empty_row(); 16]
}

/// Whether the block values of the row add up to the width of the field.
pub fn is_full_row(row: &Row) -> (full: bool)
    ensures
        full == row_is_full(row@),
{
    let mut sum: u32 = 0;
    let mut c: usize = 0;
    while c < 10
        invariant
            c <= 10,
            sum == row_sum(row@.take(c as int)),
            sum <= 255 * c,
        decreases 10 - c,
    {
        assert(row@.take(c + 1).drop_last() =~= row@.take(c as int));
        sum = sum + row[c].value as u32;
        c += 1;
    }
    assert(row@.take(10) =~= row@);
    sum == 10
}

/// Replaces row `i` by an empty row and turns rows `0..=i` down by one place,
/// so that the empty row enters at the top.
fn clear_row(grid: &mut Grid, i: usize)
    requires
        i < 16,
    ensures
        grid_rows(*final(grid)) == seq![empty_row()] + grid_rows(*old(grid)).take(i as int)
            + grid_rows(*old(grid)).skip(i + 1),
{
    grid[i] = create_empty_row();
    let top = grid[i];
    let mut r: usize = i;
    while r > 0
        invariant
            r <= i < 16,
            top@ == empty_row(),
            forall|k: int| 0 <= k <= r ==> (#[trigger] grid[k]) == old(grid)[k] || k == i,
            forall|k: int| r < k <= i ==> (#[trigger] grid[k]) == old(grid)[k - 1],
            forall|k: int| i < k < 16 ==> (#[trigger] grid[k]) == old(grid)[k],
        decreases r,
    {
        grid[r] = grid[r - 1];
        r -= 1;
    }
    grid[0] = top;
}

/// Clears every full row, scanning from the top: the row is emptied and
/// rows `0..=i` turn down by one place. Returns the grid and the number of
/// rows cleared.
pub fn clear_full_rows(grid: Grid) -> (result: (Grid, u8))
    ensures
        grid_rows(result.0) == cleared(grid_rows(grid)),
        result.1 == full_row_count(grid_rows(grid)),
        result.1 <= 16,
{
    let ghost before = grid_rows(grid);
    let mut grid = grid;
    let mut count: u8 = 0;
    let mut i: usize = 0;
    while i < 16
        invariant
            i <= 16,
            count <= i,
            before.len() == 16,
            count == full_row_count(before.take(i as int)),
            grid_rows(grid).take(i as int) == empty_rows(count as int) + kept_rows(
                before.take(i as int),
            ),
            grid_rows(grid).skip(i as int) == before.skip(i as int),
        decreases 16 - i,
    {
        proof {
            // Row `i` is the next row of both: of the grid as it is, and of
            // the grid as it was.
            assert(before[i as int] == before.skip(i as int)[0]);
            assert(before.take(i + 1) =~= before.take(i as int).push(before[i as int]));
            before.take(i as int).lemma_filter_push(before[i as int], stays());
            assert(before.skip(i + 1) =~= before.skip(i as int).skip(1));
        }
        if is_full_row(&grid[i]) {
            clear_row(&mut grid, i);
            count += 1;
        }
        i += 1;
    }
    proof {
        assert(before.take(16) =~= before);
    }
    (grid, count)
}

/// In a row of as many blocks as the field is wide, each of value 0 or 1,
/// the values add up to the width exactly when every block is occupied: such
/// a row is full when it has no empty block.
pub proof fn lemma_full_row_of_binary_blocks(row: Seq<Block>)
    requires
        row.len() == PLAYGROUND_WIDTH,
        forall|c: int| 0 <= c < row.len() ==> (#[trigger] row[c]).value <= 1,
    ensures
        row_is_full(row) <==> forall|c: int| 0 <= c < row.len() ==> (#[trigger] row[c]).value != 0,
{
    lemma_sum_of_binary_blocks(row);
}

/// Where every block has the value 0 or 1, the values add up to the number
/// of blocks at most, and to that number exactly when none of them is 0.
pub proof fn lemma_sum_of_binary_blocks(row: Seq<Block>)
    requires
        forall|c: int| 0 <= c < row.len() ==> (#[trigger] row[c]).value <= 1,
    ensures
        0 <= row_sum(row) <= row.len(),
        row_sum(row) == row.len() <==> forall|c: int|
            0 <= c < row.len() ==> (#[trigger] row[c]).value != 0,
    decreases row.len(),
{
    if row.len() > 0 {
        let front = row.drop_last();
        lemma_sum_of_binary_blocks(front);
        if row_sum(row) == row.len() {
            assert forall|c: int| 0 <= c < row.len() implies (#[trigger] row[c]).value != 0 by {
                if c < front.len() {
                    assert(front[c] == row[c]);
                }
            }
        }
    }
}

/// Between none and all of the rows are full.
pub proof fn lemma_full_row_count_bounds(rows: Seq<Seq<Block>>)
    ensures
        0 <= full_row_count(rows) <= rows.len(),
{
}

/// Where no row is full, every row stays.
pub proof fn lemma_all_rows_stay(rows: Seq<Seq<Block>>)
    requires
        forall|k: int| 0 <= k < rows.len() ==> !row_is_full(#[trigger] rows[k]),
    ensures
        kept_rows(rows) == rows,
    decreases rows.len(),
{
    reveal(Seq::filter);
    if rows.len() > 0 {
        lemma_all_rows_stay(rows.drop_last());
    }
}

/// Where row `i` is the only full row, clearing takes it out, moves the rows
/// above it down by one place and puts an empty row at the top; the rows
/// below it stay where they are. One row counts as cleared.
pub proof fn lemma_one_full_row(rows: Seq<Seq<Block>>, i: int)
    requires
        0 <= i < rows.len(),
        row_is_full(rows[i]),
        forall|k: int| 0 <= k < rows.len() && k != i ==> !row_is_full(#[trigger] rows[k]),
    ensures
        full_row_count(rows) == 1,
        cleared(rows) == seq![empty_row()] + rows.take(i) + rows.skip(i + 1),
        cleared(rows)[0] == empty_row(),
        forall|k: int| 0 < k <= i ==> cleared(rows)[k] == rows[k - 1],
        forall|k: int| i < k < rows.len() ==> cleared(rows)[k] == rows[k],
{
    let above = rows.take(i);
    let below = rows.skip(i + 1);
    let full = Seq::<Seq<Block>>::empty().push(rows[i]);
    assert(rows =~= above + full + below);
    lemma_all_rows_stay(above);
    lemma_all_rows_stay(below);
    Seq::<Seq<Block>>::empty().lemma_filter_push(rows[i], stays());
    assert(Seq::<Seq<Block>>::empty().filter(stays()) =~= Seq::<Seq<Block>>::empty());
}

} // verus!
