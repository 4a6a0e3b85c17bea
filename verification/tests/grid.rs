use tetris_core::grid;
use tetris_core::grid::{clear_full_rows, is_full_row};
use tetris_core::{Block, Color, Game, Grid, PLAYGROUND_HEIGHT, PLAYGROUND_WIDTH};

fn empty_block() -> Block {
    Block { value: 0, color: None }
}

fn full_row(color: Color) -> [Block; 10] {
    [Block::new(1, Some(color)); 10]
}

#[test]
fn create_grid() {
    let grid = Game::create_grid();
    assert_eq!(grid.len(), PLAYGROUND_HEIGHT as usize);
    for i in 0..PLAYGROUND_HEIGHT {
        assert_eq!(grid[i as usize].len(), PLAYGROUND_WIDTH as usize);
    }
}

#[test]
fn create_empty_row() {
    let row = Game::create_empty_row();
    assert_eq!(row.len(), PLAYGROUND_WIDTH as usize);
    for i in 0..PLAYGROUND_WIDTH {
        assert_eq!(
            row[i as usize],
            Block {
                value: 0,
                color: None
            }
        );
    }
}

#[test]
fn constants_are_ten_by_sixteen() {
    assert_eq!(PLAYGROUND_WIDTH, 10);
    assert_eq!(PLAYGROUND_HEIGHT, 16);
}

#[test]
fn block_new_keeps_value_and_color() {
    let block = Block::new(1, Some(Color::Red));
    assert_eq!(block.value, 1);
    assert_eq!(block.color, Some(Color::Red));
    assert_eq!(Block::new(0, None), empty_block());
}

#[test]
fn grid_functions_give_empty_cells() {
    let grid = grid::create_grid();
    for r in 0..16 {
        assert_eq!(grid[r], grid::create_empty_row());
        for c in 0..10 {
            assert_eq!(grid[r][c], empty_block());
        }
    }
    assert_eq!(Game::create_grid(), grid);
    assert_eq!(Game::create_empty_row(), grid::create_empty_row());
}

#[test]
fn row_is_full_when_values_sum_to_width() {
    assert!(!is_full_row(&grid::create_empty_row()));
    assert!(is_full_row(&full_row(Color::Blue)));
    let mut nine = full_row(Color::Blue);
    nine[4] = empty_block();
    assert!(!is_full_row(&nine));
    // The test is on the sum of the values, not on each block.
    let mut one_heavy = grid::create_empty_row();
    one_heavy[0] = Block::new(10, None);
    assert!(is_full_row(&one_heavy));
    let twos = [Block::new(2, None); 10];
    assert!(!is_full_row(&twos));
    let mut mixed = full_row(Color::Blue);
    mixed[0] = Block::new(2, None);
    mixed[1] = Block::new(0, None);
    assert!(is_full_row(&mixed));
    let high = [Block::new(255, None); 10];
    assert!(!is_full_row(&high));
}

#[test]
fn clearing_an_empty_grid_changes_nothing() {
    let grid = grid::create_grid();
    let (after, count) = clear_full_rows(grid);
    assert_eq!(after, grid);
    assert_eq!(count, 0);
}

#[test]
fn clearing_keeps_rows_that_are_not_full() {
    let mut grid = grid::create_grid();
    grid[15][0] = Block::new(1, Some(Color::Green));
    grid[14][9] = Block::new(1, Some(Color::Cyan));
    grid[3] = full_row(Color::Red);
    grid[3][5] = empty_block();
    let (after, count) = clear_full_rows(grid);
    assert_eq!(after, grid);
    assert_eq!(count, 0);
}

#[test]
fn clearing_one_row_moves_the_rows_above_it_down() {
    let mut grid = grid::create_grid();
    grid[10] = full_row(Color::Red);
    grid[9][2] = Block::new(1, Some(Color::Green));
    grid[0][7] = Block::new(1, Some(Color::Cyan));
    grid[11][3] = Block::new(1, Some(Color::Blue));
    let (after, count) = clear_full_rows(grid);
    assert_eq!(count, 1);
    let mut expected: Grid = grid::create_grid();
    expected[10][2] = Block::new(1, Some(Color::Green));
    expected[1][7] = Block::new(1, Some(Color::Cyan));
    expected[11][3] = Block::new(1, Some(Color::Blue));
    assert_eq!(after, expected);
    assert_eq!(after[0], grid::create_empty_row());
}

#[test]
fn clearing_the_top_row_empties_it() {
    let mut grid = grid::create_grid();
    grid[0] = full_row(Color::Red);
    grid[1][1] = Block::new(1, None);
    let (after, count) = clear_full_rows(grid);
    assert_eq!(count, 1);
    let mut expected = grid::create_grid();
    expected[1][1] = Block::new(1, None);
    assert_eq!(after, expected);
}

#[test]
fn clearing_several_rows_in_one_pass() {
    let mut grid = grid::create_grid();
    grid[3] = full_row(Color::Red);
    grid[7] = full_row(Color::Blue);
    grid[8] = full_row(Color::Cyan);
    grid[15] = full_row(Color::White);
    grid[2][0] = Block::new(1, Some(Color::Green));
    grid[5][1] = Block::new(1, Some(Color::Yellow));
    grid[9][2] = Block::new(1, Some(Color::Magenta));
    grid[14][3] = Block::new(1, Some(Color::Red));
    let (after, count) = clear_full_rows(grid);
    assert_eq!(count, 4);
    let mut expected = grid::create_grid();
    // Row 2 lies above four full rows, row 5 above three, rows 9 and 14
    // above one.
    expected[6][0] = Block::new(1, Some(Color::Green));
    expected[8][1] = Block::new(1, Some(Color::Yellow));
    expected[10][2] = Block::new(1, Some(Color::Magenta));
    expected[15][3] = Block::new(1, Some(Color::Red));
    assert_eq!(after, expected);
}

#[test]
fn clearing_a_grid_of_full_rows_empties_it() {
    let grid: Grid = [full_row(Color::Yellow); 16];
    let (after, count) = clear_full_rows(grid);
    assert_eq!(count, 16);
    assert_eq!(after, grid::create_grid());
}
