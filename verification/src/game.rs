//! The game: the board, the falling piece, the score and the fall clock.

use crate::grid::{
    clear_full_rows, cleared, create_empty_row, create_grid, empty_row, empty_rows, full_row_count,
    grid_rows, vacant, Block, Grid, Row, PLAYGROUND_HEIGHT, PLAYGROUND_WIDTH,
};
use crate::shape::{cell_filled, mask_bit};
use crate::tetromino::{Coord, Direction, Tetromino};
use vstd::prelude::*;

verus! {

/// The signal that no further play is possible: a piece came to rest with
/// its frame still at the top row.
#[derive(Clone, Copy, Debug, PartialEq, Eq, Structural)]
pub struct GameOver;

/// What one tick of the fall clock did to the piece.
#[derive(Clone, Copy, Debug, PartialEq, Eq, Structural)]
pub enum Fall {
    /// The game is paused, or the clock has not reached its threshold.
    Waiting,
    /// The piece moved down by one row.
    Moved,
    /// The piece could not move down and was written into the board; a new
    /// piece has to enter.
    Landed,
}

/// Number of ticks after which the piece falls by one row.
pub const FALL_THRESHOLD: u8 = 5;

/// The state of a game. The piece keeps a copy of the board of its own,
/// which is renewed when a piece enters and when rows are cleared.
#[derive(Clone, Copy, Debug, PartialEq)]
pub struct Game {
    pub grid: Grid,
    pub tetromino: Tetromino,
    pub paused: bool,
    pub score: u64,
    /// The ticks counted since the piece last fell.
    pub counter: u8,
}

/// The board after the piece has been written into it: each cell that the
/// piece occupies holds a block of value 1 in the piece's colour, every
/// other cell is as before.
pub open spec fn stamped(grid: Grid, piece: Tetromino) -> Seq<Seq<Block>> {
    Seq::new(
        16,
        |r: int|
            Seq::new(
                10,
                |c: int|
                    if cell_filled(
                        piece.current_rotation,
                        r - piece.topleft.y,
                        c - piece.topleft.x,
                    ) {
                        Block { value: 1, color: Some(piece.color) }
                    } else {
                        grid[r][c]
                    },
            ),
    )
}

impl Game {
    /// The piece is well formed and lies on the board, and the fall clock is
    /// below its threshold.
    pub open spec fn wf(self) -> bool {
        &&& self.tetromino.wf()
        &&& self.tetromino.on_board()
        &&& self.counter < FALL_THRESHOLD
    }

    /// The game is running, and the next tick brings the fall clock to its
    /// threshold.
    pub open spec fn due(self) -> bool {
        !self.paused && self.counter + 1 == FALL_THRESHOLD
    }

    /// The next tick lands the piece: the clock is due, the piece cannot move
    /// down, and its frame has left the top row.
    pub open spec fn lands(self) -> bool {
        self.due() && self.tetromino.down() is Err && self.tetromino.topleft.y > 0
    }

    /// The next tick ends the game: the clock is due, the piece cannot move
    /// down, and its frame is still at the top row.
    pub open spec fn ends(self) -> bool {
        self.due() && self.tetromino.down() is Err && self.tetromino.topleft.y <= 0
    }

    /// The same game with another piece, or with the piece in another place.
    pub open spec fn with_piece(self, piece: Tetromino) -> Game {
        Game { tetromino: piece, ..self }
    }

    /// The game after a tick that leaves the piece where it is: the tick is
    /// counted unless the game is paused.
    pub open spec fn waited(self) -> Game {
        Game {
            counter: if self.paused {
                self.counter
            } else {
                (self.counter + 1) as u8
            },
            ..self
        }
    }

    /// The game after a tick that moves the piece down: the clock starts
    /// again.
    pub open spec fn moved(self) -> Game {
        Game { tetromino: self.tetromino.after_down(), counter: 0, ..self }
    }

    /// The score once the piece has landed where it is: the width of the
    /// board is added for each row that is full with the piece in it.
    pub open spec fn landing_score(self) -> int {
        self.score + PLAYGROUND_WIDTH * full_row_count(stamped(self.grid, self.tetromino))
    }

    /// A row of empty blocks.
    pub fn create_empty_row() -> (row: Row)
        ensures
            row@ == empty_row(),
    {
        create_empty_row()
    }

    /// A grid of empty rows.
    pub fn create_grid() -> (grid: Grid)
        ensures
            grid_rows(grid) == empty_rows(16),
            vacant(grid),
    {
        create_grid()
    }

    /// A game on an empty board, running, with no score and no tick counted,
    /// and with a first piece drawn at random.
    pub fn new() -> (game: Game)
        ensures
            grid_rows(game.grid) == empty_rows(16),
            vacant(game.grid),
            game.tetromino == Tetromino::spawned(
                game.grid,
                game.tetromino.shape,
                game.tetromino.current_rotation,
            ),
            game.score == 0,
            !game.paused,
            game.counter == 0,
            game.wf(),
    {
        let grid = Game::create_grid();
        Game { tetromino: Tetromino::new(grid), grid, score: 0, counter: 0, paused: false }
    }

    /// Clears the full rows of the board and adds the width of the board to
    /// the score for each. The piece's copy of the board is renewed if a row
    /// was cleared, and left as it is if none was.
    pub fn clear_rows(&mut self)
        requires
            old(self).score + PLAYGROUND_WIDTH * full_row_count(grid_rows(old(self).grid))
                <= u64::MAX,
        ensures
            grid_rows(final(self).grid) == cleared(grid_rows(old(self).grid)),
            final(self).score == old(self).score + PLAYGROUND_WIDTH * full_row_count(
                grid_rows(old(self).grid),
            ),
            final(self).score >= old(self).score,
            final(self).tetromino == if full_row_count(grid_rows(old(self).grid)) > 0 {
                Tetromino { grid: final(self).grid, ..old(self).tetromino }
            } else {
                old(self).tetromino
            },
            final(self).paused == old(self).paused,
            final(self).counter == old(self).counter,
            old(self).wf() ==> final(self).wf(),
    {
        let (grid, count) = clear_full_rows(self.grid);
        self.grid = grid;
        if count > 0 {
            self.tetromino.grid = grid;
            self.score += PLAYGROUND_WIDTH as u64 * count as u64;
        }
    }

    /// Brings the piece to rest. If its frame is still at the top row, the
    /// game is over and nothing changes. Otherwise the cells of the piece are
    /// written into the board, each as a block of value 1 in the piece's
    /// colour; then the full rows are cleared and scored, and the piece's
    /// copy of the board is renewed.
    pub fn land_tetromino(&mut self) -> (result: Result<(), GameOver>)
        requires
            old(self).wf(),
            old(self).tetromino.topleft.y > 0 ==> old(self).landing_score() <= u64::MAX,
        ensures
            result is Err <==> old(self).tetromino.topleft.y <= 0,
            result is Err ==> *final(self) == *old(self),
            result is Ok ==> {
                &&& grid_rows(final(self).grid) == cleared(
                    stamped(old(self).grid, old(self).tetromino),
                )
                &&& final(self).tetromino == Tetromino {
                    grid: final(self).grid,
                    ..old(self).tetromino
                }
                &&& final(self).score == old(self).landing_score()
                &&& final(self).paused == old(self).paused
                &&& final(self).counter == old(self).counter
            },
            final(self).score >= old(self).score,
            final(self).wf(),
    {
        if self.tetromino.topleft.y <= 0 {
            return Err(GameOver);
        }
        let current_rotation = self.tetromino.current_rotation;
        let tetrovec = self.tetromino.shape.to_vec(current_rotation);
        let Coord { y, x } = self.tetromino.topleft;
        let color = self.tetromino.color;
        let mut rowidx: usize = 0;
        while rowidx < 4
            invariant
                rowidx <= 4,
                y > 0,
                tetrovec.len() == 4,
                forall|i: int| 0 <= i < 4 ==> (#[trigger] tetrovec[i]).len() == 4,
                forall|i: int, j: int|
                    0 <= i < 4 && 0 <= j < 4 ==> #[trigger] tetrovec[i][j] == mask_bit(
                        current_rotation,
                        4 * i + j,
                    ) && tetrovec[i][j] <= 1,
                forall|i: int, j: int|
                    #[trigger] cell_filled(current_rotation, i, j) ==> 0 <= x + j
                        < PLAYGROUND_WIDTH && y + i < PLAYGROUND_HEIGHT,
                forall|r: int, c: int|
                    0 <= r < 16 && 0 <= c < 10 ==> #[trigger] self.grid[r][c] == if r - y < rowidx
                        && cell_filled(current_rotation, r - y, c - x) {
                        Block { value: 1, color: Some(color) }
                    } else {
                        old(self).grid[r][c]
                    },
                self.tetromino == old(self).tetromino,
                self.paused == old(self).paused,
                self.score == old(self).score,
                self.counter == old(self).counter,
            decreases 4 - rowidx,
        {
            let mut colidx: usize = 0;
            while colidx < 4
                invariant
                    rowidx < 4,
                    colidx <= 4,
                    y > 0,
                    tetrovec.len() == 4,
                    forall|i: int| 0 <= i < 4 ==> (#[trigger] tetrovec[i]).len() == 4,
                    forall|i: int, j: int|
                        0 <= i < 4 && 0 <= j < 4 ==> #[trigger] tetrovec[i][j] == mask_bit(
                            current_rotation,
                            4 * i + j,
                        ) && tetrovec[i][j] <= 1,
                    forall|i: int, j: int|
                        #[trigger] cell_filled(current_rotation, i, j) ==> 0 <= x + j
                            < PLAYGROUND_WIDTH && y + i < PLAYGROUND_HEIGHT,
                    forall|r: int, c: int|
                        0 <= r < 16 && 0 <= c < 10 ==> #[trigger] self.grid[r][c] == if (r - y
                            < rowidx || (r - y == rowidx && c - x < colidx)) && cell_filled(
                            current_rotation,
                            r - y,
                            c - x,
                        ) {
                            Block { value: 1, color: Some(color) }
                        } else {
                            old(self).grid[r][c]
                        },
                    self.tetromino == old(self).tetromino,
                    self.paused == old(self).paused,
                    self.score == old(self).score,
                    self.counter == old(self).counter,
                decreases 4 - colidx,
            {
                let column = tetrovec[rowidx][colidx];
                if column != 0 {
                    assert(cell_filled(current_rotation, rowidx as int, colidx as int));
                    self.grid[rowidx + y as usize][(colidx as i32 + x) as usize] = Block {
                        value: column as u8,
                        color: Some(color),
                    };
                }
                colidx += 1;
            }
            rowidx += 1;
        }
        assert(grid_rows(self.grid) =~~= stamped(old(self).grid, old(self).tetromino));
        self.clear_rows();
        self.tetromino.grid = self.grid;
        Ok(())
    }

    /// One tick of the fall clock, up to the entry of a new piece. While the
    /// game is paused nothing happens. Else the clock counts the tick; when
    /// it reaches its threshold it starts again from 0 and the piece moves
    /// down by one row or, if the board does not allow that, lands. When the
    /// piece cannot land the game is over, and nothing has changed: the same
    /// signal comes on the next tick.
    pub fn fall(&mut self) -> (result: Result<Fall, GameOver>)
        requires
            old(self).wf(),
            old(self).lands() ==> old(self).landing_score() <= u64::MAX,
        ensures
            match result {
                Ok(Fall::Waiting) => {
                    &&& !old(self).due()
                    &&& *final(self) == old(self).waited()
                },
                Ok(Fall::Moved) => {
                    &&& old(self).due()
                    &&& old(self).tetromino.down() is Ok
                    &&& *final(self) == old(self).moved()
                },
                Ok(Fall::Landed) => {
                    &&& old(self).lands()
                    &&& grid_rows(final(self).grid) == cleared(
                        stamped(old(self).grid, old(self).tetromino),
                    )
                    &&& final(self).tetromino == Tetromino {
                        grid: final(self).grid,
                        ..old(self).tetromino
                    }
                    &&& final(self).score == old(self).landing_score()
                    &&& final(self).paused == old(self).paused
                    &&& final(self).counter == 0
                },
                Err(GameOver) => {
                    &&& old(self).ends()
                    &&& *final(self) == *old(self)
                },
            },
            final(self).score >= old(self).score,
            final(self).wf(),
    {
        if self.paused {
            return Ok(Fall::Waiting);
        }
        if self.counter + 1 < FALL_THRESHOLD {
            self.counter += 1;
            return Ok(Fall::Waiting);
        }
        if self.tetromino.move_down().is_ok() {
            self.counter = 0;
            return Ok(Fall::Moved);
        }
        match self.land_tetromino() {
            Ok(()) => {
                self.counter = 0;
                Ok(Fall::Landed)
            },
            Err(over) => Err(over),
        }
    }

    /// One tick of the fall clock: `fall`, and after a landing the entry of a
    /// new piece, drawn at random, with the board as it then is.
    pub fn handle_falling(&mut self) -> (result: Result<(), GameOver>)
        requires
            old(self).wf(),
            old(self).lands() ==> old(self).landing_score() <= u64::MAX,
        ensures
            result is Err <==> old(self).ends(),
            old(self).ends() ==> *final(self) == *old(self),
            !old(self).due() ==> *final(self) == old(self).waited(),
            old(self).due() && (old(self).tetromino.down() is Ok) ==> *final(self) == old(
                self,
            ).moved(),
            old(self).lands() ==> {
                &&& grid_rows(final(self).grid) == cleared(
                    stamped(old(self).grid, old(self).tetromino),
                )
                &&& final(self).tetromino == Tetromino::spawned(
                    final(self).grid,
                    final(self).tetromino.shape,
                    final(self).tetromino.current_rotation,
                )
                &&& final(self).score == old(self).landing_score()
                &&& final(self).paused == old(self).paused
                &&& final(self).counter == 0
            },
            final(self).score >= old(self).score,
            final(self).wf(),
    {
        match self.fall() {
            Ok(Fall::Landed) => {
                self.tetromino = Tetromino::new(self.grid);
                Ok(())
            },
            Ok(_) => Ok(()),
            Err(over) => Err(over),
        }
    }

    /// Moves the piece one column to the left, if the board allows it.
    pub fn move_left(&mut self)
        requires
            old(self).wf(),
        ensures
            *final(self) == old(self).with_piece(
                old(self).tetromino.after_sideways(Direction::Left),
            ),
            final(self).wf(),
    {
        let _ = self.tetromino.move_sideways(Direction::Left);
    }

    /// Moves the piece one column to the right, if the board allows it.
    pub fn move_right(&mut self)
        requires
            old(self).wf(),
        ensures
            *final(self) == old(self).with_piece(
                old(self).tetromino.after_sideways(Direction::Right),
            ),
            final(self).wf(),
    {
        let _ = self.tetromino.move_sideways(Direction::Right);
    }

    /// Moves the piece down by one row, if the board allows it.
    pub fn soft_drop(&mut self)
        requires
            old(self).wf(),
        ensures
            *final(self) == old(self).with_piece(old(self).tetromino.after_down()),
            final(self).wf(),
    {
        let _ = self.tetromino.move_down();
    }

    /// Moves the piece down as far as the board allows: to the first row
    /// from which it cannot move down.
    pub fn hard_drop(&mut self)
        requires
            old(self).wf(),
        ensures
            *final(self) == old(self).with_piece(
                old(self).tetromino.at(
                    final(self).tetromino.topleft.y as int,
                    old(self).tetromino.topleft.x as int,
                ),
            ),
            final(self).tetromino.topleft.y >= old(self).tetromino.topleft.y,
            final(self).tetromino.down() is Err,
            forall|y: int|
                old(self).tetromino.topleft.y <= y < final(self).tetromino.topleft.y ==> (
                #[trigger] old(self).tetromino.at(y, old(self).tetromino.topleft.x as int)).down()
                    is Ok,
            final(self).wf(),
    {
        self.tetromino.move_all_the_way_down();
    }

    /// Turns the piece clockwise, to the next rotation of its kind, if the
    /// board allows it.
    pub fn rotate_cw(&mut self)
        requires
            old(self).wf(),
        ensures
            *final(self) == old(self).with_piece(old(self).tetromino.after_turn(Direction::Right)),
            final(self).wf(),
    {
        let _ = self.tetromino.rotate(Direction::Right);
    }

    /// Turns the piece counterclockwise, to the previous rotation of its
    /// kind, if the board allows it.
    pub fn rotate_ccw(&mut self)
        requires
            old(self).wf(),
        ensures
            *final(self) == old(self).with_piece(old(self).tetromino.after_turn(Direction::Left)),
            final(self).wf(),
    {
        let _ = self.tetromino.rotate(Direction::Left);
    }

    /// Pauses the game, or resumes it.
    pub fn toggle_pause(&mut self)
        ensures
            *final(self) == (Game { paused: !old(self).paused, ..*old(self) }),
    {
        self.paused = !self.paused;
    }
}

} // verus!
