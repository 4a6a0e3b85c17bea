//! The falling piece: its position, its rotation, and the moves that the
//! board allows it.

use crate::grid::{occupied, vacant, Color, Grid, PLAYGROUND_HEIGHT, PLAYGROUND_WIDTH};
use crate::random::{choose_rotation, gen_range_inclusive, thread_rng};
use crate::shape::{cell_filled, mask_bit, Rotation, Shape};
use vstd::arithmetic::div_mod::{
    lemma_add_mod_noop_right, lemma_mod_multiples_vanish, lemma_small_mod,
};
use vstd::prelude::*;

verus! {

/// The two ways to move sideways, and the two ways to turn: `Left` is one
/// column to the left or the previous rotation of the list, `Right` one
/// column to the right or the next rotation.
#[derive(Clone, Copy, Debug, PartialEq, Eq, Structural)]
pub enum Direction {
    Left,
    Right,
}

/// A position on the board: row `y`, column `x`.
#[derive(Clone, Copy, Debug, PartialEq, Eq, Structural)]
pub struct Coord {
    pub y: i32,
    pub x: i32,
}

/// Why a move or a turn was refused. The piece is then left as it was.
#[derive(Clone, Copy, Debug, PartialEq, Eq, Structural)]
pub enum MoveError {
    /// A cell of the piece would leave the board through a wall or the floor.
    OutOfBounds,
    /// The piece would stay on the board, and a cell of it would lie on an
    /// occupied block.
    Collision,
}

/// The falling piece. `grid` is the piece's own copy of the board, taken
/// when the piece was made; moves and turns are judged against that copy.
#[derive(Clone, Copy, Debug, PartialEq)]
pub struct Tetromino {
    pub grid: Grid,
    pub shape: Shape,
    pub color: Color,
    pub topleft: Coord,
    pub current_rotation: Rotation,
}

/// No occupied cell of the mask, its frame standing at column `x`, lies
/// beyond the left or the right wall.
pub open spec fn within_walls(rotation: Rotation, x: int) -> bool {
    forall|r: int, c: int| #[trigger] cell_filled(rotation, r, c) ==> 0 <= x + c < PLAYGROUND_WIDTH
}

/// No occupied cell of the mask, its frame standing at row `y`, lies below
/// the floor.
pub open spec fn above_floor(rotation: Rotation, y: int) -> bool {
    forall|r: int, c: int| #[trigger] cell_filled(rotation, r, c) ==> y + r < PLAYGROUND_HEIGHT
}

/// Some occupied cell of the mask, its frame standing at row `y` and column
/// `x`, lies on an occupied block of the board.
pub open spec fn overlaps(grid: Grid, rotation: Rotation, y: int, x: int) -> bool {
    exists|r: int, c: int| #[trigger] cell_filled(rotation, r, c) && occupied(grid, y + r, x + c)
}

/// The verdict on the mask with its frame at row `y`, column `x`: out of
/// bounds if any occupied cell lies beyond a wall or below the floor; else a
/// collision if any lies on an occupied block; else the place is free.
pub open spec fn placement(grid: Grid, rotation: Rotation, y: int, x: int) -> Result<
    (),
    MoveError,
> {
    if !(within_walls(rotation, x) && above_floor(rotation, y)) {
        Err(MoveError::OutOfBounds)
    } else if overlaps(grid, rotation, y, x) {
        Err(MoveError::Collision)
    } else {
        Ok(())
    }
}

/// On a board without occupied blocks, every place between the walls and
/// above the floor is free.
pub proof fn lemma_vacant_board_is_free(grid: Grid, rotation: Rotation, y: int, x: int)
    requires
        vacant(grid),
        within_walls(rotation, x),
        above_floor(rotation, y),
    ensures
        placement(grid, rotation, y, x) == Ok::<(), MoveError>(()),
{
}

/// A place at which the occupied cell `(r, c)` of the mask lies beyond a wall
/// or below the floor is out of bounds, whatever the board holds.
pub proof fn lemma_cell_off_board(grid: Grid, rotation: Rotation, y: int, x: int, r: int, c: int)
    requires
        cell_filled(rotation, r, c),
        !(0 <= x + c < PLAYGROUND_WIDTH) || y + r >= PLAYGROUND_HEIGHT,
    ensures
        placement(grid, rotation, y, x) == Err::<(), MoveError>(MoveError::OutOfBounds),
{
}

/// A place between the walls and above the floor at which the occupied cell
/// `(r, c)` of the mask lies on an occupied block is a collision.
pub proof fn lemma_cell_on_block(grid: Grid, rotation: Rotation, y: int, x: int, r: int, c: int)
    requires
        within_walls(rotation, x),
        above_floor(rotation, y),
        cell_filled(rotation, r, c),
        occupied(grid, y + r, x + c),
    ensures
        placement(grid, rotation, y, x) == Err::<(), MoveError>(MoveError::Collision),
{
}

impl Direction {
    /// The change that the direction makes to a column or to an index of the
    /// rotation list.
    pub open spec fn delta(self) -> int {
        match self {
            Direction::Left => -1,
            Direction::Right => 1,
        }
    }

    /// The change that the direction makes, as a number: -1 or 1.
    pub fn step(&self) -> (d: i32)
        ensures
            d == self.delta(),
    {
        match self {
            Direction::Left => -1,
            Direction::Right => 1,
        }
    }
}

impl Tetromino {
    /// The row and the column at which every piece enters the board.
    pub open spec fn entry() -> Coord {
        Coord { y: 0, x: (PLAYGROUND_WIDTH / 2 - 1) as i32 }
    }

    /// The piece that enters the board `grid` with the given kind and
    /// rotation.
    pub open spec fn spawned(grid: Grid, shape: Shape, rotation: Rotation) -> Tetromino {
        Tetromino {
            grid,
            shape,
            color: shape.color(),
            topleft: Tetromino::entry(),
            current_rotation: rotation,
        }
    }

    /// The rotation is one of the kind's list, and the frame does not stand
    /// above the top of the board.
    pub open spec fn wf(self) -> bool {
        self.shape.rotations().contains(self.current_rotation) && self.topleft.y >= 0
    }

    /// Every occupied cell of the piece lies between the walls and above the
    /// floor.
    pub open spec fn on_board(self) -> bool {
        within_walls(self.current_rotation, self.topleft.x as int) && above_floor(
            self.current_rotation,
            self.topleft.y as int,
        )
    }

    /// The same piece with its frame at row `y`, column `x`.
    pub open spec fn at(self, y: int, x: int) -> Tetromino {
        Tetromino { topleft: Coord { y: y as i32, x: x as i32 }, ..self }
    }

    /// The same piece in the given rotation.
    pub open spec fn turned_to(self, rotation: Rotation) -> Tetromino {
        Tetromino { current_rotation: rotation, ..self }
    }

    /// The rotation that a turn leads to: the neighbour of the current one in
    /// the kind's list, the list taken as a ring.
    pub open spec fn neighbour(self, direction: Direction) -> Rotation {
        let list = self.shape.rotations();
        list[(list.index_of(self.current_rotation) + direction.delta()) % (list.len() as int)]
    }

    /// The verdict on a move by one column.
    pub open spec fn sideways(self, direction: Direction) -> Result<(), MoveError> {
        placement(
            self.grid,
            self.current_rotation,
            self.topleft.y as int,
            self.topleft.x + direction.delta(),
        )
    }

    /// The verdict on a move down by one row.
    pub open spec fn down(self) -> Result<(), MoveError> {
        placement(self.grid, self.current_rotation, self.topleft.y + 1, self.topleft.x as int)
    }

    /// The verdict on a turn.
    pub open spec fn turn(self, direction: Direction) -> Result<(), MoveError> {
        placement(
            self.grid,
            self.neighbour(direction),
            self.topleft.y as int,
            self.topleft.x as int,
        )
    }

    /// The piece after an attempt to move by one column: moved if the board
    /// allows it, else as it was.
    pub open spec fn after_sideways(self, direction: Direction) -> Tetromino {
        if self.sideways(direction) is Ok {
            self.at(self.topleft.y as int, self.topleft.x + direction.delta())
        } else {
            self
        }
    }

    /// The piece after an attempt to move down by one row: moved if the board
    /// allows it, else as it was.
    pub open spec fn after_down(self) -> Tetromino {
        if self.down() is Ok {
            self.at(self.topleft.y + 1, self.topleft.x as int)
        } else {
            self
        }
    }

    /// The piece after an attempt to turn: turned if the board allows it,
    /// else as it was.
    pub open spec fn after_turn(self, direction: Direction) -> Tetromino {
        if self.turn(direction) is Ok {
            self.turned_to(self.neighbour(direction))
        } else {
            self
        }
    }

    /// The piece after `n` turns in one direction, each of them allowed.
    pub open spec fn after_turns(self, direction: Direction, n: nat) -> Tetromino
        decreases n,
    {
        if n == 0 {
            self
        } else {
            let piece = self.after_turns(direction, (n - 1) as nat);
            piece.turned_to(piece.neighbour(direction))
        }
    }

    /// Turning walks through the kind's list as through a ring: `n` turns
    /// from the rotation at index `i` lead to the rotation `n` places on, to
    /// the right or to the left, whatever `n` is.
    pub proof fn lemma_turns_walk_the_ring(self, direction: Direction, n: nat)
        requires
            self.shape.rotations().contains(self.current_rotation),
        ensures
            self.after_turns(direction, n) == self.turned_to(
                self.shape.rotations()[(self.shape.rotations().index_of(self.current_rotation) + n
                    * direction.delta()) % (self.shape.rotations().len() as int)],
            ),
            self.shape.rotations().contains(self.after_turns(direction, n).current_rotation),
        decreases n,
    {
        let list = self.shape.rotations();
        let len = list.len() as int;
        let i = list.index_of(self.current_rotation);
        let d = direction.delta();
        if n == 0 {
            lemma_small_mod(i as nat, len as nat);
        } else {
            let m = (n - 1) as nat;
            self.lemma_turns_walk_the_ring(direction, m);
            assert(n * d == m * d + d) by (nonlinear_arith)
                requires
                    n == m + 1,
            ;
            lemma_add_mod_noop_right(d, i + m * d, len);
        }
    }

    /// As many turns in one direction as the kind has rotations lead back to
    /// the rotation from which they started.
    pub proof fn lemma_full_turn(self, direction: Direction)
        requires
            self.shape.rotations().contains(self.current_rotation),
        ensures
            self.after_turns(direction, self.shape.rotations().len()) == self,
    {
        let list = self.shape.rotations();
        let len = list.len() as int;
        let i = list.index_of(self.current_rotation);
        self.lemma_turns_walk_the_ring(direction, list.len());
        lemma_mod_multiples_vanish(direction.delta(), i, len);
        lemma_small_mod(i as nat, len as nat);
    }

    /// On a board without occupied blocks a move by one column is allowed
    /// where every occupied cell stays between the walls, and is out of
    /// bounds where one would pass a wall.
    pub proof fn lemma_sideways_on_vacant_board(self, direction: Direction)
        requires
            vacant(self.grid),
            above_floor(self.current_rotation, self.topleft.y as int),
        ensures
            self.sideways(direction) == if within_walls(
                self.current_rotation,
                self.topleft.x + direction.delta(),
            ) {
                Ok::<(), MoveError>(())
            } else {
                Err::<(), MoveError>(MoveError::OutOfBounds)
            },
    {
    }

    /// On a board without occupied blocks a move down is allowed as long as
    /// the lowest occupied cell of the piece lies above the bottom row, and
    /// is out of bounds from then on.
    pub proof fn lemma_down_on_vacant_board(self)
        requires
            vacant(self.grid),
            within_walls(self.current_rotation, self.topleft.x as int),
        ensures
            self.down() == if above_floor(self.current_rotation, self.topleft.y + 1) {
                Ok::<(), MoveError>(())
            } else {
                Err::<(), MoveError>(MoveError::OutOfBounds)
            },
    {
    }

    /// A piece that lies on a board without occupied blocks and cannot move
    /// down has an occupied cell in the bottom row.
    pub proof fn lemma_rest_on_floor(self)
        requires
            vacant(self.grid),
            self.on_board(),
            self.down() is Err,
        ensures
            exists|r: int, c: int|
                cell_filled(self.current_rotation, r, c) && self.topleft.y + r
                    == PLAYGROUND_HEIGHT - 1,
    {
        // The cell that a move down would bring below the floor.
        let (r, c) = choose|r: int, c: int|
            cell_filled(self.current_rotation, r, c) && self.topleft.y + 1 + r
                >= PLAYGROUND_HEIGHT;
        assert(cell_filled(self.current_rotation, r, c) && self.topleft.y + r == PLAYGROUND_HEIGHT
            - 1);
    }

    /// Judges the mask `rotation` with its frame at row `y`, column `x`
    /// against the piece's copy of the board.
    fn check_placement(&self, rotation: Rotation, y: i64, x: i64) -> (result: Result<
        (),
        MoveError,
    >)
        requires
            0 <= y <= 0x1_0000_0000,
            -0x1_0000_0000 <= x <= 0x1_0000_0000,
        ensures
            result == placement(self.grid, rotation, y as int, x as int),
    {
        let cells = self.shape.to_vec(rotation);
        let mut out = false;
        let mut hit = false;
        let mut r: usize = 0;
        while r < 4
            invariant
                r <= 4,
                0 <= y <= 0x1_0000_0000,
                -0x1_0000_0000 <= x <= 0x1_0000_0000,
                cells.len() == 4,
                forall|i: int| 0 <= i < 4 ==> (#[trigger] cells[i]).len() == 4,
                forall|i: int, j: int|
                    0 <= i < 4 && 0 <= j < 4 ==> #[trigger] cells[i][j] == mask_bit(
                        rotation,
                        4 * i + j,
                    ),
                out ==> !(within_walls(rotation, x as int) && above_floor(rotation, y as int)),
                hit ==> overlaps(self.grid, rotation, y as int, x as int),
                !out ==> forall|i: int, j: int|
                    0 <= i < r && #[trigger] cell_filled(rotation, i, j) ==> 0 <= x + j
                        < PLAYGROUND_WIDTH && y + i < PLAYGROUND_HEIGHT,
                !hit ==> forall|i: int, j: int|
                    0 <= i < r && #[trigger] cell_filled(rotation, i, j) ==> !occupied(
                        self.grid,
                        y + i,
                        x + j,
                    ),
            decreases 4 - r,
        {
            let mut c: usize = 0;
            while c < 4
                invariant
                    r < 4,
                    c <= 4,
                    0 <= y <= 0x1_0000_0000,
                    -0x1_0000_0000 <= x <= 0x1_0000_0000,
                    cells.len() == 4,
                    forall|i: int| 0 <= i < 4 ==> (#[trigger] cells[i]).len() == 4,
                    forall|i: int, j: int|
                        0 <= i < 4 && 0 <= j < 4 ==> #[trigger] cells[i][j] == mask_bit(
                            rotation,
                            4 * i + j,
                        ),
                    out ==> !(within_walls(rotation, x as int) && above_floor(rotation, y as int)),
                    hit ==> overlaps(self.grid, rotation, y as int, x as int),
                    !out ==> forall|i: int, j: int|
                        (0 <= i < r || (i == r && j < c)) && #[trigger] cell_filled(rotation, i, j)
                            ==> 0 <= x + j < PLAYGROUND_WIDTH && y + i < PLAYGROUND_HEIGHT,
                    !hit ==> forall|i: int, j: int|
                        (0 <= i < r || (i == r && j < c)) && #[trigger] cell_filled(rotation, i, j)
                            ==> !occupied(self.grid, y + i, x + j),
                decreases 4 - c,
            {
                if cells[r][c] != 0 {
                    assert(cell_filled(rotation, r as int, c as int));
                    let row: i64 = y + r as i64;
                    let col: i64 = x + c as i64;
                    if col < 0 || col >= PLAYGROUND_WIDTH as i64 || row >= PLAYGROUND_HEIGHT as i64 {
                        out = true;
                    } else if self.grid[row as usize][col as usize].value != 0 {
                        hit = true;
                    }
                }
                c += 1;
            }
            r += 1;
        }
        if out {
            Err(MoveError::OutOfBounds)
        } else if hit {
            Err(MoveError::Collision)
        } else {
            Ok(())
        }
    }

    /// The piece that enters the board `grid` with the given kind and
    /// rotation: at the top row, at the middle of the board, in the kind's
    /// colour, with `grid` as its copy of the board.
    pub fn spawn(grid: Grid, shape: Shape, rotation: Rotation) -> (piece: Tetromino)
        requires
            shape.rotations().contains(rotation),
        ensures
            piece == Tetromino::spawned(grid, shape, rotation),
            piece.wf(),
            piece.on_board(),
    {
        Tetromino {
            grid,
            shape,
            color: shape.get_color(),
            current_rotation: rotation,
            topleft: Coord { y: 0, x: PLAYGROUND_WIDTH / 2 - 1 },
        }
    }

    /// A piece of a kind drawn at random, in a rotation drawn at random from
    /// the kind's list, entering the board `grid`.
    pub fn new(grid: Grid) -> (piece: Tetromino)
        ensures
            piece == Tetromino::spawned(grid, piece.shape, piece.current_rotation),
            piece.wf(),
            piece.on_board(),
    {
        let mut rng = thread_rng();
        let shape = Shape::from_index(gen_range_inclusive(&mut rng, 0, 6));
        let rotations = shape.get_possible_rotations();
        let current_rotation = choose_rotation(&rotations, &mut rng).unwrap();
        Tetromino::spawn(grid, shape, current_rotation)
    }

    /// Moves the piece by one column, if the board allows it.
    pub fn move_sideways(&mut self, direction: Direction) -> (result: Result<(), MoveError>)
        requires
            old(self).wf(),
            above_floor(old(self).current_rotation, old(self).topleft.y as int),
        ensures
            result == old(self).sideways(direction),
            *final(self) == old(self).after_sideways(direction),
            final(self).wf(),
            result is Ok ==> final(self).on_board(),
    {
        let step = direction.step();
        let result = self.check_placement(
            self.current_rotation,
            self.topleft.y as i64,
            self.topleft.x as i64 + step as i64,
        );
        if result.is_ok() {
            proof {
                self.shape.lemma_some_cell(self.current_rotation);
            }
            self.topleft.x += step;
        }
        result
    }

    /// Moves the piece down by one row, if the board allows it.
    pub fn move_down(&mut self) -> (result: Result<(), MoveError>)
        requires
            old(self).wf(),
            within_walls(old(self).current_rotation, old(self).topleft.x as int),
        ensures
            result == old(self).down(),
            *final(self) == old(self).after_down(),
            final(self).wf(),
            result is Ok ==> final(self).on_board(),
    {
        let result = self.check_placement(
            self.current_rotation,
            self.topleft.y as i64 + 1,
            self.topleft.x as i64,
        );
        if result.is_ok() {
            proof {
                self.shape.lemma_some_cell(self.current_rotation);
            }
            self.topleft.y += 1;
        }
        result
    }

    /// Moves the piece down until the board allows no further row.
    pub fn move_all_the_way_down(&mut self)
        requires
            old(self).wf(),
            within_walls(old(self).current_rotation, old(self).topleft.x as int),
        ensures
            final(self).topleft.y >= old(self).topleft.y,
            *final(self) == old(self).at(final(self).topleft.y as int, old(self).topleft.x as int),
            final(self).down() is Err,
            forall|y: int|
                old(self).topleft.y <= y < final(self).topleft.y ==> (#[trigger] old(self).at(
                    y,
                    old(self).topleft.x as int,
                )).down() is Ok,
            final(self).wf(),
            old(self).on_board() ==> final(self).on_board(),
    {
        loop
            invariant_except_break
                self.wf(),
                old(self).on_board() ==> self.on_board(),
                within_walls(self.current_rotation, self.topleft.x as int),
                self.topleft.y >= old(self).topleft.y,
                *self == old(self).at(self.topleft.y as int, old(self).topleft.x as int),
                forall|y: int|
                    old(self).topleft.y <= y < self.topleft.y ==> (#[trigger] old(self).at(
                        y,
                        old(self).topleft.x as int,
                    )).down() is Ok,
            ensures
                self.wf(),
                old(self).on_board() ==> self.on_board(),
                self.topleft.y >= old(self).topleft.y,
                *self == old(self).at(self.topleft.y as int, old(self).topleft.x as int),
                self.down() is Err,
                forall|y: int|
                    old(self).topleft.y <= y < self.topleft.y ==> (#[trigger] old(self).at(
                        y,
                        old(self).topleft.x as int,
                    )).down() is Ok,
            decreases PLAYGROUND_HEIGHT - self.topleft.y,
        {
            match self.move_down() {
                Ok(()) => {
                    proof {
                        self.shape.lemma_some_cell(self.current_rotation);
                    }
                },
                Err(_) => {
                    break ;
                },
            }
        }
    }

    /// Turns the piece to the neighbouring rotation of its kind's list, if
    /// the board allows it. No other place is tried for the turned piece.
    pub fn rotate(&mut self, direction: Direction) -> (result: Result<(), MoveError>)
        requires
            old(self).wf(),
        ensures
            result == old(self).turn(direction),
            *final(self) == old(self).after_turn(direction),
            final(self).wf(),
            result is Ok ==> final(self).on_board(),
    {
        let rotations = self.shape.get_possible_rotations();
        let mut current_index: usize = 0;
        while current_index < rotations.len() && rotations[current_index] != self.current_rotation
            invariant
                current_index <= rotations.len(),
                rotations@ == self.shape.rotations(),
                rotations@.contains(self.current_rotation),
                forall|k: int| 0 <= k < current_index ==> rotations[k] != self.current_rotation,
            decreases rotations.len() - current_index,
        {
            current_index += 1;
        }
        let next_index = i32::checked_rem_euclid(
            current_index as i32 + direction.step(),
            rotations.len() as i32,
        );
        let potential_rotation = rotations[next_index.unwrap() as usize];
        let result = self.check_placement(
            potential_rotation,
            self.topleft.y as i64,
            self.topleft.x as i64,
        );
        if result.is_ok() {
            self.current_rotation = potential_rotation;
        }
        result
    }
}

} // verus!
