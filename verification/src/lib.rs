//! Rules engine of a falling-block puzzle game: the board, the seven piece
//! kinds and their rotations, the falling piece with its moves and turns,
//! and the game that lands pieces, clears full rows, keeps the score and
//! signals when no further play is possible.

pub mod game;
pub mod grid;
mod random;
pub mod shape;
pub mod tetromino;

pub use game::{Fall, Game, GameOver};
pub use grid::{Block, Color, Grid, Row, PLAYGROUND_HEIGHT, PLAYGROUND_WIDTH};
pub use shape::{Rotation, Shape, ShapeVec};
pub use tetromino::{Coord, Direction, MoveError, Tetromino};
