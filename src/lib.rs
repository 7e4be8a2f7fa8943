//! A chess board model: pieces, squares, the standard starting position, and
//! a terminal rendering of the board from either side.

pub mod ansi;
pub mod board;
pub mod piece;
pub mod render;

pub use ansi::Ink;
pub use board::Board;
pub use piece::{Colour, Error, Piece, Tile, Type};
pub use render::Cell;
