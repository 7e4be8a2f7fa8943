use vstd::prelude::*;

verus! {

/// The two sides, also used for the shade of a square.
#[derive(Copy, Clone, PartialEq, Eq, Structural, Debug, Hash)]
pub enum Colour {
    White,
    Black,
}

/// The kind of a piece. The flags of `Pawn`, `Rook` and `King` record whether
/// the piece has moved at least once.
#[derive(Copy, Clone, PartialEq, Eq, Structural, Debug, Hash)]
pub enum Type {
    Empty,
    Pawn(bool),
    Rook(bool),
    Knight,
    Bishop,
    Queen,
    King(bool),
}

/// What stands on a square. On an empty square `colour` is a placeholder.
#[derive(Copy, Clone, PartialEq, Eq, Structural, Debug, Hash)]
pub struct Piece {
    pub piece_type: Type,
    pub colour: Colour,
}

/// A square of the board: its occupant and its fixed background shade.
#[derive(Copy, Clone, PartialEq, Eq, Structural, Debug, Hash)]
pub struct Tile {
    pub piece: Piece,
    pub colour: Colour,
}

/// The errors that move handling built on this board reports.
#[derive(Copy, Clone, PartialEq, Eq, Structural, Debug, Hash)]
pub enum Error {
    Length,
    Empty,
    IllegalMove,
    OutOfBounds,
    EnemyMove,
    TeamDmg,
    Check,
}

/// The canonical name of a kind, whatever its moved flag.
pub open spec fn kind_name(t: Type) -> Seq<char> {
    match t {
        Type::Empty => "Empty"@,
        Type::Pawn(_) => "Pawn"@,
        Type::Rook(_) => "Rook"@,
        Type::Knight => "Knight"@,
        Type::Bishop => "Bishop"@,
        Type::Queen => "Queen"@,
        Type::King(_) => "King"@,
    }
}

/// The name of a side.
pub open spec fn colour_name(c: Colour) -> Seq<char> {
    match c {
        Colour::White => "White"@,
        Colour::Black => "Black"@,
    }
}

impl Type {
    /// The name of this kind: "Empty", "Pawn", "Rook", "Knight", "Bishop",
    /// "Queen" or "King".
    pub fn ttos(&self) -> (r: String)
        ensures
            r@ == kind_name(*self),
    {
        match self {
            Type::Empty => String::from_str("Empty"),
            Type::Pawn(_) => String::from_str("Pawn"),
            Type::Rook(_) => String::from_str("Rook"),
            Type::Knight => String::from_str("Knight"),
            Type::Bishop => String::from_str("Bishop"),
            Type::Queen => String::from_str("Queen"),
            Type::King(_) => String::from_str("King"),
        }
    }
}

impl Colour {
    /// The name of this side: "White" or "Black".
    pub fn ctos(&self) -> (r: String)
        ensures
            r@ == colour_name(*self),
    {
        match self {
            Colour::White => String::from_str("White"),
            Colour::Black => String::from_str("Black"),
        }
    }
}

} // verus!
