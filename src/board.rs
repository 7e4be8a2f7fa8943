use vstd::prelude::*;
use crate::piece::{Colour, Piece, Tile, Type};

verus! {

/// An 8x8 chess board. Row 0 is Black's back rank, row 7 White's; the king
/// positions are kept beside the grid as (row, column).
#[derive(Clone, Copy)]
pub struct Board {
    pub tiles: [[Tile; 8]; 8],
    pub kingpos_w: (usize, usize),
    pub kingpos_b: (usize, usize),
}

/// The shade of square (row, col): Black when row + col is even.
pub open spec fn shade(row: int, col: int) -> Colour {
    if (row + col) % 2 == 0 {
        Colour::Black
    } else {
        Colour::White
    }
}

/// The kind that starts on column `col` of a back rank.
pub open spec fn back_rank_kind(col: int) -> Type {
    if col == 0 || col == 7 {
        Type::Rook(false)
    } else if col == 1 || col == 6 {
        Type::Knight
    } else if col == 2 || col == 5 {
        Type::Bishop
    } else if col == 3 {
        Type::Queen
    } else {
        Type::King(false)
    }
}

/// The content of an empty square.
pub open spec fn no_piece() -> Piece {
    Piece { piece_type: Type::Empty, colour: Colour::White }
}

/// What stands on square (row, col) in the starting position.
pub open spec fn start_piece(row: int, col: int) -> Piece {
    if row == 0 {
        Piece { piece_type: back_rank_kind(col), colour: Colour::Black }
    } else if row == 1 {
        Piece { piece_type: Type::Pawn(false), colour: Colour::Black }
    } else if row == 6 {
        Piece { piece_type: Type::Pawn(false), colour: Colour::White }
    } else if row == 7 {
        Piece { piece_type: back_rank_kind(col), colour: Colour::White }
    } else {
        no_piece()
    }
}

/// Square (row, col) of the starting position.
pub open spec fn start_tile(row: int, col: int) -> Tile {
    Tile { piece: start_piece(row, col), colour: shade(row, col) }
}

/// Whether (row, col) lies on the board.
pub open spec fn on_board(pos: (usize, usize)) -> bool {
    pos.0 < 8 && pos.1 < 8
}

impl Board {
    /// The tile at (row, col).
    pub open spec fn tile(self, row: int, col: int) -> Tile {
        self.tiles[row][col]
    }

    /// Every square has the shade that its position gives it.
    pub open spec fn shaded(self) -> bool {
        forall|r: int, c: int| 0 <= r < 8 && 0 <= c < 8 ==> #[trigger] self.tile(r, c).colour == shade(r, c)
    }

    /// The recorded king positions are on the board and hold the kings.
    pub open spec fn kings_recorded(self) -> bool {
        &&& on_board(self.kingpos_w)
        &&& on_board(self.kingpos_b)
        &&& self.tile(self.kingpos_w.0 as int, self.kingpos_w.1 as int).piece
            == Piece { piece_type: Type::King(false), colour: Colour::White }
            || self.tile(self.kingpos_w.0 as int, self.kingpos_w.1 as int).piece
            == Piece { piece_type: Type::King(true), colour: Colour::White }
        &&& self.tile(self.kingpos_b.0 as int, self.kingpos_b.1 as int).piece
            == Piece { piece_type: Type::King(false), colour: Colour::Black }
            || self.tile(self.kingpos_b.0 as int, self.kingpos_b.1 as int).piece
            == Piece { piece_type: Type::King(true), colour: Colour::Black }
    }

    /// The board is well formed: shades follow parity and the kings are where
    /// the board records them.
    pub open spec fn wf(self) -> bool {
        self.shaded() && self.kings_recorded()
    }

    /// The board is the standard starting position.
    pub open spec fn is_starting(self) -> bool {
        &&& forall|r: int, c: int| 0 <= r < 8 && 0 <= c < 8 ==> #[trigger] self.tile(r, c) == start_tile(r, c)
        &&& self.kingpos_w == (7usize, 4usize)
        &&& self.kingpos_b == (0usize, 4usize)
    }

    /// A board in the standard starting position.
    pub fn new() -> (b: Board)
        ensures
            b.is_starting(),
            b.wf(),
            b.kingpos_w == (7usize, 4usize),
            b.kingpos_b == (0usize, 4usize),
    {
        let blank = Tile { piece: Piece { piece_type: Type::Empty, colour: Colour::White }, colour: Colour::White };
        let mut tiles: [[Tile; 8]; 8] = [[blank; 8]; 8];
        let mut row: usize = 0;
        while row < 8
            invariant
                row <= 8,
                forall|r: int, c: int| 0 <= r < row && 0 <= c < 8 ==> #[trigger] tiles[r][c] == start_tile(r, c),
            decreases 8 - row,
        {
            let mut line: [Tile; 8] = [blank; 8];
            let mut col: usize = 0;
            while col < 8
                invariant
                    row < 8,
                    col <= 8,
                    forall|c: int| 0 <= c < col ==> #[trigger] line[c] == start_tile(row as int, c),
                decreases 8 - col,
            {
                line[col] = initial_tile(row, col);
                col += 1;
            }
            tiles[row] = line;
            row += 1;
        }
        let b = Board { tiles, kingpos_w: (7, 4), kingpos_b: (0, 4) };
        assert(b.tile(7, 4) == start_tile(7, 4));
        assert(b.tile(0, 4) == start_tile(0, 4));
        assert forall|r: int, c: int| 0 <= r < 8 && 0 <= c < 8 implies #[trigger] b.tile(r, c).colour == shade(r, c) by {
            assert(b.tile(r, c) == start_tile(r, c));
        }
        b
    }
}

/// The kind that starts on column `col` of a back rank.
fn back_rank_type(col: usize) -> (t: Type)
    requires
        col < 8,
    ensures
        t == back_rank_kind(col as int),
{
    if col == 0 || col == 7 {
        Type::Rook(false)
    } else if col == 1 || col == 6 {
        Type::Knight
    } else if col == 2 || col == 5 {
        Type::Bishop
    } else if col == 3 {
        Type::Queen
    } else {
        Type::King(false)
    }
}

/// Square (row, col) of the starting position.
fn initial_tile(row: usize, col: usize) -> (t: Tile)
    requires
        row < 8,
        col < 8,
    ensures
        t == start_tile(row as int, col as int),
{
    let colour = if (row + col) % 2 == 0 { Colour::Black } else { Colour::White };
    let piece = if row == 0 {
        Piece { piece_type: back_rank_type(col), colour: Colour::Black }
    } else if row == 1 {
        Piece { piece_type: Type::Pawn(false), colour: Colour::Black }
    } else if row == 6 {
        Piece { piece_type: Type::Pawn(false), colour: Colour::White }
    } else if row == 7 {
        Piece { piece_type: back_rank_type(col), colour: Colour::White }
    } else {
        Piece { piece_type: Type::Empty, colour: Colour::White }
    };
    Tile { piece, colour }
}

/// 1 when `x` holds, else 0.
pub open spec fn one_if(x: bool) -> nat {
    if x { 1 } else { 0 }
}

/// How many of the first `n` squares of `row` hold a piece that satisfies `f`.
pub open spec fn count_in_row(b: Board, row: int, f: spec_fn(Piece) -> bool, n: int) -> nat
    decreases n,
{
    if n <= 0 {
        0
    } else {
        count_in_row(b, row, f, n - 1) + one_if(f(b.tile(row, n - 1).piece))
    }
}

/// How many squares of the first `n` rows hold a piece that satisfies `f`.
pub open spec fn count_in_rows(b: Board, f: spec_fn(Piece) -> bool, n: int) -> nat
    decreases n,
{
    if n <= 0 {
        0
    } else {
        count_in_rows(b, f, n - 1) + count_in_row(b, n - 1, f, 8)
    }
}

/// How many squares of the board hold a piece that satisfies `f`.
pub open spec fn count_pieces(b: Board, f: spec_fn(Piece) -> bool) -> nat {
    count_in_rows(b, f, 8)
}

/// How many squares of the board hold exactly `p`.
pub open spec fn census(b: Board, p: Piece) -> nat {
    count_pieces(b, |q: Piece| q == p)
}

/// How many copies of `p` a side starts a game with.
pub open spec fn standard_count(p: Piece) -> nat {
    match p.piece_type {
        Type::Pawn(moved) => if moved { 0 } else { 8 },
        Type::Rook(moved) => if moved { 0 } else { 2 },
        Type::Knight => 2,
        Type::Bishop => 2,
        Type::Queen => 1,
        Type::King(moved) => if moved { 0 } else { 1 },
        Type::Empty => 0,
    }
}

/// How many pieces of a back rank of side `c` satisfy `f`.
pub open spec fn back_rank_count(c: Colour, f: spec_fn(Piece) -> bool) -> nat {
    one_if(f(Piece { piece_type: Type::Rook(false), colour: c })) * 2
        + one_if(f(Piece { piece_type: Type::Knight, colour: c })) * 2
        + one_if(f(Piece { piece_type: Type::Bishop, colour: c })) * 2
        + one_if(f(Piece { piece_type: Type::Queen, colour: c }))
        + one_if(f(Piece { piece_type: Type::King(false), colour: c }))
}

/// On the starting position, a count splits into the two back ranks, the two
/// pawn ranks and the 32 empty squares.
proof fn lemma_starting_count(b: Board, f: spec_fn(Piece) -> bool)
    requires
        b.is_starting(),
    ensures
        count_pieces(b, f) == back_rank_count(Colour::Black, f)
            + 8 * one_if(f(Piece { piece_type: Type::Pawn(false), colour: Colour::Black }))
            + 32 * one_if(f(no_piece()))
            + 8 * one_if(f(Piece { piece_type: Type::Pawn(false), colour: Colour::White }))
            + back_rank_count(Colour::White, f),
{
    reveal_with_fuel(count_in_row, 9);
    reveal_with_fuel(count_in_rows, 9);
    assert forall|r: int, c: int| 0 <= r < 8 && 0 <= c < 8 implies #[trigger] b.tile(r, c).piece == start_piece(r, c) by {
        assert(b.tile(r, c) == start_tile(r, c));
    }
    assert(count_in_row(b, 0, f, 8) == back_rank_count(Colour::Black, f));
    assert(count_in_row(b, 7, f, 8) == back_rank_count(Colour::White, f));
}

/// The starting position shades a square Black exactly when its row and
/// column add up to an even number.
pub proof fn lemma_starting_shades(b: Board)
    requires
        b.is_starting(),
    ensures
        forall|r: int, c: int| 0 <= r < 8 && 0 <= c < 8 ==>
            (#[trigger] b.tile(r, c).colour == Colour::Black <==> (r + c) % 2 == 0),
{
    assert forall|r: int, c: int| 0 <= r < 8 && 0 <= c < 8 implies
        (#[trigger] b.tile(r, c).colour == Colour::Black <==> (r + c) % 2 == 0) by {
        assert(b.tile(r, c) == start_tile(r, c));
    }
}

/// The starting position holds 16 pawns (8 of each side), 4 rooks, 4
/// knights, 4 bishops, 2 queens and 2 kings, none of them moved, and 32
/// empty squares.
pub proof fn lemma_starting_counts(b: Board)
    requires
        b.is_starting(),
    ensures
        count_pieces(b, |q: Piece| q.piece_type is Pawn) == 16,
        census(b, Piece { piece_type: Type::Pawn(false), colour: Colour::White }) == 8,
        census(b, Piece { piece_type: Type::Pawn(false), colour: Colour::Black }) == 8,
        count_pieces(b, |q: Piece| q.piece_type is Rook) == 4,
        count_pieces(b, |q: Piece| q.piece_type is Knight) == 4,
        count_pieces(b, |q: Piece| q.piece_type is Bishop) == 4,
        count_pieces(b, |q: Piece| q.piece_type is Queen) == 2,
        count_pieces(b, |q: Piece| q.piece_type is King) == 2,
        count_pieces(b, |q: Piece| q.piece_type is Empty) == 32,
        count_pieces(
            b,
            |q: Piece|
                q.piece_type == Type::Pawn(true) || q.piece_type == Type::Rook(true) || q.piece_type
                    == Type::King(true),
        ) == 0,
{
    lemma_starting_count(b, |q: Piece| q.piece_type is Pawn);
    lemma_starting_inventory(b);
    assert(census(b, Piece { piece_type: Type::Pawn(false), colour: Colour::White }) == 8);
    assert(census(b, Piece { piece_type: Type::Pawn(false), colour: Colour::Black }) == 8);
    lemma_starting_count(b, |q: Piece| q.piece_type is Rook);
    lemma_starting_count(b, |q: Piece| q.piece_type is Knight);
    lemma_starting_count(b, |q: Piece| q.piece_type is Bishop);
    lemma_starting_count(b, |q: Piece| q.piece_type is Queen);
    lemma_starting_count(b, |q: Piece| q.piece_type is King);
    lemma_starting_count(b, |q: Piece| q.piece_type is Empty);
    lemma_starting_count(
        b,
        |q: Piece|
            q.piece_type == Type::Pawn(true) || q.piece_type == Type::Rook(true) || q.piece_type
                == Type::King(true),
    );
}

/// The pieces of the starting position, taken without their squares, are
/// the standard set: every piece occurs exactly as often as a side starts
/// with it, no more and no less.
pub proof fn lemma_starting_inventory(b: Board)
    requires
        b.is_starting(),
    ensures
        forall|p: Piece| !(p.piece_type is Empty) ==> #[trigger] census(b, p) == standard_count(p),
{
    assert forall|p: Piece| !(p.piece_type is Empty) implies #[trigger] census(b, p) == standard_count(p) by {
        lemma_starting_count(b, |q: Piece| q == p);
    }
}

} // verus!
