use vstd::prelude::*;
use crate::ansi::{Ink, digit_char, paint, painted};
use crate::board::Board;
use crate::piece::{Colour, Piece, Tile, Type};

verus! {

/// How one square is drawn: a glyph, its ink, and whether it is bold.
#[derive(Copy, Clone, PartialEq, Eq, Structural, Debug, Hash)]
pub struct Cell {
    pub glyph: char,
    pub ink: Ink,
    pub bold: bool,
}

/// The ink of the grid lines.
pub open spec fn frame_ink() -> Ink {
    Ink::Rgb(80, 80, 80)
}

/// The ink that stands for a side (of a piece, or of an empty square's shade).
pub open spec fn side_ink(c: Colour) -> Ink {
    match c {
        Colour::Black => Ink::Red,
        Colour::White => Ink::White,
    }
}

/// The glyph of an occupied square: outlined for Black, filled for White.
pub open spec fn glyph_of(p: Piece) -> char {
    match (p.piece_type, p.colour) {
        (Type::Pawn(_), Colour::Black) => '\u{2659}',
        (Type::Rook(_), Colour::Black) => '\u{2656}',
        (Type::Knight, Colour::Black) => '\u{2658}',
        (Type::Bishop, Colour::Black) => '\u{2657}',
        (Type::Queen, Colour::Black) => '\u{2655}',
        (Type::King(_), Colour::Black) => '\u{2654}',
        (Type::Pawn(_), Colour::White) => '\u{265f}',
        (Type::Rook(_), Colour::White) => '\u{265c}',
        (Type::Knight, Colour::White) => '\u{265e}',
        (Type::Bishop, Colour::White) => '\u{265d}',
        (Type::Queen, Colour::White) => '\u{265b}',
        (Type::King(_), Colour::White) => '\u{265a}',
        (Type::Empty, _) => '\u{b7}',
    }
}

/// How an empty square of the given shade is drawn: a plain dot in the
/// shade's ink.
pub open spec fn empty_cell(shade: Colour) -> Cell {
    Cell { glyph: '\u{b7}', ink: side_ink(shade), bold: false }
}

/// How a tile is drawn. An empty square shows a dot in the ink of its own
/// shade; a piece shows its glyph, bold, in the ink of its side.
pub open spec fn cell_of(t: Tile) -> Cell {
    if t.piece.piece_type is Empty {
        empty_cell(t.colour)
    } else {
        Cell { glyph: glyph_of(t.piece), ink: side_ink(t.piece.colour), bold: true }
    }
}

/// The storage row drawn as the `k`-th row from the top.
pub open spec fn row_at(is_white: bool, k: int) -> int {
    if is_white { k } else { 7 - k }
}

/// The storage column drawn as the `j`-th column from the left.
pub open spec fn col_at(is_white: bool, j: int) -> int {
    if is_white { j } else { 7 - j }
}

/// The file letter of storage column `col`: 'a' for column 0 up to 'h'.
pub open spec fn file_char(col: int) -> char {
    if col == 0 { 'a' }
    else if col == 1 { 'b' }
    else if col == 2 { 'c' }
    else if col == 3 { 'd' }
    else if col == 4 { 'e' }
    else if col == 5 { 'f' }
    else if col == 6 { 'g' }
    else { 'h' }
}

/// The rank digit of storage row `row`: '8' for row 0 down to '1' for row 7.
pub open spec fn rank_char(row: int) -> char {
    digit_char((8 - row) as nat)
}

/// The square drawn at position `i` (row-major from the top left), with how it is drawn.
pub open spec fn layout_entry(b: Board, is_white: bool, i: int) -> (usize, usize, Cell) {
    let r = row_at(is_white, i / 8);
    let c = col_at(is_white, i % 8);
    (r as usize, c as usize, cell_of(b.tile(r, c)))
}

/// The 64 squares in the order they are drawn, with how each is drawn.
pub open spec fn layout_of(b: Board, is_white: bool) -> Seq<(usize, usize, Cell)> {
    Seq::new(64, |i: int| layout_entry(b, is_white, i))
}

/// The first `n` file labels of the header, each after three spaces.
pub open spec fn header_labels(is_white: bool, n: int) -> Seq<char>
    decreases n,
{
    if n <= 0 {
        Seq::empty()
    } else {
        header_labels(is_white, n - 1) + "   "@ + seq![file_char(col_at(is_white, n - 1))]
    }
}

/// The line of file letters above and below the grid.
pub open spec fn header_text(is_white: bool) -> Seq<char> {
    "   "@ + header_labels(is_white, 8) + "\n"@
}

/// The horizontal rule between rows.
pub open spec fn rule_text() -> Seq<char> {
    "    +---+---+---+---+---+---+---+---+"@
}

/// One drawn square: a bar, the cell's glyph, a space.
pub open spec fn square_text(b: Board, is_white: bool, k: int, j: int) -> Seq<char> {
    let cell = cell_of(b.tile(row_at(is_white, k), col_at(is_white, j)));
    painted(frame_ink(), false, "| "@) + painted(cell.ink, cell.bold, seq![cell.glyph])
        + painted(frame_ink(), false, " "@)
}

/// The first `n` drawn squares of the `k`-th drawn row.
pub open spec fn squares_text(b: Board, is_white: bool, k: int, n: int) -> Seq<char>
    decreases n,
{
    if n <= 0 {
        Seq::empty()
    } else {
        squares_text(b, is_white, k, n - 1) + square_text(b, is_white, k, n - 1)
    }
}

/// The `k`-th drawn row: the rule above it, its rank digit, its squares and
/// the closing bar.
pub open spec fn row_text(b: Board, is_white: bool, k: int) -> Seq<char> {
    painted(frame_ink(), false, rule_text()) + "\n "@ + seq![rank_char(row_at(is_white, k))] + "  "@
        + squares_text(b, is_white, k, 8) + painted(frame_ink(), false, "|"@) + "\n"@
}

/// The first `n` drawn rows.
pub open spec fn rows_text(b: Board, is_white: bool, n: int) -> Seq<char>
    decreases n,
{
    if n <= 0 {
        Seq::empty()
    } else {
        rows_text(b, is_white, n - 1) + row_text(b, is_white, n - 1)
    }
}

/// The whole drawing: header, the eight rows, the closing rule, header.
pub open spec fn board_text(b: Board, is_white: bool) -> Seq<char> {
    header_text(is_white) + rows_text(b, is_white, 8) + painted(frame_ink(), false, rule_text())
        + "\n"@ + header_text(is_white)
}

impl Tile {
    /// How this tile is drawn.
    pub fn cell(&self) -> (r: Cell)
        ensures
            r == cell_of(*self),
    {
        match self.piece.piece_type {
            Type::Empty => Cell { glyph: '\u{b7}', ink: ink_of(self.colour), bold: false },
            _ => Cell { glyph: piece_glyph(&self.piece), ink: ink_of(self.piece.colour), bold: true },
        }
    }
}

/// The ink of a side.
fn ink_of(c: Colour) -> (r: Ink)
    ensures
        r == side_ink(c),
{
    match c {
        Colour::Black => Ink::Red,
        Colour::White => Ink::White,
    }
}

/// The glyph of a piece.
fn piece_glyph(p: &Piece) -> (r: char)
    ensures
        r == glyph_of(*p),
{
    match (p.piece_type, p.colour) {
        (Type::Pawn(_), Colour::Black) => '\u{2659}',
        (Type::Rook(_), Colour::Black) => '\u{2656}',
        (Type::Knight, Colour::Black) => '\u{2658}',
        (Type::Bishop, Colour::Black) => '\u{2657}',
        (Type::Queen, Colour::Black) => '\u{2655}',
        (Type::King(_), Colour::Black) => '\u{2654}',
        (Type::Pawn(_), Colour::White) => '\u{265f}',
        (Type::Rook(_), Colour::White) => '\u{265c}',
        (Type::Knight, Colour::White) => '\u{265e}',
        (Type::Bishop, Colour::White) => '\u{265d}',
        (Type::Queen, Colour::White) => '\u{265b}',
        (Type::King(_), Colour::White) => '\u{265a}',
        (Type::Empty, _) => '\u{b7}',
    }
}

/// Whether `c` is one of the glyphs a cell can show.
pub open spec fn is_drawn_glyph(c: char) -> bool {
    c == '\u{b7}'
    || c == '\u{2659}'
    || c == '\u{2656}'
    || c == '\u{2658}'
    || c == '\u{2657}'
    || c == '\u{2655}'
    || c == '\u{2654}'
    || c == '\u{265f}'
    || c == '\u{265c}'
    || c == '\u{265e}'
    || c == '\u{265d}'
    || c == '\u{265b}'
    || c == '\u{265a}'
}

/// The glyph of a cell as text.
fn glyph_str(glyph: char) -> (r: &'static str)
    requires
        is_drawn_glyph(glyph),
    ensures
        r@ == seq![glyph],
{
    match glyph {
        '\u{b7}' => {
            proof {
                reveal_strlit("\u{b7}");
            }
            "\u{b7}"
        },
        '\u{2659}' => {
            proof {
                reveal_strlit("\u{2659}");
            }
            "\u{2659}"
        },
        '\u{2656}' => {
            proof {
                reveal_strlit("\u{2656}");
            }
            "\u{2656}"
        },
        '\u{2658}' => {
            proof {
                reveal_strlit("\u{2658}");
            }
            "\u{2658}"
        },
        '\u{2657}' => {
            proof {
                reveal_strlit("\u{2657}");
            }
            "\u{2657}"
        },
        '\u{2655}' => {
            proof {
                reveal_strlit("\u{2655}");
            }
            "\u{2655}"
        },
        '\u{2654}' => {
            proof {
                reveal_strlit("\u{2654}");
            }
            "\u{2654}"
        },
        '\u{265f}' => {
            proof {
                reveal_strlit("\u{265f}");
            }
            "\u{265f}"
        },
        '\u{265c}' => {
            proof {
                reveal_strlit("\u{265c}");
            }
            "\u{265c}"
        },
        '\u{265e}' => {
            proof {
                reveal_strlit("\u{265e}");
            }
            "\u{265e}"
        },
        '\u{265d}' => {
            proof {
                reveal_strlit("\u{265d}");
            }
            "\u{265d}"
        },
        '\u{265b}' => {
            proof {
                reveal_strlit("\u{265b}");
            }
            "\u{265b}"
        },
        _ => {
            proof {
                reveal_strlit("\u{265a}");
            }
            "\u{265a}"
        },
    }
}

/// The file letter of storage column `col` as text.
fn file_str(col: usize) -> (r: &'static str)
    requires
        col < 8,
    ensures
        r@ == seq![file_char(col as int)],
{
    match col {
        0 => {
            proof {
                reveal_strlit("a");
            }
            "a"
        },
        1 => {
            proof {
                reveal_strlit("b");
            }
            "b"
        },
        2 => {
            proof {
                reveal_strlit("c");
            }
            "c"
        },
        3 => {
            proof {
                reveal_strlit("d");
            }
            "d"
        },
        4 => {
            proof {
                reveal_strlit("e");
            }
            "e"
        },
        5 => {
            proof {
                reveal_strlit("f");
            }
            "f"
        },
        6 => {
            proof {
                reveal_strlit("g");
            }
            "g"
        },
        _ => {
            proof {
                reveal_strlit("h");
            }
            "h"
        },
    }
}

/// The rank digit of storage row `row` as text.
fn rank_str(row: usize) -> (r: &'static str)
    requires
        row < 8,
    ensures
        r@ == seq![rank_char(row as int)],
{
    match row {
        0 => {
            proof {
                reveal_strlit("8");
            }
            "8"
        },
        1 => {
            proof {
                reveal_strlit("7");
            }
            "7"
        },
        2 => {
            proof {
                reveal_strlit("6");
            }
            "6"
        },
        3 => {
            proof {
                reveal_strlit("5");
            }
            "5"
        },
        4 => {
            proof {
                reveal_strlit("4");
            }
            "4"
        },
        5 => {
            proof {
                reveal_strlit("3");
            }
            "3"
        },
        6 => {
            proof {
                reveal_strlit("2");
            }
            "2"
        },
        _ => {
            proof {
                reveal_strlit("1");
            }
            "1"
        },
    }
}

/// The ink of the grid lines.
fn frame() -> (r: Ink)
    ensures
        r == frame_ink(),
{
    Ink::Rgb(80, 80, 80)
}

/// The storage index drawn at position `k` along an axis.
fn along(is_white: bool, k: usize) -> (r: usize)
    requires
        k < 8,
    ensures
        r as int == row_at(is_white, k as int),
        r as int == col_at(is_white, k as int),
{
    if is_white { k } else { 7 - k }
}

/// The line of file letters.
fn header_line(is_white: bool) -> (r: String)
    ensures
        r@ == header_text(is_white),
{
    let mut s = String::from_str("   ");
    let mut j: usize = 0;
    while j < 8
        invariant
            j <= 8,
            s@ == "   "@ + header_labels(is_white, j as int),
        decreases 8 - j,
    {
        s.append("   ");
        s.append(file_str(along(is_white, j)));
        assert(header_labels(is_white, j + 1) == header_labels(is_white, j as int) + "   "@ + seq![
            file_char(col_at(is_white, j as int)),
        ]);
        assert(s@ =~= "   "@ + header_labels(is_white, j + 1));
        j += 1;
    }
    s.append("\n");
    s
}

impl Board {
    /// The `k`-th drawn row, with the rule above it.
    fn row_line(&self, is_white: bool, k: usize) -> (r: String)
        requires
            k < 8,
        ensures
            r@ == row_text(*self, is_white, k as int),
    {
        let row = along(is_white, k);
        let mut s = paint(frame(), false, "    +---+---+---+---+---+---+---+---+");
        s.append("\n ");
        s.append(rank_str(row));
        s.append("  ");
        let ghost prefix = s@;
        let mut j: usize = 0;
        while j < 8
            invariant
                j <= 8,
                k < 8,
                row as int == row_at(is_white, k as int),
                s@ == prefix + squares_text(*self, is_white, k as int, j as int),
            decreases 8 - j,
        {
            let col = along(is_white, j);
            let tile = &self.tiles[row][col];
            let cell = tile.cell();
            let bar = paint(frame(), false, "| ");
            let glyph = paint(cell.ink, cell.bold, glyph_str(cell.glyph));
            let gap = paint(frame(), false, " ");
            s.append(bar.as_str());
            s.append(glyph.as_str());
            s.append(gap.as_str());
            assert(s@ =~= prefix + squares_text(*self, is_white, k as int, j + 1));
            j += 1;
        }
        let close = paint(frame(), false, "|");
        s.append(close.as_str());
        s.append("\n");
        assert(s@ =~= row_text(*self, is_white, k as int));
        s
    }

    /// The board drawn for a terminal, from White's side when `is_white`
    /// (row 0 at the top, files a to h) and from Black's side otherwise (row 7
    /// at the top, files h to a). Grid lines are grey; pieces are bold, in
    /// their side's ink; empty squares show a dot in the ink of their shade.
    pub fn render(&self, is_white: bool) -> (r: String)
        ensures
            r@ == board_text(*self, is_white),
    {
        let header = header_line(is_white);
        let mut s = String::from_str(header.as_str());
        let mut k: usize = 0;
        while k < 8
            invariant
                k <= 8,
                s@ == header_text(is_white) + rows_text(*self, is_white, k as int),
            decreases 8 - k,
        {
            let line = self.row_line(is_white, k);
            s.append(line.as_str());
            assert(s@ =~= header_text(is_white) + rows_text(*self, is_white, k + 1));
            k += 1;
        }
        let rule = paint(frame(), false, "    +---+---+---+---+---+---+---+---+");
        s.append(rule.as_str());
        s.append("\n");
        s.append(header.as_str());
        assert(s@ =~= board_text(*self, is_white));
        s
    }
}

/// Position `8 * k + j` of a row-major walk is column `j` of row `k`.
proof fn lemma_row_major(k: int, j: int)
    requires
        0 <= k,
        0 <= j < 8,
    ensures
        (8 * k + j) / 8 == k,
        (8 * k + j) % 8 == j,
{
    assert((8 * k + j) / 8 == k && (8 * k + j) % 8 == j) by (nonlinear_arith)
        requires
            0 <= k,
            0 <= j < 8,
    ;
}

impl Board {
    /// The 64 squares in the order they are drawn from the given side, each as
    /// its storage (row, column) and how it is drawn.
    pub fn layout(&self, is_white: bool) -> (r: Vec<(usize, usize, Cell)>)
        ensures
            r@ == layout_of(*self, is_white),
    {
        let mut v: Vec<(usize, usize, Cell)> = Vec::new();
        let mut k: usize = 0;
        while k < 8
            invariant
                k <= 8,
                v@.len() == 8 * k,
                forall|i: int| 0 <= i < v@.len() ==> #[trigger] v@[i] == layout_entry(*self, is_white, i),
            decreases 8 - k,
        {
            let row = along(is_white, k);
            let mut j: usize = 0;
            while j < 8
                invariant
                    k < 8,
                    j <= 8,
                    row as int == row_at(is_white, k as int),
                    v@.len() == 8 * k + j,
                    forall|i: int| 0 <= i < v@.len() ==> #[trigger] v@[i] == layout_entry(*self, is_white, i),
                decreases 8 - j,
            {
                let col = along(is_white, j);
                let cell = self.tiles[row][col].cell();
                proof {
                    lemma_row_major(k as int, j as int);
                }
                v.push((row, col, cell));
                j += 1;
            }
            k += 1;
        }
        assert(v@ =~= layout_of(*self, is_white));
        v
    }
}

/// Drawing the board reads its grid alone: two boards with the same squares
/// (and so one board drawn twice without a change) give the same text and the
/// same layout from either side.
pub proof fn lemma_render_reads_grid(a: Board, b: Board, is_white: bool)
    requires
        a.tiles == b.tiles,
    ensures
        board_text(a, is_white) == board_text(b, is_white),
        layout_of(a, is_white) == layout_of(b, is_white),
{
    assert forall|k: int| 0 <= k <= 8 implies #[trigger] rows_text(a, is_white, k) == rows_text(b, is_white, k) by {
        lemma_rows_read_grid(a, b, is_white, k);
    }
    assert(layout_of(a, is_white) =~= layout_of(b, is_white));
}

proof fn lemma_rows_read_grid(a: Board, b: Board, is_white: bool, n: int)
    requires
        a.tiles == b.tiles,
    ensures
        rows_text(a, is_white, n) == rows_text(b, is_white, n),
    decreases n,
{
    if n > 0 {
        lemma_rows_read_grid(a, b, is_white, n - 1);
        lemma_squares_read_grid(a, b, is_white, n - 1, 8);
    }
}

proof fn lemma_squares_read_grid(a: Board, b: Board, is_white: bool, k: int, n: int)
    requires
        a.tiles == b.tiles,
    ensures
        squares_text(a, is_white, k, n) == squares_text(b, is_white, k, n),
    decreases n,
{
    if n > 0 {
        lemma_squares_read_grid(a, b, is_white, k, n - 1);
    }
}

/// Drawn from Black's side, the squares come in exactly the reverse order of
/// White's side: rows and columns both reversed. The file and rank labels
/// follow the squares: White's side shows 'a' at the left and rank 8 at the
/// top, Black's side 'h' at the left and rank 1 at the top.
pub proof fn lemma_perspective_mirror(b: Board)
    ensures
        layout_of(b, false) == layout_of(b, true).reverse(),
        forall|k: int| 0 <= k < 8 ==> #[trigger] row_at(false, k) == 7 - row_at(true, k),
        forall|j: int| 0 <= j < 8 ==> #[trigger] col_at(false, j) == 7 - col_at(true, j),
        forall|k: int| 0 <= k < 8 ==> #[trigger] rank_char(row_at(false, k)) == rank_char(row_at(true, 7 - k)),
        forall|j: int| 0 <= j < 8 ==> #[trigger] file_char(col_at(false, j)) == file_char(col_at(true, 7 - j)),
        file_char(col_at(true, 0)) == 'a',
        rank_char(row_at(true, 0)) == '8',
        file_char(col_at(false, 0)) == 'h',
        rank_char(row_at(false, 0)) == '1',
{
    assert forall|i: int| 0 <= i < 64 implies #[trigger] layout_of(b, false)[i] == layout_of(b, true).reverse()[i] by {
        let k = i / 8;
        let j = i % 8;
        assert(0 <= k < 8 && 0 <= j < 8 && i == 8 * k + j);
        lemma_row_major(7 - k, 7 - j);
        assert(63 - i == 8 * (7 - k) + (7 - j));
    }
    assert(layout_of(b, false) =~= layout_of(b, true).reverse());
}

/// An empty square is drawn as a dot in the ink of its own shade: two empty
/// squares of one shade look the same whatever stands elsewhere, and each
/// empty square of a board is drawn from its background alone.
pub proof fn lemma_empty_square_ink(t: Tile, u: Tile, b: Board)
    requires
        (t.piece.piece_type is Empty),
        (u.piece.piece_type is Empty),
        t.colour == u.colour,
    ensures
        cell_of(t) == cell_of(u),
        cell_of(t) == empty_cell(t.colour),
        cell_of(t).ink == side_ink(t.colour),
        forall|r: int, c: int|
            0 <= r < 8 && 0 <= c < 8 && (b.tile(r, c).piece.piece_type is Empty) ==> #[trigger] cell_of(
                b.tile(r, c),
            ) == empty_cell(b.tile(r, c).colour),
{
}

} // verus!
