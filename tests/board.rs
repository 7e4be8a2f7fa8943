use chessboard::{Board, Cell, Colour, Error, Ink, Piece, Tile, Type};

const GREY: &str = "\u{1b}[38;2;80;80;80m";
const RESET: &str = "\u{1b}[0m";

fn piece(piece_type: Type, colour: Colour) -> Piece {
    Piece { piece_type, colour }
}

fn grey(text: &str) -> String {
    format!("{}{}{}", GREY, text, RESET)
}

#[test]
fn new_board_shades_by_parity() {
    let b = Board::new();
    for r in 0..8 {
        for c in 0..8 {
            let expected = if (r + c) % 2 == 0 { Colour::Black } else { Colour::White };
            assert_eq!(b.tiles[r][c].colour, expected);
        }
    }
    assert_eq!(b.tiles[0][0].colour, Colour::Black);
    assert_eq!(b.tiles[0][1].colour, Colour::White);
    assert_eq!(b.tiles[7][0].colour, Colour::White);
}

#[test]
fn new_board_piece_counts() {
    let b = Board::new();
    let mut pawns = 0;
    let mut rooks = 0;
    let mut knights = 0;
    let mut bishops = 0;
    let mut queens = 0;
    let mut kings = 0;
    let mut empty = 0;
    let mut white_pawns = 0;
    let mut black_pawns = 0;
    for row in b.tiles.iter() {
        for t in row.iter() {
            match t.piece.piece_type {
                Type::Pawn(moved) => {
                    assert!(!moved);
                    pawns += 1;
                    if t.piece.colour == Colour::White {
                        white_pawns += 1;
                    } else {
                        black_pawns += 1;
                    }
                }
                Type::Rook(moved) => {
                    assert!(!moved);
                    rooks += 1;
                }
                Type::Knight => knights += 1,
                Type::Bishop => bishops += 1,
                Type::Queen => queens += 1,
                Type::King(moved) => {
                    assert!(!moved);
                    kings += 1;
                }
                Type::Empty => empty += 1,
            }
        }
    }
    assert_eq!(pawns, 16);
    assert_eq!(white_pawns, 8);
    assert_eq!(black_pawns, 8);
    assert_eq!(rooks, 4);
    assert_eq!(knights, 4);
    assert_eq!(bishops, 4);
    assert_eq!(queens, 2);
    assert_eq!(kings, 2);
    assert_eq!(empty, 32);
}

#[test]
fn new_board_king_positions() {
    let b = Board::new();
    assert_eq!(b.kingpos_w, (7, 4));
    assert_eq!(b.kingpos_b, (0, 4));
    assert_eq!(b.tiles[7][4].piece, piece(Type::King(false), Colour::White));
    assert_eq!(b.tiles[0][4].piece, piece(Type::King(false), Colour::Black));
}

#[test]
fn new_board_back_ranks() {
    let b = Board::new();
    let order = [
        Type::Rook(false),
        Type::Knight,
        Type::Bishop,
        Type::Queen,
        Type::King(false),
        Type::Bishop,
        Type::Knight,
        Type::Rook(false),
    ];
    for c in 0..8 {
        assert_eq!(b.tiles[0][c].piece, piece(order[c], Colour::Black));
        assert_eq!(b.tiles[1][c].piece, piece(Type::Pawn(false), Colour::Black));
        assert_eq!(b.tiles[6][c].piece, piece(Type::Pawn(false), Colour::White));
        assert_eq!(b.tiles[7][c].piece, piece(order[c], Colour::White));
        for r in 2..6 {
            assert_eq!(b.tiles[r][c].piece, piece(Type::Empty, Colour::White));
        }
    }
}

#[test]
fn new_board_inventory_is_standard() {
    let b = Board::new();
    let mut seen: Vec<(Piece, u32)> = Vec::new();
    for row in b.tiles.iter() {
        for t in row.iter() {
            if t.piece.piece_type == Type::Empty {
                continue;
            }
            match seen.iter_mut().find(|(p, _)| *p == t.piece) {
                Some(entry) => entry.1 += 1,
                None => seen.push((t.piece, 1)),
            }
        }
    }
    let mut expected: Vec<(Piece, u32)> = Vec::new();
    for colour in [Colour::White, Colour::Black] {
        expected.push((piece(Type::Pawn(false), colour), 8));
        expected.push((piece(Type::Rook(false), colour), 2));
        expected.push((piece(Type::Knight, colour), 2));
        expected.push((piece(Type::Bishop, colour), 2));
        expected.push((piece(Type::Queen, colour), 1));
        expected.push((piece(Type::King(false), colour), 1));
    }
    assert_eq!(seen.len(), expected.len());
    for e in expected.iter() {
        assert!(seen.contains(e), "missing {:?}", e);
    }
}

#[test]
fn kind_names() {
    assert_eq!(Type::Empty.ttos(), "Empty");
    assert_eq!(Type::Pawn(true).ttos(), "Pawn");
    assert_eq!(Type::Pawn(false).ttos(), "Pawn");
    assert_eq!(Type::Rook(false).ttos(), "Rook");
    assert_eq!(Type::Knight.ttos(), "Knight");
    assert_eq!(Type::Bishop.ttos(), "Bishop");
    assert_eq!(Type::Queen.ttos(), "Queen");
    assert_eq!(Type::King(true).ttos(), "King");
}

#[test]
fn colour_names() {
    assert_eq!(Colour::White.ctos(), "White");
    assert_eq!(Colour::Black.ctos(), "Black");
}

#[test]
fn error_variants_are_distinct() {
    let all = [
        Error::Length,
        Error::Empty,
        Error::IllegalMove,
        Error::OutOfBounds,
        Error::EnemyMove,
        Error::TeamDmg,
        Error::Check,
    ];
    for i in 0..all.len() {
        for j in 0..all.len() {
            assert_eq!(all[i] == all[j], i == j);
        }
    }
}

#[test]
fn render_is_deterministic() {
    let b = Board::new();
    assert_eq!(b.render(true), b.render(true));
    assert_eq!(b.render(false), b.render(false));
    assert_ne!(b.render(true), b.render(false));
}

#[test]
fn render_white_headers_and_ranks() {
    let text = Board::new().render(true);
    let lines: Vec<&str> = text.split('\n').collect();
    assert_eq!(lines.len(), 20);
    assert_eq!(lines[0], "      a   b   c   d   e   f   g   h");
    assert_eq!(lines[18], "      a   b   c   d   e   f   g   h");
    assert_eq!(lines[19], "");
    assert_eq!(lines[1], grey("    +---+---+---+---+---+---+---+---+"));
    assert_eq!(lines[17], grey("    +---+---+---+---+---+---+---+---+"));
    for k in 0..8 {
        let label = format!(" {}  ", 8 - k);
        assert!(lines[2 + 2 * k].starts_with(&label));
    }
}

#[test]
fn render_black_headers_and_ranks() {
    let text = Board::new().render(false);
    let lines: Vec<&str> = text.split('\n').collect();
    assert_eq!(lines.len(), 20);
    assert_eq!(lines[0], "      h   g   f   e   d   c   b   a");
    assert_eq!(lines[18], "      h   g   f   e   d   c   b   a");
    for k in 0..8 {
        let label = format!(" {}  ", k + 1);
        assert!(lines[2 + 2 * k].starts_with(&label));
    }
}

#[test]
fn render_white_top_row_exact() {
    let text = Board::new().render(true);
    let lines: Vec<&str> = text.split('\n').collect();
    let glyphs = ["♖", "♘", "♗", "♕", "♔", "♗", "♘", "♖"];
    let mut expected = String::from(" 8  ");
    for g in glyphs.iter() {
        expected.push_str(&grey("| "));
        expected.push_str(&format!("\u{1b}[1;31m{}{}", g, RESET));
        expected.push_str(&grey(" "));
    }
    expected.push_str(&grey("|"));
    assert_eq!(lines[2], expected);
}

#[test]
fn render_black_top_row_exact() {
    let text = Board::new().render(false);
    let lines: Vec<&str> = text.split('\n').collect();
    let glyphs = ["♜", "♞", "♝", "♚", "♛", "♝", "♞", "♜"];
    let mut expected = String::from(" 1  ");
    for g in glyphs.iter() {
        expected.push_str(&grey("| "));
        expected.push_str(&format!("\u{1b}[1;37m{}{}", g, RESET));
        expected.push_str(&grey(" "));
    }
    expected.push_str(&grey("|"));
    assert_eq!(lines[2], expected);
}

#[test]
fn render_empty_row_uses_shade_inks() {
    let text = Board::new().render(true);
    let lines: Vec<&str> = text.split('\n').collect();
    // storage row 2: (2 + col) even is a dark square
    let mut expected = String::from(" 6  ");
    for c in 0..8 {
        expected.push_str(&grey("| "));
        let code = if (2 + c) % 2 == 0 { "31" } else { "37" };
        expected.push_str(&format!("\u{1b}[{}m·{}", code, RESET));
        expected.push_str(&grey(" "));
    }
    expected.push_str(&grey("|"));
    assert_eq!(lines[6], expected);
}

#[test]
fn layout_black_is_reverse_of_white() {
    let b = Board::new();
    let white = b.layout(true);
    let mut black = b.layout(false);
    assert_eq!(white.len(), 64);
    assert_eq!(white[0].0, 0);
    assert_eq!(white[0].1, 0);
    assert_eq!(black[0].0, 7);
    assert_eq!(black[0].1, 7);
    black.reverse();
    assert_eq!(white, black);
}

#[test]
fn layout_white_order_is_row_major() {
    let b = Board::new();
    let white = b.layout(true);
    for i in 0..64 {
        assert_eq!((white[i].0, white[i].1), (i / 8, i % 8));
        assert_eq!(white[i].2, b.tiles[i / 8][i % 8].cell());
    }
}

#[test]
fn empty_cell_follows_background() {
    let dark = Tile { piece: piece(Type::Empty, Colour::White), colour: Colour::Black };
    let dark_other = Tile { piece: piece(Type::Empty, Colour::Black), colour: Colour::Black };
    let light = Tile { piece: piece(Type::Empty, Colour::Black), colour: Colour::White };
    assert_eq!(dark.cell(), Cell { glyph: '·', ink: Ink::Red, bold: false });
    assert_eq!(dark_other.cell(), dark.cell());
    assert_eq!(light.cell(), Cell { glyph: '·', ink: Ink::White, bold: false });
}

#[test]
fn piece_cell_follows_piece_colour() {
    let on_dark = Tile { piece: piece(Type::Queen, Colour::White), colour: Colour::Black };
    assert_eq!(on_dark.cell(), Cell { glyph: '♛', ink: Ink::White, bold: true });
    let on_light = Tile { piece: piece(Type::Knight, Colour::Black), colour: Colour::White };
    assert_eq!(on_light.cell(), Cell { glyph: '♘', ink: Ink::Red, bold: true });
}

#[test]
fn render_ignores_king_fields() {
    let a = Board::new();
    let mut b = Board::new();
    b.kingpos_w = (3, 3);
    assert_eq!(a.render(true), b.render(true));
}
