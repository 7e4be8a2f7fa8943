use vstd::prelude::*;

verus! {

/// A terminal foreground colour, as the ANSI codes that the board uses name it.
#[derive(Copy, Clone, PartialEq, Eq, Structural, Debug, Hash)]
pub enum Ink {
    Red,
    White,
    Rgb(u8, u8, u8),
}

/// The decimal digit for `d` in 0..10.
pub open spec fn digit_char(d: nat) -> char {
    if d == 0 { '0' }
    else if d == 1 { '1' }
    else if d == 2 { '2' }
    else if d == 3 { '3' }
    else if d == 4 { '4' }
    else if d == 5 { '5' }
    else if d == 6 { '6' }
    else if d == 7 { '7' }
    else if d == 8 { '8' }
    else { '9' }
}

/// `n` written in decimal, without leading zeros.
pub open spec fn decimal(n: nat) -> Seq<char>
    decreases n,
{
    if n < 10 {
        seq![digit_char(n)]
    } else {
        decimal(n / 10) + seq![digit_char(n % 10)]
    }
}

/// The SGR parameters that select `ink` as the foreground.
pub open spec fn foreground_code(ink: Ink) -> Seq<char> {
    match ink {
        Ink::Red => seq!['3', '1'],
        Ink::White => seq!['3', '7'],
        Ink::Rgb(r, g, b) => seq!['3', '8', ';', '2', ';'] + decimal(r as nat) + seq![';']
            + decimal(g as nat) + seq![';'] + decimal(b as nat),
    }
}

/// The escape sequence that resets every style.
pub open spec fn reset_code() -> Seq<char> {
    seq!['\x1b', '[', '0', 'm']
}

/// `text` wrapped in the escape sequences that show it in `ink`, bold or not,
/// and then reset the style.
pub open spec fn painted(ink: Ink, bold: bool, text: Seq<char>) -> Seq<char> {
    seq!['\x1b', '['] + (if bold { seq!['1', ';'] } else { Seq::empty() }) + foreground_code(ink)
        + seq!['m'] + text + reset_code()
}

/// Relies on ansi_term 0.12's `Style::paint` and the `Display` of the
/// resulting `ANSIString`: a style with a foreground writes `ESC [`, then `1;`
/// when bold, then the colour's foreground code, then `m`; then the text; then
/// `ESC [0m`.
#[verifier::external_body]
pub(crate) fn paint(ink: Ink, bold: bool, text: &str) -> (r: String)
    ensures
        r@ == painted(ink, bold, text@),
{
    let colour = match ink {
        Ink::Red => ansi_term::Colour::Red,
        Ink::White => ansi_term::Colour::White,
        Ink::Rgb(r, g, b) => ansi_term::Colour::RGB(r, g, b),
    };
    let style = ansi_term::Style { foreground: Some(colour), is_bold: bold, ..ansi_term::Style::new() };
    style.paint(text).to_string()
}

} // verus!
