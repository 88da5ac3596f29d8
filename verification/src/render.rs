//! The printed form of pieces, cells and the board, for a terminal.
//!
//! The board is printed rank by rank from rank 8 down to rank 1. A rank
//! starts with its number in blue; each cell follows as a blank, the letter
//! of its piece and a blank, white pieces in white and black pieces in red;
//! the rank ends with two line breaks. A last line names the files in blue.
//!
//! Whether colour is shown at all is for the terminal and the environment
//! to say, each time a text is painted. So a painted text is either the
//! bare text, or the text between the escape sequence of its colour and
//! the sequence that resets it. Where colour is switched off while a text
//! is being painted, the text may come out with the resetting sequence
//! alone.

use vstd::prelude::*;
use vstd::string::*;
use colored::Colorize;
use crate::board::Board;
use crate::grid::Grid;
use crate::notation::{column_letter, digit_of_row, letter_of_column, row_digit};
use crate::piece::{Cell, Color, GamePiece, Piece};

verus! {

/// The character that starts an escape sequence.
pub open spec fn escape() -> char {
    '\u{1b}'
}

/// The colours in which the board is printed.
#[derive(Clone, Copy, Debug, PartialEq, Eq, Structural)]
pub enum Tint {
    White,
    Red,
    Blue,
}

impl Tint {
    /// The number of the colour in an escape sequence.
    pub open spec fn code(self) -> Seq<char> {
        match self {
            Tint::White => seq!['3', '7'],
            Tint::Red => seq!['3', '1'],
            Tint::Blue => seq!['3', '4'],
        }
    }
}

/// How a painted text came out.
#[derive(Clone, Copy, Debug, PartialEq, Eq, Structural)]
pub enum Paint {
    /// Colour is not shown: the text is as it was.
    Bare,
    /// Colour is shown: the text stands between the sequence that switches
    /// its colour on and the sequence that resets it.
    Coloured,
    /// Colour was switched off while the text was painted: the text is
    /// followed by the resetting sequence, and nothing stands before it.
    ResetOnly,
}

/// The sequence that resets the colour.
pub open spec fn reset() -> Seq<char> {
    seq![escape(), '[', '0', 'm']
}

/// A text painted in a colour.
pub open spec fn tinted(text: Seq<char>, tint: Tint, paint: Paint) -> Seq<char> {
    match paint {
        Paint::Bare => text,
        Paint::Coloured => seq![escape(), '['] + tint.code() + seq!['m'] + text + reset(),
        Paint::ResetOnly => text + reset(),
    }
}

/// Whether a text is what painting `text` in `tint` can give.
pub open spec fn painted_as(painted: Seq<char>, text: Seq<char>, tint: Tint) -> bool {
    exists|paint: Paint| painted == tinted(text, tint, paint)
}

/// The printed form of a cell: the letter of its piece, in white for White
/// and in red for Black.
pub open spec fn cell_text(cell: Cell, shown: Paint) -> Seq<char> {
    match cell.color {
        Color::White => tinted(seq![cell.piece.piece_type.spec_glyph()], Tint::White, shown),
        Color::Black => tinted(seq![cell.piece.piece_type.spec_glyph()], Tint::Red, shown),
        Color::Nil => seq![cell.piece.piece_type.spec_glyph()],
    }
}

/// The first `n` cells of rank row `y` as printed. Place `9 * y` of `shown`
/// says how the number of the rank came out, and the eight places after it
/// say so of its cells.
pub open spec fn cells_text(g: Grid, y: int, n: int, shown: Seq<Paint>) -> Seq<char>
    decreases n,
{
    if n <= 0 {
        Seq::empty()
    } else {
        cells_text(g, y, n - 1, shown) + seq![' '] + cell_text(g[n - 1][y], shown[9 * y + n])
            + seq![' ']
    }
}

/// The number that starts the line of row `y`.
pub open spec fn rank_text(y: int, shown: Seq<Paint>) -> Seq<char> {
    tinted(seq![row_digit(y)], Tint::Blue, shown[9 * y])
}

/// The line of row `y`, with the two line breaks that end it.
pub open spec fn row_text(g: Grid, y: int, shown: Seq<Paint>) -> Seq<char> {
    rank_text(y, shown) + cells_text(g, y, 8, shown) + seq!['\r', '\n', '\r', '\n']
}

/// The lines of the first `n` rows.
pub open spec fn rows_text(g: Grid, n: int, shown: Seq<Paint>) -> Seq<char>
    decreases n,
{
    if n <= 0 {
        Seq::empty()
    } else {
        rows_text(g, n - 1, shown) + row_text(g, n - 1, shown)
    }
}

/// The names of the first `n` files. Place `72 + x` of `shown` says how the
/// name of file `x` came out.
pub open spec fn files_text(n: int, shown: Seq<Paint>) -> Seq<char>
    decreases n,
{
    if n <= 0 {
        Seq::empty()
    } else {
        files_text(n - 1, shown) + seq![' '] + tinted(
            seq![column_letter(n - 1)],
            Tint::Blue,
            shown[72 + n - 1],
        ) + seq![' ']
    }
}

/// The board as printed, given for each of its 80 painted texts how it
/// came out.
pub open spec fn board_text(g: Grid, shown: Seq<Paint>) -> Seq<char> {
    rows_text(g, 8, shown) + seq![' '] + files_text(8, shown)
}

/// `colored::Colorize::white` on a `&str`, and the `Display` of the
/// `ColoredString` it gives. For a text without an escape character the
/// crate writes the text itself where it decides not to colour, and else
/// `ESC[37m`, the text and `ESC[0m`. It asks anew whether to colour before
/// it writes the first of these, so the text may also come with `ESC[0m`
/// alone.
#[verifier::external_body]
fn paint_white(text: &str) -> (painted: String)
    requires
        !text@.contains(escape()),
    ensures
        painted_as(painted@, text@, Tint::White),
{
    text.white().to_string()
}

/// `colored::Colorize::red` on a `&str`, and the `Display` of the
/// `ColoredString` it gives. For a text without an escape character the
/// crate writes the text itself where it decides not to colour, and else
/// `ESC[31m`, the text and `ESC[0m`. It asks anew whether to colour before
/// it writes the first of these, so the text may also come with `ESC[0m`
/// alone.
#[verifier::external_body]
fn paint_red(text: &str) -> (painted: String)
    requires
        !text@.contains(escape()),
    ensures
        painted_as(painted@, text@, Tint::Red),
{
    text.red().to_string()
}

/// `colored::Colorize::blue` on a `&str`, and the `Display` of the
/// `ColoredString` it gives. For a text without an escape character the
/// crate writes the text itself where it decides not to colour, and else
/// `ESC[34m`, the text and `ESC[0m`. It asks anew whether to colour before
/// it writes the first of these, so the text may also come with `ESC[0m`
/// alone.
#[verifier::external_body]
fn paint_blue(text: &str) -> (painted: String)
    requires
        !text@.contains(escape()),
    ensures
        painted_as(painted@, text@, Tint::Blue),
{
    text.blue().to_string()
}

impl Piece {
    /// The printed form of a kind: its letter, a blank for `Nil`.
    pub fn to_string(&self) -> (text: String)
        ensures
            text@ == seq![self.spec_glyph()],
    {
        proof {
            reveal_strlit("P");
            reveal_strlit("R");
            reveal_strlit("N");
            reveal_strlit("B");
            reveal_strlit("Q");
            reveal_strlit("K");
            reveal_strlit(" ");
        }
        let letter = match self {
            Piece::Pawn => "P",
            Piece::Rook => "R",
            Piece::Knight => "N",
            Piece::Bishop => "B",
            Piece::Queen => "Q",
            Piece::King => "K",
            Piece::Nil => " ",
        };
        assert(letter@ =~= seq![self.spec_glyph()]);
        String::from_str(letter)
    }
}

impl GamePiece {
    /// The printed form of a piece: the letter of its kind.
    pub fn to_string(&self) -> (text: String)
        ensures
            text@ == seq![self.piece_type.spec_glyph()],
    {
        self.piece_type.to_string()
    }
}

impl Cell {
    /// The printed form of a cell: the letter of its piece, painted white
    /// for White and red for Black, and bare for an empty cell.
    pub fn to_string(&self) -> (text: String)
        ensures
            exists|paint: Paint| text@ == cell_text(*self, paint),
    {
        let letter = self.piece.to_string();
        assert(letter@[0] == self.piece.piece_type.spec_glyph());
        match self.color {
            Color::White => {
                let text = paint_white(letter.as_str());
                let ghost paint = choose|paint: Paint| text@ == tinted(letter@, Tint::White, paint);
                assert(text@ == cell_text(*self, paint));
                text
            },
            Color::Black => {
                let text = paint_red(letter.as_str());
                let ghost paint = choose|paint: Paint| text@ == tinted(letter@, Tint::Red, paint);
                assert(text@ == cell_text(*self, paint));
                text
            },
            Color::Nil => {
                assert(letter@ == cell_text(*self, Paint::Bare));
                letter
            },
        }
    }
}

/// The cells of a row are printed alike under two records that agree on the
/// places of the row.
proof fn lemma_cells_text_agree(g: Grid, y: int, n: int, a: Seq<Paint>, b: Seq<Paint>)
    requires
        0 <= n <= 8,
        forall|i: int| 9 * y < i <= 9 * y + n ==> a[i] == b[i],
    ensures
        cells_text(g, y, n, a) == cells_text(g, y, n, b),
    decreases n,
{
    if n > 0 {
        lemma_cells_text_agree(g, y, n - 1, a, b);
    }
}

/// The first rows are printed alike under two records that agree on the
/// places of these rows.
proof fn lemma_rows_text_agree(g: Grid, n: int, a: Seq<Paint>, b: Seq<Paint>)
    requires
        0 <= n <= 8,
        forall|i: int| 0 <= i < 9 * n ==> a[i] == b[i],
    ensures
        rows_text(g, n, a) == rows_text(g, n, b),
    decreases n,
{
    if n > 0 {
        lemma_rows_text_agree(g, n - 1, a, b);
        lemma_cells_text_agree(g, n - 1, 8, a, b);
    }
}

/// The first files are named alike under two records that agree on the
/// places of these files.
proof fn lemma_files_text_agree(n: int, a: Seq<Paint>, b: Seq<Paint>)
    requires
        0 <= n <= 8,
        forall|i: int| 72 <= i < 72 + n ==> a[i] == b[i],
    ensures
        files_text(n, a) == files_text(n, b),
    decreases n,
{
    if n > 0 {
        lemma_files_text_agree(n - 1, a, b);
    }
}

impl Board {
    /// The printed form of the board: eight lines of cells under their rank
    /// numbers, and a line of file letters. `shown`, where it exists, tells
    /// which of the 80 painted texts came out in colour.
    pub fn to_string(&self) -> (text: String)
        ensures
            exists|shown: Seq<Paint>| shown.len() == 80 && text@ == board_text(self@, shown),
    {
        proof {
            reveal_strlit(" ");
            reveal_strlit("\r\n\r\n");
        }
        let ghost g = self@;
        let ghost mut shown: Seq<Paint> = Seq::new(80, |i: int| Paint::Bare);
        let mut text = String::new();
        let mut y: usize = 0;
        while y < 8
            invariant
                y <= 8,
                g == self@,
                shown.len() == 80,
                text@ == rows_text(g, y as int, shown),
                " "@ == seq![' '],
                "\r\n\r\n"@ == seq!['\r', '\n', '\r', '\n'],
            decreases 8 - y,
        {
            let digit = digit_of_row(y);
            assert(digit@[0] == row_digit(y as int));
            let hint = paint_blue(digit);
            proof {
                let before = shown;
                shown = shown.update(
                    9 * y,
                    choose|paint: Paint| hint@ == tinted(digit@, Tint::Blue, paint),
                );
                lemma_rows_text_agree(g, y as int, before, shown);
                assert(hint@ == rank_text(y as int, shown));
            }
            text.append(hint.as_str());
            let mut x: usize = 0;
            while x < 8
                invariant
                    x <= 8,
                    y < 8,
                    g == self@,
                    shown.len() == 80,
                    text@ == rows_text(g, y as int, shown) + rank_text(y as int, shown)
                        + cells_text(g, y as int, x as int, shown),
                    " "@ == seq![' '],
                decreases 8 - x,
            {
                let cell = self.cell((x, y));
                let printed = cell.to_string();
                proof {
                    let before = shown;
                    shown = shown.update(
                        9 * y + x + 1,
                        choose|paint: Paint| printed@ == cell_text(cell, paint),
                    );
                    lemma_rows_text_agree(g, y as int, before, shown);
                    lemma_cells_text_agree(g, y as int, x as int, before, shown);
                    assert(printed@ == cell_text(g[x as int][y as int], shown[9 * y + x + 1]));
                }
                text.append(" ");
                text.append(printed.as_str());
                text.append(" ");
                x = x + 1;
                assert(text@ =~= rows_text(g, y as int, shown) + rank_text(y as int, shown)
                    + cells_text(g, y as int, x as int, shown));
            }
            text.append("\r\n\r\n");
            y = y + 1;
            assert(text@ =~= rows_text(g, y as int, shown));
        }
        text.append(" ");
        let mut x: usize = 0;
        while x < 8
            invariant
                x <= 8,
                shown.len() == 80,
                text@ == rows_text(g, 8, shown) + seq![' '] + files_text(x as int, shown),
                " "@ == seq![' '],
            decreases 8 - x,
        {
            let letter = letter_of_column(x);
            assert(letter@[0] == column_letter(x as int));
            let name = paint_blue(letter);
            proof {
                let before = shown;
                shown = shown.update(
                    72 + x,
                    choose|paint: Paint| name@ == tinted(letter@, Tint::Blue, paint),
                );
                lemma_rows_text_agree(g, 8, before, shown);
                lemma_files_text_agree(x as int, before, shown);
            }
            text.append(" ");
            text.append(name.as_str());
            text.append(" ");
            x = x + 1;
            assert(text@ =~= rows_text(g, 8, shown) + seq![' '] + files_text(x as int, shown));
        }
        text
    }
}

} // verus!
