//! The text encoding of a board.
//!
//! A board is written as 64 cells of three characters each, column by
//! column from file A to file H and, within a column, from row 0 to row 7.
//! A cell is the tag of its kind (`P R N B Q K`, or `.` for none), the flag
//! of its piece (`+` moved, `-` not moved) and the tag of its side (`w`,
//! `b`, or `.` for none). Every board has exactly one encoding, and decoding
//! it gives the board back.

use vstd::prelude::*;
use vstd::string::*;
use crate::board::Board;
use crate::error::DecodeError;
use crate::grid::{grid_wf, Grid};
use crate::piece::{Cell, Color, GamePiece, Piece};

verus! {

/// The number of characters in the encoding of a board.
pub const ENCODED_LEN: usize = 192;

/// The tag of a kind.
pub open spec fn kind_tag(kind: Piece) -> char {
    match kind {
        Piece::Pawn => 'P',
        Piece::Rook => 'R',
        Piece::Knight => 'N',
        Piece::Bishop => 'B',
        Piece::Queen => 'Q',
        Piece::King => 'K',
        Piece::Nil => '.',
    }
}

/// The flag that says whether a piece has moved.
pub open spec fn moved_tag(has_moved: bool) -> char {
    if has_moved {
        '+'
    } else {
        '-'
    }
}

/// The tag of a side.
pub open spec fn side_tag(side: Color) -> char {
    match side {
        Color::White => 'w',
        Color::Black => 'b',
        Color::Nil => '.',
    }
}

/// The kind that a tag stands for.
pub open spec fn kind_of_tag(tag: char) -> Option<Piece> {
    if tag == 'P' {
        Some(Piece::Pawn)
    } else if tag == 'R' {
        Some(Piece::Rook)
    } else if tag == 'N' {
        Some(Piece::Knight)
    } else if tag == 'B' {
        Some(Piece::Bishop)
    } else if tag == 'Q' {
        Some(Piece::Queen)
    } else if tag == 'K' {
        Some(Piece::King)
    } else if tag == '.' {
        Some(Piece::Nil)
    } else {
        None
    }
}

/// The flag value that a tag stands for.
pub open spec fn moved_of_tag(tag: char) -> Option<bool> {
    if tag == '+' {
        Some(true)
    } else if tag == '-' {
        Some(false)
    } else {
        None
    }
}

/// The side that a tag stands for.
pub open spec fn side_of_tag(tag: char) -> Option<Color> {
    if tag == 'w' {
        Some(Color::White)
    } else if tag == 'b' {
        Some(Color::Black)
    } else if tag == '.' {
        Some(Color::Nil)
    } else {
        None
    }
}

/// The three characters of a cell.
pub open spec fn encode_cell(cell: Cell) -> Seq<char> {
    seq![kind_tag(cell.piece.piece_type), moved_tag(cell.piece.has_moved), side_tag(cell.color)]
}

/// The cell that three characters stand for, if each is a known tag.
pub open spec fn decode_cell(kind: char, moved: char, side: char) -> Option<Cell> {
    if kind_of_tag(kind) is Some && moved_of_tag(moved) is Some && side_of_tag(side) is Some {
        Some(
            Cell {
                piece: GamePiece {
                    has_moved: moved_of_tag(moved)->0,
                    piece_type: kind_of_tag(kind)->0,
                },
                color: side_of_tag(side)->0,
            },
        )
    } else {
        None
    }
}

/// The cell of a grid that is written in place `k` of the encoding.
pub open spec fn nth_cell(g: Grid, k: int) -> Cell {
    g[k / 8][k % 8]
}

/// The encoding of a grid.
pub open spec fn encode_grid(g: Grid) -> Seq<char> {
    Seq::new(192, |i: int| encode_cell(nth_cell(g, i / 3))[i % 3])
}

/// The cell that a text of 192 characters holds in place `k`.
pub open spec fn text_cell(text: Seq<char>, k: int) -> Option<Cell> {
    decode_cell(text[3 * k], text[3 * k + 1], text[3 * k + 2])
}

/// Every cell of the text is made of known tags.
pub open spec fn tags_known(text: Seq<char>) -> bool {
    forall|k: int| 0 <= k < 64 ==> (#[trigger] text_cell(text, k)) is Some
}

/// Every cell of the text that is made of known tags is consistent.
pub open spec fn cells_consistent(text: Seq<char>) -> bool {
    forall|k: int|
        0 <= k < 64 && (#[trigger] text_cell(text, k)) is Some ==> text_cell(text, k)->0.wf()
}

/// The grid that a text of known tags describes.
pub open spec fn decoded_grid(text: Seq<char>) -> Grid {
    Seq::new(8, |x: int| Seq::new(8, |y: int| text_cell(text, x * 8 + y)->0))
}

/// What decoding a text comes to.
pub open spec fn decode_outcome(text: Seq<char>) -> Result<Grid, DecodeError> {
    if text.len() != 192 {
        Err(DecodeError::WrongCellCount)
    } else if !tags_known(text) {
        Err(DecodeError::UnknownTag)
    } else if !cells_consistent(text) {
        Err(DecodeError::InconsistentCell)
    } else {
        Ok(decoded_grid(text))
    }
}

/// The tag of a kind, as a text.
fn kind_tag_text(kind: Piece) -> (tag: &'static str)
    ensures
        tag@ == seq![kind_tag(kind)],
{
    proof {
        reveal_strlit("P");
        reveal_strlit("R");
        reveal_strlit("N");
        reveal_strlit("B");
        reveal_strlit("Q");
        reveal_strlit("K");
        reveal_strlit(".");
    }
    let tag = match kind {
        Piece::Pawn => "P",
        Piece::Rook => "R",
        Piece::Knight => "N",
        Piece::Bishop => "B",
        Piece::Queen => "Q",
        Piece::King => "K",
        Piece::Nil => ".",
    };
    assert(tag@ =~= seq![kind_tag(kind)]);
    tag
}

/// The flag of a piece, as a text.
fn moved_tag_text(has_moved: bool) -> (tag: &'static str)
    ensures
        tag@ == seq![moved_tag(has_moved)],
{
    proof {
        reveal_strlit("+");
        reveal_strlit("-");
    }
    let tag = if has_moved {
        "+"
    } else {
        "-"
    };
    assert(tag@ =~= seq![moved_tag(has_moved)]);
    tag
}

/// The tag of a side, as a text.
fn side_tag_text(side: Color) -> (tag: &'static str)
    ensures
        tag@ == seq![side_tag(side)],
{
    proof {
        reveal_strlit("w");
        reveal_strlit("b");
        reveal_strlit(".");
    }
    let tag = match side {
        Color::White => "w",
        Color::Black => "b",
        Color::Nil => ".",
    };
    assert(tag@ =~= seq![side_tag(side)]);
    tag
}

/// Reads the tag of a kind.
fn read_kind(tag: char) -> (kind: Option<Piece>)
    ensures
        kind == kind_of_tag(tag),
{
    if tag == 'P' {
        Some(Piece::Pawn)
    } else if tag == 'R' {
        Some(Piece::Rook)
    } else if tag == 'N' {
        Some(Piece::Knight)
    } else if tag == 'B' {
        Some(Piece::Bishop)
    } else if tag == 'Q' {
        Some(Piece::Queen)
    } else if tag == 'K' {
        Some(Piece::King)
    } else if tag == '.' {
        Some(Piece::Nil)
    } else {
        None
    }
}

/// Reads the flag of a piece.
fn read_moved(tag: char) -> (moved: Option<bool>)
    ensures
        moved == moved_of_tag(tag),
{
    if tag == '+' {
        Some(true)
    } else if tag == '-' {
        Some(false)
    } else {
        None
    }
}

/// Reads the tag of a side.
fn read_side(tag: char) -> (side: Option<Color>)
    ensures
        side == side_of_tag(tag),
{
    if tag == 'w' {
        Some(Color::White)
    } else if tag == 'b' {
        Some(Color::Black)
    } else if tag == '.' {
        Some(Color::Nil)
    } else {
        None
    }
}

/// Reads the cell that three characters stand for.
fn read_cell(kind: char, moved: char, side: char) -> (cell: Option<Cell>)
    ensures
        cell == decode_cell(kind, moved, side),
{
    match (read_kind(kind), read_moved(moved), read_side(side)) {
        (Some(piece_type), Some(has_moved), Some(color)) => Some(
            Cell { piece: GamePiece { has_moved, piece_type }, color },
        ),
        _ => None,
    }
}

impl Board {
    /// Writes the board as text: 64 cells of three characters, column by
    /// column.
    pub fn serialize(&self) -> (text: String)
        ensures
            text@ == encode_grid(self@),
    {
        let mut text = String::new();
        let mut k: usize = 0;
        while k < 64
            invariant
                k <= 64,
                text@.len() == 3 * k,
                forall|i: int| 0 <= i < 3 * k ==> text@[i] == encode_grid(self@)[i],
            decreases 64 - k,
        {
            let cell = self.cell((k / 8, k % 8));
            assert(cell == nth_cell(self@, k as int));
            text.append(kind_tag_text(cell.piece.piece_type));
            text.append(moved_tag_text(cell.piece.has_moved));
            text.append(side_tag_text(cell.color));
            k = k + 1;
        }
        assert(text@ =~= encode_grid(self@));
        text
    }

    /// Reads a board from its text.
    ///
    /// Fails with `WrongCellCount` unless the text has 192 characters, with
    /// `UnknownTag` where some cell of such a text holds a character that is
    /// no tag of its place, and with `InconsistentCell` where all tags are
    /// known but some cell has a piece without a side or a side without a
    /// piece.
    pub fn deserialize(text: &str) -> (result: Result<Board, DecodeError>)
        ensures
            match decode_outcome(text@) {
                Ok(grid) => result is Ok && result->Ok_0@ == grid && grid_wf(grid),
                Err(e) => result is Err && result->Err_0 == e,
            },
    {
        if text.unicode_len() != ENCODED_LEN {
            return Err(DecodeError::WrongCellCount);
        }
        let mut board = Board::blank();
        let mut unknown = false;
        let mut inconsistent = false;
        let mut k: usize = 0;
        while k < 64
            invariant
                k <= 64,
                text@.len() == 192,
                board@.len() == 8,
                forall|x: int| 0 <= x < 8 ==> (#[trigger] board@[x]).len() == 8,
                !unknown ==> forall|j: int| 0 <= j < k ==> (#[trigger] text_cell(text@, j)) is Some,
                unknown ==> !tags_known(text@),
                !inconsistent ==> forall|j: int|
                    0 <= j < k && (#[trigger] text_cell(text@, j)) is Some ==> text_cell(
                        text@,
                        j,
                    )->0.wf(),
                inconsistent ==> !cells_consistent(text@),
                forall|j: int|
                    0 <= j < k && (#[trigger] text_cell(text@, j)) is Some && text_cell(
                        text@,
                        j,
                    )->0.wf() ==> nth_cell(board@, j) == text_cell(text@, j)->0,
            decreases 64 - k,
        {
            let read = read_cell(
                text.get_char(3 * k),
                text.get_char(3 * k + 1),
                text.get_char(3 * k + 2),
            );
            assert(read == text_cell(text@, k as int));
            match read {
                None => {
                    unknown = true;
                },
                Some(cell) => {
                    if cell.is_consistent() {
                        let ghost before = board@;
                        board.put((k / 8, k % 8), cell);
                        assert forall|j: int|
                            0 <= j < k && (#[trigger] text_cell(text@, j)) is Some && text_cell(
                                text@,
                                j,
                            )->0.wf() implies nth_cell(board@, j) == text_cell(text@, j)->0 by {
                            assert(nth_cell(board@, j) == nth_cell(before, j));
                        }
                        assert(nth_cell(board@, k as int) == cell);
                    } else {
                        inconsistent = true;
                    }
                },
            }
            k = k + 1;
        }
        if unknown {
            Err(DecodeError::UnknownTag)
        } else if inconsistent {
            Err(DecodeError::InconsistentCell)
        } else {
            proof {
                assert(tags_known(text@));
                assert(cells_consistent(text@));
                assert forall|x: int, y: int| 0 <= x < 8 && 0 <= y < 8 implies #[trigger] board@[x][y]
                    == decoded_grid(text@)[x][y] by {
                    let j = x * 8 + y;
                    assert(text_cell(text@, j) is Some);
                    assert(nth_cell(board@, j) == board@[x][y]);
                }
                assert(board@ =~~= decoded_grid(text@));
                use_type_invariant(&board);
                board.lemma_view_wf();
            }
            Ok(board)
        }
    }
}

} // verus!
