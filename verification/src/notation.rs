//! Algebraic notation: a file letter from A to H followed by a rank digit
//! from 1 to 8.
//!
//! Column 0 is file A. Row 0 is rank 8, the back rank of Black, so a rank
//! digit `n` stands for row `8 - n`.

use vstd::prelude::*;
use vstd::string::*;
use crate::error::NotationError;

verus! {

/// Whether a coordinate lies on the grid.
pub open spec fn in_range(coord: (usize, usize)) -> bool {
    coord.0 < 8 && coord.1 < 8
}

/// The upper-case form of an ASCII letter; any other character is itself.
pub open spec fn upper(c: char) -> char {
    if 'a' <= c && c <= 'z' {
        ((c as int) - 32) as char
    } else {
        c
    }
}

/// A text with each ASCII letter in upper case.
pub open spec fn upper_text(s: Seq<char>) -> Seq<char> {
    Seq::new(s.len(), |i: int| upper(s[i]))
}

/// The letter of a column.
pub open spec fn column_letter(column: int) -> char {
    (('A' as int) + column) as char
}

/// The digit of a row.
pub open spec fn row_digit(row: int) -> char {
    (('8' as int) - row) as char
}

/// The column that an upper-case file letter stands for.
pub open spec fn column_of(c: char) -> Option<usize> {
    if 'A' <= c && c <= 'H' {
        Some(((c as int) - ('A' as int)) as usize)
    } else {
        None
    }
}

/// The row that a rank digit stands for.
pub open spec fn row_of(c: char) -> Option<usize> {
    if '1' <= c && c <= '8' {
        Some((('8' as int) - (c as int)) as usize)
    } else {
        None
    }
}

/// What a text means as a coordinate, the file letter in either case.
pub open spec fn coord_of(s: Seq<char>) -> Result<(usize, usize), NotationError> {
    if s.len() != 2 {
        Err(NotationError::WrongLength)
    } else if column_of(upper(s[0])) is None {
        Err(NotationError::UnknownColumn)
    } else if row_of(s[1]) is None {
        Err(NotationError::UnknownRow)
    } else {
        Ok((column_of(upper(s[0]))->0, row_of(s[1])->0))
    }
}

/// The notation of a coordinate, the file letter in upper case.
pub open spec fn notation_of(coord: (usize, usize)) -> Seq<char> {
    seq![column_letter(coord.0 as int), row_digit(coord.1 as int)]
}

/// The upper-case form of an ASCII letter; any other character is itself.
pub fn to_upper(c: char) -> (u: char)
    ensures
        u == upper(c),
{
    if 'a' <= c && c <= 'z' {
        let code: u8 = c as u8;
        (code - 32) as char
    } else {
        c
    }
}

/// Reads an upper-case file letter.
fn column_of_char(c: char) -> (column: Option<usize>)
    ensures
        column == column_of(c),
{
    if 'A' <= c && c <= 'H' {
        let code: u8 = c as u8;
        Some((code - 65) as usize)
    } else {
        None
    }
}

/// Reads a rank digit.
fn row_of_char(c: char) -> (row: Option<usize>)
    ensures
        row == row_of(c),
{
    if '1' <= c && c <= '8' {
        let code: u8 = c as u8;
        Some((56 - code) as usize)
    } else {
        None
    }
}

/// Converts a file letter, given as a text of one upper-case letter, to its
/// column: `"A"` is column 0 and `"H"` is column 7. Any other text is no
/// column.
pub fn letter_to_column(letter: &str) -> (column: Result<usize, NotationError>)
    ensures
        letter@.len() == 1 && column_of(letter@[0]) is Some ==> column == Ok::<
            usize,
            NotationError,
        >(column_of(letter@[0])->0),
        !(letter@.len() == 1 && column_of(letter@[0]) is Some) ==> column == Err::<
            usize,
            NotationError,
        >(NotationError::UnknownColumn),
        column is Ok ==> column->Ok_0 < 8,
{
    if letter.unicode_len() != 1 {
        return Err(NotationError::UnknownColumn);
    }
    match column_of_char(letter.get_char(0)) {
        Some(column) => Ok(column),
        None => Err(NotationError::UnknownColumn),
    }
}

/// Converts a rank digit, given as a text of one digit, to its row: `"8"`
/// is row 0 and `"1"` is row 7. Any other text is no row.
pub fn number_to_row(number: &str) -> (row: Result<usize, NotationError>)
    ensures
        number@.len() == 1 && row_of(number@[0]) is Some ==> row == Ok::<usize, NotationError>(
            row_of(number@[0])->0,
        ),
        !(number@.len() == 1 && row_of(number@[0]) is Some) ==> row == Err::<
            usize,
            NotationError,
        >(NotationError::UnknownRow),
        row is Ok ==> row->Ok_0 < 8,
{
    if number.unicode_len() != 1 {
        return Err(NotationError::UnknownRow);
    }
    match row_of_char(number.get_char(0)) {
        Some(row) => Ok(row),
        None => Err(NotationError::UnknownRow),
    }
}

/// Reads a coordinate such as `"E2"` or `"e2"`.
pub fn decode_coord(text: &str) -> (coord: Result<(usize, usize), NotationError>)
    ensures
        coord == coord_of(text@),
        coord is Ok ==> in_range(coord->Ok_0),
{
    if text.unicode_len() != 2 {
        return Err(NotationError::WrongLength);
    }
    let column = match column_of_char(to_upper(text.get_char(0))) {
        Some(column) => column,
        None => {
            return Err(NotationError::UnknownColumn);
        },
    };
    let row = match row_of_char(text.get_char(1)) {
        Some(row) => row,
        None => {
            return Err(NotationError::UnknownRow);
        },
    };
    Ok((column, row))
}

/// The file letter of a column, as a text.
pub(crate) fn letter_of_column(column: usize) -> (letter: &'static str)
    requires
        column < 8,
    ensures
        letter@ == seq![column_letter(column as int)],
{
    proof {
        reveal_strlit("A");
        reveal_strlit("B");
        reveal_strlit("C");
        reveal_strlit("D");
        reveal_strlit("E");
        reveal_strlit("F");
        reveal_strlit("G");
        reveal_strlit("H");
    }
    let letter = match column {
        0 => "A",
        1 => "B",
        2 => "C",
        3 => "D",
        4 => "E",
        5 => "F",
        6 => "G",
        _ => "H",
    };
    assert(letter@ =~= seq![column_letter(column as int)]);
    letter
}

/// The rank digit of a row, as a text.
pub(crate) fn digit_of_row(row: usize) -> (digit: &'static str)
    requires
        row < 8,
    ensures
        digit@ == seq![row_digit(row as int)],
{
    proof {
        reveal_strlit("1");
        reveal_strlit("2");
        reveal_strlit("3");
        reveal_strlit("4");
        reveal_strlit("5");
        reveal_strlit("6");
        reveal_strlit("7");
        reveal_strlit("8");
    }
    let digit = match row {
        0 => "8",
        1 => "7",
        2 => "6",
        3 => "5",
        4 => "4",
        5 => "3",
        6 => "2",
        _ => "1",
    };
    assert(digit@ =~= seq![row_digit(row as int)]);
    digit
}

/// Writes a coordinate in notation, the file letter in upper case: column
/// 4, row 6 is `"E2"`.
pub fn position_to_notation(position: (usize, usize)) -> (text: String)
    requires
        in_range(position),
    ensures
        text@ == notation_of(position),
{
    let mut text = String::from_str(letter_of_column(position.0));
    text.append(digit_of_row(position.1));
    assert(text@ =~= notation_of(position));
    text
}

} // verus!
