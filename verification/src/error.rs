//! The ways in which the operations of the library fail. Every failure is
//! returned to the caller; none is fatal.

use vstd::prelude::*;
use vstd::string::*;

verus! {

/// Why a coordinate in algebraic notation could not be read.
#[derive(Clone, Copy, Debug, PartialEq, Eq, Structural)]
pub enum NotationError {
    /// The text does not have the length of a coordinate.
    WrongLength,
    /// The file is not a letter from A to H.
    UnknownColumn,
    /// The rank is not a digit from 1 to 8.
    UnknownRow,
}

/// Why a move was not made.
#[derive(Clone, Copy, Debug, PartialEq, Eq, Structural)]
pub enum MoveError {
    /// A coordinate is not a file letter followed by a rank digit.
    InvalidNotation,
    /// No piece stands on the source cell.
    EmptySource,
    /// The piece on the source cell may not move like that.
    IllegalMove,
    /// The piece on the source cell belongs to the other player. The board
    /// never says so: it lets either side move. A game says so of a move
    /// of its own player.
    NotOwner,
}

/// Why a text is not the encoding of a board.
#[derive(Clone, Copy, Debug, PartialEq, Eq, Structural)]
pub enum DecodeError {
    /// The text does not describe exactly 64 cells.
    WrongCellCount,
    /// Some cell carries a tag that stands for no kind, flag or side.
    UnknownTag,
    /// Every tag is known, but some cell has a piece without a side or a
    /// side without a piece.
    InconsistentCell,
}

impl NotationError {
    /// What the error says, in words.
    pub open spec fn spec_text(self) -> Seq<char> {
        match self {
            NotationError::WrongLength => "A coordinate is a letter and a digit."@,
            NotationError::UnknownColumn => "Unknown column given."@,
            NotationError::UnknownRow => "Unknown row given."@,
        }
    }

    /// What the error says, in words.
    pub fn to_string(&self) -> (text: String)
        ensures
            text@ == self.spec_text(),
    {
        match self {
            NotationError::WrongLength => String::from_str("A coordinate is a letter and a digit."),
            NotationError::UnknownColumn => String::from_str("Unknown column given."),
            NotationError::UnknownRow => String::from_str("Unknown row given."),
        }
    }
}

impl MoveError {
    /// What the error says, in words.
    pub open spec fn spec_text(self) -> Seq<char> {
        match self {
            MoveError::InvalidNotation => "Illegal move notation."@,
            MoveError::EmptySource => "This board cell is empty."@,
            MoveError::IllegalMove => "Illegal move."@,
            MoveError::NotOwner => "This piece is not yours."@,
        }
    }

    /// What the error says, in words.
    pub fn to_string(&self) -> (text: String)
        ensures
            text@ == self.spec_text(),
    {
        match self {
            MoveError::InvalidNotation => String::from_str("Illegal move notation."),
            MoveError::EmptySource => String::from_str("This board cell is empty."),
            MoveError::IllegalMove => String::from_str("Illegal move."),
            MoveError::NotOwner => String::from_str("This piece is not yours."),
        }
    }
}

impl DecodeError {
    /// What the error says, in words.
    pub open spec fn spec_text(self) -> Seq<char> {
        match self {
            DecodeError::WrongCellCount => "The text does not describe 64 cells."@,
            DecodeError::UnknownTag => "The text holds an unknown tag."@,
            DecodeError::InconsistentCell => "The text holds a cell that is half empty."@,
        }
    }

    /// What the error says, in words.
    pub fn to_string(&self) -> (text: String)
        ensures
            text@ == self.spec_text(),
    {
        match self {
            DecodeError::WrongCellCount => String::from_str("The text does not describe 64 cells."),
            DecodeError::UnknownTag => String::from_str("The text holds an unknown tag."),
            DecodeError::InconsistentCell => String::from_str(
                "The text holds a cell that is half empty.",
            ),
        }
    }
}

} // verus!
