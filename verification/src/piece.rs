//! Pieces, sides and the cells of the grid.

use vstd::prelude::*;

verus! {

/// The kind of a chess piece. `Nil` marks the absence of a piece.
#[derive(Clone, Copy, Debug, PartialEq, Eq, Structural)]
pub enum Piece {
    Pawn,
    Rook,
    Knight,
    Bishop,
    Queen,
    King,
    Nil,
}

impl Piece {
    /// The letter that stands for this kind on a printed board.
    pub open spec fn spec_glyph(self) -> char {
        match self {
            Piece::Pawn => 'P',
            Piece::Rook => 'R',
            Piece::Knight => 'N',
            Piece::Bishop => 'B',
            Piece::Queen => 'Q',
            Piece::King => 'K',
            Piece::Nil => ' ',
        }
    }
}

/// A piece together with the record of whether it has moved yet.
#[derive(Clone, Copy, Debug, PartialEq, Eq, Structural)]
pub struct GamePiece {
    pub has_moved: bool,
    pub piece_type: Piece,
}

impl GamePiece {
    /// A piece of the given kind that has not moved yet.
    pub fn new(piece_type: Piece) -> (piece: GamePiece)
        ensures
            piece == (GamePiece { has_moved: false, piece_type }),
    {
        GamePiece { has_moved: false, piece_type }
    }

    /// Records that the piece has moved. The kind stays; the flag is never
    /// cleared again.
    pub fn moved(&mut self)
        ensures
            *final(self) == (GamePiece { has_moved: true, piece_type: old(self).piece_type }),
    {
        self.has_moved = true;
    }
}

/// The side a piece belongs to. `Nil` is the side of an empty cell.
#[derive(Clone, Copy, Debug, PartialEq, Eq, Structural)]
pub enum Color {
    Black,
    White,
    Nil,
}

/// One square of the grid: a piece and the side that owns it.
#[derive(Clone, Copy, Debug, PartialEq, Eq, Structural)]
pub struct Cell {
    pub piece: GamePiece,
    pub color: Color,
}

impl Cell {
    /// A cell is consistent when it has a side exactly if it has a piece.
    pub open spec fn wf(self) -> bool {
        (self.piece.piece_type == Piece::Nil) <==> (self.color == Color::Nil)
    }

    /// Whether a piece stands on the cell.
    pub open spec fn occupied(self) -> bool {
        self.piece.piece_type != Piece::Nil
    }

    /// The cell on which nothing stands.
    pub open spec fn spec_empty() -> Cell {
        Cell { piece: GamePiece { has_moved: false, piece_type: Piece::Nil }, color: Color::Nil }
    }

    /// A cell that holds an unmoved piece of the given kind and side.
    pub open spec fn fresh(piece_type: Piece, color: Color) -> Cell {
        Cell { piece: GamePiece { has_moved: false, piece_type }, color }
    }

    /// The cell as it arrives at the destination of a move: same kind and
    /// side, marked as moved.
    pub open spec fn arrived(self) -> Cell {
        Cell {
            piece: GamePiece { has_moved: true, piece_type: self.piece.piece_type },
            color: self.color,
        }
    }

    /// The cell on which nothing stands.
    pub fn empty() -> (cell: Cell)
        ensures
            cell == Cell::spec_empty(),
            cell.wf(),
    {
        Cell { piece: GamePiece::new(Piece::Nil), color: Color::Nil }
    }

    /// Whether the cell has a side exactly if it has a piece.
    pub fn is_consistent(&self) -> (b: bool)
        ensures
            b == self.wf(),
    {
        match (self.piece.piece_type, self.color) {
            (Piece::Nil, Color::Nil) => true,
            (Piece::Nil, _) => false,
            (_, Color::Nil) => false,
            _ => true,
        }
    }

    /// Whether a piece stands on the cell.
    pub fn is_occupied(&self) -> (b: bool)
        ensures
            b == self.occupied(),
    {
        match self.piece.piece_type {
            Piece::Nil => false,
            _ => true,
        }
    }
}

} // verus!
