//! The movement rule of each kind of piece.
//!
//! A move is judged by the distance it covers along the files and along the
//! ranks, by whether the piece has moved before, and by whether the
//! destination is occupied. Squares in between are not looked at, nor is the
//! side of either piece: sliding pieces pass over others, and a pawn may
//! step or capture in either direction.

use vstd::prelude::*;
use crate::piece::{GamePiece, Piece};

verus! {

/// The distance between two indices.
pub open spec fn distance(a: int, b: int) -> int {
    if a <= b {
        b - a
    } else {
        a - b
    }
}

/// The distance a move covers along the files and along the ranks.
pub open spec fn deltas(from: (usize, usize), to: (usize, usize)) -> (int, int) {
    (distance(from.0 as int, to.0 as int), distance(from.1 as int, to.1 as int))
}

/// A move along one file or one rank, over at least one square.
pub open spec fn straight(dx: int, dy: int) -> bool {
    (dx == 0 && dy != 0) || (dx != 0 && dy == 0)
}

/// A move along a diagonal, over at least one square.
pub open spec fn diagonal(dx: int, dy: int) -> bool {
    dx == dy && dx != 0
}

/// Whether a piece may cover the distances `dx` and `dy` onto a destination
/// that is occupied or not.
pub open spec fn legal_step(piece: GamePiece, dx: int, dy: int, occupied: bool) -> bool {
    match piece.piece_type {
        Piece::Pawn => {
            ||| dx == 0 && (dy == 1 || (dy == 2 && !piece.has_moved)) && !occupied
            ||| dx == 1 && dy == 1 && occupied
        },
        Piece::Rook => straight(dx, dy),
        Piece::Knight => (dx == 2 && dy == 1) || (dx == 1 && dy == 2),
        Piece::Bishop => diagonal(dx, dy),
        Piece::Queen => straight(dx, dy) || diagonal(dx, dy),
        Piece::King => (dx == 1 && dy <= 1) || (dx <= 1 && dy == 1),
        Piece::Nil => false,
    }
}

/// The distance between two indices.
fn gap(a: usize, b: usize) -> (d: usize)
    ensures
        d == distance(a as int, b as int),
{
    if a < b {
        b - a
    } else {
        a - b
    }
}

/// The distance a move covers along the files and along the ranks.
pub fn d(from: (usize, usize), to: (usize, usize)) -> (delta: (usize, usize))
    ensures
        (delta.0 as int, delta.1 as int) == deltas(from, to),
{
    (gap(from.0, to.0), gap(from.1, to.1))
}

/// Decides whether a piece may cover the distances `dx` and `dy` onto a
/// destination that is occupied or not.
pub fn step_is_legal(piece: &GamePiece, dx: usize, dy: usize, occupied: bool) -> (ok: bool)
    ensures
        ok == legal_step(*piece, dx as int, dy as int, occupied),
{
    match piece.piece_type {
        Piece::Pawn => {
            if piece.has_moved {
                (dx == 0 && dy == 1 && !occupied) || (dx == 1 && dy == 1 && occupied)
            } else {
                (dx == 0 && (dy == 1 || dy == 2) && !occupied) || (dx == 1 && dy == 1 && occupied)
            }
        },
        Piece::Rook => (dx == 0 && dy != 0) || (dx != 0 && dy == 0),
        Piece::Knight => (dx == 2 && dy == 1) || (dx == 1 && dy == 2),
        Piece::Bishop => dx == dy && dx != 0,
        Piece::Queen => (dx == dy && dx != 0) || (dx == 0 && dy != 0) || (dx != 0 && dy == 0),
        Piece::King => (dx == 1 && dy <= 1) || (dx <= 1 && dy == 1),
        Piece::Nil => false,
    }
}

} // verus!
