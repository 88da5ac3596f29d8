//! The whole-number part of drawing the board: which squares are light,
//! and in which order the corners of the squares are joined to triangles.
//!
//! A square has four corners, numbered in the order in which they are
//! handed to the graphics card: bottom left, bottom right, top left, top
//! right. It is drawn as two triangles that share the diagonal from the
//! second corner to the third.

use vstd::prelude::*;

verus! {

/// Whether the square in this column and row is light. Squares are light
/// and dark in turn, along every column and every row, and the first
/// square is light.
pub open spec fn is_light(column: int, row: int) -> bool {
    (column + row) % 2 == 0
}

/// The corner that entry `i` of the list of corners names: the corners of
/// square `i / 6`, joined to two triangles.
pub open spec fn corner(i: int) -> int {
    let first = 4 * (i / 6);
    let place = i % 6;
    if place == 0 {
        first
    } else if place == 1 || place == 3 {
        first + 1
    } else if place == 2 || place == 5 {
        first + 2
    } else {
        first + 3
    }
}

/// Whether the square in this column and row is light.
pub fn square_is_light(column: usize, row: usize) -> (light: bool)
    ensures
        light == is_light(column as int, row as int),
{
    column % 2 == row % 2
}

/// The corners of `squares` squares in the order in which they are drawn:
/// six entries for each square, two triangles of three corners.
pub fn triangle_corners(squares: usize) -> (corners: Vec<i32>)
    requires
        squares <= 0x1000_0000,
    ensures
        corners@.len() == 6 * squares,
        forall|i: int| 0 <= i < 6 * squares ==> #[trigger] corners@[i] == corner(i),
{
    let mut corners: Vec<i32> = Vec::new();
    let mut square: usize = 0;
    while square < squares
        invariant
            square <= squares,
            squares <= 0x1000_0000,
            corners@.len() == 6 * square,
            forall|i: int| 0 <= i < 6 * square ==> #[trigger] corners@[i] == corner(i),
        decreases squares - square,
    {
        let first: i32 = (4 * square) as i32;
        corners.push(first);
        corners.push(first + 1);
        corners.push(first + 2);
        corners.push(first + 1);
        corners.push(first + 3);
        corners.push(first + 2);
        square = square + 1;
    }
    corners
}

} // verus!
