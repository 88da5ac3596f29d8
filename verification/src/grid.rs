//! The mathematical model of a board: eight columns of eight cells, and what
//! a move does to them.

use vstd::prelude::*;
use crate::error::MoveError;
use crate::notation::coord_of;
use crate::piece::{Cell, Color, GamePiece, Piece};
use crate::rules::{deltas, legal_step};

verus! {

/// A grid is indexed by column, then by row.
pub type Grid = Seq<Seq<Cell>>;

/// A grid has eight columns of eight consistent cells.
pub open spec fn grid_wf(g: Grid) -> bool {
    &&& g.len() == 8
    &&& forall|x: int| 0 <= x < 8 ==> (#[trigger] g[x]).len() == 8
    &&& forall|x: int, y: int| 0 <= x < 8 && 0 <= y < 8 ==> (#[trigger] g[x][y]).wf()
}

/// The grid that columns of cells make up.
pub open spec fn grid_of(columns: Seq<Vec<Cell>>) -> Grid {
    columns.map_values(|column: Vec<Cell>| column@)
}

/// The cell at a coordinate.
pub open spec fn cell_at(g: Grid, coord: (usize, usize)) -> Cell {
    g[coord.0 as int][coord.1 as int]
}

/// The pieces among the first `n` cells, counted rank by rank from row 0
/// and within a rank from column 0: for each its column, its row and its
/// side.
pub open spec fn pieces_among(g: Grid, n: int) -> Seq<(usize, usize, Color)>
    decreases n,
{
    if n <= 0 {
        Seq::empty()
    } else {
        let x = (n - 1) % 8;
        let y = (n - 1) / 8;
        if g[x][y].occupied() {
            pieces_among(g, n - 1).push((x as usize, y as usize, g[x][y].color))
        } else {
            pieces_among(g, n - 1)
        }
    }
}

/// The grid with one cell replaced.
pub open spec fn placed(g: Grid, coord: (usize, usize), cell: Cell) -> Grid {
    g.update(coord.0 as int, g[coord.0 as int].update(coord.1 as int, cell))
}

/// The kind that starts on a column of either back rank.
pub open spec fn back_rank(x: int) -> Piece {
    if x == 0 || x == 7 {
        Piece::Rook
    } else if x == 1 || x == 6 {
        Piece::Knight
    } else if x == 2 || x == 5 {
        Piece::Bishop
    } else if x == 3 {
        Piece::Queen
    } else {
        Piece::King
    }
}

/// The cell of the standard starting position: Black on rows 0 and 1,
/// White on rows 6 and 7, pawns on the inner of the two.
pub open spec fn initial_cell(x: int, y: int) -> Cell {
    if y == 0 {
        Cell::fresh(back_rank(x), Color::Black)
    } else if y == 1 {
        Cell::fresh(Piece::Pawn, Color::Black)
    } else if y == 6 {
        Cell::fresh(Piece::Pawn, Color::White)
    } else if y == 7 {
        Cell::fresh(back_rank(x), Color::White)
    } else {
        Cell::spec_empty()
    }
}

/// The standard starting position.
pub open spec fn initial_grid() -> Grid {
    Seq::new(8, |x: int| Seq::new(8, |y: int| initial_cell(x, y)))
}

/// Whether `piece` may move from `from` to `to` on this grid.
pub open spec fn legal_move(
    g: Grid,
    from: (usize, usize),
    to: (usize, usize),
    piece: GamePiece,
) -> bool {
    legal_step(piece, deltas(from, to).0, deltas(from, to).1, cell_at(g, to).occupied())
}

/// The grid after the piece on `from` has gone to `to`: the destination
/// holds that piece, marked as moved, whatever stood there before, and the
/// source is empty.
pub open spec fn after_move(g: Grid, from: (usize, usize), to: (usize, usize)) -> Grid {
    placed(placed(g, to, cell_at(g, from).arrived()), from, Cell::spec_empty())
}

/// What a move between two coordinates of the grid comes to.
pub open spec fn move_outcome(g: Grid, from: (usize, usize), to: (usize, usize)) -> Result<
    Grid,
    MoveError,
> {
    if !cell_at(g, from).occupied() {
        Err(MoveError::EmptySource)
    } else if !legal_move(g, from, to, cell_at(g, from).piece) {
        Err(MoveError::IllegalMove)
    } else {
        Ok(after_move(g, from, to))
    }
}

/// What a move written in notation comes to.
pub open spec fn notated_outcome(g: Grid, from: Seq<char>, to: Seq<char>) -> Result<
    Grid,
    MoveError,
> {
    if coord_of(from) is Err || coord_of(to) is Err {
        Err(MoveError::InvalidNotation)
    } else {
        move_outcome(g, coord_of(from)->Ok_0, coord_of(to)->Ok_0)
    }
}

} // verus!
