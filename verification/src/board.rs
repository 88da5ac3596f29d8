//! The chess board: the grid of cells, the moves on it and the questions
//! that may be asked of it.
//!
//! The board checks how each kind of piece moves and nothing else. It knows
//! no turns, no check and no blocking: a move onto an occupied cell captures
//! what stands there, whatever its side.

use vstd::prelude::*;
use crate::error::MoveError;
use crate::grid::{
    back_rank, cell_at, grid_of, grid_wf, initial_cell, initial_grid, legal_move, move_outcome,
    notated_outcome, pieces_among, placed, Grid,
};
use crate::notation::{decode_coord, in_range};
use crate::piece::{Cell, Color, GamePiece, Piece};
use crate::rules::{d, step_is_legal};

verus! {

/// Chess board, main interface to the game.
/// All board actions should be taken through the public functions.
#[derive(Clone, Copy, Debug)]
pub struct Board {
    /// The cells, by column and then by row.
    board: [[Cell; 8]; 8],
}

impl Board {
    /// The cells of the board, by column and then by row.
    pub closed spec fn view(&self) -> Grid {
        Seq::new(8, |x: int| self.board@[x]@)
    }

    /// Every cell of a board is consistent. This holds of every board that
    /// the program can hold.
    #[verifier::type_invariant]
    pub closed spec fn wf(&self) -> bool {
        forall|x: int, y: int| 0 <= x < 8 && 0 <= y < 8 ==> (#[trigger] self.board@[x]@[y]).wf()
    }

    /// A well-formed board shows a well-formed grid.
    pub proof fn lemma_view_wf(&self)
        requires
            self.wf(),
        ensures
            grid_wf(self@),
    {
        assert forall|x: int, y: int| 0 <= x < 8 && 0 <= y < 8 implies (#[trigger] self@[x][y]).wf() by {
            assert(self.board@[x]@[y].wf());
        }
    }

    /// A board on which nothing stands.
    pub(crate) fn blank() -> (board: Board)
        ensures
            board@ == Seq::new(8, |x: int| Seq::new(8, |y: int| Cell::spec_empty())),
    {
        let column = [Cell::empty(); 8];
        let columns = [column; 8];
        proof {
            broadcast use vstd::array::axiom_spec_array_fill_for_copy_type;

            assert(forall|y: int| 0 <= y < 8 ==> column@[y] == Cell::spec_empty());
            assert(forall|x: int| 0 <= x < 8 ==> columns@[x] == column);
        }
        let board = Board { board: columns };
        assert(board@ =~~= Seq::new(8, |x: int| Seq::new(8, |y: int| Cell::spec_empty())));
        board
    }

    /// Replaces one cell.
    pub(crate) fn put(&mut self, coord: (usize, usize), cell: Cell)
        requires
            in_range(coord),
            cell.wf(),
        ensures
            final(self)@ == placed(old(self)@, coord, cell),
    {
        proof {
            use_type_invariant(&*self);
        }
        let mut column = self.board[coord.0];
        column[coord.1] = cell;
        self.board[coord.0] = column;
        assert(self@ =~= placed(old(self)@, coord, cell));
    }

    /// The kind that starts on a column of either back rank.
    fn back_rank_piece(x: usize) -> (piece: Piece)
        requires
            x < 8,
        ensures
            piece == back_rank(x as int),
            piece != Piece::Nil,
    {
        match x {
            0 => Piece::Rook,
            1 => Piece::Knight,
            2 => Piece::Bishop,
            3 => Piece::Queen,
            4 => Piece::King,
            5 => Piece::Bishop,
            6 => Piece::Knight,
            _ => Piece::Rook,
        }
    }

    /// A board set up in the standard starting position. No piece on it has
    /// moved.
    pub fn new() -> (board: Board)
        ensures
            board@ == initial_grid(),
            grid_wf(board@),
    {
        let mut board = Board::blank();
        let mut x: usize = 0;
        while x < 8
            invariant
                x <= 8,
                board@.len() == 8,
                forall|cx: int| 0 <= cx < 8 ==> (#[trigger] board@[cx]).len() == 8,
                forall|cx: int, cy: int|
                    0 <= cx < x && 0 <= cy < 8 ==> #[trigger] board@[cx][cy] == initial_cell(
                        cx,
                        cy,
                    ),
                forall|cx: int, cy: int|
                    x <= cx < 8 && 0 <= cy < 8 ==> #[trigger] board@[cx][cy] == Cell::spec_empty(),
            decreases 8 - x,
        {
            let officer = Board::back_rank_piece(x);
            board.put((x, 0), Cell { piece: GamePiece::new(officer), color: Color::Black });
            board.put((x, 1), Cell { piece: GamePiece::new(Piece::Pawn), color: Color::Black });
            board.put((x, 6), Cell { piece: GamePiece::new(Piece::Pawn), color: Color::White });
            board.put((x, 7), Cell { piece: GamePiece::new(officer), color: Color::White });
            x = x + 1;
        }
        assert(board@ =~~= initial_grid());
        proof {
            use_type_invariant(&board);
            board.lemma_view_wf();
        }
        board
    }

    /// The board that eight columns of eight cells make up. There is none
    /// where the columns or the cells of one are not eight, or where some
    /// cell has a piece without a side or a side without a piece.
    pub fn from_cells(columns: &Vec<Vec<Cell>>) -> (board: Option<Board>)
        ensures
            board is Some <==> grid_wf(grid_of(columns@)),
            board is Some ==> board->0@ == grid_of(columns@),
    {
        let ghost g = grid_of(columns@);
        if columns.len() != 8 {
            return None;
        }
        let mut board = Board::blank();
        let mut x: usize = 0;
        while x < 8
            invariant
                x <= 8,
                columns@.len() == 8,
                g == grid_of(columns@),
                g.len() == 8,
                board@.len() == 8,
                forall|cx: int| 0 <= cx < 8 ==> (#[trigger] board@[cx]).len() == 8,
                forall|cx: int| 0 <= cx < x ==> (#[trigger] g[cx]).len() == 8,
                forall|cx: int, cy: int|
                    0 <= cx < x && 0 <= cy < 8 ==> (#[trigger] g[cx][cy]).wf() && board@[cx][cy]
                        == g[cx][cy],
            decreases 8 - x,
        {
            let column = &columns[x];
            assert(column@ == g[x as int]);
            if column.len() != 8 {
                return None;
            }
            let mut y: usize = 0;
            while y < 8
                invariant
                    y <= 8,
                    x < 8,
                    g == grid_of(columns@),
                    g.len() == 8,
                    forall|cx: int| 0 <= cx < x ==> (#[trigger] g[cx]).len() == 8,
                    column@.len() == 8,
                    column@ == g[x as int],
                    board@.len() == 8,
                    forall|cx: int| 0 <= cx < 8 ==> (#[trigger] board@[cx]).len() == 8,
                    forall|cx: int, cy: int|
                        0 <= cx < x && 0 <= cy < 8 ==> (#[trigger] g[cx][cy]).wf()
                            && board@[cx][cy] == g[cx][cy],
                    forall|cy: int|
                        0 <= cy < y ==> (#[trigger] g[x as int][cy]).wf() && board@[x as int][cy]
                            == g[x as int][cy],
                decreases 8 - y,
            {
                let cell = column[y];
                if !cell.is_consistent() {
                    assert(!g[x as int][y as int].wf());
                    return None;
                }
                board.put((x, y), cell);
                y = y + 1;
            }
            x = x + 1;
        }
        assert(board@ =~~= g);
        Some(board)
    }

    /// The cell at a coordinate.
    pub fn cell(&self, coord: (usize, usize)) -> (cell: Cell)
        requires
            in_range(coord),
        ensures
            cell == cell_at(self@, coord),
            cell.wf(),
    {
        proof {
            use_type_invariant(self);
        }
        self.board[coord.0][coord.1]
    }

    /// Check if a piece exists at a coordinate. The board is not changed.
    pub fn has_piece(&self, coord: (usize, usize)) -> (b: bool)
        requires
            in_range(coord),
        ensures
            b == cell_at(self@, coord).occupied(),
    {
        self.cell(coord).is_occupied()
    }

    /// The side of the piece at a coordinate, `Color::Nil` where there is
    /// none. The board is not changed.
    pub fn get_color(&self, coord: (usize, usize)) -> (color: Color)
        requires
            in_range(coord),
        ensures
            color == cell_at(self@, coord).color,
            (color == Color::Nil) <==> !cell_at(self@, coord).occupied(),
    {
        self.cell(coord).color
    }

    /// The piece at a coordinate, of kind `Piece::Nil` where there is none.
    /// The board is not changed.
    pub fn get_piece(&self, coord: (usize, usize)) -> (piece: GamePiece)
        requires
            in_range(coord),
        ensures
            piece == cell_at(self@, coord).piece,
    {
        self.cell(coord).piece
    }

    /// The pieces on the board, rank by rank from row 0 and within a rank
    /// from column 0: for each its column, its row and its side. This is
    /// what there is to draw.
    pub fn pieces(&self) -> (list: Vec<(usize, usize, Color)>)
        ensures
            list@ == pieces_among(self@, 64),
    {
        let mut list: Vec<(usize, usize, Color)> = Vec::new();
        let mut n: usize = 0;
        while n < 64
            invariant
                n <= 64,
                list@ == pieces_among(self@, n as int),
            decreases 64 - n,
        {
            let x = n % 8;
            let y = n / 8;
            let cell = self.cell((x, y));
            if cell.is_occupied() {
                list.push((x, y, cell.color));
            }
            n = n + 1;
        }
        list
    }

    /// Make sure a piece makes a legal move: decides whether `piece` may go
    /// from `from` to `to`, given what stands on `to`.
    pub fn validate_move(&self, from: (usize, usize), to: (usize, usize), piece: &GamePiece) -> (ok:
        bool)
        requires
            in_range(to),
        ensures
            ok == legal_move(self@, from, to, *piece),
    {
        let (dx, dy) = d(from, to);
        step_is_legal(piece, dx, dy, self.has_piece(to))
    }

    /// Move a piece from one cell to another on the board.
    ///
    /// Fails with `EmptySource` where nothing stands on `from`, and with
    /// `IllegalMove` where the piece there may not move so; the board is
    /// then unchanged. Otherwise the piece goes to `to`, marked as moved,
    /// replacing what stood there, and `from` is left empty.
    pub fn move_piece(&mut self, from: (usize, usize), to: (usize, usize)) -> (result: Result<
        (),
        MoveError,
    >)
        requires
            in_range(from),
            in_range(to),
        ensures
            grid_wf(old(self)@),
            grid_wf(final(self)@),
            match move_outcome(old(self)@, from, to) {
                Ok(grid) => result is Ok && final(self)@ == grid,
                Err(e) => result == Err::<(), MoveError>(e) && final(self)@ == old(self)@,
            },
    {
        proof {
            use_type_invariant(&*self);
            self.lemma_view_wf();
        }
        let source = self.cell(from);
        if !source.is_occupied() {
            return Err(MoveError::EmptySource);
        }
        if !self.validate_move(from, to, &source.piece) {
            return Err(MoveError::IllegalMove);
        }
        let mut arriving = source;
        arriving.piece.moved();
        self.put(to, arriving);
        self.put(from, Cell::empty());
        proof {
            use_type_invariant(&*self);
            self.lemma_view_wf();
        }
        Ok(())
    }

    /// Make a move between two coordinates in notation, such as `"E2"` and
    /// `"E4"`; the file letter may be in either case.
    ///
    /// Fails with `InvalidNotation` where either text is not a file letter
    /// from A to H followed by a rank digit from 1 to 8, and otherwise as
    /// [`Board::move_piece`] does. A failed move leaves the board unchanged.
    pub fn make_move(&mut self, from: &str, to: &str) -> (result: Result<(), MoveError>)
        ensures
            grid_wf(old(self)@),
            grid_wf(final(self)@),
            match notated_outcome(old(self)@, from@, to@) {
                Ok(grid) => result is Ok && final(self)@ == grid,
                Err(e) => result == Err::<(), MoveError>(e) && final(self)@ == old(self)@,
            },
    {
        proof {
            use_type_invariant(&*self);
            self.lemma_view_wf();
        }
        let source = match decode_coord(from) {
            Ok(coord) => coord,
            Err(_) => {
                return Err(MoveError::InvalidNotation);
            },
        };
        let target = match decode_coord(to) {
            Ok(coord) => coord,
            Err(_) => {
                return Err(MoveError::InvalidNotation);
            },
        };
        self.move_piece(source, target)
    }
}

} // verus!
