use rust_chess::board::Board;
use rust_chess::error::MoveError;
use rust_chess::piece::{Cell, Color, GamePiece, Piece};

fn cell(kind: Piece, color: Color, has_moved: bool) -> Cell {
    Cell { piece: GamePiece { has_moved, piece_type: kind }, color }
}

/// A board that is empty but for the given cells.
fn board_with(cells: &[((usize, usize), Cell)]) -> Board {
    let empty = cell(Piece::Nil, Color::Nil, false);
    let mut columns = vec![vec![empty; 8]; 8];
    for ((x, y), c) in cells {
        columns[*x][*y] = *c;
    }
    Board::from_cells(&columns).unwrap()
}

#[test]
fn starting_position() {
    let board = Board::new();
    let officers = [
        Piece::Rook,
        Piece::Knight,
        Piece::Bishop,
        Piece::Queen,
        Piece::King,
        Piece::Bishop,
        Piece::Knight,
        Piece::Rook,
    ];
    for x in 0..8 {
        assert_eq!(board.cell((x, 0)), cell(officers[x], Color::Black, false));
        assert_eq!(board.cell((x, 1)), cell(Piece::Pawn, Color::Black, false));
        for y in 2..6 {
            assert_eq!(board.cell((x, y)), cell(Piece::Nil, Color::Nil, false));
            assert!(!board.has_piece((x, y)));
        }
        assert_eq!(board.cell((x, 6)), cell(Piece::Pawn, Color::White, false));
        assert_eq!(board.cell((x, 7)), cell(officers[x], Color::White, false));
    }
    assert_eq!(board.pieces().len(), 32);
}

#[test]
fn opening_pawn_double_step() {
    let mut board = Board::new();
    assert_eq!(board.make_move("E2", "E4"), Ok(()));
    let piece = board.get_piece((4, 4));
    assert_eq!(piece.piece_type, Piece::Pawn);
    assert!(piece.has_moved);
    assert_eq!(board.get_color((4, 4)), Color::White);
    assert!(!board.has_piece((4, 6)));
    assert_eq!(board.get_color((4, 6)), Color::Nil);
    assert_eq!(board.cell((4, 6)), cell(Piece::Nil, Color::Nil, false));
}

#[test]
fn pawn_cannot_move_three_ranks() {
    let mut board = Board::new();
    let before = board.serialize();
    assert_eq!(board.make_move("E2", "E5"), Err(MoveError::IllegalMove));
    assert_eq!(board.serialize(), before);
}

#[test]
fn move_from_empty_cell() {
    let mut board = Board::new();
    let before = board.serialize();
    assert_eq!(board.make_move("A3", "A4"), Err(MoveError::EmptySource));
    assert_eq!(board.serialize(), before);
}

#[test]
fn pawn_captures_diagonally() {
    let mut board = Board::new();
    assert_eq!(board.make_move("E2", "E4"), Ok(()));
    assert_eq!(board.make_move("D7", "D5"), Ok(()));
    assert_eq!(board.cell((3, 3)), cell(Piece::Pawn, Color::Black, true));
    assert_eq!(board.make_move("E4", "D5"), Ok(()));
    assert_eq!(board.cell((3, 3)), cell(Piece::Pawn, Color::White, true));
    assert!(!board.has_piece((4, 4)));
    assert_eq!(board.pieces().len(), 31);
}

#[test]
fn malformed_notation() {
    let mut board = Board::new();
    let before = board.serialize();
    assert_eq!(board.make_move("Z9", "A1"), Err(MoveError::InvalidNotation));
    assert_eq!(board.make_move("E2", "E9"), Err(MoveError::InvalidNotation));
    assert_eq!(board.make_move("E", "E4"), Err(MoveError::InvalidNotation));
    assert_eq!(board.make_move("E2", "E44"), Err(MoveError::InvalidNotation));
    assert_eq!(board.make_move("", ""), Err(MoveError::InvalidNotation));
    assert_eq!(board.make_move("I2", "E4"), Err(MoveError::InvalidNotation));
    assert_eq!(board.make_move("E0", "E4"), Err(MoveError::InvalidNotation));
    assert_eq!(board.make_move("2E", "E4"), Err(MoveError::InvalidNotation));
    assert_eq!(board.serialize(), before);
}

#[test]
fn notation_is_case_insensitive() {
    let mut board = Board::new();
    assert_eq!(board.make_move("e2", "e4"), Ok(()));
    assert_eq!(board.cell((4, 4)), cell(Piece::Pawn, Color::White, true));
}

#[test]
fn moved_pawn_steps_one_rank_only() {
    let mut board = Board::new();
    assert_eq!(board.make_move("E2", "E3"), Ok(()));
    assert_eq!(board.make_move("E3", "E5"), Err(MoveError::IllegalMove));
    assert_eq!(board.make_move("E3", "E4"), Ok(()));
}

#[test]
fn pawn_does_not_step_onto_a_piece_nor_capture_air() {
    let mut board = board_with(&[
        ((4, 4), cell(Piece::Pawn, Color::White, false)),
        ((4, 3), cell(Piece::Pawn, Color::Black, false)),
    ]);
    assert_eq!(board.move_piece((4, 4), (4, 3)), Err(MoveError::IllegalMove));
    assert_eq!(board.move_piece((4, 4), (3, 3)), Err(MoveError::IllegalMove));
    assert_eq!(board.move_piece((4, 4), (4, 4)), Err(MoveError::IllegalMove));
}

#[test]
fn pawn_moves_are_not_symmetric() {
    let pawn = GamePiece { has_moved: false, piece_type: Piece::Pawn };
    let board = Board::new();
    assert!(board.validate_move((4, 6), (4, 4), &pawn));
    assert!(!board.validate_move((4, 4), (4, 6), &pawn));
    // Direction is not looked at: a pawn may capture backwards.
    assert!(board.validate_move((3, 5), (4, 6), &pawn));
}

#[test]
fn sliders_are_symmetric_and_jump() {
    let board = Board::new();
    for kind in [Piece::Rook, Piece::Bishop, Piece::Queen] {
        let piece = GamePiece { has_moved: false, piece_type: kind };
        for fx in 0..8 {
            for fy in 0..8 {
                for tx in 0..8 {
                    for ty in 0..8 {
                        assert_eq!(
                            board.validate_move((fx, fy), (tx, ty), &piece),
                            board.validate_move((tx, ty), (fx, fy), &piece)
                        );
                    }
                }
            }
        }
    }
    // No blocking: the rook passes over its own pawn and captures.
    let mut board = Board::new();
    assert_eq!(board.make_move("A1", "A8"), Ok(()));
    assert_eq!(board.cell((0, 0)), cell(Piece::Rook, Color::White, true));
    assert!(board.has_piece((0, 6)));
}

#[test]
fn rule_of_each_kind() {
    let board = board_with(&[]);
    let verdict = |kind: Piece, moved: bool, dx: usize, dy: usize| {
        let piece = GamePiece { has_moved: moved, piece_type: kind };
        board.validate_move((0, 0), (dx, dy), &piece)
    };
    for dx in 0..8 {
        for dy in 0..8 {
            let straight = (dx == 0) != (dy == 0);
            let diagonal = dx == dy && dx != 0;
            assert_eq!(verdict(Piece::Rook, false, dx, dy), straight);
            assert_eq!(verdict(Piece::Bishop, true, dx, dy), diagonal);
            assert_eq!(verdict(Piece::Queen, false, dx, dy), straight || diagonal);
            assert_eq!(
                verdict(Piece::Knight, false, dx, dy),
                (dx == 2 && dy == 1) || (dx == 1 && dy == 2)
            );
            let one_step = dx.max(dy) == 1;
            assert_eq!(verdict(Piece::King, false, dx, dy), one_step);
            assert_eq!(verdict(Piece::King, true, dx, dy), one_step);
            assert_eq!(verdict(Piece::Pawn, false, dx, dy), dx == 0 && (dy == 1 || dy == 2));
            assert_eq!(verdict(Piece::Pawn, true, dx, dy), dx == 0 && dy == 1);
            assert!(!verdict(Piece::Nil, false, dx, dy));
        }
    }
}

#[test]
fn queen_moves_along_a_rank() {
    let mut board = board_with(&[((3, 4), cell(Piece::Queen, Color::White, false))]);
    assert_eq!(board.move_piece((3, 4), (7, 4)), Ok(()));
    assert_eq!(board.cell((7, 4)), cell(Piece::Queen, Color::White, true));
    assert!(!board.has_piece((3, 4)));
}

#[test]
fn king_moves_one_step_only() {
    let mut board = board_with(&[((4, 4), cell(Piece::King, Color::Black, false))]);
    assert_eq!(board.move_piece((4, 4), (6, 5)), Err(MoveError::IllegalMove));
    assert_eq!(board.move_piece((4, 4), (4, 6)), Err(MoveError::IllegalMove));
    assert_eq!(board.move_piece((4, 4), (5, 5)), Ok(()));
    assert_eq!(board.move_piece((5, 5), (5, 4)), Ok(()));
    assert_eq!(board.cell((5, 4)), cell(Piece::King, Color::Black, true));
}

#[test]
fn capture_overwrites_whatever_stands_there() {
    // Sides are not looked at: a piece may capture one of its own.
    let mut board = Board::new();
    assert_eq!(board.make_move("B1", "D2"), Ok(()));
    assert_eq!(board.cell((3, 6)), cell(Piece::Knight, Color::White, true));
    assert_eq!(board.pieces().len(), 31);
}

#[test]
fn queries_leave_the_board_alone() {
    let mut board = Board::new();
    board.make_move("G1", "F3").unwrap();
    let before = board.serialize();
    for x in 0..8 {
        for y in 0..8 {
            let occupied = board.has_piece((x, y));
            let side = board.get_color((x, y));
            assert_eq!(occupied, side != Color::Nil);
            assert_eq!(board.has_piece((x, y)), occupied);
            assert_eq!(board.get_color((x, y)), side);
        }
    }
    assert_eq!(board.serialize(), before);
}

#[test]
fn pieces_are_listed_rank_by_rank() {
    let board = board_with(&[
        ((5, 2), cell(Piece::Rook, Color::White, true)),
        ((1, 2), cell(Piece::Pawn, Color::Black, false)),
        ((7, 0), cell(Piece::King, Color::Black, false)),
    ]);
    assert_eq!(
        board.pieces(),
        vec![(7, 0, Color::Black), (1, 2, Color::Black), (5, 2, Color::White)]
    );
}

#[test]
fn boards_are_made_of_consistent_cells_only() {
    let empty = cell(Piece::Nil, Color::Nil, false);
    let mut columns = vec![vec![empty; 8]; 8];
    assert!(Board::from_cells(&columns).is_some());
    columns[2][3] = cell(Piece::Nil, Color::White, false);
    assert!(Board::from_cells(&columns).is_none());
    columns[2][3] = cell(Piece::Pawn, Color::Nil, false);
    assert!(Board::from_cells(&columns).is_none());
    columns[2][3] = empty;
    columns[7].pop();
    assert!(Board::from_cells(&columns).is_none());
    columns.pop();
    assert!(Board::from_cells(&columns).is_none());
}

#[test]
fn a_copy_of_a_board_is_its_own() {
    let mut board = Board::new();
    let copy = board;
    board.make_move("E2", "E4").unwrap();
    assert!(copy.has_piece((4, 6)));
    assert!(!board.has_piece((4, 6)));
}
