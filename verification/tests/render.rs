use rust_chess::board::Board;
use rust_chess::piece::{Cell, Color, GamePiece, Piece};

fn plain_board() -> String {
    let mut text = String::new();
    text.push_str("8 R  N  B  Q  K  B  N  R \r\n\r\n");
    text.push_str("7 P  P  P  P  P  P  P  P \r\n\r\n");
    text.push_str("6                        \r\n\r\n");
    text.push_str("5                        \r\n\r\n");
    text.push_str("4                        \r\n\r\n");
    text.push_str("3                        \r\n\r\n");
    text.push_str("2 P  P  P  P  P  P  P  P \r\n\r\n");
    text.push_str("1 R  N  B  Q  K  B  N  R \r\n\r\n");
    text.push_str("  A  B  C  D  E  F  G  H ");
    text
}

fn tinted(text: &str, code: &str) -> String {
    format!("\u{1b}[{}m{}\u{1b}[0m", code, text)
}

#[test]
fn letters_of_the_kinds() {
    assert_eq!(Piece::Pawn.to_string(), "P");
    assert_eq!(Piece::Rook.to_string(), "R");
    assert_eq!(Piece::Knight.to_string(), "N");
    assert_eq!(Piece::Bishop.to_string(), "B");
    assert_eq!(Piece::Queen.to_string(), "Q");
    assert_eq!(Piece::King.to_string(), "K");
    assert_eq!(Piece::Nil.to_string(), " ");
    assert_eq!(GamePiece::new(Piece::Knight).to_string(), "N");
}

#[test]
fn board_without_colour() {
    colored::control::set_override(false);
    assert_eq!(Board::new().to_string(), plain_board());
    let mut board = Board::new();
    board.make_move("E2", "E4").unwrap();
    let text = board.to_string();
    let fourth = format!("4{} P {}\r\n\r\n", "   ".repeat(4), "   ".repeat(3));
    let second = format!("2{}   {}\r\n\r\n", " P ".repeat(4), " P ".repeat(3));
    assert!(text.contains(&fourth));
    assert!(text.contains(&second));
    assert_eq!(text.len(), plain_board().len());
}

#[test]
fn cells_in_colour() {
    colored::control::set_override(true);
    let white = Cell { piece: GamePiece::new(Piece::Queen), color: Color::White };
    let black = Cell { piece: GamePiece::new(Piece::King), color: Color::Black };
    let empty = Cell { piece: GamePiece::new(Piece::Nil), color: Color::Nil };
    assert_eq!(white.to_string(), tinted("Q", "37"));
    assert_eq!(black.to_string(), tinted("K", "31"));
    assert_eq!(empty.to_string(), " ");
    colored::control::set_override(false);
    assert_eq!(white.to_string(), "Q");
    assert_eq!(black.to_string(), "K");
}

#[test]
fn board_in_colour() {
    colored::control::set_override(true);
    let text = Board::new().to_string();
    let black_rank: String = ["R", "N", "B", "Q", "K", "B", "N", "R"]
        .iter()
        .map(|letter| format!(" {} ", tinted(letter, "31")))
        .collect();
    let white_pawns: String = (0..8).map(|_| format!(" {} ", tinted("P", "37"))).collect();
    let files: String = ["A", "B", "C", "D", "E", "F", "G", "H"]
        .iter()
        .map(|letter| format!(" {} ", tinted(letter, "34")))
        .collect();
    assert!(text.starts_with(&format!("{}{}\r\n\r\n", tinted("8", "34"), black_rank)));
    assert!(text.contains(&format!("{}{}\r\n\r\n", tinted("2", "34"), white_pawns)));
    assert!(text.contains(&format!("{}{}\r\n\r\n", tinted("5", "34"), "   ".repeat(8))));
    assert!(text.ends_with(&format!("\r\n\r\n {}", files)));
    colored::control::set_override(false);
}
