use rust_chess::error::NotationError;
use rust_chess::notation::{
    decode_coord, letter_to_column, number_to_row, position_to_notation, to_upper,
};

#[test]
fn letters_are_columns() {
    let letters = ["A", "B", "C", "D", "E", "F", "G", "H"];
    for (column, letter) in letters.iter().enumerate() {
        assert_eq!(letter_to_column(letter), Ok(column));
    }
    for bad in ["", "I", "a", "h", "1", "AB", "@", "é"] {
        assert_eq!(letter_to_column(bad), Err(NotationError::UnknownColumn));
    }
}

#[test]
fn digits_are_rows() {
    assert_eq!(number_to_row("8"), Ok(0));
    assert_eq!(number_to_row("7"), Ok(1));
    assert_eq!(number_to_row("2"), Ok(6));
    assert_eq!(number_to_row("1"), Ok(7));
    for bad in ["", "0", "9", "A", "12", "+"] {
        assert_eq!(number_to_row(bad), Err(NotationError::UnknownRow));
    }
}

#[test]
fn coordinates_are_read() {
    assert_eq!(decode_coord("E2"), Ok((4, 6)));
    assert_eq!(decode_coord("e2"), Ok((4, 6)));
    assert_eq!(decode_coord("A8"), Ok((0, 0)));
    assert_eq!(decode_coord("H1"), Ok((7, 7)));
    assert_eq!(decode_coord("h8"), Ok((7, 0)));
    assert_eq!(decode_coord(""), Err(NotationError::WrongLength));
    assert_eq!(decode_coord("E"), Err(NotationError::WrongLength));
    assert_eq!(decode_coord("E22"), Err(NotationError::WrongLength));
    assert_eq!(decode_coord("Z9"), Err(NotationError::UnknownColumn));
    assert_eq!(decode_coord("I1"), Err(NotationError::UnknownColumn));
    assert_eq!(decode_coord("i1"), Err(NotationError::UnknownColumn));
    assert_eq!(decode_coord("A9"), Err(NotationError::UnknownRow));
    assert_eq!(decode_coord("A0"), Err(NotationError::UnknownRow));
    assert_eq!(decode_coord("AA"), Err(NotationError::UnknownRow));
}

#[test]
fn coordinates_are_written() {
    assert_eq!(position_to_notation((4, 6)), "E2");
    assert_eq!(position_to_notation((0, 0)), "A8");
    assert_eq!(position_to_notation((7, 7)), "H1");
    assert_eq!(position_to_notation((3, 3)), "D5");
}

#[test]
fn notation_round_trip() {
    for file in "ABCDEFGHabcdefgh".chars() {
        for rank in "12345678".chars() {
            let text = format!("{}{}", file, rank);
            let coord = decode_coord(&text).unwrap();
            assert!(coord.0 < 8 && coord.1 < 8);
            assert_eq!(position_to_notation(coord), text.to_ascii_uppercase());
        }
    }
    for x in 0..8 {
        for y in 0..8 {
            assert_eq!(decode_coord(&position_to_notation((x, y))), Ok((x, y)));
        }
    }
}

#[test]
fn upper_case_of_letters() {
    assert_eq!(to_upper('a'), 'A');
    assert_eq!(to_upper('z'), 'Z');
    assert_eq!(to_upper('H'), 'H');
    assert_eq!(to_upper('5'), '5');
    assert_eq!(to_upper('é'), 'é');
    assert_eq!(to_upper('{'), '{');
    assert_eq!(to_upper('`'), '`');
}
