use rust_chess::drag::{on_drop, on_press, Press};
use rust_chess::mesh::{square_is_light, triangle_corners};

#[test]
fn squares_are_light_and_dark_in_turn() {
    assert!(square_is_light(0, 0));
    assert!(!square_is_light(0, 1));
    assert!(!square_is_light(1, 0));
    assert!(square_is_light(1, 1));
    assert!(square_is_light(7, 7));
    assert!(!square_is_light(7, 0));
    let light = (0..8).flat_map(|x| (0..8).map(move |y| (x, y))).filter(|&(x, y)| square_is_light(x, y));
    assert_eq!(light.count(), 32);
}

#[test]
fn squares_are_drawn_as_two_triangles() {
    assert_eq!(triangle_corners(0), Vec::<i32>::new());
    assert_eq!(triangle_corners(1), vec![0, 1, 2, 1, 3, 2]);
    assert_eq!(triangle_corners(2), vec![0, 1, 2, 1, 3, 2, 4, 5, 6, 5, 7, 6]);
    let board = triangle_corners(64);
    assert_eq!(board.len(), 384);
    assert_eq!(&board[378..], &[252, 253, 254, 253, 255, 254]);
}

#[test]
fn a_piece_is_picked_up_and_follows() {
    use_press(false, true, false, true, true, true);
    use_press(true, true, true, true, true, true);
    use_press(true, true, false, false, true, true);
    use_press(true, false, true, true, true, true);
    use_press(false, false, true, true, true, false);
    use_press(false, false, false, false, false, false);
    use_press(true, false, false, false, false, true);
}

fn use_press(dragging: bool, hovering: bool, held: bool, follow: bool, stop: bool, after: bool) {
    assert_eq!(on_press(dragging, hovering, held), Press { follow, stop, dragging: after });
}

#[test]
fn a_dropped_piece_asks_for_a_move() {
    assert_eq!(on_drop((4, 6), (4, 4)), Some(String::from("E2E4")));
    assert_eq!(on_drop((0, 0), (7, 7)), Some(String::from("A8H1")));
    assert_eq!(on_drop((3, 3), (3, 3)), Some(String::from("D5D5")));
    assert_eq!(on_drop((4, 6), (8, 4)), None);
    assert_eq!(on_drop((4, 6), (4, 8)), None);
    assert_eq!(on_drop((8, 0), (4, 4)), None);
    assert_eq!(on_drop((0, 9), (4, 4)), None);
}
