use std::collections::HashMap;

use rust_chess::filter::Filterable;
use rust_chess::http::HttpSession;
use rust_chess::lobby::{Lobby, Player};

#[test]
fn places_at_the_server() {
    assert_eq!(HttpSession::join_url("http://localhost:8000"), "http://localhost:8000/clients");
    let mut session = HttpSession::new("http://localhost:8000", "lev", "/clients/3");
    assert_eq!(session.message_url(), "http://localhost:8000//clients/3/message");
    assert_eq!(session.poll_url(), "http://localhost:8000//clients/14");
    assert_eq!(session.leave_url(), "http://localhost:8000/clients/lev");
    // Nothing has been seen yet, so an empty message is no news.
    assert_eq!(session.accept(""), None);
    assert_eq!(session.accept("make_move e2e4"), Some(String::from("make_move e2e4")));
    assert_eq!(session.accept("make_move e2e4"), None);
    assert_eq!(session.accept("bye"), Some(String::from("bye")));
    assert_eq!(session.accept("make_move e2e4"), Some(String::from("make_move e2e4")));
    assert_eq!(session.leave_url(), "http://localhost:8000/clients/lev");
}

fn record(lobby: &Lobby, name: &str) -> (String, String, String, String) {
    let player = lobby.get(name).unwrap();
    (player.name, player.board, player.next_message, player.other_player)
}

fn text4(a: &str, b: &str, c: &str, d: &str) -> (String, String, String, String) {
    (a.to_string(), b.to_string(), c.to_string(), d.to_string())
}

#[test]
fn players_come_and_post() {
    let mut lobby = Lobby::new();
    assert!(!lobby.contains("one"));
    assert!(lobby.get("one").is_none());
    assert_eq!(lobby.message("one", "hi"), None);
    assert_eq!(lobby.update_board("one", "b"), None);
    lobby.enter("one");
    assert!(lobby.contains("one"));
    assert_eq!(record(&lobby, "one"), text4("one", "", "", ""));
    assert_eq!(lobby.message("one", "make_move e2e4"), Some(String::from("make_move e2e4")));
    assert_eq!(lobby.update_board("one", "board"), Some(String::from("board")));
    assert_eq!(record(&lobby, "one"), text4("one", "board", "make_move e2e4", ""));
    lobby.enter("two");
    assert_eq!(record(&lobby, "one"), text4("one", "board", "make_move e2e4", ""));
    // Who enters again starts afresh.
    lobby.enter("one");
    assert_eq!(record(&lobby, "one"), text4("one", "", "", ""));
    assert_eq!(record(&lobby, "two"), text4("two", "", "", ""));
    let fresh = Player::new("three");
    assert_eq!(fresh.duplicate().name, "three");
}

#[test]
fn players_find_each_other() {
    let mut lobby = Lobby::new();
    lobby.enter("one");
    // Nobody else is there, and a stranger finds nobody.
    assert!(lobby.find_buddy("one").is_none());
    assert!(lobby.find_buddy("nobody").is_none());
    lobby.enter("two");
    lobby.enter("three");
    let buddy = lobby.find_buddy("two").unwrap();
    assert!(buddy.name == "one" || buddy.name == "three");
    assert_eq!(buddy.other_player, "two");
    assert_eq!(record(&lobby, "two").3, buddy.name);
    assert_eq!(record(&lobby, &buddy.name).3, "two");
    let left = if buddy.name == "one" { "three" } else { "one" };
    assert_eq!(record(&lobby, left).3, "");
    // Everybody else is taken, so the last one finds nobody.
    assert!(lobby.find_buddy(left).is_none());
    assert_eq!(record(&lobby, left).3, "");
}

#[test]
fn a_value_that_passes_is_found() {
    let mut names: HashMap<u64, String> = HashMap::new();
    assert_eq!(names.get_filter(&|name: &String| name.len() == 3), None);
    names.insert(1, String::from("one"));
    names.insert(2, String::from("three"));
    names.insert(3, String::from("four"));
    assert_eq!(names.get_filter(&|name: &String| name.len() == 5), Some(String::from("three")));
    assert_eq!(names.get_filter(&|name: &String| name.len() == 6), None);
    let found = names.get_filter(&|name: &String| name.contains('o')).unwrap();
    assert!(found == "one" || found == "four");
    // What is found is a copy: the map keeps its values.
    assert_eq!(names.len(), 3);
    assert_eq!(names[&2], "three");
}
