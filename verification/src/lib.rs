//! Chess for two players: the board and its rules, the notation of moves,
//! the text form of a board, and the messages that two players exchange.
//!
//! The board checks how each kind of piece moves and nothing more: it
//! knows no check, no castling, no promotion and no turns.

use vstd::prelude::*;

pub mod board;
pub mod client;
pub mod codec;
pub mod connection;
pub mod drag;
pub mod error;
pub mod filter;
pub mod game;
pub mod grid;
pub mod http;
pub mod laws;
pub mod lobby;
pub mod mesh;
pub mod notation;
pub mod piece;
pub mod protocol;
pub mod render;
pub mod rules;
pub mod text;
pub mod wire;

use crate::game::Game;
use crate::grid::initial_grid;
use crate::piece::Color;

verus! {

/// Sets the game up: a board in the starting position, for the player of
/// the white pieces.
pub fn init() -> (game: Game)
    ensures
        game@ == initial_grid(),
        game.side() == Color::White,
{
    Game::new(Color::White)
}

} // verus!
