//! A game as one player sees it: a board, the side of the player, and the
//! moves as they are typed or arrive, four characters such as `e2e4`.

use vstd::prelude::*;
use vstd::string::*;
use regex::Regex;
use crate::board::Board;
use crate::codec::{decode_outcome, encode_grid};
use crate::error::{DecodeError, MoveError};
use crate::grid::{cell_at, move_outcome, Grid};
use crate::notation::{coord_of, decode_coord};
use crate::piece::Color;
use crate::protocol::Message;
use crate::render::{board_text, Paint};
use crate::text::{byte_len, same_text};

verus! {

/// Whether the regular expression `pattern` matches somewhere in `text`;
/// `None` where `pattern` is no regular expression.
pub uninterp spec fn regex_is_match(pattern: Seq<char>, text: Seq<char>) -> Option<bool>;

/// The upper-case form of a text, as Unicode defines it.
pub uninterp spec fn uppercase_of(text: Seq<char>) -> Seq<char>;

/// `regex::Regex::new` on the pattern and `Regex::is_match` on the text.
/// The result is `None` where `Regex::new` refuses the pattern, and else
/// tells whether the pattern matches anywhere in the text; it depends on
/// the pattern and the text alone.
#[verifier::external_body]
fn pattern_matches(pattern: &str, text: &str) -> (found: Option<bool>)
    ensures
        found == regex_is_match(pattern@, text@),
{
    match Regex::new(pattern) {
        Ok(expression) => Some(expression.is_match(text)),
        Err(_) => None,
    }
}

/// `str::to_uppercase`: the upper-case equivalent of the text, which
/// depends on the text alone.
#[verifier::external_body]
fn to_uppercase(text: &str) -> (upper: String)
    ensures
        upper@ == uppercase_of(text@),
{
    text.to_uppercase()
}

/// The pattern of a move: two squares, each a file letter and a rank
/// digit.
pub open spec fn move_pattern() -> Seq<char> {
    "[A-H][1-8][A-H][1-8]"@
}

/// What a move of four characters comes to in a game of the side `mine`.
///
/// The first two characters name the source and the last two the
/// destination. Unless ownership is ignored, a piece of the other side is
/// not moved.
pub open spec fn spelled_outcome(g: Grid, mine: Color, text: Seq<char>, ignore_ownership: bool) -> Result<
    Grid,
    MoveError,
> {
    if text.len() != 4 || coord_of(text.subrange(0, 2)) is Err || coord_of(text.subrange(2, 4))
        is Err {
        Err(MoveError::InvalidNotation)
    } else {
        let from = coord_of(text.subrange(0, 2))->Ok_0;
        let to = coord_of(text.subrange(2, 4))->Ok_0;
        if !ignore_ownership && cell_at(g, from).occupied() && cell_at(g, from).color != mine {
            Err(MoveError::NotOwner)
        } else {
            move_outcome(g, from, to)
        }
    }
}

/// What a move as it was typed comes to. The text is put in upper case; it
/// must then be four bytes long and hold the pattern of a move.
pub open spec fn typed_outcome(g: Grid, mine: Color, notation: Seq<char>, ignore_ownership: bool) -> Result<
    Grid,
    MoveError,
> {
    let upper = uppercase_of(notation);
    if byte_len(upper) != 4 || regex_is_match(move_pattern(), upper) != Some(true) {
        Err(MoveError::InvalidNotation)
    } else {
        spelled_outcome(g, mine, upper, ignore_ownership)
    }
}

/// What the player's own turn comes to after a line of input.
#[derive(Clone, Copy, Debug, PartialEq, Eq, Structural)]
pub enum TurnStep {
    /// The player asked to leave: the other player is to be told goodbye.
    Quit,
    /// The move was made: the other player is to be told of it, and the
    /// turn is over.
    Played,
    /// The move was not made: the player is to be told why and asked
    /// again.
    Refused(MoveError),
}

/// What the other player's turn comes to after a message.
#[derive(Clone, Copy, Debug, PartialEq, Eq, Structural)]
pub enum PeerStep {
    /// The other player left.
    Quit,
    /// The other player's move was made, and the turn is over.
    Played,
    /// The other player's move was not made: a complaint is to be sent,
    /// and the next message awaited.
    Refused(MoveError),
    /// The message asks for nothing: the next message is awaited.
    Ignored,
}

/// Game
#[derive(Clone, Copy, Debug)]
pub struct Game {
    board: Board,
    my_color: Color,
}

impl Game {
    /// The cells of the game's board.
    pub closed spec fn view(&self) -> Grid {
        self.board@
    }

    /// The side of the player.
    pub closed spec fn side(&self) -> Color {
        self.my_color
    }

    /// Create a new game, on a board in the starting position.
    pub fn new(my_color: Color) -> (game: Game)
        ensures
            game@ == crate::grid::initial_grid(),
            game.side() == my_color,
    {
        Game { board: Board::new(), my_color }
    }

    /// Makes a move that is spelled as four characters, upper-case file
    /// letters included, such as `E2E4`.
    ///
    /// Fails with `InvalidNotation` unless the text is two squares, with
    /// `NotOwner` where the piece to move is not the player's and
    /// ownership is not ignored, and else as the board does. A failed move
    /// changes nothing.
    pub fn make_spelled_move(&mut self, text: &str, ignore_ownership: bool) -> (result: Result<
        (),
        MoveError,
    >)
        ensures
            final(self).side() == old(self).side(),
            match spelled_outcome(old(self)@, old(self).side(), text@, ignore_ownership) {
                Ok(grid) => result is Ok && final(self)@ == grid,
                Err(e) => result == Err::<(), MoveError>(e) && final(self)@ == old(self)@,
            },
    {
        if text.unicode_len() != 4 {
            return Err(MoveError::InvalidNotation);
        }
        let from = match decode_coord(text.substring_char(0, 2)) {
            Ok(coord) => coord,
            Err(_) => {
                return Err(MoveError::InvalidNotation);
            },
        };
        let to = match decode_coord(text.substring_char(2, 4)) {
            Ok(coord) => coord,
            Err(_) => {
                return Err(MoveError::InvalidNotation);
            },
        };
        if !ignore_ownership && self.board.has_piece(from) {
            let owner = self.board.get_color(from);
            if !same_color(owner, self.my_color) {
                return Err(MoveError::NotOwner);
            }
        }
        self.board.move_piece(from, to)
    }

    /// Make a move.
    ///
    /// `notation` is the standard chess move notation without piece names,
    /// e.g. `b6e6`, in either case. With `ignore_ownership` the move is made
    /// for whichever side the piece belongs to; without it only a piece of
    /// the player's side moves.
    pub fn make_move(&mut self, notation: &str, ignore_ownership: bool) -> (result: Result<
        (),
        MoveError,
    >)
        ensures
            final(self).side() == old(self).side(),
            match typed_outcome(old(self)@, old(self).side(), notation@, ignore_ownership) {
                Ok(grid) => result is Ok && final(self)@ == grid,
                Err(e) => result == Err::<(), MoveError>(e) && final(self)@ == old(self)@,
            },
    {
        let upper = to_uppercase(notation);
        if upper.as_str().len() != 4 {
            return Err(MoveError::InvalidNotation);
        }
        match pattern_matches("[A-H][1-8][A-H][1-8]", upper.as_str()) {
            Some(true) => self.make_spelled_move(upper.as_str(), ignore_ownership),
            _ => Err(MoveError::InvalidNotation),
        }
    }

    /// Serialize the game: the text of its board.
    pub fn serialize(&self) -> (text: String)
        ensures
            text@ == encode_grid(self@),
    {
        self.board.serialize()
    }

    /// Deserialize the game: replaces the board by the one that the text
    /// describes. A text that describes none is refused and changes
    /// nothing.
    pub fn deserialize(&mut self, serialized: &str) -> (result: Result<(), DecodeError>)
        ensures
            final(self).side() == old(self).side(),
            match decode_outcome(serialized@) {
                Ok(grid) => result is Ok && final(self)@ == grid,
                Err(e) => result == Err::<(), DecodeError>(e) && final(self)@ == old(self)@,
            },
    {
        match Board::deserialize(serialized) {
            Ok(board) => {
                self.board = board;
                Ok(())
            },
            Err(e) => Err(e),
        }
    }

    /// Puts a board in the place of the game's own.
    pub fn set_board(&mut self, board: Board)
        ensures
            final(self).side() == old(self).side(),
            final(self)@ == board@,
    {
        self.board = board;
    }

    /// A copy of the board.
    pub fn get_board(&self) -> (board: Board)
        ensures
            board@ == self@,
    {
        self.board
    }

    /// The printed form of the game: that of its board.
    pub fn to_string(&self) -> (text: String)
        ensures
            exists|shown: Seq<Paint>| shown.len() == 80 && text@ == board_text(self@, shown),
    {
        self.board.to_string()
    }

    /// Decides what a line of input means on the player's own turn: `exit`
    /// leaves the game, and anything else is tried as a move of the
    /// player's own pieces.
    pub fn my_turn(&mut self, input: &str) -> (step: TurnStep)
        ensures
            final(self).side() == old(self).side(),
            input@ == "exit"@ ==> step == TurnStep::Quit && final(self)@ == old(self)@,
            input@ != "exit"@ ==> match typed_outcome(old(self)@, old(self).side(), input@, false) {
                Ok(grid) => step == TurnStep::Played && final(self)@ == grid,
                Err(e) => step == TurnStep::Refused(e) && final(self)@ == old(self)@,
            },
    {
        if same_text(input, "exit") {
            return TurnStep::Quit;
        }
        match self.make_move(input, false) {
            Ok(_) => TurnStep::Played,
            Err(e) => TurnStep::Refused(e),
        }
    }

    /// Decides what a message means on the other player's turn: a goodbye
    /// ends the game, a move is tried whatever side its piece is of, and
    /// any other message is passed over.
    pub fn other_player_turn(&mut self, kind: Message, payload: &str) -> (step: PeerStep)
        ensures
            final(self).side() == old(self).side(),
            kind == Message::Bye ==> step == PeerStep::Quit && final(self)@ == old(self)@,
            kind == Message::MakeMove ==> match typed_outcome(
                old(self)@,
                old(self).side(),
                payload@,
                true,
            ) {
                Ok(grid) => step == PeerStep::Played && final(self)@ == grid,
                Err(e) => step == PeerStep::Refused(e) && final(self)@ == old(self)@,
            },
            kind != Message::Bye && kind != Message::MakeMove ==> step == PeerStep::Ignored
                && final(self)@ == old(self)@,
    {
        match kind {
            Message::Bye => PeerStep::Quit,
            Message::MakeMove => match self.make_move(payload, true) {
                Ok(_) => PeerStep::Played,
                Err(e) => PeerStep::Refused(e),
            },
            _ => PeerStep::Ignored,
        }
    }
}

/// Whether two sides are the same.
fn same_color(a: Color, b: Color) -> (same: bool)
    ensures
        same == (a == b),
{
    match (a, b) {
        (Color::Black, Color::Black) => true,
        (Color::White, Color::White) => true,
        (Color::Nil, Color::Nil) => true,
        _ => false,
    }
}

} // verus!
