//! The list of players at a matchmaking server, and how two of them find
//! each other.
//!
//! A player is known by a name that no other player has. Besides the name
//! the server keeps the player's board as it was last reported, the
//! message that the player posted last, and the name of the player they
//! are paired with, empty while they wait for one.

use vstd::prelude::*;
use vstd::string::*;
use crate::text::same_text;

verus! {

/// A connected client
#[derive(Debug)]
pub struct Player {
    /// Name of the client must be unique
    pub name: String,
    /// Serialized board
    pub board: String,
    /// Next message
    pub next_message: String,
    /// Other player
    pub other_player: String,
}

/// A player as a mathematical value.
pub struct PlayerView {
    pub name: Seq<char>,
    pub board: Seq<char>,
    pub next_message: Seq<char>,
    pub other_player: Seq<char>,
}

impl PlayerView {
    /// A player who has just joined: no board, no message, no partner.
    pub open spec fn fresh(name: Seq<char>) -> PlayerView {
        PlayerView {
            name,
            board: Seq::empty(),
            next_message: Seq::empty(),
            other_player: Seq::empty(),
        }
    }

    /// Whether the player can be paired with the player called `seeker`:
    /// it is someone else, and waits for a partner.
    pub open spec fn free_for(self, seeker: Seq<char>) -> bool {
        self.name != seeker && self.other_player.len() == 0
    }
}

impl View for Player {
    type V = PlayerView;

    open spec fn view(&self) -> PlayerView {
        PlayerView {
            name: self.name@,
            board: self.board@,
            next_message: self.next_message@,
            other_player: self.other_player@,
        }
    }
}

impl Player {
    /// A player who has just joined under `name`.
    pub fn new(name: &str) -> (player: Player)
        ensures
            player@ == PlayerView::fresh(name@),
    {
        Player {
            name: String::from_str(name),
            board: String::new(),
            next_message: String::new(),
            other_player: String::new(),
        }
    }

    /// A copy of the player.
    pub fn duplicate(&self) -> (copy: Player)
        ensures
            copy@ == self@,
    {
        Player {
            name: String::from_str(self.name.as_str()),
            board: String::from_str(self.board.as_str()),
            next_message: String::from_str(self.next_message.as_str()),
            other_player: String::from_str(self.other_player.as_str()),
        }
    }
}

/// The place of the player called `name` in a list, or the length of the
/// list where no player is called so.
pub open spec fn place_of(players: Seq<PlayerView>, name: Seq<char>) -> int
    decreases players.len(),
{
    if players.len() == 0 {
        0
    } else if players[0].name == name {
        0
    } else {
        1 + place_of(players.skip(1), name)
    }
}

/// Whether a player of the list is called `name`.
pub open spec fn known(players: Seq<PlayerView>, name: Seq<char>) -> bool {
    exists|i: int| 0 <= i < players.len() && #[trigger] players[i].name == name
}

/// No two players of the list have the same name.
pub open spec fn names_distinct(players: Seq<PlayerView>) -> bool {
    forall|i: int, j: int|
        0 <= i < j < players.len() ==> #[trigger] players[i].name != #[trigger] players[j].name
}

/// The list after the players in places `seeker` and `buddy` were paired:
/// each has the other's name for a partner.
pub open spec fn paired(players: Seq<PlayerView>, seeker: int, buddy: int) -> Seq<PlayerView> {
    players.update(
        buddy,
        PlayerView { other_player: players[seeker].name, ..players[buddy] },
    ).update(seeker, PlayerView { other_player: players[buddy].name, ..players[seeker] })
}

/// The players at a server.
#[derive(Debug)]
pub struct Lobby {
    players: Vec<Player>,
}

impl Lobby {
    /// The players, in the order in which they joined.
    pub closed spec fn view(&self) -> Seq<PlayerView> {
        self.players@.map_values(|p: Player| p@)
    }

    /// No two players of a lobby have the same name.
    #[verifier::type_invariant]
    pub closed spec fn wf(&self) -> bool {
        names_distinct(self@)
    }

    /// A lobby without players.
    pub fn new() -> (lobby: Lobby)
        ensures
            lobby@ == Seq::<PlayerView>::empty(),
    {
        let lobby = Lobby { players: Vec::new() };
        assert(lobby@ =~= Seq::<PlayerView>::empty());
        lobby
    }

    /// The place of the player called `name`.
    fn find(&self, name: &str) -> (place: Option<usize>)
        ensures
            names_distinct(self@),
            match place {
                Some(i) => i < self@.len() && self@[i as int].name == name@,
                None => !known(self@, name@),
            },
    {
        proof {
            use_type_invariant(self);
        }
        let mut i: usize = 0;
        while i < self.players.len()
            invariant
                i <= self.players.len(),
                self@.len() == self.players.len(),
                names_distinct(self@),
                forall|j: int| 0 <= j < i ==> self@[j].name != name@,
            decreases self.players.len() - i,
        {
            if same_text(self.players[i].name.as_str(), name) {
                return Some(i);
            }
            i = i + 1;
        }
        None
    }

    /// Whether a player called `name` is at the server.
    pub fn contains(&self, name: &str) -> (found: bool)
        ensures
            found == known(self@, name@),
    {
        self.find(name).is_some()
    }

    /// A copy of the record of the player called `name`.
    pub fn get(&self, name: &str) -> (player: Option<Player>)
        ensures
            player is Some <==> known(self@, name@),
            player is Some ==> self@.contains(player->0@) && player->0@.name == name@,
    {
        match self.find(name) {
            Some(i) => {
                let copy = self.players[i].duplicate();
                assert(self@[i as int] == copy@);
                Some(copy)
            },
            None => None,
        }
    }

    /// Lets a player in under `name`, with a fresh record. A player who was
    /// at the server under that name starts afresh in the same place.
    pub fn enter(&mut self, name: &str)
        ensures
            known(old(self)@, name@) ==> exists|i: int|
                0 <= i < old(self)@.len() && old(self)@[i].name == name@ && final(self)@ == old(
                    self,
                )@.update(i, PlayerView::fresh(name@)),
            !known(old(self)@, name@) ==> final(self)@ == old(self)@.push(
                PlayerView::fresh(name@),
            ),
    {
        let place = self.find(name);
        let ghost before = self@;
        let mut players = self.take();
        match place {
            Some(i) => {
                players[i] = Player::new(name);
                assert(players@.map_values(|p: Player| p@) =~= before.update(
                    i as int,
                    PlayerView::fresh(name@),
                ));
            },
            None => {
                players.push(Player::new(name));
                assert(players@.map_values(|p: Player| p@) =~= before.push(
                    PlayerView::fresh(name@),
                ));
            },
        }
        self.players = players;
    }

    /// Takes the players out of the lobby, to change one of them.
    fn take(&mut self) -> (players: Vec<Player>)
        ensures
            players@.map_values(|p: Player| p@) == old(self)@,
            names_distinct(old(self)@),
            final(self)@ == Seq::<PlayerView>::empty(),
    {
        proof {
            use_type_invariant(&*self);
        }
        let mut players: Vec<Player> = Vec::new();
        std::mem::swap(&mut players, &mut self.players);
        assert(self@ =~= Seq::<PlayerView>::empty());
        players
    }

    /// Records the message that the player called `client` posts, and
    /// hands it back. A player who is not at the server posts nothing.
    pub fn message(&mut self, client: &str, message: &str) -> (posted: Option<String>)
        ensures
            known(old(self)@, client@) ==> posted is Some && posted->0@ == message@ && exists|i: int|
                0 <= i < old(self)@.len() && old(self)@[i].name == client@ && final(self)@ == old(
                    self,
                )@.update(i, PlayerView { next_message: message@, ..old(self)@[i] }),
            !known(old(self)@, client@) ==> posted is None && final(self)@ == old(self)@,
    {
        match self.find(client) {
            Some(i) => {
                let ghost before = self@;
                let mut players = self.take();
                let mut player = players[i].duplicate();
                player.next_message = String::from_str(message);
                players[i] = player;
                assert(players@.map_values(|p: Player| p@) =~= before.update(
                    i as int,
                    PlayerView { next_message: message@, ..before[i as int] },
                ));
                self.players = players;
                Some(String::from_str(message))
            },
            None => None,
        }
    }

    /// Records the board that the player called `client` reports, and
    /// hands it back. A player who is not at the server reports nothing.
    pub fn update_board(&mut self, client: &str, board: &str) -> (reported: Option<String>)
        ensures
            known(old(self)@, client@) ==> reported is Some && reported->0@ == board@ && exists|
                i: int,
            |
                0 <= i < old(self)@.len() && old(self)@[i].name == client@ && final(self)@ == old(
                    self,
                )@.update(i, PlayerView { board: board@, ..old(self)@[i] }),
            !known(old(self)@, client@) ==> reported is None && final(self)@ == old(self)@,
    {
        match self.find(client) {
            Some(i) => {
                let ghost before = self@;
                let mut players = self.take();
                let mut player = players[i].duplicate();
                player.board = String::from_str(board);
                players[i] = player;
                assert(players@.map_values(|p: Player| p@) =~= before.update(
                    i as int,
                    PlayerView { board: board@, ..before[i as int] },
                ));
                self.players = players;
                Some(String::from_str(board))
            },
            None => None,
        }
    }

    /// The place of a player who can be paired with the player called
    /// `seeker`.
    fn find_free(&self, seeker: &str) -> (place: Option<usize>)
        ensures
            match place {
                Some(i) => i < self@.len() && self@[i as int].free_for(seeker@),
                None => forall|j: int| 0 <= j < self@.len() ==> !(#[trigger] self@[j]).free_for(
                    seeker@,
                ),
            },
    {
        let mut i: usize = 0;
        while i < self.players.len()
            invariant
                i <= self.players.len(),
                self@.len() == self.players.len(),
                forall|j: int| 0 <= j < i ==> !(#[trigger] self@[j]).free_for(seeker@),
            decreases self.players.len() - i,
        {
            let player = &self.players[i];
            assert(player@ == self@[i as int]);
            if !same_text(player.name.as_str(), seeker) && player.other_player.as_str().unicode_len()
                == 0 {
                return Some(i);
            }
            i = i + 1;
        }
        None
    }

    /// Pairs the player called `client` with a player who waits for a
    /// partner, and hands out that player's record as it is afterwards.
    ///
    /// Nothing happens, and nothing is handed out, where `client` is not
    /// at the server or no other player waits. Which of several waiting
    /// players is taken is not said.
    pub fn find_buddy(&mut self, client: &str) -> (buddy: Option<Player>)
        ensures
            buddy is Some <==> known(old(self)@, client@) && exists|j: int|
                0 <= j < old(self)@.len() && (#[trigger] old(self)@[j]).free_for(client@),
            buddy is None ==> final(self)@ == old(self)@,
            buddy is Some ==> exists|i: int, j: int|
                0 <= i < old(self)@.len() && 0 <= j < old(self)@.len() && old(self)@[i].name
                    == client@ && (#[trigger] old(self)@[j]).free_for(client@) && final(self)@
                    == #[trigger] paired(old(self)@, i, j) && buddy->0@ == final(self)@[j],
    {
        let seeker = match self.find(client) {
            Some(i) => i,
            None => {
                return None;
            },
        };
        let waiting = match self.find_free(client) {
            Some(j) => j,
            None => {
                return None;
            },
        };
        let ghost before = self@;
        let mut players = self.take();
        let mut buddy = players[waiting].duplicate();
        buddy.other_player = String::from_str(client);
        let handed = buddy.duplicate();
        let mut own = players[seeker].duplicate();
        own.other_player = String::from_str(buddy.name.as_str());
        players[waiting] = buddy;
        players[seeker] = own;
        assert(players@.map_values(|p: Player| p@) =~= paired(
            before,
            seeker as int,
            waiting as int,
        ));
        self.players = players;
        assert(before[waiting as int].free_for(client@));
        Some(handed)
    }
}

} // verus!
