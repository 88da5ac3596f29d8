//! A player's place at a matchmaking server: where to join, where to post
//! a message, where to look for the other player's, and how to tell a new
//! message from the one already seen.
//!
//! The requests themselves are for the program to make; this module says
//! where they go and what their answers mean.

use vstd::prelude::*;
use vstd::string::*;
use crate::text::same_text;

verus! {

/// A player's place at a matchmaking server.
#[derive(Debug)]
pub struct HttpSession {
    endpoint: String,
    name: String,
    location: String,
    previous_message: String,
    other_player: String,
}

/// The place at which the other player is looked for.
pub open spec fn other_place() -> Seq<char> {
    "/clients/14"@
}

/// Where players join: the list of clients of the server.
pub open spec fn join_address(endpoint: Seq<char>) -> Seq<char> {
    endpoint + "/clients"@
}

impl HttpSession {
    /// The address of the server.
    pub closed spec fn endpoint(&self) -> Seq<char> {
        self.endpoint@
    }

    /// The name under which the player joined.
    pub closed spec fn name(&self) -> Seq<char> {
        self.name@
    }

    /// The place that the server gave the player.
    pub closed spec fn location(&self) -> Seq<char> {
        self.location@
    }

    /// The last message that was taken from the other player.
    pub closed spec fn previous_message(&self) -> Seq<char> {
        self.previous_message@
    }

    /// The place of the other player.
    pub closed spec fn other_player(&self) -> Seq<char> {
        self.other_player@
    }

    /// Where a player joins the server at `endpoint`.
    pub fn join_url(endpoint: &str) -> (url: String)
        ensures
            url@ == join_address(endpoint@),
    {
        let mut url = String::from_str(endpoint);
        url.append("/clients");
        url
    }

    /// The session of a player who joined under `client_name` and was
    /// given the place `location`. No message has been seen yet.
    pub fn new(endpoint: &str, client_name: &str, location: &str) -> (session: HttpSession)
        ensures
            session.endpoint() == endpoint@,
            session.name() == client_name@,
            session.location() == location@,
            session.previous_message() == Seq::<char>::empty(),
            session.other_player() == other_place(),
    {
        HttpSession {
            endpoint: String::from_str(endpoint),
            name: String::from_str(client_name),
            location: String::from_str(location),
            previous_message: String::new(),
            other_player: String::from_str("/clients/14"),
        }
    }

    /// Where the player posts a message.
    pub fn message_url(&self) -> (url: String)
        ensures
            url@ == self.endpoint() + "/"@ + self.location() + "/message"@,
    {
        let mut url = String::from_str(self.endpoint.as_str());
        url.append("/");
        url.append(self.location.as_str());
        url.append("/message");
        url
    }

    /// Where the other player's next message is looked for.
    pub fn poll_url(&self) -> (url: String)
        ensures
            url@ == self.endpoint() + "/"@ + self.other_player(),
    {
        let mut url = String::from_str(self.endpoint.as_str());
        url.append("/");
        url.append(self.other_player.as_str());
        url
    }

    /// Where the player takes leave of the server.
    pub fn leave_url(&self) -> (url: String)
        ensures
            url@ == self.endpoint() + "/clients/"@ + self.name(),
    {
        let mut url = String::from_str(self.endpoint.as_str());
        url.append("/clients/");
        url.append(self.name.as_str());
        url
    }

    /// Looks at the message that the server shows for the other player.
    /// One that differs from the last one taken is new: it is remembered
    /// and handed out. The same one again is not news, and the player is to
    /// ask again later.
    pub fn accept(&mut self, message: &str) -> (news: Option<String>)
        ensures
            final(self).endpoint() == old(self).endpoint(),
            final(self).name() == old(self).name(),
            final(self).location() == old(self).location(),
            final(self).other_player() == old(self).other_player(),
            message@ != old(self).previous_message() ==> news is Some && news->0@ == message@
                && final(self).previous_message() == message@,
            message@ == old(self).previous_message() ==> news is None
                && final(self).previous_message() == message@,
    {
        if same_text(message, self.previous_message.as_str()) {
            None
        } else {
            self.previous_message = String::from_str(message);
            Some(String::from_str(message))
        }
    }
}

} // verus!
