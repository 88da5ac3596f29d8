//! A player's end of a game between two: what it sends, and what it makes
//! of the messages that arrive.
//!
//! An arriving message is recognised by four regular expressions, tried
//! together. It is accepted when exactly one of them matches, and its kind
//! and payload follow from which one did.

use vstd::prelude::*;
use vstd::string::*;
use regex::RegexSet;
use crate::connection::Connection;
use crate::protocol::{Message, MessageRegex};
use crate::text::{has_prefix, starts_with};

verus! {

/// The indices, in ascending order, of the regular expressions among
/// `patterns` that match somewhere in `text`; `None` where some pattern is
/// no regular expression.
pub uninterp spec fn regex_set_matches(patterns: Seq<Seq<char>>, text: Seq<char>) -> Option<
    Seq<usize>,
>;

/// `regex::RegexSet::new` on the patterns, `RegexSet::matches` on the text
/// and the indices that the `SetMatches` hands out. The result is `None`
/// where `RegexSet::new` refuses the patterns, and else the indices of the
/// patterns that match, in ascending order; it depends on the patterns and
/// the text alone.
#[verifier::external_body]
fn matching_patterns(patterns: &Vec<String>, text: &str) -> (found: Option<Vec<usize>>)
    ensures
        match found {
            Some(indices) => regex_set_matches(patterns.deep_view(), text@) == Some(indices@),
            None => regex_set_matches(patterns.deep_view(), text@) is None,
        },
{
    match RegexSet::new(patterns) {
        Ok(set) => Some(set.matches(text).into_iter().collect()),
        Err(_) => None,
    }
}

/// The patterns by which a reply is recognised, in the order in which they
/// are tried: goodbye, move, greeting, complaint.
pub open spec fn reply_patterns() -> Seq<Seq<char>> {
    seq![
        MessageRegex::Bye.spec_text(),
        MessageRegex::MakeMove.spec_text(),
        MessageRegex::Hello.spec_text(),
        MessageRegex::BadMessage.spec_text(),
    ]
}

/// What is said of a message that is not understood.
pub open spec fn unknown_message(message: Seq<char>) -> Seq<char> {
    "Unknown message received: "@ + message
}

/// What a message means, given the patterns that matched it.
///
/// Exactly one pattern must have matched. A goodbye carries the payload
/// `exit`; a move carries what follows the first ten characters of the
/// message, a greeting what follows the first six; a complaint carries
/// nothing.
pub open spec fn reply_of(found: Option<Seq<usize>>, message: Seq<char>) -> Result<
    (Message, Seq<char>),
    Seq<char>,
> {
    if found is Some && found->0.len() == 1 {
        let which = found->0[0];
        if which == 0 {
            Ok((Message::Bye, "exit"@))
        } else if which == 1 && message.len() >= 10 {
            Ok((Message::MakeMove, message.skip(10)))
        } else if which == 2 && message.len() >= 6 {
            Ok((Message::Hello, message.skip(6)))
        } else if which == 3 {
            Ok((Message::BadMessage, Seq::empty()))
        } else {
            Err(unknown_message(message))
        }
    } else {
        Err(unknown_message(message))
    }
}

/// A reply as a mathematical value.
pub open spec fn reply_view(reply: Result<(Message, String), String>) -> Result<
    (Message, Seq<char>),
    Seq<char>,
> {
    match reply {
        Ok((kind, payload)) => Ok((kind, payload@)),
        Err(complaint) => Err(complaint@),
    }
}

/// What a player makes of the answer of its connection: a message that
/// arrived is read as a reply, and a failure of the connection is handed
/// on.
pub open spec fn arrival_outcome(arrived: Result<Seq<char>, Seq<char>>) -> Result<
    (Message, Seq<char>),
    Seq<char>,
> {
    match arrived {
        Ok(message) => reply_of(regex_set_matches(reply_patterns(), message), message),
        Err(complaint) => Err(complaint),
    }
}

/// The text of a message of the given kind: the header alone for a
/// goodbye, and else the header, a blank and the payload.
pub open spec fn composed(message: Message, payload: Seq<char>) -> Seq<char> {
    match message {
        Message::Bye => Message::Bye.spec_text(),
        _ => message.spec_text() + seq![' '] + payload,
    }
}

/// Writes a message of the given kind with its payload.
pub fn compose(message: Message, payload: &str) -> (contents: String)
    ensures
        contents@ == composed(message, payload@),
{
    proof {
        reveal_strlit(" ");
    }
    match message {
        Message::Bye => Message::Bye.to_string(),
        _ => {
            let mut contents = message.to_string();
            contents.append(" ");
            contents.append(payload);
            contents
        },
    }
}

/// What is said of a message that is not understood.
fn complaint_about(message: &str) -> (complaint: String)
    ensures
        complaint@ == unknown_message(message@),
{
    let mut complaint = String::from_str("Unknown message received: ");
    complaint.append(message);
    complaint
}

/// Decides what a message means, given the indices of the patterns of
/// [`reply_patterns`] that matched it.
pub fn interpret_reply(found: &Option<Vec<usize>>, message: &str) -> (reply: Result<
    (Message, String),
    String,
>)
    ensures
        reply_view(reply) == reply_of(
            match *found {
                Some(indices) => Some(indices@),
                None => None,
            },
            message@,
        ),
{
    let indices = match found {
        Some(indices) => indices,
        None => {
            return Err(complaint_about(message));
        },
    };
    if indices.len() != 1 {
        return Err(complaint_about(message));
    }
    let length = message.unicode_len();
    let which = indices[0];
    if which == 0 {
        Ok((Message::Bye, String::from_str("exit")))
    } else if which == 1 && length >= 10 {
        let payload = message.substring_char(10, length);
        assert(payload@ =~= message@.skip(10));
        Ok((Message::MakeMove, String::from_str(payload)))
    } else if which == 2 && length >= 6 {
        let payload = message.substring_char(6, length);
        assert(payload@ =~= message@.skip(6));
        Ok((Message::Hello, String::from_str(payload)))
    } else if which == 3 {
        Ok((Message::BadMessage, String::new()))
    } else {
        Err(complaint_about(message))
    }
}

/// The patterns by which a reply is recognised.
fn patterns() -> (list: Vec<String>)
    ensures
        list.deep_view() == reply_patterns(),
{
    let mut list: Vec<String> = Vec::new();
    list.push(MessageRegex::Bye.to_string());
    list.push(MessageRegex::MakeMove.to_string());
    list.push(MessageRegex::Hello.to_string());
    list.push(MessageRegex::BadMessage.to_string());
    assert(list.deep_view() =~= reply_patterns());
    list
}

/// Reads a message from the other player: tells its kind and its payload,
/// or complains that it is not understood.
pub fn read_reply(message: &str) -> (reply: Result<(Message, String), String>)
    ensures
        reply_view(reply) == reply_of(regex_set_matches(reply_patterns(), message@), message@),
{
    let list = patterns();
    let found = matching_patterns(&list, message);
    interpret_reply(&found, message)
}

/// The kinds of connection that an address can ask for.
#[derive(Clone, Copy, Debug, PartialEq, Eq, Structural)]
pub enum Transport {
    /// The connection that always answers with the same move.
    Echo,
    /// A stream to the address that follows `tcp://`.
    Tcp,
    /// A matchmaking server at the address, which starts with `http://`.
    Http,
    /// The terminal: both players sit at the same machine.
    Local,
}

/// The connection that a player asks for who joins a game at `server`.
pub open spec fn joining_transport(server: Seq<char>) -> Transport {
    if starts_with(server, "echo"@) {
        Transport::Echo
    } else if starts_with(server, "tcp://"@) {
        Transport::Tcp
    } else if starts_with(server, "http://"@) {
        Transport::Http
    } else {
        Transport::Local
    }
}

/// The connection that a player asks for who hosts a game at `address`.
pub open spec fn hosting_transport(address: Seq<char>) -> Transport {
    if starts_with(address, "tcp://"@) {
        Transport::Tcp
    } else {
        Transport::Echo
    }
}

impl Transport {
    /// Chooses the connection of a player who joins a game at `server`.
    pub fn to_join(server: &str) -> (transport: Transport)
        ensures
            transport == joining_transport(server@),
    {
        if has_prefix(server, "echo") {
            Transport::Echo
        } else if has_prefix(server, "tcp://") {
            Transport::Tcp
        } else if has_prefix(server, "http://") {
            Transport::Http
        } else {
            Transport::Local
        }
    }

    /// Chooses the connection of a player who hosts a game at `address`,
    /// such as `tcp://0.0.0.0:54345`.
    pub fn to_host(address: &str) -> (transport: Transport)
        ensures
            transport == hosting_transport(address@),
    {
        if has_prefix(address, "tcp://") {
            Transport::Tcp
        } else {
            Transport::Echo
        }
    }

    /// The address of a stream: what follows `tcp://`, where the text
    /// starts so.
    pub fn tcp_address(server: &str) -> (address: Option<&str>)
        ensures
            starts_with(server@, "tcp://"@) ==> address is Some && address->0@ == server@.skip(6),
            !starts_with(server@, "tcp://"@) ==> address is None,
    {
        proof {
            reveal_strlit("tcp://");
        }
        if has_prefix(server, "tcp://") {
            let address = server.substring_char(6, server.unicode_len());
            assert(address@ =~= server@.skip(6));
            Some(address)
        } else {
            None
        }
    }
}

/// Client
pub struct Client<C: Connection> {
    connection: C,
    pub host: bool,
    name: String,
}

impl<C: Connection> Client<C> {
    /// The connection over which the player talks.
    pub closed spec fn spec_connection(&self) -> C {
        self.connection
    }

    /// Whether the player hosts the game.
    pub closed spec fn spec_host(&self) -> bool {
        self.host
    }

    /// The name under which the player is known.
    pub closed spec fn spec_name(&self) -> Seq<char> {
        self.name@
    }

    /// A client that talks over the given connection. `host` says whether
    /// the player hosts the game, and so moves second.
    pub fn with_connection(connection: C, host: bool) -> (client: Client<C>)
        ensures
            client.spec_connection() == connection,
            client.spec_host() == host,
            client.spec_name() == Seq::<char>::empty(),
    {
        Client { connection, host, name: String::new() }
    }

    /// Send a message to the remote peer: the text that [`compose`] makes
    /// of the kind and the payload is sent over the connection. Whether it
    /// went out is for the connection to say, and is not reported.
    pub fn send_message(&mut self, message: Message, payload: &str)
        ensures
            final(self).spec_host() == old(self).spec_host(),
            final(self).spec_name() == old(self).spec_name(),
            exists|sent: bool|
                old(self).spec_connection().sends(
                    composed(message, payload@),
                    &final(self).spec_connection(),
                    sent,
                ),
    {
        let contents = compose(message, payload);
        let sent = self.connection.send_message(contents.as_str());
        assert(old(self).spec_connection().sends(
            composed(message, payload@),
            &self.spec_connection(),
            sent,
        ));
    }

    /// Wait for answer from peer and block until it arrives. A failure of
    /// the connection is handed on as it is.
    pub fn wait_for_message(&mut self) -> (reply: Result<(Message, String), String>)
        ensures
            final(self).spec_host() == old(self).spec_host(),
            final(self).spec_name() == old(self).spec_name(),
            exists|arrived: Result<Seq<char>, Seq<char>>|
                reply_view(reply) == arrival_outcome(arrived),
    {
        match self.connection.wait_for_message() {
            Ok(message) => {
                let reply = read_reply(message.as_str());
                assert(reply_view(reply) == arrival_outcome(Ok(message@)));
                reply
            },
            Err(complaint) => {
                assert(reply_view(Err(complaint)) == arrival_outcome(Err(complaint@)));
                Err(complaint)
            },
        }
    }

    /// Async wait_for_message (non-blocking): reads the message that the
    /// connection has at hand, if it has one. The client is not changed.
    pub fn get_message(&mut self) -> (reply: Result<(Message, String), String>)
        ensures
            *final(self) == *old(self),
            exists|arrived: Result<Seq<char>, Seq<char>>|
                reply_view(reply) == arrival_outcome(arrived),
    {
        match self.connection.get_message() {
            Ok(message) => {
                let reply = read_reply(message.as_str());
                assert(reply_view(reply) == arrival_outcome(Ok(message@)));
                reply
            },
            Err(_) => {
                let complaint = String::from_str("No message received yet.");
                assert(reply_view(Err(complaint)) == arrival_outcome(Err(complaint@)));
                Err(complaint)
            },
        }
    }

    /// Handles peer reply: tells the kind and the payload of a message, or
    /// complains that it is not understood. The client is not changed.
    pub fn handle_reply(&mut self, message: &str) -> (reply: Result<(Message, String), String>)
        ensures
            *final(self) == *old(self),
            reply_view(reply) == reply_of(regex_set_matches(reply_patterns(), message@), message@),
    {
        read_reply(message)
    }

    /// Gives the player a name.
    pub fn set_name(&mut self, name: &str)
        ensures
            final(self).spec_connection() == old(self).spec_connection(),
            final(self).spec_host() == old(self).spec_host(),
            final(self).spec_name() == name@,
    {
        self.name = String::from_str(name);
    }
}

} // verus!
