//! The ways to reach the other player.
//!
//! A connection sends a message, waits for one, or asks whether one is
//! there. What a connection over a wire or a terminal does is for the
//! program to supply; this module holds the interface, the connection that
//! needs no wire, and the rule by which a line typed at the terminal
//! becomes a message.

use vstd::prelude::*;
use vstd::string::*;
use crate::protocol::Message;
use crate::text::{byte_len, same_text};

verus! {

/// Connection interface
pub trait Connection {
    /// What sending `message` over this connection may come to: the
    /// connection as it is afterwards, and whether the message went out.
    /// Each kind of connection says this of itself; one that says nothing
    /// leaves everything open.
    open spec fn sends(&self, message: Seq<char>, after: &Self, sent: bool) -> bool {
        true
    }

    /// Sends a message; tells whether it went out.
    fn send_message(&mut self, message: &str) -> (sent: bool)
        ensures
            old(self).sends(message@, final(self), sent),
    ;

    /// Blocks until a message arrives.
    fn wait_for_message(&mut self) -> Result<String, String>;

    /// The message that is there, without waiting.
    fn get_message(&self) -> Result<String, String>;
}

/// Echo connection
/// Doesn't do much.
#[derive(Clone, Copy, Debug)]
pub struct EchoConnection {}

/// The move with which the echo connection always answers.
pub open spec fn echo_reply() -> Seq<char> {
    "make_move e7e5"@
}

/// What a connection that polls nothing has to say.
pub open spec fn nothing() -> Seq<char> {
    "Nothing"@
}

impl EchoConnection {
    /// New connection
    pub fn new() -> (connection: Self)
        ensures
            connection == (EchoConnection {  }),
    {
        EchoConnection {  }
    }
}

impl Connection for EchoConnection {
    /// Every message goes out, and the connection is as it was.
    open spec fn sends(&self, message: Seq<char>, after: &Self, sent: bool) -> bool {
        sent && *after == *self
    }

    /// Accepts every message and drops it.
    fn send_message(&mut self, _message: &str) -> (sent: bool)
        ensures
            sent,
    {
        true
    }

    /// Always answers with the same move.
    fn wait_for_message(&mut self) -> (message: Result<String, String>)
        ensures
            message is Ok,
            message->Ok_0@ == echo_reply(),
    {
        Ok(String::from_str("make_move e7e5"))
    }

    /// Never has a message of its own.
    fn get_message(&self) -> (message: Result<String, String>)
        ensures
            message is Ok,
            message->Ok_0@ == nothing(),
    {
        Ok(String::from_str("Nothing"))
    }
}

/// Local player
#[derive(Clone, Copy, Debug)]
pub struct SelfConnection {}

/// The message that a line typed by the local player stands for: `exit`
/// says goodbye, a line of four bytes asks for a move, and any other line
/// is a bad message.
pub open spec fn typed_message(line: Seq<char>) -> Seq<char> {
    if line == "exit"@ {
        Message::Bye.spec_text()
    } else if byte_len(line) != 4 {
        Message::BadMessage.spec_text()
    } else {
        Message::MakeMove.spec_text() + seq![' '] + line
    }
}

impl SelfConnection {
    /// New connection
    pub fn new() -> (connection: SelfConnection)
        ensures
            connection == (SelfConnection {  }),
    {
        SelfConnection {  }
    }

    /// Ignore the message
    pub fn send_message(&mut self, _message: &str) -> (sent: bool)
        ensures
            sent,
    {
        true
    }

    /// Turns the line that the local player typed into the message that
    /// the other player would have sent.
    pub fn message_for(line: &str) -> (message: String)
        ensures
            message@ == typed_message(line@),
    {
        proof {
            reveal_strlit(" ");
        }
        if same_text(line, "exit") {
            Message::Bye.to_string()
        } else if line.len() != 4 {
            Message::BadMessage.to_string()
        } else {
            let mut message = Message::MakeMove.to_string();
            message.append(" ");
            message.append(line);
            message
        }
    }

    /// Never has a message of its own.
    pub fn get_message(&self) -> (message: Result<String, String>)
        ensures
            message is Ok,
            message->Ok_0@ == nothing(),
    {
        Ok(String::from_str("Nothing"))
    }
}

} // verus!
