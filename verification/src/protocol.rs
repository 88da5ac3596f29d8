//! The messages that two players send each other, and the patterns by
//! which an arriving message is recognised.
//!
//! A message is its header, followed for some kinds by a blank and a
//! payload: `hello <name>`, `bye`, `bad_msg`, `make_move <move>`.

use vstd::prelude::*;
use vstd::string::*;

verus! {

/// Message headers
#[derive(Clone, Copy, Debug, PartialEq, Eq, Structural)]
pub enum Message {
    Hello,
    Bye,
    BadMessage,
    MakeMove,
}

impl Message {
    /// The header as it is sent.
    pub open spec fn spec_text(self) -> Seq<char> {
        match self {
            Message::Hello => seq!['h', 'e', 'l', 'l', 'o'],
            Message::Bye => seq!['b', 'y', 'e'],
            Message::BadMessage => seq!['b', 'a', 'd', '_', 'm', 's', 'g'],
            Message::MakeMove => seq!['m', 'a', 'k', 'e', '_', 'm', 'o', 'v', 'e'],
        }
    }

    /// The header as it is sent, as a static text.
    pub fn as_str(&self) -> (text: &'static str)
        ensures
            text@ == self.spec_text(),
    {
        proof {
            reveal_strlit("hello");
            reveal_strlit("bye");
            reveal_strlit("bad_msg");
            reveal_strlit("make_move");
        }
        let text = match self {
            Message::Hello => "hello",
            Message::Bye => "bye",
            Message::BadMessage => "bad_msg",
            Message::MakeMove => "make_move",
        };
        assert(text@ =~= self.spec_text());
        text
    }

    /// The header as it is sent: `hello`, `bye`, `bad_msg` or `make_move`.
    pub fn to_string(&self) -> (text: String)
        ensures
            text@ == self.spec_text(),
    {
        String::from_str(self.as_str())
    }
}

/// Message Regex to match them when they arrive
/// over the pipe.
#[derive(Clone, Copy, Debug, PartialEq, Eq, Structural)]
pub enum MessageRegex {
    Hello,
    Bye,
    BadMessage,
    MakeMove,
}

impl MessageRegex {
    /// The kind of message that the pattern recognises.
    pub open spec fn message(self) -> Message {
        match self {
            MessageRegex::Hello => Message::Hello,
            MessageRegex::Bye => Message::Bye,
            MessageRegex::BadMessage => Message::BadMessage,
            MessageRegex::MakeMove => Message::MakeMove,
        }
    }

    /// What the pattern asks for after the header: a name of letters and
    /// digits after `hello`, a move between two squares at the end of the
    /// text after `make_move`, and the end of the text after the others.
    pub open spec fn tail(self) -> Seq<char> {
        match self {
            MessageRegex::Hello => " [A-Za-z0-9]+"@,
            MessageRegex::Bye => "$"@,
            MessageRegex::BadMessage => "$"@,
            MessageRegex::MakeMove => " [A-Ha-h][1-8][A-Ha-h][1-8]$"@,
        }
    }

    /// The pattern: the header of its message, then its tail.
    pub open spec fn spec_text(self) -> Seq<char> {
        self.message().spec_text() + self.tail()
    }

    /// The pattern as a regular expression. No pattern is tied to the start
    /// of the text.
    pub fn to_string(&self) -> (text: String)
        ensures
            text@ == self.spec_text(),
    {
        let (message, tail) = match self {
            MessageRegex::Hello => (Message::Hello, " [A-Za-z0-9]+"),
            MessageRegex::Bye => (Message::Bye, "$"),
            MessageRegex::BadMessage => (Message::BadMessage, "$"),
            MessageRegex::MakeMove => (Message::MakeMove, " [A-Ha-h][1-8][A-Ha-h][1-8]$"),
        };
        let mut text = message.to_string();
        text.append(tail);
        text
    }
}

} // verus!
