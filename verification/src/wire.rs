//! How messages travel over a stream of bytes.
//!
//! A message is followed by a carriage return and a line feed. What is read
//! from the stream may carry zero characters, which fill the buffer it was
//! read into; they and the line ends are taken out before the message is
//! looked at.

use vstd::prelude::*;
use vstd::string::*;

verus! {

/// Whether a line end, a carriage return followed by a line feed, starts
/// at place `i` of the text.
pub open spec fn break_at(text: Seq<char>, i: int) -> bool {
    0 <= i && i + 1 < text.len() && text[i] == '\r' && text[i + 1] == '\n'
}

/// Whether the text holds a line end.
pub open spec fn holds_break(text: Seq<char>) -> bool {
    exists|i: int| break_at(text, i)
}

/// The message as it is sent: with a line end after it.
pub open spec fn framed(message: Seq<char>) -> Seq<char> {
    message + seq!['\r', '\n']
}

/// The text without its zero characters.
pub open spec fn without_nul(text: Seq<char>) -> Seq<char>
    decreases text.len(),
{
    if text.len() == 0 {
        text
    } else if text.last() == '\0' {
        without_nul(text.drop_last())
    } else {
        without_nul(text.drop_last()).push(text.last())
    }
}

/// The text without its line ends, taken out from left to right in one
/// pass.
pub open spec fn without_breaks(text: Seq<char>) -> Seq<char>
    decreases text.len(),
{
    if text.len() < 2 {
        text
    } else if text[0] == '\r' && text[1] == '\n' {
        without_breaks(text.skip(2))
    } else {
        seq![text[0]] + without_breaks(text.skip(1))
    }
}

/// The message that was received: what arrived, without zero characters
/// and then without line ends.
pub open spec fn unframed(raw: Seq<char>) -> Seq<char> {
    without_breaks(without_nul(raw))
}

/// Puts the line end after a message that is to be sent.
pub fn frame(message: &str) -> (data: String)
    ensures
        data@ == framed(message@),
{
    proof {
        reveal_strlit("\r\n");
    }
    let mut data = String::from_str(message);
    data.append("\r\n");
    assert(data@ =~= framed(message@));
    data
}

/// Whether what has arrived so far holds a line end, so that a whole
/// message is there.
pub fn is_complete(received: &str) -> (complete: bool)
    ensures
        complete == holds_break(received@),
{
    let n = received.unicode_len();
    if n < 2 {
        assert(forall|i: int| !break_at(received@, i));
        return false;
    }
    let mut i: usize = 0;
    while i + 1 < n
        invariant
            n == received@.len(),
            i + 1 <= n,
            forall|j: int| 0 <= j < i ==> !break_at(received@, j),
        decreases n - i,
    {
        if received.get_char(i) == '\r' && received.get_char(i + 1) == '\n' {
            assert(break_at(received@, i as int));
            return true;
        }
        i = i + 1;
    }
    assert(forall|j: int| !break_at(received@, j));
    false
}

/// Takes the zero characters out of a text.
fn strip_nul(text: &str) -> (clean: String)
    ensures
        clean@ == without_nul(text@),
{
    let n = text.unicode_len();
    let mut clean = String::new();
    let mut i: usize = 0;
    assert(text@.take(0) =~= Seq::<char>::empty());
    while i < n
        invariant
            i <= n,
            n == text@.len(),
            clean@ == without_nul(text@.take(i as int)),
        decreases n - i,
    {
        let c = text.get_char(i);
        proof {
            assert(text@.take(i + 1).drop_last() =~= text@.take(i as int));
            assert(text@.take(i + 1).last() == c);
        }
        if c != '\0' {
            let piece = text.substring_char(i, i + 1);
            assert(piece@ =~= seq![c]);
            clean.append(piece);
            assert(clean@ =~= without_nul(text@.take(i as int)).push(c));
        }
        i = i + 1;
    }
    assert(text@.take(n as int) =~= text@);
    clean
}

/// Takes the line ends out of a text.
fn strip_breaks(text: &str) -> (clean: String)
    ensures
        clean@ == without_breaks(text@),
{
    let n = text.unicode_len();
    let mut clean = String::new();
    let mut i: usize = 0;
    assert(text@.skip(0) =~= text@);
    while i < n
        invariant
            i <= n,
            n == text@.len(),
            clean@ + without_breaks(text@.skip(i as int)) == without_breaks(text@),
        decreases n - i,
    {
        let ghost rest = text@.skip(i as int);
        if i + 1 < n && text.get_char(i) == '\r' && text.get_char(i + 1) == '\n' {
            assert(rest.skip(2) =~= text@.skip(i + 2));
            i = i + 2;
        } else {
            let piece = text.substring_char(i, i + 1);
            assert(piece@ =~= seq![text@[i as int]]);
            proof {
                if rest.len() >= 2 {
                    assert(rest.skip(1) =~= text@.skip(i + 1));
                    assert(clean@ + piece@ + without_breaks(text@.skip(i + 1)) =~= clean@
                        + without_breaks(rest));
                } else {
                    assert(text@.skip(i + 1) =~= Seq::<char>::empty());
                    assert(clean@ + piece@ + without_breaks(text@.skip(i + 1)) =~= clean@
                        + without_breaks(rest));
                }
            }
            clean.append(piece);
            i = i + 1;
        }
    }
    assert(clean@ + without_breaks(text@.skip(n as int)) =~= clean@);
    clean
}

/// Recovers the message from what arrived: drops the zero characters, then
/// the line ends.
pub fn unframe(raw: &str) -> (message: String)
    ensures
        message@ == unframed(raw@),
{
    let clean = strip_nul(raw);
    strip_breaks(clean.as_str())
}

} // verus!
