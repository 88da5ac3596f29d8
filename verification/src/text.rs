//! Small operations on texts.

use vstd::prelude::*;
use vstd::string::*;
use vstd::utf8::encode_utf8;

verus! {

/// The length of a text in bytes, as the machine counts it.
pub open spec fn byte_len(text: Seq<char>) -> usize {
    encode_utf8(text).len() as usize
}

/// Whether a text begins with another.
pub open spec fn starts_with(text: Seq<char>, prefix: Seq<char>) -> bool {
    prefix.len() <= text.len() && text.subrange(0, prefix.len() as int) == prefix
}

/// The text without a last character that is `end`.
pub open spec fn without_last(text: Seq<char>, end: char) -> Seq<char> {
    if text.len() > 0 && text.last() == end {
        text.drop_last()
    } else {
        text
    }
}

/// A line as it was read, without the line end: without a line feed at
/// its end, and then without a carriage return at its end.
pub open spec fn without_line_end(line: Seq<char>) -> Seq<char> {
    without_last(without_last(line, '\n'), '\r')
}

/// Whether two texts are the same.
pub fn same_text(a: &str, b: &str) -> (same: bool)
    ensures
        same == (a@ == b@),
{
    let n = a.unicode_len();
    if n != b.unicode_len() {
        return false;
    }
    let mut i: usize = 0;
    while i < n
        invariant
            i <= n,
            n == a@.len(),
            n == b@.len(),
            forall|j: int| 0 <= j < i ==> a@[j] == b@[j],
        decreases n - i,
    {
        if a.get_char(i) != b.get_char(i) {
            return false;
        }
        i = i + 1;
    }
    assert(a@ =~= b@);
    true
}

/// Whether a text begins with another.
pub fn has_prefix(text: &str, prefix: &str) -> (found: bool)
    ensures
        found == starts_with(text@, prefix@),
{
    let n = prefix.unicode_len();
    if n > text.unicode_len() {
        return false;
    }
    let mut i: usize = 0;
    while i < n
        invariant
            i <= n,
            n == prefix@.len(),
            n <= text@.len(),
            forall|j: int| 0 <= j < i ==> text@[j] == prefix@[j],
        decreases n - i,
    {
        if text.get_char(i) != prefix.get_char(i) {
            assert(text@.subrange(0, n as int)[i as int] != prefix@[i as int]);
            return false;
        }
        i = i + 1;
    }
    assert(text@.subrange(0, n as int) =~= prefix@);
    true
}

/// Drops the last character of a text if it is `end`.
fn drop_last_if(text: &str, end: char) -> (rest: &str)
    ensures
        rest@ == without_last(text@, end),
{
    let n = text.unicode_len();
    if n > 0 && text.get_char(n - 1) == end {
        let rest = text.substring_char(0, n - 1);
        assert(rest@ =~= text@.drop_last());
        rest
    } else {
        text
    }
}

/// Takes the line end off a line that was read: a line feed, and a
/// carriage return before it, where they are there.
pub fn trim_line_end(line: &str) -> (trimmed: &str)
    ensures
        trimmed@ == without_line_end(line@),
{
    drop_last_if(drop_last_if(line, '\n'), '\r')
}

} // verus!
