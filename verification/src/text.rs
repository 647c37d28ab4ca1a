//! Item texts as sequences of characters: a position in a text counts
//! characters, and every character takes one cell.

use vstd::prelude::*;
use vstd::string::{StrSliceExecFns, StringExecFns};

verus! {

/// Calls `String::push`. Not proved, taken from the documentation of std:
/// the character is appended to the string, whose characters so far stay
/// as they are.
#[verifier::external_body]
fn push_char(buffer: &mut String, c: char)
    ensures
        final(buffer)@ == old(buffer)@.push(c),
{
    buffer.push(c);
}

/// The text with `c` put in before position `at`, or at the end where `at`
/// is the length or lies past it.
pub open spec fn with_char(text: Seq<char>, at: int, c: char) -> Seq<char> {
    if at >= text.len() {
        text.push(c)
    } else {
        text.insert(at, c)
    }
}

/// Puts `c` in before the character at position `at`; appends it where
/// there is no such character.
pub fn insert_char(buffer: &mut String, at: usize, c: char)
    ensures
        final(buffer)@ == with_char(old(buffer)@, at as int, c),
{
    let n = buffer.as_str().unicode_len();
    if at >= n {
        push_char(buffer, c);
    } else {
        let mut out = String::from_str(buffer.as_str().substring_char(0, at));
        push_char(&mut out, c);
        out.append(buffer.as_str().substring_char(at, n));
        *buffer = out;
    }
}

/// The text without the character at position `at`, and the text itself
/// where `at` is no position of it.
pub open spec fn without_char(text: Seq<char>, at: int) -> Seq<char> {
    if 0 <= at < text.len() {
        text.remove(at)
    } else {
        text
    }
}

/// Takes out the character at position `at`, if there is one.
pub fn remove_char(buffer: &mut String, at: usize)
    ensures
        final(buffer)@ == without_char(old(buffer)@, at as int),
{
    let n = buffer.as_str().unicode_len();
    if at < n {
        let mut out = String::from_str(buffer.as_str().substring_char(0, at));
        out.append(buffer.as_str().substring_char(at + 1, n));
        *buffer = out;
    }
}

/// What is shown in the cell at position `at` of a text: its character
/// there, and a blank past its end.
pub open spec fn cell_at(text: Seq<char>, at: int) -> Seq<char> {
    if 0 <= at < text.len() {
        seq![text[at]]
    } else {
        seq![' ']
    }
}

/// The one-character string shown in the cell at position `at`.
pub fn cell_text(buffer: &str, at: usize) -> (cell: String)
    ensures
        cell@ == cell_at(buffer@, at as int),
{
    let n = buffer.unicode_len();
    if at < n {
        let cell = String::from_str(buffer.substring_char(at, at + 1));
        cell
    } else {
        proof {
            reveal_strlit(" ");
        }
        let cell = String::from_str(" ");
        cell
    }
}

} // verus!
