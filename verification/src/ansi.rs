//! Removal of terminal color escape sequences, used to obtain the
//! classification key for a line while the original bytes stay untouched.

use vstd::prelude::*;

verus! {

/// The given characters with every ANSI escape sequence removed. The result
/// depends on the characters alone.
pub uninterp spec fn strip_ansi(s: Seq<char>) -> Seq<char>;

/// Relies on console::strip_ansi_codes: a pure function of the characters
/// that removes ANSI escape sequences, and returns its input unchanged when
/// no escape-introducing character (U+001B or U+009B) occurs in it.
#[verifier::external_body]
pub(crate) fn strip_ansi_exec(s: &str) -> (r: String)
    ensures
        r@ == strip_ansi(s@),
        (forall|i: int| 0 <= i < s@.len() ==> s@[i] != '\u{1b}' && s@[i] != '\u{9b}') ==> r@ == s@,
{
    console::strip_ansi_codes(s).into_owned()
}

} // verus!
