//! The byte-to-text normalization policy consulted on every line: fail on
//! invalid UTF-8, substitute replacement characters, or discard the line and
//! substitute a placeholder chosen so the parser takes a safe default
//! transition.

use vstd::prelude::*;
use vstd::utf8::{decode_utf8, valid_utf8};
use crate::classify::State;
use crate::config::UTF8Strategy;

verus! {

/// What String::from_utf8_lossy yields: the decoded characters when the bytes
/// are valid UTF-8, and otherwise the characters with each invalid sequence
/// replaced. The result depends on the bytes alone.
pub uninterp spec fn utf8_lossy(bytes: Seq<u8>) -> Seq<char>;

/// Relies on str::from_utf8: returns Ok exactly on valid UTF-8, and then
/// views the decoded characters.
#[verifier::external_body]
pub(crate) fn utf8_to_str<'a>(bytes: &'a [u8]) -> (r: Option<&'a str>)
    ensures
        valid_utf8(bytes@) ==> r is Some && r->0@ == decode_utf8(bytes@),
        !valid_utf8(bytes@) ==> r is None,
{
    core::str::from_utf8(bytes).ok()
}

/// Relies on String::from_utf8_lossy: a pure function of the bytes that
/// decodes valid UTF-8 unchanged.
#[verifier::external_body]
pub(crate) fn utf8_lossy_string(bytes: &[u8]) -> (r: String)
    ensures
        r@ == utf8_lossy(bytes@),
        valid_utf8(bytes@) ==> r@ == decode_utf8(bytes@),
{
    String::from_utf8_lossy(bytes).into_owned()
}

/// The text a raw line decodes to in state `st`, or `None` when the strict
/// policy rejects it. The skip placeholder is `+` right after a hunk range
/// header, so the line passes as an empty added line, and a single space
/// everywhere else, so it passes as a context line.
pub open spec fn decode_spec(strategy: UTF8Strategy, st: State, bytes: Seq<u8>) -> Option<Seq<char>> {
    if valid_utf8(bytes) {
        Some(decode_utf8(bytes))
    } else {
        match strategy {
            UTF8Strategy::Panic => None,
            UTF8Strategy::Lossy => Some(utf8_lossy(bytes)),
            UTF8Strategy::SkipLine => Some(
                if st is HunkHead {
                    "+"@
                } else {
                    " "@
                },
            ),
        }
    }
}

/// Decode one raw line under the configured policy.
pub fn decode_line(strategy: UTF8Strategy, st: State, bytes: &[u8]) -> (r: Option<String>)
    ensures
        match decode_spec(strategy, st, bytes@) {
            Some(s) => r is Some && r->0@ == s,
            None => r is None,
        },
{
    match strategy {
        UTF8Strategy::Panic => {
            match utf8_to_str(bytes) {
                Some(s) => Some(s.to_owned()),
                None => None,
            }
        },
        UTF8Strategy::Lossy => Some(utf8_lossy_string(bytes)),
        UTF8Strategy::SkipLine => {
            match utf8_to_str(bytes) {
                Some(s) => Some(s.to_owned()),
                None => {
                    let placeholder: &str = if let State::HunkHead = st {
                        "+"
                    } else {
                        " "
                    };
                    Some(placeholder.to_owned())
                },
            }
        },
    }
}

} // verus!
