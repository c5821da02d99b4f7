//! Parser states, line classification, and the errors a run can end with.
//!
//! A line is classified by the leading characters of its key: the line after
//! ANSI stripping and terminator trimming. The five recognized shapes are
//! mutually exclusive, so each key falls in exactly one class.

use vstd::prelude::*;
use vstd::string::StrSliceExecFns;
use crate::ansi::strip_ansi;
use crate::strutil::{is_prefix_of, trim_eol};

verus! {

/// The parser's position within the structure being rebuilt.
#[derive(Clone, Copy, PartialEq, Eq, Structural, Debug)]
pub enum State {
    Start,
    PatchHeader,
    FileHeader,
    HunkHead,
    HunkBodyDiff,
    HunkBodyTail,
}

/// What a run can fail with: bytes the strict decode policy rejects, a line
/// that fails every classification rule valid for the current state, or a
/// patch header whose first line lacks the commit prefix in commit-hash
/// output mode.
#[derive(Clone, Copy, PartialEq, Eq, Structural, Debug)]
pub enum ProcessError {
    InvalidUtf8 { line: usize },
    UnexpectedLine { line: usize, state: State },
    MissingCommitPrefix,
}

/// The shape of one classification key.
#[derive(Clone, Copy, PartialEq, Eq, Structural, Debug)]
pub enum LineClass {
    /// Starts with `commit `: opens a new patch.
    Commit,
    /// Starts with `diff --git`: opens a new file diff.
    File,
    /// Starts with `@@`: a hunk range header.
    HunkHeader,
    /// Starts with `+` or `-`: an added or removed line.
    Change,
    /// Starts with a space, is empty, or is the no-newline marker.
    Context,
    /// None of the above.
    Other,
}

/// The classification key of a raw line: the line with ANSI escapes stripped
/// and one trailing terminator removed.
pub open spec fn class_key(raw: Seq<char>) -> Seq<char> {
    trim_eol(strip_ansi(raw))
}

pub open spec fn is_commit_line(k: Seq<char>) -> bool {
    is_prefix_of("commit "@, k)
}

pub open spec fn is_file_line(k: Seq<char>) -> bool {
    is_prefix_of("diff --git"@, k)
}

pub open spec fn is_hunk_line(k: Seq<char>) -> bool {
    is_prefix_of("@@"@, k)
}

pub open spec fn is_change_line(k: Seq<char>) -> bool {
    is_prefix_of("+"@, k) || is_prefix_of("-"@, k)
}

pub open spec fn is_context_line(k: Seq<char>) -> bool {
    is_prefix_of(" "@, k) || k.len() == 0 || k == "\\ No newline at end of file"@
}

/// The class of a key. The five shapes are distinguished by their first
/// character (or by being empty), so the order of the tests is immaterial.
pub open spec fn classify_spec(k: Seq<char>) -> LineClass {
    if is_commit_line(k) {
        LineClass::Commit
    } else if is_file_line(k) {
        LineClass::File
    } else if is_hunk_line(k) {
        LineClass::HunkHeader
    } else if is_change_line(k) {
        LineClass::Change
    } else if is_context_line(k) {
        LineClass::Context
    } else {
        LineClass::Other
    }
}

/// Classify one key.
pub fn classify(key: &str) -> (c: LineClass)
    ensures
        c == classify_spec(key@),
{
    if crate::strutil::str_starts_with(key, "commit ") {
        LineClass::Commit
    } else if crate::strutil::str_starts_with(key, "diff --git") {
        LineClass::File
    } else if crate::strutil::str_starts_with(key, "@@") {
        LineClass::HunkHeader
    } else if crate::strutil::str_starts_with(key, "+") || crate::strutil::str_starts_with(key, "-") {
        LineClass::Change
    } else if crate::strutil::str_starts_with(key, " ") || key.unicode_len() == 0 || crate::strutil::str_eq(
        key,
        "\\ No newline at end of file",
    ) {
        LineClass::Context
    } else {
        LineClass::Other
    }
}

} // verus!
