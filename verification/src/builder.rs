//! The patch builder's transition relation: what one classified line does to
//! the parser state and to the patch under construction. The executable side
//! lives in the pipeline, which steps this relation line by line.

use vstd::prelude::*;
use crate::classify::{class_key, classify_spec, is_commit_line, LineClass, State};
use crate::engine::has_commit_first;
use crate::model::PatchView;
use crate::strutil::lemma_prefix_through_trim;

verus! {

/// The effect of one line on the builder.
pub enum StepV {
    /// The line was folded into the current patch.
    Append(State, PatchView),
    /// The line is a commit marker: it completes the current patch and opens
    /// this fresh one.
    Boundary(PatchView),
    /// The line fails every classification rule valid for the current state.
    Reject,
}

/// One transition of the builder: the table of states against line classes.
pub open spec fn builder_step(st: State, p: PatchView, raw: Seq<char>) -> StepV {
    let c = classify_spec(class_key(raw));
    match st {
        State::Start => match c {
            LineClass::Commit => StepV::Boundary(PatchView::init(raw)),
            _ => StepV::Reject,
        },
        State::PatchHeader => match c {
            LineClass::File => StepV::Append(State::FileHeader, p.add_file(raw)),
            _ => StepV::Append(State::PatchHeader, p.push_header_line(raw)),
        },
        State::FileHeader => match c {
            LineClass::HunkHeader => StepV::Append(State::HunkHead, p.add_hunk(raw)),
            _ => StepV::Append(State::FileHeader, p.push_file_header_line(raw)),
        },
        State::HunkHead => match c {
            LineClass::Context => StepV::Append(State::HunkHead, p.push_context_head_line(raw)),
            LineClass::Change => StepV::Append(State::HunkBodyDiff, p.add_diff(raw)),
            _ => StepV::Reject,
        },
        State::HunkBodyDiff => match c {
            LineClass::Change => StepV::Append(State::HunkBodyDiff, p.push_diff_line(raw)),
            LineClass::Context => StepV::Append(State::HunkBodyTail, p.push_tail_line(raw)),
            LineClass::File => StepV::Append(State::FileHeader, p.add_file(raw)),
            LineClass::Commit => StepV::Boundary(PatchView::init(raw)),
            _ => StepV::Reject,
        },
        State::HunkBodyTail => match c {
            LineClass::Context => StepV::Append(State::HunkBodyTail, p.push_tail_line(raw)),
            LineClass::Change => StepV::Append(State::HunkBodyDiff, p.add_diff(raw)),
            LineClass::HunkHeader => StepV::Append(State::HunkHead, p.add_hunk(raw)),
            LineClass::File => StepV::Append(State::FileHeader, p.add_file(raw)),
            LineClass::Commit => StepV::Boundary(PatchView::init(raw)),
            _ => StepV::Reject,
        },
    }
}

/// What each state guarantees of the patch under construction: the pieces a
/// transition appends to are present, and the first header line carries the
/// commit prefix (after stripping), which commit-hash output relies on.
pub open spec fn state_inv(st: State, p: PatchView) -> bool {
    match st {
        State::Start => true,
        State::PatchHeader => has_commit_first(p),
        State::FileHeader => has_commit_first(p) && p.files.len() > 0,
        State::HunkHead => has_commit_first(p) && p.files.len() > 0 && p.files.last().hunks.len()
            > 0,
        State::HunkBodyDiff | State::HunkBodyTail => has_commit_first(p) && p.files.len() > 0
            && p.files.last().hunks.len() > 0 && p.files.last().hunks.last().diffs.len() > 0,
    }
}

/// A fresh patch opened by a commit-marker line carries the commit prefix.
pub proof fn lemma_init_inv(raw: Seq<char>)
    requires
        is_commit_line(class_key(raw)),
    ensures
        state_inv(State::PatchHeader, PatchView::init(raw)),
{
    lemma_prefix_through_trim("commit "@, crate::ansi::strip_ansi(raw));
}

/// Every transition keeps the state invariant.
pub proof fn lemma_step_preserves_inv(st: State, p: PatchView, raw: Seq<char>)
    requires
        state_inv(st, p),
    ensures
        builder_step(st, p, raw) matches StepV::Append(st2, p2) ==> state_inv(st2, p2),
        builder_step(st, p, raw) matches StepV::Boundary(p2) ==> state_inv(
            State::PatchHeader,
            p2,
        ),
{
    if classify_spec(class_key(raw)) is Commit {
        if st is Start || st is HunkBodyDiff || st is HunkBodyTail {
            lemma_init_inv(raw);
        }
    }
}

} // verus!
