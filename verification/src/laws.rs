//! Library-wide laws, each proved from the public contracts: how many emit
//! decisions a run takes, what disabled sections can never cause, what one
//! matching diff line forces, what commit-hash mode yields, and what the
//! placeholder decode policy loses.

use vstd::prelude::*;
use vstd::utf8::valid_utf8;
use crate::builder::{builder_step, lemma_step_preserves_inv, state_inv, StepV};
use crate::classify::{ProcessError, State};
use crate::config::{ConfigView, OutputConfig, PatchSections, UTF8Strategy};
use crate::decode::decode_spec;
use crate::engine::{
    chunk_matches, commit_token, concat_lines, diff_matches, emission, file_matches, has_commit_first,
    hunk_matches, patch_matches, render_file, render_hunks, render_output, render_sections,
};
use crate::model::{FileDiffView, PatchView};
use crate::pipeline::{init_machine, machine_step, process_spec, run, run_from, split_lines, MachineV};
use crate::strutil::seq_contains;

verus! {

// ---------------------------------------------------------------------------
// One emit decision per patch.
// ---------------------------------------------------------------------------

/// The boundary emissions taken so far trail the patches started by exactly
/// one — the patch still under construction — except before the first patch,
/// and the machine stands at the start exactly as long as no patch exists.
pub open spec fn counts_balanced(m: MachineV) -> bool {
    &&& if m.state is Start {
        m.patches == m.emits
    } else {
        m.patches == m.emits + 1
    }
    &&& m.state is Start ==> m.patches == 0
}

/// One machine step keeps the counters balanced.
proof fn lemma_step_counts(cfg: ConfigView, m: MachineV, bytes: Seq<u8>, n: usize)
    requires
        counts_balanced(m),
    ensures
        machine_step(cfg, m, bytes, n) matches Ok(m2) ==> counts_balanced(m2),
{
}

/// A whole run keeps the counters balanced.
proof fn lemma_run_counts(cfg: ConfigView, m: MachineV, lines: Seq<Seq<u8>>, next: usize)
    requires
        counts_balanced(m),
    ensures
        run_from(cfg, m, lines, next) matches Ok(m2) ==> counts_balanced(m2),
    decreases lines.len(),
{
    if lines.len() > 0 {
        lemma_step_counts(cfg, m, lines.first(), next);
        match machine_step(cfg, m, lines.first(), next) {
            Ok(m2) => {
                lemma_run_counts(cfg, m2, lines.drop_first(), (next + 1) as usize);
            },
            Err(_) => {},
        }
    }
}

/// A run that accepts its input takes exactly one emit decision per patch
/// started: one at each commit boundary after the first, and — whenever any
/// patch was started at all — exactly one trailing flush at end of input. No
/// trailing flush is attempted when no patch was ever started.
pub proof fn lemma_one_emission_per_patch(cfg: ConfigView, input: Seq<u8>)
    ensures
        run(cfg, split_lines(input)) matches Ok(m) ==> m.emits + (if m.state is Start {
            0nat
        } else {
            1nat
        }) == m.patches,
        run(cfg, split_lines(input)) matches Ok(m) ==> (m.state is Start <==> m.patches == 0),
{
    lemma_run_counts(cfg, init_machine(), split_lines(input), 1);
}

// ---------------------------------------------------------------------------
// Disabled sections never emit; no match means empty output.
// ---------------------------------------------------------------------------

/// A patch whose enabled sections nowhere contain the search string emits
/// nothing — never partial content — whatever its disabled sections hold.
pub proof fn lemma_no_match_no_emission(cfg: ConfigView, p: PatchView)
    requires
        !patch_matches(cfg.match_on, p, cfg.search_string),
    ensures
        emission(cfg, p) == Ok::<Seq<char>, ProcessError>(Seq::<char>::empty()),
{
}

/// With every match section disabled, no patch ever matches.
pub proof fn lemma_no_sections_no_match(p: PatchView, s: Seq<char>)
    ensures
        !patch_matches(PatchSections::none(), p, s),
{
    let m = PatchSections::none();
    assert forall|i: int| 0 <= i < p.files.len() implies !file_matches(m, #[trigger] p.files[i], s) by {
        let f = p.files[i];
        assert forall|j: int| 0 <= j < f.hunks.len() implies !hunk_matches(m, #[trigger] f.hunks[j], s) by {
            let h = f.hunks[j];
            assert forall|k: int| 0 <= k < h.diffs.len() implies !diff_matches(m, #[trigger] h.diffs[k], s) by {}
        }
    }
}

// ---------------------------------------------------------------------------
// One matching diff line prints the whole patch's configured sections.
// ---------------------------------------------------------------------------

/// A single diff line containing the search string, with diff matching
/// enabled, makes the whole patch match, so everything the print selection
/// covers is emitted — every enabled section of every hunk of every file, not
/// only the part that matched.
pub proof fn lemma_diff_line_match_emits_whole_patch(
    cfg: ConfigView,
    p: PatchView,
    fi: int,
    hi: int,
    di: int,
    li: int,
)
    requires
        cfg.match_on.diff,
        0 <= fi < p.files.len(),
        0 <= hi < p.files[fi].hunks.len(),
        0 <= di < p.files[fi].hunks[hi].diffs.len(),
        0 <= li < p.files[fi].hunks[hi].diffs[di].diff.len(),
        seq_contains(p.files[fi].hunks[hi].diffs[di].diff[li], cfg.search_string),
    ensures
        patch_matches(cfg.match_on, p, cfg.search_string),
        emission(cfg, p) == render_output(cfg.output, p),
        cfg.output matches OutputConfig::Sections(ps) ==> emission(cfg, p) == Ok::<
            Seq<char>,
            ProcessError,
        >(render_sections(ps, p)),
{
    let s = cfg.search_string;
    let d = p.files[fi].hunks[hi].diffs[di];
    assert(chunk_matches(d.diff, s));
    assert(diff_matches(cfg.match_on, d, s));
    assert(hunk_matches(cfg.match_on, p.files[fi].hunks[hi], s));
    assert(file_matches(cfg.match_on, p.files[fi], s));
}

// ---------------------------------------------------------------------------
// Commit-hash mode.
// ---------------------------------------------------------------------------

/// In commit-hash mode, a matched patch whose first header line carries the
/// commit prefix emits exactly the identifier token after that prefix.
pub proof fn lemma_commit_hash_emission(cfg: ConfigView, p: PatchView)
    requires
        cfg.output is CommitHash,
        patch_matches(cfg.match_on, p, cfg.search_string),
        has_commit_first(p),
    ensures
        emission(cfg, p) == Ok::<Seq<char>, ProcessError>(commit_token(p)),
{
}

/// One machine step keeps the builder's state invariant.
proof fn lemma_step_inv(cfg: ConfigView, m: MachineV, bytes: Seq<u8>, n: usize)
    requires
        state_inv(m.state, m.patch),
    ensures
        machine_step(cfg, m, bytes, n) matches Ok(m2) ==> state_inv(m2.state, m2.patch),
        machine_step(cfg, m, bytes, n) matches Err(e) ==> e is InvalidUtf8 || e is UnexpectedLine,
{
    match decode_spec(cfg.decode_strategy, m.state, bytes) {
        Some(raw) => {
            lemma_step_preserves_inv(m.state, m.patch, raw);
            if builder_step(m.state, m.patch, raw) is Boundary && !(m.state is Start) {
                assert(has_commit_first(m.patch));
                assert(emission(cfg, m.patch) is Ok);
            }
        },
        None => {},
    }
}

/// A whole run keeps the builder's state invariant, and can fail only on a
/// decode error or a structural violation — never at emission time.
proof fn lemma_run_inv(cfg: ConfigView, m: MachineV, lines: Seq<Seq<u8>>, next: usize)
    requires
        state_inv(m.state, m.patch),
    ensures
        run_from(cfg, m, lines, next) matches Ok(m2) ==> state_inv(m2.state, m2.patch),
        run_from(cfg, m, lines, next) matches Err(e) ==> e is InvalidUtf8 || e is UnexpectedLine,
    decreases lines.len(),
{
    if lines.len() > 0 {
        lemma_step_inv(cfg, m, lines.first(), next);
        match machine_step(cfg, m, lines.first(), next) {
            Ok(m2) => {
                lemma_run_inv(cfg, m2, lines.drop_first(), (next + 1) as usize);
            },
            Err(_) => {},
        }
    }
}

/// Every patch the pipeline completes carries the commit prefix on its first
/// header line, so emission itself never fails: a whole run can only fail on
/// invalid bytes under the strict decode policy or on an unclassifiable line.
pub proof fn lemma_emission_never_fails(cfg: ConfigView, input: Seq<u8>)
    ensures
        run(cfg, split_lines(input)) matches Ok(m) ==> state_inv(m.state, m.patch),
        process_spec(cfg, input) matches Err(e) ==> e is InvalidUtf8 || e is UnexpectedLine,
{
    lemma_run_inv(cfg, init_machine(), split_lines(input), 1);
}

// ---------------------------------------------------------------------------
// Empty structures and empty input.
// ---------------------------------------------------------------------------

/// A file diff with no hunks — a pure rename, say — contributes only its
/// header when printing, and can match only through its header: iterating its
/// hunks is a no-op, not an error.
pub proof fn lemma_hunkless_file(ps: PatchSections, m: PatchSections, f: FileDiffView, s: Seq<char>)
    requires
        f.hunks.len() == 0,
    ensures
        render_file(ps, f) == (if ps.file_header {
            concat_lines(f.file_header)
        } else {
            Seq::<char>::empty()
        }),
        file_matches(m, f, s) <==> (m.file_header && chunk_matches(f.file_header, s)),
{
    assert(render_hunks(ps, f.hunks) =~= Seq::<char>::empty());
    assert((if ps.file_header {
        concat_lines(f.file_header)
    } else {
        Seq::<char>::empty()
    }) + Seq::<char>::empty() =~= (if ps.file_header {
        concat_lines(f.file_header)
    } else {
        Seq::<char>::empty()
    }));
}

/// Empty input produces empty output and no error — and no emit decision at
/// all, since no patch was ever started.
pub proof fn lemma_empty_input_empty_output(cfg: ConfigView)
    ensures
        process_spec(cfg, Seq::empty()) == Ok::<Seq<char>, ProcessError>(Seq::<char>::empty()),
{
    assert(split_lines(Seq::empty()) =~= Seq::<Seq<u8>>::empty());
}

// ---------------------------------------------------------------------------
// The skip-with-placeholder policy.
// ---------------------------------------------------------------------------

/// Under skip-with-placeholder decoding, a line of invalid bytes becomes the
/// bare added-line placeholder where a hunk body was expected and a bare
/// context line everywhere else: its real content is permanently lost.
pub proof fn lemma_skip_placeholder(st: State, bytes: Seq<u8>)
    requires
        !valid_utf8(bytes),
    ensures
        decode_spec(UTF8Strategy::SkipLine, st, bytes) == Some(
            if st is HunkHead {
                "+"@
            } else {
                " "@
            },
        ),
{
}

/// No search string longer than one character can occur in either stored
/// placeholder, so a match that was only in the discarded line is never found.
pub proof fn lemma_placeholder_cannot_match(s: Seq<char>)
    requires
        s.len() > 1,
    ensures
        !seq_contains("+"@, s),
        !seq_contains(" "@, s),
{
    reveal_strlit("+");
    reveal_strlit(" ");
}

} // verus!
