//! The match-and-emit engine: given a built patch, decide whether any enabled
//! section contains the search string, and when one does, reproduce the
//! configured output — either the lines of the enabled print sections in
//! document order, or only the commit identifier.
//!
//! Matching is against each line as stored: the decoded text with its
//! terminator and any embedded color escape sequences kept, so escape bytes
//! are part of the literal content being searched. Emission reproduces the
//! same stored lines, so matched sections come out byte-for-byte.

use vstd::prelude::*;
use vstd::string::{StrSliceExecFns, StringExecFns};
use crate::ansi::{strip_ansi, strip_ansi_exec};
use crate::classify::ProcessError;
use crate::config::{Config, ConfigView, OutputConfig, PatchSections};
use crate::model::{Chunk, FileDiff, FileDiffView, Hunk, HunkDiffView, HunkDiffWithTail, HunkView, Patch, PatchView};
use crate::strutil::{is_prefix_of, seq_contains, str_contains, str_starts_with};

verus! {

// ---------------------------------------------------------------------------
// What it means for a patch to match.
// ---------------------------------------------------------------------------

/// Some line of the chunk contains `s` as a literal substring.
pub open spec fn chunk_matches(c: Seq<Seq<char>>, s: Seq<char>) -> bool {
    exists|i: int| 0 <= i < c.len() && seq_contains(#[trigger] c[i], s)
}

/// Some enabled part of the diff block contains `s`.
pub open spec fn diff_matches(m: PatchSections, d: HunkDiffView, s: Seq<char>) -> bool {
    (m.diff && chunk_matches(d.diff, s)) || (m.context && chunk_matches(d.context_tail, s))
}

/// Some enabled part of the hunk contains `s`. The range header and the
/// leading context count as context.
pub open spec fn hunk_matches(m: PatchSections, h: HunkView, s: Seq<char>) -> bool {
    ||| m.context && (seq_contains(h.header, s) || chunk_matches(h.context_head, s))
    ||| exists|i: int| 0 <= i < h.diffs.len() && diff_matches(m, #[trigger] h.diffs[i], s)
}

/// Some enabled part of the file diff contains `s`.
pub open spec fn file_matches(m: PatchSections, f: FileDiffView, s: Seq<char>) -> bool {
    ||| m.file_header && chunk_matches(f.file_header, s)
    ||| exists|i: int| 0 <= i < f.hunks.len() && hunk_matches(m, #[trigger] f.hunks[i], s)
}

/// Some line of a section enabled in `m` contains `s`.
pub open spec fn patch_matches(m: PatchSections, p: PatchView, s: Seq<char>) -> bool {
    ||| m.patch_header && chunk_matches(p.patch_header, s)
    ||| exists|i: int| 0 <= i < p.files.len() && file_matches(m, #[trigger] p.files[i], s)
}

// ---------------------------------------------------------------------------
// What the output of a matched patch is.
// ---------------------------------------------------------------------------

/// The lines of a chunk, concatenated in order.
pub open spec fn concat_lines(c: Seq<Seq<char>>) -> Seq<char>
    decreases c.len(),
{
    if c.len() == 0 {
        Seq::empty()
    } else {
        concat_lines(c.drop_last()) + c.last()
    }
}

/// The enabled parts of one diff block, in document order.
pub open spec fn render_diff(ps: PatchSections, d: HunkDiffView) -> Seq<char> {
    (if ps.diff {
        concat_lines(d.diff)
    } else {
        Seq::empty()
    }) + (if ps.context {
        concat_lines(d.context_tail)
    } else {
        Seq::empty()
    })
}

pub open spec fn render_diffs(ps: PatchSections, ds: Seq<HunkDiffView>) -> Seq<char>
    decreases ds.len(),
{
    if ds.len() == 0 {
        Seq::empty()
    } else {
        render_diffs(ps, ds.drop_last()) + render_diff(ps, ds.last())
    }
}

/// The enabled parts of one hunk: its range header and leading context when
/// context printing is on, then its diff blocks.
pub open spec fn render_hunk(ps: PatchSections, h: HunkView) -> Seq<char> {
    (if ps.context {
        h.header + concat_lines(h.context_head)
    } else {
        Seq::empty()
    }) + render_diffs(ps, h.diffs)
}

pub open spec fn render_hunks(ps: PatchSections, hs: Seq<HunkView>) -> Seq<char>
    decreases hs.len(),
{
    if hs.len() == 0 {
        Seq::empty()
    } else {
        render_hunks(ps, hs.drop_last()) + render_hunk(ps, hs.last())
    }
}

/// The enabled parts of one file diff.
pub open spec fn render_file(ps: PatchSections, f: FileDiffView) -> Seq<char> {
    (if ps.file_header {
        concat_lines(f.file_header)
    } else {
        Seq::empty()
    }) + render_hunks(ps, f.hunks)
}

pub open spec fn render_files(ps: PatchSections, fs: Seq<FileDiffView>) -> Seq<char>
    decreases fs.len(),
{
    if fs.len() == 0 {
        Seq::empty()
    } else {
        render_files(ps, fs.drop_last()) + render_file(ps, fs.last())
    }
}

/// Every line of every enabled print section of the patch, in document order.
pub open spec fn render_sections(ps: PatchSections, p: PatchView) -> Seq<char> {
    (if ps.patch_header {
        concat_lines(p.patch_header)
    } else {
        Seq::empty()
    }) + render_files(ps, p.files)
}

/// The first patch-header line, after ANSI stripping, starts with the commit
/// prefix.
pub open spec fn has_commit_first(p: PatchView) -> bool {
    p.patch_header.len() > 0 && is_prefix_of("commit "@, strip_ansi(p.patch_header[0]))
}

/// The identifier token after the commit prefix on the stripped first
/// patch-header line, with the line's terminator still attached.
pub open spec fn commit_token(p: PatchView) -> Seq<char>
    recommends
        has_commit_first(p),
{
    strip_ansi(p.patch_header[0]).skip("commit "@.len() as int)
}

/// What a matched patch prints: the enabled sections, or the commit token;
/// the latter is a structural violation when the commit prefix is absent.
pub open spec fn render_output(o: OutputConfig, p: PatchView) -> Result<Seq<char>, ProcessError> {
    match o {
        OutputConfig::Sections(ps) => Ok(render_sections(ps, p)),
        OutputConfig::CommitHash => if has_commit_first(p) {
            Ok(commit_token(p))
        } else {
            Err(ProcessError::MissingCommitPrefix)
        },
    }
}

/// The engine's full contract: a matched patch prints its configured output
/// exactly once; an unmatched patch prints nothing.
pub open spec fn emission(cfg: ConfigView, p: PatchView) -> Result<Seq<char>, ProcessError> {
    if patch_matches(cfg.match_on, p, cfg.search_string) {
        render_output(cfg.output, p)
    } else {
        Ok(Seq::empty())
    }
}

/// A `Result` of owned text, as a mathematical value.
pub open spec fn res_view(r: Result<String, ProcessError>) -> Result<Seq<char>, ProcessError> {
    match r {
        Ok(s) => Ok(s@),
        Err(e) => Err(e),
    }
}

// ---------------------------------------------------------------------------
// The executable engine.
// ---------------------------------------------------------------------------

/// Some line of `c` contains `s`.
pub fn chunk_contains(c: &Chunk, s: &str) -> (r: bool)
    ensures
        r == chunk_matches(c@, s@),
{
    let n = c.lines.len();
    let mut i: usize = 0;
    while i < n
        invariant
            n == c.lines.len(),
            i <= n,
            forall|j: int| 0 <= j < i ==> !seq_contains(#[trigger] c@[j], s@),
        decreases n - i,
    {
        if str_contains(c.lines[i].as_str(), s) {
            proof {
                assert(seq_contains(c@[i as int], s@));
            }
            return true;
        }
        i += 1;
    }
    false
}

/// Some enabled part of `d` contains `s`.
pub fn diff_block_contains(m: PatchSections, d: &HunkDiffWithTail, s: &str) -> (r: bool)
    ensures
        r == diff_matches(m, d@, s@),
{
    (m.diff && chunk_contains(&d.diff, s)) || (m.context && chunk_contains(&d.context_tail, s))
}

/// Some enabled part of `h` contains `s`.
pub fn hunk_contains(m: PatchSections, h: &Hunk, s: &str) -> (r: bool)
    ensures
        r == hunk_matches(m, h@, s@),
{
    if m.context && (str_contains(h.header.as_str(), s) || chunk_contains(&h.context_head, s)) {
        return true;
    }
    let n = h.diffs.len();
    let mut i: usize = 0;
    while i < n
        invariant
            n == h.diffs.len(),
            i <= n,
            !(m.context && (seq_contains(h@.header, s@) || chunk_matches(h@.context_head, s@))),
            forall|j: int| 0 <= j < i ==> !diff_matches(m, #[trigger] h@.diffs[j], s@),
        decreases n - i,
    {
        if diff_block_contains(m, &h.diffs[i], s) {
            proof {
                assert(diff_matches(m, h@.diffs[i as int], s@));
            }
            return true;
        }
        i += 1;
    }
    false
}

/// Some enabled part of `f` contains `s`.
pub fn file_contains(m: PatchSections, f: &FileDiff, s: &str) -> (r: bool)
    ensures
        r == file_matches(m, f@, s@),
{
    if m.file_header && chunk_contains(&f.file_header, s) {
        return true;
    }
    let n = f.hunks.len();
    let mut i: usize = 0;
    while i < n
        invariant
            n == f.hunks.len(),
            i <= n,
            !(m.file_header && chunk_matches(f@.file_header, s@)),
            forall|j: int| 0 <= j < i ==> !hunk_matches(m, #[trigger] f@.hunks[j], s@),
        decreases n - i,
    {
        if hunk_contains(m, &f.hunks[i], s) {
            proof {
                assert(hunk_matches(m, f@.hunks[i as int], s@));
            }
            return true;
        }
        i += 1;
    }
    false
}

/// Some line of a section of `p` enabled in `m` contains `s`.
pub fn patch_contains(m: PatchSections, p: &Patch, s: &str) -> (r: bool)
    ensures
        r == patch_matches(m, p@, s@),
{
    if m.patch_header && chunk_contains(&p.patch_header, s) {
        return true;
    }
    let n = p.files.len();
    let mut i: usize = 0;
    while i < n
        invariant
            n == p.files.len(),
            i <= n,
            !(m.patch_header && chunk_matches(p@.patch_header, s@)),
            forall|j: int| 0 <= j < i ==> !file_matches(m, #[trigger] p@.files[j], s@),
        decreases n - i,
    {
        if file_contains(m, &p.files[i], s) {
            proof {
                assert(file_matches(m, p@.files[i as int], s@));
            }
            return true;
        }
        i += 1;
    }
    false
}

/// Append every line of `c` to `out`.
fn append_chunk(out: &mut String, c: &Chunk)
    ensures
        final(out)@ == old(out)@ + concat_lines(c@),
{
    let ghost base = old(out)@;
    let n = c.lines.len();
    let mut i: usize = 0;
    while i < n
        invariant
            n == c.lines.len(),
            i <= n,
            out@ == base + concat_lines(c@.take(i as int)),
        decreases n - i,
    {
        out.append(c.lines[i].as_str());
        proof {
            assert(c@.take(i + 1).drop_last() =~= c@.take(i as int));
            assert(out@ =~= base + concat_lines(c@.take(i + 1)));
        }
        i += 1;
    }
    proof {
        assert(c@.take(n as int) =~= c@);
    }
}

/// Append the enabled parts of one hunk to `out`.
fn append_hunk(out: &mut String, ps: PatchSections, h: &Hunk)
    ensures
        final(out)@ == old(out)@ + render_hunk(ps, h@),
{
    let ghost base = old(out)@;
    if ps.context {
        out.append(h.header.as_str());
        append_chunk(out, &h.context_head);
    }
    let ghost head = out@;
    proof {
        assert(head =~= base + (if ps.context {
            h@.header + concat_lines(h@.context_head)
        } else {
            Seq::empty()
        }));
    }
    let n = h.diffs.len();
    let mut i: usize = 0;
    while i < n
        invariant
            n == h.diffs.len(),
            i <= n,
            out@ == head + render_diffs(ps, h@.diffs.take(i as int)),
        decreases n - i,
    {
        let d = &h.diffs[i];
        if ps.diff {
            append_chunk(out, &d.diff);
        }
        if ps.context {
            append_chunk(out, &d.context_tail);
        }
        proof {
            assert(h@.diffs.take(i + 1).drop_last() =~= h@.diffs.take(i as int));
            assert(h@.diffs[i as int] == d@);
            assert(out@ =~= head + render_diffs(ps, h@.diffs.take(i + 1)));
        }
        i += 1;
    }
    proof {
        assert(h@.diffs.take(n as int) =~= h@.diffs);
        assert(out@ =~= base + render_hunk(ps, h@));
    }
}

/// Append the enabled parts of one file diff to `out`.
fn append_file(out: &mut String, ps: PatchSections, f: &FileDiff)
    ensures
        final(out)@ == old(out)@ + render_file(ps, f@),
{
    let ghost base = old(out)@;
    if ps.file_header {
        append_chunk(out, &f.file_header);
    }
    let ghost head = out@;
    proof {
        assert(head =~= base + (if ps.file_header {
            concat_lines(f@.file_header)
        } else {
            Seq::empty()
        }));
    }
    let n = f.hunks.len();
    let mut i: usize = 0;
    while i < n
        invariant
            n == f.hunks.len(),
            i <= n,
            out@ == head + render_hunks(ps, f@.hunks.take(i as int)),
        decreases n - i,
    {
        append_hunk(out, ps, &f.hunks[i]);
        proof {
            assert(f@.hunks.take(i + 1).drop_last() =~= f@.hunks.take(i as int));
            assert(out@ =~= head + render_hunks(ps, f@.hunks.take(i + 1)));
        }
        i += 1;
    }
    proof {
        assert(f@.hunks.take(n as int) =~= f@.hunks);
        assert(out@ =~= base + render_file(ps, f@));
    }
}

/// Produce the configured output for a patch that matched: the lines of every
/// enabled print section in document order, or the commit identifier alone.
pub fn print_patch(output: &OutputConfig, patch: &Patch) -> (r: Result<String, ProcessError>)
    ensures
        res_view(r) == render_output(*output, patch@),
{
    match output {
        OutputConfig::CommitHash => {
            if patch.patch_header.lines.len() == 0 {
                return Err(ProcessError::MissingCommitPrefix);
            }
            let stripped = strip_ansi_exec(patch.patch_header.lines[0].as_str());
            if str_starts_with(stripped.as_str(), "commit ") {
                let m = "commit ".unicode_len();
                let n = stripped.as_str().unicode_len();
                let tok = stripped.as_str().substring_char(m, n);
                proof {
                    assert(tok@ =~= commit_token(patch@));
                }
                Ok(tok.to_owned())
            } else {
                Err(ProcessError::MissingCommitPrefix)
            }
        },
        OutputConfig::Sections(ps) => {
            let ps = *ps;
            let mut out = String::new();
            if ps.patch_header {
                append_chunk(&mut out, &patch.patch_header);
            }
            let ghost head = out@;
            proof {
                assert(head =~= (if ps.patch_header {
                    concat_lines(patch@.patch_header)
                } else {
                    Seq::empty()
                }));
            }
            let n = patch.files.len();
            let mut i: usize = 0;
            while i < n
                invariant
                    n == patch.files.len(),
                    i <= n,
                    out@ == head + render_files(ps, patch@.files.take(i as int)),
                decreases n - i,
            {
                append_file(&mut out, ps, &patch.files[i]);
                proof {
                    assert(patch@.files.take(i + 1).drop_last() =~= patch@.files.take(i as int));
                    assert(out@ =~= head + render_files(ps, patch@.files.take(i + 1)));
                }
                i += 1;
            }
            proof {
                assert(patch@.files.take(n as int) =~= patch@.files);
                assert(out@ =~= render_sections(ps, patch@));
            }
            Ok(out)
        },
    }
}

/// Decide whether `patch` matches under `config` and produce what it prints:
/// its configured output when it matches, nothing when it does not.
pub fn process_patch(config: &Config, patch: &Patch) -> (r: Result<String, ProcessError>)
    ensures
        res_view(r) == emission(config@, patch@),
{
    if patch_contains(config.match_on, patch, config.search_string.as_str()) {
        print_patch(&config.output, patch)
    } else {
        Ok(String::new())
    }
}

} // verus!
