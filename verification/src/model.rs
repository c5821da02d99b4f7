//! The document model: a patch is a header chunk plus file diffs, a file diff
//! is a header chunk plus hunks, a hunk is a range-header line, leading
//! context, and diff blocks, and a diff block is a run of changed lines plus
//! the context lines trailing it.
//!
//! Each exec type has a view made of sequences alone, and each incremental
//! update the parser makes has a spec-level counterpart on the view.

use vstd::prelude::*;

verus! {

/// An ordered sequence of raw text lines, each kept verbatim with its
/// original terminator.
pub struct Chunk {
    pub lines: Vec<String>,
}

/// A maximal run of added/removed lines together with the context lines that
/// trail it.
pub struct HunkDiffWithTail {
    pub diff: Chunk,
    pub context_tail: Chunk,
}

/// A region of change introduced by one `@@ … @@` range header.
pub struct Hunk {
    pub header: String,
    pub context_head: Chunk,
    pub diffs: Vec<HunkDiffWithTail>,
}

/// One file's diff: its `diff --git` header lines plus its hunks.
pub struct FileDiff {
    pub file_header: Chunk,
    pub hunks: Vec<Hunk>,
}

/// One commit's worth of structure: free-text header lines plus file diffs.
pub struct Patch {
    pub patch_header: Chunk,
    pub files: Vec<FileDiff>,
}

/// The mathematical value of a `HunkDiffWithTail`.
#[verifier::ext_equal]
pub struct HunkDiffView {
    pub diff: Seq<Seq<char>>,
    pub context_tail: Seq<Seq<char>>,
}

/// The mathematical value of a `Hunk`.
#[verifier::ext_equal]
pub struct HunkView {
    pub header: Seq<char>,
    pub context_head: Seq<Seq<char>>,
    pub diffs: Seq<HunkDiffView>,
}

/// The mathematical value of a `FileDiff`.
#[verifier::ext_equal]
pub struct FileDiffView {
    pub file_header: Seq<Seq<char>>,
    pub hunks: Seq<HunkView>,
}

/// The mathematical value of a `Patch`.
#[verifier::ext_equal]
pub struct PatchView {
    pub patch_header: Seq<Seq<char>>,
    pub files: Seq<FileDiffView>,
}

impl View for Chunk {
    type V = Seq<Seq<char>>;

    open spec fn view(&self) -> Seq<Seq<char>> {
        self.lines.deep_view()
    }
}

impl View for HunkDiffWithTail {
    type V = HunkDiffView;

    open spec fn view(&self) -> HunkDiffView {
        HunkDiffView { diff: self.diff@, context_tail: self.context_tail@ }
    }
}

impl View for Hunk {
    type V = HunkView;

    open spec fn view(&self) -> HunkView {
        HunkView {
            header: self.header@,
            context_head: self.context_head@,
            diffs: Seq::new(self.diffs@.len(), |i: int| self.diffs@[i]@),
        }
    }
}

impl View for FileDiff {
    type V = FileDiffView;

    open spec fn view(&self) -> FileDiffView {
        FileDiffView {
            file_header: self.file_header@,
            hunks: Seq::new(self.hunks@.len(), |i: int| self.hunks@[i]@),
        }
    }
}

impl View for Patch {
    type V = PatchView;

    open spec fn view(&self) -> PatchView {
        PatchView {
            patch_header: self.patch_header@,
            files: Seq::new(self.files@.len(), |i: int| self.files@[i]@),
        }
    }
}

/// A chunk holding the one given line.
pub fn chunk_from(line: String) -> (c: Chunk)
    ensures
        c@ =~= seq![line@],
{
    Chunk { lines: vec![line] }
}

/// A chunk with no lines.
pub fn chunk_empty() -> (c: Chunk)
    ensures
        c@ =~= Seq::<Seq<char>>::empty(),
{
    Chunk { lines: Vec::new() }
}

impl HunkDiffView {
    /// A fresh diff block opened by `line`, with an empty tail.
    pub open spec fn init(line: Seq<char>) -> HunkDiffView {
        HunkDiffView { diff: seq![line], context_tail: Seq::empty() }
    }
}

impl HunkView {
    /// A fresh hunk opened by the range-header `line`.
    pub open spec fn init(header: Seq<char>) -> HunkView {
        HunkView { header, context_head: Seq::empty(), diffs: Seq::empty() }
    }
}

impl FileDiffView {
    /// A fresh file diff opened by the `diff --git` `line`.
    pub open spec fn init(line: Seq<char>) -> FileDiffView {
        FileDiffView { file_header: seq![line], hunks: Seq::empty() }
    }
}

impl PatchView {
    /// A fresh patch opened by the commit-marker `line`.
    pub open spec fn init(line: Seq<char>) -> PatchView {
        PatchView { patch_header: seq![line], files: Seq::empty() }
    }

    /// `self` with `line` appended to the patch header.
    pub open spec fn push_header_line(self, line: Seq<char>) -> PatchView {
        PatchView { patch_header: self.patch_header.push(line), ..self }
    }

    /// `self` with a fresh file diff opened by `line`.
    pub open spec fn add_file(self, line: Seq<char>) -> PatchView {
        PatchView { files: self.files.push(FileDiffView::init(line)), ..self }
    }

    /// The last file diff, replaced by `f`.
    pub open spec fn set_last_file(self, f: FileDiffView) -> PatchView
        recommends
            self.files.len() > 0,
    {
        PatchView { files: self.files.update(self.files.len() - 1, f), ..self }
    }

    /// `self` with `line` appended to the last file's header chunk.
    pub open spec fn push_file_header_line(self, line: Seq<char>) -> PatchView
        recommends
            self.files.len() > 0,
    {
        let f = self.files.last();
        self.set_last_file(FileDiffView { file_header: f.file_header.push(line), ..f })
    }

    /// `self` with a fresh hunk opened by `header` in the last file.
    pub open spec fn add_hunk(self, header: Seq<char>) -> PatchView
        recommends
            self.files.len() > 0,
    {
        let f = self.files.last();
        self.set_last_file(FileDiffView { hunks: f.hunks.push(HunkView::init(header)), ..f })
    }

    /// The last hunk of the last file, replaced by `h`.
    pub open spec fn set_last_hunk(self, h: HunkView) -> PatchView
        recommends
            self.files.len() > 0,
            self.files.last().hunks.len() > 0,
    {
        let f = self.files.last();
        self.set_last_file(FileDiffView { hunks: f.hunks.update(f.hunks.len() - 1, h), ..f })
    }

    /// `self` with `line` appended to the last hunk's leading context.
    pub open spec fn push_context_head_line(self, line: Seq<char>) -> PatchView
        recommends
            self.files.len() > 0,
            self.files.last().hunks.len() > 0,
    {
        let h = self.files.last().hunks.last();
        self.set_last_hunk(HunkView { context_head: h.context_head.push(line), ..h })
    }

    /// `self` with a fresh diff block opened by `line` in the last hunk.
    pub open spec fn add_diff(self, line: Seq<char>) -> PatchView
        recommends
            self.files.len() > 0,
            self.files.last().hunks.len() > 0,
    {
        let h = self.files.last().hunks.last();
        self.set_last_hunk(HunkView { diffs: h.diffs.push(HunkDiffView::init(line)), ..h })
    }

    /// The last diff block of the last hunk of the last file, replaced by `d`.
    pub open spec fn set_last_diff(self, d: HunkDiffView) -> PatchView
        recommends
            self.files.len() > 0,
            self.files.last().hunks.len() > 0,
            self.files.last().hunks.last().diffs.len() > 0,
    {
        let h = self.files.last().hunks.last();
        self.set_last_hunk(HunkView { diffs: h.diffs.update(h.diffs.len() - 1, d), ..h })
    }

    /// `self` with `line` appended to the last diff block's changed lines.
    pub open spec fn push_diff_line(self, line: Seq<char>) -> PatchView
        recommends
            self.files.len() > 0,
            self.files.last().hunks.len() > 0,
            self.files.last().hunks.last().diffs.len() > 0,
    {
        let d = self.files.last().hunks.last().diffs.last();
        self.set_last_diff(HunkDiffView { diff: d.diff.push(line), ..d })
    }

    /// `self` with `line` appended to the last diff block's trailing context.
    pub open spec fn push_tail_line(self, line: Seq<char>) -> PatchView
        recommends
            self.files.len() > 0,
            self.files.last().hunks.len() > 0,
            self.files.last().hunks.last().diffs.len() > 0,
    {
        let d = self.files.last().hunks.last().diffs.last();
        self.set_last_diff(HunkDiffView { context_tail: d.context_tail.push(line), ..d })
    }
}

impl Patch {
    /// A fresh patch whose header holds the one commit-marker `line`.
    pub fn new_patch(line: String) -> (p: Patch)
        ensures
            p@ =~~= PatchView::init(line@),
    {
        Patch { patch_header: chunk_from(line), files: Vec::new() }
    }

    /// Append `line` to the patch header.
    pub fn push_header_line(&mut self, line: String)
        ensures
            final(self)@ =~~= old(self)@.push_header_line(line@),
    {
        self.patch_header.lines.push(line);
    }

    /// Open a fresh file diff whose header holds `line`.
    pub fn push_file(&mut self, line: String)
        ensures
            final(self)@ =~~= old(self)@.add_file(line@),
    {
        self.files.push(FileDiff { file_header: chunk_from(line), hunks: Vec::new() });
    }

    /// Append `line` to the last file's header chunk.
    pub fn push_file_header_line(&mut self, line: String)
        requires
            old(self)@.files.len() > 0,
        ensures
            final(self)@ =~~= old(self)@.push_file_header_line(line@),
    {
        let mut f = self.files.pop().unwrap();
        f.file_header.lines.push(line);
        self.files.push(f);
    }

    /// Open a fresh hunk under the last file, with range-header `header`.
    pub fn push_hunk(&mut self, header: String)
        requires
            old(self)@.files.len() > 0,
        ensures
            final(self)@ =~~= old(self)@.add_hunk(header@),
    {
        let mut f = self.files.pop().unwrap();
        f.hunks.push(Hunk { header, context_head: chunk_empty(), diffs: Vec::new() });
        self.files.push(f);
    }

    /// Append `line` to the last hunk's leading context.
    pub fn push_context_head_line(&mut self, line: String)
        requires
            old(self)@.files.len() > 0,
            old(self)@.files.last().hunks.len() > 0,
        ensures
            final(self)@ =~~= old(self)@.push_context_head_line(line@),
    {
        let mut f = self.files.pop().unwrap();
        let mut h = f.hunks.pop().unwrap();
        h.context_head.lines.push(line);
        f.hunks.push(h);
        self.files.push(f);
    }

    /// Open a fresh diff block holding `line` under the last hunk.
    pub fn push_new_diff(&mut self, line: String)
        requires
            old(self)@.files.len() > 0,
            old(self)@.files.last().hunks.len() > 0,
        ensures
            final(self)@ =~~= old(self)@.add_diff(line@),
    {
        let mut f = self.files.pop().unwrap();
        let mut h = f.hunks.pop().unwrap();
        h.diffs.push(HunkDiffWithTail { diff: chunk_from(line), context_tail: chunk_empty() });
        f.hunks.push(h);
        self.files.push(f);
    }

    /// Append `line` to the last diff block's changed lines.
    pub fn push_diff_line(&mut self, line: String)
        requires
            old(self)@.files.len() > 0,
            old(self)@.files.last().hunks.len() > 0,
            old(self)@.files.last().hunks.last().diffs.len() > 0,
        ensures
            final(self)@ =~~= old(self)@.push_diff_line(line@),
    {
        let mut f = self.files.pop().unwrap();
        let mut h = f.hunks.pop().unwrap();
        let mut d = h.diffs.pop().unwrap();
        d.diff.lines.push(line);
        h.diffs.push(d);
        f.hunks.push(h);
        self.files.push(f);
    }

    /// Append `line` to the last diff block's trailing context.
    pub fn push_tail_line(&mut self, line: String)
        requires
            old(self)@.files.len() > 0,
            old(self)@.files.last().hunks.len() > 0,
            old(self)@.files.last().hunks.last().diffs.len() > 0,
        ensures
            final(self)@ =~~= old(self)@.push_tail_line(line@),
    {
        let mut f = self.files.pop().unwrap();
        let mut h = f.hunks.pop().unwrap();
        let mut d = h.diffs.pop().unwrap();
        d.context_tail.lines.push(line);
        h.diffs.push(d);
        f.hunks.push(h);
        self.files.push(f);
    }
}

} // verus!
