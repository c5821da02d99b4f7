//! The driver: split the input bytes into terminator-inclusive lines, decode
//! and classify each one, step the builder, and hand every completed patch to
//! the engine — once per commit boundary and once more at end of input if a
//! patch was ever started.

use vstd::prelude::*;
use vstd::string::StringExecFns;
use crate::ansi::strip_ansi_exec;
use crate::builder::{builder_step, lemma_step_preserves_inv, state_inv, StepV};
use crate::classify::{class_key, classify, LineClass, ProcessError, State};
use crate::config::{Config, ConfigView};
use crate::decode::{decode_line, decode_spec};
use crate::engine::{emission, process_patch, res_view};
use crate::model::{chunk_empty, Patch, PatchView};
use crate::strutil::trim_line_ending;

verus! {

// ---------------------------------------------------------------------------
// Splitting the byte stream into lines.
// ---------------------------------------------------------------------------

/// The lines of `b` from position `start` on, scanning at `i`, where
/// `b[start .. i]` holds no newline yet. Every line ends with the newline
/// byte, except a last line that the input left unterminated.
pub open spec fn split_lines_from(b: Seq<u8>, i: int, start: int) -> Seq<Seq<u8>>
    decreases b.len() - i,
{
    if i < 0 || i >= b.len() {
        if start < b.len() {
            seq![b.subrange(start, b.len() as int)]
        } else {
            Seq::empty()
        }
    } else if b[i] == 10 {
        seq![b.subrange(start, i + 1)] + split_lines_from(b, i + 1, i + 1)
    } else {
        split_lines_from(b, i + 1, start)
    }
}

/// The lines of `b`, as a reader pulling bytes up to and including each
/// newline would produce them. Empty input has no lines.
pub open spec fn split_lines(b: Seq<u8>) -> Seq<Seq<u8>> {
    split_lines_from(b, 0, 0)
}

/// A sequence of bytes views itself deeply as itself.
proof fn lemma_bytes_deep_view(v: Vec<u8>)
    ensures
        v.deep_view() == v@,
{
    assert(v.deep_view() =~= v@);
}

/// Split the input into its lines.
pub fn split_input_lines(input: &[u8]) -> (r: Vec<Vec<u8>>)
    ensures
        r.deep_view() == split_lines(input@),
{
    let mut r: Vec<Vec<u8>> = Vec::new();
    let mut cur: Vec<u8> = Vec::new();
    let ghost mut start: int = 0;
    let n = input.len();
    let mut i: usize = 0;
    proof {
        assert(r.deep_view() =~= Seq::<Seq<u8>>::empty());
        assert(cur@ =~= input@.subrange(0, 0));
    }
    while i < n
        invariant
            n == input@.len(),
            i <= n,
            0 <= start <= i,
            cur@ == input@.subrange(start, i as int),
            split_lines(input@) == r.deep_view() + split_lines_from(input@, i as int, start),
        decreases n - i,
    {
        let b = input[i];
        cur.push(b);
        proof {
            assert(cur@ =~= input@.subrange(start, i + 1));
        }
        if b == 10 {
            let done = cur;
            cur = Vec::new();
            let ghost r_old = r.deep_view();
            let ghost donev = done@;
            proof {
                lemma_bytes_deep_view(done);
            }
            r.push(done);
            proof {
                assert(r.deep_view() =~= r_old.push(donev));
                assert(split_lines_from(input@, i as int, start) == seq![donev] + split_lines_from(
                    input@,
                    i + 1,
                    i + 1,
                ));
                assert(r_old + (seq![donev] + split_lines_from(input@, i + 1, i + 1)) =~= r_old.push(
                    donev,
                ) + split_lines_from(input@, i + 1, i + 1));
                start = i + 1;
                assert(cur@ =~= input@.subrange(start, i + 1));
            }
        }
        i += 1;
    }
    if cur.len() > 0 {
        let ghost r_old = r.deep_view();
        let ghost donev = cur@;
        proof {
            lemma_bytes_deep_view(cur);
        }
        r.push(cur);
        proof {
            assert(r.deep_view() =~= r_old.push(donev));
            assert(split_lines_from(input@, n as int, start) == seq![donev]);
            assert(r_old + seq![donev] =~= r_old.push(donev));
        }
    } else {
        proof {
            assert(r.deep_view() + split_lines_from(input@, n as int, start) =~= r.deep_view());
        }
    }
    r
}

// ---------------------------------------------------------------------------
// The machine: builder state, patch, output, and the two decision counters.
// ---------------------------------------------------------------------------

/// The whole run's state as a mathematical value. `emits` counts the emit
/// decisions taken so far; `patches` counts the patches started so far.
#[verifier::ext_equal]
pub struct MachineV {
    pub state: State,
    pub patch: PatchView,
    pub out: Seq<char>,
    pub emits: nat,
    pub patches: nat,
}

/// The machine before any line: no patch started, nothing written.
pub open spec fn init_machine() -> MachineV {
    MachineV {
        state: State::Start,
        patch: PatchView { patch_header: Seq::empty(), files: Seq::empty() },
        out: Seq::empty(),
        emits: 0,
        patches: 0,
    }
}

/// One line's effect on the machine: decode it, step the builder, and on a
/// commit boundary hand the completed patch to the engine first.
pub open spec fn machine_step(cfg: ConfigView, m: MachineV, bytes: Seq<u8>, n: usize) -> Result<
    MachineV,
    ProcessError,
> {
    match decode_spec(cfg.decode_strategy, m.state, bytes) {
        None => Err(ProcessError::InvalidUtf8 { line: n }),
        Some(raw) => match builder_step(m.state, m.patch, raw) {
            StepV::Reject => Err(ProcessError::UnexpectedLine { line: n, state: m.state }),
            StepV::Append(st2, p2) => Ok(MachineV { state: st2, patch: p2, ..m }),
            StepV::Boundary(p2) => if m.state is Start {
                Ok(
                    MachineV {
                        state: State::PatchHeader,
                        patch: p2,
                        out: m.out,
                        emits: m.emits,
                        patches: m.patches + 1,
                    },
                )
            } else {
                match emission(cfg, m.patch) {
                    Err(e) => Err(e),
                    Ok(text) => Ok(
                        MachineV {
                            state: State::PatchHeader,
                            patch: p2,
                            out: m.out + text,
                            emits: m.emits + 1,
                            patches: m.patches + 1,
                        },
                    ),
                }
            },
        },
    }
}

/// The machine after the given lines, numbering them from `next` on.
pub open spec fn run_from(
    cfg: ConfigView,
    m: MachineV,
    lines: Seq<Seq<u8>>,
    next: usize,
) -> Result<MachineV, ProcessError>
    decreases lines.len(),
{
    if lines.len() == 0 {
        Ok(m)
    } else {
        match machine_step(cfg, m, lines.first(), next) {
            Err(e) => Err(e),
            Ok(m2) => run_from(cfg, m2, lines.drop_first(), (next + 1) as usize),
        }
    }
}

/// The machine after the whole input.
pub open spec fn run(cfg: ConfigView, lines: Seq<Seq<u8>>) -> Result<MachineV, ProcessError> {
    run_from(cfg, init_machine(), lines, 1)
}

/// The output of a whole run: everything emitted at commit boundaries, then
/// the final patch's emission — unless no patch was ever started, in which
/// case there is no trailing flush and the output is empty.
pub open spec fn process_spec(cfg: ConfigView, input: Seq<u8>) -> Result<Seq<char>, ProcessError> {
    match run(cfg, split_lines(input)) {
        Err(e) => Err(e),
        Ok(m) => if m.state is Start {
            Ok(m.out)
        } else {
            match emission(cfg, m.patch) {
                Err(e) => Err(e),
                Ok(t) => Ok(m.out + t),
            }
        },
    }
}

// ---------------------------------------------------------------------------
// The executable driver.
// ---------------------------------------------------------------------------

/// Run the whole pipeline over `input` and return everything it emits.
pub fn process_lines(input: &[u8], config: &Config) -> (r: Result<String, ProcessError>)
    ensures
        res_view(r) == process_spec(config@, input@),
{
    let lines = split_input_lines(input);
    let ghost linesv = split_lines(input@);
    let ghost cfg = config@;
    let mut state = State::Start;
    let mut patch = Patch { patch_header: chunk_empty(), files: Vec::new() };
    let mut out = String::new();
    let ghost mut emits: nat = 0;
    let ghost mut patches: nat = 0;
    let n = lines.len();
    let mut i: usize = 0;
    proof {
        assert(patch@ =~~= init_machine().patch);
        assert(MachineV { state, patch: patch@, out: out@, emits, patches } =~~= init_machine());
        assert(linesv.skip(0) =~= linesv);
    }
    while i < n
        invariant
            n == lines.len(),
            i <= n,
            lines.deep_view() == linesv,
            linesv == split_lines(input@),
            cfg == config@,
            state_inv(state, patch@),
            run_from(
                cfg,
                MachineV { state, patch: patch@, out: out@, emits, patches },
                linesv.skip(i as int),
                (i + 1) as usize,
            ) == run(cfg, linesv),
        decreases n - i,
    {
        let ghost m_prev = MachineV { state, patch: patch@, out: out@, emits, patches };
        let ghost rem = linesv.skip(i as int);
        proof {
            assert(rem.first() == linesv[i as int]);
            assert(rem.drop_first() =~= linesv.skip(i as int + 1));
        }
        proof {
            lemma_bytes_deep_view(lines[i as int]);
            assert(lines[i as int]@ == linesv[i as int]);
        }
        let line = match decode_line(config.decode_strategy, state, lines[i].as_slice()) {
            Some(l) => l,
            None => {
                proof {
                    assert(machine_step(cfg, m_prev, linesv[i as int], (i + 1) as usize)
                        == Err::<MachineV, ProcessError>(ProcessError::InvalidUtf8 { line: (i + 1) as usize }));
                    assert(run(cfg, linesv) == Err::<MachineV, ProcessError>(
                        ProcessError::InvalidUtf8 { line: (i + 1) as usize },
                    ));
                }
                return Err(ProcessError::InvalidUtf8 { line: i + 1 });
            },
        };
        proof {
            assert(Some(line@) == decode_spec(cfg.decode_strategy, state, linesv[i as int]));
        }
        let stripped = strip_ansi_exec(line.as_str());
        let key = trim_line_ending(stripped.as_str());
        proof {
            assert(key@ == class_key(line@));
        }
        let class = classify(key.as_str());
        proof {
            lemma_step_preserves_inv(state, patch@, line@);
        }
        match (state, class) {
            (State::Start, LineClass::Commit) => {
                patch = Patch::new_patch(line);
                state = State::PatchHeader;
                proof {
                    patches = patches + 1;
                }
            },
            (State::PatchHeader, LineClass::File) => {
                patch.push_file(line);
                state = State::FileHeader;
            },
            (State::PatchHeader, _) => {
                patch.push_header_line(line);
            },
            (State::FileHeader, LineClass::HunkHeader) => {
                patch.push_hunk(line);
                state = State::HunkHead;
            },
            (State::FileHeader, _) => {
                patch.push_file_header_line(line);
            },
            (State::HunkHead, LineClass::Context) => {
                patch.push_context_head_line(line);
            },
            (State::HunkHead, LineClass::Change) => {
                patch.push_new_diff(line);
                state = State::HunkBodyDiff;
            },
            (State::HunkBodyDiff, LineClass::Change) => {
                patch.push_diff_line(line);
            },
            (State::HunkBodyDiff, LineClass::Context) => {
                patch.push_tail_line(line);
                state = State::HunkBodyTail;
            },
            (State::HunkBodyDiff, LineClass::File) => {
                patch.push_file(line);
                state = State::FileHeader;
            },
            (State::HunkBodyTail, LineClass::Context) => {
                patch.push_tail_line(line);
            },
            (State::HunkBodyTail, LineClass::Change) => {
                patch.push_new_diff(line);
                state = State::HunkBodyDiff;
            },
            (State::HunkBodyTail, LineClass::HunkHeader) => {
                patch.push_hunk(line);
                state = State::HunkHead;
            },
            (State::HunkBodyTail, LineClass::File) => {
                patch.push_file(line);
                state = State::FileHeader;
            },
            (State::HunkBodyDiff, LineClass::Commit) | (State::HunkBodyTail, LineClass::Commit) => {
                let text = match process_patch(config, &patch) {
                    Ok(text) => text,
                    Err(e) => {
                        return Err(e);
                    },
                };
                out.append(text.as_str());
                patch = Patch::new_patch(line);
                state = State::PatchHeader;
                proof {
                    emits = emits + 1;
                    patches = patches + 1;
                }
            },
            _ => {
                proof {
                    assert(builder_step(state, patch@, line@) is Reject);
                    assert(machine_step(cfg, m_prev, linesv[i as int], (i + 1) as usize)
                        == Err::<MachineV, ProcessError>(ProcessError::UnexpectedLine {
                        line: (i + 1) as usize,
                        state,
                    }));
                    assert(run(cfg, linesv) == Err::<MachineV, ProcessError>(
                        ProcessError::UnexpectedLine { line: (i + 1) as usize, state },
                    ));
                }
                return Err(ProcessError::UnexpectedLine { line: i + 1, state });
            },
        }
        proof {
            let m_next = MachineV { state, patch: patch@, out: out@, emits, patches };
            assert(machine_step(cfg, m_prev, linesv[i as int], (i + 1) as usize) == Ok::<
                MachineV,
                ProcessError,
            >(m_next));
        }
        i += 1;
    }
    proof {
        assert(linesv.skip(n as int) =~= Seq::<Seq<u8>>::empty());
    }
    if let State::Start = state {
        Ok(out)
    } else {
        let text = match process_patch(config, &patch) {
            Ok(text) => text,
            Err(e) => {
                return Err(e);
            },
        };
        out.append(text.as_str());
        Ok(out)
    }
}

} // verus!
