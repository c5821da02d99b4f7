//! The command-line surface: a positional search string, section toggles for
//! matching and printing, a commit-hash output flag, and a decode-strategy
//! selector. Rejected inputs return an error instead of output.

use vstd::prelude::*;
use vstd::string::{StrSliceExecFns, StringExecFns};
use crate::config::{Config, ConfigView, OutputConfig, PatchSections, UTF8Strategy};
use crate::strutil::str_eq;

verus! {

/// What argument parsing can fail with.
#[derive(Clone, Copy, PartialEq, Eq, Structural, Debug)]
pub enum ParseError {
    /// No search string was given.
    MissingPattern,
    /// A positional argument stood where none was expected.
    UnexpectedArg,
    /// An option that takes a value was last.
    MissingValue,
    /// A section list held a name that is not a section.
    UnknownSection,
    /// The decode-strategy value was not lossy, panic, or skip-line.
    UnknownDecodeStrategy,
    /// Both commit-hash output and print sections were requested.
    ConflictingPrintOptions,
    /// Help was requested; the caller should show the usage text.
    HelpRequested,
}

// ---------------------------------------------------------------------------
// Section lists.
// ---------------------------------------------------------------------------

/// The comma-separated segments of `s` from `start` on, scanning at `i`,
/// where `s[start .. i]` holds no comma yet. A trailing or lone empty segment
/// is kept, as splitting on commas does.
pub open spec fn split_commas_from(s: Seq<char>, i: int, start: int) -> Seq<Seq<char>>
    decreases s.len() - i,
{
    if i < 0 || i >= s.len() {
        seq![s.subrange(start, s.len() as int)]
    } else if s[i] == ',' {
        seq![s.subrange(start, i)] + split_commas_from(s, i + 1, i + 1)
    } else {
        split_commas_from(s, i + 1, start)
    }
}

pub open spec fn split_commas(s: Seq<char>) -> Seq<Seq<char>> {
    split_commas_from(s, 0, 0)
}

/// Fold the segments into a selection: each valid name switches its section
/// on; any other segment is rejected.
pub open spec fn sections_from(parts: Seq<Seq<char>>, i: int, acc: PatchSections) -> Result<
    PatchSections,
    ParseError,
>
    decreases parts.len() - i,
{
    if i < 0 || i >= parts.len() {
        Ok(acc)
    } else if parts[i] == "diff"@ {
        sections_from(parts, i + 1, PatchSections { diff: true, ..acc })
    } else if parts[i] == "context"@ {
        sections_from(parts, i + 1, PatchSections { context: true, ..acc })
    } else if parts[i] == "file_header"@ {
        sections_from(parts, i + 1, PatchSections { file_header: true, ..acc })
    } else if parts[i] == "patch_header"@ {
        sections_from(parts, i + 1, PatchSections { patch_header: true, ..acc })
    } else {
        Err(ParseError::UnknownSection)
    }
}

/// The selection a comma-separated section list denotes, if every segment is
/// a section name.
pub open spec fn parse_sections_spec(s: Seq<char>) -> Result<PatchSections, ParseError> {
    sections_from(split_commas(s), 0, PatchSections::none())
}

/// Split `input` on commas into owned segments.
fn split_on_commas(input: &str) -> (r: Vec<String>)
    ensures
        r.deep_view() == split_commas(input@),
{
    let mut r: Vec<String> = Vec::new();
    let mut start: usize = 0;
    let n = input.unicode_len();
    let mut i: usize = 0;
    proof {
        assert(r.deep_view() =~= Seq::<Seq<char>>::empty());
    }
    while i < n
        invariant
            n == input@.len(),
            i <= n,
            start <= i,
            split_commas(input@) == r.deep_view() + split_commas_from(
                input@,
                i as int,
                start as int,
            ),
        decreases n - i,
    {
        if input.get_char(i) == ',' {
            let seg = input.substring_char(start, i).to_owned();
            let ghost r_old = r.deep_view();
            r.push(seg);
            proof {
                assert(r.deep_view() =~= r_old.push(input@.subrange(start as int, i as int)));
                assert(r_old + (seq![input@.subrange(start as int, i as int)] + split_commas_from(
                    input@,
                    i + 1,
                    i + 1,
                )) =~= r.deep_view() + split_commas_from(input@, i + 1, i + 1));
            }
            start = i + 1;
        }
        i += 1;
    }
    let seg = input.substring_char(start, n).to_owned();
    let ghost r_old = r.deep_view();
    r.push(seg);
    proof {
        assert(r.deep_view() =~= r_old.push(input@.subrange(start as int, n as int)));
        assert(split_commas_from(input@, n as int, start as int) == seq![
            input@.subrange(start as int, n as int),
        ]);
        assert(r_old + seq![input@.subrange(start as int, n as int)] =~= r.deep_view());
    }
    r
}

/// Parse a comma-separated list of section names.
pub fn parse_patch_sections(input: &str) -> (r: Result<PatchSections, ParseError>)
    ensures
        r == parse_sections_spec(input@),
{
    let parts = split_on_commas(input);
    let ghost partsv = parts.deep_view();
    let mut acc = PatchSections { diff: false, context: false, file_header: false, patch_header: false };
    let m = parts.len();
    let mut j: usize = 0;
    while j < m
        invariant
            m == parts.len(),
            j <= m,
            partsv == parts.deep_view(),
            partsv == split_commas(input@),
            sections_from(partsv, 0, PatchSections::none()) == sections_from(
                partsv,
                j as int,
                acc,
            ),
        decreases m - j,
    {
        let p = parts[j].as_str();
        proof {
            assert(p@ == partsv[j as int]);
        }
        if str_eq(p, "diff") {
            acc = PatchSections { diff: true, ..acc };
        } else if str_eq(p, "context") {
            acc = PatchSections { context: true, ..acc };
        } else if str_eq(p, "file_header") {
            acc = PatchSections { file_header: true, ..acc };
        } else if str_eq(p, "patch_header") {
            acc = PatchSections { patch_header: true, ..acc };
        } else {
            return Err(ParseError::UnknownSection);
        }
        j += 1;
    }
    Ok(acc)
}

// ---------------------------------------------------------------------------
// The argument list.
// ---------------------------------------------------------------------------

/// The configuration before any argument is read: match diff lines only, and
/// print patch headers of matched patches.
pub open spec fn initial_config() -> ConfigView {
    ConfigView {
        match_on: PatchSections { diff: true, context: false, file_header: false, patch_header: false },
        output: OutputConfig::Sections(
            PatchSections { diff: false, context: false, file_header: false, patch_header: true },
        ),
        search_string: Seq::empty(),
        decode_strategy: UTF8Strategy::Panic,
    }
}

/// One pass over the arguments from position `i` on. After `--`, every
/// argument is taken as the search string; otherwise options are recognized
/// first, and the first free argument becomes the search string. Help is
/// recognized only as the last argument; a second free argument is rejected.
pub open spec fn parse_from(
    args: Seq<Seq<char>>,
    i: int,
    has_search: bool,
    no_more: bool,
    has_print: bool,
    cfg: ConfigView,
) -> Result<ConfigView, ParseError>
    decreases args.len() - i,
{
    if i < 0 || i >= args.len() {
        if has_search {
            Ok(cfg)
        } else {
            Err(ParseError::MissingPattern)
        }
    } else {
        let a = args[i];
        if no_more {
            parse_from(args, i + 1, true, no_more, has_print, ConfigView { search_string: a, ..cfg })
        } else if a == "--match-fields"@ {
            if i + 1 < args.len() {
                match parse_sections_spec(args[i + 1]) {
                    Ok(ps) => parse_from(
                        args,
                        i + 2,
                        has_search,
                        no_more,
                        has_print,
                        ConfigView { match_on: ps, ..cfg },
                    ),
                    Err(e) => Err(e),
                }
            } else {
                Err(ParseError::MissingValue)
            }
        } else if a == "--print-fields"@ {
            if i + 1 < args.len() {
                if has_print {
                    Err(ParseError::ConflictingPrintOptions)
                } else {
                    match parse_sections_spec(args[i + 1]) {
                        Ok(ps) => parse_from(
                            args,
                            i + 2,
                            has_search,
                            no_more,
                            true,
                            ConfigView { output: OutputConfig::Sections(ps), ..cfg },
                        ),
                        Err(e) => Err(e),
                    }
                }
            } else {
                Err(ParseError::MissingValue)
            }
        } else if a == "--print-commits"@ {
            if has_print {
                Err(ParseError::ConflictingPrintOptions)
            } else {
                parse_from(
                    args,
                    i + 1,
                    has_search,
                    no_more,
                    true,
                    ConfigView { output: OutputConfig::CommitHash, ..cfg },
                )
            }
        } else if a == "--invalid-utf8"@ {
            if i + 1 < args.len() {
                let v = args[i + 1];
                if v == "lossy"@ {
                    parse_from(
                        args,
                        i + 2,
                        has_search,
                        no_more,
                        has_print,
                        ConfigView { decode_strategy: UTF8Strategy::Lossy, ..cfg },
                    )
                } else if v == "panic"@ {
                    parse_from(
                        args,
                        i + 2,
                        has_search,
                        no_more,
                        has_print,
                        ConfigView { decode_strategy: UTF8Strategy::Panic, ..cfg },
                    )
                } else if v == "skip-line"@ {
                    parse_from(
                        args,
                        i + 2,
                        has_search,
                        no_more,
                        has_print,
                        ConfigView { decode_strategy: UTF8Strategy::SkipLine, ..cfg },
                    )
                } else {
                    Err(ParseError::UnknownDecodeStrategy)
                }
            } else {
                Err(ParseError::MissingValue)
            }
        } else if (a == "--help"@ || a == "-h"@) && i + 1 == args.len() {
            Err(ParseError::HelpRequested)
        } else if a == "--"@ && !has_search {
            parse_from(args, i + 1, has_search, true, has_print, cfg)
        } else if !has_search {
            parse_from(args, i + 1, true, no_more, has_print, ConfigView { search_string: a, ..cfg })
        } else {
            Err(ParseError::UnexpectedArg)
        }
    }
}

/// The configuration an argument list denotes.
pub open spec fn parse_args_spec(args: Seq<Seq<char>>) -> Result<ConfigView, ParseError> {
    parse_from(args, 0, false, false, false, initial_config())
}

/// Parse the program's arguments (without the program name).
pub fn parse_args(args: &[&str]) -> (r: Result<Config, ParseError>)
    ensures
        match r {
            Ok(c) => parse_args_spec(args.deep_view()) == Ok::<ConfigView, ParseError>(c@),
            Err(e) => parse_args_spec(args.deep_view()) == Err::<ConfigView, ParseError>(e),
        },
{
    let ghost argsv = args.deep_view();
    let n = args.len();
    let mut i: usize = 0;
    let mut has_search = false;
    let mut no_more = false;
    let mut has_print = false;
    let mut match_on = PatchSections { diff: true, context: false, file_header: false, patch_header: false };
    let mut output = OutputConfig::Sections(
        PatchSections { diff: false, context: false, file_header: false, patch_header: true },
    );
    let mut search = String::new();
    let mut strategy = UTF8Strategy::Panic;
    while i < n
        invariant
            n == args@.len(),
            i <= n,
            argsv == args.deep_view(),
            parse_args_spec(argsv) == parse_from(
                argsv,
                i as int,
                has_search,
                no_more,
                has_print,
                ConfigView { match_on, output, search_string: search@, decode_strategy: strategy },
            ),
        decreases n - i,
    {
        let a = args[i];
        proof {
            assert(a@ == argsv[i as int]);
        }
        if no_more {
            search = a.to_owned();
            has_search = true;
            i += 1;
        } else if str_eq(a, "--match-fields") {
            if i + 1 < n {
                proof {
                    assert(args@[i + 1]@ == argsv[i + 1]);
                }
                match parse_patch_sections(args[i + 1]) {
                    Ok(ps) => {
                        match_on = ps;
                        i += 2;
                    },
                    Err(e) => {
                        return Err(e);
                    },
                }
            } else {
                return Err(ParseError::MissingValue);
            }
        } else if str_eq(a, "--print-fields") {
            if i + 1 < n {
                if has_print {
                    return Err(ParseError::ConflictingPrintOptions);
                }
                proof {
                    assert(args@[i + 1]@ == argsv[i + 1]);
                }
                match parse_patch_sections(args[i + 1]) {
                    Ok(ps) => {
                        output = OutputConfig::Sections(ps);
                        has_print = true;
                        i += 2;
                    },
                    Err(e) => {
                        return Err(e);
                    },
                }
            } else {
                return Err(ParseError::MissingValue);
            }
        } else if str_eq(a, "--print-commits") {
            if has_print {
                return Err(ParseError::ConflictingPrintOptions);
            }
            output = OutputConfig::CommitHash;
            has_print = true;
            i += 1;
        } else if str_eq(a, "--invalid-utf8") {
            if i + 1 < n {
                let v = args[i + 1];
                proof {
                    assert(v@ == argsv[i + 1]);
                }
                if str_eq(v, "lossy") {
                    strategy = UTF8Strategy::Lossy;
                } else if str_eq(v, "panic") {
                    strategy = UTF8Strategy::Panic;
                } else if str_eq(v, "skip-line") {
                    strategy = UTF8Strategy::SkipLine;
                } else {
                    return Err(ParseError::UnknownDecodeStrategy);
                }
                i += 2;
            } else {
                return Err(ParseError::MissingValue);
            }
        } else if (str_eq(a, "--help") || str_eq(a, "-h")) && i + 1 == n {
            return Err(ParseError::HelpRequested);
        } else if str_eq(a, "--") && !has_search {
            no_more = true;
            i += 1;
        } else if !has_search {
            search = a.to_owned();
            has_search = true;
            i += 1;
        } else {
            return Err(ParseError::UnexpectedArg);
        }
    }
    if has_search {
        Ok(Config { match_on, output, search_string: search, decode_strategy: strategy })
    } else {
        Err(ParseError::MissingPattern)
    }
}

/// The usage text shown when help is requested.
pub fn help_text() -> (r: String)
    ensures
        r@.len() > 0,
{
    let mut r = String::new();
    r.append("Usage: hunk [OPTION...] [--] PATTERN\n\n");
    proof {
        reveal_strlit("Usage: hunk [OPTION...] [--] PATTERN\n\n");
    }
    r.append("PATTERN        : The string to search for\n\n");
    r.append("OPTIONS:\n");
    r.append("--print-commits: Print only the hashes of commits that contain the string\n");
    r.append("--help, -h     : Show this message and exit\n");
    r.append(
        "--match-fields : Which fields of the patch to search for the string. Takes a comma-separated list of values. Valid values are 'diff', 'context', 'file_header', and 'patch_header'\n",
    );
    r.append(
        "--print-fields : Which fields of the patch to print to stdout when a match is found. Takes a comma-separated list of values. Valid values are 'diff', 'context', 'file_header', and 'patch_header'\n",
    );
    r.append(
        "--invalid-utf8 : How to handle invalid UTF-8 lines. Specify one of 'lossy', 'panic', or 'skip-line'\n",
    );
    r
}

} // verus!
