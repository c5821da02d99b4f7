//! Configuration values handed to the builder and the engine: which sections
//! take part in matching, what to print on a match, and how to treat bytes
//! that are not valid UTF-8.

use vstd::prelude::*;

verus! {

/// Policy for a line whose bytes are not valid UTF-8.
///
/// `Panic` rejects the whole run; `Lossy` substitutes a replacement character
/// for each invalid sequence and continues; `SkipLine` discards the line and
/// substitutes a fixed placeholder chosen so the parser takes a safe default
/// transition.
#[derive(Clone, Copy, PartialEq, Eq, Structural, Debug)]
pub enum UTF8Strategy {
    Panic,
    Lossy,
    SkipLine,
}

impl Default for UTF8Strategy {
    fn default() -> (r: Self)
        ensures
            r == UTF8Strategy::Panic,
    {
        UTF8Strategy::Panic
    }
}

/// A selection of the four structural sections of a patch.
#[derive(Clone, Copy, PartialEq, Eq, Structural, Debug)]
pub struct PatchSections {
    pub diff: bool,
    pub context: bool,
    pub file_header: bool,
    pub patch_header: bool,
}

impl PatchSections {
    /// The selection with every section switched off.
    pub open spec fn none() -> PatchSections {
        PatchSections { diff: false, context: false, file_header: false, patch_header: false }
    }
}

impl Default for PatchSections {
    fn default() -> (r: Self)
        ensures
            r == PatchSections::none(),
    {
        PatchSections { diff: false, context: false, file_header: false, patch_header: false }
    }
}

/// What to emit for a matched patch: the lines of selected sections, or only
/// the commit identifier from the first patch-header line.
#[derive(Clone, Copy, PartialEq, Eq, Structural, Debug)]
pub enum OutputConfig {
    Sections(PatchSections),
    CommitHash,
}

impl Default for OutputConfig {
    fn default() -> (r: Self)
        ensures
            r == OutputConfig::Sections(PatchSections::none()),
    {
        OutputConfig::Sections(PatchSections { diff: false, context: false, file_header: false, patch_header: false })
    }
}

/// The full run configuration.
pub struct Config {
    pub match_on: PatchSections,
    pub output: OutputConfig,
    pub search_string: String,
    pub decode_strategy: UTF8Strategy,
}

/// The mathematical value of a `Config`.
#[verifier::ext_equal]
pub struct ConfigView {
    pub match_on: PatchSections,
    pub output: OutputConfig,
    pub search_string: Seq<char>,
    pub decode_strategy: UTF8Strategy,
}

impl View for Config {
    type V = ConfigView;

    open spec fn view(&self) -> ConfigView {
        ConfigView {
            match_on: self.match_on,
            output: self.output,
            search_string: self.search_string@,
            decode_strategy: self.decode_strategy,
        }
    }
}

impl Default for Config {
    fn default() -> (r: Self)
        ensures
            r@ == (ConfigView {
                match_on: PatchSections::none(),
                output: OutputConfig::Sections(PatchSections::none()),
                search_string: Seq::<char>::empty(),
                decode_strategy: UTF8Strategy::Panic,
            }),
    {
        Config {
            match_on: PatchSections::default(),
            output: OutputConfig::default(),
            search_string: String::new(),
            decode_strategy: UTF8Strategy::default(),
        }
    }
}

} // verus!
