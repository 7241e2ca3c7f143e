//! The output formats of `diff`.

use vstd::prelude::*;
use crate::options;
use crate::text::str_eq;

verus! {

/// Output format.
#[derive(Clone, Copy, Debug, PartialEq, Eq, Structural)]
pub enum Format {
    Normal,
    Unified,
    Context,
    Ed,
    SideBySide,
}

/// The option id that selects `f`, which is also the word that names `f`
/// in messages.
pub open spec fn format_option(f: Format) -> &'static str {
    match f {
        Format::Normal => options::NORMAL,
        Format::Unified => options::UNIFIED_LINES,
        Format::Context => options::CONTEXT_LINES,
        Format::Ed => options::ED,
        Format::SideBySide => options::SIDE_BY_SIDE,
    }
}

/// Whether `s` is the option id of one of the output formats.
pub open spec fn is_format_option(s: Seq<char>) -> bool {
    exists|f: Format| #[trigger] format_option(f)@ == s
}

impl Default for Format {
    fn default() -> (f: Format)
        ensures
            f == Format::Normal,
    {
        Format::Normal
    }
}

impl Format {
    /// The option id that selects this format (what the format displays as).
    pub fn option_name(&self) -> (name: &'static str)
        ensures
            name == format_option(*self),
    {
        match self {
            Format::Normal => options::NORMAL,
            Format::Unified => options::UNIFIED_LINES,
            Format::Context => options::CONTEXT_LINES,
            Format::Ed => options::ED,
            Format::SideBySide => options::SIDE_BY_SIDE,
        }
    }

    /// The format that the option id `option` selects.
    ///
    /// Only the ids of the five formats name a format; any other id is a
    /// logic error of the caller.
    pub fn from_option(option: &str) -> (f: Format)
        requires
            is_format_option(option@),
        ensures
            format_option(f)@ == option@,
    {
        proof {
            lemma_format_options_distinct();
        }
        if str_eq(option, options::NORMAL) {
            Format::Normal
        } else if str_eq(option, options::UNIFIED_LINES) {
            Format::Unified
        } else if str_eq(option, options::CONTEXT_LINES) {
            Format::Context
        } else if str_eq(option, options::ED) {
            Format::Ed
        } else {
            assert(format_option(Format::SideBySide)@ == option@);
            Format::SideBySide
        }
    }
}

/// The five option ids that name formats are pairwise different, so that an
/// id names at most one format.
pub proof fn lemma_format_options_distinct()
    ensures
        forall|f: Format, g: Format| #[trigger] format_option(f)@ == #[trigger] format_option(g)@ ==> f == g,
{
    reveal_strlit("normal");
    reveal_strlit("UNIFIED");
    reveal_strlit("CONTEXT");
    reveal_strlit("ed");
    reveal_strlit("side-by-side");
    assert forall|f: Format, g: Format| #[trigger] format_option(f)@ == #[trigger] format_option(g)@ implies f == g by {
        if f != g {
            assert(format_option(f)@[0] != format_option(g)@[0] || format_option(f)@.len() != format_option(g)@.len());
        }
    }
}

/// Naming a format and reading the name back gives the same format.
pub proof fn lemma_format_option_roundtrip(f: Format)
    ensures
        is_format_option(format_option(f)@),
        forall|g: Format| format_option(g)@ == format_option(f)@ ==> g == f,
{
    lemma_format_options_distinct();
}

} // verus!
