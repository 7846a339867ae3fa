//! Interactive selection through an external fuzzy finder: when it runs,
//! what it is given, and what its answer means.

use vstd::prelude::*;
use crate::catalog::views;
use crate::text::{trim_str, trimmed};

verus! {

/// The fuzzy-finder executable.
pub const SELECTOR_PROGRAM: &'static str = "fzf";

/// The argument that asks the fuzzy finder for its version.
pub const SELECTOR_VERSION_ARG: &'static str = "--version";

/// The prompt shown by the fuzzy finder.
pub const SELECTOR_PROMPT_ARG: &'static str = "--prompt=Select gitignore template: ";

/// The screen height the fuzzy finder may take.
pub const SELECTOR_HEIGHT_ARG: &'static str = "--height=40%";

/// Printed when the fuzzy finder cannot be run.
pub const GUIDANCE_MISSING: &'static str =
    "fzf not found. Install fzf for interactive template selection.";

/// Printed after `GUIDANCE_MISSING`: how to use the tool without it.
pub const GUIDANCE_USAGE: &'static str = "Usage: gitignore <template_name> or gitignore ls";

/// The first step of an interactive selection.
#[derive(Debug, Clone, Copy, PartialEq, Eq)]
pub enum SelectorStart {
    /// No fuzzy finder: print the guidance and end with no selection,
    /// without fetching the catalog.
    ShowGuidance,
    /// Fetch the catalog and hand it to the fuzzy finder.
    FetchCatalog,
}

/// The lines of `lines` joined by newlines, with none after the last.
pub open spec fn joined_lines(lines: Seq<Seq<char>>) -> Seq<char>
    decreases lines.len(),
{
    if lines.len() == 0 {
        Seq::empty()
    } else if lines.len() == 1 {
        lines[0]
    } else {
        joined_lines(lines.drop_last()) + seq!['\n'] + lines.last()
    }
}

/// The selection read back from the fuzzy finder's trimmed output: present
/// only when it exited with success and the output is not empty.
pub open spec fn selection_of(success: bool, output: Seq<char>) -> Option<Seq<char>> {
    if success && output.len() > 0 {
        Some(output)
    } else {
        None
    }
}

/// Decides the first step from whether the fuzzy finder can be run.
pub fn selector_start(available: bool) -> (r: SelectorStart)
    ensures
        r == (if available {
            SelectorStart::FetchCatalog
        } else {
            SelectorStart::ShowGuidance
        }),
{
    if available {
        SelectorStart::FetchCatalog
    } else {
        SelectorStart::ShowGuidance
    }
}

/// The text handed to the fuzzy finder: the catalog, one identifier per line.
pub fn selector_input(catalog: &Vec<String>) -> (r: String)
    ensures
        r@ == joined_lines(views(catalog@)),
{
    let mut out = String::new();
    let mut i: usize = 0;
    while i < catalog.len()
        invariant
            i <= catalog@.len(),
            out@ == joined_lines(views(catalog@).take(i as int)),
        decreases catalog@.len() - i,
    {
        let ghost prev = views(catalog@).take(i as int);
        if i > 0 {
            out.append("\n");
        }
        out.append(catalog[i].as_str());
        proof {
            reveal_strlit("\n");
            let next = views(catalog@).take(i + 1);
            assert(next.last() == catalog@[i as int]@);
            assert(next.drop_last() =~= prev);
            if i == 0 {
                assert(out@ =~= next[0]);
            } else {
                assert(out@ =~= joined_lines(prev) + seq!['\n'] + next.last());
            }
        }
        i = i + 1;
    }
    proof {
        assert(views(catalog@).take(catalog@.len() as int) =~= views(catalog@));
    }
    out
}

/// The selection from an output that is already trimmed.
pub fn selection_from_trimmed(success: bool, output: &str) -> (r: Option<String>)
    ensures
        match r {
            Some(s) => selection_of(success, output@) == Some(s@),
            None => selection_of(success, output@) == None::<Seq<char>>,
        },
{
    if success && output.unicode_len() > 0 {
        Some(output.to_string())
    } else {
        None
    }
}

/// The selection from the fuzzy finder's exit status and raw output.
pub fn selection_from_output(success: bool, output: &str) -> (r: Option<String>)
    ensures
        match r {
            Some(s) => selection_of(success, trimmed(output@)) == Some(s@),
            None => selection_of(success, trimmed(output@)) == None::<Seq<char>>,
        },
{
    selection_from_trimmed(success, trim_str(output))
}

} // verus!
