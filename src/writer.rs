//! The local write: when the destination is written, and when the user is
//! asked first.

use vstd::prelude::*;
use crate::text::{lowercase_str, lowercased, trim_str, trimmed};

verus! {

/// The destination file, in the current directory.
pub const DESTINATION: &'static str = ".gitignore";

/// The question asked before an existing destination is replaced.
pub const OVERWRITE_PROMPT: &'static str = ".gitignore already exists. Overwrite? (y/N): ";

/// What the writer does next.
#[derive(Debug, Clone, Copy, PartialEq, Eq)]
pub enum WriteAction {
    /// Replace the destination's contents with the template.
    WriteFile,
    /// Ask on the terminal whether to replace the existing destination.
    AskOverwrite,
    /// Leave the destination as it is.
    Abort,
}

/// How a write request ended.
#[derive(Debug, Clone, Copy, PartialEq, Eq)]
pub enum WriteOutcome {
    Written,
    Aborted,
}

/// A normalised answer that agrees: it starts with `y`.
pub open spec fn is_affirmative(answer: Seq<char>) -> bool {
    answer.len() > 0 && answer[0] == 'y'
}

/// A typed answer that agrees once trimmed and lower-cased.
pub open spec fn confirms(input: Seq<char>) -> bool {
    is_affirmative(lowercased(trimmed(input)))
}

/// The first step: a missing destination is written at once, an existing
/// one is asked about first.
pub fn action_for_destination(exists: bool) -> (r: WriteAction)
    ensures
        r == (if exists {
            WriteAction::AskOverwrite
        } else {
            WriteAction::WriteFile
        }),
{
    if exists {
        WriteAction::AskOverwrite
    } else {
        WriteAction::WriteFile
    }
}

/// Tells whether an already trimmed and lower-cased answer agrees.
pub fn is_affirmative_answer(answer: &str) -> (r: bool)
    ensures
        r == is_affirmative(answer@),
{
    if answer.unicode_len() == 0 {
        false
    } else {
        answer.get_char(0) == 'y'
    }
}

/// Tells whether a typed line agrees to the overwrite; the default is no.
pub fn confirms_overwrite(input: &str) -> (r: bool)
    ensures
        r == confirms(input@),
{
    let t = trim_str(input);
    let lower = lowercase_str(t);
    is_affirmative_answer(lower.as_str())
}

/// The step after the question: write on agreement, else abort.
pub fn action_for_answer(input: &str) -> (r: WriteAction)
    ensures
        r == (if confirms(input@) {
            WriteAction::WriteFile
        } else {
            WriteAction::Abort
        }),
{
    if confirms_overwrite(input) {
        WriteAction::WriteFile
    } else {
        WriteAction::Abort
    }
}

} // verus!
