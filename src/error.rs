//! The failures the tool reports, and the HTTP status rule they rest on.

use vstd::prelude::*;

verus! {

/// A failure of one step, surfaced to the command that ran it.
#[derive(Debug, PartialEq, Eq)]
pub enum GitignoreError {
    /// The listing endpoint answered with a non-success status.
    Remote(u16),
    /// The listing body was not an array of entries with a name and a type.
    Parse(String),
    /// The content endpoint had no template of this identifier.
    NotFound(String),
    /// Reading the terminal or writing the destination failed.
    Io(String),
    /// Running or talking to the selector process failed.
    Process(String),
}

/// An HTTP status in the success class, 200 to 299.
pub open spec fn is_success_status(code: u16) -> bool {
    200 <= code < 300
}

/// Tells whether an HTTP status is in the success class.
pub fn status_is_success(code: u16) -> (r: bool)
    ensures
        r == is_success_status(code),
{
    200 <= code && code < 300
}

} // verus!
