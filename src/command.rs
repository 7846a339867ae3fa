//! What the tool is asked to do.

use vstd::prelude::*;

verus! {

/// One invocation of the tool.
#[derive(Debug, PartialEq, Eq)]
pub enum Command {
    /// Print the catalog, one identifier per line.
    List,
    /// Download the named template into the destination.
    Download(String),
    /// Pick a template with the fuzzy finder, then download it.
    Interactive,
}

/// The command from the parsed arguments: the listing subcommand wins,
/// then a template name, and with neither the selection is interactive.
pub fn command_from_args(list: bool, template: Option<String>) -> (r: Command)
    ensures
        r == (if list {
            Command::List
        } else {
            match template {
                Some(name) => Command::Download(name),
                None => Command::Interactive,
            }
        }),
{
    if list {
        Command::List
    } else {
        match template {
            Some(name) => Command::Download(name),
            None => Command::Interactive,
        }
    }
}

} // verus!
