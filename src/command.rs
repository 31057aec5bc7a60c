//! The requests that the command line can make.
use vstd::prelude::*;

verus! {

/// One request of the command line.
#[derive(Debug)]
pub enum Command {
    /// Fetch a new dependency and record it.
    Add { name: String, uri: String, path: String, local: bool, update: String },
    /// Update the dependency of this name, or every one for `all`.
    Update { name: String },
    /// Delete a dependency's file and forget it.
    Remove { name: String },
    /// Show the tracked dependencies.
    List,
}

/// What the command line was given.
#[derive(Debug)]
pub struct Arguments {
    pub command: Command,
}

} // verus!
