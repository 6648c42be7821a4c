//! The options the tool is started with, as plain values.

use vstd::prelude::*;

verus! {

/// What the command line asked for.
pub struct Cli {
    /// The subcommand, where one was given.
    pub command: Option<Commands>,
    /// Whether diagnostic lines are wanted.
    pub verbose: bool,
    /// Whether results are to be written as JSON.
    pub output_json: bool,
}

/// The subcommands of the tool.
#[derive(Clone, Copy, Debug, PartialEq, Eq, Structural)]
pub enum Commands {
    /// Put the configuration back to its default values.
    ResetConfig,
}

} // verus!
