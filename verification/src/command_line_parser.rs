//! The command line: an optional `json` subcommand, `--model` and `--effort`.

use vstd::prelude::*;

verus! {

/// The parsed command line.
pub struct Cli {
    pub command: Option<Commands>,
    pub model: Option<String>,
    pub effort: Option<String>,
}

/// The subcommands.
#[derive(Debug, Clone, Copy, PartialEq, Eq, Structural)]
pub enum Commands {
    /// Exchange JSON lines instead of chatting in the terminal.
    Json,
}

} // verus!
