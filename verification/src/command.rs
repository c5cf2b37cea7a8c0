//! What an external program handed back.

use vstd::prelude::*;

verus! {

/// The end of a program that could be started.
#[derive(Debug, Clone, PartialEq, Eq)]
pub struct CommandOutput {
    /// Whether the program ended with exit status zero.
    pub success: bool,
    /// What it wrote to standard output.
    pub stdout: String,
    /// What it wrote to standard error.
    pub stderr: String,
}

/// A run of an external program: what it handed back, or why it could not be
/// started.
pub type CommandRun = Result<CommandOutput, String>;

} // verus!
