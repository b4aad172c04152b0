//! The commands the tool understands, as plain values.
use vstd::prelude::*;

verus! {

/// A parsed command line.
#[derive(Debug, Clone, PartialEq)]
pub struct Cli {
    pub command: Commands,
}

/// The top-level commands.
#[allow(inconsistent_fields)]
#[derive(Debug, Clone, PartialEq)]
pub enum Commands {
    /// Manage host configurations.
    Config { action: ConfigAction },
    /// Trigger a build, optionally following its log.
    Build { job_name: Option<String>, follow: bool },
    /// Show the status of a job or of one build.
    Status { job_name: Option<String>, build: Option<i32> },
    /// Show the console log of a build, optionally following it.
    Logs { job_name: Option<String>, build: Option<i32>, follow: bool },
    /// Open a job or build in the browser.
    Open { job_name: Option<String>, build: Option<i32> },
    /// Print a shell completion script.
    Completion { shell: Shell },
    /// Manage job aliases.
    Alias { action: AliasAction },
}

/// The shells a completion script can be written for.
#[derive(Debug, Clone, Copy, PartialEq, Eq, Structural)]
pub enum Shell {
    Bash,
    Zsh,
    Fish,
    PowerShell,
}

/// The host configuration commands.
#[derive(Debug, Clone, Copy, PartialEq, Eq, Structural)]
pub enum ConfigAction {
    Add,
    List,
    Remove,
}

/// The alias commands.
#[derive(Debug, Clone, PartialEq)]
pub enum AliasAction {
    Add { alias: Option<String>, job_name: Option<String> },
    List,
    Remove { alias: Option<String> },
}

} // verus!
