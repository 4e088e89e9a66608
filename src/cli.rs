//! The command line as plain values: global switches and the four commands.
use vstd::prelude::*;

use crate::cleaner::MetadataCleaner;
use crate::types::{CleanMode, CleanOptions};

verus! {

/// Switches that apply to every command.
#[derive(Debug, Clone, Copy, PartialEq, Eq, Structural)]
pub struct GlobalOptions {
    /// Make no change.
    pub dry_run: bool,
    /// Report each file.
    pub verbose: bool,
    /// Skip confirmation prompts.
    pub yes: bool,
    /// Also reassign file owners (needs elevated privileges).
    pub admin: bool,
}

/// What to do, and on which path (the current directory when none is given).
#[derive(Debug, Clone)]
pub enum Commands {
    /// Clean one file.
    File { path: Option<String> },
    /// Clean the files directly in a directory.
    Dir { path: Option<String> },
    /// Clean every file below a directory.
    Recursive { path: Option<String> },
    /// Show a file's metadata.
    Info { path: Option<String> },
}

/// A parsed command line.
#[derive(Debug, Clone)]
pub struct Cli {
    /// The global switches.
    pub global: GlobalOptions,
    /// The command.
    pub command: Commands,
}

impl GlobalOptions {
    /// The cleaning options these switches ask for: every unprivileged step,
    /// with dry-run, verbosity and owner clearing as switched.
    pub open spec fn options_spec(&self) -> CleanOptions {
        CleanOptions {
            dry_run: self.dry_run,
            verbose: self.verbose,
            clear_owner: self.admin,
            ..CleanOptions::all_spec()
        }
    }

    /// The cleaning options these switches ask for.
    pub fn clean_options(&self) -> (r: CleanOptions)
        ensures
            r == self.options_spec(),
    {
        CleanOptions::all().with_dry_run(self.dry_run).with_verbose(self.verbose).with_admin(
            self.admin,
        )
    }

    /// A cleaner with the options these switches ask for.
    pub fn create_cleaner(&self) -> (r: MetadataCleaner)
        ensures
            r.options == self.options_spec(),
    {
        MetadataCleaner::with_options(self.clean_options())
    }
}

impl Commands {
    /// The traversal a command cleans with; `None` for showing information.
    pub fn mode(&self) -> (r: Option<CleanMode>)
        ensures
            r == match self {
                Commands::File { .. } => Some(CleanMode::SingleFile),
                Commands::Dir { .. } => Some(CleanMode::Shallow),
                Commands::Recursive { .. } => Some(CleanMode::Deep),
                Commands::Info { .. } => None,
            },
    {
        match self {
            Commands::File { .. } => Some(CleanMode::SingleFile),
            Commands::Dir { .. } => Some(CleanMode::Shallow),
            Commands::Recursive { .. } => Some(CleanMode::Deep),
            Commands::Info { .. } => None,
        }
    }
}

} // verus!
