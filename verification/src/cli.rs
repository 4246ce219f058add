//! The command line of the monitor.
use vstd::prelude::*;

verus! {

/// Seconds between two samples when no interval is given.
pub const DEFAULT_INTERVAL: u64 = 2;

/// Number of processes that `procs` lists when no limit is given.
pub const DEFAULT_PROCS_LIMIT: usize = 10;

/// A subcommand: show the disks, or the processes that use the most.
#[derive(Clone, Copy, Debug, PartialEq, Eq, Structural)]
pub enum Commands {
    Disk,
    Procs { limit: usize },
}

/// The command line: the sampling interval in seconds and an optional
/// subcommand (none runs the dashboard).
#[derive(Clone, Copy, Debug, PartialEq, Eq, Structural)]
pub struct Cli {
    pub interval: u64,
    pub command: Option<Commands>,
}

impl Default for Cli {
    /// The command line without arguments.
    fn default() -> (cli: Self)
        ensures
            cli.interval == DEFAULT_INTERVAL,
            cli.command is None,
    {
        Cli { interval: DEFAULT_INTERVAL, command: None }
    }
}

} // verus!
