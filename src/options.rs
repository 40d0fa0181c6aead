use vstd::prelude::*;
use crate::scheduler::{Scheduler, DEFAULT_DEBOUNCE_MS};

verus! {

/// What the user asked for on the command line.
pub struct CmdOption {
    /// Run the command once at startup, before any change.
    pub immediate: bool,
    /// Do not print a line for each change.
    pub quiet: bool,
    /// The directory to watch.
    pub directory: String,
    /// The glob that changed paths, relative to the directory, must match.
    pub pattern: String,
    /// The command to run.
    pub command: String,
    /// The arguments of the command.
    pub command_args: Vec<String>,
}

impl CmdOption {
    /// The scheduler for these options, with the default debounce interval.
    pub fn scheduler(&self) -> (r: Scheduler)
        ensures
            r.debounce_view() == DEFAULT_DEBOUNCE_MS as int,
            r.quiet_view() == self.quiet,
            !r.running_view(),
    {
        Scheduler::new(DEFAULT_DEBOUNCE_MS, self.quiet)
    }
}

} // verus!
