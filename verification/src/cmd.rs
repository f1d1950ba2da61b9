//! The command-line surface: which subcommand runs, and the options that
//! apply to all of them. Argument parsing itself happens outside the
//! library; the parsed values are handed in as plain data.

use vstd::prelude::*;

verus! {

/// The daemon's subcommands.
#[derive(Clone, Copy, Debug, PartialEq, Eq, Structural, Default)]
pub enum Subcmd {
    /// Launch the daemon directly in the console.
    #[default]
    Launch,
    /// Install the service.
    Install,
    /// Uninstall the service.
    Uninstall,
    /// Reinstall the service.
    Reinstall,
    /// Start the service.
    Start,
    /// Stop the service.
    Stop,
    /// Restart the service.
    Restart,
}

/// The command line options to be collected.
#[derive(Clone, Copy, Debug)]
pub struct Clavy {
    /// The chosen subcommand, if any.
    pub subcmd: Option<Subcmd>,
    /// Do not use colors in output.
    pub no_color: bool,
}

impl Clavy {
    /// The subcommand to dispatch on: launching the daemon directly when
    /// none was given.
    pub fn effective_subcmd(&self) -> (c: Subcmd)
        ensures
            c == match self.subcmd {
                Some(given) => given,
                None => Subcmd::Launch,
            },
    {
        match self.subcmd {
            Some(given) => given,
            None => Subcmd::Launch,
        }
    }
}

} // verus!
