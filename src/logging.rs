//! How much a process logs, from how verbose and how quiet it was asked to be.
use vstd::prelude::*;

verus! {

/// The most detailed kind of record that is still logged.
#[derive(Clone, Copy, Debug, PartialEq, Eq, Structural)]
pub enum Level {
    /// Nothing is logged.
    Off,
    /// Errors, warnings and information.
    Info,
    /// All of `Info`, and debugging records.
    Debug,
    /// Everything.
    Trace,
}

/// The level for a verbosity count and a quiet switch: quiet silences
/// everything; otherwise each step of verbosity shows more, up to everything.
pub open spec fn level_spec(verbosity: nat, quiet: bool) -> Level {
    if quiet {
        Level::Off
    } else if verbosity == 0 {
        Level::Info
    } else if verbosity == 1 {
        Level::Debug
    } else {
        Level::Trace
    }
}

/// Chooses the level for a verbosity count and a quiet switch.
pub fn log_level(verbosity: usize, quiet: bool) -> (r: Level)
    ensures
        r == level_spec(verbosity as nat, quiet),
{
    if quiet {
        Level::Off
    } else {
        match verbosity {
            0 => Level::Info,
            1 => Level::Debug,
            _ => Level::Trace,
        }
    }
}

} // verus!
