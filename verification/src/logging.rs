//! How much the log says, by the verbosity that the user asked for.

use vstd::prelude::*;

verus! {

/// What the log lets through.
#[derive(Debug, Clone, Copy, PartialEq, Eq, Structural)]
pub enum LogLevel {
    Warn,
    Info,
    Debug,
    Trace,
}

/// The level for a verbosity: warnings without `-v`, then one level more
/// for each `-v`, up to everything.
pub open spec fn level_of(verbosity: u8) -> LogLevel {
    if verbosity == 0 {
        LogLevel::Warn
    } else if verbosity == 1 {
        LogLevel::Info
    } else if verbosity == 2 {
        LogLevel::Debug
    } else {
        LogLevel::Trace
    }
}

/// The level for a verbosity.
pub fn level_for(verbosity: u8) -> (level: LogLevel)
    ensures
        level == level_of(verbosity),
{
    match verbosity {
        0 => LogLevel::Warn,
        1 => LogLevel::Info,
        2 => LogLevel::Debug,
        _ => LogLevel::Trace,
    }
}

/// Whether the log names the module that a line comes from: it does from
/// the second `-v` on.
pub fn shows_target(verbosity: u8) -> (r: bool)
    ensures
        r == (verbosity >= 2),
{
    verbosity >= 2
}

} // verus!
