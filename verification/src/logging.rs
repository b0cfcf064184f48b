//! How much a run logs.

use vstd::prelude::*;

verus! {

/// The most detailed kind of message that is shown.
#[derive(Debug, Clone, Copy, PartialEq, Eq, Structural)]
pub enum LogLevel {
    Error,
    Warn,
    Info,
    Debug,
}

/// How detailed a level is: errors only is the least.
pub open spec fn detail(l: LogLevel) -> int {
    match l {
        LogLevel::Error => 0,
        LogLevel::Warn => 1,
        LogLevel::Info => 2,
        LogLevel::Debug => 3,
    }
}

/// The level of a run: errors only when quiet; otherwise warnings, with
/// one `-v` information as well, and with more the debugging messages too.
pub open spec fn spec_level(verbose: u8, quiet: bool) -> LogLevel {
    if quiet {
        LogLevel::Error
    } else if verbose == 0 {
        LogLevel::Warn
    } else if verbose == 1 {
        LogLevel::Info
    } else {
        LogLevel::Debug
    }
}

pub fn level_for(verbose: u8, quiet: bool) -> (l: LogLevel)
    ensures
        l == spec_level(verbose, quiet),
{
    if quiet {
        LogLevel::Error
    } else {
        match verbose {
            0 => LogLevel::Warn,
            1 => LogLevel::Info,
            _ => LogLevel::Debug,
        }
    }
}

/// Quiet wins over any verbosity, and more verbosity never shows less.
pub proof fn lemma_level_order(v1: u8, v2: u8, quiet: bool)
    requires
        v1 <= v2,
    ensures
        spec_level(v1, true) == LogLevel::Error,
        detail(spec_level(v1, quiet)) <= detail(spec_level(v2, quiet)),
{
}

} // verus!
