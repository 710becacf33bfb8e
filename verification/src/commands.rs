//! The data behind the command-line surface: the prove and verify command
//! parameters and the verbosity-to-log-level mapping. Argument parsing,
//! file handling, and logging themselves live outside the library.

use vstd::prelude::*;

verus! {

/// The parameters of the proving command.
#[derive(Clone, Copy, Debug, PartialEq, Eq, Structural)]
pub struct ProveCommand {
    /// The secret number whose digit sum is proven (the witness).
    pub witness: u64,
    /// The claimed digit sum (the statement).
    pub statement: u64,
}

impl ProveCommand {
    /// Creates a new proving command.
    pub fn new(witness: u64, statement: u64) -> (c: Self)
        ensures
            c.witness == witness,
            c.statement == statement,
    {
        Self { witness, statement }
    }
}

/// The parameters of the verification command.
#[derive(Clone, Copy, Debug, PartialEq, Eq, Structural)]
pub struct VerifyCommand {
    /// The claimed digit sum (the statement).
    pub statement: u64,
}

impl VerifyCommand {
    /// Creates a new verification command.
    pub fn new(statement: u64) -> (c: Self)
        ensures
            c.statement == statement,
    {
        Self { statement }
    }
}

/// The logging verbosity levels of the command-line surface.
#[derive(Clone, Copy, Debug, PartialEq, Eq, Structural)]
pub enum LogLevel {
    /// Report errors only.
    Error,
    /// Also report warnings.
    Warning,
    /// Also report informational messages.
    Info,
    /// Also report debugging messages.
    Debug,
    /// Report everything.
    Trace,
}

/// The log level selected by a repeat-count verbosity flag.
pub open spec fn spec_log_level(verbose: u8) -> LogLevel {
    if verbose == 0 {
        LogLevel::Error
    } else if verbose == 1 {
        LogLevel::Warning
    } else if verbose == 2 {
        LogLevel::Info
    } else if verbose == 3 {
        LogLevel::Debug
    } else {
        LogLevel::Trace
    }
}

/// Maps the repeat-count verbosity flag to a log level.
pub fn log_level(verbose: u8) -> (l: LogLevel)
    ensures
        l == spec_log_level(verbose),
{
    match verbose {
        0 => LogLevel::Error,
        1 => LogLevel::Warning,
        2 => LogLevel::Info,
        3 => LogLevel::Debug,
        _ => LogLevel::Trace,
    }
}

} // verus!
