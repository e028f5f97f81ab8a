use vstd::prelude::*;

verus! {

/// Severity of a message, from most chatty to fully silent.
#[derive(Clone, Copy, Debug, PartialEq, Eq, PartialOrd, Ord, Hash, Structural)]
pub enum LogLevel {
    Trace,
    Debug,
    Info,
    Verbose,
    Warn,
    Error,
    Fatal,
    Off,
}

impl LogLevel {
    /// Numeric rank of a level; a higher rank is more severe.
    pub open spec fn spec_severity(self) -> u8 {
        match self {
            LogLevel::Trace => 0,
            LogLevel::Debug => 1,
            LogLevel::Info => 2,
            LogLevel::Verbose => 3,
            LogLevel::Warn => 4,
            LogLevel::Error => 5,
            LogLevel::Fatal => 6,
            LogLevel::Off => 7,
        }
    }

    pub fn severity(&self) -> (r: u8)
        ensures
            r == self.spec_severity(),
    {
        match self {
            LogLevel::Trace => 0,
            LogLevel::Debug => 1,
            LogLevel::Info => 2,
            LogLevel::Verbose => 3,
            LogLevel::Warn => 4,
            LogLevel::Error => 5,
            LogLevel::Fatal => 6,
            LogLevel::Off => 7,
        }
    }

    /// Whether a message at level `self` passes a filter set to `threshold`.
    pub fn at_least(&self, threshold: &LogLevel) -> (r: bool)
        ensures
            r == (self.spec_severity() >= threshold.spec_severity()),
    {
        self.severity() >= threshold.severity()
    }
}

/// The filter level selected by the run's verbosity flags: verbose shows
/// everything, quiet only errors, and the default shows informational output.
pub open spec fn spec_level_for(verbose: bool, quiet: bool) -> LogLevel {
    if verbose && !quiet {
        LogLevel::Trace
    } else if quiet {
        LogLevel::Error
    } else {
        LogLevel::Info
    }
}

pub fn level_for(verbose: bool, quiet: bool) -> (r: LogLevel)
    ensures
        r == spec_level_for(verbose, quiet),
{
    if verbose && !quiet {
        LogLevel::Trace
    } else if quiet {
        LogLevel::Error
    } else {
        LogLevel::Info
    }
}

} // verus!
