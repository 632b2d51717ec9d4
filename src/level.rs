use vstd::prelude::*;

verus! {

/// Severity of a record, from the most severe to the least.
#[derive(Debug, Clone, Copy, PartialEq, Eq, Structural)]
pub enum Level {
    /// Very serious errors.
    Error,
    /// Hazardous situations.
    Warn,
    /// Useful information.
    Info,
    /// Lower priority information.
    Debug,
    /// Very low priority, often extremely verbose, information.
    Trace,
}

/// The rank of a severity: 1 for `Error`, the most severe, up to 5 for `Trace`.
pub open spec fn rank(l: Level) -> nat {
    match l {
        Level::Error => 1,
        Level::Warn => 2,
        Level::Info => 3,
        Level::Debug => 4,
        Level::Trace => 5,
    }
}

/// A maximum severity admits its own level and every more severe one.
pub open spec fn admits_spec(max: Level, severity: Level) -> bool {
    rank(severity) <= rank(max)
}

impl Level {
    /// The rank of this severity (see `rank`).
    pub fn rank(&self) -> (r: u8)
        ensures
            r as nat == rank(*self),
    {
        match self {
            Level::Error => 1,
            Level::Warn => 2,
            Level::Info => 3,
            Level::Debug => 4,
            Level::Trace => 5,
        }
    }

    /// Whether a record of `severity` passes when `self` is the maximum.
    pub fn admits(&self, severity: Level) -> (r: bool)
        ensures
            r == admits_spec(*self, severity),
    {
        severity.rank() <= self.rank()
    }
}

} // verus!
