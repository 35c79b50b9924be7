//! Severity levels of log events.

use vstd::prelude::*;

verus! {

/// Severity of a log event, most severe first.
///
/// The adapter does not interpret the level; it only carries it across the
/// thread boundary unchanged.  It is nevertheless an ordered enum: a smaller
/// severity index means a more severe event.
#[derive(Clone, Copy, Debug, PartialEq, Eq, Structural)]
pub enum Level {
    /// The most severe level.
    Critical,
    /// An error.
    Error,
    /// A warning.
    Warning,
    /// Informational.
    Info,
    /// Debugging.
    Debug,
    /// The least severe level.
    Trace,
}

impl Level {
    /// The severity index of this level: `1` for the most severe level,
    /// `6` for the least severe one.
    pub open spec fn spec_severity(self) -> int {
        match self {
            Level::Critical => 1,
            Level::Error => 2,
            Level::Warning => 3,
            Level::Info => 4,
            Level::Debug => 5,
            Level::Trace => 6,
        }
    }

    /// Returns the severity index of this level.
    pub fn as_usize(self) -> (s: usize)
        ensures
            s == self.spec_severity(),
    {
        match self {
            Level::Critical => 1,
            Level::Error => 2,
            Level::Warning => 3,
            Level::Info => 4,
            Level::Debug => 5,
            Level::Trace => 6,
        }
    }

    /// Returns true when `self` is at least as severe as `other`.
    pub fn is_at_least(self, other: Level) -> (r: bool)
        ensures
            r == (self.spec_severity() <= other.spec_severity()),
    {
        self.as_usize() <= other.as_usize()
    }
}

} // verus!
