//! Severity levels and their order.

use vstd::prelude::*;

verus! {

/// The severity of a diagnostic event, from the most severe (`Error`) to the
/// most verbose (`Trace`).
#[derive(Clone, Copy, Debug, PartialEq, Eq, Structural, Hash)]
pub enum Level {
    Error,
    Warn,
    Info,
    Debug,
    Trace,
}

impl Level {
    /// The ordinal of a level: 1 for `Error` up to 5 for `Trace`. A lower
    /// ordinal is a more severe level.
    pub open spec fn ordinal(self) -> nat {
        match self {
            Level::Error => 1,
            Level::Warn => 2,
            Level::Info => 3,
            Level::Debug => 4,
            Level::Trace => 5,
        }
    }

    /// Whether an event of level `self` is at least as severe as `threshold`.
    pub open spec fn passes(self, threshold: Level) -> bool {
        self.ordinal() <= threshold.ordinal()
    }

    /// The ordinal of this level.
    pub fn rank(self) -> (r: u8)
        ensures
            r == self.ordinal(),
    {
        match self {
            Level::Error => 1,
            Level::Warn => 2,
            Level::Info => 3,
            Level::Debug => 4,
            Level::Trace => 5,
        }
    }

    /// Tells whether this level is at least as severe as `threshold`.
    pub fn is_at_least(self, threshold: Level) -> (r: bool)
        ensures
            r == self.passes(threshold),
    {
        self.rank() <= threshold.rank()
    }
}

} // verus!
