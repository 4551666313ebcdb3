use vstd::prelude::*;

verus! {

/// Severity of an event, totally ordered from `Debug` (lowest) to `Fatal` (highest).
#[derive(Clone, Copy, Debug, PartialEq, Eq, Structural, Hash)]
pub enum Level {
    Debug,
    Info,
    Warning,
    Error,
    Fatal,
}

impl Level {
    /// Position of the level in the severity order.
    pub open spec fn rank(self) -> nat {
        match self {
            Level::Debug => 0,
            Level::Info => 1,
            Level::Warning => 2,
            Level::Error => 3,
            Level::Fatal => 4,
        }
    }

    /// Numeric severity: 0 for `Debug` up to 4 for `Fatal`.
    pub fn severity(&self) -> (r: u8)
        ensures
            r as nat == self.rank(),
    {
        match self {
            Level::Debug => 0,
            Level::Info => 1,
            Level::Warning => 2,
            Level::Error => 3,
            Level::Fatal => 4,
        }
    }

    /// Whether this level is at least as severe as `min`.
    pub fn is_at_least(&self, min: Level) -> (r: bool)
        ensures
            r == (self.rank() >= min.rank()),
    {
        self.severity() >= min.severity()
    }
}

} // verus!
