use vstd::prelude::*;

verus! {

/// Per-player clock budget and increment, in milliseconds. A game may be
/// untimed, in which case it carries no `TimeControl` at all. Clock expiry
/// is an external trigger that resigns on the flagged player's behalf; the
/// core keeps only the configured figures.
#[derive(Clone, Copy, PartialEq, Eq, Structural, Debug)]
pub struct TimeControl {
    pub budget_ms: u64,
    pub increment_ms: u64,
}

impl TimeControl {
    pub fn new(budget_ms: u64, increment_ms: u64) -> (r: TimeControl)
        ensures
            r == (TimeControl { budget_ms, increment_ms }),
    {
        TimeControl { budget_ms, increment_ms }
    }
}

} // verus!
