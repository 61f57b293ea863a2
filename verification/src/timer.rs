//! The advance timer: when the cursor is due to move.
//!
//! Timestamps and intervals are counts of nanoseconds. Timestamps are
//! measured from an origin that the caller chooses and keeps for the whole
//! run.

use vstd::prelude::*;

verus! {

/// The time that has passed between `last_advance` and `now`; zero where
/// `now` lies before `last_advance`.
pub open spec fn elapsed(last_advance: int, now: int) -> int {
    if now >= last_advance {
        now - last_advance
    } else {
        0
    }
}

/// Whether at least `interval` has passed since `last_advance`.
pub open spec fn advance_due(last_advance: int, interval: int, now: int) -> bool {
    elapsed(last_advance, now) >= interval
}

/// The boundary is inclusive: when exactly `interval` has passed, the
/// advance is due.
pub proof fn lemma_due_at_boundary(last_advance: int, interval: int)
    requires
        interval >= 0,
    ensures
        advance_due(last_advance, interval, last_advance + interval),
{
}

/// Until the interval is over, the advance is not due.
pub proof fn lemma_not_due_before_boundary(last_advance: int, interval: int, now: int)
    requires
        now < last_advance + interval,
        interval > 0,
    ensures
        !advance_due(last_advance, interval, now),
{
}

/// Decides whether the cursor is due to advance at time `now`.
pub fn is_due(last_advance: u128, interval: u128, now: u128) -> (r: bool)
    ensures
        r == advance_due(last_advance as int, interval as int, now as int),
{
    now.saturating_sub(last_advance) >= interval
}

} // verus!
