//! The drop status state machine.
//!
//! A drop moves monotonically through `Scheduled -> Active -> Ended ->
//! Purged`; a drop that has reached `Ended` or `Purged` is never
//! re-activated.

use vstd::prelude::*;

verus! {

/// Lifecycle state of a drop.
#[derive(Clone, Copy, Debug, PartialEq, Eq, Structural)]
pub enum DropStatus {
    /// `start_at` lies in the future.
    Scheduled,
    /// The current time lies within `[start_at, end_at)`.
    Active,
    /// Past `end_at`, or administratively ended.
    Ended,
    /// Assets reclaimed after the grace period; terminal.
    Purged,
}

/// Position of a status along the lifecycle; transitions only increase it.
pub open spec fn status_rank(s: DropStatus) -> int {
    match s {
        DropStatus::Scheduled => 0,
        DropStatus::Active => 1,
        DropStatus::Ended => 2,
        DropStatus::Purged => 3,
    }
}

/// `a` may lawfully evolve into `b` (possibly over several transitions).
pub open spec fn status_le(a: DropStatus, b: DropStatus) -> bool {
    status_rank(a) <= status_rank(b)
}

/// A drop in one of these states still accepts claims and natural expiry.
pub open spec fn spec_is_live(s: DropStatus) -> bool {
    s == DropStatus::Scheduled || s == DropStatus::Active
}

impl DropStatus {
    /// Whether the status is `Scheduled` or `Active`.
    pub fn is_live(&self) -> (r: bool)
        ensures
            r == spec_is_live(*self),
    {
        match self {
            DropStatus::Scheduled => true,
            DropStatus::Active => true,
            DropStatus::Ended => false,
            DropStatus::Purged => false,
        }
    }

    /// The integer code a relational store or a query parameter carries.
    pub fn code(&self) -> (c: i32)
        ensures
            c == status_rank(*self),
    {
        match self {
            DropStatus::Scheduled => 0,
            DropStatus::Active => 1,
            DropStatus::Ended => 2,
            DropStatus::Purged => 3,
        }
    }
}

/// The status a drop is created with: immediately active when its window
/// has opened, scheduled otherwise.
pub open spec fn spec_initial_status(now: i64, start_at: i64) -> DropStatus {
    if now >= start_at {
        DropStatus::Active
    } else {
        DropStatus::Scheduled
    }
}

/// Computes the creation-time status from the clock and the window start.
pub fn initial_status(now: i64, start_at: i64) -> (s: DropStatus)
    ensures
        s == spec_initial_status(now, start_at),
{
    if now >= start_at {
        DropStatus::Active
    } else {
        DropStatus::Scheduled
    }
}

} // verus!
