//! The ways in which the overlay can fail.

use vstd::prelude::*;

verus! {

/// Why an operation of the overlay could not be carried out.
#[derive(Clone, Copy, Debug, PartialEq, Eq, Structural)]
pub enum StatsError {
    /// The host offers no drawing environment, or no clock, to build on.
    EnvironmentUnavailable,
    /// The host could not provide a drawing surface for a panel.
    SurfaceUnavailable,
    /// The host offers no high-resolution clock.
    ClockUnavailable,
    /// The host element refused to take the overlay as a child.
    ParentRejected,
    /// The overlay is not a child of the host element it was to leave.
    NotAChild,
}

} // verus!
