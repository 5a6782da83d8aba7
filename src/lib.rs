//! A wall clock for travellers: while moving from one fixed UTC offset to
//! another, the displayed time runs at a constant, offset-corrected rate so that
//! it reaches the destination's local time exactly on arrival.
use vstd::prelude::*;

pub mod chrono_utils;
pub mod instant;
pub mod session;
pub mod wallclock;

verus! {

/// What can go wrong when configuring or querying a clock.
#[derive(Debug, Clone, Copy, PartialEq, Eq, Structural)]
pub enum ClockError {
    /// A timestamp could not be read, or lies outside the supported range.
    BadTimestamp,
    /// The start and the end denote the same instant, so no rate exists.
    ZeroDuration,
    /// A query was made before any interval was configured.
    NotConfigured,
}

} // verus!
