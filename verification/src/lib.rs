//! An animation layer for retained-mode user interfaces.
//!
//! A [`transition::Transition`] moves a value of any type implementing the
//! [`animate::Animate`] capability from an initial point toward a target
//! point over wall-clock time, along a configurable easing curve.  All
//! arithmetic is carried out in fixed-point integers scaled by
//! [`animate::SCALE`], so every step of the state machine is exact and
//! verified.

use vstd::prelude::*;

pub mod animate;
pub mod bezier;
pub mod curve;
pub mod progress;
pub mod easing;
pub mod highlight;
pub mod style;
pub mod theme;
pub mod transition;

verus! {

/// The number of milliseconds a transition takes when no other duration is
/// chosen.
pub const DEFAULT_DURATION_MS: u64 = 500;

} // verus!
