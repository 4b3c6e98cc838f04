//! An immutable configuration bundle used to seed new transitions
//! declaratively: a curve, a duration, and whether retargeting back to the
//! initial value may reverse the movement in place.

use vstd::prelude::*;
use crate::curve::Curve;
use crate::DEFAULT_DURATION_MS;

verus! {

/// A configuration for creating a transition.
#[derive(Clone, Copy, Debug, PartialEq, Eq, Structural)]
pub struct Easing {
    /// The curve to use to determine how the value moves over time.
    pub curve: Curve,
    /// How many milliseconds the transition should take to complete.
    pub duration_ms: u64,
    /// Whether a new target equal to the initial value should move the
    /// transition backwards along the same curve.  The flag is consulted
    /// by the widget adapter driving the transition, not by the
    /// transition's own state machine.
    pub reversible: bool,
}

impl Default for Easing {
    /// The default easing: the default curve, the default duration, not
    /// reversible.
    fn default() -> (r: Self)
        ensures
            r.curve == Curve::Ease,
            r.duration_ms == DEFAULT_DURATION_MS,
            !r.reversible,
    {
        Easing { curve: Curve::default(), duration_ms: DEFAULT_DURATION_MS, reversible: false }
    }
}

impl Easing {
    /// The default easing over [`Curve::Linear`].
    pub fn linear() -> (r: Self)
        ensures
            r == (Easing { curve: Curve::Linear, duration_ms: DEFAULT_DURATION_MS, reversible: false }),
    {
        Easing { curve: Curve::Linear, duration_ms: DEFAULT_DURATION_MS, reversible: false }
    }

    /// The default easing over [`Curve::Ease`].
    pub fn ease() -> (r: Self)
        ensures
            r == (Easing { curve: Curve::Ease, duration_ms: DEFAULT_DURATION_MS, reversible: false }),
    {
        Easing { curve: Curve::Ease, duration_ms: DEFAULT_DURATION_MS, reversible: false }
    }

    /// The default easing over [`Curve::EaseIn`].
    pub fn ease_in() -> (r: Self)
        ensures
            r == (Easing { curve: Curve::EaseIn, duration_ms: DEFAULT_DURATION_MS, reversible: false }),
    {
        Easing { curve: Curve::EaseIn, duration_ms: DEFAULT_DURATION_MS, reversible: false }
    }

    /// The default easing over [`Curve::EaseOut`].
    pub fn ease_out() -> (r: Self)
        ensures
            r == (Easing { curve: Curve::EaseOut, duration_ms: DEFAULT_DURATION_MS, reversible: false }),
    {
        Easing { curve: Curve::EaseOut, duration_ms: DEFAULT_DURATION_MS, reversible: false }
    }

    /// The default easing over [`Curve::EaseInOut`].
    pub fn ease_in_out() -> (r: Self)
        ensures
            r == (Easing {
                curve: Curve::EaseInOut,
                duration_ms: DEFAULT_DURATION_MS,
                reversible: false,
            }),
    {
        Easing { curve: Curve::EaseInOut, duration_ms: DEFAULT_DURATION_MS, reversible: false }
    }

    /// Creates a new easing with the given `curve` and the default
    /// duration.
    pub fn new(curve: Curve) -> (r: Self)
        ensures
            r == (Easing { curve, duration_ms: DEFAULT_DURATION_MS, reversible: false }),
    {
        Easing { curve, duration_ms: DEFAULT_DURATION_MS, reversible: false }
    }

    /// Sets the curve and returns the updated easing.
    pub fn with_curve(self, curve: Curve) -> (r: Self)
        ensures
            r == (Easing { curve, ..self }),
    {
        Easing { curve, ..self }
    }

    /// Sets the duration in milliseconds and returns the updated easing.
    pub fn with_duration(self, duration_ms: u64) -> (r: Self)
        ensures
            r == (Easing { duration_ms, ..self }),
    {
        Easing { duration_ms, ..self }
    }

    /// Sets the duration to 100 milliseconds.
    pub fn very_quick(self) -> (r: Self)
        ensures
            r == (Easing { duration_ms: 100, ..self }),
    {
        self.with_duration(100)
    }

    /// Sets the duration to 200 milliseconds.
    pub fn quick(self) -> (r: Self)
        ensures
            r == (Easing { duration_ms: 200, ..self }),
    {
        self.with_duration(200)
    }

    /// Sets the duration to 400 milliseconds.
    pub fn slow(self) -> (r: Self)
        ensures
            r == (Easing { duration_ms: 400, ..self }),
    {
        self.with_duration(400)
    }

    /// Sets the duration to 500 milliseconds.
    pub fn very_slow(self) -> (r: Self)
        ensures
            r == (Easing { duration_ms: 500, ..self }),
    {
        self.with_duration(500)
    }

    /// Sets whether the easing is reversible and returns the updated
    /// easing.
    pub fn reversible(self, reversible: bool) -> (r: Self)
        ensures
            r == (Easing { reversible, ..self }),
    {
        Easing { reversible, ..self }
    }
}

} // verus!
