//! Easing curves: pure mappings from normalized progress in `[0, SCALE]`
//! to eased progress in `[0, SCALE]`.

use vstd::prelude::*;
use crate::animate::SCALE;
use crate::bezier::{bez_y, bezier_ease, bisect_spec, lemma_bisect_in_interval, SOLVE_STEPS};

verus! {

/// A curve determining how a transition's value moves over time.
///
/// The named variants are fixed cubic Bézier parameterizations; `Custom`
/// carries the four control coordinates of a user-supplied cubic Bézier,
/// each scaled by [`SCALE`].
#[derive(Clone, Copy, Debug, PartialEq, Eq, Structural)]
pub enum Curve {
    /// The identity mapping: progress eases into itself.
    Linear,
    /// A gentle start and gentle stop, with most motion early.
    Ease,
    /// A slow start that accelerates toward the target.
    EaseIn,
    /// A fast start that decelerates into the target.
    EaseOut,
    /// A slow start and a slow stop.
    EaseInOut,
    /// A user-supplied cubic Bézier easing with control points
    /// `(x1, y1)` and `(x2, y2)`, each coordinate in `[0, SCALE]`.
    Custom { x1: u64, y1: u64, x2: u64, y2: u64 },
}

impl Curve {
    /// Whether custom control coordinates are within `[0, SCALE]`.
    pub open spec fn wf(self) -> bool {
        match self {
            Curve::Custom { x1, y1, x2, y2 } => x1 <= SCALE && y1 <= SCALE && x2 <= SCALE
                && y2 <= SCALE,
            _ => true,
        }
    }

    /// The Bézier control coordinates of this curve, `(x1, y1, x2, y2)`.
    /// `Linear` lies on its own diagonal control points.
    pub open spec fn control_spec(self) -> (int, int, int, int) {
        match self {
            Curve::Linear => (0, 0, SCALE as int, SCALE as int),
            Curve::Ease => (250_000, 100_000, 250_000, SCALE as int),
            Curve::EaseIn => (420_000, 0, SCALE as int, SCALE as int),
            Curve::EaseOut => (0, 0, 580_000, SCALE as int),
            Curve::EaseInOut => (420_000, 0, 580_000, SCALE as int),
            Curve::Custom { x1, y1, x2, y2 } => (x1 as int, y1 as int, x2 as int, y2 as int),
        }
    }

    /// What easing returns: the endpoints exactly, the identity for
    /// `Linear`, and the solved Bézier value otherwise.
    pub open spec fn ease_spec(self, p: int) -> int {
        if p <= 0 {
            0
        } else if p >= SCALE {
            SCALE as int
        } else if self is Linear {
            p
        } else {
            let (x1, y1, x2, y2) = self.control_spec();
            bez_y(y1, y2, bisect_spec(x1, x2, p, 0, SCALE as int, SOLVE_STEPS as nat))
        }
    }

    /// Eases progress `p` along this curve.
    pub fn ease(&self, p: u64) -> (r: u64)
        requires
            self.wf(),
            p <= SCALE,
        ensures
            r == self.ease_spec(p as int),
            r <= SCALE,
    {
        if p == 0 {
            0
        } else if p >= SCALE {
            SCALE
        } else {
            match self {
                Curve::Linear => p,
                Curve::Ease => bezier_ease(250_000, 100_000, 250_000, SCALE, p),
                Curve::EaseIn => bezier_ease(420_000, 0, SCALE, SCALE, p),
                Curve::EaseOut => bezier_ease(0, 0, 580_000, SCALE, p),
                Curve::EaseInOut => bezier_ease(420_000, 0, 580_000, SCALE, p),
                Curve::Custom { x1, y1, x2, y2 } => bezier_ease(*x1, *y1, *x2, *y2, p),
            }
        }
    }
}

/// Easing never leaves the normalized range.
pub proof fn lemma_ease_spec_bounds(c: Curve, p: int)
    requires
        c.wf(),
    ensures
        0 <= c.ease_spec(p) <= SCALE,
{
    if 0 < p < SCALE && !(c is Linear) {
        let (x1, y1, x2, y2) = c.control_spec();
        let t = bisect_spec(x1, x2, p, 0, SCALE as int, SOLVE_STEPS as nat);
        lemma_bisect_in_interval(x1, x2, p, 0, SCALE as int, SOLVE_STEPS as nat);
        let s = SCALE as int;
        assert(3 * (s - t) * (s - t) * t * y1 >= 0 && 3 * (s - t) * t * t * y2 >= 0 && t * t * t
            * s >= 0) by (nonlinear_arith)
            requires
                0 <= t <= s,
                0 <= y1,
                0 <= y2,
                s == 1_000_000;
    }
}

/// Every curve maps progress `0` to `0` and full progress to full progress.
pub proof fn lemma_curve_boundaries(c: Curve)
    ensures
        c.ease_spec(0) == 0,
        c.ease_spec(SCALE as int) == SCALE as int,
{
}

impl Default for Curve {
    /// The curve a transition uses when no other curve is chosen.
    fn default() -> (r: Self)
        ensures
            r == Curve::Ease,
    {
        Curve::Ease
    }
}

} // verus!
