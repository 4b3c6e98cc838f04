//! A directional scalar in `[0, SCALE]` tracking how far a transition has
//! advanced.  `Forward` counts up toward `SCALE`; `Reverse` counts down
//! toward `0`.  Both `Forward(SCALE)` and `Reverse(0)` are at rest.

use vstd::prelude::*;
use crate::animate::SCALE;

verus! {

/// How far along a transition is, and in which direction it is moving.
#[derive(Clone, Copy, Debug, PartialEq, Eq, Structural)]
pub enum Progress {
    /// Moving from the initial value toward the target; complete at `SCALE`.
    Forward(u64),
    /// Moving back toward the initial value; complete at `0`.
    Reverse(u64),
}

impl Progress {
    /// The held fraction is within `[0, SCALE]`.
    pub open spec fn wf(self) -> bool {
        match self {
            Progress::Forward(p) => p <= SCALE,
            Progress::Reverse(p) => p <= SCALE,
        }
    }

    /// The fraction in the forward sense, whichever direction is current:
    /// `0` means "at the initial value", `SCALE` means "at the target".
    pub open spec fn fraction_spec(self) -> int {
        match self {
            Progress::Forward(p) => p as int,
            Progress::Reverse(p) => p as int,
        }
    }

    /// Whether the current direction has reached its terminal fraction.
    pub open spec fn is_complete_spec(self) -> bool {
        match self {
            Progress::Forward(p) => p == SCALE,
            Progress::Reverse(p) => p == 0,
        }
    }

    /// The progress after the direction flips.  The fraction is kept, so
    /// the visual position is preserved: a reverse at fraction `p` keeps
    /// easing through the same curve point.
    pub open spec fn reversed_spec(self) -> Progress {
        match self {
            Progress::Forward(p) => Progress::Reverse(p),
            Progress::Reverse(p) => Progress::Forward(p),
        }
    }

    /// The progress after being forced to the terminal fraction for the
    /// current direction.
    pub open spec fn settled_spec(self) -> Progress {
        match self {
            Progress::Forward(_) => Progress::Forward(SCALE),
            Progress::Reverse(_) => Progress::Reverse(0),
        }
    }

    /// The progress after advancing by `delta` in the current direction,
    /// clamped to `[0, SCALE]`.
    pub open spec fn updated_spec(self, delta: int) -> Progress {
        match self {
            Progress::Forward(p) => if p + delta >= SCALE {
                Progress::Forward(SCALE)
            } else {
                Progress::Forward((p + delta) as u64)
            },
            Progress::Reverse(p) => if p - delta <= 0 {
                Progress::Reverse(0)
            } else {
                Progress::Reverse((p - delta) as u64)
            },
        }
    }

    /// The fraction in the forward sense, for curve evaluation.
    pub fn value(&self) -> (r: u64)
        ensures
            r == self.fraction_spec(),
    {
        match self {
            Progress::Forward(p) => *p,
            Progress::Reverse(p) => *p,
        }
    }

    /// Whether the current direction has reached its terminal fraction.
    pub fn is_complete(&self) -> (r: bool)
        ensures
            r == self.is_complete_spec(),
    {
        match self {
            Progress::Forward(p) => *p == SCALE,
            Progress::Reverse(p) => *p == 0,
        }
    }

    /// Flips the direction in place, keeping the fraction.
    pub fn reverse(&mut self)
        ensures
            *final(self) == old(self).reversed_spec(),
    {
        *self = match self {
            Progress::Forward(p) => Progress::Reverse(*p),
            Progress::Reverse(p) => Progress::Forward(*p),
        };
    }

    /// Forces the terminal fraction for the current direction.
    pub fn settle(&mut self)
        ensures
            *final(self) == old(self).settled_spec(),
            final(self).is_complete_spec(),
            final(self).wf(),
    {
        *self = match self {
            Progress::Forward(_) => Progress::Forward(SCALE),
            Progress::Reverse(_) => Progress::Reverse(0),
        };
    }

    /// Advances by `delta` in the current direction, clamped to
    /// `[0, SCALE]`.
    pub fn update(&mut self, delta: u64)
        requires
            old(self).wf(),
            delta <= SCALE,
        ensures
            *final(self) == old(self).updated_spec(delta as int),
            final(self).wf(),
    {
        *self = match self {
            Progress::Forward(p) => if *p >= SCALE - delta {
                Progress::Forward(SCALE)
            } else {
                Progress::Forward(*p + delta)
            },
            Progress::Reverse(p) => if *p <= delta {
                Progress::Reverse(0)
            } else {
                Progress::Reverse(*p - delta)
            },
        };
    }
}

impl Default for Progress {
    /// A freshly built transition starts at rest: forward and complete.
    fn default() -> (r: Self)
        ensures
            r == Progress::Forward(SCALE),
    {
        Progress::Forward(SCALE)
    }
}

} // verus!
