//! Fixed-point evaluator for cubic Bézier easing curves.
//!
//! An easing curve runs from (0, 0) to (1, 1) with two control points
//! `(x1, y1)` and `(x2, y2)`, every coordinate scaled by [`SCALE`].  The
//! curve is parametric, so to ease a progress value `p` the evaluator first
//! solves `x(t) = p` for the parameter `t` by bisection with a fixed
//! iteration budget, then returns `y(t)`.  The search always returns its
//! best estimate; it never fails.

use vstd::prelude::*;
use crate::animate::SCALE;

verus! {

/// How many bisection steps the solver takes.  `2^20` exceeds `SCALE`, so
/// the search interval shrinks to a single fixed-point unit.
pub const SOLVE_STEPS: u64 = 20;

/// Numerator of one axis of the curve at parameter `t`: the axis value is
/// `bez_num(c1, c2, t) / SCALE^3`, where `c1` and `c2` are the control
/// coordinates of that axis.
pub open spec fn bez_num(c1: int, c2: int, t: int) -> int {
    let s = SCALE as int;
    3 * (s - t) * (s - t) * t * c1 + 3 * (s - t) * t * t * c2 + t * t * t * s
}

/// The bisection search for `x(t) = p`, returning the midpoint of the final
/// interval.
pub open spec fn bisect_spec(x1: int, x2: int, p: int, lo: int, hi: int, n: nat) -> int
    decreases n,
{
    let mid = (lo + hi) / 2;
    if n == 0 {
        mid
    } else if bez_num(x1, x2, mid) >= p * (SCALE as int) * (SCALE as int) * (SCALE as int) {
        bisect_spec(x1, x2, p, lo, mid, (n - 1) as nat)
    } else {
        bisect_spec(x1, x2, p, mid, hi, (n - 1) as nat)
    }
}

/// The eased value: `y` at the parameter the search found, clamped into
/// `[0, SCALE]`.
pub open spec fn bez_y(y1: int, y2: int, t: int) -> int {
    let s = SCALE as int;
    let v = bez_num(y1, y2, t) / (s * s * s);
    if v > s {
        s
    } else {
        v
    }
}

pub proof fn lemma_bisect_in_interval(x1: int, x2: int, p: int, lo: int, hi: int, n: nat)
    requires
        0 <= lo <= hi,
    ensures
        lo <= bisect_spec(x1, x2, p, lo, hi, n) <= hi,
    decreases n,
{
    let mid = (lo + hi) / 2;
    if n != 0 {
        if bez_num(x1, x2, mid) >= p * (SCALE as int) * (SCALE as int) * (SCALE as int) {
            lemma_bisect_in_interval(x1, x2, p, lo, mid, (n - 1) as nat);
        } else {
            lemma_bisect_in_interval(x1, x2, p, mid, hi, (n - 1) as nat);
        }
    }
}

/// The axis numerator, computed exactly in wide integers.
fn eval_num(c1: u64, c2: u64, t: u64) -> (r: u128)
    requires
        c1 <= SCALE,
        c2 <= SCALE,
        t <= SCALE,
    ensures
        r == bez_num(c1 as int, c2 as int, t as int),
{
    let s: u128 = SCALE as u128;
    let tw: u128 = t as u128;
    let u: u128 = s - tw;
    proof {
        let ui = u as int;
        let ti = tw as int;
        let ai = c1 as int;
        let bi = c2 as int;
        assert(3 * ui * ui <= 3_000_000_000_000
            && 3 * ui * ui * ti <= 3_000_000_000_000_000_000
            && 3 * ui * ui * ti * ai <= 3_000_000_000_000_000_000_000_000
            && 3 * ui * ti <= 3_000_000_000_000
            && 3 * ui * ti * ti <= 3_000_000_000_000_000_000
            && 3 * ui * ti * ti * bi <= 3_000_000_000_000_000_000_000_000
            && ti * ti <= 1_000_000_000_000
            && ti * ti * ti <= 1_000_000_000_000_000_000
            && ti * ti * ti * 1_000_000 <= 1_000_000_000_000_000_000_000_000)
            by (nonlinear_arith)
            requires
                0 <= ui <= 1_000_000,
                0 <= ti <= 1_000_000,
                0 <= ai <= 1_000_000,
                0 <= bi <= 1_000_000;
    }
    3 * u * u * tw * (c1 as u128) + 3 * u * tw * tw * (c2 as u128) + tw * tw * tw * s
}

/// The bisection solver; mirrors [`bisect_spec`] step for step.
fn bisect(x1: u64, x2: u64, p: u64, lo: u64, hi: u64, n: u64) -> (t: u64)
    requires
        x1 <= SCALE,
        x2 <= SCALE,
        p <= SCALE,
        lo <= hi <= SCALE,
    ensures
        t == bisect_spec(x1 as int, x2 as int, p as int, lo as int, hi as int, n as nat),
        lo <= t <= hi,
    decreases n,
{
    let mid: u64 = lo + (hi - lo) / 2;
    proof {
        assert(mid == (lo + hi) / 2);
    }
    if n == 0 {
        mid
    } else {
        let s: u128 = SCALE as u128;
        let target: u128 = (p as u128) * s * s * s;
        if eval_num(x1, x2, mid) >= target {
            bisect(x1, x2, p, lo, mid, n - 1)
        } else {
            bisect(x1, x2, p, mid, hi, n - 1)
        }
    }
}

/// Eases progress `p` along the cubic Bézier curve with control points
/// `(x1, y1)` and `(x2, y2)`.
pub fn bezier_ease(x1: u64, y1: u64, x2: u64, y2: u64, p: u64) -> (r: u64)
    requires
        x1 <= SCALE,
        y1 <= SCALE,
        x2 <= SCALE,
        y2 <= SCALE,
        p <= SCALE,
    ensures
        r == bez_y(
            y1 as int,
            y2 as int,
            bisect_spec(x1 as int, x2 as int, p as int, 0, SCALE as int, SOLVE_STEPS as nat),
        ),
        r <= SCALE,
{
    let t: u64 = bisect(x1, x2, p, 0, SCALE, SOLVE_STEPS);
    let s: u128 = SCALE as u128;
    let num: u128 = eval_num(y1, y2, t);
    let v: u128 = num / (s * s * s);
    proof {
        assert(v == bez_num(y1 as int, y2 as int, t as int) / ((SCALE as int) * (SCALE as int)
            * (SCALE as int)));
    }
    if v > s {
        SCALE
    } else {
        v as u64
    }
}

} // verus!
