//! The `Animate` capability: how a value decomposes into scalar components,
//! how two values are blended, and how the distance between two values is
//! measured.  All components are fixed-point integers: a raw value `r`
//! stands for the real number `r / SCALE`.

use vstd::prelude::*;

verus! {

/// Fixed-point scale.  A raw component value `r` stands for `r / SCALE`;
/// an interpolation fraction `f` with `0 <= f <= SCALE` stands for
/// `f / SCALE` in `[0, 1]`.
pub const SCALE: u64 = 1_000_000;

/// Largest raw magnitude an animated scalar may hold, so that the blending
/// arithmetic stays well inside `i64`.
pub const MAX_RAW: i64 = 1_000_000_000_000;

/// Componentwise interpolation between `a` and `b` at fraction `f / SCALE`,
/// rounding the step toward zero.  At `f == 0` the result is exactly `a`,
/// and at `f == SCALE` it is exactly `b`.
pub open spec fn lerp_int(a: int, b: int, f: int) -> int {
    if b >= a {
        a + ((b - a) * f) / (SCALE as int)
    } else {
        a - ((a - b) * f) / (SCALE as int)
    }
}

/// The interpolated point never leaves the closed interval spanned by the
/// endpoints, and the endpoints themselves are hit exactly.
pub proof fn lemma_lerp_int_bounds(a: int, b: int, f: int)
    requires
        0 <= f <= SCALE,
    ensures
        a <= b ==> a <= lerp_int(a, b, f) <= b,
        b <= a ==> b <= lerp_int(a, b, f) <= a,
        lerp_int(a, b, 0) == a,
        lerp_int(a, b, SCALE as int) == b,
        lerp_int(a, a, f) == a,
{
    let s = SCALE as int;
    if b >= a {
        let d = b - a;
        assert(0 <= (d * f) / s <= d) by (nonlinear_arith)
            requires 0 <= d, 0 <= f <= s, 0 < s;
        assert(d * 0 == 0);
        assert((d * s) / s == d) by (nonlinear_arith)
            requires 0 < s;
    } else {
        let d = a - b;
        assert(0 <= (d * f) / s <= d) by (nonlinear_arith)
            requires 0 <= d, 0 <= f <= s, 0 < s;
        assert(d * 0 == 0);
        assert((d * s) / s == d) by (nonlinear_arith)
            requires 0 < s;
    }
}

/// Clamps a mathematical raw value back into the range a scalar may hold.
pub open spec fn clamp_raw(v: int) -> int {
    if v > MAX_RAW {
        MAX_RAW as int
    } else if v < -(MAX_RAW as int) {
        -(MAX_RAW as int)
    } else {
        v
    }
}

/// Exact fixed-point interpolation on raw scalar values.
pub fn lerp_raw(a: i64, b: i64, f: u64) -> (r: i64)
    requires
        -MAX_RAW <= a <= MAX_RAW,
        -MAX_RAW <= b <= MAX_RAW,
        f <= SCALE,
    ensures
        r == lerp_int(a as int, b as int, f as int),
        -MAX_RAW <= r <= MAX_RAW,
{
    proof {
        lemma_lerp_int_bounds(a as int, b as int, f as int);
    }
    if b >= a {
        let diff: i64 = b - a;
        let num: u128 = (diff as u128) * (f as u128);
        let step: i64 = (num / (SCALE as u128)) as i64;
        a + step
    } else {
        let diff: i64 = a - b;
        let num: u128 = (diff as u128) * (f as u128);
        let step: i64 = (num / (SCALE as u128)) as i64;
        a - step
    }
}

/// The capability a value type implements to participate in interpolation.
///
/// Each implementation fixes, at the type level, the number of scalar
/// components the value decomposes into, a blending rule, a per-component
/// distance, and a rule for consuming a flat run of component deltas.  The
/// `lemma_*` obligations are laws every implementation must prove: blending
/// a value with itself changes nothing, blending at fraction zero returns
/// the start point, and the distance from a value to itself is the zero
/// vector.
pub trait Animate: Sized {
    /// The fixed number of scalar components values of this type decompose
    /// into.  It depends on the type alone, never on a particular value.
    spec fn components_spec() -> nat;

    /// Whether the value is within the numeric bounds the blending
    /// arithmetic relies on.
    spec fn wf(self) -> bool;

    /// The componentwise blend of `start` and `end` at fraction `f / SCALE`.
    spec fn lerp_spec(start: Self, end: Self, f: int) -> Self;

    /// The per-component distances from `start` to `end`, of length
    /// `components_spec()`.
    spec fn distance_spec(start: Self, end: Self) -> Seq<i64>;

    /// The value that results from consuming one run of `components_spec()`
    /// deltas, in the type's fixed component order.
    spec fn apply_spec(start: Self, deltas: Seq<i64>) -> Self;

    proof fn lemma_components_pos()
        ensures
            0 < Self::components_spec(),
    ;

    /// Blending a value with itself yields that value, at every fraction.
    proof fn lemma_lerp_identity(x: Self, f: int)
        requires
            x.wf(),
            0 <= f <= SCALE,
        ensures
            Self::lerp_spec(x, x, f) == x,
    ;

    /// Blending at fraction zero yields the start point exactly.
    proof fn lemma_lerp_zero(a: Self, b: Self)
        requires
            a.wf(),
            b.wf(),
        ensures
            Self::lerp_spec(a, b, 0) == a,
    ;

    /// Blending at the full fraction yields the end point exactly.
    proof fn lemma_lerp_one(a: Self, b: Self)
        requires
            a.wf(),
            b.wf(),
        ensures
            Self::lerp_spec(a, b, SCALE as int) == b,
    ;

    /// Blending never leaves the numeric bounds.
    proof fn lemma_lerp_wf(a: Self, b: Self, f: int)
        requires
            a.wf(),
            b.wf(),
            0 <= f <= SCALE,
        ensures
            Self::lerp_spec(a, b, f).wf(),
    ;

    /// The distance vector always has exactly `components_spec()` entries.
    proof fn lemma_distance_len(a: Self, b: Self)
        requires
            a.wf(),
            b.wf(),
        ensures
            Self::distance_spec(a, b).len() == Self::components_spec(),
    ;

    /// The distance from a value to itself is the zero vector.
    proof fn lemma_distance_self_zero(x: Self)
        requires
            x.wf(),
        ensures
            Self::distance_spec(x, x) == Seq::new(Self::components_spec(), |i: int| 0i64),
    ;

    /// The number of scalar components, as an executable count.
    fn components() -> (r: usize)
        ensures
            r == Self::components_spec(),
    ;

    /// An exact copy of the value.
    fn clone_value(&self) -> (r: Self)
        ensures
            r == *self,
    ;

    /// Whether two values are equal, as the contracts speak of equality.
    fn eq_value(&self, other: &Self) -> (r: bool)
        ensures
            r == (*self == *other),
    ;

    /// Sets `self` to the blend of `start` and `end` at fraction `f / SCALE`.
    fn lerp(&mut self, start: &Self, end: &Self, f: u64)
        requires
            start.wf(),
            end.wf(),
            f <= SCALE,
        ensures
            *final(self) == Self::lerp_spec(*start, *end, f as int),
            final(self).wf(),
    ;

    /// The per-component distances from `self` to `end`.
    fn distance_to(&self, end: &Self) -> (r: Vec<i64>)
        requires
            self.wf(),
            end.wf(),
        ensures
            r@ == Self::distance_spec(*self, *end),
    ;

    /// Consumes exactly `components_spec()` deltas from `deltas`, starting
    /// at `cursor`, and applies them to `self`; advances `cursor` past the
    /// consumed run.
    fn apply_deltas(&mut self, deltas: &Vec<i64>, cursor: &mut usize)
        requires
            old(self).wf(),
            *old(cursor) + Self::components_spec() <= deltas@.len(),
        ensures
            *final(cursor) == *old(cursor) + Self::components_spec(),
            *final(self) == Self::apply_spec(
                *old(self),
                deltas@.subrange(
                    *old(cursor) as int,
                    *old(cursor) + Self::components_spec(),
                ),
            ),
            final(self).wf(),
    ;
}

/// A single animated fixed-point scalar: `raw / SCALE` is the value it
/// stands for.
#[derive(Clone, Copy, Debug, PartialEq, Eq, Structural)]
pub struct Scalar {
    pub raw: i64,
}

impl Scalar {
    /// The scalar standing for the whole number `v`.
    pub fn from_int(v: i64) -> (r: Self)
        requires
            -1_000_000 <= v <= 1_000_000,
        ensures
            r.raw == v * SCALE,
            r.wf(),
    {
        proof {
            assert(-(MAX_RAW as int) <= (v as int) * (SCALE as int) <= MAX_RAW as int)
                by (nonlinear_arith)
                requires -1_000_000 <= v <= 1_000_000;
        }
        Scalar { raw: v * (SCALE as i64) }
    }
}

impl Animate for Scalar {
    open spec fn components_spec() -> nat {
        1
    }

    open spec fn wf(self) -> bool {
        -MAX_RAW <= self.raw <= MAX_RAW
    }

    open spec fn lerp_spec(start: Self, end: Self, f: int) -> Self {
        Scalar { raw: lerp_int(start.raw as int, end.raw as int, f) as i64 }
    }

    open spec fn distance_spec(start: Self, end: Self) -> Seq<i64> {
        seq![(start.raw - end.raw) as i64]
    }

    open spec fn apply_spec(start: Self, deltas: Seq<i64>) -> Self {
        Scalar { raw: clamp_raw(start.raw + deltas[0]) as i64 }
    }

    proof fn lemma_components_pos() {
    }

    proof fn lemma_lerp_identity(x: Self, f: int) {
        lemma_lerp_int_bounds(x.raw as int, x.raw as int, f);
    }

    proof fn lemma_lerp_zero(a: Self, b: Self) {
        lemma_lerp_int_bounds(a.raw as int, b.raw as int, 0);
    }

    proof fn lemma_lerp_one(a: Self, b: Self) {
        lemma_lerp_int_bounds(a.raw as int, b.raw as int, SCALE as int);
    }

    proof fn lemma_lerp_wf(a: Self, b: Self, f: int) {
        lemma_lerp_int_bounds(a.raw as int, b.raw as int, f);
    }

    proof fn lemma_distance_len(a: Self, b: Self) {
    }

    proof fn lemma_distance_self_zero(x: Self) {
        assert(Self::distance_spec(x, x) =~= Seq::new(1, |i: int| 0i64));
    }

    fn components() -> (r: usize) {
        1
    }

    fn clone_value(&self) -> (r: Self) {
        *self
    }

    fn eq_value(&self, other: &Self) -> (r: bool) {
        self.raw == other.raw
    }

    fn lerp(&mut self, start: &Self, end: &Self, f: u64) {
        self.raw = lerp_raw(start.raw, end.raw, f);
    }

    fn distance_to(&self, end: &Self) -> (r: Vec<i64>) {
        let mut v: Vec<i64> = Vec::new();
        v.push(self.raw - end.raw);
        proof {
            assert(v@ =~= Self::distance_spec(*self, *end));
        }
        v
    }

    fn apply_deltas(&mut self, deltas: &Vec<i64>, cursor: &mut usize) {
        let n: usize = deltas.len();
        let c: usize = *cursor;
        let d: i64 = deltas[c];
        let base: i64 = self.raw;
        let r: i64 = if d >= 0 {
            if base > MAX_RAW - d {
                MAX_RAW
            } else {
                base + d
            }
        } else {
            if base < -MAX_RAW - d {
                -MAX_RAW
            } else {
                base + d
            }
        };
        self.raw = r;
        proof {
            assert(deltas@.subrange(c as int, c + 1)[0] == deltas@[c as int]);
        }
        *cursor = c + 1;
    }
}

} // verus!
