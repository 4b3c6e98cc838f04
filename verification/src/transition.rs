//! The transition state machine: moves a value of a type implementing
//! [`Animate`] from an initial point toward a target point over wall-clock
//! time, along an easing [`Curve`], with interruption, reversal, and
//! settling.
//!
//! Timestamps and durations are plain milliseconds; the host driver hands
//! a monotonic timestamp in with each event.  Per-tick progress is the
//! elapsed share of the duration, rounded up to the fixed-point grid, so
//! that once the cumulative elapsed time reaches the duration the progress
//! has certainly saturated; on completion the value snaps to the logical
//! target exactly, leaving no interpolation residue.

use vstd::prelude::*;
use crate::animate::{Animate, SCALE};
use crate::curve::Curve;
use crate::progress::Progress;
use crate::DEFAULT_DURATION_MS;

verus! {

/// What the host driver delivers to [`Transition::update`].
#[derive(Debug)]
pub enum Event<T> {
    /// Wall-clock time has advanced to the held timestamp, in milliseconds.
    Tick(u64),
    /// A new animated endpoint, observed at the held timestamp.
    Target(T, u64),
    /// Force the transition to its terminal value immediately.
    Settle,
}

/// The share of the duration that `elapsed_ms` covers, as a fraction of
/// [`SCALE`], rounded up.  A zero duration counts as already elapsed, so a
/// transition with no duration settles on its first tick instead of
/// dividing by zero.
pub open spec fn tick_frac(duration_ms: int, elapsed_ms: int) -> int {
    if duration_ms <= 0 {
        SCALE as int
    } else if elapsed_ms >= duration_ms {
        SCALE as int
    } else {
        (elapsed_ms * SCALE + duration_ms - 1) / duration_ms
    }
}

/// The per-tick fraction is within `[0, SCALE]`, and it never undersells
/// the elapsed share: either the tick saturates outright, or the fraction
/// times the duration covers the elapsed time times `SCALE`.  The latter is
/// what makes completion exact over many ticks: fractions lost to rounding
/// are always rounded up, never down.
pub proof fn lemma_tick_frac_bounds(duration_ms: int, elapsed_ms: int)
    requires
        0 <= duration_ms,
        0 <= elapsed_ms,
    ensures
        0 <= tick_frac(duration_ms, elapsed_ms) <= SCALE,
        tick_frac(duration_ms, elapsed_ms) == SCALE || tick_frac(duration_ms, elapsed_ms)
            * duration_ms >= elapsed_ms * SCALE,
{
    let s = SCALE as int;
    let d = duration_ms;
    let e = elapsed_ms;
    if 0 < d && e < d {
        assert(0 <= (e * s + d - 1) / d <= s && ((e * s + d - 1) / d) * d >= e * s)
            by (nonlinear_arith)
            requires
                0 < d,
                0 <= e <= d - 1,
                s == 1_000_000;
    }
}

/// A transition between two values of an animatable type.
#[derive(Debug)]
pub struct Transition<T: Animate> {
    /// The starting point of the current movement.
    initial: T,
    /// The current, interpolated value.
    value: T,
    /// The end point of the current movement.
    target: T,
    /// How eased progress is derived from raw progress.
    curve: Curve,
    /// How many milliseconds a full movement takes.
    duration_ms: u64,
    /// How far along the movement is, and in which direction.
    progress: Progress,
    /// The timestamp of the last update, in milliseconds.
    last_update_ms: u64,
}

impl<T: Animate> Transition<T> {
    /// All held values are within the bounds the blending arithmetic
    /// relies on.
    pub closed spec fn wf(self) -> bool {
        &&& self.initial.wf()
        &&& self.value.wf()
        &&& self.target.wf()
        &&& self.curve.wf()
        &&& self.progress.wf()
    }

    pub closed spec fn initial_spec(self) -> T {
        self.initial
    }

    pub closed spec fn value_spec(self) -> T {
        self.value
    }

    pub closed spec fn target_field_spec(self) -> T {
        self.target
    }

    pub closed spec fn curve_spec(self) -> Curve {
        self.curve
    }

    pub closed spec fn duration_spec(self) -> u64 {
        self.duration_ms
    }

    pub closed spec fn progress_spec(self) -> Progress {
        self.progress
    }

    pub closed spec fn last_update_spec(self) -> u64 {
        self.last_update_ms
    }

    /// The logical destination: the `target` field when moving forward,
    /// the `initial` field when reversing.
    pub closed spec fn target_spec(self) -> T {
        match self.progress {
            Progress::Forward(_) => self.target,
            Progress::Reverse(_) => self.initial,
        }
    }

    /// Whether further ticks will still move the value.
    pub closed spec fn is_animating_spec(self) -> bool {
        !self.progress.is_complete_spec()
    }

    /// The data-model invariant: while animating, the value is the
    /// curve-blended point between the initial and target fields at the
    /// eased fraction; at rest, it is the logical destination exactly.
    pub open spec fn on_curve(self) -> bool {
        if self.is_animating_spec() {
            self.value_spec() == T::lerp_spec(
                self.initial_spec(),
                self.target_field_spec(),
                self.curve_spec().ease_spec(self.progress_spec().fraction_spec()),
            )
        } else {
            self.value_spec() == self.target_spec()
        }
    }

    /// The state after [`Transition::settle`]: progress forced to its
    /// terminal fraction, value snapped to the logical destination.
    pub closed spec fn settled_model(self) -> Self {
        Transition {
            initial: self.initial,
            value: self.target_spec(),
            target: self.target,
            curve: self.curve,
            duration_ms: self.duration_ms,
            progress: self.progress.settled_spec(),
            last_update_ms: self.last_update_ms,
        }
    }

    /// The state after [`Transition::tick`] at timestamp `now`.  A resting
    /// transition is left untouched.  Otherwise progress advances by the
    /// elapsed share of the duration; if that completes the movement the
    /// value snaps to the logical destination exactly, else it is the
    /// curve-eased blend of the endpoints.
    pub closed spec fn tick_model(self, now: u64) -> Self {
        if !self.is_animating_spec() {
            self
        } else {
            let elapsed: int = if now >= self.last_update_ms {
                now - self.last_update_ms
            } else {
                0
            };
            let frac = tick_frac(self.duration_ms as int, elapsed);
            let p2 = self.progress.updated_spec(frac);
            let value2 = if p2.is_complete_spec() {
                self.target_spec()
            } else {
                T::lerp_spec(
                    self.initial,
                    self.target,
                    self.curve.ease_spec(p2.fraction_spec()),
                )
            };
            Transition {
                initial: self.initial,
                value: value2,
                target: self.target,
                curve: self.curve,
                duration_ms: self.duration_ms,
                progress: p2,
                last_update_ms: now,
            }
        }
    }

    /// The state after [`Transition::interrupt`] with new target `nt` at
    /// timestamp `now`.  If `nt` is the other endpoint of an unfinished
    /// movement, the movement reverses in place, keeping its visual
    /// position on the curve.  If `nt` is a genuinely new destination, the
    /// movement restarts forward from the current value.  Retargeting to
    /// the current logical destination changes nothing but the timestamp.
    pub closed spec fn interrupt_model(self, nt: T, now: u64) -> Self {
        let is_initial_target = match self.progress {
            Progress::Forward(_) => nt == self.initial,
            Progress::Reverse(_) => nt == self.target,
        };
        if is_initial_target && !self.progress.is_complete_spec() {
            Transition {
                initial: self.initial,
                value: self.value,
                target: self.target,
                curve: self.curve,
                duration_ms: self.duration_ms,
                progress: self.progress.reversed_spec(),
                last_update_ms: now,
            }
        } else if nt != self.target_spec() {
            Transition {
                initial: self.value,
                value: self.value,
                target: nt,
                curve: self.curve,
                duration_ms: self.duration_ms,
                progress: Progress::Forward(0),
                last_update_ms: now,
            }
        } else {
            Transition {
                initial: self.initial,
                value: self.value,
                target: self.target,
                curve: self.curve,
                duration_ms: self.duration_ms,
                progress: self.progress,
                last_update_ms: now,
            }
        }
    }

    /// Creates a transition at rest on `value`: initial, current and
    /// target value all equal, forward progress complete.
    pub fn new(value: T) -> (r: Self)
        requires
            value.wf(),
        ensures
            r.initial_spec() == value,
            r.value_spec() == value,
            r.target_field_spec() == value,
            r.curve_spec() == Curve::Ease,
            r.duration_spec() == DEFAULT_DURATION_MS,
            r.progress_spec() == Progress::Forward(SCALE),
            r.last_update_spec() == 0,
            r.target_spec() == value,
            r.wf(),
            !r.is_animating_spec(),
            r.on_curve(),
    {
        let initial = value.clone_value();
        let target = value.clone_value();
        Transition {
            initial,
            value,
            target,
            curve: Curve::default(),
            duration_ms: DEFAULT_DURATION_MS,
            progress: Progress::default(),
            last_update_ms: 0,
        }
    }

    /// Sets the curve and returns the updated transition.
    pub fn with_curve(self, curve: Curve) -> (r: Self)
        requires
            curve.wf(),
        ensures
            r.curve_spec() == curve,
            r.initial_spec() == self.initial_spec(),
            r.value_spec() == self.value_spec(),
            r.target_field_spec() == self.target_field_spec(),
            r.duration_spec() == self.duration_spec(),
            r.progress_spec() == self.progress_spec(),
            r.last_update_spec() == self.last_update_spec(),
            self.wf() ==> r.wf(),
            !self.is_animating_spec() && self.on_curve() ==> r.on_curve(),
    {
        Transition { curve, ..self }
    }

    /// Sets the duration in milliseconds and returns the updated
    /// transition.
    pub fn with_duration(self, duration_ms: u64) -> (r: Self)
        ensures
            r.duration_spec() == duration_ms,
            r.initial_spec() == self.initial_spec(),
            r.value_spec() == self.value_spec(),
            r.target_field_spec() == self.target_field_spec(),
            r.curve_spec() == self.curve_spec(),
            r.progress_spec() == self.progress_spec(),
            r.last_update_spec() == self.last_update_spec(),
            self.wf() ==> r.wf(),
            self.on_curve() ==> r.on_curve(),
    {
        Transition { duration_ms, ..self }
    }

    /// Sets the duration in milliseconds.
    pub fn set_duration(&mut self, duration_ms: u64)
        ensures
            final(self).duration_spec() == duration_ms,
            final(self).initial_spec() == old(self).initial_spec(),
            final(self).value_spec() == old(self).value_spec(),
            final(self).target_field_spec() == old(self).target_field_spec(),
            final(self).curve_spec() == old(self).curve_spec(),
            final(self).progress_spec() == old(self).progress_spec(),
            old(self).wf() ==> final(self).wf(),
            old(self).on_curve() ==> final(self).on_curve(),
            final(self).last_update_spec() == old(self).last_update_spec(),
    {
        self.duration_ms = duration_ms;
    }

    /// The current value of the transition.
    pub fn value(&self) -> (r: &T)
        ensures
            *r == self.value_spec(),
    {
        &self.value
    }

    /// The logical destination the transition is moving towards: the
    /// target when moving forward, the initial value when reversing.
    pub fn target(&self) -> (r: &T)
        ensures
            *r == self.target_spec(),
    {
        match self.progress {
            Progress::Forward(_) => &self.target,
            Progress::Reverse(_) => &self.initial,
        }
    }

    /// Whether further ticks will still move the value.
    pub fn is_animating(&self) -> (r: bool)
        ensures
            r == self.is_animating_spec(),
    {
        !self.progress.is_complete()
    }

    /// Reverses the direction of movement in place.  The held values are
    /// not swapped: the direction flip, together with the conditional
    /// [`Transition::target`] accessor, produces the reversed semantics.
    pub fn reverse(&mut self)
        ensures
            final(self).progress_spec() == old(self).progress_spec().reversed_spec(),
            final(self).initial_spec() == old(self).initial_spec(),
            final(self).value_spec() == old(self).value_spec(),
            final(self).target_field_spec() == old(self).target_field_spec(),
            final(self).curve_spec() == old(self).curve_spec(),
            final(self).duration_spec() == old(self).duration_spec(),
            old(self).wf() ==> final(self).wf(),
            old(self).wf() && old(self).on_curve() ==> final(self).on_curve(),
            final(self).last_update_spec() == old(self).last_update_spec(),
    {
        self.progress.reverse();
        proof {
            if old(self).wf() && old(self).on_curve() {
                T::lemma_lerp_zero(old(self).initial_spec(), old(self).target_field_spec());
                T::lemma_lerp_one(old(self).initial_spec(), old(self).target_field_spec());
            }
        }
    }

    /// Ends the transition: progress jumps to its terminal fraction and
    /// the value snaps to the logical destination exactly.  Afterwards the
    /// transition is at rest and its value equals its target.
    pub fn settle(&mut self)
        requires
            old(self).wf(),
        ensures
            *final(self) == old(self).settled_model(),
            !final(self).is_animating_spec(),
            final(self).value_spec() == final(self).target_spec(),
            final(self).target_spec() == old(self).target_spec(),
            final(self).initial_spec() == old(self).initial_spec(),
            final(self).target_field_spec() == old(self).target_field_spec(),
            final(self).curve_spec() == old(self).curve_spec(),
            final(self).duration_spec() == old(self).duration_spec(),
            final(self).progress_spec() == old(self).progress_spec().settled_spec(),
            final(self).last_update_spec() == old(self).last_update_spec(),
            final(self).on_curve(),
            final(self).wf(),
    {
        self.progress.settle();
        match self.progress {
            Progress::Forward(_) => {
                self.value = self.target.clone_value();
            },
            Progress::Reverse(_) => {
                self.value = self.initial.clone_value();
            },
        }
    }

    /// Advances the transition to timestamp `now` (milliseconds).  A
    /// resting transition is left untouched; an animating one moves its
    /// value along the curve, snapping exactly onto the logical
    /// destination when the movement completes.
    pub fn tick(&mut self, now: u64)
        requires
            old(self).wf(),
        ensures
            *final(self) == old(self).tick_model(now),
            !old(self).is_animating_spec() ==> *final(self) == *old(self),
            final(self).wf(),
    {
        if !self.is_animating() {
            return ;
        }
        let elapsed: u64 = if now >= self.last_update_ms {
            now - self.last_update_ms
        } else {
            0
        };
        self.last_update_ms = now;
        let frac: u64 = compute_frac(self.duration_ms, elapsed);
        self.progress.update(frac);
        if self.progress.is_complete() {
            match self.progress {
                Progress::Forward(_) => {
                    self.value = self.target.clone_value();
                },
                Progress::Reverse(_) => {
                    self.value = self.initial.clone_value();
                },
            }
        } else {
            let eased: u64 = self.curve.ease(self.progress.value());
            let initial = self.initial.clone_value();
            let target = self.target.clone_value();
            self.value.lerp(&initial, &target, eased);
        }
    }

    /// Interrupts the transition with a new target at timestamp `now`
    /// (milliseconds).  A new target equal to the other endpoint of an
    /// unfinished movement reverses the movement in place; a genuinely new
    /// target restarts the movement forward from the current value; the
    /// current logical destination changes nothing but the timestamp.
    pub fn interrupt(&mut self, target: T, now: u64)
        requires
            old(self).wf(),
            target.wf(),
        ensures
            *final(self) == old(self).interrupt_model(target, now),
            final(self).wf(),
    {
        let is_initial_target: bool = match self.progress {
            Progress::Forward(_) => target.eq_value(&self.initial),
            Progress::Reverse(_) => target.eq_value(&self.target),
        };
        if is_initial_target && !self.progress.is_complete() {
            self.progress.reverse();
        } else {
            let same: bool = match self.progress {
                Progress::Forward(_) => target.eq_value(&self.target),
                Progress::Reverse(_) => target.eq_value(&self.initial),
            };
            if !same {
                self.progress = Progress::Forward(0);
                self.initial = self.value.clone_value();
                self.target = target;
            }
        }
        self.last_update_ms = now;
    }

    /// The single entry point for the host driver: dispatches the event to
    /// [`Transition::tick`], [`Transition::interrupt`] or
    /// [`Transition::settle`].
    pub fn update(&mut self, event: Event<T>)
        requires
            old(self).wf(),
            (match event {
                Event::Target(ref t, _) => t.wf(),
                _ => true,
            }),
        ensures
            *final(self) == (match event {
                Event::Settle => old(self).settled_model(),
                Event::Tick(now) => old(self).tick_model(now),
                Event::Target(t, now) => old(self).interrupt_model(t, now),
            }),
            final(self).wf(),
    {
        match event {
            Event::Settle => self.settle(),
            Event::Tick(now) => self.tick(now),
            Event::Target(t, now) => self.interrupt(t, now),
        }
    }
}

/// The per-tick progress fraction, executable form of [`tick_frac`].
fn compute_frac(duration_ms: u64, elapsed_ms: u64) -> (r: u64)
    ensures
        r == tick_frac(duration_ms as int, elapsed_ms as int),
        r <= SCALE,
{
    proof {
        lemma_tick_frac_bounds(duration_ms as int, elapsed_ms as int);
    }
    if duration_ms == 0 {
        SCALE
    } else if elapsed_ms >= duration_ms {
        SCALE
    } else {
        let num: u128 = (elapsed_ms as u128) * (SCALE as u128) + (duration_ms as u128) - 1;
        (num / (duration_ms as u128)) as u64
    }
}

/// The logical destination is the target field while moving forward and
/// the initial field while reversing.
pub proof fn lemma_target_meaning<T: Animate>(t: Transition<T>)
    ensures
        t.progress_spec() is Forward ==> t.target_spec() == t.target_field_spec(),
        t.progress_spec() is Reverse ==> t.target_spec() == t.initial_spec(),
{
}

/// A transition animates exactly while its progress is incomplete.
pub proof fn lemma_is_animating_meaning<T: Animate>(t: Transition<T>)
    ensures
        t.is_animating_spec() == !t.progress_spec().is_complete_spec(),
{
}

/// What settling does, field by field: progress jumps to its terminal
/// fraction without changing direction, the value snaps to the logical
/// destination, and every other field is kept.  Settling a settled
/// transition changes nothing.
pub proof fn lemma_settle_meaning<T: Animate>(t: Transition<T>)
    ensures
        ({
            let m = t.settled_model();
            &&& m.initial_spec() == t.initial_spec()
            &&& m.target_field_spec() == t.target_field_spec()
            &&& m.curve_spec() == t.curve_spec()
            &&& m.duration_spec() == t.duration_spec()
            &&& m.last_update_spec() == t.last_update_spec()
            &&& m.progress_spec() == t.progress_spec().settled_spec()
            &&& m.value_spec() == t.target_spec()
            &&& m.target_spec() == t.target_spec()
            &&& !m.is_animating_spec()
            &&& m.on_curve()
        }),
{
}

/// What a tick does, clause by clause: the held endpoints, curve and
/// duration never change; an animating transition advances its progress
/// by the elapsed share of the duration and stamps the tick's time; while
/// the movement is unfinished the value is the curve-blended point at the
/// new fraction, and on completion it is the logical destination exactly.
/// The data-model invariant is preserved.
pub proof fn lemma_tick_meaning<T: Animate>(t: Transition<T>, now: u64)
    requires
        t.wf(),
    ensures
        ({
            let m = t.tick_model(now);
            let elapsed: int = if now >= t.last_update_spec() {
                now - t.last_update_spec()
            } else {
                0
            };
            let p2 = t.progress_spec().updated_spec(
                tick_frac(t.duration_spec() as int, elapsed),
            );
            &&& m.initial_spec() == t.initial_spec()
            &&& m.target_field_spec() == t.target_field_spec()
            &&& m.curve_spec() == t.curve_spec()
            &&& m.duration_spec() == t.duration_spec()
            &&& (t.is_animating_spec() ==> m.last_update_spec() == now)
            &&& (t.is_animating_spec() ==> m.progress_spec() == p2)
            &&& (t.is_animating_spec() && m.is_animating_spec() ==> m.value_spec()
                == T::lerp_spec(
                t.initial_spec(),
                t.target_field_spec(),
                t.curve_spec().ease_spec(p2.fraction_spec()),
            ))
            &&& (t.is_animating_spec() && !m.is_animating_spec() ==> m.value_spec()
                == t.target_spec() && m.value_spec() == m.target_spec())
            &&& (t.on_curve() ==> m.on_curve())
        }),
{
}

/// What an interrupt does, case by case: the current value, curve and
/// duration never change and the tick clock restarts at `now`.  A new
/// target equal to the other endpoint of an unfinished movement flips the
/// direction in place; a genuinely new destination restarts forward from
/// the current value; the current logical destination leaves the state
/// untouched.  The data-model invariant is preserved.
pub proof fn lemma_interrupt_meaning<T: Animate>(t: Transition<T>, nt: T, now: u64)
    requires
        t.wf(),
        nt.wf(),
    ensures
        ({
            let m = t.interrupt_model(nt, now);
            let towards_initial = t.is_animating_spec() && (match t.progress_spec() {
                Progress::Forward(_) => nt == t.initial_spec(),
                Progress::Reverse(_) => nt == t.target_field_spec(),
            });
            &&& m.curve_spec() == t.curve_spec()
            &&& m.duration_spec() == t.duration_spec()
            &&& m.last_update_spec() == now
            &&& m.value_spec() == t.value_spec()
            &&& (towards_initial ==> m.progress_spec() == t.progress_spec().reversed_spec()
                && m.initial_spec() == t.initial_spec() && m.target_field_spec()
                == t.target_field_spec())
            &&& (!towards_initial && nt != t.target_spec() ==> m.progress_spec()
                == Progress::Forward(0) && m.initial_spec() == t.value_spec()
                && m.target_field_spec() == nt && m.is_animating_spec())
            &&& (!towards_initial && nt == t.target_spec() ==> m.progress_spec()
                == t.progress_spec() && m.initial_spec() == t.initial_spec()
                && m.target_field_spec() == t.target_field_spec())
            &&& (t.on_curve() ==> m.on_curve())
        }),
{
    T::lemma_lerp_zero(t.initial_spec(), t.target_field_spec());
    T::lemma_lerp_one(t.initial_spec(), t.target_field_spec());
    T::lemma_lerp_zero(t.value_spec(), nt);
}

/// A movement between equal endpoints never leaves them: blending between
/// equal endpoints is the identity at every fraction and every curve, so
/// the value stays put however far a tick advances progress.
pub proof fn lemma_tick_equal_endpoints<T: Animate>(t: Transition<T>, now: u64)
    requires
        t.wf(),
        t.on_curve(),
        t.initial_spec() == t.target_field_spec(),
    ensures
        t.value_spec() == t.initial_spec(),
        t.tick_model(now).value_spec() == t.initial_spec(),
{
    let x = t.initial_spec();
    crate::curve::lemma_ease_spec_bounds(
        t.curve_spec(),
        t.progress_spec().fraction_spec(),
    );
    T::lemma_lerp_identity(x, t.curve_spec().ease_spec(t.progress_spec().fraction_spec()));
    let m = t.tick_model(now);
    crate::curve::lemma_ease_spec_bounds(t.curve_spec(), m.progress_spec().fraction_spec());
    T::lemma_lerp_identity(x, t.curve_spec().ease_spec(m.progress_spec().fraction_spec()));
}

/// Retargeting to the current logical destination is idempotent: it does
/// not alter the initial value, does not reset progress to zero, and does
/// not change the current value; the logical destination stays what it
/// was.
pub proof fn lemma_retarget_to_current_target<T: Animate>(t: Transition<T>, now: u64)
    requires
        t.wf(),
    ensures
        ({
            let m = t.interrupt_model(t.target_spec(), now);
            &&& m.initial_spec() == t.initial_spec()
            &&& m.value_spec() == t.value_spec()
            &&& m.progress_spec().fraction_spec() == t.progress_spec().fraction_spec()
            &&& m.target_spec() == t.target_spec()
        }),
{
}

/// Retargeting an unfinished forward movement back to its initial value
/// reverses it in place rather than restarting it: progress flips
/// direction at the same fraction, the held values are untouched, and the
/// logical destination becomes the initial value.
pub proof fn lemma_reversal_symmetry<T: Animate>(t: Transition<T>, now: u64)
    requires
        t.wf(),
        t.is_animating_spec(),
        t.progress_spec() is Forward,
    ensures
        ({
            let m = t.interrupt_model(t.initial_spec(), now);
            &&& m.progress_spec() == t.progress_spec().reversed_spec()
            &&& m.value_spec() == t.value_spec()
            &&& m.initial_spec() == t.initial_spec()
            &&& m.target_field_spec() == t.target_field_spec()
            &&& m.target_spec() == t.initial_spec()
        }),
{
}

/// A resting transition restarts forward when retargeted to a genuinely
/// new destination: progress returns to zero, the current value becomes
/// the new starting point, and the new target is held.
pub proof fn lemma_retarget_from_rest<T: Animate>(t: Transition<T>, nt: T, now: u64)
    requires
        t.wf(),
        !t.is_animating_spec(),
        nt != t.target_spec(),
    ensures
        ({
            let m = t.interrupt_model(nt, now);
            &&& m.progress_spec() == Progress::Forward(0)
            &&& m.initial_spec() == t.value_spec()
            &&& m.value_spec() == t.value_spec()
            &&& m.target_field_spec() == nt
            &&& m.target_spec() == nt
        }),
{
}

/// Reversal symmetry, from rest to mid-flight and back: a transition
/// resting on `v0` that is retargeted to a different `v1`, ticked without
/// completing, and then retargeted back to `v0`, reverses in place: it
/// keeps the visual point the tick reached and moves back toward `v0`,
/// instead of restarting toward `v0` from progress zero.
pub proof fn lemma_reversal_round_trip<T: Animate>(
    t: Transition<T>,
    v1: T,
    n1: u64,
    n2: u64,
    n3: u64,
)
    requires
        t.wf(),
        v1.wf(),
        !t.is_animating_spec(),
        t.progress_spec() is Forward,
        t.initial_spec() == t.value_spec(),
        t.target_field_spec() == t.value_spec(),
        v1 != t.value_spec(),
    ensures
        ({
            let a = t.interrupt_model(v1, n1);
            let b = a.tick_model(n2);
            b.is_animating_spec() ==> {
                let c = b.interrupt_model(t.value_spec(), n3);
                &&& c.progress_spec() == b.progress_spec().reversed_spec()
                &&& c.value_spec() == b.value_spec()
                &&& c.initial_spec() == t.value_spec()
                &&& c.target_spec() == t.value_spec()
            }
        }),
{
}

/// Completion exactness over split ticks: two ticks whose total elapsed
/// time reaches the duration always finish the movement, even though each
/// tick's share is rounded to the fixed-point grid, because shares are
/// rounded up, never down.
pub proof fn lemma_two_tick_completion<T: Animate>(t: Transition<T>, n1: u64, n2: u64)
    requires
        t.wf(),
        t.is_animating_spec(),
        n1 >= t.last_update_spec(),
        n2 >= n1,
        n2 >= t.last_update_spec() + t.duration_spec(),
    ensures
        ({
            let m = t.tick_model(n1).tick_model(n2);
            &&& !m.is_animating_spec()
            &&& m.value_spec() == t.target_spec()
        }),
{
    let d = t.duration_spec() as int;
    let e1 = n1 - t.last_update_spec();
    let e2 = n2 - n1;
    let f1 = tick_frac(d, e1);
    let f2 = tick_frac(d, e2);
    lemma_tick_frac_bounds(d, e1);
    lemma_tick_frac_bounds(d, e2);
    let s = SCALE as int;
    if f1 < s && f2 < s {
        assert(f1 * d + f2 * d >= e1 * s + e2 * s);
        assert((f1 + f2) * d >= (e1 + e2) * s) by (nonlinear_arith)
            requires
                f1 * d + f2 * d >= e1 * s + e2 * s;
        assert(e1 + e2 >= d);
        assert((e1 + e2) * s >= d * s) by (nonlinear_arith)
            requires
                e1 + e2 >= d,
                s >= 0;
        assert(f1 + f2 >= s) by (nonlinear_arith)
            requires
                (f1 + f2) * d >= d * s,
                d > 0;
    }
}

/// Completion exactness: a tick whose elapsed time reaches the duration
/// always finishes the movement, and the value then equals the logical
/// destination exactly, with no interpolation residue.
pub proof fn lemma_completion_exactness<T: Animate>(t: Transition<T>, now: u64)
    requires
        t.wf(),
        t.is_animating_spec(),
        now >= t.last_update_spec() + t.duration_spec(),
    ensures
        ({
            let m = t.tick_model(now);
            &&& !m.is_animating_spec()
            &&& m.value_spec() == t.target_spec()
            &&& m.value_spec() == m.target_spec()
        }),
{
}

} // verus!
