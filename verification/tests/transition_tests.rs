use iced_anim::animate::Scalar;
use iced_anim::curve::Curve;
use iced_anim::transition::{Event, Transition};

fn fresh_linear() -> Transition<Scalar> {
    Transition::new(Scalar::from_int(0)).with_curve(Curve::Linear).with_duration(500)
}

#[test]
fn new_transition_is_at_rest() {
    let t = Transition::new(Scalar::from_int(7));
    assert!(!t.is_animating());
    assert_eq!(t.value().raw, 7_000_000);
    assert_eq!(t.target().raw, 7_000_000);
}

#[test]
fn tick_at_rest_is_noop() {
    let mut t = Transition::new(Scalar::from_int(7));
    t.tick(123_456);
    assert!(!t.is_animating());
    assert_eq!(t.value().raw, 7_000_000);
    t.tick(999_999);
    assert_eq!(t.value().raw, 7_000_000);
}

#[test]
fn linear_scenario() {
    let mut t = fresh_linear();
    t.interrupt(Scalar::from_int(100), 0);
    assert!(t.is_animating());
    t.tick(250);
    assert_eq!(t.value().raw, 50_000_000);
    assert!(t.is_animating());
    t.tick(500);
    assert_eq!(t.value().raw, 100_000_000);
    assert!(!t.is_animating());
}

#[test]
fn reverse_scenario() {
    let mut t = fresh_linear();
    t.interrupt(Scalar::from_int(100), 0);
    t.tick(250);
    assert_eq!(t.value().raw, 50_000_000);
    // Retargeting to the initial value mid-flight reverses in place.
    t.interrupt(Scalar::from_int(0), 250);
    assert_eq!(t.value().raw, 50_000_000);
    assert_eq!(t.target().raw, 0);
    assert!(t.is_animating());
    t.tick(500);
    assert_eq!(t.value().raw, 0);
    assert!(!t.is_animating());
}

#[test]
fn retarget_to_current_target_is_idempotent() {
    let mut t = fresh_linear();
    t.interrupt(Scalar::from_int(100), 0);
    t.tick(250);
    assert_eq!(t.value().raw, 50_000_000);
    // Same logical target: neither progress nor value may change.
    t.interrupt(Scalar::from_int(100), 250);
    assert_eq!(t.value().raw, 50_000_000);
    assert_eq!(t.target().raw, 100_000_000);
    // Progress was not reset: another 125 ms reaches three quarters.
    t.tick(375);
    assert_eq!(t.value().raw, 75_000_000);
}

#[test]
fn settle_jumps_to_target() {
    let mut t = fresh_linear();
    t.interrupt(Scalar::from_int(100), 0);
    t.tick(100);
    assert!(t.is_animating());
    t.settle();
    assert!(!t.is_animating());
    assert_eq!(t.value().raw, t.target().raw);
    assert_eq!(t.value().raw, 100_000_000);
}

#[test]
fn settle_while_reversing_returns_to_initial() {
    let mut t = fresh_linear();
    t.interrupt(Scalar::from_int(100), 0);
    t.tick(250);
    t.interrupt(Scalar::from_int(0), 250);
    t.settle();
    assert!(!t.is_animating());
    assert_eq!(t.value().raw, 0);
    assert_eq!(t.target().raw, 0);
}

#[test]
fn zero_duration_settles_on_first_tick() {
    let mut t = fresh_linear().with_duration(0);
    t.interrupt(Scalar::from_int(5), 0);
    t.tick(1);
    assert!(!t.is_animating());
    assert_eq!(t.value().raw, 5_000_000);
}

#[test]
fn cumulative_ticks_complete_exactly() {
    let mut t = fresh_linear().with_duration(3);
    t.interrupt(Scalar::from_int(9), 0);
    t.tick(1);
    t.tick(2);
    t.tick(3);
    assert!(!t.is_animating());
    assert_eq!(t.value().raw, 9_000_000);
}

#[test]
fn update_dispatches_events() {
    let mut t = fresh_linear();
    t.update(Event::Target(Scalar::from_int(100), 0));
    assert!(t.is_animating());
    t.update(Event::Tick(250));
    assert_eq!(t.value().raw, 50_000_000);
    t.update(Event::Settle);
    assert!(!t.is_animating());
    assert_eq!(t.value().raw, 100_000_000);
}

#[test]
fn reverse_swaps_logical_target() {
    let mut t = fresh_linear();
    t.interrupt(Scalar::from_int(100), 0);
    t.tick(250);
    assert_eq!(t.target().raw, 100_000_000);
    t.reverse();
    assert_eq!(t.target().raw, 0);
    t.reverse();
    assert_eq!(t.target().raw, 100_000_000);
}

#[test]
fn set_duration_changes_pace() {
    let mut t = fresh_linear();
    t.set_duration(1000);
    t.interrupt(Scalar::from_int(100), 0);
    t.tick(250);
    assert_eq!(t.value().raw, 25_000_000);
}

#[test]
fn interrupt_from_rest_restarts_from_current_value() {
    let mut t = fresh_linear();
    t.interrupt(Scalar::from_int(100), 0);
    t.tick(500);
    assert!(!t.is_animating());
    // Idle for a long while, then retarget: no stale elapsed time is
    // applied, the movement starts from the resting value.
    t.interrupt(Scalar::from_int(0), 10_000);
    t.tick(10_250);
    assert_eq!(t.value().raw, 50_000_000);
}
