use iced_anim::animate::SCALE;
use iced_anim::curve::Curve;

fn builtins() -> Vec<Curve> {
    vec![
        Curve::Linear,
        Curve::Ease,
        Curve::EaseIn,
        Curve::EaseOut,
        Curve::EaseInOut,
    ]
}

#[test]
fn curve_boundary_values() {
    for c in builtins() {
        assert_eq!(c.ease(0), 0, "{:?} at zero", c);
        assert_eq!(c.ease(SCALE), SCALE, "{:?} at one", c);
    }
    let custom = Curve::Custom { x1: 100_000, y1: 900_000, x2: 800_000, y2: 200_000 };
    assert_eq!(custom.ease(0), 0);
    assert_eq!(custom.ease(SCALE), SCALE);
}

#[test]
fn linear_is_identity() {
    for p in [1u64, 250_000, 500_000, 777_777, 999_999] {
        assert_eq!(Curve::Linear.ease(p), p);
    }
}

#[test]
fn eased_progress_stays_normalized() {
    for c in builtins() {
        for p in [1u64, 100_000, 500_000, 900_000, 999_999] {
            assert!(c.ease(p) <= SCALE);
        }
    }
}

#[test]
fn ease_in_starts_slow_and_ease_out_starts_fast() {
    let half = SCALE / 2;
    assert!(Curve::EaseIn.ease(half) < half);
    assert!(Curve::EaseOut.ease(half) > half);
}

#[test]
fn ease_in_out_is_symmetric_at_the_middle() {
    let v = Curve::EaseInOut.ease(SCALE / 2);
    // The curve's control points are mirrored, so the middle eases close
    // to the middle; the solver works on a fixed-point grid.
    assert!(v >= 499_000 && v <= 501_000, "{}", v);
}

#[test]
fn default_curve_is_ease() {
    assert_eq!(Curve::default(), Curve::Ease);
}
