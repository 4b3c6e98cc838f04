use iced_anim::curve::Curve;
use iced_anim::easing::Easing;
use iced_anim::DEFAULT_DURATION_MS;

#[test]
fn const_easings() {
    assert_eq!(Easing::linear().curve, Curve::Linear);
    assert_eq!(Easing::ease().curve, Curve::Ease);
    assert_eq!(Easing::ease_in().curve, Curve::EaseIn);
    assert_eq!(Easing::ease_out().curve, Curve::EaseOut);
    assert_eq!(Easing::ease_in_out().curve, Curve::EaseInOut);
}

#[test]
fn default() {
    let easing = Easing::default();

    assert_eq!(easing.curve, Curve::default());
    assert_eq!(easing.duration_ms, DEFAULT_DURATION_MS);
    assert!(!easing.reversible);
}

#[test]
fn initialization() {
    let easing = Easing::new(Curve::EaseInOut).with_duration(300).reversible(true);

    assert_eq!(easing.curve, Curve::EaseInOut);
    assert_eq!(easing.duration_ms, 300);
    assert!(easing.reversible);
}

#[test]
fn named_durations() {
    assert_eq!(Easing::linear().very_quick().duration_ms, 100);
    assert_eq!(Easing::linear().quick().duration_ms, 200);
    assert_eq!(Easing::linear().slow().duration_ms, 400);
    assert_eq!(Easing::linear().very_slow().duration_ms, 500);
    assert_eq!(Easing::linear().with_curve(Curve::Ease).curve, Curve::Ease);
}
