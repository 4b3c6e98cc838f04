use iced_anim::animate::{Animate, Scalar, MAX_RAW, SCALE};
use iced_anim::style::{Color, StyleModifier, ThemeItem};

#[test]
fn scalar_distance_to_self_is_zero() {
    let x = Scalar::from_int(42);
    assert_eq!(x.distance_to(&x), vec![0]);
}

#[test]
fn scalar_lerp_with_itself_is_identity() {
    let x = Scalar::from_int(42);
    for f in [0u64, 1, 250_000, 500_000, 999_999, SCALE] {
        let mut v = x;
        v.lerp(&x, &x, f);
        assert_eq!(v, x);
    }
}

#[test]
fn scalar_lerp_hits_endpoints_exactly() {
    let a = Scalar::from_int(-3);
    let b = Scalar::from_int(11);
    let mut v = a;
    v.lerp(&a, &b, 0);
    assert_eq!(v, a);
    v.lerp(&a, &b, SCALE);
    assert_eq!(v, b);
    v.lerp(&a, &b, SCALE / 2);
    assert_eq!(v.raw, 4_000_000);
}

#[test]
fn scalar_distance_is_signed() {
    let a = Scalar::from_int(3);
    let b = Scalar::from_int(1);
    assert_eq!(a.distance_to(&b), vec![2_000_000]);
    assert_eq!(b.distance_to(&a), vec![-2_000_000]);
}

#[test]
fn scalar_apply_deltas_advances_cursor_and_clamps() {
    let deltas: Vec<i64> = vec![2_000_000, i64::MAX];
    let mut cursor: usize = 0;
    let mut v = Scalar::from_int(1);
    v.apply_deltas(&deltas, &mut cursor);
    assert_eq!(cursor, 1);
    assert_eq!(v.raw, 3_000_000);
    let mut w = Scalar::from_int(0);
    w.apply_deltas(&deltas, &mut cursor);
    assert_eq!(cursor, 2);
    assert_eq!(w.raw, MAX_RAW);
}

#[test]
fn color_distance_to_self_is_zero() {
    let c = Color { r: 10, g: 20, b: 30, a: 255 };
    assert_eq!(c.distance_to(&c), vec![0, 0, 0, 0]);
}

#[test]
fn color_lerp_with_itself_is_identity() {
    let c = Color { r: 10, g: 20, b: 30, a: 255 };
    let mut v = c;
    v.lerp(&c, &c, 123_456);
    assert_eq!(v, c);
}

#[test]
fn color_midpoint_rounding_policy() {
    // Interpolating (255, 0, 0, 255) toward (0, 255, 0, 255) half way:
    // the falling channel rounds its step toward zero and lands on 128,
    // the rising one on 127.
    let red = Color { r: 255, g: 0, b: 0, a: 255 };
    let green = Color { r: 0, g: 255, b: 0, a: 255 };
    let mut v = red;
    v.lerp(&red, &green, SCALE / 2);
    assert_eq!(v, Color { r: 128, g: 127, b: 0, a: 255 });
}

#[test]
fn color_lerp_hits_endpoints_exactly() {
    let a = Color { r: 1, g: 2, b: 3, a: 4 };
    let b = Color { r: 200, g: 100, b: 0, a: 255 };
    let mut v = a;
    v.lerp(&a, &b, SCALE);
    assert_eq!(v, b);
    v.lerp(&a, &b, 0);
    assert_eq!(v, a);
}

#[test]
fn color_channel_distance_is_normalized() {
    let white = Color { r: 255, g: 255, b: 255, a: 255 };
    let black = Color { r: 0, g: 0, b: 0, a: 255 };
    assert_eq!(
        white.distance_to(&black),
        vec![1_000_000, 1_000_000, 1_000_000, 0]
    );
}

#[test]
fn u8_animates_like_a_channel() {
    let a: u8 = 255;
    let b: u8 = 0;
    let mut v = a;
    v.lerp(&a, &b, SCALE / 2);
    assert_eq!(v, 128);
    assert_eq!(a.distance_to(&b), vec![1_000_000]);
    assert_eq!(<u8 as Animate>::components(), 1);
}

#[test]
fn style_modifier_blends_matching_shapes() {
    let a = StyleModifier {
        foreground: Some(Color { r: 0, g: 0, b: 0, a: 255 }),
        background: None,
        font_style: Some(1),
    };
    let b = StyleModifier {
        foreground: Some(Color { r: 100, g: 0, b: 0, a: 255 }),
        background: None,
        font_style: Some(2),
    };
    let mut v = a;
    v.lerp(&a, &b, SCALE / 2);
    assert_eq!(v.foreground, Some(Color { r: 50, g: 0, b: 0, a: 255 }));
    assert_eq!(v.background, None);
    // The start side's font style is kept until the blend completes.
    assert_eq!(v.font_style, Some(1));
    v.lerp(&a, &b, SCALE);
    assert_eq!(v.font_style, Some(2));
}

#[test]
fn style_modifier_mismatched_shape_snaps_at_completion() {
    let a = StyleModifier {
        foreground: Some(Color { r: 10, g: 10, b: 10, a: 255 }),
        background: None,
        font_style: None,
    };
    let b = StyleModifier { foreground: None, background: None, font_style: None };
    let mut v = a;
    v.lerp(&a, &b, 999_999);
    assert_eq!(v.foreground, a.foreground);
    v.lerp(&a, &b, SCALE);
    assert_eq!(v.foreground, None);
}

#[test]
fn style_modifier_distance_pads_absent_colors() {
    let a = StyleModifier {
        foreground: Some(Color { r: 255, g: 0, b: 0, a: 0 }),
        background: None,
        font_style: None,
    };
    let b = StyleModifier {
        foreground: Some(Color { r: 0, g: 0, b: 0, a: 0 }),
        background: Some(Color { r: 9, g: 9, b: 9, a: 9 }),
        font_style: None,
    };
    let d = a.distance_to(&b);
    assert_eq!(d.len(), 8);
    assert_eq!(d[0], 1_000_000);
    assert_eq!(&d[4..], &[0, 0, 0, 0]);
}

#[test]
fn theme_item_delegates_to_its_style() {
    let a = ThemeItem {
        style: StyleModifier {
            foreground: Some(Color { r: 4, g: 4, b: 4, a: 4 }),
            background: None,
            font_style: None,
        },
    };
    assert_eq!(a.distance_to(&a), vec![0; 8]);
    assert_eq!(<ThemeItem as Animate>::components(), 8);
    let mut v = a;
    v.lerp(&a, &a, 777);
    assert_eq!(v, a);
}

#[test]
fn apply_zero_deltas_keeps_color_channels() {
    let zeros: Vec<i64> = vec![0; 4];
    for c in [0u8, 1, 2, 127, 128, 200, 254, 255] {
        let mut v = Color { r: c, g: c, b: c, a: c };
        let mut cursor: usize = 0;
        v.apply_deltas(&zeros, &mut cursor);
        assert_eq!(v, Color { r: c, g: c, b: c, a: c });
        assert_eq!(cursor, 4);
    }
}
