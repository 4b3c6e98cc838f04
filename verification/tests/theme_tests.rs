use iced_anim::style::{Color, StyleModifier, ThemeItem};
use iced_anim::theme::{Theme, ThemeData, THEME_CAP, THEME_COMPONENTS};

fn item(r: u8) -> ThemeItem {
    ThemeItem {
        style: StyleModifier {
            foreground: Some(Color { r, g: 0, b: 0, a: 255 }),
            background: None,
            font_style: None,
        },
    }
}

#[test]
fn theme_data_distance_is_fixed_length() {
    let a = ThemeData { name: None, items: vec![item(255), item(0)] };
    let b = ThemeData { name: None, items: vec![item(0)] };
    let d = a.distance_to(&b);
    assert_eq!(d.len(), THEME_COMPONENTS);
    // Only the overlapping prefix is compared; the rest is zero-padded.
    assert_eq!(d[0], 1_000_000);
    assert!(d[8..].iter().all(|&x| x == 0));
}

#[test]
fn theme_data_distance_to_self_is_zero() {
    let a = ThemeData { name: None, items: vec![item(1), item(2), item(3)] };
    assert!(a.distance_to(&a).iter().all(|&x| x == 0));
}

#[test]
fn theme_data_lerp_blends_overlapping_prefix() {
    let a = ThemeData { name: None, items: vec![item(0), item(40)] };
    let b = ThemeData { name: None, items: vec![item(100)] };
    let mut v = ThemeData { name: None, items: vec![] };
    v.lerp(&a, &b, 500_000);
    assert_eq!(v.items.len(), 2);
    assert_eq!(v.items[0].style.foreground, Some(Color { r: 50, g: 0, b: 0, a: 255 }));
    // The entry past the end's length keeps its start value.
    assert_eq!(v.items[1], item(40));
}

#[test]
fn theme_data_apply_consumes_full_run() {
    let mut d = ThemeData { name: None, items: vec![item(0)] };
    let mut deltas: Vec<i64> = vec![0; THEME_COMPONENTS];
    deltas[0] = 500_000;
    let mut cursor: usize = 0;
    d.apply_deltas(&deltas, &mut cursor);
    assert_eq!(cursor, THEME_COMPONENTS);
    assert_eq!(d.items[0].style.foreground, Some(Color { r: 128, g: 0, b: 0, a: 255 }));
}

#[test]
fn theme_data_equality_is_by_entries() {
    let a = ThemeData { name: None, items: vec![item(1), item(2)] };
    let b = ThemeData { name: None, items: vec![item(1), item(2)] };
    let c = ThemeData { name: None, items: vec![item(1)] };
    assert!(a.eq_data(&b));
    assert!(!a.eq_data(&c));
}

#[test]
fn preset_resolves_to_bundled_theme() {
    let d = Theme::SolarizedDark.highlighter_theme();
    assert!(!d.items.is_empty());
    assert!(d.items.len() <= THEME_CAP);
    let e = Theme::InspiredGitHub.highlighter_theme();
    assert!(!e.items.is_empty());
    // Two different presets resolve to different styles.
    assert!(!d.eq_data(&e));
}

#[test]
fn custom_theme_resolves_to_its_own_entries() {
    let data = ThemeData { name: None, items: vec![item(7)] };
    let theme = Theme::Custom(data);
    let resolved = theme.highlighter_theme();
    assert_eq!(resolved.items.len(), 1);
    assert_eq!(resolved.items[0], item(7));
}

#[test]
fn theme_update_becomes_custom() {
    let mut theme = Theme::Custom(ThemeData { name: None, items: vec![item(10)] });
    let deltas: Vec<i64> = vec![0; THEME_COMPONENTS];
    let mut cursor: usize = 0;
    theme.update(&deltas, &mut cursor);
    assert_eq!(cursor, THEME_COMPONENTS);
    match theme {
        Theme::Custom(d) => assert_eq!(d.items[0], item(10)),
        _ => panic!("expected a custom theme"),
    }
}

#[test]
fn theme_distance_between_presets_is_not_zero() {
    let d = Theme::SolarizedDark.distance_to(&Theme::SolarizedLight);
    assert_eq!(d.len(), THEME_COMPONENTS);
    assert!(d.iter().any(|&x| x != 0));
}

#[test]
fn custom_theme_shows_its_own_name() {
    let named = Theme::Custom(ThemeData {
        name: Some(String::from("Midnight")),
        items: vec![],
    });
    assert_eq!(named.display_name(), "Midnight");
    let nameless = Theme::Custom(ThemeData { name: None, items: vec![] });
    assert_eq!(nameless.display_name(), "");
}

#[test]
fn preset_resolution_carries_the_bundled_name() {
    let d = Theme::SolarizedDark.highlighter_theme();
    assert_eq!(d.name.as_deref(), Some("Solarized (dark)"));
}

#[test]
fn theme_equality_compares_names() {
    let a = ThemeData { name: Some(String::from("A")), items: vec![item(1)] };
    let b = ThemeData { name: Some(String::from("A")), items: vec![item(1)] };
    let c = ThemeData { name: Some(String::from("C")), items: vec![item(1)] };
    assert!(a.eq_data(&b));
    assert!(!a.eq_data(&c));
}

#[test]
fn theme_equality_and_names() {
    assert!(Theme::SolarizedDark.eq_theme(&Theme::SolarizedDark));
    assert!(!Theme::SolarizedDark.eq_theme(&Theme::SolarizedLight));
    assert_eq!(Theme::SolarizedDark.display_name(), "Solarized Dark");
    assert_eq!(Theme::Base16Mocha.display_name(), "Mocha");
    assert_eq!(Theme::Base16OceanDark.display_name(), "Ocean Dark");
    assert_eq!(Theme::Base16OceanLight.display_name(), "Ocean Light");
    assert_eq!(Theme::Base16Eighties.display_name(), "Eighties");
    assert_eq!(Theme::SolarizedLight.display_name(), "Solarized Light");
    assert_eq!(Theme::InspiredGitHub.display_name(), "Inspired GitHub");
    assert_eq!(Theme::SolarizedDark.key(), "Solarized (dark)");
}
