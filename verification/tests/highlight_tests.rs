use iced_anim::highlight::{
    change_line_plan, font_choice, needs_snapshot, CachePlan, FontSlant, FontWeight, Highlight,
    ScopeRanges, LINES_PER_SNAPSHOT,
};
use iced_anim::style::{Color, StyleModifier};

#[test]
fn font_choice_covers_all_flag_pairs() {
    assert_eq!(font_choice(false, false), None);
    assert_eq!(font_choice(true, false), Some((FontWeight::Bold, FontSlant::Normal)));
    assert_eq!(font_choice(false, true), Some((FontWeight::Normal, FontSlant::Italic)));
    assert_eq!(font_choice(true, true), Some((FontWeight::Bold, FontSlant::Italic)));
}

#[test]
fn highlight_reads_style_bits() {
    // Bold is bit 1, underline bit 2, italic bit 4; underlining does not
    // change the font.
    let style = StyleModifier {
        foreground: Some(Color { r: 1, g: 2, b: 3, a: 4 }),
        background: None,
        font_style: Some(5),
    };
    let h = Highlight(style);
    assert_eq!(h.color(), Some(Color { r: 1, g: 2, b: 3, a: 4 }));
    assert_eq!(h.font(), Some((FontWeight::Bold, FontSlant::Italic)));
    let f = h.to_format();
    assert_eq!(f.color, h.color());
    assert_eq!(f.font, h.font());

    let bold_underline = Highlight(StyleModifier {
        foreground: None,
        background: None,
        font_style: Some(3),
    });
    assert_eq!(bold_underline.font(), Some((FontWeight::Bold, FontSlant::Normal)));

    let italic_only = Highlight(StyleModifier {
        foreground: None,
        background: None,
        font_style: Some(4),
    });
    assert_eq!(italic_only.font(), Some((FontWeight::Normal, FontSlant::Italic)));

    let underline_only = Highlight(StyleModifier {
        foreground: None,
        background: None,
        font_style: Some(2),
    });
    assert_eq!(underline_only.font(), None);
}

#[test]
fn highlight_without_bits_changes_nothing() {
    let style = StyleModifier { foreground: None, background: None, font_style: None };
    let h = Highlight(style);
    assert_eq!(h.color(), None);
    assert_eq!(h.font(), None);
    let plain = Highlight(StyleModifier {
        foreground: None,
        background: None,
        font_style: Some(0),
    });
    assert_eq!(plain.font(), None);
}

#[test]
fn change_line_within_cache_keeps_its_block() {
    let plan = change_line_plan(5, 120);
    assert_eq!(plan, CachePlan { keep: 2, current_line: 100 });
}

#[test]
fn change_line_beyond_cache_falls_back() {
    let plan = change_line_plan(1, 999);
    assert_eq!(plan, CachePlan { keep: 1, current_line: 0 });
}

#[test]
fn snapshot_needed_once_per_block() {
    assert!(needs_snapshot(1, LINES_PER_SNAPSHOT));
    assert!(!needs_snapshot(1, LINES_PER_SNAPSHOT - 1));
    assert!(needs_snapshot(0, 0));
}

#[test]
fn scope_ranges_walk_the_whole_line() {
    let mut it = ScopeRanges::new(vec![3, 3, 5], 8);
    assert_eq!(it.next_range(), Some((0, 3, 0)));
    assert_eq!(it.next_range(), Some((3, 3, 1)));
    assert_eq!(it.next_range(), Some((3, 5, 2)));
    assert_eq!(it.next_range(), Some((5, 8, 3)));
    assert_eq!(it.next_range(), None);
    assert_eq!(it.next_range(), None);
}

#[test]
fn scope_ranges_of_a_bare_line() {
    let mut it = ScopeRanges::new(vec![], 4);
    assert_eq!(it.next_range(), Some((0, 4, 0)));
    assert_eq!(it.next_range(), None);
}
