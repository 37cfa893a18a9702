use editor_core::grapheme::GraphemeWidth;
use editor_core::grapheme::TextGrapheme;
use editor_core::line::Line;

fn line_text(line: &Line) -> String {
    line.get_visible_graphemes(0, usize::MAX)
}

#[test]
fn from_counts_clusters_not_code_points() {
    // An accented letter written as base + combining mark is one cluster.
    let line = Line::from("e\u{301}o");
    assert_eq!(line.len(), 2);
    assert_eq!(Line::from("abc").len(), 3);
    assert_eq!(Line::from("").len(), 0);
}

#[test]
fn full_range_reconstructs_plain_text() {
    let line = Line::from("hello world");
    assert_eq!(line_text(&line), "hello world");
}

#[test]
fn tab_becomes_single_space() {
    let line = Line::from("a\tb");
    assert_eq!(line.len(), 3);
    assert_eq!(line_text(&line), "a b");
    assert_eq!(line.get_total_width(), 3);
}

#[test]
fn zero_width_cluster_shows_placeholder() {
    // A combining mark with no base character has zero natural width.
    let line = Line::from("\u{0301}");
    assert_eq!(line.len(), 1);
    assert_eq!(line_text(&line), "\u{00B7}");
    assert_eq!(line.get_total_width(), 1);
}

#[test]
fn full_width_cluster_counts_two_cells() {
    let line = Line::from("\u{65E5}\u{672C}");
    assert_eq!(line.len(), 2);
    assert_eq!(line.get_total_width(), 4);
    assert_eq!(line.get_nth_location(1), 2);
}

#[test]
fn nth_location_is_monotone_and_exact() {
    // Widths 2, 1, 2, 1.
    let line = Line::from("\u{65E5}a\u{3042}b");
    let expected = [0, 2, 3, 5, 6];
    for (col, want) in expected.iter().enumerate() {
        assert_eq!(line.get_nth_location(col), *want);
    }
    let mut prev = 0;
    for col in 0..=line.len() {
        let loc = line.get_nth_location(col);
        assert!(loc >= prev);
        prev = loc;
    }
    // Past-the-end cluster indices clamp to the total width.
    assert_eq!(line.get_nth_location(100), line.get_total_width());
}

#[test]
fn window_starting_mid_glyph_shows_ellipsis() {
    // Two full-width clusters; the window starts inside the first one.
    let line = Line::from("\u{65E5}\u{672C}");
    assert_eq!(line.get_visible_graphemes(1, 4), "...\u{672C}");
}

#[test]
fn window_ending_mid_glyph_shows_ellipsis() {
    let line = Line::from("\u{65E5}\u{672C}");
    assert_eq!(line.get_visible_graphemes(0, 3), "\u{65E5}...");
}

#[test]
fn empty_window_renders_nothing() {
    let line = Line::from("abc");
    assert_eq!(line.get_visible_graphemes(5, 5), "");
    assert_eq!(line.get_visible_graphemes(3, 2), "");
}

#[test]
fn window_skips_clusters_before_start() {
    let line = Line::from("abcd");
    assert_eq!(line.get_visible_graphemes(1, 3), "bc");
    assert_eq!(line.get_visible_graphemes(2, usize::MAX), "cd");
}

#[test]
fn insert_then_remove_restores_line() {
    let mut line = Line::from("abc");
    line.insert_char('x', 1);
    assert_eq!(line_text(&line), "axbc");
    line.remove_char(1);
    assert_eq!(line_text(&line), "abc");
    assert_eq!(line.len(), 3);
}

#[test]
fn insert_at_ends() {
    let mut line = Line::from("bc");
    line.insert_char('a', 0);
    line.insert_char('d', 3);
    assert_eq!(line_text(&line), "abcd");
}

#[test]
fn append_moves_all_clusters() {
    let mut left = Line::from("ab");
    let mut right = Line::from("cd");
    left.append(&mut right);
    assert_eq!(line_text(&left), "abcd");
    assert_eq!(right.len(), 0);
}

#[test]
fn grapheme_new_classifies_widths() {
    let half = TextGrapheme::new("a");
    assert!(matches!(half.rendered_width, GraphemeWidth::Half));
    assert!(half.replacement.is_none());

    let full = TextGrapheme::new("\u{5B57}");
    assert!(matches!(full.rendered_width, GraphemeWidth::Full));
    assert!(full.replacement.is_none());

    let tab = TextGrapheme::new("\t");
    assert_eq!(tab.grapheme, " ");
    assert!(matches!(tab.rendered_width, GraphemeWidth::Half));
    assert!(tab.replacement.is_none());

    let zero = TextGrapheme::new("\u{0300}");
    assert_eq!(zero.replacement, Some('\u{00B7}'));
}

#[test]
fn grapheme_width_saturating_add() {
    assert_eq!(GraphemeWidth::Half.saturating_add(0), 1);
    assert_eq!(GraphemeWidth::Full.saturating_add(0), 2);
    assert_eq!(GraphemeWidth::Half.saturating_add(usize::MAX), usize::MAX);
    assert_eq!(GraphemeWidth::Full.saturating_add(usize::MAX - 1), usize::MAX);
}
