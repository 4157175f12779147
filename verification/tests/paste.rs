use festerm::paste::{
    bounded_paste_preview, normalize_paste_line_endings, paste_line_count, requires_confirmation,
    LARGE_PASTE_CHARACTER_THRESHOLD, LARGE_PASTE_LINE_THRESHOLD, PASTE_PREVIEW_CHARACTER_LIMIT,
    PASTE_PREVIEW_LINE_LIMIT,
};

#[test]
fn paste_policy_normalizes_endings_and_counts_trailing_lines_exactly() {
    let normalized = normalize_paste_line_endings("first\r\nsecond\rthird\n");

    assert_eq!(normalized, "first\nsecond\nthird\n");
    assert_eq!(paste_line_count(&normalized), 4);
    assert_eq!(normalized.chars().count(), 19);
}

#[test]
fn paste_preview_is_bounded_and_escapes_non_whitespace_controls() {
    let text = format!("one\ttwo\u{0007}\n{}", "x".repeat(900));
    let (preview, shown_lines, shown_characters) = bounded_paste_preview(&text);

    assert!(preview.starts_with("one\ttwo\\u{0007}\n"));
    assert_eq!(shown_lines, 2);
    assert_eq!(shown_characters, PASTE_PREVIEW_CHARACTER_LIMIT);
    assert!(shown_characters < text.chars().count());
}

#[test]
fn line_endings_of_every_kind_become_line_feeds() {
    assert_eq!(normalize_paste_line_endings(""), "");
    assert_eq!(normalize_paste_line_endings("\r"), "\n");
    assert_eq!(normalize_paste_line_endings("\r\r\n"), "\n\n");
    assert_eq!(normalize_paste_line_endings("\n\r"), "\n\n");
    assert_eq!(normalize_paste_line_endings("a\r\n\r\nb"), "a\n\nb");
    assert_eq!(normalize_paste_line_endings("é\r漢"), "é\n漢");
}

#[test]
fn normalizing_again_changes_nothing() {
    let once = normalize_paste_line_endings("a\r\nb\rc\nd");
    assert_eq!(normalize_paste_line_endings(&once), once);
    assert_eq!(normalize_paste_line_endings("plain\ntext"), "plain\ntext");
}

#[test]
fn an_empty_paste_is_one_line() {
    assert_eq!(paste_line_count(""), 1);
    assert_eq!(paste_line_count("\n"), 2);
}

#[test]
fn a_preview_stops_before_a_line_too_many() {
    let text = "a\nb\nc\nd\ne\nf\ng\nh\ni\nj";
    let (preview, lines, characters) = bounded_paste_preview(text);
    assert_eq!(preview, "a\nb\nc\nd\ne\nf\ng\nh");
    assert_eq!(lines, PASTE_PREVIEW_LINE_LIMIT);
    assert_eq!(characters, 15);
}

#[test]
fn a_short_text_is_previewed_as_it_is() {
    let (preview, lines, characters) = bounded_paste_preview("one\ttwo\nthree");
    assert_eq!(preview, "one\ttwo\nthree");
    assert_eq!(lines, 2);
    assert_eq!(characters, 13);
}

#[test]
fn every_control_character_but_tab_and_line_feed_is_escaped() {
    let (preview, _, _) = bounded_paste_preview("\u{0}\u{1b}\u{7f}\u{9f}");
    assert_eq!(preview, "\\u{0000}\\u{001b}\\u{007f}\\u{009f}");
}

#[test]
fn single_lines_and_bracketed_lines_go_out_unasked() {
    assert!(!requires_confirmation("one line", false));
    assert!(!requires_confirmation("one line", true));
    assert!(!requires_confirmation("two\nlines", true));
}

#[test]
fn several_lines_are_confirmed_without_bracketed_paste() {
    assert!(requires_confirmation("two\nlines", false));
    assert!(requires_confirmation("trailing\n", false));
}

#[test]
fn large_pastes_are_always_confirmed() {
    let characters = "x".repeat(LARGE_PASTE_CHARACTER_THRESHOLD);
    assert!(requires_confirmation(&characters, true));
    assert!(!requires_confirmation(&characters[1..], true));
    let lines = "\n".repeat(LARGE_PASTE_LINE_THRESHOLD - 1);
    assert!(requires_confirmation(&lines, true));
    assert!(!requires_confirmation(&lines[1..], true));
}

#[test]
fn line_counts_of_parts_make_up_the_whole() {
    for (a, b) in [("", ""), ("one", "two"), ("one\n", "two"), ("a\nb", "\nc\n"), ("\r", "\r")] {
        assert_eq!(
            paste_line_count(&format!("{a}{b}")),
            paste_line_count(a) + paste_line_count(b) - 1
        );
    }
    assert_eq!(paste_line_count("\r"), 1);
}
