use codexmanager_service::text::{
    ascii_lower_equals, char_is_white_space, text_equals, text_starts_with, trim_text,
};

#[test]
fn trim_matches_std_trim() {
    for s in ["", "  ", " a ", "\t\nab c\r\n", "\u{00A0}x\u{2003}", "\u{200B}y", "x"] {
        assert_eq!(trim_text(s), s.trim());
    }
}

#[test]
fn white_space_matches_std() {
    for c in ['\t', '\n', ' ', '\u{85}', '\u{A0}', '\u{1680}', '\u{2000}', '\u{200A}', '\u{2028}', '\u{3000}', 'a', '\u{200B}', '\u{180E}'] {
        assert_eq!(char_is_white_space(c), c.is_whitespace());
    }
}

#[test]
fn trim_twice_is_trim_once() {
    let once = trim_text("  \u{3000} inner  text \t");
    assert_eq!(trim_text(once), once);
    assert_eq!(once, "inner  text");
}

#[test]
fn comparisons() {
    assert!(text_equals("abc", "abc"));
    assert!(!text_equals("abc", "abd"));
    assert!(ascii_lower_equals("AdMiN", "admin"));
    assert!(!ascii_lower_equals("admin", "ADMIN"));
    assert!(!ascii_lower_equals("ÄDMIN", "ädmin"));
    assert!(text_starts_with("usage endpoint status 500", "usage endpoint status"));
    assert!(!text_starts_with("usage", "usage endpoint"));
}
