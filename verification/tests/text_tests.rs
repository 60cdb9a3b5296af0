use word_highlight_assistant::commands::show_text_in_window;
use word_highlight_assistant::selection::filter_selection;
use word_highlight_assistant::text::{char_is_whitespace, is_blank, trim};

#[test]
fn trim_removes_both_ends() {
    assert_eq!(trim("  hello world \n\t"), "hello world");
}

#[test]
fn trim_unicode_white_space() {
    assert_eq!(trim("\u{A0}\u{3000}词\u{2003}"), "词");
}

#[test]
fn trim_all_space_is_empty() {
    assert_eq!(trim(" \n \r\t "), "");
    assert_eq!(trim(""), "");
}

#[test]
fn trim_keeps_inner_space() {
    assert_eq!(trim("a  b"), "a  b");
}

#[test]
fn is_blank_cases() {
    assert!(is_blank(""));
    assert!(is_blank(" \t\n\u{3000}"));
    assert!(!is_blank("  x "));
}

#[test]
fn show_text_in_window_trims() {
    assert_eq!(show_text_in_window("  selected  "), Some("selected".to_string()));
}

#[test]
fn show_text_in_window_blank_shows_nothing() {
    assert_eq!(show_text_in_window("   \n"), None);
    assert_eq!(show_text_in_window(""), None);
}

#[test]
fn filter_selection_keeps_text_untrimmed() {
    assert_eq!(filter_selection(Some(" word ".to_string())), Some(" word ".to_string()));
    assert_eq!(filter_selection(Some("  \t".to_string())), None);
    assert_eq!(filter_selection(None), None);
}

#[test]
fn white_space_set_matches_std_for_every_char() {
    for u in 0u32..=0x10FFFF {
        if let Some(c) = char::from_u32(u) {
            assert_eq!(char_is_whitespace(c), c.is_whitespace(), "U+{:04X}", u);
        }
    }
}

#[test]
fn trim_matches_std() {
    for s in ["", " a ", "\u{85}x\u{85}", "\u{200B}y\u{200B}", "\u{1680} z \u{205F}", "\t\r\n"] {
        assert_eq!(trim(s), s.trim());
    }
}
