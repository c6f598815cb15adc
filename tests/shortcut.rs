use aynary::clipboard_monitor::ClipboardMonitor;
use aynary::shortcut_handler::{word_from_token, ShortcutHandler};
use aynary::text::trim;

#[test]
fn selection_gives_its_first_word() {
    let h = ShortcutHandler::new();
    assert_eq!(h.word_from_selection("  hello, world "), Some("hello".to_string()));
    assert_eq!(h.word_from_selection("\"quoted\" text"), Some("quoted".to_string()));
    assert_eq!(h.word_from_selection("--x2--"), Some("x2".to_string()));
    assert_eq!(h.word_from_selection("café!"), Some("café".to_string()));
}

#[test]
fn selection_without_a_word_gives_nothing() {
    let h = ShortcutHandler::new();
    assert_eq!(h.word_from_selection(""), None);
    assert_eq!(h.word_from_selection("   \n"), None);
    assert_eq!(h.word_from_selection("!!! word"), None);
}

#[test]
fn long_words_are_refused() {
    let h = ShortcutHandler::new();
    let w49 = "a".repeat(49);
    let w50 = "a".repeat(50);
    assert_eq!(h.word_from_selection(&w49), Some(w49.clone()));
    assert_eq!(h.word_from_selection(&w50), None);
    let wide = "é".repeat(25);
    assert_eq!(h.word_from_selection(&wide), None);
    let narrow = "é".repeat(24);
    assert_eq!(h.word_from_selection(&narrow), Some(narrow.clone()));
}

#[test]
fn token_is_cut_to_its_flagged_span() {
    assert_eq!(word_from_token("(ab)", &vec![false, true, true, false]), Some("ab".to_string()));
    assert_eq!(word_from_token("a-b", &vec![true, false, true]), Some("a-b".to_string()));
    assert_eq!(word_from_token("??", &vec![false, false]), None);
    assert_eq!(word_from_token("", &vec![]), None);
}

#[test]
fn shortcut_setup_succeeds() {
    let h = ShortcutHandler::new();
    assert!(h.register_shortcut("<Primary><Shift>d").is_ok());
    assert!(h.setup_app_shortcuts().is_ok());
}

#[test]
fn trim_removes_unicode_whitespace() {
    assert_eq!(trim("\u{3000} a b \t\n"), "a b");
    assert_eq!(trim(""), "");
}

#[test]
fn clipboard_monitor_starts_empty() {
    let m = ClipboardMonitor::new();
    assert_eq!(m.last_selection, "");
    assert_eq!(m.debounce_millis, 500);
}
