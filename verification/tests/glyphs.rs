use codewhale_ratatui::glyphs::{
    ascii_fallback, braille_ascii_fallback, pick, selection_marker, ATTENTION, AVAILABLE, CURRENT, DONE, ELLIPSIS,
    FAILED, NEUTRAL, READY, SELECTION, STOPPED, USER,
};

#[test]
fn charter_has_narrow_semantic_fallbacks() {
    for (rich, safe) in [
        (SELECTION, ">"),
        ("▷", ">"),
        (CURRENT, "."),
        (AVAILABLE, "o"),
        (READY, "o"),
        ("☐", "o"),
        ("•", "."),
        (NEUTRAL, "."),
        (USER, "|"),
        (DONE, "Y"),
        (FAILED, "X"),
        (ATTENTION, "*"),
        ("≈≈>", "~>"),
        ("≈", "~"),
        ("～", "~"),
        ("⌁", "+"),
        ("↺", "<"),
        ("▤", "="),
        ("◐", "*"),
        ("⑂", "y"),
        ("∼", "~"),
        ("∿", "~"),
        ("⋯", "."),
        ("⏱", "@"),
        ("🐳", "w"),
        ("🐋", "w"),
        (STOPPED, "#"),
        (ELLIPSIS, "."),
    ] {
        assert_eq!(ascii_fallback(rich), Some(safe));
    }
    assert_ne!(
        ascii_fallback(CURRENT),
        ascii_fallback(AVAILABLE),
        "current and available must stay distinct in ASCII"
    );
    assert_eq!(braille_ascii_fallback('\u{2801}'), Some("."));
    assert_eq!(braille_ascii_fallback('A'), None);
}

#[test]
fn pick_keeps_symbols_without_a_fallback() {
    assert_eq!(pick("─", true), "-");
    assert_eq!(pick("─", false), "─");
    assert_eq!(pick("abc", true), "abc");
    assert_eq!(selection_marker(true), "▸");
    assert_eq!(selection_marker(false), " ");
    assert_eq!(ascii_fallback("ab"), None);
}

#[test]
fn braille_shades_by_dot_count() {
    assert_eq!(braille_ascii_fallback('\u{2800}'), Some(" "));
    assert_eq!(braille_ascii_fallback('\u{28FF}'), Some("#"));
}
