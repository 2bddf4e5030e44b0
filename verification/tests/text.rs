use std::borrow::Cow;

use codewhale_ratatui::text::{display_safe, pad, truncate, truncate_words, width};

#[test]
fn bidi_overrides_are_stripped() {
    let spoof = "rm -rf ~/\u{202E}txt.exe";
    assert_eq!(display_safe(spoof), "rm -rf ~/txt.exe");
    assert!(matches!(display_safe("plain"), Cow::Borrowed(_)));
    assert_eq!(display_safe("a\u{1b}[31mb"), "a[31mb");
}

#[test]
fn truncate_respects_cell_width() {
    assert_eq!(truncate("Shoreline", 20, false), "Shoreline");
    assert_eq!(truncate("Shoreline light", 10, false), "Shoreline…");
    assert_eq!(truncate("Shoreline light", 10, true), "Shoreline.");
    // A wide character is never split.
    assert_eq!(truncate("鲸鱼鲸鱼", 5, false), "鲸鱼…");
    assert_eq!(width(&pad("ab", 4, false)), 4);
    // A combining sequence stays whole.
    assert_eq!(truncate("cafe\u{301} au lait", 6, false), "cafe\u{301}…");
}

#[test]
fn prose_is_cut_between_words() {
    let hint = "Works in this session; asks before edits and shell commands";
    assert_eq!(truncate_words(hint, 40, false), "Works in this session; asks before…");
    assert_eq!(truncate(hint, 40, false), "Works in this session; asks before edit…");
    // One long word still fits by cutting inside it.
    assert_eq!(truncate_words("supercalifragilistic", 8, false), "superca…");
}

#[test]
fn display_safe_leaves_no_control_behind() {
    let dirty = "\u{2066}a\u{0}b\u{7f}c\u{9b}d\u{200f}";
    let clean = display_safe(dirty);
    assert_eq!(clean, "abcd");
    assert!(!clean.chars().any(|c| c.is_control()));
    assert_eq!(display_safe(&clean), clean);
}

#[test]
fn zero_cells_hold_nothing_and_padding_fills() {
    assert_eq!(truncate("abc", 0, false), "");
    assert_eq!(truncate("", 3, false), "");
    assert_eq!(pad("ab", 4, false), "ab  ");
    assert_eq!(pad("abcdef", 4, true), "abc.");
    assert_eq!(truncate("abcdef", 1, false), "…");
    assert_eq!(width("鲸"), 2);
}
