use codewhale_ratatui::keys::{
    alt_nav_modifiers, chord_label, display_chord, has_control_like_modifier, is_ctrl_h_backspace, key_name,
    pair_label, KeyCode, KeyEvent, KeyModifiers, Platform,
};

const LINUX: Platform = Platform { macos: false, ascii: false };
const MAC: Platform = Platform { macos: true, ascii: false };
const ASCII: Platform = Platform { macos: true, ascii: true };

fn mods(shift: bool, control: bool, alt: bool, super_key: bool) -> KeyModifiers {
    KeyModifiers { shift, control, alt, super_key }
}

const NONE: KeyModifiers = KeyModifiers { shift: false, control: false, alt: false, super_key: false };
const CONTROL: KeyModifiers = KeyModifiers { shift: false, control: true, alt: false, super_key: false };
const ALT: KeyModifiers = KeyModifiers { shift: false, control: false, alt: true, super_key: false };
const SHIFT: KeyModifiers = KeyModifiers { shift: true, control: false, alt: false, super_key: false };
const SUPER: KeyModifiers = KeyModifiers { shift: false, control: false, alt: false, super_key: true };

#[test]
fn chords_match_the_engine_catalog_spelling() {
    let ctrl_o = KeyEvent::new(KeyCode::Char('o'), CONTROL);
    assert_eq!(chord_label(&ctrl_o, LINUX), "Ctrl+O");
    let alt_v = KeyEvent::new(KeyCode::Char('v'), ALT);
    assert_eq!(chord_label(&alt_v, LINUX), "Alt+V");
    assert_eq!(chord_label(&alt_v, MAC), "⌥V");
    assert_eq!(chord_label(&alt_v, ASCII), "Alt+V");
    let ctrl_shift_e = KeyEvent::new(KeyCode::Char('E'), mods(true, true, false, false));
    assert_eq!(chord_label(&ctrl_shift_e, LINUX), "Ctrl+Shift+E");
    let back_tab = KeyEvent::new(KeyCode::BackTab, SHIFT);
    assert_eq!(chord_label(&back_tab, LINUX), "Shift+Tab");
    let plain = KeyEvent::new(KeyCode::Char('a'), NONE);
    assert_eq!(chord_label(&plain, LINUX), "a");
    let page = KeyEvent::new(KeyCode::PageDown, NONE);
    assert_eq!(chord_label(&page, LINUX), "PgDn");
}

#[test]
fn arrows_are_one_spelling() {
    assert_eq!(pair_label(KeyCode::Up, KeyCode::Down, LINUX), "↑↓");
    assert_eq!(pair_label(KeyCode::Up, KeyCode::Down, ASCII), "Up/Down");
    assert_eq!(display_chord("F1", MAC), "fn+F1");
    assert_eq!(display_chord("Ctrl+O", MAC), "Ctrl+O");
}

#[test]
fn platform_predicates() {
    assert!(has_control_like_modifier(SUPER, MAC));
    assert!(!has_control_like_modifier(SUPER, LINUX));
    assert!(alt_nav_modifiers(mods(true, false, true, false)));
    assert!(!alt_nav_modifiers(mods(false, true, true, false)));
    assert!(is_ctrl_h_backspace(&KeyEvent::new(KeyCode::Char('h'), CONTROL)));
}

#[test]
fn key_names_cover_the_catalog() {
    assert_eq!(key_name(KeyCode::F(5), LINUX), "F5");
    assert_eq!(key_name(KeyCode::Char(' '), LINUX), "Space");
    assert_eq!(key_name(KeyCode::Esc, LINUX), "Esc");
    assert_eq!(key_name(KeyCode::PageUp, LINUX), "PgUp");
    assert_eq!(key_name(KeyCode::Left, ASCII), "Left");
    assert_eq!(key_name(KeyCode::Left, LINUX), "←");
    assert_eq!(display_chord("Alt+F1", LINUX), "Alt+F1");
    assert_eq!(display_chord("Alt+F1", MAC), "⌥fn+F1");
    assert!(!is_ctrl_h_backspace(&KeyEvent::new(KeyCode::Char('h'), ALT)));
}
