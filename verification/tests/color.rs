use codewhale_ratatui::color::{indexed_rgb, resolvable_rgb, rgb, rgb_to_ansi256, ColorDepth, Environment};
use codewhale_ratatui::style::Color;

fn env(pairs: &[(&str, &str)]) -> Environment {
    let get = |key: &str| pairs.iter().find(|(k, _)| *k == key).map(|(_, v)| (*v).to_string());
    Environment {
        no_color: get("NO_COLOR"),
        colorterm: get("COLORTERM"),
        wt_session: get("WT_SESSION"),
        term_program: get("TERM_PROGRAM"),
        term: get("TERM"),
        ascii_safe: get("CODEWHALE_ASCII_SAFE"),
        appearance: get("CODEWHALE_APPEARANCE"),
    }
}

#[test]
fn no_color_wins_over_every_other_signal() {
    let e = env(&[("NO_COLOR", "1"), ("COLORTERM", "truecolor")]);
    assert_eq!(ColorDepth::detect_with(&e), ColorDepth::Monochrome);
    // An empty NO_COLOR is not a request (no-color.org).
    let e = env(&[("NO_COLOR", ""), ("COLORTERM", "truecolor")]);
    assert_eq!(ColorDepth::detect_with(&e), ColorDepth::TrueColor);
}

#[test]
fn term_fallbacks_are_conservative() {
    assert_eq!(ColorDepth::detect_with(&env(&[("TERM", "xterm-256color")])), ColorDepth::Ansi256);
    assert_eq!(ColorDepth::detect_with(&env(&[])), ColorDepth::Ansi16);
    assert_eq!(ColorDepth::detect_with(&env(&[("TERM", "dumb")])), ColorDepth::Ansi16);
    assert_eq!(ColorDepth::detect_with(&env(&[("TERM", "screen")])), ColorDepth::Ansi256);
    assert_eq!(ColorDepth::detect_with(&env(&[("TERM_PROGRAM", "WezTerm")])), ColorDepth::TrueColor);
}

#[test]
fn ansi256_round_trips_through_the_fixed_cube() {
    for index in 16..=255u8 {
        let (r, g, b) = indexed_rgb(index).unwrap();
        let back = rgb_to_ansi256(r, g, b);
        assert_eq!(indexed_rgb(back), Some((r, g, b)), "index {index}");
    }
    assert_eq!(indexed_rgb(7), None);
}

#[test]
fn windows_terminal_and_truecolor_terms_get_24_bits() {
    assert_eq!(ColorDepth::detect_with(&env(&[("WT_SESSION", "x")])), ColorDepth::TrueColor);
    assert_eq!(ColorDepth::detect_with(&env(&[("COLORTERM", "24BIT")])), ColorDepth::TrueColor);
    assert_eq!(ColorDepth::detect_with(&env(&[("TERM", "xterm-truecolor")])), ColorDepth::TrueColor);
    assert_eq!(ColorDepth::detect_with(&env(&[("TERM_PROGRAM", "vscode")])), ColorDepth::TrueColor);
    assert_eq!(ColorDepth::detect_with(&env(&[("TERM_PROGRAM", "Apple_Terminal")])), ColorDepth::Ansi16);
}

#[test]
fn cube_and_gray_ramp_values() {
    assert_eq!(indexed_rgb(16), Some((0, 0, 0)));
    assert_eq!(indexed_rgb(21), Some((0, 0, 255)));
    assert_eq!(indexed_rgb(231), Some((255, 255, 255)));
    assert_eq!(indexed_rgb(232), Some((8, 8, 8)));
    assert_eq!(indexed_rgb(255), Some((238, 238, 238)));
    assert_eq!(rgb_to_ansi256(255, 0, 0), 196);
    assert_eq!(rgb_to_ansi256(128, 128, 128), 244);
    assert_eq!(rgb_to_ansi256(0, 0, 0), 16);
}

#[test]
fn hex_tokens_split_into_channels() {
    assert_eq!(rgb(0x1e8fd8), Color::Rgb(0x1e, 0x8f, 0xd8));
    assert_eq!(resolvable_rgb(Color::Rgb(1, 2, 3)), Some((1, 2, 3)));
    assert_eq!(resolvable_rgb(Color::Indexed(21)), Some((0, 0, 255)));
    assert_eq!(resolvable_rgb(Color::Indexed(3)), None);
    assert_eq!(resolvable_rgb(Color::Reset), None);
}
