use codewhale_ratatui::detect::{
    appearance_from_apple_interface_style, colorfgbg_background, colorfgbg_index, resolve_terminal_background,
    Appearance, BackgroundSource,
};
use codewhale_ratatui::style::Color;

/// What `COLORFGBG` says, with the appearance a host measures for a fixed
/// palette color (index 234 is a near-black gray).
fn colorfgbg(value: &str) -> Option<(Appearance, Option<Color>)> {
    colorfgbg_index(value).map(|index| colorfgbg_background(index, Appearance::Dark))
}

#[test]
fn osc11_measurement_beats_every_hint() {
    // `#faf8f5` measures light.
    let bg = resolve_terminal_background(
        Some(((0xfa, 0xf8, 0xf5), Appearance::Light)),
        colorfgbg("15;0"),
        Some(Appearance::Dark),
    );
    assert_eq!(bg.appearance(), Appearance::Light);
    assert_eq!(bg.source(), BackgroundSource::Osc11);
    assert_eq!(bg.color(), Some(Color::Rgb(0xfa, 0xf8, 0xf5)));
}

#[test]
fn colorfgbg_yields_polarity_and_exact_color_only_when_fixed() {
    let light = resolve_terminal_background(None, colorfgbg("0;15"), None);
    assert_eq!(light.appearance(), Appearance::Light);
    assert_eq!(light.color(), None);
    let dark = resolve_terminal_background(None, colorfgbg("15;0"), None);
    assert_eq!(dark.appearance(), Appearance::Dark);
    let fixed = resolve_terminal_background(None, colorfgbg("7;234"), None);
    assert_eq!(fixed.appearance(), Appearance::Dark);
    assert_eq!(fixed.color(), Some(Color::Indexed(234)));
}

#[test]
fn macos_setting_is_a_hint_not_an_appearance() {
    let bg = resolve_terminal_background(None, None, Some(Appearance::Dark));
    assert_eq!(bg.hint(), Appearance::Dark);
    assert_eq!(bg.appearance(), Appearance::Unknown);
    assert_eq!(resolve_terminal_background(None, None, None).appearance(), Appearance::Unknown);
}

#[test]
fn apple_interface_style_parses() {
    assert_eq!(appearance_from_apple_interface_style("Dark\n"), Appearance::Dark);
    assert_eq!(appearance_from_apple_interface_style(""), Appearance::Light);
}

#[test]
fn colorfgbg_reads_the_last_numeric_field() {
    assert_eq!(colorfgbg_index("15;0"), Some(0));
    assert_eq!(colorfgbg_index("15;default;8"), Some(8));
    assert_eq!(colorfgbg_index("7;x"), Some(7));
    assert_eq!(colorfgbg_index("default"), None);
    assert_eq!(colorfgbg_index(""), None);
    assert_eq!(colorfgbg_background(300, Appearance::Light), (Appearance::Light, None));
    assert_eq!(colorfgbg_background(16, Appearance::Light), (Appearance::Light, Some(Color::Indexed(16))));
}
