use codewhale_ratatui::color::{resolvable_rgb, rgb, ColorDepth, Environment};
use codewhale_ratatui::detect::Appearance;
use codewhale_ratatui::roles::Role;
use codewhale_ratatui::style::{Color, Style};
use codewhale_ratatui::testing::Profile;
use codewhale_ratatui::theme::{Caps, Ground, Theme};

fn theme(depth: ColorDepth, appearance: Appearance) -> Theme {
    Theme::new(Caps { depth, ascii: false, appearance })
}

fn all_roles() -> Vec<Role> {
    Role::ALL.to_vec()
}

fn env(pairs: &[(&str, &str)]) -> Environment {
    let get = |key: &str| pairs.iter().find(|(k, _)| *k == key).map(|(_, v)| (*v).to_string());
    Environment {
        no_color: get("NO_COLOR"),
        colorterm: get("COLORTERM"),
        wt_session: get("WT_SESSION"),
        term_program: get("TERM_PROGRAM"),
        term: get("TERM"),
        ascii_safe: get("CODEWHALE_ASCII_SAFE"),
        appearance: get("CODEWHALE_APPEARANCE"),
    }
}

fn channel(c: u8) -> f64 {
    let c = f64::from(c) / 255.0;
    if c <= 0.03928 { c / 12.92 } else { ((c + 0.055) / 1.055).powf(2.4) }
}

/// WCAG relative luminance of a color that resolves to RGB.
fn luminance(color: Color) -> f64 {
    let (r, g, b) = resolvable_rgb(color).expect("resolves to RGB");
    0.2126 * channel(r) + 0.7152 * channel(g) + 0.0722 * channel(b)
}

fn contrast(a: Color, b: Color) -> f64 {
    let (la, lb) = (luminance(a), luminance(b));
    let (hi, lo) = if la > lb { (la, lb) } else { (lb, la) };
    (hi + 0.05) / (lo + 0.05)
}

#[test]
fn truecolor_reads_the_token_tables() {
    let dark = theme(ColorDepth::TrueColor, Appearance::Dark);
    assert_eq!(dark.color(Role::Primary), Some(rgb(0x90b9ff)));
    let light = theme(ColorDepth::TrueColor, Appearance::Light);
    assert_eq!(light.color(Role::Danger), Some(rgb(0x9e3f36)));
}

/// The blue ombre tints dark grounds and the quiet line toward the logo's
/// deep blue, keeps every ink, and shows only at truecolor.
#[test]
fn ocean_tints_dark_grounds_only() {
    let ocean = theme(ColorDepth::TrueColor, Appearance::Dark);
    let graphite = ocean.ground(Ground::Graphite);
    assert_eq!(ocean.ground_kind(), Ground::Ocean, "the preferred look");
    for role in all_roles() {
        let (o, g) = (ocean.token_hex(role), graphite.token_hex(role));
        if role.ocean_tinted() {
            let (r, gr, b) = ((o >> 16) & 0xff, (o >> 8) & 0xff, o & 0xff);
            assert!(b > r && b > gr, "{role:?} #{o:06x} leans blue");
            let lum = |c| luminance(rgb(c));
            assert!((lum(o) - lum(g)).abs() < 0.002, "{role:?} keeps luminance");
        } else {
            assert_eq!(o, g, "{role:?} keeps its token ink");
        }
    }
    for depth in [ColorDepth::Ansi256, ColorDepth::Ansi16, ColorDepth::Monochrome] {
        let o = theme(depth, Appearance::Dark);
        let g = o.ground(Ground::Graphite);
        for role in all_roles() {
            assert_eq!(o.color(role), g.color(role), "{depth:?} {role:?}");
        }
    }
    let light = theme(ColorDepth::TrueColor, Appearance::Light);
    for role in all_roles() {
        assert_eq!(light.color(role), light.ground(Ground::Graphite).color(role), "light {role:?}");
    }
}

#[test]
fn unknown_ground_never_paints_token_colors() {
    let t = theme(ColorDepth::TrueColor, Appearance::Unknown);
    assert_eq!(t.bg(Role::Background), Style::new());
    assert_eq!(t.color(Role::Foreground), None);
    assert_eq!(t.color(Role::Live), Some(Color::Green));
    assert!(t.fg(Role::Muted).dim);
}

#[test]
fn no_color_uses_only_modifiers() {
    let t = theme(ColorDepth::Monochrome, Appearance::Dark);
    for role in all_roles() {
        let fg = t.fg(role);
        assert_eq!(fg.fg, None, "{role:?}");
        assert_eq!(t.bg(role).bg, None, "{role:?}");
    }
    assert!(t.fg(Role::Muted).dim);
}

#[test]
fn ansi16_state_hues_are_distinct() {
    let t = theme(ColorDepth::Ansi16, Appearance::Dark);
    let hues: Vec<_> =
        [Role::Primary, Role::Live, Role::Attention, Role::Danger].iter().map(|r| t.color(*r).unwrap()).collect();
    for (i, a) in hues.iter().enumerate() {
        for b in &hues[i + 1..] {
            assert_ne!(a, b);
        }
    }
    assert_eq!(t.bg(Role::Selected), Style::new());
}

#[test]
fn caps_read_ascii_safety_from_the_environment() {
    let on = Caps::detect_with(&env(&[("CODEWHALE_ASCII_SAFE", "1")]), || Appearance::Dark);
    assert!(on.ascii);
    for off in ["", "0", "false"] {
        let caps = Caps::detect_with(&env(&[("CODEWHALE_ASCII_SAFE", off)]), || Appearance::Dark);
        assert!(!caps.ascii, "{off:?}");
    }
    assert!(!Caps::detect_with(&env(&[]), || Appearance::Dark).ascii);
}

#[test]
fn a_forced_appearance_beats_detection() {
    let light = Caps::detect_with(&env(&[("CODEWHALE_APPEARANCE", "Light"), ("COLORTERM", "truecolor")]), || {
        panic!("forced appearance must not probe")
    });
    assert_eq!(light.appearance, Appearance::Light);
    assert!(light.paints_tokens());
    let dark = Caps::detect_with(&env(&[("CODEWHALE_APPEARANCE", "dark")]), || Appearance::Unknown);
    assert_eq!(dark.appearance, Appearance::Dark);
    let junk = Caps::detect_with(&env(&[("CODEWHALE_APPEARANCE", "sepia")]), || Appearance::Unknown);
    assert_eq!(junk.appearance, Appearance::Unknown);
}

/// Profiles the snapshots do not render separately, because they must look
/// exactly like one that is rendered.
#[test]
fn unsnapshotted_profiles_match_their_twins() {
    let dark16 = theme(ColorDepth::Ansi16, Appearance::Dark);
    let light16 = theme(ColorDepth::Ansi16, Appearance::Light);
    let unknown256 = theme(ColorDepth::Ansi256, Appearance::Unknown);
    for role in all_roles() {
        assert_eq!(light16.fg(role), dark16.fg(role), "{role:?}");
        assert_eq!(light16.bg(role), Style::new(), "{role:?}");
        assert_eq!(unknown256.fg(role), dark16.fg(role), "{role:?}");
        assert_eq!(unknown256.bg(role), Style::new(), "{role:?}");
    }
}

/// Grounds that quantize to one color at 256 colors.
#[test]
fn collapsed_grounds_are_known() {
    let grounds = [Role::Sidebar, Role::Background, Role::Surface, Role::Hover, Role::Selected];
    let mut collapsed = Vec::new();
    for appearance in [Appearance::Dark, Appearance::Light] {
        let t = theme(ColorDepth::Ansi256, appearance);
        for (i, a) in grounds.iter().enumerate() {
            for b in &grounds[i + 1..] {
                if !t.grounds_differ(*a, *b) {
                    collapsed.push(format!("{appearance:?} {a:?}={b:?}"));
                }
            }
        }
    }
    assert_eq!(
        collapsed,
        ["Dark Surface=Hover", "Light Background=Surface"],
        "Panel edges raised cards where Surface=Background; nothing paints Hover yet"
    );
}

/// Every text role clears WCAG AA (4.5:1) on every ground it can sit on,
/// and the strong border 3:1, at the two depths that paint token colors.
#[test]
fn contrast_holds_at_truecolor_and_ansi256() {
    let grounds = [Role::Background, Role::Surface, Role::Sidebar, Role::Hover, Role::Selected];
    let mut failures = Vec::new();
    for (appearance, ground) in
        [(Appearance::Dark, Ground::Ocean), (Appearance::Dark, Ground::Graphite), (Appearance::Light, Ground::Ocean)]
    {
        for depth in [ColorDepth::TrueColor, ColorDepth::Ansi256] {
            let t = theme(depth, appearance).ground(ground);
            for ground in grounds {
                let bg = t.color(ground).unwrap();
                for (ink, floor) in [
                    (Role::Foreground, 4.5),
                    (Role::Muted, 4.5),
                    (Role::Primary, 4.5),
                    (Role::Live, 4.5),
                    (Role::Attention, 4.5),
                    (Role::Danger, 4.5),
                    (Role::BorderStrong, 3.0),
                ] {
                    let ratio = contrast(t.color(ink).unwrap(), bg);
                    if ratio < floor {
                        failures.push(format!(
                            "{appearance:?} {depth:?} {ink:?} on {ground:?} ({:?}): {ratio:.2} < {floor}",
                            t.ground_kind()
                        ));
                    }
                }
            }
            let on_primary = contrast(t.color(Role::PrimaryForeground).unwrap(), t.color(Role::Primary).unwrap());
            if on_primary < 4.5 {
                failures.push(format!("{appearance:?} {depth:?} PrimaryForeground on Primary: {on_primary:.2} < 4.5"));
            }
        }
    }
    assert!(failures.is_empty(), "contrast failures:\n{}", failures.join("\n"));
}

#[test]
fn without_base_ground_leaves_only_the_background_alone() {
    let t = theme(ColorDepth::TrueColor, Appearance::Dark).without_base_ground();
    assert_eq!(t.bg(Role::Background), Style::new());
    assert!(t.bg(Role::Surface).bg.is_some());
    assert!(!t.paints_base_ground());
    assert_eq!(t.role_of(t.color(Role::Primary).unwrap(), false), Some(Role::Primary));
    assert_eq!(Role::Live.token_name(), "live");
    assert_eq!(Role::Border.index(), Role::ALL.iter().position(|r| *r == Role::Border).unwrap());
}

/// The token values of design tokens 1.1.1 and the roles agree.
#[test]
fn vendored_tokens_rs_agrees_with_roles() {
    let t = Profile::DarkTrue.theme();
    assert_eq!(t.token(Role::BorderStrong), rgb(0x828386));
    let t = Profile::LightTrue.theme();
    assert_eq!(t.token(Role::Primary), rgb(0x245bc7));
    assert_eq!(codewhale_ratatui::theme::TOKENS_VERSION, "1.1.1");
}
