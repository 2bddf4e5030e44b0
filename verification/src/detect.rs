//! Light and dark detection.
//!
//! Detection returns evidence, not just an answer: [`TerminalBackground`]
//! carries the color that was measured and [`BackgroundSource`] records
//! where it came from. Only a measurement (OSC 11) or the terminal's own hint
//! (`COLORFGBG`) yields a known [`Appearance`]; the macOS system setting
//! describes the OS, not the terminal, so it is kept as a hint and never
//! trusted for painting.
//!
//! Classifying a measured color as light or dark goes by WCAG relative
//! luminance, which is floating point; the host measures it and hands the
//! resulting appearance to the functions here.

use vstd::prelude::*;

use crate::seqs::{chars_of, eq_ignore_ascii_case, eq_ignore_ascii_case_exec, trim, trim_exec};
use crate::style::Color;

verus! {

/// Whether the terminal's ground is light or dark, as far as we know.
#[derive(Debug, Clone, Copy, PartialEq, Eq, Hash, Structural)]
pub enum Appearance {
    Dark,
    Light,
    /// Nothing measured the ground. Components paint no grounds and use the
    /// terminal's own named colors, which were chosen for its own ground.
    Unknown,
}

/// How the terminal background was learned, strongest first.
#[derive(Debug, Clone, Copy, PartialEq, Eq, Structural)]
pub enum BackgroundSource {
    /// The terminal answered an OSC 11 query with its background color.
    Osc11,
    /// `COLORFGBG` was set. Carries a palette index, not an RGB value.
    ColorFgBg,
    /// macOS `AppleInterfaceStyle`. Describes the system, not the terminal: a
    /// dark-mode Mac can run a light terminal profile.
    MacOsAppearance,
    /// No evidence at all.
    Unknown,
}

/// What we know about the surface we are drawing onto.
#[derive(Debug, Clone, Copy, PartialEq, Eq, Structural)]
pub struct TerminalBackground {
    polarity: Appearance,
    color: Option<Color>,
    source: BackgroundSource,
}

impl TerminalBackground {
    pub closed spec fn polarity_spec(&self) -> Appearance {
        self.polarity
    }

    pub closed spec fn color_spec(&self) -> Option<Color> {
        self.color
    }

    pub closed spec fn source_spec(&self) -> BackgroundSource {
        self.source
    }

    pub fn new(polarity: Appearance, color: Option<Color>, source: BackgroundSource) -> (b: Self)
        ensures
            b.polarity_spec() == polarity,
            b.color_spec() == color,
            b.source_spec() == source,
    {
        Self { polarity, color, source }
    }

    /// No evidence.
    pub fn unknown() -> (b: Self)
        ensures
            b.polarity_spec() == Appearance::Unknown,
            b.color_spec() is None,
            b.source_spec() == BackgroundSource::Unknown,
    {
        Self::new(Appearance::Unknown, None, BackgroundSource::Unknown)
    }

    pub open spec fn appearance_spec(&self) -> Appearance {
        match self.source_spec() {
            BackgroundSource::Osc11 | BackgroundSource::ColorFgBg => self.polarity_spec(),
            BackgroundSource::MacOsAppearance | BackgroundSource::Unknown => Appearance::Unknown,
        }
    }

    /// The appearance components may paint for. `Unknown` unless the
    /// terminal itself told us (OSC 11 or `COLORFGBG`).
    pub fn appearance(&self) -> (a: Appearance)
        ensures
            a == self.appearance_spec(),
    {
        match self.source {
            BackgroundSource::Osc11 | BackgroundSource::ColorFgBg => self.polarity,
            BackgroundSource::MacOsAppearance | BackgroundSource::Unknown => Appearance::Unknown,
        }
    }

    /// Best guess including the macOS system setting. Use it to pick a
    /// default theme, never to decide contrast.
    pub fn hint(&self) -> (a: Appearance)
        ensures
            a == self.polarity_spec(),
    {
        self.polarity
    }

    /// The measured background, when a source supplied one.
    pub fn color(&self) -> (c: Option<Color>)
        ensures
            c == self.color_spec(),
    {
        self.color
    }

    pub fn source(&self) -> (s: BackgroundSource)
        ensures
            s == self.source_spec(),
    {
        self.source
    }
}

pub open spec fn is_digit(c: char) -> bool {
    '0' <= c <= '9'
}

/// The value of a run of decimal digits.
pub open spec fn decimal_value(digits: Seq<char>) -> int
    decreases digits.len(),
{
    if digits.len() == 0 {
        0
    } else {
        decimal_value(digits.drop_last()) * 10 + (digits.last() as u32 - '0' as u32)
    }
}

/// The digits of a number field after an optional leading `+`.
pub open spec fn unsigned_digits(field: Seq<char>) -> Seq<char> {
    if field.len() > 0 && field[0] == '+' { field.drop_first() } else { field }
}

pub open spec fn all_digits(s: Seq<char>) -> bool {
    forall|i: int| 0 <= i < s.len() ==> is_digit(#[trigger] s[i])
}

/// `u16::from_str`: an optional `+`, then one or more decimal digits whose
/// value fits in 16 bits.
pub open spec fn parse_u16(field: Seq<char>) -> Option<u16> {
    let digits = unsigned_digits(field);
    if digits.len() > 0 && all_digits(digits) && decimal_value(digits) <= u16::MAX {
        Some(decimal_value(digits) as u16)
    } else {
        None
    }
}

proof fn lemma_decimal_grows(digits: Seq<char>)
    requires
        digits.len() > 0,
        is_digit(digits.last()),
        decimal_value(digits.drop_last()) >= 0,
    ensures
        decimal_value(digits) >= decimal_value(digits.drop_last()),
{
}

proof fn lemma_decimal_nonneg(digits: Seq<char>)
    requires
        forall|i: int| 0 <= i < digits.len() ==> is_digit(#[trigger] digits[i]),
    ensures
        decimal_value(digits) >= 0,
    decreases digits.len(),
{
    if digits.len() > 0 {
        lemma_decimal_nonneg(digits.drop_last());
    }
}

/// Parse `chars[start..end]` as `u16::from_str` does.
fn parse_u16_exec(chars: &Vec<char>, start: usize, end: usize) -> (r: Option<u16>)
    requires
        start <= end <= chars.len(),
    ensures
        r == parse_u16(chars@.subrange(start as int, end as int)),
{
    let ghost field = chars@.subrange(start as int, end as int);
    let mut i = start;
    if i < end && chars[i] == '+' {
        i = i + 1;
    }
    let ghost digits = chars@.subrange(i as int, end as int);
    assert(digits == unsigned_digits(field));
    if i == end {
        return None;
    }
    let mut value: u32 = 0;
    let mut over = false;
    let mut j = i;
    while j < end
        invariant
            i <= j <= end <= chars.len(),
            digits == chars@.subrange(i as int, end as int),
            field == chars@.subrange(start as int, end as int),
            digits == unsigned_digits(field),
            forall|k: int| i <= k < j ==> is_digit(#[trigger] chars@[k]),
            !over ==> value == decimal_value(chars@.subrange(i as int, j as int)),
            over ==> decimal_value(chars@.subrange(i as int, j as int)) > u16::MAX,
            value <= u16::MAX,
        decreases end - j,
    {
        let c = chars[j];
        assert(digits[j - i] == c);
        if !('0' <= c && c <= '9') {
            assert(!is_digit(digits[j - i]));
            assert(!all_digits(digits));
            assert(field == chars@.subrange(start as int, end as int));
            return None;
        }
        let ghost pre = chars@.subrange(i as int, j as int);
        assert(chars@.subrange(i as int, j + 1).drop_last() == pre);
        proof {
            assert forall|k: int| 0 <= k < pre.len() implies is_digit(#[trigger] pre[k]) by {
                assert(pre[k] == chars@[i + k]);
            }
            lemma_decimal_nonneg(pre);
            lemma_decimal_grows(chars@.subrange(i as int, j + 1));
        }
        if !over {
            let d = (c as u32) - ('0' as u32);
            let next = value * 10 + d;
            if next > 65535 {
                over = true;
            } else {
                value = next;
            }
        }
        j = j + 1;
    }
    assert(chars@.subrange(i as int, j as int) == digits);
    if over {
        None
    } else {
        Some(value as u16)
    }
}

/// The position of the last `;` in `s`, or -1.
pub open spec fn last_semicolon(s: Seq<char>) -> int
    decreases s.len(),
{
    if s.len() == 0 {
        -1
    } else if s.last() == ';' {
        s.len() - 1
    } else {
        last_semicolon(s.drop_last())
    }
}

/// The background segment of `COLORFGBG`: the last `;`-separated field
/// that parses as a number.
pub open spec fn colorfgbg_index_spec(s: Seq<char>) -> Option<u16>
    decreases s.len(),
{
    let semi = last_semicolon(s);
    proof {
        lemma_last_semicolon(s);
    }
    let field = s.subrange(semi + 1, s.len() as int);
    if parse_u16(field) is Some {
        parse_u16(field)
    } else if semi < 0 {
        None
    } else {
        colorfgbg_index_spec(s.take(semi))
    }
}

pub proof fn lemma_last_semicolon(s: Seq<char>)
    ensures
        -1 <= last_semicolon(s) < s.len(),
        last_semicolon(s) >= 0 ==> s[last_semicolon(s)] == ';',
        forall|k: int| last_semicolon(s) < k < s.len() ==> s[k] != ';',
    decreases s.len(),
{
    if s.len() > 0 {
        lemma_last_semicolon(s.drop_last());
        assert forall|k: int| last_semicolon(s) < k < s.len() implies s[k] != ';' by {
            if k < s.len() - 1 {
                assert(s[k] == s.drop_last()[k]);
            }
        }
    }
}

/// The background segment of `COLORFGBG`: the last numeric field.
pub fn colorfgbg_index(value: &str) -> (r: Option<u16>)
    ensures
        r == colorfgbg_index_spec(value@),
{
    let chars = chars_of(value);
    let mut end = chars.len();
    assert(chars@.take(end as int) == value@);
    loop
        invariant
            end <= chars.len(),
            colorfgbg_index_spec(chars@.take(end as int)) == colorfgbg_index_spec(value@),
            chars@ == value@,
        decreases end,
    {
        let ghost s = chars@.take(end as int);
        let mut semi = end;
        while semi > 0 && chars[semi - 1] != ';'
            invariant
                semi <= end <= chars.len(),
                forall|k: int| semi <= k < end ==> chars@[k] != ';',
            decreases semi,
        {
            semi = semi - 1;
        }
        proof {
            lemma_last_semicolon(s);
            if semi > 0 {
                assert(s[semi - 1] == ';');
            }
            assert(last_semicolon(s) == semi - 1);
            assert(s.subrange(semi as int, end as int) == chars@.subrange(semi as int, end as int));
        }
        let parsed = parse_u16_exec(&chars, semi, end);
        if parsed.is_some() {
            return parsed;
        }
        if semi == 0 {
            return None;
        }
        proof {
            assert(s.take(semi - 1) == chars@.take(semi - 1));
        }
        end = semi - 1;
    }
}

/// Parse `COLORFGBG`'s background index. Indices 0-15 are remapped by the
/// terminal profile, so they yield a polarity without a color (>= 8 means a
/// light profile); indices 16..=255 are fixed by xterm and resolve exactly,
/// with `fixed_appearance` the appearance the host measured for that fixed
/// color.
pub fn colorfgbg_background(index: u16, fixed_appearance: Appearance) -> (r: (Appearance, Option<Color>))
    ensures
        16 <= index <= 255 ==> r == (fixed_appearance, Some(Color::Indexed(index as u8))),
        !(16 <= index <= 255) ==> r == (if index >= 8 { Appearance::Light } else { Appearance::Dark }, None::<Color>),
{
    if 16 <= index && index <= 255 {
        (fixed_appearance, Some(Color::Indexed(index as u8)))
    } else {
        (if index >= 8 { Appearance::Light } else { Appearance::Dark }, None)
    }
}

/// What [`resolve_terminal_background`] decides: a measured color beats a
/// palette index, which beats an OS setting, which beats nothing.
pub open spec fn resolve_spec(
    osc11: Option<((u8, u8, u8), Appearance)>,
    colorfgbg: Option<(Appearance, Option<Color>)>,
    macos_fallback: Option<Appearance>,
) -> (Appearance, Option<Color>, BackgroundSource) {
    match osc11 {
        Some(((r, g, b), a)) => (a, Some(Color::Rgb(r, g, b)), BackgroundSource::Osc11),
        None => match colorfgbg {
            Some((a, c)) => (a, c, BackgroundSource::ColorFgBg),
            None => match macos_fallback {
                Some(a) => (a, None, BackgroundSource::MacOsAppearance),
                None => (Appearance::Unknown, None, BackgroundSource::Unknown),
            },
        },
    }
}

/// Combine the available evidence: the OSC 11 answer with the appearance
/// its luminance gives, the parsed `COLORFGBG`, and the macOS setting.
pub fn resolve_terminal_background(
    osc11: Option<((u8, u8, u8), Appearance)>,
    colorfgbg: Option<(Appearance, Option<Color>)>,
    macos_fallback: Option<Appearance>,
) -> (b: TerminalBackground)
    ensures
        (b.polarity_spec(), b.color_spec(), b.source_spec()) == resolve_spec(osc11, colorfgbg, macos_fallback),
{
    if let Some(((r, g, bl), appearance)) = osc11 {
        return TerminalBackground::new(appearance, Some(Color::Rgb(r, g, bl)), BackgroundSource::Osc11);
    }
    if let Some((appearance, color)) = colorfgbg {
        return TerminalBackground::new(appearance, color, BackgroundSource::ColorFgBg);
    }
    if let Some(appearance) = macos_fallback {
        return TerminalBackground::new(appearance, None, BackgroundSource::MacOsAppearance);
    }
    TerminalBackground::unknown()
}

/// A measurement beats every hint: with an OSC 11 answer, the background
/// is what was measured, whatever `COLORFGBG` and the OS say.
pub proof fn law_measurement_beats_every_hint(
    b: TerminalBackground,
    rgb: (u8, u8, u8),
    measured: Appearance,
    colorfgbg: Option<(Appearance, Option<Color>)>,
    macos: Option<Appearance>,
)
    requires
        (b.polarity_spec(), b.color_spec(), b.source_spec()) == resolve_spec(Some((rgb, measured)), colorfgbg, macos),
    ensures
        b.appearance_spec() == measured,
        b.color_spec() == Some(Color::Rgb(rgb.0, rgb.1, rgb.2)),
        b.source_spec() == BackgroundSource::Osc11,
{
}

/// The macOS setting describes the OS, not the terminal: alone, it is a
/// hint and never an appearance to paint for.
pub proof fn law_os_setting_is_only_a_hint(b: TerminalBackground, os: Appearance)
    requires
        (b.polarity_spec(), b.color_spec(), b.source_spec()) == resolve_spec(None, None, Some(os)),
    ensures
        b.appearance_spec() == Appearance::Unknown,
        b.polarity_spec() == os,
        b.color_spec() is None,
{
}

/// macOS `defaults read -g AppleInterfaceStyle` says `Dark` only in dark
/// mode; anything else is light.
pub fn appearance_from_apple_interface_style(value: &str) -> (a: Appearance)
    ensures
        a == (if eq_ignore_ascii_case(trim(value@), "dark"@) { Appearance::Dark } else { Appearance::Light }),
{
    let chars = chars_of(value);
    let trimmed = trim_exec(&chars);
    let dark = chars_of("dark");
    if eq_ignore_ascii_case_exec(&trimmed, &dark) {
        Appearance::Dark
    } else {
        Appearance::Light
    }
}

} // verus!
