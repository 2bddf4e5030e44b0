//! One theme: color roles from the Codewhale design tokens.
//!
//! Components name a [`Role`]; they never name a color. [`Theme`] resolves a
//! role for the terminal it is painting on, every time it paints, so a theme
//! or depth change reaches every component on the next frame.
//!
//! | Depth | Grounds | Ink | State hues |
//! |---|---|---|---|
//! | TrueColor | exact token RGB | exact RGB | exact RGB |
//! | Ansi256 | nearest fixed index | the 256-color table, audited for contrast | the 256-color table |
//! | Ansi16 | none (the terminal owns its ground) | `Reset`; `Muted` adds `DIM` | Blue, Green, Yellow, Red |
//! | Monochrome (`NO_COLOR`) | none | `Reset`; hierarchy by `BOLD`/`DIM` only | `Reset`: the mark and word carry state |
//!
//! Dark terminals take the blue ombre by default ([`Ground::Ocean`]): the
//! token grounds and quiet lines tinted toward the logo's deep blue at the
//! same luminance. It shows at truecolor only. When nothing measured the
//! terminal's ground ([`Appearance::Unknown`]), a truecolor terminal is
//! painted as at ANSI-16.

use vstd::prelude::*;

use crate::color::{depth_from_env, opt_view, rgb, rgb_spec, ColorDepth, Environment};
use crate::detect::Appearance;
use crate::roles::{
    all_roles, dark_256, dark_256_exec, dark_hex, dark_hex_exec, lemma_all_roles, light_256,
    light_256_exec, light_hex, light_hex_exec, ocean_hex, ocean_hex_exec,
};
use crate::seqs::{chars_of, lower_all, lower_all_exec, seq_eq, trim, trim_exec};
use crate::style::{Color, Style};

pub use crate::roles::{Role, TOKENS_VERSION};

verus! {

/// The logo's ombre, top-left to bottom-right (`#1E8FD8` to `#0B48BB`). The
/// whale wears it; [`Ground::Ocean`] grounds lean toward its deep end.
pub const LOGO_TOP: u32 = 0x1e8fd8;
pub const LOGO_BOTTOM: u32 = 0x0b48bb;

/// Which grounds a dark theme paints.
#[derive(Clone, Copy, Debug, PartialEq, Eq, Hash, Structural)]
pub enum Ground {
    /// Deep navy rising into the logo's blue: the preferred look.
    Ocean,
    /// The exact token grounds (graphite), as the desktop app paints them.
    Graphite,
}

impl Default for Ground {
    fn default() -> (g: Ground)
        ensures
            g == Ground::Ocean,
    {
        Ground::Ocean
    }
}

impl Role {
    pub open spec fn is_ground_spec(self) -> bool {
        match self {
            Role::Sidebar | Role::Background | Role::Surface | Role::Hover | Role::Selected => true,
            _ => false,
        }
    }

    /// The five grounds: sidebar, background, surface, hover, selected.
    #[verifier::when_used_as_spec(is_ground_spec)]
    pub fn is_ground(self) -> (b: bool)
        ensures
            b == self.is_ground_spec(),
    {
        match self {
            Role::Sidebar | Role::Background | Role::Surface | Role::Hover | Role::Selected => true,
            _ => false,
        }
    }

    pub open spec fn ocean_tinted_spec(self) -> bool {
        self.is_ground_spec() || self == Role::Border
    }

    /// Whether [`Ground::Ocean`] tints this role: grounds and quiet lines.
    /// Ink, state hues and control edges keep their token values.
    pub fn ocean_tinted(self) -> (b: bool)
        ensures
            b == self.ocean_tinted_spec(),
    {
        self.is_ground() || matches!(self, Role::Border)
    }

    /// The named color a 16-color terminal shows for this role, or `None`
    /// when the role takes the terminal's own foreground.
    pub open spec fn ansi16_spec(self) -> Option<Color> {
        match self {
            Role::Primary => Some(Color::Blue),
            Role::Live => Some(Color::Green),
            Role::Attention => Some(Color::Yellow),
            Role::Danger => Some(Color::Red),
            _ => None,
        }
    }

    fn ansi16(self) -> (c: Option<Color>)
        ensures
            c == self.ansi16_spec(),
    {
        match self {
            Role::Primary => Some(Color::Blue),
            Role::Live => Some(Color::Green),
            Role::Attention => Some(Color::Yellow),
            Role::Danger => Some(Color::Red),
            _ => None,
        }
    }

    /// Ink that recedes. Where color is unavailable it recedes with `DIM`.
    pub open spec fn recedes_spec(self) -> bool {
        self == Role::Muted || self == Role::Border
    }

    fn recedes(self) -> (b: bool)
        ensures
            b == self.recedes_spec(),
    {
        matches!(self, Role::Muted | Role::Border)
    }
}

/// What the terminal can show.
#[derive(Clone, Copy, Debug, PartialEq, Eq, Hash, Structural)]
pub struct Caps {
    pub depth: ColorDepth,
    /// `CODEWHALE_ASCII_SAFE`: draw marks from the ASCII fallbacks.
    pub ascii: bool,
    pub appearance: Appearance,
}

/// `CODEWHALE_ASCII_SAFE` is set, non-empty, and neither `0` nor `false`.
pub open spec fn ascii_safe_spec(value: Option<Seq<char>>) -> bool {
    value matches Some(v) && v.len() > 0 && v != "0"@ && v != "false"@
}

/// `CODEWHALE_APPEARANCE`, trimmed and lowered: `light` or `dark`.
pub open spec fn forced_appearance_spec(value: Option<Seq<char>>) -> Option<Appearance> {
    match value {
        Some(v) => {
            let word = lower_all(trim(v));
            if word == "light"@ {
                Some(Appearance::Light)
            } else if word == "dark"@ {
                Some(Appearance::Dark)
            } else {
                None
            }
        },
        None => None,
    }
}

/// Whether `CODEWHALE_ASCII_SAFE` asks for ASCII marks.
pub fn ascii_safe(value: &Option<String>) -> (b: bool)
    ensures
        b == ascii_safe_spec(opt_view(*value)),
{
    match value {
        Some(v) => {
            let chars = chars_of(v.as_str());
            chars.len() > 0 && !seq_eq(chars.as_slice(), chars_of("0").as_slice()) && !seq_eq(
                chars.as_slice(),
                chars_of("false").as_slice(),
            )
        },
        None => false,
    }
}

/// The appearance `CODEWHALE_APPEARANCE` forces, if any.
pub fn forced_appearance(value: &Option<String>) -> (a: Option<Appearance>)
    ensures
        a == forced_appearance_spec(opt_view(*value)),
{
    match value {
        Some(v) => {
            let word = lower_all_exec(&trim_exec(&chars_of(v.as_str())));
            if seq_eq(word.as_slice(), chars_of("light").as_slice()) {
                Some(Appearance::Light)
            } else if seq_eq(word.as_slice(), chars_of("dark").as_slice()) {
                Some(Appearance::Dark)
            } else {
                None
            }
        },
        None => None,
    }
}

impl Caps {
    /// Depth, ASCII-safety and appearance from the environment's values and
    /// a ground detector. `CODEWHALE_APPEARANCE` (`light` or `dark`)
    /// overrides detection: the person's word beats a measurement, and the
    /// detector is not called.
    pub fn detect_with<F: FnOnce() -> Appearance>(env: &Environment, detect_ground: F) -> (c: Caps)
        requires
            detect_ground.requires(()),
        ensures
            c.depth == depth_from_env(
                opt_view(env.no_color),
                opt_view(env.colorterm),
                env.wt_session is Some,
                opt_view(env.term_program),
                opt_view(env.term),
            ),
            c.ascii == ascii_safe_spec(opt_view(env.ascii_safe)),
            forced_appearance_spec(opt_view(env.appearance)) matches Some(a) ==> c.appearance == a,
            forced_appearance_spec(opt_view(env.appearance)) is None ==> detect_ground.ensures(
                (),
                c.appearance,
            ),
    {
        let ascii = ascii_safe(&env.ascii_safe);
        let appearance = match forced_appearance(&env.appearance) {
            Some(a) => a,
            None => detect_ground(),
        };
        Caps { depth: ColorDepth::detect_with(env), ascii, appearance }
    }

    pub open spec fn paints_tokens_spec(self) -> bool {
        (self.depth == ColorDepth::TrueColor || self.depth == ColorDepth::Ansi256) && self.appearance
            != Appearance::Unknown
    }

    /// Whether this terminal shows token colors at all: truecolor or 256
    /// colors on a ground whose appearance is known.
    pub fn paints_tokens(&self) -> (b: bool)
        ensures
            b == self.paints_tokens_spec(),
    {
        (matches!(self.depth, ColorDepth::TrueColor) || matches!(self.depth, ColorDepth::Ansi256))
            && !matches!(self.appearance, Appearance::Unknown)
    }
}

/// The Codewhale theme resolved for one terminal.
#[derive(Clone, Copy, Debug, PartialEq, Eq, Structural)]
pub struct Theme {
    caps: Caps,
    grounds: bool,
    ground: Ground,
}

impl Theme {
    pub closed spec fn caps_spec(self) -> Caps {
        self.caps
    }

    /// Whether the base `Background` ground may paint.
    pub closed spec fn base_ground_spec(self) -> bool {
        self.grounds
    }

    pub closed spec fn ground_spec(self) -> Ground {
        self.ground
    }

    pub fn new(caps: Caps) -> (t: Self)
        ensures
            t.caps_spec() == caps,
            t.base_ground_spec(),
            t.ground_spec() == Ground::Ocean,
    {
        Self { caps, grounds: true, ground: Ground::Ocean }
    }

    /// Choose the dark grounds: the blue ombre (default) or graphite. Light
    /// terminals always paint the light token grounds.
    pub fn ground(self, ground: Ground) -> (t: Self)
        ensures
            t.caps_spec() == self.caps_spec(),
            t.base_ground_spec() == self.base_ground_spec(),
            t.ground_spec() == ground,
    {
        Self { ground, ..self }
    }

    /// The dark grounds this theme was built with.
    pub fn ground_kind(&self) -> (g: Ground)
        ensures
            g == self.ground_spec(),
    {
        self.ground
    }

    /// Leave the terminal's own ground alone, even where token grounds would
    /// render. Raised panels and selection still paint.
    pub fn without_base_ground(self) -> (t: Self)
        ensures
            t.caps_spec() == self.caps_spec(),
            !t.base_ground_spec(),
            t.ground_spec() == self.ground_spec(),
    {
        Self { grounds: false, ..self }
    }

    pub fn caps(&self) -> (c: Caps)
        ensures
            c == self.caps_spec(),
    {
        self.caps
    }

    pub open spec fn ascii_spec(self) -> bool {
        self.caps_spec().ascii
    }

    pub fn ascii(&self) -> (b: bool)
        ensures
            b == self.ascii_spec(),
    {
        self.caps.ascii
    }

    pub open spec fn depth_spec(self) -> ColorDepth {
        self.caps_spec().depth
    }

    pub fn depth(&self) -> (d: ColorDepth)
        ensures
            d == self.depth_spec(),
    {
        self.caps.depth
    }

    /// Which token table this theme reads. Unknown reads the dark table,
    /// but no token color reaches the screen then.
    pub open spec fn light_spec(self) -> bool {
        self.caps_spec().appearance == Appearance::Light
    }

    fn light(&self) -> (b: bool)
        ensures
            b == self.light_spec(),
    {
        matches!(self.caps.appearance, Appearance::Light)
    }

    pub open spec fn token_hex_spec(self, role: Role) -> u32 {
        if self.light_spec() {
            light_hex(role)
        } else if self.ground_spec() == Ground::Ocean {
            ocean_hex(role)
        } else {
            dark_hex(role)
        }
    }

    /// The exact token color (`0xRRGGBB`), before depth adaptation.
    pub fn token_hex(&self, role: Role) -> (h: u32)
        ensures
            h == self.token_hex_spec(role),
    {
        if self.light() {
            light_hex_exec(role)
        } else if matches!(self.ground, Ground::Ocean) {
            ocean_hex_exec(role)
        } else {
            dark_hex_exec(role)
        }
    }

    /// The exact token color, before depth adaptation. Under
    /// [`Ground::Ocean`] on a dark ground, grounds and quiet lines are the
    /// tinted values.
    pub fn token(&self, role: Role) -> (c: Color)
        ensures
            c == rgb_spec(self.token_hex_spec(role)),
    {
        rgb(self.token_hex(role))
    }

    /// The color this terminal shows for `role`, or `None` when it shows the
    /// terminal's own color.
    pub open spec fn color_spec(self, role: Role) -> Option<Color> {
        if self.caps_spec().paints_tokens_spec() {
            Some(
                if self.depth_spec() == ColorDepth::TrueColor {
                    rgb_spec(self.token_hex_spec(role))
                } else if self.light_spec() {
                    Color::Indexed(light_256(role))
                } else {
                    Color::Indexed(dark_256(role))
                },
            )
        } else if self.depth_spec() == ColorDepth::Monochrome {
            None
        } else {
            role.ansi16_spec()
        }
    }

    /// The color this terminal shows for `role`, or `None` when it shows the
    /// terminal's own color.
    pub fn color(&self, role: Role) -> (c: Option<Color>)
        ensures
            c == self.color_spec(role),
    {
        if self.caps.paints_tokens() {
            return Some(
                match self.caps.depth {
                    ColorDepth::TrueColor => self.token(role),
                    _ => if self.light() {
                        Color::Indexed(light_256_exec(role))
                    } else {
                        Color::Indexed(dark_256_exec(role))
                    },
                },
            );
        }
        match self.caps.depth {
            ColorDepth::Monochrome => None,
            _ => role.ansi16(),
        }
    }

    pub open spec fn fg_spec(self, role: Role) -> Style {
        match self.color_spec(role) {
            Some(color) => Style { fg: Some(color), ..Style::plain() },
            None => if role.recedes_spec() {
                Style { dim: true, ..Style::plain() }
            } else {
                Style::plain()
            },
        }
    }

    /// Ink: `role` as a foreground. Receding ink without a color dims.
    pub fn fg(&self, role: Role) -> (s: Style)
        ensures
            s == self.fg_spec(role),
    {
        let style = Style::new();
        match self.color(role) {
            Some(color) => style.fg(color),
            None => if role.recedes() {
                style.dim()
            } else {
                style
            },
        }
    }

    pub open spec fn bg_spec(self, role: Role) -> Style {
        if !self.caps_spec().paints_tokens_spec() || (!self.base_ground_spec() && role
            == Role::Background) {
            Style::plain()
        } else {
            match self.color_spec(role) {
                Some(color) => Style { bg: Some(color), ..Style::plain() },
                None => Style::plain(),
            }
        }
    }

    /// Ground: `role` as a background, or nothing where grounds do not paint.
    /// The base `Background` also stays unpainted after
    /// [`Theme::without_base_ground`].
    pub fn bg(&self, role: Role) -> (s: Style)
        ensures
            s == self.bg_spec(role),
    {
        if !self.caps.paints_tokens() || (!self.grounds && matches!(role, Role::Background)) {
            return Style::new();
        }
        match self.color(role) {
            Some(color) => Style::new().bg(color),
            None => Style::new(),
        }
    }

    pub open spec fn paints_grounds_spec(self) -> bool {
        self.caps_spec().paints_tokens_spec()
    }

    /// Whether grounds paint at all. Where they do not, components must draw
    /// an edge or a mark instead of relying on a fill.
    pub fn paints_grounds(&self) -> (b: bool)
        ensures
            b == self.paints_grounds_spec(),
    {
        self.caps.paints_tokens()
    }

    /// Whether grounds `a` and `b` look different on this terminal. False
    /// where grounds do not paint, and where the two roles quantize to the
    /// same color, so a component relying on the difference must draw an
    /// edge instead.
    pub fn grounds_differ(&self, a: Role, b: Role) -> (d: bool)
        ensures
            d == (self.bg_spec(a) != self.bg_spec(b)),
    {
        self.bg(a) != self.bg(b)
    }

    /// Whether the base `Background` ground is painted by this theme (false
    /// without grounds and after [`Theme::without_base_ground`]).
    pub fn paints_base_ground(&self) -> (b: bool)
        ensures
            b == (self.bg_spec(Role::Background).bg is Some),
    {
        self.bg(Role::Background).bg.is_some()
    }

    /// The roles among `roles`, in order, that resolve to `color` and are
    /// grounds exactly when `ground` is set.
    pub open spec fn roles_showing(self, roles: Seq<Role>, color: Color, ground: bool) -> Seq<Role>
        decreases roles.len(),
    {
        if roles.len() == 0 {
            Seq::empty()
        } else {
            let r = roles.last();
            let before = self.roles_showing(roles.drop_last(), color, ground);
            if self.color_spec(r) == Some(color) && r.is_ground_spec() == ground {
                before.push(r)
            } else {
                before
            }
        }
    }

    /// Every role that resolves to `color`, grounds first for backgrounds
    /// and ink first for foregrounds.
    pub open spec fn roles_of_spec(self, color: Color, as_ground: bool) -> Seq<Role> {
        let preferred = self.roles_showing(all_roles(), color, as_ground);
        if preferred.len() > 0 {
            preferred
        } else {
            self.roles_showing(all_roles(), color, !as_ground)
        }
    }

    /// Every role that resolves to `color` here, grounds first for
    /// backgrounds and ink first for foregrounds. More than one means those
    /// roles look the same at this depth.
    pub fn roles_of(&self, color: Color, as_ground: bool) -> (v: Vec<Role>)
        ensures
            v@ == self.roles_of_spec(color, as_ground),
    {
        proof {
            lemma_all_roles();
        }
        let all = Role::ALL;
        let mut preferred: Vec<Role> = Vec::new();
        let mut rest: Vec<Role> = Vec::new();
        let mut i: usize = 0;
        while i < Role::COUNT
            invariant
                i <= Role::COUNT,
                all@ == all_roles(),
                preferred@ == self.roles_showing(all_roles().take(i as int), color, as_ground),
                rest@ == self.roles_showing(all_roles().take(i as int), color, !as_ground),
            decreases Role::COUNT - i,
        {
            let r = all[i];
            assert(all_roles().take(i + 1).drop_last() == all_roles().take(i as int));
            assert(all_roles().take(i + 1).last() == r);
            let shown = match self.color(r) {
                Some(c) => c == color,
                None => false,
            };
            if shown {
                if r.is_ground() == as_ground {
                    preferred.push(r);
                } else {
                    rest.push(r);
                }
            }
            i = i + 1;
        }
        assert(all_roles().take(Role::COUNT as int) == all_roles());
        if preferred.len() > 0 {
            preferred
        } else {
            rest
        }
    }

    /// Reverse lookup for snapshots: the first of [`Theme::roles_of`].
    pub fn role_of(&self, color: Color, as_ground: bool) -> (r: Option<Role>)
        ensures
            r == (if self.roles_of_spec(color, as_ground).len() > 0 {
                Some(self.roles_of_spec(color, as_ground)[0])
            } else {
                None
            }),
    {
        let roles = self.roles_of(color, as_ground);
        if roles.len() > 0 {
            Some(roles[0])
        } else {
            None
        }
    }
}


/// Two themes over the same terminal that differ only in their dark ground.
pub open spec fn same_terminal(a: Theme, b: Theme) -> bool {
    a.caps_spec() == b.caps_spec() && a.base_ground_spec() == b.base_ground_spec()
}

/// The ombre shows only at truecolor on a dark ground: at every other depth,
/// and on a light ground, Ocean and Graphite resolve every role alike; and
/// it tints only grounds and the quiet line, keeping every ink's token.
pub proof fn law_ocean_tints_dark_truecolor_grounds_only(a: Theme, b: Theme, role: Role)
    requires
        same_terminal(a, b),
    ensures
        (a.depth_spec() != ColorDepth::TrueColor || a.light_spec()) ==> a.color_spec(role)
            == b.color_spec(role),
        !role.ocean_tinted_spec() ==> ocean_hex(role) == dark_hex(role),
{
}

/// A terminal that cannot paint token colors (16 colors, `NO_COLOR`, or an
/// unmeasured ground) gets no ground at all and no 24-bit or indexed ink.
pub proof fn law_no_token_colors_without_a_known_ground(t: Theme, role: Role)
    requires
        !t.caps_spec().paints_tokens_spec(),
    ensures
        t.bg_spec(role) == Style::plain(),
        t.color_spec(role) is None || t.color_spec(role) == role.ansi16_spec(),
        !(t.color_spec(role) matches Some(Color::Rgb(_, _, _))),
        !(t.color_spec(role) matches Some(Color::Indexed(_))),
{
}

/// Under `NO_COLOR` only modifiers carry hierarchy: no role has a
/// foreground or background color, and receding ink dims.
pub proof fn law_no_color_uses_only_modifiers(t: Theme, role: Role)
    requires
        t.depth_spec() == ColorDepth::Monochrome,
    ensures
        t.fg_spec(role).fg is None,
        t.bg_spec(role).bg is None,
        role.recedes_spec() ==> t.fg_spec(role).dim,
{
}

/// At 256 colors every color shown is a fixed index (16..=255), never a
/// 24-bit value or one of the profile's sixteen.
pub proof fn law_ansi256_shows_fixed_indices(t: Theme, role: Role)
    requires
        t.depth_spec() == ColorDepth::Ansi256,
        t.caps_spec().paints_tokens_spec(),
    ensures
        t.color_spec(role) matches Some(Color::Indexed(i)) && i >= 16,
{
}

/// The four state hues stay distinct at 16 colors.
pub proof fn law_ansi16_state_hues_are_distinct()
    ensures
        forall|a: Role, b: Role|
            a != b && (#[trigger] a.ansi16_spec()) is Some && (#[trigger] b.ansi16_spec()) is Some
                ==> a.ansi16_spec() != b.ansi16_spec(),
{
}

/// A light 16-color terminal and a 256-color terminal whose ground nobody
/// measured look exactly like a dark 16-color terminal: same ink, and no
/// grounds.
pub proof fn law_unmeasured_and_light16_match_dark16(t: Theme, dark16: Theme, role: Role)
    requires
        dark16.caps_spec().depth == ColorDepth::Ansi16,
        dark16.caps_spec().appearance == Appearance::Dark,
        (t.caps_spec().depth == ColorDepth::Ansi16 && t.caps_spec().appearance == Appearance::Light)
            || (t.caps_spec().depth == ColorDepth::Ansi256 && t.caps_spec().appearance
            == Appearance::Unknown),
    ensures
        t.fg_spec(role) == dark16.fg_spec(role),
        t.bg_spec(role) == Style::plain(),
{
}

} // verus!
