//! The color roles and their token tables (design tokens 1.1.1).
//!
//! Names follow `tokens.json`, so one vocabulary covers the desktop app,
//! the web and the terminal. The 256-color tables start from the nearest
//! fixed index and move an ink only where quantizing broke a contrast floor
//! or turned a state hue gray:
//! - dark danger: 174 -> 210 (nearest failed its contrast floor)
//! - light primary: 26 -> 25 (nearest failed its contrast floor)
//! - light live: 239 -> 23 (nearest lost its hue)
//! - light attention: 94 -> 58 (nearest failed its contrast floor)
//! - light danger: 131 -> 124 (nearest failed its contrast floor)
//! - light border_strong: 244 -> 243 (nearest failed its contrast floor)

use vstd::prelude::*;

verus! {

/// The design tokens version these roles follow.
pub const TOKENS_VERSION: &'static str = "1.1.1";

/// What a color is for. Components name roles; they never name colors.
#[derive(Clone, Copy, Debug, PartialEq, Eq, Hash, PartialOrd, Ord, Structural)]
pub enum Role {
    /// The deepest ground: rails and things put away.
    Sidebar,
    /// The stage.
    Background,
    /// A raised panel.
    Surface,
    /// A row under the pointer.
    Hover,
    /// The selected row.
    Selected,
    /// Body ink.
    Foreground,
    /// Ink that recedes: details, verbs in hints, asides.
    Muted,
    /// Quiet lines that separate.
    Border,
    /// Edges that identify a control or a decision.
    BorderStrong,
    /// Actions, focus and links.
    Primary,
    /// Ink on a `Primary` ground.
    PrimaryForeground,
    /// Work happening now, and work done.
    Live,
    /// Needs you.
    Attention,
    /// Failed or destructive.
    Danger,
}

impl Role {
    pub const COUNT: usize = 14;

    pub const ALL: [Role; 14] = [
        Role::Sidebar,
        Role::Background,
        Role::Surface,
        Role::Hover,
        Role::Selected,
        Role::Foreground,
        Role::Muted,
        Role::Border,
        Role::BorderStrong,
        Role::Primary,
        Role::PrimaryForeground,
        Role::Live,
        Role::Attention,
        Role::Danger,
    ];

    /// Position in [`Role::ALL`] and in the color tables.
    pub open spec fn index_spec(self) -> usize {
        match self {
            Role::Sidebar => 0,
            Role::Background => 1,
            Role::Surface => 2,
            Role::Hover => 3,
            Role::Selected => 4,
            Role::Foreground => 5,
            Role::Muted => 6,
            Role::Border => 7,
            Role::BorderStrong => 8,
            Role::Primary => 9,
            Role::PrimaryForeground => 10,
            Role::Live => 11,
            Role::Attention => 12,
            Role::Danger => 13,
        }
    }

    /// Position in [`Role::ALL`] and in the color tables.
    #[verifier::when_used_as_spec(index_spec)]
    pub fn index(self) -> (i: usize)
        ensures
            i == self.index_spec(),
            i < Role::COUNT,
    {
        match self {
            Role::Sidebar => 0,
            Role::Background => 1,
            Role::Surface => 2,
            Role::Hover => 3,
            Role::Selected => 4,
            Role::Foreground => 5,
            Role::Muted => 6,
            Role::Border => 7,
            Role::BorderStrong => 8,
            Role::Primary => 9,
            Role::PrimaryForeground => 10,
            Role::Live => 11,
            Role::Attention => 12,
            Role::Danger => 13,
        }
    }

    /// The `tokens.json` key this role reads.
    pub open spec fn token_name_spec(self) -> Seq<char> {
        match self {
            Role::Sidebar => "sidebar"@,
            Role::Background => "background"@,
            Role::Surface => "surface"@,
            Role::Hover => "hover"@,
            Role::Selected => "selected"@,
            Role::Foreground => "foreground"@,
            Role::Muted => "muted_foreground"@,
            Role::Border => "border"@,
            Role::BorderStrong => "border_strong"@,
            Role::Primary => "primary"@,
            Role::PrimaryForeground => "primary_foreground"@,
            Role::Live => "live"@,
            Role::Attention => "attention"@,
            Role::Danger => "danger"@,
        }
    }

    /// The `tokens.json` key this role reads.
    pub fn token_name(self) -> (s: &'static str)
        ensures
            s@ == self.token_name_spec(),
    {
        match self {
            Role::Sidebar => "sidebar",
            Role::Background => "background",
            Role::Surface => "surface",
            Role::Hover => "hover",
            Role::Selected => "selected",
            Role::Foreground => "foreground",
            Role::Muted => "muted_foreground",
            Role::Border => "border",
            Role::BorderStrong => "border_strong",
            Role::Primary => "primary",
            Role::PrimaryForeground => "primary_foreground",
            Role::Live => "live",
            Role::Attention => "attention",
            Role::Danger => "danger",
        }
    }
}

/// The roles in [`Role::ALL`] order.
pub open spec fn all_roles() -> Seq<Role> {
    seq![
        Role::Sidebar,
        Role::Background,
        Role::Surface,
        Role::Hover,
        Role::Selected,
        Role::Foreground,
        Role::Muted,
        Role::Border,
        Role::BorderStrong,
        Role::Primary,
        Role::PrimaryForeground,
        Role::Live,
        Role::Attention,
        Role::Danger,
    ]
}

pub proof fn lemma_all_roles()
    ensures
        all_roles().len() == Role::COUNT,
        Role::ALL@ == all_roles(),
        forall|i: int| 0 <= i < Role::COUNT ==> (#[trigger] all_roles()[i]).index_spec() == i,
        forall|r: Role| (#[trigger] r.index_spec()) < Role::COUNT,
        forall|r: Role| all_roles()[r.index_spec() as int] == r,
{
    assert(Role::ALL@ =~= all_roles());
}

/// Dark token colors, `0xRRGGBB`.
pub open spec fn dark_hex(role: Role) -> u32 {
    match role {
        Role::Sidebar => 0x191a1c,
        Role::Background => 0x202123,
        Role::Surface => 0x2a2b2e,
        Role::Hover => 0x303134,
        Role::Selected => 0x37393d,
        Role::Foreground => 0xefeeeb,
        Role::Muted => 0xb1b1ad,
        Role::Border => 0x3b3c3f,
        Role::BorderStrong => 0x828386,
        Role::Primary => 0x90b9ff,
        Role::PrimaryForeground => 0x15243e,
        Role::Live => 0x9ec7b2,
        Role::Attention => 0xe8b077,
        Role::Danger => 0xe39a90,
    }
}

/// Dark token colors, `0xRRGGBB`.
pub fn dark_hex_exec(role: Role) -> (v: u32)
    ensures
        v == dark_hex(role),
{
    match role {
        Role::Sidebar => 0x191a1c,
        Role::Background => 0x202123,
        Role::Surface => 0x2a2b2e,
        Role::Hover => 0x303134,
        Role::Selected => 0x37393d,
        Role::Foreground => 0xefeeeb,
        Role::Muted => 0xb1b1ad,
        Role::Border => 0x3b3c3f,
        Role::BorderStrong => 0x828386,
        Role::Primary => 0x90b9ff,
        Role::PrimaryForeground => 0x15243e,
        Role::Live => 0x9ec7b2,
        Role::Attention => 0xe8b077,
        Role::Danger => 0xe39a90,
    }
}

/// Dark xterm 256-color indices (16..=255 only).
pub open spec fn dark_256(role: Role) -> u8 {
    match role {
        Role::Sidebar => 234,
        Role::Background => 235,
        Role::Surface => 236,
        Role::Hover => 236,
        Role::Selected => 237,
        Role::Foreground => 255,
        Role::Muted => 145,
        Role::Border => 237,
        Role::BorderStrong => 102,
        Role::Primary => 111,
        Role::PrimaryForeground => 235,
        Role::Live => 151,
        Role::Attention => 180,
        Role::Danger => 210,
    }
}

/// Dark xterm 256-color indices (16..=255 only).
pub fn dark_256_exec(role: Role) -> (v: u8)
    ensures
        v == dark_256(role),
{
    match role {
        Role::Sidebar => 234,
        Role::Background => 235,
        Role::Surface => 236,
        Role::Hover => 236,
        Role::Selected => 237,
        Role::Foreground => 255,
        Role::Muted => 145,
        Role::Border => 237,
        Role::BorderStrong => 102,
        Role::Primary => 111,
        Role::PrimaryForeground => 235,
        Role::Live => 151,
        Role::Attention => 180,
        Role::Danger => 210,
    }
}

/// Light token colors, `0xRRGGBB`.
pub open spec fn light_hex(role: Role) -> u32 {
    match role {
        Role::Sidebar => 0xf0ede8,
        Role::Background => 0xfaf8f5,
        Role::Surface => 0xffffff,
        Role::Hover => 0xe8e5e0,
        Role::Selected => 0xdfdcd6,
        Role::Foreground => 0x28292b,
        Role::Muted => 0x5f605d,
        Role::Border => 0xd9d5cf,
        Role::BorderStrong => 0x807c76,
        Role::Primary => 0x245bc7,
        Role::PrimaryForeground => 0xfbf5ee,
        Role::Live => 0x3a6352,
        Role::Attention => 0x86520d,
        Role::Danger => 0x9e3f36,
    }
}

/// Light token colors, `0xRRGGBB`.
pub fn light_hex_exec(role: Role) -> (v: u32)
    ensures
        v == light_hex(role),
{
    match role {
        Role::Sidebar => 0xf0ede8,
        Role::Background => 0xfaf8f5,
        Role::Surface => 0xffffff,
        Role::Hover => 0xe8e5e0,
        Role::Selected => 0xdfdcd6,
        Role::Foreground => 0x28292b,
        Role::Muted => 0x5f605d,
        Role::Border => 0xd9d5cf,
        Role::BorderStrong => 0x807c76,
        Role::Primary => 0x245bc7,
        Role::PrimaryForeground => 0xfbf5ee,
        Role::Live => 0x3a6352,
        Role::Attention => 0x86520d,
        Role::Danger => 0x9e3f36,
    }
}

/// Light xterm 256-color indices (16..=255 only).
pub open spec fn light_256(role: Role) -> u8 {
    match role {
        Role::Sidebar => 255,
        Role::Background => 231,
        Role::Surface => 231,
        Role::Hover => 254,
        Role::Selected => 253,
        Role::Foreground => 235,
        Role::Muted => 59,
        Role::Border => 188,
        Role::BorderStrong => 243,
        Role::Primary => 25,
        Role::PrimaryForeground => 255,
        Role::Live => 23,
        Role::Attention => 58,
        Role::Danger => 124,
    }
}

/// Light xterm 256-color indices (16..=255 only).
pub fn light_256_exec(role: Role) -> (v: u8)
    ensures
        v == light_256(role),
{
    match role {
        Role::Sidebar => 255,
        Role::Background => 231,
        Role::Surface => 231,
        Role::Hover => 254,
        Role::Selected => 253,
        Role::Foreground => 235,
        Role::Muted => 59,
        Role::Border => 188,
        Role::BorderStrong => 243,
        Role::Primary => 25,
        Role::PrimaryForeground => 255,
        Role::Live => 23,
        Role::Attention => 58,
        Role::Danger => 124,
    }
}

/// The blue ombre: the dark table with its grounds and quiet line tinted
/// toward the logo's deep blue at their own luminance. Truecolor only.
pub open spec fn ocean_hex(role: Role) -> u32 {
    match role {
        Role::Sidebar => 0x06183c,
        Role::Background => 0x0a1f47,
        Role::Surface => 0x122957,
        Role::Hover => 0x162f60,
        Role::Selected => 0x1b376b,
        Role::Foreground => 0xefeeeb,
        Role::Muted => 0xb1b1ad,
        Role::Border => 0x1e3a70,
        Role::BorderStrong => 0x828386,
        Role::Primary => 0x90b9ff,
        Role::PrimaryForeground => 0x15243e,
        Role::Live => 0x9ec7b2,
        Role::Attention => 0xe8b077,
        Role::Danger => 0xe39a90,
    }
}

/// The blue ombre: the dark table with its grounds and quiet line tinted
/// toward the logo's deep blue at their own luminance. Truecolor only.
pub fn ocean_hex_exec(role: Role) -> (v: u32)
    ensures
        v == ocean_hex(role),
{
    match role {
        Role::Sidebar => 0x06183c,
        Role::Background => 0x0a1f47,
        Role::Surface => 0x122957,
        Role::Hover => 0x162f60,
        Role::Selected => 0x1b376b,
        Role::Foreground => 0xefeeeb,
        Role::Muted => 0xb1b1ad,
        Role::Border => 0x1e3a70,
        Role::BorderStrong => 0x828386,
        Role::Primary => 0x90b9ff,
        Role::PrimaryForeground => 0x15243e,
        Role::Live => 0x9ec7b2,
        Role::Attention => 0xe8b077,
        Role::Danger => 0xe39a90,
    }
}

} // verus!
