//! The terminals components are checked against, for snapshots, the
//! gallery and host tests.

use vstd::prelude::*;

use crate::color::ColorDepth;
use crate::detect::Appearance;
use crate::seqs::{chars_of, seq_eq};
use crate::theme::{Caps, Ground, Theme};

verus! {

/// A terminal to render for.
#[derive(Clone, Copy, Debug, PartialEq, Eq, Hash, Structural)]
pub enum Profile {
    /// Truecolor on a dark ground, in the blue ombre (the default).
    DarkTrue,
    /// Truecolor on a dark ground, with the graphite token grounds.
    DarkGraphite,
    LightTrue,
    Dark256,
    Light256,
    /// 16 colors on a measured dark ground.
    Ansi16,
    /// Truecolor, but nothing measured the ground.
    UnknownGround,
    /// `NO_COLOR`.
    NoColor,
    /// `NO_COLOR` plus `CODEWHALE_ASCII_SAFE`.
    Ascii,
}

/// Every profile, in order.
pub open spec fn all_profiles() -> Seq<Profile> {
    seq![
        Profile::DarkTrue,
        Profile::DarkGraphite,
        Profile::LightTrue,
        Profile::Dark256,
        Profile::Light256,
        Profile::Ansi16,
        Profile::UnknownGround,
        Profile::NoColor,
        Profile::Ascii,
    ]
}

impl Profile {
    pub const ALL: [Profile; 9] = [
        Profile::DarkTrue,
        Profile::DarkGraphite,
        Profile::LightTrue,
        Profile::Dark256,
        Profile::Light256,
        Profile::Ansi16,
        Profile::UnknownGround,
        Profile::NoColor,
        Profile::Ascii,
    ];

    pub open spec fn name_spec(self) -> Seq<char> {
        match self {
            Profile::DarkTrue => "dark-truecolor"@,
            Profile::DarkGraphite => "dark-graphite"@,
            Profile::LightTrue => "light-truecolor"@,
            Profile::Dark256 => "dark-256"@,
            Profile::Light256 => "light-256"@,
            Profile::Ansi16 => "ansi-16"@,
            Profile::UnknownGround => "unknown-ground"@,
            Profile::NoColor => "no-color"@,
            Profile::Ascii => "ascii"@,
        }
    }

    /// The profile's name, as snapshots are filed under.
    pub fn name(self) -> (s: &'static str)
        ensures
            s@ == self.name_spec(),
    {
        match self {
            Profile::DarkTrue => "dark-truecolor",
            Profile::DarkGraphite => "dark-graphite",
            Profile::LightTrue => "light-truecolor",
            Profile::Dark256 => "dark-256",
            Profile::Light256 => "light-256",
            Profile::Ansi16 => "ansi-16",
            Profile::UnknownGround => "unknown-ground",
            Profile::NoColor => "no-color",
            Profile::Ascii => "ascii",
        }
    }

    /// The first profile named `name`.
    pub fn from_name(name: &str) -> (p: Option<Profile>)
        ensures
            match p {
                Some(q) => q.name_spec() == name@,
                None => forall|q: Profile| #[trigger] q.name_spec() != name@,
            },
    {
        let wanted = chars_of(name);
        let all = Self::ALL;
        let mut i: usize = 0;
        while i < 9
            invariant
                i <= 9,
                wanted@ == name@,
                all@ == all_profiles(),
                forall|j: int| 0 <= j < i ==> all_profiles()[j].name_spec() != name@,
            decreases 9 - i,
        {
            let p = all[i];
            let candidate = chars_of(p.name());
            if seq_eq(candidate.as_slice(), wanted.as_slice()) {
                return Some(p);
            }
            i = i + 1;
        }
        assert forall|q: Profile| #[trigger] q.name_spec() != name@ by {
            lemma_every_profile_listed(q);
        }
        None
    }

    pub open spec fn caps_spec(self) -> Caps {
        let (depth, appearance, ascii) = match self {
            Profile::DarkTrue | Profile::DarkGraphite => (ColorDepth::TrueColor, Appearance::Dark, false),
            Profile::LightTrue => (ColorDepth::TrueColor, Appearance::Light, false),
            Profile::Dark256 => (ColorDepth::Ansi256, Appearance::Dark, false),
            Profile::Light256 => (ColorDepth::Ansi256, Appearance::Light, false),
            Profile::Ansi16 => (ColorDepth::Ansi16, Appearance::Dark, false),
            Profile::UnknownGround => (ColorDepth::TrueColor, Appearance::Unknown, false),
            Profile::NoColor => (ColorDepth::Monochrome, Appearance::Dark, false),
            Profile::Ascii => (ColorDepth::Monochrome, Appearance::Dark, true),
        };
        Caps { depth, ascii, appearance }
    }

    /// What the profile's terminal can show.
    pub fn caps(self) -> (c: Caps)
        ensures
            c == self.caps_spec(),
    {
        let (depth, appearance, ascii) = match self {
            Profile::DarkTrue | Profile::DarkGraphite => (ColorDepth::TrueColor, Appearance::Dark, false),
            Profile::LightTrue => (ColorDepth::TrueColor, Appearance::Light, false),
            Profile::Dark256 => (ColorDepth::Ansi256, Appearance::Dark, false),
            Profile::Light256 => (ColorDepth::Ansi256, Appearance::Light, false),
            Profile::Ansi16 => (ColorDepth::Ansi16, Appearance::Dark, false),
            Profile::UnknownGround => (ColorDepth::TrueColor, Appearance::Unknown, false),
            Profile::NoColor => (ColorDepth::Monochrome, Appearance::Dark, false),
            Profile::Ascii => (ColorDepth::Monochrome, Appearance::Dark, true),
        };
        Caps { depth, ascii, appearance }
    }

    /// The theme for the profile: graphite grounds for `DarkGraphite`, the
    /// ocean elsewhere.
    pub fn theme(self) -> (t: Theme)
        ensures
            t.caps_spec() == self.caps_spec(),
            t.base_ground_spec(),
            t.ground_spec() == (if self == Profile::DarkGraphite { Ground::Graphite } else { Ground::Ocean }),
    {
        let theme = Theme::new(self.caps());
        match self {
            Profile::DarkGraphite => theme.ground(Ground::Graphite),
            _ => theme,
        }
    }
}

proof fn lemma_every_profile_listed(q: Profile)
    ensures
        exists|i: int| 0 <= i < 9 && all_profiles()[i] == q,
{
    match q {
        Profile::DarkTrue => assert(all_profiles()[0] == q),
        Profile::DarkGraphite => assert(all_profiles()[1] == q),
        Profile::LightTrue => assert(all_profiles()[2] == q),
        Profile::Dark256 => assert(all_profiles()[3] == q),
        Profile::Light256 => assert(all_profiles()[4] == q),
        Profile::Ansi16 => assert(all_profiles()[5] == q),
        Profile::UnknownGround => assert(all_profiles()[6] == q),
        Profile::NoColor => assert(all_profiles()[7] == q),
        Profile::Ascii => assert(all_profiles()[8] == q),
    }
}

/// Profile names are distinct, so a name finds its profile again.
pub proof fn law_profile_names_round_trip(p: Profile, q: Profile)
    ensures
        p.name_spec() == q.name_spec() ==> p == q,
{
    reveal_strlit("dark-truecolor");
    reveal_strlit("dark-graphite");
    reveal_strlit("light-truecolor");
    reveal_strlit("dark-256");
    reveal_strlit("light-256");
    reveal_strlit("ansi-16");
    reveal_strlit("unknown-ground");
    reveal_strlit("no-color");
    reveal_strlit("ascii");
    if p != q {
        assert(p.name_spec() != q.name_spec()) by {
            if p.name_spec().len() == q.name_spec().len() {
                assert(p.name_spec()[0] != q.name_spec()[0] || p.name_spec()[5] != q.name_spec()[5]
                    || p.name_spec()[6] != q.name_spec()[6]);
            }
        }
    }
}

} // verus!
