//! Four small marks, one cell each: sonar, tide, shell and kelp.
//!
//! Each has a word for screen readers and an ASCII form for plain
//! terminals. They are marks, not characters: each sits beside words.

use vstd::prelude::*;

use crate::components::spinner::MotionMode;
use crate::seqs::{chars_of, concat, decimal, decimal_exec, owned, string_of};
use crate::style::{Span, Style};
use crate::theme::{Role, Theme};
use crate::time::Duration;

verus! {

/// A small mark.
#[derive(Clone, Copy, Debug, PartialEq, Eq, Structural)]
pub enum Icon {
    /// Searching: a ping that widens while the search runs.
    Sonar { elapsed: Duration, motion: MotionMode },
    /// Real progress, drawn only when the total is a fact.
    Tide { done: u32, total: u32 },
    /// A receipt: something finished and left a record.
    Shell,
    /// A quiet divider between items on one line.
    Kelp,
}

pub open spec fn sonar_char(i: int) -> char {
    if i == 0 { '·' } else if i == 1 { '∘' } else if i == 2 { '○' } else { '◎' }
}

pub open spec fn tide_char(i: int) -> char {
    if i == 0 { '▁' }
    else if i == 1 { '▂' }
    else if i == 2 { '▃' }
    else if i == 3 { '▄' }
    else if i == 4 { '▅' }
    else if i == 5 { '▆' }
    else if i == 6 { '▇' }
    else { '█' }
}

pub open spec fn tide_ascii_char(i: int) -> char {
    if i == 0 { '_' } else if i == 1 { '.' } else if i == 2 { '-' } else if i == 3 { '=' } else { '#' }
}

/// Which step of a `steps`-long scale `done` of `total` rounds to.
pub open spec fn tide_step(done: int, total: int, steps: int) -> int {
    (done * (steps - 1) + total / 2) / total
}

impl Icon {
    /// A tide mark for `done` of `total`, or `None` when the total is
    /// unknown: no fake progress.
    pub fn tide(done: u32, total: u32) -> (i: Option<Self>)
        ensures
            total == 0 ==> i is None,
            total > 0 ==> i == Some(Icon::Tide { done: if done < total { done } else { total }, total }),
    {
        if total > 0 {
            Some(Icon::Tide { done: if done < total { done } else { total }, total })
        } else {
            None
        }
    }

    pub open spec fn label_spec(&self) -> Seq<char> {
        match *self {
            Icon::Sonar { .. } => "searching"@,
            Icon::Tide { done, total } => decimal(done as nat) + " of "@ + decimal(total as nat),
            Icon::Shell => "receipt"@,
            Icon::Kelp => "divider"@,
        }
    }

    /// The word a screen reader hears.
    pub fn label(&self) -> (s: String)
        ensures
            s@ == self.label_spec(),
    {
        match *self {
            Icon::Sonar { .. } => owned("searching"),
            Icon::Tide { done, total } => {
                let a = concat(decimal_exec(done as u64).as_slice(), chars_of(" of ").as_slice());
                let b = concat(a.as_slice(), decimal_exec(total as u64).as_slice());
                string_of(b.as_slice())
            },
            Icon::Shell => owned("receipt"),
            Icon::Kelp => owned("divider"),
        }
    }

    pub open spec fn role_spec(&self) -> Role {
        match *self {
            Icon::Sonar { .. } | Icon::Tide { .. } => Role::Live,
            Icon::Shell => Role::Muted,
            Icon::Kelp => Role::Border,
        }
    }

    pub fn role(&self) -> (r: Role)
        ensures
            r == self.role_spec(),
    {
        match *self {
            Icon::Sonar { .. } | Icon::Tide { .. } => Role::Live,
            Icon::Shell => Role::Muted,
            Icon::Kelp => Role::Border,
        }
    }

    /// A tide can be drawn: a real total, and no more done than that.
    pub open spec fn drawable(&self) -> bool {
        match *self {
            Icon::Tide { done, total } => total > 0 && done <= total,
            _ => true,
        }
    }

    pub open spec fn glyph_spec(&self, ascii: bool) -> Seq<char> {
        match *self {
            Icon::Sonar { elapsed, motion } => if ascii {
                "o"@
            } else if motion.animates_spec() {
                seq![sonar_char((((elapsed@ / 1_000_000) / 250) % 4) as int)]
            } else {
                seq![sonar_char(3)]
            },
            Icon::Tide { done, total } => if ascii {
                seq![tide_ascii_char(tide_step(done as int, total as int, 5))]
            } else {
                seq![tide_char(tide_step(done as int, total as int, 8))]
            },
            Icon::Shell => if ascii { "="@ } else { "◒"@ },
            Icon::Kelp => if ascii { "|"@ } else { "┊"@ },
        }
    }

    /// The glyph for this terminal and moment.
    pub fn glyph(&self, theme: &Theme) -> (g: &'static str)
        requires
            self.drawable(),
        ensures
            g@ == self.glyph_spec(theme.ascii_spec()),
    {
        let ascii = theme.ascii();
        match *self {
            Icon::Sonar { elapsed, motion } => if ascii {
                "o"
            } else if motion.animates() {
                sonar_glyph(((elapsed.as_millis() / 250) % 4) as u8)
            } else {
                sonar_glyph(3)
            },
            Icon::Tide { done, total } => {
                let steps: u64 = if ascii { 5 } else { 8 };
                proof {
                    assert((done as int) * (steps - 1) <= 0xffff_ffff * 7) by (nonlinear_arith)
                        requires done <= 0xffff_ffff, 1 <= steps <= 8;
                    assert((done as int) * (steps - 1) <= (total as int) * (steps - 1)) by (nonlinear_arith)
                        requires done <= total, steps >= 1;
                    assert(((done as int) * (steps - 1) + total / 2) / (total as int) <= steps - 1) by (nonlinear_arith)
                        requires (done as int) * (steps - 1) <= (total as int) * (steps - 1), total > 0, steps >= 1;
                }
                let idx = ((done as u64) * (steps - 1) + (total as u64) / 2) / (total as u64);
                if ascii {
                    tide_ascii_glyph(idx as u8)
                } else {
                    tide_glyph(idx as u8)
                }
            },
            Icon::Shell => if ascii { "=" } else { "◒" },
            Icon::Kelp => if ascii { "|" } else { "┊" },
        }
    }

    /// The glyph in the icon's role.
    pub fn span(&self, theme: &Theme) -> (s: Span)
        requires
            self.drawable(),
        ensures
            s@ == (self.glyph_spec(theme.ascii_spec()), theme.fg_spec(self.role_spec())),
    {
        Span::styled(owned(self.glyph(theme)), theme.fg(self.role()))
    }
}

fn sonar_glyph(i: u8) -> (g: &'static str)
    requires
        i < 4,
    ensures
        g@ == seq![sonar_char(i as int)],
{
    proof {
        reveal_strlit("·");
        reveal_strlit("∘");
        reveal_strlit("○");
        reveal_strlit("◎");
    }
    if i == 0 { "·" } else if i == 1 { "∘" } else if i == 2 { "○" } else { "◎" }
}

fn tide_glyph(i: u8) -> (g: &'static str)
    requires
        i < 8,
    ensures
        g@ == seq![tide_char(i as int)],
{
    proof {
        reveal_strlit("▁");
        reveal_strlit("▂");
        reveal_strlit("▃");
        reveal_strlit("▄");
        reveal_strlit("▅");
        reveal_strlit("▆");
        reveal_strlit("▇");
        reveal_strlit("█");
    }
    if i == 0 { "▁" }
    else if i == 1 { "▂" }
    else if i == 2 { "▃" }
    else if i == 3 { "▄" }
    else if i == 4 { "▅" }
    else if i == 5 { "▆" }
    else if i == 6 { "▇" }
    else { "█" }
}

fn tide_ascii_glyph(i: u8) -> (g: &'static str)
    requires
        i < 5,
    ensures
        g@ == seq![tide_ascii_char(i as int)],
{
    proof {
        reveal_strlit("_");
        reveal_strlit(".");
        reveal_strlit("-");
        reveal_strlit("=");
        reveal_strlit("#");
    }
    if i == 0 { "_" } else if i == 1 { "." } else if i == 2 { "-" } else if i == 3 { "=" } else { "#" }
}

/// Every drawable icon has a word, one glyph character on any terminal, and
/// a plain ASCII glyph when ASCII-safe; an empty tide shows the lowest step
/// and a full one the highest.
pub proof fn law_icons_have_words_and_ascii_forms(icon: Icon)
    requires
        icon.drawable(),
    ensures
        icon.label_spec().len() > 0,
        icon.glyph_spec(false).len() == 1,
        icon.glyph_spec(true).len() == 1,
        (icon.glyph_spec(true)[0] as u32) < 128,
        icon matches Icon::Tide { done, total } ==> (done == 0 ==> icon.glyph_spec(false) == seq!['▁'])
            && (done == total ==> icon.glyph_spec(false) == seq!['█']),
{
    reveal_strlit("searching");
    reveal_strlit("receipt");
    reveal_strlit("divider");
    reveal_strlit("o");
    reveal_strlit("=");
    reveal_strlit("|");
    reveal_strlit("◒");
    reveal_strlit("┊");
    reveal_strlit(" of ");
    if let Icon::Tide { done, total } = icon {
        let (d, t) = (done as int, total as int);
        assert((d * 4 + t / 2) / t <= 4) by (nonlinear_arith) requires 0 <= d <= t, t > 0;
        assert((d * 7 + t / 2) / t <= 7) by (nonlinear_arith) requires 0 <= d <= t, t > 0;
        assert((d * 4 + t / 2) / t >= 0) by (nonlinear_arith) requires 0 <= d <= t, t > 0;
        if d == t {
            assert((t * 7 + t / 2) / t == 7) by (nonlinear_arith) requires t > 0;
        }
        if d == 0 {
            assert((0 * 7 + t / 2) / t == 0) by (nonlinear_arith) requires t > 0;
        }
    }
}

} // verus!
