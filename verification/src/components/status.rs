//! Status marks: a glyph and a word, never color alone.
//!
//! The constructor takes a [`State`], and the word comes with it, so there
//! is no way to build a colored dot that means nothing without its color.

use vstd::prelude::*;

use crate::glyphs::{self, fallback_spec, pick_spec};
use crate::seqs::{cow_chars, owned, string_of};
use crate::style::{span_views, Span, Style};
use crate::text::{display_safe, safe_text};
use crate::theme::{Role, Theme};

verus! {

/// Product state. One hue, one mark and one word each, on every surface.
#[derive(Clone, Copy, Debug, PartialEq, Eq, Hash, Structural)]
pub enum State {
    Working,
    Done,
    NeedsYou,
    Failed,
    Stopped,
    Ready,
    /// Nobody reported a state. Shown as unknown, never as a failure.
    Unknown,
}

impl State {
    pub const ALL: [State; 7] = [
        State::Working,
        State::Done,
        State::NeedsYou,
        State::Failed,
        State::Stopped,
        State::Ready,
        State::Unknown,
    ];

    pub open spec fn role_spec(self) -> Role {
        match self {
            State::Working | State::Done => Role::Live,
            State::NeedsYou => Role::Attention,
            State::Failed => Role::Danger,
            State::Stopped | State::Ready | State::Unknown => Role::Muted,
        }
    }

    /// The state's hue.
    pub fn role(self) -> (r: Role)
        ensures
            r == self.role_spec(),
    {
        match self {
            State::Working | State::Done => Role::Live,
            State::NeedsYou => Role::Attention,
            State::Failed => Role::Danger,
            State::Stopped | State::Ready | State::Unknown => Role::Muted,
        }
    }

    pub open spec fn glyph_spec(self) -> Seq<char> {
        match self {
            State::Working => "●"@,
            State::Done => "✓"@,
            State::NeedsYou => "◆"@,
            State::Failed => "✕"@,
            State::Stopped => "■"@,
            State::Ready => "○"@,
            State::Unknown => "?"@,
        }
    }

    /// The state's mark.
    pub fn glyph(self) -> (g: &'static str)
        ensures
            g@ == self.glyph_spec(),
    {
        match self {
            State::Working => glyphs::CURRENT,
            State::Done => glyphs::DONE,
            State::NeedsYou => glyphs::ATTENTION,
            State::Failed => glyphs::FAILED,
            State::Stopped => glyphs::STOPPED,
            State::Ready => glyphs::READY,
            State::Unknown => glyphs::UNKNOWN,
        }
    }

    pub open spec fn word_spec(self) -> Seq<char> {
        match self {
            State::Working => "Working"@,
            State::Done => "Done"@,
            State::NeedsYou => "Needs you"@,
            State::Failed => "Failed"@,
            State::Stopped => "Stopped"@,
            State::Ready => "Ready"@,
            State::Unknown => "Unknown"@,
        }
    }

    /// The English word. Hosts pass a localized word with
    /// [`StatusMark::word`].
    pub fn word(self) -> (w: &'static str)
        ensures
            w@ == self.word_spec(),
    {
        match self {
            State::Working => "Working",
            State::Done => "Done",
            State::NeedsYou => "Needs you",
            State::Failed => "Failed",
            State::Stopped => "Stopped",
            State::Ready => "Ready",
            State::Unknown => "Unknown",
        }
    }
}

/// Every state shows its own mark, with or without ASCII fallbacks, and has
/// a word.
pub proof fn law_state_marks_are_distinct(a: State, b: State, ascii: bool)
    ensures
        a != b ==> pick_spec(a.glyph_spec(), ascii) != pick_spec(b.glyph_spec(), ascii),
        pick_spec(a.glyph_spec(), ascii).len() > 0,
        a.word_spec().len() > 0,
{
    reveal_strlit("●");
    reveal_strlit("✓");
    reveal_strlit("◆");
    reveal_strlit("✕");
    reveal_strlit("■");
    reveal_strlit("○");
    reveal_strlit("?");
    reveal_strlit(".");
    reveal_strlit("Y");
    reveal_strlit("*");
    reveal_strlit("X");
    reveal_strlit("#");
    reveal_strlit("o");
    reveal_strlit("Working");
    reveal_strlit("Done");
    reveal_strlit("Needs you");
    reveal_strlit("Failed");
    reveal_strlit("Stopped");
    reveal_strlit("Ready");
    reveal_strlit("Unknown");
    if a != b {
        if ascii {
            assert(pick_spec(a.glyph_spec(), ascii)[0] != pick_spec(b.glyph_spec(), ascii)[0]);
        } else {
            assert(a.glyph_spec()[0] != b.glyph_spec()[0]);
        }
    }
}

/// Failure has a hue of its own: a state takes the `Danger` hue exactly
/// when it failed, and a failure never wears the `Live` hue of work and
/// success.
pub proof fn law_failure_takes_the_danger_hue(s: State)
    ensures
        (s.role_spec() == Role::Danger) <==> (s == State::Failed),
        (s.role_spec() == Role::Attention) <==> (s == State::NeedsYou),
        s == State::Failed ==> s.role_spec() != Role::Live,
        s.role_spec() == Role::Live ==> (s == State::Working || s == State::Done),
{
}

/// `● Working`, `✓ Done`, `◆ Needs you`: the mark takes the state's hue; the
/// word stays `Foreground` so it reads at full contrast.
#[derive(Clone, Debug, PartialEq, Eq)]
pub struct StatusMark {
    pub state: State,
    pub word: String,
    /// Paint the word in the state's hue too, for a mark that stands alone.
    pub tinted: bool,
}

impl StatusMark {
    pub fn new(state: State) -> (m: StatusMark)
        ensures
            m.state == state,
            m.word@ == state.word_spec(),
            !m.tinted,
    {
        StatusMark { state, word: owned(state.word()), tinted: false }
    }

    /// The same mark with a (localized) word.
    pub fn word(self, word: &str) -> (m: StatusMark)
        ensures
            m.state == self.state,
            m.word@ == word@,
            m.tinted == self.tinted,
    {
        StatusMark { word: owned(word), ..self }
    }

    /// The same mark with its word in the state's hue too.
    pub fn tinted(self) -> (m: StatusMark)
        ensures
            m.state == self.state,
            m.word@ == self.word@,
            m.tinted,
    {
        StatusMark { tinted: true, ..self }
    }

    /// The mark's glyph for this terminal.
    pub fn glyph(&self, theme: &Theme) -> (g: &'static str)
        ensures
            g@ == pick_spec(self.state.glyph_spec(), theme.ascii_spec()),
    {
        glyphs::pick(self.state.glyph(), theme.ascii())
    }

    pub open spec fn spans_spec(&self, theme: Theme) -> Seq<(Seq<char>, Style)> {
        let hue = theme.fg_spec(self.state.role_spec());
        seq![
            (pick_spec(self.state.glyph_spec(), theme.ascii_spec()), hue),
            (" "@, Style::plain()),
            (safe_text(self.word@), if self.tinted { hue } else { theme.fg_spec(Role::Foreground) }),
        ]
    }

    /// The mark, a space, and the word (display-safe).
    pub fn spans(&self, theme: &Theme) -> (v: Vec<Span>)
        ensures
            span_views(v@) == self.spans_spec(*theme),
    {
        let hue = theme.fg(self.state.role());
        let word_style = if self.tinted { hue } else { theme.fg(Role::Foreground) };
        let safe = display_safe(self.word.as_str());
        let v = vec![
            Span::styled(owned(self.glyph(theme)), hue),
            Span::raw(owned(" ")),
            Span::styled(string_of(cow_chars(&safe).as_slice()), word_style),
        ];
        assert(span_views(v@) =~= self.spans_spec(*theme));
        v
    }
}

} // verus!
