//! Motion policy and the working spinner.
//!
//! Motion shows something real: the spinner runs only while work runs, and
//! reduced motion holds one readable frame.

use vstd::prelude::*;

use crate::glyphs::dot_count;
use crate::seqs::{chars_of, concat, decimal, decimal2, digit_char, decimal2_exec, decimal_exec, owned, string_of};
use crate::style::{span_views, Span, Style};
use crate::text::{display_safe, safe_text};
use crate::theme::{Role, Theme};
use crate::time::Duration;

verus! {

/// How much the interface moves.
#[derive(Clone, Copy, Debug, PartialEq, Eq, Hash, Structural)]
pub enum MotionMode {
    /// Spinners and the whale's frames run.
    Full,
    /// Static markers only (`low_motion`).
    Reduced,
    /// Nothing animates; redraw on state change only.
    Still,
}

impl Default for MotionMode {
    fn default() -> (m: MotionMode)
        ensures
            m == MotionMode::Full,
    {
        MotionMode::Full
    }
}

impl MotionMode {
    /// From the engine's two settings: `low_motion` wins over
    /// `fancy_animations = false`.
    pub fn from_settings(low_motion: bool, fancy_animations: bool) -> (m: Self)
        ensures
            m == (if low_motion {
                MotionMode::Reduced
            } else if !fancy_animations {
                MotionMode::Still
            } else {
                MotionMode::Full
            }),
    {
        if low_motion {
            Self::Reduced
        } else if !fancy_animations {
            Self::Still
        } else {
            Self::Full
        }
    }

    pub open spec fn animates_spec(self) -> bool {
        self == MotionMode::Full
    }

    /// Only full motion animates.
    pub fn animates(self) -> (b: bool)
        ensures
            b == self.animates_spec(),
    {
        matches!(self, Self::Full)
    }
}

/// A small swell: rises and recedes through adjacent dot counts, and never
/// flashes from full to empty.
pub const FRAMES: [&'static str; 8] = ["⣀", "⣄", "⣤", "⣦", "⣶", "⣦", "⣤", "⣄"];
/// Held under reduced motion.
pub const STILL_FRAME: &'static str = "⣤";
/// Shown before the spinner is earned: fast work lands as a receipt.
pub const PENDING_FRAME: &'static str = "›";
/// Work must survive this many milliseconds before anything moves.
pub const EARN_DELAY: u64 = 400;
/// Milliseconds per step: five steps a second.
pub const FRAME_INTERVAL: u64 = 200;

/// The swell's frames, as characters.
pub open spec fn frame_char(i: int) -> char {
    if i == 0 { '⣀' }
    else if i == 1 || i == 7 { '⣄' }
    else if i == 2 || i == 6 { '⣤' }
    else if i == 3 || i == 5 { '⣦' }
    else { '⣶' }
}

/// The frame for work that has run `elapsed`.
pub open spec fn frame_spec(elapsed: Duration, motion: MotionMode, ascii: bool) -> Seq<char> {
    let millis = elapsed@ / 1_000_000;
    if ascii {
        if millis < EARN_DELAY { ">"@ } else { "*"@ }
    } else if !motion.animates_spec() {
        seq!['⣤']
    } else if millis < EARN_DELAY {
        "›"@
    } else {
        seq![frame_char(((millis - EARN_DELAY) / FRAME_INTERVAL as int) % 8)]
    }
}

fn frame_at(i: u64) -> (f: &'static str)
    requires
        i < 8,
    ensures
        f@ == seq![frame_char(i as int)],
{
    proof {
        reveal_strlit("⣀");
        reveal_strlit("⣄");
        reveal_strlit("⣤");
        reveal_strlit("⣦");
        reveal_strlit("⣶");
    }
    if i == 0 { "⣀" }
    else if i == 1 || i == 7 { "⣄" }
    else if i == 2 || i == 6 { "⣤" }
    else if i == 3 || i == 5 { "⣦" }
    else { "⣶" }
}

/// The frame for work that has run for `elapsed`.
pub fn frame(elapsed: Duration, motion: MotionMode, ascii: bool) -> (f: &'static str)
    ensures
        f@ == frame_spec(elapsed, motion, ascii),
{
    let millis = elapsed.as_millis();
    if ascii {
        return if millis < EARN_DELAY as u128 { ">" } else { "*" };
    }
    if !motion.animates() {
        proof {
            reveal_strlit("⣤");
        }
        return STILL_FRAME;
    }
    if millis < EARN_DELAY as u128 {
        return PENDING_FRAME;
    }
    let steps = (millis - EARN_DELAY as u128) / FRAME_INTERVAL as u128;
    frame_at((steps % 8) as u64)
}

/// The swell moves one dot at a time: consecutive frames (and the wrap from
/// the last to the first) differ by exactly one raised dot.
pub proof fn law_swell_moves_one_dot(i: int)
    requires
        0 <= i < 8,
    ensures
        0x2800 <= frame_char(i) as u32 <= 0x28FF,
        ({
            let a = dot_count(frame_char(i) as u32 - 0x2800);
            let b = dot_count(frame_char((i + 1) % 8) as u32 - 0x2800);
            a - b == 1 || b - a == 1
        }),
{
    reveal_with_fuel(dot_count, 9);
}

/// Reduced and still motion hold one frame and schedule nothing.
pub proof fn law_reduced_motion_holds_still(elapsed: Duration, motion: MotionMode)
    requires
        !motion.animates_spec(),
    ensures
        frame_spec(elapsed, motion, false) == seq!['⣤'],
        next_frame_in_spec(elapsed, motion) is None,
{
}

/// When the next frame is due, in nanoseconds, or `None` when nothing will
/// change: the rest of the earning delay, then the rest of the current
/// step.
pub open spec fn next_frame_in_spec(elapsed: Duration, motion: MotionMode) -> Option<int> {
    let earn = EARN_DELAY * 1_000_000;
    if !motion.animates_spec() {
        None
    } else if elapsed@ < earn {
        Some(earn - elapsed@)
    } else {
        let into = ((elapsed@ - earn) / 1_000_000) % FRAME_INTERVAL as int;
        Some((FRAME_INTERVAL - into) * 1_000_000)
    }
}

/// When the next frame is due, or `None` when nothing will change: idle and
/// reduced motion schedule no redraws.
pub fn next_frame_in(elapsed: Duration, motion: MotionMode) -> (d: Option<Duration>)
    ensures
        match (d, next_frame_in_spec(elapsed, motion)) {
            (Some(x), Some(n)) => x@ == n,
            (None, None) => true,
            _ => false,
        },
{
    if !motion.animates() {
        return None;
    }
    let millis = elapsed.as_millis();
    let earn: u128 = EARN_DELAY as u128 * 1_000_000;
    let nanos = elapsed.as_nanos();
    if nanos < earn {
        return Some(Duration::from_nanos((earn - nanos) as u64));
    }
    let into = ((millis - EARN_DELAY as u128) % FRAME_INTERVAL as u128) as u64;
    Some(Duration::from_millis(FRAME_INTERVAL - into))
}

/// `850 ms`, `12 s`, `4m 06s`, `1h 02m`.
pub open spec fn duration_spec(d: Duration) -> Seq<char> {
    let secs = d@ / 1_000_000_000;
    if secs == 0 {
        decimal((d@ / 1_000_000) as nat) + " ms"@
    } else if secs < 60 {
        decimal(secs as nat) + " s"@
    } else if secs < 3600 {
        decimal((secs / 60) as nat) + "m "@ + decimal2((secs % 60) as nat) + "s"@
    } else {
        decimal((secs / 3600) as nat) + "h "@ + decimal2(((secs % 3600) / 60) as nat) + "m"@
    }
}

/// Two decimal digits of `n` (under 100).
pub open spec fn two_digits(n: int) -> Seq<char> {
    seq![digit_char(n / 10), digit_char(n % 10)]
}

proof fn lemma_two_digits(n: nat)
    requires
        n < 100,
    ensures
        decimal2(n) == two_digits(n as int),
{
    reveal_with_fuel(decimal, 2);
    if n >= 10 {
        assert(decimal(n / 10) == seq![digit_char((n / 10) as int)]);
    }
}

/// A duration reads as milliseconds under a second (`850 ms`), whole
/// seconds under a minute (`12 s`), whole minutes and two-digit seconds
/// under an hour (`4m 06s`), and from an hour on as whole hours, at least
/// one, and two-digit minutes (`1h 02m`).
pub proof fn law_durations_read_as_words(d: Duration)
    ensures
        d@ < 1_000_000_000 ==> duration_spec(d) == decimal((d@ / 1_000_000) as nat) + " ms"@,
        ({
            let secs = d@ / 1_000_000_000;
            1 <= secs < 60 ==> duration_spec(d) == decimal(secs as nat) + " s"@
        }),
        ({
            let secs = d@ / 1_000_000_000;
            60 <= secs < 3600 ==> duration_spec(d) == decimal((secs / 60) as nat) + "m "@ + two_digits(secs % 60)
                + "s"@
        }),
        ({
            let secs = d@ / 1_000_000_000;
            secs >= 3600 ==> secs / 3600 >= 1 && duration_spec(d) == decimal((secs / 3600) as nat) + "h "@
                + two_digits((secs % 3600) / 60) + "m"@
        }),
{
    crate::time::lemma_duration_range(d);
    let secs = d@ / 1_000_000_000;
    if 60 <= secs < 3600 {
        lemma_two_digits((secs % 60) as nat);
    }
    if secs >= 3600 {
        lemma_two_digits(((secs % 3600) / 60) as nat);
    }
}

/// `850 ms`, `12 s`, `4m 06s`, `1h 02m`.
pub fn duration(d: Duration) -> (s: String)
    ensures
        s@ == duration_spec(d),
{
    let secs = d.as_secs();
    let out = if secs == 0 {
        let millis = d.as_millis();
        concat(decimal_exec(millis as u64).as_slice(), chars_of(" ms").as_slice())
    } else if secs < 60 {
        concat(decimal_exec(secs).as_slice(), chars_of(" s").as_slice())
    } else if secs < 3600 {
        let a = concat(decimal_exec(secs / 60).as_slice(), chars_of("m ").as_slice());
        let b = concat(a.as_slice(), decimal2_exec(secs % 60).as_slice());
        concat(b.as_slice(), chars_of("s").as_slice())
    } else {
        let a = concat(decimal_exec(secs / 3600).as_slice(), chars_of("h ").as_slice());
        let b = concat(a.as_slice(), decimal2_exec((secs % 3600) / 60).as_slice());
        concat(b.as_slice(), chars_of("m").as_slice())
    };
    string_of(out.as_slice())
}

/// `⣦ Working · 38 s`: the spinner, a verb, and the measured time.
#[derive(Clone, Debug, PartialEq, Eq)]
pub struct Spinner {
    pub verb: String,
    pub elapsed: Duration,
    pub motion: MotionMode,
}

impl Spinner {
    pub fn new(verb: &str, elapsed: Duration, motion: MotionMode) -> (s: Self)
        ensures
            s.verb@ == verb@,
            s.elapsed == elapsed,
            s.motion == motion,
    {
        Spinner { verb: owned(verb), elapsed, motion }
    }

    pub open spec fn spans_spec(&self, theme: Theme) -> Seq<(Seq<char>, Style)> {
        let base = seq![
            (frame_spec(self.elapsed, self.motion, theme.ascii_spec()), theme.fg_spec(Role::Live)),
            (" "@, Style::plain()),
            (safe_text(self.verb@), theme.fg_spec(Role::Foreground)),
        ];
        if self.elapsed@ >= 1_000_000_000 {
            base + seq![
                (if theme.ascii_spec() { " - "@ } else { " · "@ }, theme.fg_spec(Role::Border)),
                (duration_spec(self.elapsed), theme.fg_spec(Role::Muted)),
            ]
        } else {
            base
        }
    }

    /// The frame, the verb, and the time once it is worth reading (a
    /// second), because it is measured.
    pub fn spans(&self, theme: &Theme) -> (v: Vec<Span>)
        ensures
            span_views(v@) == self.spans_spec(*theme),
    {
        let verb = display_safe(self.verb.as_str());
        let mut spans = vec![
            Span::styled(owned(frame(self.elapsed, self.motion, theme.ascii())), theme.fg(Role::Live)),
            Span::raw(owned(" ")),
            Span::styled(string_of(crate::seqs::cow_chars(&verb).as_slice()), theme.fg(Role::Foreground)),
        ];
        if self.elapsed.as_secs() >= 1 {
            let sep = if theme.ascii() { " - " } else { " · " };
            spans.push(Span::styled(owned(sep), theme.fg(Role::Border)));
            spans.push(Span::styled(duration(self.elapsed), theme.fg(Role::Muted)));
        }
        assert(span_views(spans@) =~= self.spans_spec(*theme));
        spans
    }
}

} // verus!
