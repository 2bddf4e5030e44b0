//! Codewhale's terminal glyph charter.
//!
//! Renderers use the semantic names here instead of choosing punctuation
//! ad hoc. One meaning per glyph: `●` current or running, `✓` done, `✕`
//! failed, `◆` needs you, `○` ready, `■` stopped, `▸` selection, `?`
//! unknown. ASCII-safe terminals receive the semantic fallback from the same
//! owner.

use vstd::prelude::*;

use crate::seqs::{chars_of, seq_eq};

verus! {

/// Current speaker or current human choice: the recurring identity anchor.
pub const CURRENT: &'static str = "●";
/// Available but not current.
pub const AVAILABLE: &'static str = "○";
/// Keyboard/list selection pointer.
pub const SELECTION: &'static str = "▸";
/// Finished user-authored message marker.
pub const USER: &'static str = "▎";
/// Transcript continuation rail, including its authored trailing space.
pub const TRANSCRIPT_RAIL: &'static str = "▏ ";
/// Settled successful state.
pub const DONE: &'static str = "✓";
/// Settled failed state.
pub const FAILED: &'static str = "✕";
/// State that needs human attention.
pub const ATTENTION: &'static str = "◆";
/// Ready but not active.
pub const READY: &'static str = "○";
/// Paused work.
pub const PAUSED: &'static str = "⏸";
/// Stopped by a person, or cancelled.
pub const STOPPED: &'static str = "■";
/// A state nobody reported. Never shown as a failure.
pub const UNKNOWN: &'static str = "?";
/// The one ellipsis.
pub const ELLIPSIS: &'static str = "…";
/// Fleet role marks share the same charter while retaining distinct shapes.
pub const ROLE_MANAGER: &'static str = "◆";
pub const ROLE_BUILDER: &'static str = "■";
pub const ROLE_REVIEWER: &'static str = "◇";
pub const ROLE_VERIFIER: &'static str = "●";
pub const ROLE_SYNTHESIZER: &'static str = "▲";
pub const NEUTRAL: &'static str = "·";

/// The selection pointer, or a blank of the same width.
pub fn selection_marker(selected: bool) -> (r: &'static str)
    ensures
        r@ == (if selected { "▸"@ } else { " "@ }),
{
    if selected { SELECTION } else { " " }
}

/// The narrow ASCII form of one decorative glyph.
pub open spec fn char_fallback(c: char) -> Option<Seq<char>> {
    match c {
        '─' | '━' | '═' | '╌' | '╍' | '┄' | '┅' | '┈' | '┉' | '—' | '–' => Some("-"@),
        '│' | '┃' | '║' | '╎' | '╏' | '▏' | '▎' | '▍' | '▌' | '▐' | '▕' => Some("|"@),
        '┌' | '┐' | '└' | '┘' | '╭' | '╮' | '╰' | '╯' | '├' | '┤' | '┬' | '┴' | '┼' => Some("+"@),
        '█' | '▉' | '▊' | '▋' | '▀' | '▄' | '▅' | '▆' | '▇' | '▙' | '▛' | '▜' | '▟' | '▰' => Some("#"@),
        '▁' | '▂' | '▃' => Some("_"@),
        '⌁' => Some("+"@),
        '⚙' => Some("*"@),
        '↺' => Some("<"@),
        '▤' => Some("="@),
        '◐' => Some("*"@),
        '⑂' => Some("y"@),
        '∼' | '∿' => Some("~"@),
        '⋯' => Some("."@),
        '▖' | '▗' | '▘' | '▝' => Some("."@),
        '▚' => Some("\\"@),
        '▞' => Some("/"@),
        '░' | '▒' | '▓' => Some(":"@),
        '▱' => Some("-"@),
        '▶' | '▷' | '▸' | '›' | '❯' | '→' | '↗' | '↘' | '»' => Some(">"@),
        '◀' | '◂' | '‹' | '❮' | '←' | '↖' | '↙' | '«' => Some("<"@),
        '▼' | '▾' | '▽' | '↓' => Some("v"@),
        '▲' | '△' | '↑' => Some("^"@),
        '◆' | '◇' | '♦' | '✦' | '◍' | '◉' | '★' | '☆' => Some("*"@),
        '■' | '□' | '▪' | '▫' | '◼' | '◻' => Some("#"@),
        '●' | '∘' | '•' | '·' => Some("."@),
        '○' | '☐' | '◌' | '˚' | '°' | '◦' => Some("o"@),
        '✓' | '✔' | '☑' => Some("Y"@),
        '✕' | '×' | '⊘' | '✗' | '✘' | '☒' => Some("X"@),
        '⏸' => Some("="@),
        '⏱' => Some("@"@),
        '⚠' => Some("!"@),
        '⋮' => Some("|"@),
        '≈' | '～' => Some("~"@),
        '🐳' | '🐋' => Some("w"@),
        '…' => Some("."@),
        _ => None,
    }
}

/// The ASCII form of a glyph: single decorative characters by
/// [`char_fallback`], and the `≈≈>` arrow as `~>`.
pub open spec fn fallback_spec(symbol: Seq<char>) -> Option<Seq<char>> {
    if symbol.len() == 1 {
        char_fallback(symbol[0])
    } else if symbol == seq!['≈', '≈', '>'] {
        Some("~>"@)
    } else {
        None
    }
}

fn char_fallback_exec(c: char) -> (r: Option<&'static str>)
    ensures
        match r {
            Some(s) => char_fallback(c) == Some(s@),
            None => char_fallback(c) is None,
        },
{
    match c {
        '─' | '━' | '═' | '╌' | '╍' | '┄' | '┅' | '┈' | '┉' | '—' | '–' => Some("-"),
        '│' | '┃' | '║' | '╎' | '╏' | '▏' | '▎' | '▍' | '▌' | '▐' | '▕' => Some("|"),
        '┌' | '┐' | '└' | '┘' | '╭' | '╮' | '╰' | '╯' | '├' | '┤' | '┬' | '┴' | '┼' => Some("+"),
        '█' | '▉' | '▊' | '▋' | '▀' | '▄' | '▅' | '▆' | '▇' | '▙' | '▛' | '▜' | '▟' | '▰' => Some("#"),
        '▁' | '▂' | '▃' => Some("_"),
        // Tideline action glyphs: one cell each, no wide glyphs.
        '⌁' => Some("+"),
        '⚙' => Some("*"),
        '↺' => Some("<"),
        '▤' => Some("="),
        '◐' => Some("*"),
        '⑂' => Some("y"),
        '∼' | '∿' => Some("~"),
        '⋯' => Some("."),
        '▖' | '▗' | '▘' | '▝' => Some("."),
        '▚' => Some("\\"),
        '▞' => Some("/"),
        '░' | '▒' | '▓' => Some(":"),
        '▱' => Some("-"),
        '▶' | '▷' | '▸' | '›' | '❯' | '→' | '↗' | '↘' | '»' => Some(">"),
        '◀' | '◂' | '‹' | '❮' | '←' | '↖' | '↙' | '«' => Some("<"),
        '▼' | '▾' | '▽' | '↓' => Some("v"),
        '▲' | '△' | '↑' => Some("^"),
        '◆' | '◇' | '♦' | '✦' | '◍' | '◉' | '★' | '☆' => Some("*"),
        '■' | '□' | '▪' | '▫' | '◼' | '◻' => Some("#"),
        // Filled marks stay a dot; hollow ones become `o` so CURRENT and
        // AVAILABLE stay distinguishable on ASCII terminals.
        '●' | '∘' | '•' | '·' => Some("."),
        '○' | '☐' | '◌' | '˚' | '°' | '◦' => Some("o"),
        '✓' | '✔' | '☑' => Some("Y"),
        '✕' | '×' | '⊘' | '✗' | '✘' | '☒' => Some("X"),
        '⏸' => Some("="),
        // Schedule/timer: cron's `@`.
        '⏱' => Some("@"),
        // The launch warning line's gate glyph.
        '⚠' => Some("!"),
        // The working screen's chip marker.
        '⋮' => Some("|"),
        '≈' | '～' => Some("~"),
        '🐳' | '🐋' => Some("w"),
        '…' => Some("."),
        _ => None,
    }
}

/// Reduce a single Codewhale-authored decorative glyph to narrow ASCII.
/// Language text and model/user content are intentionally outside this map.
pub fn ascii_fallback(symbol: &str) -> (r: Option<&'static str>)
    ensures
        match r {
            Some(s) => fallback_spec(symbol@) == Some(s@),
            None => fallback_spec(symbol@) is None,
        },
{
    let chars = chars_of(symbol);
    if chars.len() == 1 {
        char_fallback_exec(chars[0])
    } else {
        let arrow = vec!['≈', '≈', '>'];
        if seq_eq(chars.as_slice(), arrow.as_slice()) {
            Some("~>")
        } else {
            None
        }
    }
}

/// What [`pick`] shows for `symbol`.
pub open spec fn pick_spec(symbol: Seq<char>, ascii: bool) -> Seq<char> {
    if ascii {
        match fallback_spec(symbol) {
            Some(f) => f,
            None => symbol,
        }
    } else {
        symbol
    }
}

/// `symbol`, or its ASCII fallback when `ascii` is set. Symbols without a
/// fallback are returned unchanged.
pub fn pick(symbol: &'static str, ascii: bool) -> (r: &'static str)
    ensures
        r@ == pick_spec(symbol@, ascii),
{
    if ascii {
        match ascii_fallback(symbol) {
            Some(f) => f,
            None => symbol,
        }
    } else {
        symbol
    }
}

/// The number of raised dots in a Braille pattern's low byte.
pub open spec fn dot_count(bits: int) -> int
    decreases bits,
{
    if bits <= 0 { 0 } else { bits % 2 + dot_count(bits / 2) }
}

/// The ASCII shade for a Braille cell with `dots` raised dots.
pub open spec fn shade(dots: int) -> Seq<char> {
    if dots == 0 { " "@ }
    else if dots <= 2 { "."@ }
    else if dots <= 4 { ":"@ }
    else if dots <= 6 { "+"@ }
    else { "#"@ }
}

proof fn lemma_dot_count_bound(bits: int)
    requires
        0 <= bits,
    ensures
        0 <= dot_count(bits) <= bits,
    decreases bits,
{
    if bits > 0 {
        lemma_dot_count_bound(bits / 2);
    }
}

/// Preserve the working-bubble fill signal when Braille is unavailable:
/// a Braille cell becomes a shade by how many dots it raises.
pub fn braille_ascii_fallback(ch: char) -> (r: Option<&'static str>)
    ensures
        match r {
            Some(s) => 0x2800 <= ch as u32 <= 0x28FF && s@ == shade(dot_count(ch as u32 - 0x2800)),
            None => !(0x2800 <= ch as u32 <= 0x28FF),
        },
{
    let u = ch as u32;
    if !(0x2800 <= u && u <= 0x28FF) {
        return None;
    }
    let bits = u - 0x2800;
    let mut rest: u32 = bits;
    let mut dots: u32 = 0;
    proof {
        lemma_dot_count_bound(bits as int);
    }
    while rest > 0
        invariant
            rest <= bits <= 255,
            dots + dot_count(rest as int) == dot_count(bits as int),
            dots <= 255,
        decreases rest,
    {
        proof {
            lemma_dot_count_bound((rest / 2) as int);
            lemma_dot_count_bound(bits as int);
        }
        dots = dots + rest % 2;
        rest = rest / 2;
    }
    Some(
        if dots == 0 {
            " "
        } else if dots <= 2 {
            "."
        } else if dots <= 4 {
            ":"
        } else if dots <= 6 {
            "+"
        } else {
            "#"
        },
    )
}

} // verus!
