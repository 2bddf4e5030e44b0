//! Color depth and xterm 256-color quantization.

use vstd::prelude::*;

use crate::seqs::{chars_of, contains, contains_exec, lower_all, lower_all_exec, seq_eq};
use crate::style::Color;

verus! {

/// How many colors the terminal can show.
#[derive(Debug, Clone, Copy, PartialEq, Eq, Hash, Structural)]
pub enum ColorDepth {
    /// `NO_COLOR` is set: the terminal owns foreground and background. Bold,
    /// dim, underline and every glyph still render.
    Monochrome,
    /// 16 named colors, remapped by the user's terminal profile.
    Ansi16,
    /// The fixed xterm 256-color cube and gray ramp.
    Ansi256,
    /// 24-bit color.
    TrueColor,
}

/// The environment variables detection reads, as text (`None` when unset).
#[derive(Debug, Clone, Default)]
pub struct Environment {
    pub no_color: Option<String>,
    pub colorterm: Option<String>,
    pub wt_session: Option<String>,
    pub term_program: Option<String>,
    pub term: Option<String>,
    /// `CODEWHALE_ASCII_SAFE`.
    pub ascii_safe: Option<String>,
    /// `CODEWHALE_APPEARANCE`.
    pub appearance: Option<String>,
}

/// `value`, lowered, contains `needle`.
pub open spec fn mentions(value: Seq<char>, needle: Seq<char>) -> bool {
    contains(lower_all(value), needle)
}

/// The depth [`ColorDepth::detect_with`] decides. Order: `NO_COLOR`
/// (present and non-empty) wins, then `COLORTERM`, Windows Terminal, known
/// truecolor `TERM_PROGRAM`s, and finally `TERM`. An unknown `TERM` gets 256
/// colors, not 24-bit.
pub open spec fn depth_from_env(
    no_color: Option<Seq<char>>,
    colorterm: Option<Seq<char>>,
    wt_session: bool,
    term_program: Option<Seq<char>>,
    term: Option<Seq<char>>,
) -> ColorDepth {
    if no_color matches Some(v) && v.len() > 0 {
        ColorDepth::Monochrome
    } else if colorterm matches Some(ct) && (mentions(ct, "truecolor"@) || mentions(ct, "24bit"@)) {
        ColorDepth::TrueColor
    } else if wt_session {
        ColorDepth::TrueColor
    } else if term_program matches Some(tp) && (mentions(tp, "iterm"@) || mentions(tp, "wezterm"@)
        || mentions(tp, "vscode"@) || mentions(tp, "warp"@)) {
        ColorDepth::TrueColor
    } else {
        let t = match term {
            Some(t) => lower_all(t),
            None => Seq::empty(),
        };
        if contains(t, "truecolor"@) || contains(t, "24bit"@) {
            ColorDepth::TrueColor
        } else if contains(t, "256"@) {
            ColorDepth::Ansi256
        } else if t.len() == 0 || t == "dumb"@ {
            ColorDepth::Ansi16
        } else {
            ColorDepth::Ansi256
        }
    }
}

/// `NO_COLOR` wins over every other signal when it is set and non-empty;
/// an empty `NO_COLOR` is no request.
pub proof fn law_no_color_wins(
    no_color: Seq<char>,
    colorterm: Option<Seq<char>>,
    wt_session: bool,
    term_program: Option<Seq<char>>,
    term: Option<Seq<char>>,
)
    ensures
        no_color.len() > 0 ==> depth_from_env(Some(no_color), colorterm, wt_session, term_program, term)
            == ColorDepth::Monochrome,
        no_color.len() == 0 ==> depth_from_env(Some(no_color), colorterm, wt_session, term_program, term)
            == depth_from_env(None, colorterm, wt_session, term_program, term),
{
}

/// Terminals known to render 24-bit color are trusted by name: when
/// `NO_COLOR` asks for nothing, `COLORTERM` names no truecolor and no
/// Windows Terminal session is set, a `TERM_PROGRAM` naming iTerm, WezTerm,
/// VS Code or Warp (in any case) gets truecolor, whatever `TERM` says.
pub proof fn law_known_truecolor_programs(
    no_color: Option<Seq<char>>,
    colorterm: Option<Seq<char>>,
    term_program: Seq<char>,
    term: Option<Seq<char>>,
)
    requires
        no_color matches Some(v) ==> v.len() == 0,
        colorterm matches Some(ct) ==> !contains(lower_all(ct), "truecolor"@) && !contains(lower_all(ct), "24bit"@),
        contains(lower_all(term_program), "iterm"@) || contains(lower_all(term_program), "wezterm"@) || contains(
            lower_all(term_program),
            "vscode"@,
        ) || contains(lower_all(term_program), "warp"@),
    ensures
        depth_from_env(no_color, colorterm, false, Some(term_program), term) == ColorDepth::TrueColor,
{
}

/// With no other signal, `TERM` decides conservatively: unset, empty or
/// `dumb` gets 16 colors, a `TERM` naming 256 colors gets 256, a `TERM`
/// naming truecolor or 24-bit gets truecolor, and any other `TERM` gets
/// 256 colors, never 24-bit.
pub proof fn law_term_fallbacks(term: Option<Seq<char>>)
    ensures
        ({
            let d = depth_from_env(None, None, false, None, term);
            let t = match term {
                Some(t) => lower_all(t),
                None => Seq::empty(),
            };
            &&& (contains(t, "truecolor"@) || contains(t, "24bit"@)) ==> d == ColorDepth::TrueColor
            &&& !(contains(t, "truecolor"@) || contains(t, "24bit"@)) ==> d != ColorDepth::TrueColor
            &&& (t.len() == 0 || t == "dumb"@) && !contains(t, "256"@) ==> d == ColorDepth::Ansi16
            &&& d == ColorDepth::Ansi16 ==> t.len() == 0 || t == "dumb"@
            &&& d != ColorDepth::Monochrome
        }),
{
    reveal_strlit("dumb");
    reveal_strlit("truecolor");
    reveal_strlit("24bit");
}

pub open spec fn opt_view(v: Option<String>) -> Option<Seq<char>> {
    match v {
        Some(s) => Some(s@),
        None => None,
    }
}

fn mentions_exec(value: &String, needle: &str) -> (r: bool)
    ensures
        r == mentions(value@, needle@),
{
    let lowered = lower_all_exec(&chars_of(value.as_str()));
    contains_exec(&lowered, &chars_of(needle))
}

impl ColorDepth {
    /// Decide depth from the environment's values, so every branch is
    /// testable without touching the process environment.
    pub fn detect_with(env: &Environment) -> (d: ColorDepth)
        ensures
            d == depth_from_env(
                opt_view(env.no_color),
                opt_view(env.colorterm),
                env.wt_session is Some,
                opt_view(env.term_program),
                opt_view(env.term),
            ),
    {
        if let Some(no_color) = &env.no_color {
            if chars_of(no_color.as_str()).len() > 0 {
                return ColorDepth::Monochrome;
            }
        }
        if let Some(ct) = &env.colorterm {
            if mentions_exec(ct, "truecolor") || mentions_exec(ct, "24bit") {
                return ColorDepth::TrueColor;
            }
        }
        if env.wt_session.is_some() {
            return ColorDepth::TrueColor;
        }
        if let Some(tp) = &env.term_program {
            if mentions_exec(tp, "iterm") || mentions_exec(tp, "wezterm") || mentions_exec(tp, "vscode")
                || mentions_exec(tp, "warp") {
                return ColorDepth::TrueColor;
            }
        }
        let term = match &env.term {
            Some(t) => lower_all_exec(&chars_of(t.as_str())),
            None => Vec::new(),
        };
        if contains_exec(&term, &chars_of("truecolor")) || contains_exec(&term, &chars_of("24bit")) {
            ColorDepth::TrueColor
        } else if contains_exec(&term, &chars_of("256")) {
            ColorDepth::Ansi256
        } else if term.len() == 0 || seq_eq(term.as_slice(), chars_of("dumb").as_slice()) {
            ColorDepth::Ansi16
        } else {
            ColorDepth::Ansi256
        }
    }
}

/// The color a `0xRRGGBB` token value names.
pub open spec fn rgb_spec(hex: u32) -> Color {
    Color::Rgb(((hex / 65536) % 256) as u8, ((hex / 256) % 256) as u8, (hex % 256) as u8)
}

/// A 24-bit color from a `0xRRGGBB` token value.
pub fn rgb(hex: u32) -> (c: Color)
    ensures
        c == rgb_spec(hex),
{
    Color::Rgb(((hex / 65536) % 256) as u8, ((hex / 256) % 256) as u8, (hex % 256) as u8)
}

/// The RGB a color is known to render as.
pub open spec fn resolvable_rgb_spec(color: Color) -> Option<(u8, u8, u8)> {
    match color {
        Color::Rgb(r, g, b) => Some((r, g, b)),
        Color::Indexed(index) => indexed_rgb_spec(index),
        _ => None,
    }
}

/// The RGB a color is *known* to render as, or `None` when the terminal owns
/// the decision (`Reset`, named colors, indices 0..=15).
pub fn resolvable_rgb(color: Color) -> (r: Option<(u8, u8, u8)>)
    ensures
        r == resolvable_rgb_spec(color),
{
    match color {
        Color::Rgb(r, g, b) => Some((r, g, b)),
        Color::Indexed(index) => indexed_rgb(index),
        _ => None,
    }
}

/// The six channel levels of the fixed xterm 6x6x6 cube.
pub open spec fn cube_level(i: int) -> int {
    if i == 0 { 0 }
    else if i == 1 { 95 }
    else if i == 2 { 135 }
    else if i == 3 { 175 }
    else if i == 4 { 215 }
    else { 255 }
}

/// The RGB an xterm 256-color index renders as, for the fixed indices.
pub open spec fn indexed_rgb_spec(index: u8) -> Option<(u8, u8, u8)> {
    if index < 16 {
        None
    } else if index < 232 {
        let i = index - 16;
        Some((cube_level(i / 36) as u8, cube_level((i / 6) % 6) as u8, cube_level(i % 6) as u8))
    } else {
        let v = 8 + 10 * (index - 232);
        Some((v as u8, v as u8, v as u8))
    }
}

fn cube_level_exec(i: u8) -> (l: u8)
    requires
        i < 6,
    ensures
        l == cube_level(i as int),
{
    if i == 0 { 0 }
    else if i == 1 { 95 }
    else if i == 2 { 135 }
    else if i == 3 { 175 }
    else if i == 4 { 215 }
    else { 255 }
}

/// The RGB an xterm 256-color index renders as. Only 16..=255 are fixed by
/// the specification; 0..=15 belong to the user's profile.
pub fn indexed_rgb(index: u8) -> (r: Option<(u8, u8, u8)>)
    ensures
        r == indexed_rgb_spec(index),
{
    if index < 16 {
        None
    } else if index < 232 {
        let i = index - 16;
        Some((cube_level_exec(i / 36), cube_level_exec((i / 6) % 6), cube_level_exec(i % 6)))
    } else {
        let v = 8 + 10 * (index - 232);
        Some((v, v, v))
    }
}


pub open spec fn abs_diff(a: int, b: int) -> int {
    if a >= b { a - b } else { b - a }
}

/// `i` is the first of the six cube levels nearest to `channel`, as
/// `min_by_key` picks it.
pub open spec fn is_nearest_level(channel: int, i: int) -> bool {
    &&& 0 <= i < 6
    &&& forall|j: int| 0 <= j < 6 ==> abs_diff(channel, cube_level(i)) <= abs_diff(channel, cube_level(j))
    &&& forall|j: int| 0 <= j < i ==> abs_diff(channel, cube_level(j)) > abs_diff(channel, cube_level(i))
}

/// The nearest cube level, ties to the darker one.
pub open spec fn nearest_level(channel: int) -> int {
    if channel <= 47 { 0 }
    else if channel <= 115 { 1 }
    else if channel <= 155 { 2 }
    else if channel <= 195 { 3 }
    else if channel <= 235 { 4 }
    else { 5 }
}

pub proof fn lemma_nearest_level(channel: int)
    requires
        0 <= channel <= 255,
    ensures
        is_nearest_level(channel, nearest_level(channel)),
        forall|i: int| is_nearest_level(channel, i) ==> i == nearest_level(channel),
{
    let n = nearest_level(channel);
    assert forall|i: int| is_nearest_level(channel, i) implies i == n by {
        assert(abs_diff(channel, cube_level(i)) <= abs_diff(channel, cube_level(n)));
        if i > n {
            assert(abs_diff(channel, cube_level(n)) > abs_diff(channel, cube_level(i)));
        }
    }
}

proof fn lemma_squares_nonneg(x: int, y: int, z: int)
    ensures
        x * x + y * y + z * z >= 0,
        x != 0 ==> x * x + y * y + z * z > 0,
{
    assert(x * x >= 0 && y * y >= 0 && z * z >= 0) by (nonlinear_arith);
    assert(x != 0 ==> x * x > 0) by (nonlinear_arith);
}

pub open spec fn dist_sq(a: (int, int, int), b: (int, int, int)) -> int {
    (a.0 - b.0) * (a.0 - b.0) + (a.1 - b.1) * (a.1 - b.1) + (a.2 - b.2) * (a.2 - b.2)
}

/// Index into the 24-step gray ramp for a channel average.
pub open spec fn gray_step(avg: int) -> int {
    if avg <= 8 {
        0
    } else if avg >= 238 {
        23
    } else {
        let s = (avg - 8 + 5) / 10;
        if s < 23 { s } else { 23 }
    }
}

/// The xterm index nearest to an RGB triple among the fixed cube and gray
/// ramp: the gray step wins only when strictly closer than the cube color.
pub open spec fn rgb_to_ansi256_spec(r: u8, g: u8, b: u8) -> u8 {
    let (ri, gi, bi) = (nearest_level(r as int), nearest_level(g as int), nearest_level(b as int));
    let cube = (cube_level(ri), cube_level(gi), cube_level(bi));
    let gs = gray_step((r + g + b) / 3);
    let gray = 8 + 10 * gs;
    if dist_sq((r as int, g as int, b as int), (gray, gray, gray)) < dist_sq((r as int, g as int, b as int), cube) {
        (232 + gs) as u8
    } else {
        (16 + 36 * ri + 6 * gi + bi) as u8
    }
}

/// The first cube level nearest `channel`.
fn nearest_cube_level(channel: u8) -> (idx: u8)
    ensures
        idx as int == nearest_level(channel as int),
{
    let mut best: u8 = 0;
    let mut best_diff: u8 = channel;
    let mut i: u8 = 1;
    while i < 6
        invariant
            1 <= i <= 6,
            0 <= best < i,
            best_diff as int == abs_diff(channel as int, cube_level(best as int)),
            forall|j: int| 0 <= j < i ==> abs_diff(channel as int, cube_level(best as int)) <= abs_diff(channel as int, cube_level(j)),
            forall|j: int| 0 <= j < best ==> abs_diff(channel as int, cube_level(j)) > abs_diff(channel as int, cube_level(best as int)),
        decreases 6 - i,
    {
        let level = cube_level_exec(i);
        let diff = if channel >= level { channel - level } else { level - channel };
        if diff < best_diff {
            best = i;
            best_diff = diff;
        }
        i = i + 1;
    }
    proof {
        lemma_nearest_level(channel as int);
    }
    best
}

fn dist_sq_exec(a: (u8, u8, u8), b: (u8, u8, u8)) -> (d: u32)
    ensures
        d as int == dist_sq((a.0 as int, a.1 as int, a.2 as int), (b.0 as int, b.1 as int, b.2 as int)),
{
    let dr = (a.0 as i32) - (b.0 as i32);
    let dg = (a.1 as i32) - (b.1 as i32);
    let db = (a.2 as i32) - (b.2 as i32);
    assert(dr * dr <= 65025 && dg * dg <= 65025 && db * db <= 65025) by (nonlinear_arith)
        requires
            -255 <= dr <= 255,
            -255 <= dg <= 255,
            -255 <= db <= 255,
    ;
    assert(dr * dr >= 0 && dg * dg >= 0 && db * db >= 0) by (nonlinear_arith);
    (dr * dr + dg * dg + db * db) as u32
}

/// Map an RGB triple to the nearest xterm 256-color index. Uses only the
/// stable 6x6x6 cube and gray ramp (16..=255), never the user-remapped 0..=15.
pub fn rgb_to_ansi256(r: u8, g: u8, b: u8) -> (idx: u8)
    ensures
        idx == rgb_to_ansi256_spec(r, g, b),
        idx >= 16,
{
    let ri = nearest_cube_level(r);
    let gi = nearest_cube_level(g);
    let bi = nearest_cube_level(b);
    let cube_rgb = (cube_level_exec(ri), cube_level_exec(gi), cube_level_exec(bi));
    let cube_index = 16 + 36 * ri + 6 * gi + bi;

    let avg = ((r as u16 + g as u16 + b as u16) / 3) as u8;
    let gray_i: u8 = if avg <= 8 {
        0
    } else if avg >= 238 {
        23
    } else {
        let s = ((avg as u16) - 8 + 5) / 10;
        if s < 23 { s as u8 } else { 23 }
    };
    let gray = 8 + 10 * gray_i;
    let gray_index = 232 + gray_i;

    if dist_sq_exec((r, g, b), (gray, gray, gray)) < dist_sq_exec((r, g, b), cube_rgb) {
        gray_index
    } else {
        cube_index
    }
}

/// A color's channels as integers.
pub open spec fn channels(p: (u8, u8, u8)) -> (int, int, int) {
    (p.0 as int, p.1 as int, p.2 as int)
}

proof fn lemma_square_le(a: int, b: int)
    requires
        0 <= a <= b,
    ensures
        a * a <= b * b,
{
    assert(a * a <= b * b) by (nonlinear_arith)
        requires
            0 <= a <= b,
    ;
}

proof fn lemma_channel_nearest(x: int, j: int)
    requires
        0 <= x <= 255,
        0 <= j < 6,
    ensures
        (x - cube_level(nearest_level(x))) * (x - cube_level(nearest_level(x))) <= (x - cube_level(j)) * (x
            - cube_level(j)),
{
    lemma_nearest_level(x);
    let a = abs_diff(x, cube_level(nearest_level(x)));
    let b = abs_diff(x, cube_level(j));
    lemma_square_le(a, b);
    assert(a * a == (x - cube_level(nearest_level(x))) * (x - cube_level(nearest_level(x)))) by (nonlinear_arith)
        requires
            a == x - cube_level(nearest_level(x)) || a == cube_level(nearest_level(x)) - x,
    ;
    assert(b * b == (x - cube_level(j)) * (x - cube_level(j))) by (nonlinear_arith)
        requires
            b == x - cube_level(j) || b == cube_level(j) - x,
    ;
}

/// The distance to a gray `(v, v, v)`, expanded.
proof fn lemma_sq_expand(x: int, v: int)
    ensures
        (x - v) * (x - v) == x * x - 2 * (v * x) + v * v,
{
    assert((x - v) * (x - v) == x * x - 2 * (v * x) + v * v) by (nonlinear_arith);
}

proof fn lemma_gray_dist(r: int, g: int, b: int, v: int)
    ensures
        dist_sq((r, g, b), (v, v, v)) == r * r + g * g + b * b - 2 * (v * (r + g + b)) + 3 * (v * v),
{
    lemma_sq_expand(r, v);
    lemma_sq_expand(g, v);
    lemma_sq_expand(b, v);
    assert(v * (r + g + b) == v * r + v * g + v * b) by (nonlinear_arith);
}

/// The chosen gray is the nearest of the 24 on the ramp.
#[verifier::spinoff_prover]
proof fn lemma_gray_nearest(r: u8, g: u8, b: u8, k: int)
    requires
        0 <= k < 24,
    ensures
        ({
            let c = (r as int, g as int, b as int);
            let big = 8 + 10 * gray_step((r + g + b) / 3);
            dist_sq(c, (big, big, big)) <= dist_sq(c, (8 + 10 * k, 8 + 10 * k, 8 + 10 * k))
        }),
{
    let sum = r + g + b;
    let avg = sum / 3;
    let st = gray_step(avg);
    let big = 8 + 10 * st;
    let y = 8 + 10 * k;
    assert(3 * avg <= sum <= 3 * avg + 2);
    assert(0 <= st <= 23);
    assert(st > 0 ==> avg >= 10 * st + 3);
    assert(st < 23 ==> avg <= 10 * st + 12);
    lemma_gray_dist(r as int, g as int, b as int, big);
    lemma_gray_dist(r as int, g as int, b as int, y);
    assert((3 * (big * big) - 2 * (big * sum)) - (3 * (y * y) - 2 * (y * sum)) == (big - y) * (3 * (big + y) - 2
        * sum)) by (nonlinear_arith);
    if k > st {
        assert((big - y) * (3 * (big + y) - 2 * sum) <= 0) by (nonlinear_arith)
            requires
                big - y < 0,
                3 * (big + y) - 2 * sum > 0,
        ;
    } else if k < st {
        assert((big - y) * (3 * (big + y) - 2 * sum) <= 0) by (nonlinear_arith)
            requires
                big - y > 0,
                3 * (big + y) - 2 * sum <= 0,
        ;
    }
}

/// The cube color a triple maps to, and its index.
pub open spec fn cube_of(r: u8, g: u8, b: u8) -> (int, int, int) {
    (cube_level(nearest_level(r as int)), cube_level(nearest_level(g as int)), cube_level(nearest_level(b as int)))
}

pub open spec fn cube_index_of(r: u8, g: u8, b: u8) -> int {
    16 + 36 * nearest_level(r as int) + 6 * nearest_level(g as int) + nearest_level(b as int)
}

/// The gray a triple maps to.
pub open spec fn gray_of(r: u8, g: u8, b: u8) -> int {
    8 + 10 * gray_step((r + g + b) / 3)
}

#[verifier::spinoff_prover]
proof fn lemma_candidates(r: u8, g: u8, b: u8)
    ensures
        indexed_rgb_spec(cube_index_of(r, g, b) as u8) matches Some(p) && channels(p) == cube_of(r, g, b),
        indexed_rgb_spec((232 + gray_step((r + g + b) / 3)) as u8) matches Some(p) && channels(p) == (
            gray_of(r, g, b),
            gray_of(r, g, b),
            gray_of(r, g, b),
        ),
        rgb_to_ansi256_spec(r, g, b) == (if dist_sq((r as int, g as int, b as int), (gray_of(r, g, b), gray_of(r, g, b), gray_of(r, g, b)))
            < dist_sq((r as int, g as int, b as int), cube_of(r, g, b)) {
            (232 + gray_step((r + g + b) / 3)) as u8
        } else {
            cube_index_of(r, g, b) as u8
        }),
{
    let (ri, gi, bi) = (nearest_level(r as int), nearest_level(g as int), nearest_level(b as int));
    let ci = cube_index_of(r, g, b);
    assert(0 <= ri < 6 && 0 <= gi < 6 && 0 <= bi < 6);
    assert((ci - 16) / 36 == ri && ((ci - 16) / 6) % 6 == gi && (ci - 16) % 6 == bi);
    assert(0 <= gray_step((r + g + b) / 3) <= 23);
}

proof fn lemma_cube_candidate(r: u8, g: u8, b: u8, j: u8)
    requires
        16 <= j < 232,
    ensures
        indexed_rgb_spec(j) matches Some(q) && dist_sq((r as int, g as int, b as int), cube_of(r, g, b)) <= dist_sq(
            (r as int, g as int, b as int),
            channels(q),
        ),
{
    let i = j - 16;
    let (a, bb, cc) = (i / 36, (i / 6) % 6, i % 6);
    assert(0 <= a < 6 && 0 <= bb < 6 && 0 <= cc < 6);
    lemma_channel_nearest(r as int, a);
    lemma_channel_nearest(g as int, bb);
    lemma_channel_nearest(b as int, cc);
}

proof fn lemma_gray_candidate(r: u8, g: u8, b: u8, j: u8)
    requires
        232 <= j,
    ensures
        indexed_rgb_spec(j) matches Some(q) && dist_sq(
            (r as int, g as int, b as int),
            (gray_of(r, g, b), gray_of(r, g, b), gray_of(r, g, b)),
        ) <= dist_sq((r as int, g as int, b as int), channels(q)),
{
    lemma_gray_nearest(r, g, b, j - 232);
}

/// The xterm index a triple maps to is the nearest fixed one: no index in
/// 16..=255 renders nearer to it (by squared distance), and the result is
/// never one of the user-remapped 0..=15.
#[verifier::spinoff_prover]
pub proof fn law_ansi256_is_nearest(r: u8, g: u8, b: u8, j: u8)
    requires
        j >= 16,
    ensures
        rgb_to_ansi256_spec(r, g, b) >= 16,
        indexed_rgb_spec(rgb_to_ansi256_spec(r, g, b)) matches Some(p) && indexed_rgb_spec(j) matches Some(q)
            && dist_sq((r as int, g as int, b as int), channels(p)) <= dist_sq(
            (r as int, g as int, b as int),
            channels(q),
        ),
{
    lemma_candidates(r, g, b);
    if j < 232 {
        lemma_cube_candidate(r, g, b, j);
    } else {
        lemma_gray_candidate(r, g, b, j);
    }
}

/// Every fixed index survives the round trip: the RGB it renders as maps
/// back to an index that renders as the same RGB.
#[verifier::spinoff_prover]
#[verifier::rlimit(40)]
pub proof fn law_ansi256_round_trips(index: u8)
    requires
        index >= 16,
    ensures
        indexed_rgb_spec(index) matches Some((r, g, b)) && indexed_rgb_spec(rgb_to_ansi256_spec(r, g, b)) == Some((r, g, b)),
{
    if index < 232 {
        let i = (index - 16) as int;
        let (a, b, c) = (i / 36, (i / 6) % 6, i % 6);
        assert(0 <= a < 6 && 0 <= b < 6 && 0 <= c < 6);
        assert(nearest_level(cube_level(a)) == a);
        assert(nearest_level(cube_level(b)) == b);
        assert(nearest_level(cube_level(c)) == c);
        assert(16 + 36 * a + 6 * b + c == index);
        let (r, g, bl) = (cube_level(a) as u8, cube_level(b) as u8, cube_level(c) as u8);
        assert(0 <= cube_level(a) <= 255 && 0 <= cube_level(b) <= 255 && 0 <= cube_level(c) <= 255);
        assert(r == cube_level(a) && g == cube_level(b) && bl == cube_level(c));
        assert(indexed_rgb_spec(index) == Some((r, g, bl)));
        let gs = gray_step((r + g + bl) / 3);
        let gray = 8 + 10 * gs;
        lemma_squares_nonneg(r - gray, g - gray, bl - gray);
        assert(dist_sq((r as int, g as int, bl as int), (cube_level(a), cube_level(b), cube_level(c))) == 0);
        assert(rgb_to_ansi256_spec(r, g, bl) == index);
    } else {
        let k = (index - 232) as int;
        let v = 8 + 10 * k;
        assert((v + v + v) / 3 == v);
        assert(gray_step(v) == k);
        let ri = nearest_level(v);
        assert(cube_level(ri) != v);
        let c = cube_level(ri);
        lemma_squares_nonneg(v - c, v - c, v - c);
        assert(dist_sq((v, v, v), (v, v, v)) == 0);
        assert(indexed_rgb_spec(index) == Some((v as u8, v as u8, v as u8)));
        assert(rgb_to_ansi256_spec(v as u8, v as u8, v as u8) == 232 + k);
    }
}

} // verus!
