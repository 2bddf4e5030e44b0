//! Panels with depth, and the one horizon.
//!
//! Depth is elevation: raised things sit nearer the surface, the stage and
//! things put away sit deeper. Where the terminal paints grounds, depth is a
//! ground; where it cannot (16 colors, `NO_COLOR`, an unmeasured ground),
//! depth becomes an edge, because a fill nobody can see separates nothing.

use vstd::prelude::*;

use crate::color::ColorDepth;
use crate::components::hints::KeyHints;
use crate::glyphs::{self, pick_spec};
use crate::seqs::{chars_of, concat, cow_chars, string_of};
use crate::style::{line_of, sat_add, Line, LineView, Rect, Span, Style};
use crate::text::{cut_spec, display_safe, safe_text, str_width, truncate, width};
use crate::theme::{Role, Theme};

verus! {

/// How far from the surface a panel sits.
#[derive(Clone, Copy, Debug, PartialEq, Eq, Hash, Structural)]
pub enum Depth {
    /// Rails and things put away.
    Deep,
    /// The stage: full-screen sheets. No edge; a two-cell gutter.
    Stage,
    /// A card on the stage.
    Raised,
    /// A decision over everything else: always edged in `BorderStrong`.
    Overlay,
}

impl Depth {
    pub open spec fn ground_spec(self) -> Role {
        match self {
            Depth::Deep => Role::Sidebar,
            Depth::Stage => Role::Background,
            Depth::Raised | Depth::Overlay => Role::Surface,
        }
    }

    /// The ground a panel at this depth sits on.
    pub fn ground(self) -> (r: Role)
        ensures
            r == self.ground_spec(),
    {
        match self {
            Depth::Deep => Role::Sidebar,
            Depth::Stage => Role::Background,
            Depth::Raised | Depth::Overlay => Role::Surface,
        }
    }
}

/// `a - b`, or 0 below it.
pub open spec fn sub_or_zero(a: int, b: int) -> int {
    if a >= b { a - b } else { 0 }
}

/// The smaller of two integers.
pub open spec fn least(a: int, b: int) -> int {
    if a <= b { a } else { b }
}

/// A titled panel. [`Panel::draw`] lays it out and gives the content area.
#[derive(Clone, Debug)]
pub struct Panel<'a> {
    pub title: Option<String>,
    /// Muted text at the right of the title row: a count, "changed 2 min ago".
    pub aside: Option<String>,
    pub depth: Depth,
    /// Light the edge in `Primary`: this panel has the keyboard.
    pub focused: bool,
    pub hints: Option<&'a KeyHints>,
}

/// Whether a panel draws an edge: always over everything, for a raised
/// card only where grounds do not paint, never for rails or the stage.
pub open spec fn edged_spec(depth: Depth, theme: Theme) -> bool {
    match depth {
        Depth::Overlay => true,
        Depth::Raised => !theme.paints_grounds_spec(),
        Depth::Deep | Depth::Stage => false,
    }
}

/// The edge's role: `Primary` with the keyboard, else `BorderStrong` over
/// everything, else `Border`.
pub open spec fn edge_role(focused: bool, depth: Depth) -> Role {
    if focused {
        Role::Primary
    } else if depth == Depth::Overlay {
        Role::BorderStrong
    } else {
        Role::Border
    }
}

/// The area inside a one-cell edge on every side.
pub open spec fn bordered_inner(area: Rect) -> Rect {
    Rect {
        x: least(sat_add(area.x, 1) as int, area.right_spec() as int) as u16,
        y: least(sat_add(area.y, 1) as int, area.bottom_spec() as int) as u16,
        width: sub_or_zero(area.width as int, 2) as u16,
        height: sub_or_zero(area.height as int, 2) as u16,
    }
}

/// The side gutter: two cells on a wide stage, one where eight cells fit.
pub open spec fn gutter_spec(depth: Depth, width: int) -> int {
    if depth == Depth::Stage && width >= 24 {
        2
    } else if width >= 8 {
        1
    } else {
        0
    }
}

/// The area inside the gutter, and inside a row of padding above and below
/// an edged panel of six rows or more.
pub open spec fn padded(inner: Rect, depth: Depth, edged: bool) -> Rect {
    let gutter = gutter_spec(depth, inner.width as int);
    let vpad = if edged && inner.height >= 6 { 1int } else { 0 };
    Rect {
        x: (inner.x + gutter) as u16,
        y: (inner.y + vpad) as u16,
        width: sub_or_zero(inner.width as int, gutter * 2) as u16,
        height: sub_or_zero(inner.height as int, vpad * 2) as u16,
    }
}

/// The edge a panel draws: ASCII `+`, `|` and `-`, or plain box lines.
#[derive(Clone, Copy, Debug, PartialEq, Eq, Structural)]
pub struct PanelBorder {
    pub ascii: bool,
    pub style: Style,
}

/// What [`Panel::draw`] paints, in order: clear `area` and lay `ground`
/// over it, draw the border around it, the title and aside on their row,
/// and the hint lines in their rail. `inner` is what is left for content.
pub struct PanelDrawing {
    pub area: Rect,
    pub ground: Style,
    pub border: Option<PanelBorder>,
    pub title: Option<(Rect, Line)>,
    pub aside: Option<(Rect, Line)>,
    pub hints: Option<(Rect, Vec<Line>)>,
    pub inner: Rect,
}

/// The title row's part of a panel: the title and the aside lines, and the
/// content area after the title takes its row (and a blank row under it
/// when six rows or more are left).
pub open spec fn title_part(
    title: Option<String>,
    aside: Option<String>,
    inner: Rect,
    theme: Theme,
) -> (Option<(Rect, LineView)>, Option<(Rect, LineView)>, Rect) {
    match title {
        Some(t) => if inner.height > 0 {
            let row = Rect { height: 1, ..inner };
            let aside_w = match aside {
                Some(a) => crate::style::capped(str_width(safe_text(a@)) + 2int),
                None => 0,
            };
            let title_w = sub_or_zero(row.width as int, aside_w);
            let title_line = line_of(
                seq![(cut_spec(safe_text(t@), title_w, theme.ascii_spec(), false), Style { bold: true, ..theme.fg_spec(Role::Foreground) })],
            );
            let aside_line = match aside {
                Some(a) => if aside_w > 0 && aside_w <= row.width {
                    Some((row, LineView { alignment: Some(crate::style::Alignment::Right), ..line_of(seq![(safe_text(a@), theme.fg_spec(Role::Muted))]) }))
                } else {
                    None
                },
                None => None,
            };
            let used = if inner.height >= 6 { 2int } else { 1 };
            let after = Rect {
                y: (inner.y + least(used, inner.height as int)) as u16,
                height: sub_or_zero(inner.height as int, used) as u16,
                ..inner
            };
            (Some((row, title_line)), aside_line, after)
        } else {
            (None, None, inner)
        },
        None => (None, None, inner),
    }
}

/// The hint rail's part of a panel: the hints laid out at the content
/// width, as many lines as fit, at the bottom of the content area, and the
/// content area above them (with a blank row between when four rows are
/// left over).
pub open spec fn hints_part(hints: Option<&KeyHints>, inner: Rect, theme: Theme) -> (Option<(Rect, Seq<LineView>)>, Rect) {
    match hints {
        Some(h) => {
            let lines = h.lines_spec(inner.width, theme);
            let n = least(least(lines.len() as int, u16::MAX as int), inner.height as int);
            if n > 0 {
                let rail = Rect { y: (inner.bottom_spec() - n) as u16, height: n as u16, ..inner };
                let gap = if inner.height >= n + 4 { 1int } else { 0 };
                (Some((rail, lines)), Rect { height: sub_or_zero(inner.height as int, n + gap) as u16, ..inner })
            } else {
                (None, inner)
            }
        },
        None => (None, inner),
    }
}

/// Whether `inner` lies within `outer`.
pub open spec fn within(inner: Rect, outer: Rect) -> bool {
    &&& outer.x <= inner.x
    &&& inner.x + inner.width <= outer.x + outer.width
    &&& outer.y <= inner.y
    &&& inner.y + inner.height <= outer.y + outer.height
}

/// The area a panel leaves for content in a non-empty `area`: inside its
/// edge, gutter and padding, below its title row and above its hint rail.
pub open spec fn content_area(panel: Panel, area: Rect, theme: Theme) -> Rect {
    let edged = edged_spec(panel.depth, theme);
    let body = padded(if edged { bordered_inner(area) } else { area }, panel.depth, edged);
    let after_title = title_part(panel.title, panel.aside, body, theme).2;
    hints_part(panel.hints, after_title, theme).1
}

/// A panel's content stays inside the panel: whatever its depth, title,
/// aside and hints, the area [`Panel::draw`] leaves for content lies within
/// the area it was given.
pub proof fn law_panel_content_stays_inside(panel: Panel, area: Rect, theme: Theme)
    requires
        area.fits(),
    ensures
        within(content_area(panel, area, theme), area),
{
    let edged = edged_spec(panel.depth, theme);
    let framed = if edged { bordered_inner(area) } else { area };
    let body = padded(framed, panel.depth, edged);
    assert(within(framed, area));
    assert(within(body, framed));
    let after_title = title_part(panel.title, panel.aside, body, theme).2;
    assert(within(after_title, body));
    assert(within(hints_part(panel.hints, after_title, theme).1, after_title));
}

impl<'a> Panel<'a> {
    pub fn new(depth: Depth) -> (p: Self)
        ensures
            p.title is None,
            p.aside is None,
            p.depth == depth,
            !p.focused,
            p.hints is None,
    {
        Panel { title: None, aside: None, depth, focused: false, hints: None }
    }

    pub fn title(self, title: &str) -> (p: Self)
        ensures
            p.title matches Some(t) && t@ == title@,
            p.aside == self.aside,
            p.depth == self.depth,
            p.focused == self.focused,
            p.hints == self.hints,
    {
        Panel { title: Some(title.to_owned()), ..self }
    }

    pub fn aside(self, aside: &str) -> (p: Self)
        ensures
            p.aside matches Some(a) && a@ == aside@,
            p.title == self.title,
            p.depth == self.depth,
            p.focused == self.focused,
            p.hints == self.hints,
    {
        Panel { aside: Some(aside.to_owned()), ..self }
    }

    pub fn focused(self, focused: bool) -> (p: Self)
        ensures
            p.focused == focused,
            p.title == self.title,
            p.aside == self.aside,
            p.depth == self.depth,
            p.hints == self.hints,
    {
        Panel { focused, ..self }
    }

    pub fn hints(self, hints: &'a KeyHints) -> (p: Self)
        ensures
            p.hints == Some(hints),
            p.title == self.title,
            p.aside == self.aside,
            p.depth == self.depth,
            p.focused == self.focused,
    {
        Panel { hints: Some(hints), ..self }
    }

    fn edged(&self, theme: &Theme) -> (b: bool)
        ensures
            b == edged_spec(self.depth, *theme),
    {
        match self.depth {
            Depth::Overlay => true,
            Depth::Raised => !theme.paints_grounds(),
            Depth::Deep | Depth::Stage => false,
        }
    }

    /// The content area inside the edge (where there is one), the gutter
    /// and the padding, and the edge itself.
    fn body(&self, area: Rect, ground: Style, theme: &Theme) -> (r: (Rect, Option<PanelBorder>))
        requires
            area.fits(),
        ensures
            ({
                let edged = edged_spec(self.depth, *theme);
                &&& r.0 == padded(if edged { bordered_inner(area) } else { area }, self.depth, edged)
                &&& r.1 == (if edged {
                    Some(PanelBorder {
                        ascii: theme.ascii_spec(),
                        style: theme.fg_spec(edge_role(self.focused, self.depth)).patch_spec(ground),
                    })
                } else {
                    None
                })
                &&& r.0.fits()
            }),
    {
        let edged = self.edged(theme);
        let mut inner = area;
        let mut border = None;
        if edged {
            let edge_role = if self.focused {
                Role::Primary
            } else if self.depth == Depth::Overlay {
                Role::BorderStrong
            } else {
                Role::Border
            };
            border = Some(PanelBorder { ascii: theme.ascii(), style: theme.fg(edge_role).patch(ground) });
            let right = area.right();
            let bottom = area.bottom();
            let x1 = area.x.saturating_add(1);
            let y1 = area.y.saturating_add(1);
            inner = Rect {
                x: if x1 < right { x1 } else { right },
                y: if y1 < bottom { y1 } else { bottom },
                width: area.width.saturating_sub(2),
                height: area.height.saturating_sub(2),
            };
        }
        let gutter: u16 = if self.depth == Depth::Stage && inner.width >= 24 {
            2
        } else if inner.width >= 8 {
            1
        } else {
            0
        };
        let vpad: u16 = if edged && inner.height >= 6 { 1 } else { 0 };
        let body = Rect {
            x: inner.x + gutter,
            y: inner.y + vpad,
            width: inner.width.saturating_sub(gutter * 2),
            height: inner.height.saturating_sub(vpad * 2),
        };
        (body, border)
    }

    /// The title row: the title (and the aside, where it fits) and the
    /// content area below them.
    fn title_row(&self, inner: Rect, theme: &Theme) -> (r: (Option<(Rect, Line)>, Option<(Rect, Line)>, Rect))
        requires
            inner.fits(),
        ensures
            ({
                let (title, aside, after) = title_part(self.title, self.aside, inner, *theme);
                &&& match (r.0, title) {
                    (Some((rr, l)), Some((sr, sl))) => rr == sr && l@ == sl,
                    (None, None) => true,
                    _ => false,
                }
                &&& match (r.1, aside) {
                    (Some((rr, l)), Some((sr, sl))) => rr == sr && l@ == sl,
                    (None, None) => true,
                    _ => false,
                }
                &&& r.2 == after
                &&& r.2.fits()
            }),
    {
        let mut inner = inner;
        let mut title_out: Option<(Rect, Line)> = None;
        let mut aside_out: Option<(Rect, Line)> = None;
        if let Some(title) = &self.title {
            if inner.height > 0 {
                let row = Rect { height: 1, ..inner };
                let ascii = theme.ascii();
                let safe_title = display_safe(title.as_str());
                let aside_w: usize = match &self.aside {
                    Some(a) => {
                        let safe_aside = display_safe(a.as_str());
                        let aside_text = string_of(cow_chars(&safe_aside).as_slice());
                        width(aside_text.as_str()).saturating_add(2)
                    },
                    None => 0,
                };
                let title_w = (row.width as usize).saturating_sub(aside_w);
                let title_text = string_of(cow_chars(&safe_title).as_slice());
                let cut = truncate(title_text.as_str(), title_w, ascii);
                let spans = vec![Span::styled(string_of(cow_chars(&cut).as_slice()), theme.fg(Role::Foreground).bold())];
                assert(crate::style::span_views(spans@) =~= seq![(cut@, Style { bold: true, ..theme.fg_spec(Role::Foreground) })]);
                let title_line = Line::from_spans(spans);
                title_out = Some((row, title_line));
                if let Some(a) = &self.aside {
                    if aside_w > 0 && aside_w <= row.width as usize {
                        let safe_aside = display_safe(a.as_str());
                        let spans = vec![Span::styled(string_of(cow_chars(&safe_aside).as_slice()), theme.fg(Role::Muted))];
                        assert(crate::style::span_views(spans@) =~= seq![(safe_aside@, theme.fg_spec(Role::Muted))]);
                        aside_out = Some((row, Line::from_spans(spans).right_aligned()));
                    }
                }
                let used: u16 = if inner.height >= 6 { 2 } else { 1 };
                inner.y = inner.y + if used < inner.height { used } else { inner.height };
                inner.height = inner.height.saturating_sub(used);
            }
        }
        (title_out, aside_out, inner)
    }

    /// The hint rail at the bottom of the content area, and what is left
    /// above it.
    fn hint_rail(&self, inner: Rect, theme: &Theme) -> (r: (Option<(Rect, Vec<Line>)>, Rect))
        requires
            inner.fits(),
        ensures
            ({
                let (rail, after) = hints_part(self.hints, inner, *theme);
                &&& match (r.0, rail) {
                    (Some((rr, ls)), Some((sr, sls))) => rr == sr && ls@.map_values(|l: Line| l@) == sls,
                    (None, None) => true,
                    _ => false,
                }
                &&& r.1 == after
            }),
    {
        let mut inner = inner;
        let mut hints_out: Option<(Rect, Vec<Line>)> = None;
        if let Some(hints) = self.hints {
            let lines = hints.lines(inner.width, theme);
            let count: u16 = if lines.len() < 65535 { lines.len() as u16 } else { u16::MAX };
            let h: u16 = if count < inner.height { count } else { inner.height };
            if h > 0 {
                let rail = Rect { y: inner.bottom() - h, height: h, ..inner };
                let gap: u16 = if inner.height as u32 >= h as u32 + 4 { 1 } else { 0 };
                hints_out = Some((rail, lines));
                inner.height = inner.height.saturating_sub(h + gap);
            }
        }
        (hints_out, inner)
    }

    /// Lay the panel out in `area`: its ground, its edge where depth needs
    /// one, the gutter and padding, the title row and the hint rail. The
    /// drawing's `inner` is the area left for content; an empty `area` is
    /// left as it is.
    pub fn draw(&self, area: Rect, theme: &Theme) -> (d: PanelDrawing)
        requires
            area.fits(),
        ensures
            area.is_empty_spec() ==> d.area == area && d.inner == area && d.border is None
                && d.title is None && d.aside is None && d.hints is None,
            !area.is_empty_spec() ==> {
                let edged = edged_spec(self.depth, *theme);
                let ground = theme.bg_spec(self.depth.ground_spec());
                let body = padded(if edged { bordered_inner(area) } else { area }, self.depth, edged);
                let (title, aside, after_title) = title_part(self.title, self.aside, body, *theme);
                let (rail, inner) = hints_part(self.hints, after_title, *theme);
                &&& inner == content_area(*self, area, *theme)
                &&& d.area == area
                &&& d.ground == ground
                &&& d.border == (if edged {
                    Some(PanelBorder {
                        ascii: theme.ascii_spec(),
                        style: theme.fg_spec(edge_role(self.focused, self.depth)).patch_spec(ground),
                    })
                } else {
                    None
                })
                &&& match (d.title, title) {
                    (Some((r, l)), Some((sr, sl))) => r == sr && l@ == sl,
                    (None, None) => true,
                    _ => false,
                }
                &&& match (d.aside, aside) {
                    (Some((r, l)), Some((sr, sl))) => r == sr && l@ == sl,
                    (None, None) => true,
                    _ => false,
                }
                &&& match (d.hints, rail) {
                    (Some((r, ls)), Some((sr, sls))) => r == sr && ls@.map_values(|l: Line| l@) == sls,
                    (None, None) => true,
                    _ => false,
                }
                &&& d.inner == inner
            },
    {
        if area.is_empty() {
            return PanelDrawing {
                area,
                ground: Style::new(),
                border: None,
                title: None,
                aside: None,
                hints: None,
                inner: area,
            };
        }
        let ground = theme.bg(self.depth.ground());
        let (body, border) = self.body(area, ground, theme);
        let (title, aside, after_title) = self.title_row(body, theme);
        let (hints, inner) = self.hint_rail(after_title, theme);
        PanelDrawing { area, ground, border, title, aside, hints, inner }
    }
}

/// The horizon: one full-width rule, drawn once per frame, above the place
/// where the person types. Sugimoto's seascapes, not a table border.
///
/// On a truecolor ground its ends fade into the ground, so it reads as a
/// horizon rather than a box edge. Everywhere else it is a plain `Border`
/// line; ASCII-safe terminals draw `-`.
#[derive(Clone, Debug)]
pub struct HorizonRule {
    /// Muted words at the left: what the space below is for.
    pub label: Option<String>,
    /// Muted words at the right.
    pub aside: Option<String>,
}

/// One cell of the rule. `fade` is `Some((n, d))` where the rule fades
/// into the ground: its color is `Border` mixed into `Background`, `n/d`
/// of it `Border`, so the outermost cell is faintest.
#[derive(Clone, Copy, Debug)]
pub struct RuleCell {
    pub x: u16,
    pub fade: Option<(u16, u16)>,
}

/// Words set on the rule: where they start, what they say, and how many
/// cells they may take.
#[derive(Clone, Debug)]
pub struct RuleText {
    pub x: u16,
    pub text: String,
    pub max_width: usize,
}

/// What a [`HorizonRule`] paints: `symbol` in `style` at every cell of
/// `row` (faded where a cell says so), then the label and the aside in
/// `words_style`.
pub struct HorizonDrawing {
    pub row: Rect,
    pub symbol: &'static str,
    pub style: Style,
    pub cells: Vec<RuleCell>,
    pub words_style: Style,
    pub label: Option<RuleText>,
    pub aside: Option<RuleText>,
}

/// How many cells fade at each end: an eighth of the width, at most six.
pub open spec fn ramp_spec(width: int) -> int {
    least(width / 8, 6)
}

/// Whether the ends fade: only on a truecolor terminal that paints grounds.
pub open spec fn fades(theme: Theme) -> bool {
    theme.depth_spec() == ColorDepth::TrueColor && theme.paints_grounds_spec()
}

/// The fade of cell `i` of a rule `width` cells wide.
pub open spec fn cell_fade(i: int, width: int, ramp: int, fade: bool) -> Option<(u16, u16)> {
    let from_edge = least(i, width - 1 - i);
    if fade && ramp > 0 && from_edge < ramp {
        Some(((from_edge + 1) as u16, (ramp + 1) as u16))
    } else {
        None
    }
}

/// The margin words keep from each end: the ramp, at least two cells.
pub open spec fn word_margin(ramp: int) -> int {
    if ramp > 2 { ramp } else { 2 }
}

/// The cells each of the label and the aside may take.
pub open spec fn word_budget(width: int, ramp: int) -> int {
    sub_or_zero(width, word_margin(ramp) * 2 + 4) / 2
}

/// Words on the rule: display-safe, cut to the budget, with a space on
/// each side.
pub open spec fn rule_words(words: Seq<char>, budget: int, ascii: bool) -> Seq<char> {
    " "@ + cut_spec(safe_text(words), budget, ascii, false) + " "@
}

/// The horizon fades only on a truecolor terminal that paints grounds, and
/// then both ends alike: a cell fades as its mirror image does.
pub proof fn law_horizon_fades_evenly(i: int, width: int, theme: Theme)
    requires
        0 <= i < width,
    ensures
        !fades(theme) ==> cell_fade(i, width, ramp_spec(width), fades(theme)) is None,
        cell_fade(i, width, ramp_spec(width), fades(theme)) == cell_fade(
            width - 1 - i,
            width,
            ramp_spec(width),
            fades(theme),
        ),
{
}

impl HorizonRule {
    pub fn new() -> (r: Self)
        ensures
            r.label is None,
            r.aside is None,
    {
        HorizonRule { label: None, aside: None }
    }

    pub fn label(self, label: &str) -> (r: Self)
        ensures
            r.label matches Some(l) && l@ == label@,
            r.aside == self.aside,
    {
        HorizonRule { label: Some(label.to_owned()), ..self }
    }

    pub fn aside(self, aside: &str) -> (r: Self)
        ensures
            r.aside matches Some(a) && a@ == aside@,
            r.label == self.label,
    {
        HorizonRule { aside: Some(aside.to_owned()), ..self }
    }

    fn words(words: &String, budget: usize, ascii: bool) -> (r: String)
        ensures
            r@ == rule_words(words@, budget as int, ascii),
    {
        let safe = display_safe(words.as_str());
        let safe_text = string_of(cow_chars(&safe).as_slice());
        let cut = truncate(safe_text.as_str(), budget, ascii);
        let spaced = concat(concat(chars_of(" ").as_slice(), cow_chars(&cut).as_slice()).as_slice(), chars_of(" ").as_slice());
        string_of(spaced.as_slice())
    }

    /// What the rule paints in `area`: its first row, ruled end to end,
    /// with the label after the left margin and the aside before the right.
    pub fn draw(&self, area: Rect, theme: &Theme) -> (d: HorizonDrawing)
        requires
            area.fits(),
        ensures
            d.row == (Rect { height: 1, ..area }),
            d.symbol@ == pick_spec("─"@, theme.ascii_spec()),
            d.style == theme.fg_spec(Role::Border),
            d.words_style == theme.fg_spec(Role::Muted),
            area.is_empty_spec() ==> d.cells@.len() == 0 && d.label is None && d.aside is None,
            !area.is_empty_spec() ==> {
                let width = area.width as int;
                let ramp = ramp_spec(width);
                let margin = word_margin(ramp);
                let budget = word_budget(width, ramp);
                &&& d.cells@.len() == width
                &&& forall|i: int| 0 <= i < width ==> #[trigger] d.cells@[i] == (RuleCell {
                    x: (area.x + i) as u16,
                    fade: cell_fade(i, width, ramp, fades(*theme)),
                })
                &&& match self.label {
                    Some(l) => d.label matches Some(t) && {
                        let x = area.x + least(margin, width);
                        &&& t.x == x
                        &&& t.text@ == rule_words(l@, budget, theme.ascii_spec())
                        &&& t.max_width == area.right_spec() - x
                    },
                    None => d.label is None,
                }
                &&& match self.aside {
                    Some(a) => {
                        let text = rule_words(a@, budget, theme.ascii_spec());
                        let w = least(str_width(text) as int, u16::MAX as int);
                        let x = sub_or_zero(area.right_spec() as int, least(w + margin, u16::MAX as int));
                        if x > area.x {
                            d.aside matches Some(t) && t.x == x && t.text@ == text && t.max_width == w
                        } else {
                            d.aside is None
                        }
                    },
                    None => d.aside is None,
                }
            },
    {
        let row = Rect { height: 1, ..area };
        let ascii = theme.ascii();
        let symbol = glyphs::pick("─", ascii);
        let style = theme.fg(Role::Border);
        let words_style = theme.fg(Role::Muted);
        let mut cells: Vec<RuleCell> = Vec::new();
        if area.is_empty() {
            return HorizonDrawing { row, symbol, style, cells, words_style, label: None, aside: None };
        }
        let fade = theme.depth() == ColorDepth::TrueColor && theme.paints_grounds();
        let width = row.width;
        let eighth = width / 8;
        let ramp: u16 = if eighth < 6 { eighth } else { 6 };
        let mut i: u16 = 0;
        while i < width
            invariant
                i <= width,
                width == area.width,
                area.fits(),
                ramp == ramp_spec(width as int),
                fade == fades(*theme),
                cells@.len() == i,
                forall|j: int| 0 <= j < i ==> #[trigger] cells@[j] == (RuleCell {
                    x: (area.x + j) as u16,
                    fade: cell_fade(j, width as int, ramp as int, fade),
                }),
            decreases width - i,
        {
            let back = width - 1 - i;
            let from_edge = if i < back { i } else { back };
            let cell_fade = if fade && ramp > 0 && from_edge < ramp {
                Some((from_edge + 1, ramp + 1))
            } else {
                None
            };
            cells.push(RuleCell { x: area.x + i, fade: cell_fade });
            i = i + 1;
        }
        let margin: u16 = if ramp > 2 { ramp } else { 2 };
        let budget = (width.saturating_sub(margin * 2 + 4) / 2) as usize;
        let label = match &self.label {
            Some(l) => {
                let text = Self::words(l, budget, ascii);
                let x = row.x + if margin < width { margin } else { width };
                Some(RuleText { x, text, max_width: (row.right() - x) as usize })
            },
            None => None,
        };
        let aside = match &self.aside {
            Some(a) => {
                let text = Self::words(a, budget, ascii);
                let tw = crate::text::width(text.as_str());
                let w: u16 = if tw < 65535 { tw as u16 } else { u16::MAX };
                let x = row.right().saturating_sub(w.saturating_add(margin));
                if x > row.x {
                    Some(RuleText { x, text, max_width: w as usize })
                } else {
                    None
                }
            },
            None => None,
        };
        HorizonDrawing { row, symbol, style, cells, words_style, label, aside }
    }
}

/// A centered popup rect: starts from the preferred size, never exceeds the
/// frame (keeping a one-cell margin when it can), and never drops below the
/// minimum unless the frame is smaller.
pub open spec fn centered_spec(area: Rect, preferred_width: u16, preferred_height: u16, min_width: u16, min_height: u16) -> Rect {
    let avail_w = if area.width > 3 { area.width - 2 } else { 1int };
    let avail_h = if area.height > 3 { area.height - 2 } else { 1int };
    let lo_w = least(min_width as int, avail_w);
    let lo_h = least(min_height as int, avail_h);
    let width = if preferred_width < lo_w { lo_w } else if preferred_width > avail_w { avail_w } else { preferred_width as int };
    let height = if preferred_height < lo_h { lo_h } else if preferred_height > avail_h { avail_h } else { preferred_height as int };
    Rect {
        x: (area.x + sub_or_zero(area.width as int, width) / 2) as u16,
        y: (area.y + sub_or_zero(area.height as int, height) / 2) as u16,
        width: width as u16,
        height: height as u16,
    }
}

/// A centered popup stays inside a non-empty frame, with a one-cell margin
/// on every side where the frame is three cells or more across (or high);
/// it is never wider or taller than that room, and never smaller than the
/// minimum the room allows.
pub proof fn law_centered_stays_in_the_frame(
    area: Rect,
    preferred_width: u16,
    preferred_height: u16,
    min_width: u16,
    min_height: u16,
)
    requires
        area.fits(),
        area.width >= 1,
        area.height >= 1,
    ensures
        ({
            let r = centered_spec(area, preferred_width, preferred_height, min_width, min_height);
            let avail_w = if area.width > 3 { area.width - 2 } else { 1int };
            let avail_h = if area.height > 3 { area.height - 2 } else { 1int };
            &&& within(r, area)
            &&& area.width >= 3 ==> area.x + 1 <= r.x && r.x + r.width + 1 <= area.x + area.width
            &&& area.height >= 3 ==> area.y + 1 <= r.y && r.y + r.height + 1 <= area.y + area.height
            &&& least(min_width as int, avail_w) <= r.width <= avail_w
            &&& least(min_height as int, avail_h) <= r.height <= avail_h
        }),
{
}

pub fn centered(area: Rect, preferred_width: u16, preferred_height: u16, min_width: u16, min_height: u16) -> (r: Rect)
    requires
        area.fits(),
    ensures
        r == centered_spec(area, preferred_width, preferred_height, min_width, min_height),
{
    let sub_w = area.width.saturating_sub(2);
    let avail_width: u16 = if sub_w > 1 { sub_w } else { 1 };
    let sub_h = area.height.saturating_sub(2);
    let avail_height: u16 = if sub_h > 1 { sub_h } else { 1 };
    let lo_w = if min_width < avail_width { min_width } else { avail_width };
    let lo_h = if min_height < avail_height { min_height } else { avail_height };
    let width = if preferred_width < lo_w {
        lo_w
    } else if preferred_width > avail_width {
        avail_width
    } else {
        preferred_width
    };
    let height = if preferred_height < lo_h {
        lo_h
    } else if preferred_height > avail_height {
        avail_height
    } else {
        preferred_height
    };
    Rect {
        x: area.x + area.width.saturating_sub(width) / 2,
        y: area.y + area.height.saturating_sub(height) / 2,
        width,
        height,
    }
}

} // verus!
