//! The plain values components compute: colors, styles, rectangles, spans
//! and lines, and the drawing operations a component asks for.

use vstd::prelude::*;

use crate::text::{str_width, width};

verus! {

/// A terminal color: reset, one of the sixteen named colors the terminal's
/// profile decides, a 24-bit color, or an xterm 256-color index.
#[derive(Clone, Copy, Debug, PartialEq, Eq, Structural)]
pub enum Color {
    Reset,
    Black,
    Red,
    Green,
    Yellow,
    Blue,
    Magenta,
    Cyan,
    Gray,
    DarkGray,
    LightRed,
    LightGreen,
    LightYellow,
    LightBlue,
    LightMagenta,
    LightCyan,
    White,
    Rgb(u8, u8, u8),
    Indexed(u8),
}


/// Foreground, background and the two modifiers the components use. `None`
/// leaves the terminal's own color.
#[derive(Clone, Copy, Debug, PartialEq, Eq, Structural)]
pub struct Style {
    pub fg: Option<Color>,
    pub bg: Option<Color>,
    pub bold: bool,
    pub dim: bool,
}

impl Style {
    /// The empty style: nothing set.
    pub open spec fn plain() -> Style {
        Style { fg: None, bg: None, bold: false, dim: false }
    }

    /// The empty style.
    pub fn new() -> (s: Style)
        ensures
            s == Style::plain(),
    {
        Style { fg: None, bg: None, bold: false, dim: false }
    }

    /// This style with `color` as foreground.
    pub fn fg(self, color: Color) -> (s: Style)
        ensures
            s == (Style { fg: Some(color), ..self }),
    {
        Style { fg: Some(color), ..self }
    }

    /// This style with `color` as background.
    pub fn bg(self, color: Color) -> (s: Style)
        ensures
            s == (Style { bg: Some(color), ..self }),
    {
        Style { bg: Some(color), ..self }
    }

    /// This style, bold.
    pub fn bold(self) -> (s: Style)
        ensures
            s == (Style { bold: true, ..self }),
    {
        Style { bold: true, ..self }
    }

    /// This style, dimmed.
    pub fn dim(self) -> (s: Style)
        ensures
            s == (Style { dim: true, ..self }),
    {
        Style { dim: true, ..self }
    }

    pub open spec fn patch_spec(self, other: Style) -> Style {
        Style {
            fg: if other.fg is Some { other.fg } else { self.fg },
            bg: if other.bg is Some { other.bg } else { self.bg },
            bold: self.bold || other.bold,
            dim: self.dim || other.dim,
        }
    }

    /// `other` laid over this style: its colors win where set, and
    /// modifiers add up.
    pub fn patch(self, other: Style) -> (s: Style)
        ensures
            s == self.patch_spec(other),
    {
        Style {
            fg: if other.fg.is_some() { other.fg } else { self.fg },
            bg: if other.bg.is_some() { other.bg } else { self.bg },
            bold: self.bold || other.bold,
            dim: self.dim || other.dim,
        }
    }
}

/// A rectangle of terminal cells.
#[derive(Clone, Copy, Debug, PartialEq, Eq, Structural)]
pub struct Rect {
    pub x: u16,
    pub y: u16,
    pub width: u16,
    pub height: u16,
}

pub open spec fn sat_add(a: u16, b: u16) -> u16 {
    if a + b > u16::MAX { u16::MAX } else { (a + b) as u16 }
}

impl Rect {
    /// A rectangle at `(x, y)`, its width and height clamped so that its
    /// right and bottom edges stay within `u16`.
    pub fn new(x: u16, y: u16, width: u16, height: u16) -> (r: Rect)
        ensures
            r == (Rect { x, y, width: (sat_add(x, width) - x) as u16, height: (sat_add(y, height) - y) as u16 }),
            r.fits(),
    {
        Rect { x, y, width: x.saturating_add(width) - x, height: y.saturating_add(height) - y }
    }

    /// The right and bottom edges stay within `u16`, as for every
    /// rectangle [`Rect::new`] makes.
    pub open spec fn fits(self) -> bool {
        self.x + self.width <= u16::MAX && self.y + self.height <= u16::MAX
    }

    pub open spec fn right_spec(self) -> u16 {
        sat_add(self.x, self.width)
    }

    pub open spec fn bottom_spec(self) -> u16 {
        sat_add(self.y, self.height)
    }

    /// The first column right of the rectangle.
    #[verifier::when_used_as_spec(right_spec)]
    pub fn right(self) -> (r: u16)
        ensures
            r == self.right_spec(),
    {
        self.x.saturating_add(self.width)
    }

    /// The first row below the rectangle.
    #[verifier::when_used_as_spec(bottom_spec)]
    pub fn bottom(self) -> (r: u16)
        ensures
            r == self.bottom_spec(),
    {
        self.y.saturating_add(self.height)
    }

    pub open spec fn is_empty_spec(self) -> bool {
        self.width == 0 || self.height == 0
    }

    /// Whether the rectangle holds no cell.
    #[verifier::when_used_as_spec(is_empty_spec)]
    pub fn is_empty(self) -> (r: bool)
        ensures
            r == self.is_empty_spec(),
    {
        self.width == 0 || self.height == 0
    }
}

/// Text in one style.
#[derive(Clone, Debug)]
pub struct Span {
    pub content: String,
    pub style: Style,
}

impl View for Span {
    type V = (Seq<char>, Style);

    open spec fn view(&self) -> (Seq<char>, Style) {
        (self.content@, self.style)
    }
}

impl Span {
    pub fn styled(content: String, style: Style) -> (s: Span)
        ensures
            s.content == content,
            s.style == style,
    {
        Span { content, style }
    }

    pub fn raw(content: String) -> (s: Span)
        ensures
            s.content == content,
            s.style == Style::plain(),
    {
        Span { content, style: Style::new() }
    }
}

/// Where a line sits in the width it is given.
#[derive(Clone, Copy, Debug, PartialEq, Eq, Structural)]
pub enum Alignment {
    Left,
    Center,
    Right,
}

/// One row of spans, with a style under all of them.
#[derive(Clone, Debug)]
pub struct Line {
    pub spans: Vec<Span>,
    pub style: Style,
    pub alignment: Option<Alignment>,
}

/// The text of a run of spans.
pub open spec fn spans_text(spans: Seq<Span>) -> Seq<char>
    decreases spans.len(),
{
    if spans.len() == 0 {
        Seq::empty()
    } else {
        spans_text(spans.drop_last()) + spans.last().content@
    }
}

/// What a line shows: its spans' text and styles, the style under them,
/// and its alignment.
pub struct LineView {
    pub spans: Seq<(Seq<char>, Style)>,
    pub style: Style,
    pub alignment: Option<Alignment>,
}

/// `n`, capped at `usize::MAX`: what a saturating sum of counts holds.
pub open spec fn capped(n: int) -> int {
    if n > usize::MAX { usize::MAX as int } else { n }
}

/// The cells a run of spans takes.
pub open spec fn total_width(spans: Seq<(Seq<char>, Style)>) -> int
    decreases spans.len(),
{
    if spans.len() == 0 {
        0
    } else {
        total_width(spans.drop_last()) + str_width(spans.last().0)
    }
}

/// Appending a span adds its width.
pub proof fn lemma_total_width_push(spans: Seq<(Seq<char>, Style)>, x: (Seq<char>, Style))
    ensures
        total_width(spans.push(x)) == total_width(spans) + str_width(x.0),
        total_width(spans) >= 0,
    decreases spans.len(),
{
    assert(spans.push(x).drop_last() == spans);
    if spans.len() > 0 {
        lemma_total_width_push(spans.drop_last(), spans.last());
        assert(spans.drop_last().push(spans.last()) == spans);
    }
}


/// The views of a run of spans.
pub open spec fn span_views(spans: Seq<Span>) -> Seq<(Seq<char>, Style)> {
    spans.map_values(|s: Span| s@)
}

impl View for Line {
    type V = LineView;

    open spec fn view(&self) -> LineView {
        LineView { spans: span_views(self.spans@), style: self.style, alignment: self.alignment }
    }
}

/// A plain line of spans.
pub open spec fn line_of(spans: Seq<(Seq<char>, Style)>) -> LineView {
    LineView { spans, style: Style::plain(), alignment: None }
}

impl Line {
    pub fn from_spans(spans: Vec<Span>) -> (l: Line)
        ensures
            l.spans@ == spans@,
            l.style == Style::plain(),
            l.alignment is None,
            l@ == line_of(span_views(spans@)),
    {
        Line { spans, style: Style::new(), alignment: None }
    }

    /// The cells the line takes: the sum of its spans' widths (capped at
    /// `usize::MAX`).
    pub fn width(&self) -> (w: usize)
        ensures
            w == capped(total_width(self@.spans)),
    {
        let mut w: usize = 0;
        let mut i: usize = 0;
        while i < self.spans.len()
            invariant
                i <= self.spans@.len(),
                w == capped(total_width(span_views(self.spans@.take(i as int)))),
            decreases self.spans@.len() - i,
        {
            proof {
                lemma_total_width_push(span_views(self.spans@.take(i as int)), self.spans@[i as int]@);
                assert(span_views(self.spans@.take(i + 1)) =~= span_views(self.spans@.take(i as int)).push(self.spans@[i as int]@));
            }
            w = w.saturating_add(width(self.spans[i].content.as_str()));
            i = i + 1;
        }
        assert(self.spans@.take(self.spans@.len() as int) =~= self.spans@);
        w
    }

    /// This line under `style`.
    pub fn style(self, style: Style) -> (l: Line)
        ensures
            l@ == (LineView { style, ..self@ }),
    {
        Line { style, ..self }
    }

    /// This line right-aligned.
    pub fn right_aligned(self) -> (l: Line)
        ensures
            l@ == (LineView { alignment: Some(Alignment::Right), ..self@ }),
    {
        Line { alignment: Some(Alignment::Right), ..self }
    }

    /// This line centered.
    pub fn centered(self) -> (l: Line)
        ensures
            l@ == (LineView { alignment: Some(Alignment::Center), ..self@ }),
    {
        Line { alignment: Some(Alignment::Center), ..self }
    }

    pub open spec fn text_spec(&self) -> Seq<char> {
        spans_text(self.spans@)
    }

    /// The line's characters, without styles.
    pub fn text(&self) -> (s: String)
        ensures
            s@ == self.text_spec(),
    {
        let mut out: Vec<char> = Vec::new();
        let mut i: usize = 0;
        while i < self.spans.len()
            invariant
                i <= self.spans.len(),
                out@ == spans_text(self.spans@.take(i as int)),
            decreases self.spans.len() - i,
        {
            let part = crate::seqs::chars_of(self.spans[i].content.as_str());
            out = crate::seqs::concat(out.as_slice(), part.as_slice());
            assert(self.spans@.take(i + 1).drop_last() == self.spans@.take(i as int));
            i = i + 1;
        }
        assert(self.spans@.take(self.spans.len() as int) == self.spans@);
        crate::seqs::string_of(out.as_slice())
    }
}

} // verus!
