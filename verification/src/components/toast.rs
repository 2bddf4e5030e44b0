//! Toasts: one line, a mark and a sentence, stacked at the bottom right.
//!
//! How long a toast lives stays with the host: failures should stay until
//! the person has seen them.

use vstd::prelude::*;

use crate::components::status::{State, StatusMark};
use crate::glyphs::pick_spec;
use crate::seqs::{cow_chars, owned, string_of};
use crate::style::{capped, lemma_total_width_push, line_of, span_views, total_width, Line, LineView, Rect, Span, Style};
use crate::text::{cut_spec, display_safe, safe_text, str_width, truncate_words, width};
use crate::theme::{Role, Theme};

verus! {

/// One notice: `✓ Theme set to Shoreline`.
#[derive(Clone, Debug, PartialEq, Eq)]
pub struct Toast {
    pub state: State,
    pub text: String,
    /// Draws `→`: there is more to open.
    pub opens: bool,
}

/// The arrow a toast that opens ends with.
pub open spec fn arrow_spec(opens: bool, ascii: bool) -> Seq<char> {
    if opens {
        if ascii { " >"@ } else { " →"@ }
    } else {
        ""@
    }
}

/// The cells a toast's frame takes around its sentence: the margins, the
/// mark and its space, and the arrow.
pub open spec fn toast_fixed(state: State, opens: bool, ascii: bool) -> int {
    capped(
        capped(capped(capped(1int + str_width(pick_spec(state.glyph_spec(), ascii))) + 1) + str_width(
            arrow_spec(opens, ascii),
        )) + 1,
    )
}

impl Toast {
    pub fn new(state: State, text: &str) -> (t: Self)
        ensures
            t.state == state,
            t.text@ == text@,
            !t.opens,
    {
        Toast { state, text: owned(text), opens: false }
    }

    /// The same toast, marked as opening something more.
    pub fn opens(self) -> (t: Self)
        ensures
            t.state == self.state,
            t.text@ == self.text@,
            t.opens,
    {
        Toast { opens: true, ..self }
    }

    /// The spans of this toast in `max` cells: a margin, the state's mark
    /// in its hue, the sentence (display-safe, cut between words to fit
    /// beside the frame), the arrow when it opens, and a closing margin.
    pub open spec fn line_spec(&self, max: int, theme: Theme) -> Seq<(Seq<char>, Style)> {
        let ascii = theme.ascii_spec();
        let arrow = arrow_spec(self.opens, ascii);
        let room = if max >= toast_fixed(self.state, self.opens, ascii) {
            max - toast_fixed(self.state, self.opens, ascii)
        } else {
            0
        };
        let body = cut_spec(safe_text(self.text@), room, ascii, true);
        let head = seq![
            (" "@, Style::plain()),
            (pick_spec(self.state.glyph_spec(), ascii), theme.fg_spec(self.state.role_spec())),
            (" "@, Style::plain()),
            (body, theme.fg_spec(Role::Foreground)),
        ];
        let with_arrow = if self.opens { head.push((arrow, theme.fg_spec(Role::Muted))) } else { head };
        with_arrow.push((" "@, Style::plain()))
    }

    fn line(&self, max: usize, theme: &Theme) -> (l: Line)
        ensures
            l@ == line_of(self.line_spec(max as int, *theme)),
    {
        let mark = StatusMark::new(self.state);
        let glyph = mark.glyph(theme);
        let ascii = theme.ascii();
        let arrow: &str = if self.opens {
            if ascii { " >" } else { " →" }
        } else {
            ""
        };
        let fixed = 1usize.saturating_add(width(glyph)).saturating_add(1).saturating_add(width(arrow)).saturating_add(1);
        let safe = display_safe(self.text.as_str());
        let safe_body = string_of(cow_chars(&safe).as_slice());
        let body = truncate_words(safe_body.as_str(), max.saturating_sub(fixed), ascii);
        let mut spans = vec![
            Span::raw(owned(" ")),
            Span::styled(owned(glyph), theme.fg(self.state.role())),
            Span::raw(owned(" ")),
            Span::styled(string_of(cow_chars(&body).as_slice()), theme.fg(Role::Foreground)),
        ];
        if self.opens {
            spans.push(Span::styled(owned(arrow), theme.fg(Role::Muted)));
        }
        spans.push(Span::raw(owned(" ")));
        assert(span_views(spans@) =~= self.line_spec(max as int, *theme));
        Line::from_spans(spans)
    }
}

/// A toast's sentence is cut as prose: the words shown are exactly what
/// [`truncate_words`] gives for the display-safe sentence in the room the
/// mark, margins and arrow leave, so a clipped sentence ends between words.
pub proof fn law_toast_sentences_are_cut_between_words(toast: Toast, max: int, theme: Theme)
    ensures
        ({
            let ascii = theme.ascii_spec();
            let fixed = toast_fixed(toast.state, toast.opens, ascii);
            let room = if max >= fixed { max - fixed } else { 0 };
            &&& toast.line_spec(max, theme)[3] == (
                cut_spec(safe_text(toast.text@), room, ascii, true),
                theme.fg_spec(Role::Foreground),
            )
            &&& toast.line_spec(max, theme)[0] == (" "@, Style::plain())
            &&& toast.line_spec(max, theme)[1] == (
                pick_spec(toast.state.glyph_spec(), ascii),
                theme.fg_spec(toast.state.role_spec()),
            )
            &&& toast.line_spec(max, theme)[2] == (" "@, Style::plain())
            &&& toast.line_spec(max, theme).last() == (" "@, Style::plain())
            &&& toast.line_spec(max, theme).len() == (if toast.opens { 6int } else { 5 })
            &&& toast.opens ==> toast.line_spec(max, theme)[4] == (
                if ascii { " >"@ } else { " →"@ },
                theme.fg_spec(Role::Muted),
            )
        }),
{
}

/// A stack of toasts anchored to the bottom right of an area, newest last
/// (nearest the horizon). Capped to the rows available.
#[derive(Clone, Debug, PartialEq, Eq)]
pub struct Toasts {
    pub items: Vec<Toast>,
}

/// One toast as painted: where it goes (on the `Surface` ground) and its
/// line.
pub struct ToastRow {
    pub area: Rect,
    pub ground: Style,
    pub line: Line,
}

/// How many toasts fit: the newest `height` of them.
pub open spec fn shown_count(len: int, height: int) -> int {
    if len < height { len } else { height }
}

/// Where the toast at position `k` of the `shown` newest goes: flush right,
/// as wide as its line (at most the area), on the rows just above the
/// area's bottom edge.
pub open spec fn toast_area(area: Rect, shown: int, k: int, line_width: int) -> Rect {
    let w = if line_width < area.width { line_width } else { area.width as int };
    Rect {
        x: (area.right_spec() - w) as u16,
        y: (area.bottom_spec() - shown + k) as u16,
        width: w as u16,
        height: 1,
    }
}

/// What `layout` puts at position `k`.
pub open spec fn toast_row_matches(row: ToastRow, items: Seq<Toast>, area: Rect, theme: Theme, k: int) -> bool {
    let shown = shown_count(items.len() as int, area.height as int);
    let toast = items[items.len() - shown + k];
    let spans = toast.line_spec(area.width as int, theme);
    &&& row.line@ == line_of(spans)
    &&& row.area == toast_area(area, shown, k, total_width(spans))
    &&& row.ground == theme.bg_spec(Role::Surface)
}

/// Every toast lies within the area: flush with its right edge, on the
/// rows just above its bottom, one row each, never wider than the area.
pub proof fn law_toasts_stay_inside(area: Rect, len: int, k: int, line_width: int)
    requires
        area.fits(),
        !area.is_empty_spec(),
        line_width >= 0,
        0 <= k < shown_count(len, area.height as int),
    ensures
        ({
            let r = toast_area(area, shown_count(len, area.height as int), k, line_width);
            &&& area.x <= r.x && r.x + r.width == area.x + area.width
            &&& area.y <= r.y && r.y + 1 <= area.y + area.height
            &&& r.height == 1
            &&& r.width <= area.width
        }),
{
}

impl Toasts {
    pub fn new(items: Vec<Toast>) -> (t: Self)
        ensures
            t.items@ == items@,
    {
        Toasts { items }
    }

    /// The rows these toasts want: one each, at most `u16::MAX`.
    pub fn height(&self) -> (h: u16)
        ensures
            h == (if self.items@.len() < u16::MAX { self.items@.len() as int } else { u16::MAX as int }),
    {
        if self.items.len() < 65535 {
            self.items.len() as u16
        } else {
            u16::MAX
        }
    }

    /// What the stack paints in `area`: the newest toasts that fit, one per
    /// row, oldest on top, each flush with the area's right edge.
    pub fn layout(&self, area: Rect, theme: &Theme) -> (v: Vec<ToastRow>)
        ensures
            area.is_empty_spec() ==> v@.len() == 0,
            !area.is_empty_spec() ==> {
                &&& v@.len() == shown_count(self.items@.len() as int, area.height as int)
                &&& forall|k: int| 0 <= k < v@.len() ==> toast_row_matches(#[trigger] v@[k], self.items@, area, *theme, k)
            },
    {
        let mut out: Vec<ToastRow> = Vec::new();
        if area.is_empty() {
            return out;
        }
        let max = area.width as usize;
        let len = self.items.len();
        let shown: usize = if len < area.height as usize { len } else { area.height as usize };
        let first = len - shown;
        let mut k: usize = 0;
        while k < shown
            invariant
                k <= shown,
                shown == shown_count(len as int, area.height as int),
                first == len - shown,
                len == self.items@.len(),
                max == area.width,
                !area.is_empty_spec(),
                out@.len() == k,
                forall|j: int| 0 <= j < k ==> toast_row_matches(#[trigger] out@[j], self.items@, area, *theme, j),
            decreases shown - k,
        {
            let line = self.items[first + k].line(max, theme);
            let lw = line.width();
            let w: u16 = if lw < area.width as usize { lw as u16 } else { area.width };
            let rect = Rect {
                x: area.right() - w,
                y: area.bottom() - shown as u16 + k as u16,
                width: w,
                height: 1,
            };
            out.push(ToastRow { area: rect, ground: theme.bg(Role::Surface), line });
            k = k + 1;
        }
        out
    }
}

} // verus!
