//! Picker: the list behind the mode picker, the status-line picker, and
//! every other "choose one" or "choose some" list.
//!
//! A selected row carries three cues, because a fill alone measures only
//! about 1.3:1 against its neighbours: the `▸` marker lit in `Primary`, the
//! label in bold, and the `Selected` ground where grounds paint. Checked rows
//! show `●` and unchecked `○` (`[x]` and `[ ]` in ASCII), so on/off is a
//! shape, not a color. Disabled rows say why.

use vstd::prelude::*;
use vstd::arithmetic::div_mod::lemma_fundamental_div_mod_converse_mod;

use crate::glyphs::{self, pick_spec};
use crate::seqs::{chars_of, concat, cow_chars, owned, string_of};
use crate::style::{capped, lemma_total_width_push, line_of, span_views, total_width, Line, LineView, Rect, Span, Style};
use crate::text::{cut_spec, display_safe, pad, pad_spec, safe_text, str_width, truncate, width};
use crate::theme::{Role, Theme};

verus! {

/// One row.
#[derive(Clone, Debug, PartialEq, Eq)]
pub struct PickerItem {
    pub label: String,
    /// Muted words after the label: what choosing this does.
    pub detail: Option<String>,
    /// A shortcut shown before the label (`1`, `2`, `3`).
    pub key: Option<char>,
    /// `Some` makes this a checklist row.
    pub checked: Option<bool>,
    /// `Some(reason)` greys the row and shows the reason as its detail.
    pub disabled: Option<String>,
}

impl PickerItem {
    pub fn new(label: &str) -> (i: Self)
        ensures
            i.label@ == label@,
            i.detail is None,
            i.key is None,
            i.checked is None,
            i.disabled is None,
    {
        PickerItem { label: owned(label), detail: None, key: None, checked: None, disabled: None }
    }

    pub fn detail(self, detail: &str) -> (i: Self)
        ensures
            i == (PickerItem { detail: i.detail, ..self }),
            i.detail matches Some(d) && d@ == detail@,
    {
        PickerItem { detail: Some(owned(detail)), ..self }
    }

    pub fn key(self, key: char) -> (i: Self)
        ensures
            i == (PickerItem { key: Some(key), ..self }),
    {
        PickerItem { key: Some(key), ..self }
    }

    pub fn checked(self, checked: bool) -> (i: Self)
        ensures
            i == (PickerItem { checked: Some(checked), ..self }),
    {
        PickerItem { checked: Some(checked), ..self }
    }

    pub fn disabled(self, reason: &str) -> (i: Self)
        ensures
            i == (PickerItem { disabled: i.disabled, ..self }),
            i.disabled matches Some(d) && d@ == reason@,
    {
        PickerItem { disabled: Some(owned(reason)), ..self }
    }
}

/// Which row is selected and how far the list has scrolled.
#[derive(Clone, Copy, Debug, Default, PartialEq, Eq, Structural)]
pub struct PickerState {
    pub selected: usize,
    pub offset: usize,
}

pub open spec fn sat_sub(a: int, b: int) -> int {
    if a >= b { a - b } else { 0 }
}

pub open spec fn min(a: int, b: int) -> int {
    if a <= b { a } else { b }
}

/// The offset that keeps the selection on screen in `rows` rows.
pub open spec fn visible_offset_spec(state: PickerState, len: int, rows: int) -> int {
    let rows = if rows < 1 { 1 } else { rows };
    let offset = min(state.offset as int, sat_sub(len, rows));
    if state.selected < offset {
        state.selected as int
    } else if state.selected >= offset + rows {
        state.selected + 1 - rows
    } else {
        offset
    }
}

impl PickerState {
    pub fn new(selected: usize) -> (s: Self)
        ensures
            s.selected == selected,
            s.offset == 0,
    {
        PickerState { selected, offset: 0 }
    }

    /// The next row, wrapping to the first.
    pub fn next(&mut self, len: usize)
        requires
            len > 0 ==> old(self).selected < usize::MAX,
        ensures
            final(self).offset == old(self).offset,
            final(self).selected == (if len > 0 { (old(self).selected + 1) % (len as int) } else { old(self).selected as int }),
    {
        if len > 0 {
            self.selected = (self.selected + 1) % len;
        }
    }

    /// The previous row, wrapping to the last.
    pub fn prev(&mut self, len: usize)
        requires
            len > 0 ==> old(self).selected + len <= usize::MAX,
        ensures
            final(self).offset == old(self).offset,
            final(self).selected == (if len > 0 { (old(self).selected + len - 1) % (len as int) } else { old(self).selected as int }),
    {
        if len > 0 {
            self.selected = (self.selected + len - 1) % len;
        }
    }

    /// The first row.
    pub fn home(&mut self)
        ensures
            final(self).selected == 0,
            final(self).offset == old(self).offset,
    {
        self.selected = 0;
    }

    /// The last row.
    pub fn end(&mut self, len: usize)
        ensures
            final(self).selected == sat_sub(len as int, 1),
            final(self).offset == old(self).offset,
    {
        self.selected = len.saturating_sub(1);
    }

    /// Move a page (`rows`, at least one), clamped at the ends.
    pub fn page(&mut self, len: usize, rows: u16, down: bool)
        requires
            down ==> old(self).selected + (if rows < 1 { 1 } else { rows as int }) <= usize::MAX,
        ensures
            final(self).offset == old(self).offset,
            ({
                let step = if rows < 1 { 1 } else { rows as int };
                final(self).selected == (if down {
                    min(old(self).selected + step, sat_sub(len as int, 1))
                } else {
                    sat_sub(old(self).selected as int, step)
                })
            }),
    {
        let step: usize = if rows < 1 { 1 } else { rows as usize };
        self.selected = if down {
            let target = self.selected + step;
            let last = len.saturating_sub(1);
            if target < last { target } else { last }
        } else {
            self.selected.saturating_sub(step)
        };
    }

    /// The offset that keeps the selection on screen in `rows` rows.
    pub fn visible_offset(&self, len: usize, rows: usize) -> (o: usize)
        ensures
            o == visible_offset_spec(*self, len as int, rows as int),
    {
        let rows = if rows < 1 { 1 } else { rows };
        let cap = len.saturating_sub(rows);
        let offset = if self.offset < cap { self.offset } else { cap };
        if self.selected < offset {
            self.selected
        } else if self.selected - offset >= rows {
            self.selected - (rows - 1)
        } else {
            offset
        }
    }

    /// Store the offset a picker paints with, so scrolling is stable.
    pub fn scroll_into_view(&mut self, len: usize, rows: u16)
        ensures
            final(self).selected == old(self).selected,
            final(self).offset == visible_offset_spec(*old(self), len as int, rows as int),
    {
        self.offset = self.visible_offset(len, rows as usize);
    }
}

/// The selection stays on screen: the visible offset leaves the selected
/// row among the `rows` rows shown.
pub proof fn law_selection_stays_visible(state: PickerState, len: int, rows: int)
    requires
        rows >= 1,
    ensures
        visible_offset_spec(state, len, rows) <= state.selected < visible_offset_spec(state, len, rows) + rows,
{
}

/// Scrolling is stable: once a picker stores the offset it painted with,
/// painting again with the same list and rows keeps that offset.
pub proof fn law_scrolling_is_stable(state: PickerState, len: int, rows: int)
    ensures
        visible_offset_spec(
            PickerState { offset: visible_offset_spec(state, len, rows) as usize, ..state },
            len,
            rows,
        ) == visible_offset_spec(state, len, rows),
{
}

/// Moving down and back up returns to the same row: `prev` undoes `next`
/// (and `next` undoes `prev`) on a list of `len` rows.
pub proof fn law_next_prev_round_trip(selected: int, len: int)
    requires
        0 <= selected < len,
    ensures
        ((selected + 1) % len + len - 1) % len == selected,
        ((selected + len - 1) % len + 1) % len == selected,
        0 <= (selected + 1) % len < len,
        0 <= (selected + len - 1) % len < len,
{
    if selected + 1 < len {
        lemma_fundamental_div_mod_converse_mod(selected + 1, len, 0, selected + 1);
        lemma_fundamental_div_mod_converse_mod(selected + len, len, 1, selected);
    } else {
        lemma_fundamental_div_mod_converse_mod(len, len, 1, 0);
        lemma_fundamental_div_mod_converse_mod(len - 1, len, 0, len - 1);
    }
    if selected > 0 {
        lemma_fundamental_div_mod_converse_mod(selected + len - 1, len, 1, selected - 1);
        lemma_fundamental_div_mod_converse_mod(selected, len, 0, selected);
    } else {
        lemma_fundamental_div_mod_converse_mod(len - 1, len, 0, len - 1);
        lemma_fundamental_div_mod_converse_mod(len, len, 1, 0);
    }
}

/// A list of [`PickerItem`]s.
#[derive(Clone, Copy, Debug)]
pub struct Picker<'a> {
    pub items: &'a [PickerItem],
    pub state: PickerState,
}

/// The widest display-safe label among `items`.
pub open spec fn label_column_spec(items: Seq<PickerItem>) -> int
    decreases items.len(),
{
    if items.len() == 0 {
        0
    } else {
        let w = str_width(safe_text(items.last().label@)) as int;
        let rest = label_column_spec(items.drop_last());
        if w > rest { w } else { rest }
    }
}


/// The marker, shortcut and check mark before a row's label.
pub open spec fn row_lead(item: PickerItem, selected: bool, theme: Theme) -> Seq<(Seq<char>, Style)> {
    let ascii = theme.ascii_spec();
    let marker = seq![(pick_spec(if selected { "▸"@ } else { " "@ }, ascii) + " "@, theme.fg_spec(Role::Primary))];
    let key = match item.key {
        Some(k) => seq![(seq![k] + " "@, theme.fg_spec(Role::Muted))],
        None => Seq::empty(),
    };
    let check = match item.checked {
        Some(on) => {
            let (mark, role) = if ascii {
                if on { ("[x]"@, Role::Foreground) } else { ("[ ]"@, Role::Muted) }
            } else {
                if on { ("●"@, Role::Foreground) } else { ("○"@, Role::Muted) }
            };
            seq![(mark + " "@, theme.fg_spec(role))]
        },
        None => Seq::empty(),
    };
    marker + key + check
}

/// The style of a row's label: dimmed when disabled, bold when selected.
pub open spec fn label_style(item: PickerItem, selected: bool, theme: Theme) -> Style {
    if item.disabled is Some {
        Style { dim: true, ..theme.fg_spec(Role::Muted) }
    } else if selected {
        Style { bold: true, ..theme.fg_spec(Role::Foreground) }
    } else {
        theme.fg_spec(Role::Foreground)
    }
}

/// The row's spans in `width` cells: lead, the label padded to the label
/// column (or what is left), and the detail (or the reason it is
/// disabled) truncated into the room after two spaces, when at least four
/// cells remain.
pub open spec fn row_spans_spec(item: PickerItem, selected: bool, width: int, label_col: int, theme: Theme) -> Seq<(Seq<char>, Style)> {
    let ascii = theme.ascii_spec();
    let lead = row_lead(item, selected, theme);
    let used = capped(total_width(lead));
    let label_w = min(label_col, sat_sub(width, used));
    let with_label = lead + seq![(pad_spec(safe_text(item.label@), label_w, ascii), label_style(item, selected, theme))];
    let used2 = capped(total_width(with_label));
    let detail = if item.disabled is Some { item.disabled } else { item.detail };
    match detail {
        Some(d) => {
            let room = sat_sub(width, capped(used2 + 2));
            if room >= 4 {
                with_label + seq![
                    ("  "@, theme.fg_spec(Role::Muted)),
                    (cut_spec(safe_text(d@), room, ascii, false), theme.fg_spec(Role::Muted)),
                ]
            } else {
                with_label
            }
        },
        None => with_label,
    }
}

/// One painted row: where it goes, the ground under it when selected, and
/// its line.
pub struct PickerRow {
    pub area: Rect,
    pub ground: Option<Style>,
    pub line: Line,
}

/// The picker's scrollbar, when the rows overflow.
pub struct PickerScrollbar {
    pub area: Rect,
    pub content_length: usize,
    pub position: usize,
    pub viewport: usize,
    /// Draw `#` on `|` rather than `█` on `│`.
    pub ascii: bool,
    pub thumb: Style,
    pub track: Style,
}

/// What a picker paints in an area.
pub struct PickerLayout {
    pub rows: Vec<PickerRow>,
    pub scrollbar: Option<PickerScrollbar>,
}

/// A line's cells and styles, rebuilt as a view.
pub open spec fn row_view(spans: Seq<(Seq<char>, Style)>, selected_ground: Option<Style>) -> LineView {
    match selected_ground {
        Some(g) => LineView { style: g, ..line_of(spans) },
        None => line_of(spans),
    }
}


/// How many rows a picker paints: those from `offset` on, at most `rows`.
pub open spec fn painted_count(len: int, offset: int, rows: int) -> int {
    if len > offset { min(rows, len - offset) } else { 0 }
}

/// Whether the rows overflow `area` and a scrollbar takes its last column.
pub open spec fn has_scrollbar(len: int, area: Rect) -> bool {
    len > area.height && area.width > 2
}

/// The area a row at position `k` of the list takes.
pub open spec fn row_area(area: Rect, list_width: int, k: int) -> Rect {
    Rect { x: area.x, y: (area.y + k) as u16, width: list_width as u16, height: 1 }
}

/// What `layout` puts at position `k`: the row for item `index`.
pub open spec fn row_matches(
    row: PickerRow,
    items: Seq<PickerItem>,
    state: PickerState,
    area: Rect,
    list_width: int,
    label_col: int,
    theme: Theme,
    k: int,
) -> bool {
    let index = visible_offset_spec(state, items.len() as int, area.height as int) + k;
    let selected = index == state.selected;
    let ground = if selected { Some(theme.bg_spec(Role::Selected)) } else { None };
    &&& row.area == row_area(area, list_width, k)
    &&& row.ground == ground
    &&& row.line@ == row_view(row_spans_spec(items[index], selected, list_width, label_col, theme), ground)
}

/// A selected row carries three cues, so selection never rests on a fill
/// alone: its marker differs from every other row's and is lit in
/// `Primary`, its label is bold (unless the row is disabled), and it sits
/// on the `Selected` ground.
pub proof fn law_selected_row_carries_three_cues(
    item: PickerItem,
    other: PickerItem,
    width: int,
    label_col: int,
    theme: Theme,
)
    ensures
        row_spans_spec(item, true, width, label_col, theme)[0] == (
            pick_spec("▸"@, theme.ascii_spec()) + " "@,
            theme.fg_spec(Role::Primary),
        ),
        row_spans_spec(item, true, width, label_col, theme)[0].0 != row_spans_spec(
            other,
            false,
            width,
            label_col,
            theme,
        )[0].0,
        item.disabled is None ==> label_style(item, true, theme).bold,
        row_view(
            row_spans_spec(item, true, width, label_col, theme),
            Some(theme.bg_spec(Role::Selected)),
        ).style == theme.bg_spec(Role::Selected),
{
    reveal_strlit("▸");
    reveal_strlit(" ");
    reveal_strlit(">");
    let ascii = theme.ascii_spec();
    let on = pick_spec("▸"@, ascii) + " "@;
    let off = pick_spec(" "@, ascii) + " "@;
    assert(on[0] != off[0]);
    assert(row_lead(item, true, theme)[0].0 == on);
    assert(row_lead(other, false, theme)[0].0 == off);
}

/// Checked and unchecked rows differ in shape, not only in color, with and
/// without ASCII: `●` and `○`, or `[x]` and `[ ]`.
pub proof fn law_checks_are_shapes(item: PickerItem, selected: bool, theme: Theme)
    requires
        item.checked is Some,
    ensures
        ({
            let lead = row_lead(item, selected, theme);
            let flipped = row_lead(PickerItem { checked: Some(!item.checked.unwrap()), ..item }, selected, theme);
            lead.last().0 != flipped.last().0
        }),
{
    reveal_strlit("●");
    reveal_strlit("○");
    reveal_strlit("[x]");
    reveal_strlit("[ ]");
    reveal_strlit(" ");
    let lead = row_lead(item, selected, theme);
    let flipped = row_lead(PickerItem { checked: Some(!item.checked.unwrap()), ..item }, selected, theme);
    if theme.ascii_spec() {
        assert(lead.last().0[1] != flipped.last().0[1]);
    } else {
        assert(lead.last().0[0] != flipped.last().0[0]);
    }
}

/// Every painted row lies within the picker's area, and the scrollbar
/// (when there is one) keeps the last column to itself.
pub proof fn law_rows_stay_inside(area: Rect, len: int, offset: int, k: int)
    requires
        area.fits(),
        0 <= k < painted_count(len, offset, area.height as int),
    ensures
        ({
            let list_width = if has_scrollbar(len, area) { area.width - 1 } else { area.width as int };
            let r = row_area(area, list_width, k);
            &&& area.x <= r.x && r.x + r.width <= area.x + area.width
            &&& area.y <= r.y && r.y + r.height <= area.y + area.height
            &&& has_scrollbar(len, area) ==> r.x + r.width < area.x + area.width
        }),
{
}

struct RowBuilder {
    spans: Vec<Span>,
    used: usize,
}

impl RowBuilder {
    fn push(&mut self, s: String, style: Style)
        ensures
            final(self).spans@.len() == old(self).spans@.len() + 1,
            span_views(final(self).spans@) == span_views(old(self).spans@).push((s@, style)),
            final(self).used == capped(old(self).used + str_width(s@)),
    {
        let w = width(s.as_str());
        self.used = self.used.saturating_add(w);
        self.spans.push(Span::styled(s, style));
        assert(span_views(self.spans@) =~= span_views(old(self).spans@).push((s@, style)));
    }
}

fn with_space(s: &str) -> (r: String)
    ensures
        r@ == s@ + " "@,
{
    string_of(concat(chars_of(s).as_slice(), chars_of(" ").as_slice()).as_slice())
}


/// The marker, shortcut and check mark that open a row.
fn lead(item: &PickerItem, selected: bool, theme: &Theme) -> (row: RowBuilder)
    ensures
        span_views(row.spans@) == row_lead(*item, selected, *theme),
        row.used == capped(total_width(span_views(row.spans@))),
{
    let ascii = theme.ascii();
    let mut row = RowBuilder { spans: Vec::new(), used: 0 };
    let ghost mut spec_spans: Seq<(Seq<char>, Style)> = Seq::empty();

    let marker = glyphs::pick(glyphs::selection_marker(selected), ascii);
    row.push(with_space(marker), theme.fg(Role::Primary));
    proof {
        let x = span_views(row.spans@)[0];
        lemma_total_width_push(Seq::empty(), x);
        assert(Seq::<(Seq<char>, Style)>::empty().push(x) =~= span_views(row.spans@));
        spec_spans = span_views(row.spans@);
        assert(spec_spans =~= seq![(pick_spec(if selected { "▸"@ } else { " "@ }, ascii) + " "@, theme.fg_spec(Role::Primary))]);
        assert(row.used == capped(total_width(spec_spans)));
    }
    let ghost marker_part = spec_spans;
    if let Some(key) = item.key {
        let k = vec![key];
        let key_text = string_of(k.as_slice());
        assert(key_text@ =~= seq![key]);
        proof { lemma_total_width_push(spec_spans, (seq![key] + " "@, theme.fg_spec(Role::Muted))); }
        row.push(with_space(key_text.as_str()), theme.fg(Role::Muted));
        proof { spec_spans = span_views(row.spans@); }
        assert(row.used == capped(total_width(spec_spans)));
    }
    let ghost key_part = spec_spans;
    assert(key_part =~= marker_part + match item.key {
        Some(k) => seq![(seq![k] + " "@, theme.fg_spec(Role::Muted))],
        None => Seq::empty(),
    });
    if let Some(checked) = item.checked {
        let (mark, role) = if ascii {
            if checked { ("[x]", Role::Foreground) } else { ("[ ]", Role::Muted) }
        } else {
            if checked { (glyphs::CURRENT, Role::Foreground) } else { (glyphs::AVAILABLE, Role::Muted) }
        };
        proof { lemma_total_width_push(spec_spans, (mark@ + " "@, theme.fg_spec(role))); }
        row.push(with_space(mark), theme.fg(role));
        proof { spec_spans = span_views(row.spans@); }
        assert(row.used == capped(total_width(spec_spans)));
    }
    assert(spec_spans =~= row_lead(*item, selected, *theme));
    row
}

impl<'a> Picker<'a> {
    pub fn new(items: &'a [PickerItem], state: PickerState) -> (p: Self)
        ensures
            p.items == items,
            p.state == state,
    {
        Picker { items, state }
    }

    /// The item under a click at `(column, row)` when the picker was
    /// painted in `area`, for hosts that take mouse input.
    pub fn row_at(&self, area: Rect, column: u16, row: u16) -> (r: Option<usize>)
        ensures
            ({
                let inside = column >= area.x && column < area.right_spec() && row >= area.y && row
                    < area.bottom_spec();
                let index = visible_offset_spec(self.state, self.items@.len() as int, area.height as int)
                    + (row - area.y);
                r == (if inside && index < self.items@.len() { Some(index as usize) } else { None::<usize> })
            }),
    {
        let inside = column >= area.x && column < area.right() && row >= area.y && row < area.bottom();
        if !inside {
            return None;
        }
        let offset = self.state.visible_offset(self.items.len(), area.height as usize);
        let index = offset.saturating_add((row - area.y) as usize);
        if index < self.items.len() {
            Some(index)
        } else {
            None
        }
    }

    /// The rows this picker wants: one per item, at most `u16::MAX`.
    pub fn height(&self) -> (h: u16)
        ensures
            h == min(self.items@.len() as int, u16::MAX as int),
    {
        if self.items.len() < 65535 {
            self.items.len() as u16
        } else {
            u16::MAX
        }
    }

    /// What this picker paints in `area`: the visible rows from the
    /// scrolled offset, the selected one on the `Selected` ground, and a
    /// scrollbar in the last column when the items overflow.
    pub fn layout(&self, area: Rect, theme: &Theme) -> (l: PickerLayout)
        requires
            area.y + painted_count(
                self.items@.len() as int,
                visible_offset_spec(self.state, self.items@.len() as int, area.height as int),
                area.height as int,
            ) <= u16::MAX + 1,
        ensures
            ({
                let len = self.items@.len() as int;
                let offset = visible_offset_spec(self.state, len, area.height as int);
                let bar = has_scrollbar(len, area);
                let list_width = if bar { area.width - 1 } else { area.width as int };
                if area.is_empty_spec() || len == 0 {
                    l.rows@.len() == 0 && l.scrollbar is None
                } else {
                    &&& l.rows@.len() == painted_count(len, offset, area.height as int)
                    &&& forall|k: int| 0 <= k < l.rows@.len() ==> row_matches(
                        #[trigger] l.rows@[k], self.items@, self.state, area, list_width,
                        label_column_spec(self.items@), *theme, k,
                    )
                    &&& l.scrollbar == (if bar {
                        Some(PickerScrollbar {
                            area,
                            content_length: (len - area.height) as usize,
                            position: offset as usize,
                            viewport: area.height as usize,
                            ascii: theme.ascii_spec(),
                            thumb: theme.fg_spec(Role::Foreground),
                            track: theme.fg_spec(Role::Border),
                        })
                    } else {
                        None
                    })
                }
            }),
    {
        let mut out: Vec<PickerRow> = Vec::new();
        if area.is_empty() || self.items.len() == 0 {
            return PickerLayout { rows: out, scrollbar: None };
        }
        let len = self.items.len();
        let rows = area.height as usize;
        let bar = len > rows && area.width > 2;
        let list_width: u16 = if bar { area.width - 1 } else { area.width };
        let offset = self.state.visible_offset(len, rows);
        let label_col = self.label_column();
        let count: usize = if len > offset {
            if rows < len - offset { rows } else { len - offset }
        } else {
            0
        };
        let mut k: usize = 0;
        while k < count
            invariant
                k <= count,
                count == painted_count(len as int, offset as int, rows as int),
                count <= rows,
                rows == area.height,
                offset == visible_offset_spec(self.state, len as int, rows as int),
                len == self.items@.len(),
                area.y + count <= u16::MAX + 1,
                label_col == label_column_spec(self.items@),
                list_width == (if bar { area.width - 1 } else { area.width as int }),
                out@.len() == k,
                forall|j: int| 0 <= j < k ==> row_matches(
                    #[trigger] out@[j], self.items@, self.state, area, list_width as int, label_col as int, *theme, j,
                ),
            decreases count - k,
        {
            let index = offset + k;
            let selected = index == self.state.selected;
            let rect = Rect { x: area.x, y: area.y + k as u16, width: list_width, height: 1 };
            let ground = if selected { Some(theme.bg(Role::Selected)) } else { None };
            let line = self.row(index, list_width as usize, label_col, theme);
            out.push(PickerRow { area: rect, ground, line });
            k = k + 1;
        }
        let scrollbar = if bar {
            Some(PickerScrollbar {
                area,
                content_length: len - rows,
                position: offset,
                viewport: rows,
                ascii: theme.ascii(),
                thumb: theme.fg(Role::Foreground),
                track: theme.fg(Role::Border),
            })
        } else {
            None
        };
        PickerLayout { rows: out, scrollbar }
    }

    fn label_column(&self) -> (c: usize)
        ensures
            c == label_column_spec(self.items@),
    {
        let mut best: usize = 0;
        let mut i: usize = 0;
        while i < self.items.len()
            invariant
                i <= self.items.len(),
                best == label_column_spec(self.items@.take(i as int)),
            decreases self.items.len() - i,
        {
            let safe = display_safe(self.items[i].label.as_str());
            let safe_label = string_of(cow_chars(&safe).as_slice());
            let w = width(safe_label.as_str());
            assert(self.items@.take(i + 1).drop_last() == self.items@.take(i as int));
            if w > best {
                best = w;
            }
            i = i + 1;
        }
        assert(self.items@.take(self.items.len() as int) == self.items@);
        best
    }

    fn row(&self, index: usize, width: usize, label_col: usize, theme: &Theme) -> (l: Line)
        requires
            index < self.items@.len(),
        ensures
            l@ == row_view(
                row_spans_spec(self.items@[index as int], index == self.state.selected, width as int, label_col as int, *theme),
                if index == self.state.selected { Some(theme.bg_spec(Role::Selected)) } else { None },
            ),
    {
        let item = &self.items[index];
        let selected = index == self.state.selected;
        let ascii = theme.ascii();
        let mut row = lead(item, selected, theme);
        let ghost mut spec_spans: Seq<(Seq<char>, Style)> = span_views(row.spans@);
        assert(row.used == capped(total_width(spec_spans)));

        let style_of_label = if item.disabled.is_some() {
            theme.fg(Role::Muted).dim()
        } else if selected {
            theme.fg(Role::Foreground).bold()
        } else {
            theme.fg(Role::Foreground)
        };
        let label = display_safe(item.label.as_str());
        let room = width.saturating_sub(row.used);
        let label_w = if label_col < room { label_col } else { room };
        let label_text = string_of(cow_chars(&label).as_slice());
        let padded = pad(label_text.as_str(), label_w, ascii);
        proof { lemma_total_width_push(spec_spans, (padded@, style_of_label)); }
        row.push(padded, style_of_label);
        proof { spec_spans = span_views(row.spans@); }
        let ghost with_label = spec_spans;
        assert(style_of_label == label_style(*item, selected, *theme));
        assert(with_label =~= row_lead(*item, selected, *theme) + seq![(pad_spec(safe_text(item.label@), label_w as int, ascii), style_of_label)]);
        assert(row.used == capped(total_width(with_label)));

        let detail = if item.disabled.is_some() { &item.disabled } else { &item.detail };
        if let Some(detail) = detail {
            let room = width.saturating_sub(row.used.saturating_add(2));
            if room >= 4 {
                let safe = display_safe(detail.as_str());
                let detail_text = string_of(cow_chars(&safe).as_slice());
                let cut = truncate(detail_text.as_str(), room, ascii);
                row.push(owned("  "), theme.fg(Role::Muted));
                row.push(string_of(cow_chars(&cut).as_slice()), theme.fg(Role::Muted));
                assert(span_views(row.spans@) =~= with_label + seq![
                    ("  "@, theme.fg_spec(Role::Muted)),
                    (cut_spec(safe_text(detail@), room as int, ascii, false), theme.fg_spec(Role::Muted)),
                ]);
            }
        }
        assert(span_views(row.spans@) =~= row_spans_spec(*item, selected, width as int, label_col as int, *theme));
        let spans = row.spans;
        let line = Line::from_spans(spans);
        if selected {
            line.style(theme.bg(Role::Selected))
        } else {
            line
        }
    }
}

} // verus!
