//! Key hints: `↑↓ move · Enter select · Esc cancel`.
//!
//! Hints wrap onto another row rather than run off the edge, and no action
//! is ever dropped. The key is bold `Foreground` and the verb `Muted`,
//! joined by ` · `. Verbs come first and lower case: "move", not
//! "Navigation".

use vstd::prelude::*;

use crate::keys::{chord_label, chord_label_spec, KeyEvent, Platform};
use crate::seqs::{cow_chars, owned, string_of};
use crate::style::{capped, line_of, span_views, Line, LineView, Span, Style};
use crate::text::{display_safe, safe_text, str_width, width};
use crate::theme::{Role, Theme};

verus! {

/// One key and what it does.
#[derive(Clone, Debug, PartialEq, Eq)]
pub struct KeyHint {
    pub keys: String,
    pub verb: String,
    /// `false` dims the hint: the key exists but does nothing right now.
    pub enabled: bool,
}


impl KeyHint {
    pub fn new(keys: &str, verb: &str) -> (h: Self)
        ensures
            h.keys@ == keys@,
            h.verb@ == verb@,
            h.enabled,
    {
        KeyHint { keys: owned(keys), verb: owned(verb), enabled: true }
    }

    /// A hint whose key is spelled from a key event by [`crate::keys`], so
    /// hints and bindings share one spelling: `Ctrl+O`, `⌥V`, `Shift+Tab`.
    pub fn chord(key: &KeyEvent, platform: Platform, verb: &str) -> (h: Self)
        ensures
            h.keys@ == chord_label_spec(*key, platform),
            h.verb@ == verb@,
            h.enabled,
    {
        KeyHint { keys: chord_label(key, platform), verb: owned(verb), enabled: true }
    }

    /// The same hint, dimmed: the key does nothing right now.
    pub fn disabled(self) -> (h: Self)
        ensures
            h.keys == self.keys,
            h.verb == self.verb,
            !h.enabled,
    {
        KeyHint { enabled: false, ..self }
    }

    /// Cells the hint takes: key, a space, verb.
    pub open spec fn width_spec(&self) -> int {
        (str_width(self.keys@) + 1 + str_width(self.verb@)) as int
    }

    fn width(&self) -> (w: usize)
        ensures
            w == capped(self.width_spec()),
    {
        width(self.keys.as_str()).saturating_add(1).saturating_add(width(self.verb.as_str()))
    }

    pub open spec fn spans_spec(&self, theme: Theme) -> Seq<(Seq<char>, Style)> {
        let (key_style, verb_style) = if self.enabled {
            (Style { bold: true, ..theme.fg_spec(Role::Foreground) }, theme.fg_spec(Role::Muted))
        } else {
            (theme.fg_spec(Role::Muted), Style { dim: true, ..theme.fg_spec(Role::Muted) })
        };
        seq![(safe_text(self.keys@), key_style), (" "@, Style::plain()), (safe_text(self.verb@), verb_style)]
    }

    fn spans(&self, theme: &Theme) -> (v: Vec<Span>)
        ensures
            span_views(v@) == self.spans_spec(*theme),
    {
        let (key_style, verb_style) = if self.enabled {
            (theme.fg(Role::Foreground).bold(), theme.fg(Role::Muted))
        } else {
            (theme.fg(Role::Muted), theme.fg(Role::Muted).dim())
        };
        let keys = display_safe(self.keys.as_str());
        let verb = display_safe(self.verb.as_str());
        let v = vec![
            Span::styled(string_of(cow_chars(&keys).as_slice()), key_style),
            Span::raw(owned(" ")),
            Span::styled(string_of(cow_chars(&verb).as_slice()), verb_style),
        ];
        assert(span_views(v@) =~= self.spans_spec(*theme));
        v
    }
}

/// A row of key hints that wraps instead of clipping.
#[derive(Clone, Debug, Default, PartialEq, Eq)]
pub struct KeyHints {
    pub items: Vec<KeyHint>,
}

/// Greedy packing after `k` hints: the finished rows, the row being
/// filled (as hint indices), and the cells it uses.
pub open spec fn pack(widths: Seq<int>, sep: int, width: int, k: int) -> (Seq<Seq<int>>, Seq<int>, int)
    decreases k,
{
    if k <= 0 {
        (Seq::empty(), Seq::empty(), 0)
    } else {
        let (rows, cur, used) = pack(widths, sep, width, k - 1);
        let w = widths[k - 1];
        if cur.len() > 0 && used + sep + w > width {
            (rows.push(cur), seq![k - 1], w)
        } else if cur.len() > 0 {
            (rows, cur.push(k - 1), used + sep + w)
        } else {
            (rows, seq![k - 1], w)
        }
    }
}

/// Every row of a packing: the finished rows and a non-empty last one.
pub open spec fn packed_rows(widths: Seq<int>, sep: int, width: int) -> Seq<Seq<int>> {
    let (rows, cur, _used) = pack(widths, sep, width, widths.len() as int);
    if cur.len() > 0 { rows.push(cur) } else { rows }
}

/// The separator between hints: ` · ` in `Border`, or two spaces when
/// ASCII-safe (the ASCII form of `·` would read as punctuation).
pub open spec fn separator_spec(theme: Theme) -> (Seq<char>, Style) {
    if theme.ascii_spec() { ("  "@, Style::plain()) } else { (" · "@, theme.fg_spec(Role::Border)) }
}

impl KeyHints {
    pub fn new(items: Vec<KeyHint>) -> (h: Self)
        ensures
            h.items == items,
    {
        KeyHints { items }
    }

    pub open spec fn widths(&self) -> Seq<int> {
        Seq::new(self.items@.len(), |i: int| self.items@[i].width_spec())
    }

    /// The spans of one row: its hints, separated.
    pub open spec fn row_spans(&self, row: Seq<int>, theme: Theme) -> Seq<(Seq<char>, Style)>
        decreases row.len(),
    {
        if row.len() == 0 {
            Seq::empty()
        } else if row.len() == 1 {
            self.items@[row[0]].spans_spec(theme)
        } else {
            self.row_spans(row.drop_last(), theme) + seq![separator_spec(theme)] + self.items@[row.last()].spans_spec(theme)
        }
    }

    pub open spec fn lines_spec(&self, width: u16, theme: Theme) -> Seq<LineView> {
        if self.items@.len() == 0 || width == 0 {
            Seq::empty()
        } else {
            let sep = str_width(separator_spec(theme).0) as int;
            packed_rows(self.widths(), sep, width as int).map_values(
                |row: Seq<int>| line_of(self.row_spans(row, theme)),
            )
        }
    }

    fn separator(theme: &Theme) -> (s: Span)
        ensures
            s@ == separator_spec(*theme),
    {
        if theme.ascii() {
            Span::raw(owned("  "))
        } else {
            Span::styled(owned(" · "), theme.fg(Role::Border))
        }
    }

    /// Lay the hints out in rows no wider than `width`. Packs greedily and
    /// starts a new row rather than truncating; a hint wider than `width`
    /// sits alone on its row.
    pub fn lines(&self, width: u16, theme: &Theme) -> (v: Vec<Line>)
        ensures
            v@.map_values(|l: Line| l@) == self.lines_spec(width, *theme),
    {
        if self.items.len() == 0 || width == 0 {
            let v: Vec<Line> = Vec::new();
            assert(v@.map_values(|l: Line| l@) =~= Seq::<LineView>::empty());
            return v;
        }
        let max = width as usize;
        let sep = Self::separator(theme);
        let sep_width = crate::text::width(sep.content.as_str());
        let ghost widths = self.widths();
        let ghost sepw = sep_width as int;
        let mut lines: Vec<Line> = Vec::new();
        let mut current: Vec<Span> = Vec::new();
        let mut used: usize = 0;
        let ghost mut rows: Seq<Seq<int>> = Seq::empty();
        let ghost mut cur: Seq<int> = Seq::empty();
        let ghost mut used_spec: int = 0;
        let mut k: usize = 0;
        while k < self.items.len()
            invariant
                k <= self.items.len(),
                max == width as usize,
                widths == self.widths(),
                sepw == sep_width as int,
                sep@ == separator_spec(*theme),
                (rows, cur, used_spec) == pack(widths, sepw, max as int, k as int),
                lines@.len() == rows.len(),
                forall|i: int| 0 <= i < rows.len() ==> (#[trigger] lines@[i])@ == line_of(self.row_spans(rows[i], *theme)),
                span_views(current@) == self.row_spans(cur, *theme),
                used as int == capped(used_spec),
                used_spec >= 0,
                cur.len() == 0 ==> used_spec == 0,
                forall|i: int| 0 <= i < cur.len() ==> 0 <= #[trigger] cur[i] < k,
            decreases self.items.len() - k,
        {
            let hint = &self.items[k];
            let w = hint.width();
            let ghost wk = widths[k as int];
            assert(wk == hint.width_spec());
            assert(str_width(hint.keys@) >= 0 && str_width(hint.verb@) >= 0);
            if current.len() > 0 && used.saturating_add(sep_width).saturating_add(w) > max {
                let ghost old_lines = lines@;
                let ghost cur_spans = current@;
                let row = Line::from_spans(current);
                lines.push(row);
                current = Vec::new();
                used = 0;
                proof {
                    assert(lines@ == old_lines.push(row));
                    assert(row@ == line_of(self.row_spans(cur, *theme)));
                    rows = rows.push(cur);
                    cur = Seq::empty();
                    used_spec = 0;
                }
            }
            let ghost before = current@;
            if current.len() > 0 {
                current.push(Span { content: sep.content.clone(), style: sep.style });
                used = used.saturating_add(sep_width);
            }
            let mut more = hint.spans(theme);
            current.append(&mut more);
            used = used.saturating_add(w);
            proof {
                assert(self.items@[k as int] == *hint);
                if cur.len() > 0 {
                    assert(cur.push(k as int).drop_last() == cur);
                    assert(self.row_spans(cur.push(k as int), *theme) == self.row_spans(cur, *theme)
                        + seq![separator_spec(*theme)] + hint.spans_spec(*theme));
                    cur = cur.push(k as int);
                    used_spec = used_spec + sepw + wk;
                } else {
                    cur = seq![k as int];
                    used_spec = wk;
                }
                assert(span_views(current@) =~= self.row_spans(cur, *theme));
                assert((rows, cur, used_spec) == pack(widths, sepw, max as int, k + 1));
            }
            k = k + 1;
        }
        let ghost old_lines = lines@;
        let ghost final_cur = current@;
        if current.len() > 0 {
            let row = Line::from_spans(current);
            lines.push(row);
            proof {
                assert(lines@ == old_lines.push(row));
                assert(row@ == line_of(self.row_spans(cur, *theme)));
            }
        }
        proof {
            assert(widths.len() == k);
            assert(sepw == str_width(separator_spec(*theme).0) as int);
            let final_rows = if cur.len() > 0 { rows.push(cur) } else { rows };
            assert(lines@.len() == final_rows.len());
            assert forall|i: int| 0 <= i < final_rows.len() implies (#[trigger] lines@[i])@ == line_of(
                self.row_spans(final_rows[i], *theme),
            ) by {}
            assert(lines@.map_values(|l: Line| l@) =~= final_rows.map_values(
                |r: Seq<int>| line_of(self.row_spans(r, *theme)),
            ));
            assert(lines@.map_values(|l: Line| l@) =~= self.lines_spec(width, *theme));
        }
        lines
    }

    /// The rows these hints take at `width`, at most `u16::MAX`.
    pub fn height(&self, width: u16, theme: &Theme) -> (h: u16)
        ensures
            h == (if self.lines_spec(width, *theme).len() < u16::MAX {
                self.lines_spec(width, *theme).len() as int
            } else {
                u16::MAX as int
            }),
    {
        let lines = self.lines(width, theme);
        proof {
            assert(lines@.map_values(|l: Line| l@).len() == lines@.len());
        }
        if lines.len() < 65535 {
            lines.len() as u16
        } else {
            u16::MAX
        }
    }
}


/// The rows, joined back into one run of hint indices.
pub open spec fn joined(rows: Seq<Seq<int>>) -> Seq<int>
    decreases rows.len(),
{
    if rows.len() == 0 {
        Seq::empty()
    } else {
        joined(rows.drop_last()) + rows.last()
    }
}

/// The cells a row of hints takes, separators included.
pub open spec fn row_width(row: Seq<int>, widths: Seq<int>, sep: int) -> int
    decreases row.len(),
{
    if row.len() == 0 {
        0
    } else if row.len() == 1 {
        widths[row[0]]
    } else {
        row_width(row.drop_last(), widths, sep) + sep + widths[row.last()]
    }
}

/// A row fits its width, or holds a single hint too wide for any row.
pub open spec fn row_ok(row: Seq<int>, widths: Seq<int>, sep: int, width: int) -> bool {
    row.len() > 0 && (row_width(row, widths, sep) <= width || row.len() == 1)
}

proof fn lemma_pack(widths: Seq<int>, sep: int, width: int, k: int)
    requires
        0 <= k <= widths.len(),
    ensures
        ({
            let (rows, cur, used) = pack(widths, sep, width, k);
            &&& joined(rows) + cur == Seq::new(k as nat, |i: int| i)
            &&& forall|r: int| 0 <= r < rows.len() ==> row_ok(#[trigger] rows[r], widths, sep, width)
            &&& (k > 0 ==> row_ok(cur, widths, sep, width))
            &&& (k == 0 ==> cur.len() == 0)
            &&& used == row_width(cur, widths, sep)
        }),
    decreases k,
{
    if k > 0 {
        lemma_pack(widths, sep, width, k - 1);
        let (rows, cur, used) = pack(widths, sep, width, k - 1);
        let w = widths[k - 1];
        if cur.len() > 0 && used + sep + w > width {
            assert(joined(rows.push(cur)) == joined(rows) + cur) by {
                assert(rows.push(cur).drop_last() == rows);
            }
            assert(joined(rows.push(cur)) + seq![k - 1] =~= (joined(rows) + cur).push(k - 1));
            assert(Seq::new((k - 1) as nat, |i: int| i).push(k - 1) =~= Seq::new(k as nat, |i: int| i));
            assert forall|r: int| 0 <= r < rows.push(cur).len() implies row_ok(#[trigger] rows.push(cur)[r], widths, sep, width) by {
                if r < rows.len() {
                    assert(rows.push(cur)[r] == rows[r]);
                }
            }
        } else if cur.len() > 0 {
            assert(cur.push(k - 1).drop_last() == cur);
            assert(joined(rows) + cur.push(k - 1) =~= (joined(rows) + cur).push(k - 1));
            assert(Seq::new((k - 1) as nat, |i: int| i).push(k - 1) =~= Seq::new(k as nat, |i: int| i));
        } else {
            assert(joined(rows) + seq![k - 1] =~= (joined(rows) + cur).push(k - 1));
            assert(Seq::new((k - 1) as nat, |i: int| i).push(k - 1) =~= Seq::new(k as nat, |i: int| i));
        }
    }
}

/// Hints wrap and never drop an action: the rows, read in order, hold
/// every hint exactly once, in order; no row is empty; and every row fits
/// the width unless it holds a single hint wider than any row.
pub proof fn law_hints_wrap_without_dropping(widths: Seq<int>, sep: int, width: int)
    ensures
        joined(packed_rows(widths, sep, width)) == Seq::new(widths.len(), |i: int| i),
        forall|r: int| 0 <= r < packed_rows(widths, sep, width).len() ==> row_ok(
            #[trigger] packed_rows(widths, sep, width)[r],
            widths,
            sep,
            width,
        ),
{
    let n = widths.len() as int;
    lemma_pack(widths, sep, width, n);
    let (rows, cur, used) = pack(widths, sep, width, n);
    if cur.len() > 0 {
        assert(rows.push(cur).drop_last() == rows);
        assert forall|r: int| 0 <= r < rows.push(cur).len() implies row_ok(#[trigger] rows.push(cur)[r], widths, sep, width) by {
            if r < rows.len() {
                assert(rows.push(cur)[r] == rows[r]);
            }
        }
    } else {
        assert(joined(rows) + cur == joined(rows));
    }
}

} // verus!
