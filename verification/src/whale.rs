//! The whale, drawn in Braille dots.
//!
//! The C-shaped whale from the Codewhale mark is the one character on every
//! surface. Its states carry meaning: resting, working, needs you, done,
//! and a pod, where one to three calves swim with it while agents work in
//! parallel. The count is never invented.
//!
//! The art is decoration; the state lives in the words beside it. Screen
//! readers get the label, never a stream of dot names, and ASCII-safe
//! terminals get the words alone.
//!
//! This module holds what the widget decides: the words, which pose and
//! optical size to draw, where the art and its label go, and how a grid of
//! packed dots reads as text. Filling the contours with dots is the host's.

use vstd::prelude::*;

use crate::components::status::{State, StatusMark};
use crate::seqs::{chars_of, concat, decimal, decimal_exec, owned, seq_eq, string_of};
use crate::style::{line_of, span_views, Alignment, Line, LineView, Rect, Style};
use crate::glyphs::pick_spec;
use crate::text::safe_text;
use crate::theme::{Role, Theme};

verus! {

/// Dot bits per cell, row-major: `01 08`, `02 10`, `04 20`, `40 80`.
pub const BITS: [[u8; 2]; 4] = [[0x01, 0x08], [0x02, 0x10], [0x04, 0x20], [0x40, 0x80]];

/// What the whale is doing.
#[derive(Clone, Copy, Debug, PartialEq, Eq, Hash, Structural)]
pub enum WhaleState {
    Rest,
    Busy,
    NeedsYou,
    Done,
    /// Working with agents in parallel. The art draws one to three calves;
    /// a pod of none draws plain work.
    Pod { calves: u8 },
}

/// The English words for a pod of `calves`, with the real count.
pub open spec fn pod_words(calves: u8) -> Seq<char> {
    if calves == 0 {
        "Working"@
    } else {
        "Working with "@ + decimal(calves as nat) + if calves == 1 { " agent"@ } else { " agents"@ }
    }
}

impl WhaleState {
    pub open spec fn scene_key_spec(self) -> (Seq<char>, u8) {
        match self {
            WhaleState::Rest => ("rest"@, 0),
            WhaleState::Busy => ("busy"@, 0),
            WhaleState::NeedsYou => ("needs"@, 0),
            WhaleState::Done => ("done"@, 0),
            WhaleState::Pod { calves } => if calves == 0 {
                ("busy"@, 0)
            } else {
                ("pod"@, if calves > 3 { 3 } else { calves })
            },
        }
    }

    /// The pose this state draws, by its key and calf count in the scene
    /// export: a pod draws at most three calves, and a pod of none draws
    /// plain work.
    pub fn scene_key(self) -> (k: (&'static str, u8))
        ensures
            k.0@ == self.scene_key_spec().0,
            k.1 == self.scene_key_spec().1,
    {
        match self {
            WhaleState::Rest => ("rest", 0),
            WhaleState::Busy => ("busy", 0),
            WhaleState::NeedsYou => ("needs", 0),
            WhaleState::Done => ("done", 0),
            WhaleState::Pod { calves } => if calves == 0 {
                ("busy", 0)
            } else {
                ("pod", if calves > 3 { 3 } else { calves })
            },
        }
    }

    pub open spec fn state_spec(self) -> State {
        match self {
            WhaleState::Rest => State::Ready,
            WhaleState::Busy | WhaleState::Pod { .. } => State::Working,
            WhaleState::NeedsYou => State::NeedsYou,
            WhaleState::Done => State::Done,
        }
    }

    /// The status this pose stands for.
    pub fn state(self) -> (s: State)
        ensures
            s == self.state_spec(),
    {
        match self {
            WhaleState::Rest => State::Ready,
            WhaleState::Busy | WhaleState::Pod { .. } => State::Working,
            WhaleState::NeedsYou => State::NeedsYou,
            WhaleState::Done => State::Done,
        }
    }

    pub open spec fn words_spec(self) -> Seq<char> {
        match self {
            WhaleState::Rest => "Resting"@,
            WhaleState::Busy => "Working"@,
            WhaleState::NeedsYou => "Needs you"@,
            WhaleState::Done => "Done"@,
            WhaleState::Pod { calves } => pod_words(calves),
        }
    }

    /// The English words beside the art. A pod's words carry the real
    /// count of agents, whatever the art can show.
    pub fn words(self) -> (w: String)
        ensures
            w@ == self.words_spec(),
    {
        match self {
            WhaleState::Rest => owned("Resting"),
            WhaleState::Busy => owned("Working"),
            WhaleState::NeedsYou => owned("Needs you"),
            WhaleState::Done => owned("Done"),
            WhaleState::Pod { calves } => if calves == 0 {
                owned("Working")
            } else {
                let count = decimal_exec(calves as u64);
                let noun = if calves == 1 { chars_of(" agent") } else { chars_of(" agents") };
                let head = concat(chars_of("Working with ").as_slice(), count.as_slice());
                string_of(concat(head.as_slice(), noun.as_slice()).as_slice())
            },
        }
    }
}

/// The art never invents a calf: a pod draws the calves it is given, at
/// most the three the art has room for, and a pod of none draws plain
/// work. The words always carry the real count.
pub proof fn law_pod_never_invents_calves(calves: u8)
    ensures
        calves == 0 ==> (WhaleState::Pod { calves }).scene_key_spec() == WhaleState::Busy.scene_key_spec(),
        1 <= calves <= 3 ==> (WhaleState::Pod { calves }).scene_key_spec() == ("pod"@, calves),
        calves > 3 ==> (WhaleState::Pod { calves }).scene_key_spec() == (WhaleState::Pod { calves: 3 }).scene_key_spec(),
        calves > 0 ==> (WhaleState::Pod { calves }).words_spec().subrange(13, 13 + decimal(calves as nat).len() as int)
            == decimal(calves as nat),
{
    reveal_strlit("Working with ");
    let head = "Working with "@;
    let tail = if calves == 1 { " agent"@ } else { " agents"@ };
    if calves > 0 {
        assert((head + decimal(calves as nat) + tail).subrange(13, 13 + decimal(calves as nat).len() as int)
            =~= decimal(calves as nat));
    }
}

/// The character of a cell: a space when no dot is raised, else the
/// Braille pattern `U+2800 + bits`.
pub open spec fn braille_spec(bits: u8) -> char {
    if bits == 0 { ' ' } else { ((0x2800 + bits) as u32) as char }
}

/// The character with code `code`, where `code` is a Unicode scalar value.
///
/// Trusted: std's `char::from_u32`, documented to return `Some` exactly for
/// the scalar values (all codes up to `0x10FFFF` but the surrogates
/// `0xD800..=0xDFFF`), holding the character with that code.
#[verifier::external_body]
fn char_from_u32(code: u32) -> (c: Option<char>)
    ensures
        (code <= 0xD7FF || (0xE000 <= code <= 0x10FFFF)) <==> c is Some,
        c matches Some(ch) ==> ch == code as char,
{
    char::from_u32(code)
}

/// Packed Braille cells, row-major; `0` is an empty cell.
#[derive(Clone, Debug, PartialEq, Eq)]
pub struct Grid {
    pub cols: u16,
    pub rows: u16,
    pub cells: Vec<u8>,
}

impl Grid {
    /// Every cell of the grid is stored.
    pub open spec fn holds_all(&self) -> bool {
        self.rows * self.cols <= self.cells@.len()
    }

    pub open spec fn cell_spec(&self, col: int, row: int) -> u8 {
        self.cells@[row * self.cols + col]
    }

    /// The cell at `(col, row)`.
    pub fn cell(&self, col: u16, row: u16) -> (b: u8)
        requires
            row * self.cols + col < self.cells@.len(),
        ensures
            b == self.cell_spec(col as int, row as int),
    {
        let n = self.cells.len();
        let r = row as usize;
        let w = self.cols as usize;
        assert(r * w <= row * self.cols + col) by (nonlinear_arith)
            requires r == row, w == self.cols;
        assert(r * w + col < n);
        self.cells[r * w + col as usize]
    }

    /// The cell as text: `U+2800 + bits`, or a space.
    pub fn char_at(&self, col: u16, row: u16) -> (c: char)
        requires
            row * self.cols + col < self.cells@.len(),
        ensures
            c == braille_spec(self.cell_spec(col as int, row as int)),
    {
        let bits = self.cell(col, row);
        if bits == 0 {
            ' '
        } else {
            match char_from_u32(0x2800 + bits as u32) {
                Some(c) => c,
                None => ' ',
            }
        }
    }

    /// Row `row` as text.
    pub open spec fn row_text(&self, row: int) -> Seq<char> {
        Seq::new(self.cols as nat, |c: int| braille_spec(self.cell_spec(c, row)))
    }

    /// The first `n` rows, joined by newlines.
    pub open spec fn rows_text(&self, n: int) -> Seq<char>
        decreases n,
    {
        if n <= 0 {
            Seq::empty()
        } else if n == 1 {
            self.row_text(0)
        } else {
            self.rows_text(n - 1) + seq!['\n'] + self.row_text(n - 1)
        }
    }

    /// Rows of text, joined by newlines, as the kit's stills are written.
    pub fn text(&self) -> (s: String)
        requires
            self.holds_all(),
        ensures
            s@ == self.rows_text(self.rows as int),
    {
        let mut out: Vec<char> = Vec::new();
        let mut r: u16 = 0;
        while r < self.rows
            invariant
                r <= self.rows,
                self.holds_all(),
                out@ == self.rows_text(r as int),
            decreases self.rows - r,
        {
            if r > 0 {
                out.push('\n');
            }
            let ghost before = out@;
            let mut c: u16 = 0;
            while c < self.cols
                invariant
                    c <= self.cols,
                    r < self.rows,
                    self.holds_all(),
                    out@ == before + self.row_text(r as int).take(c as int),
                decreases self.cols - c,
            {
                proof {
                    assert(r * self.cols + c < self.rows * self.cols) by (nonlinear_arith)
                        requires
                            r < self.rows,
                            c < self.cols,
                    ;
                }
                out.push(self.char_at(c, r));
                assert(self.row_text(r as int).take(c + 1) =~= self.row_text(r as int).take(c as int).push(
                    braille_spec(self.cell_spec(c as int, r as int)),
                ));
                c = c + 1;
            }
            assert(self.row_text(r as int).take(self.cols as int) =~= self.row_text(r as int));
            assert(out@ =~= self.rows_text(r + 1));
            r = r + 1;
        }
        string_of(out.as_slice())
    }
}

/// The optical size the art is drawn at in a `cols` x `rows` viewport, or
/// `None` below 16x8 cells, where only the words fit.
pub open spec fn frame_size_spec(cols: u16, rows: u16) -> Option<u32> {
    if cols < 16 || rows < 8 {
        None
    } else {
        let w = cols * 2;
        let h = rows * 4;
        Some((if w < h { w } else { h }) as u32)
    }
}

/// The size the kit's `frame` draws a `cols` x `rows` viewport at: the
/// smaller of its width and height in dots, or `None` below 16x8 cells.
pub fn frame_size(cols: u16, rows: u16) -> (s: Option<u32>)
    ensures
        s == frame_size_spec(cols, rows),
{
    if cols < 16 || rows < 8 {
        return None;
    }
    let w = cols as u32 * 2;
    let h = rows as u32 * 4;
    Some(if w < h { w } else { h })
}

/// One exported pose at one optical size, by its key, calf count and size.
#[derive(Clone, Debug)]
pub struct SceneKey {
    pub state: String,
    pub calves: u8,
    pub size: u32,
}

/// The distance between two sizes.
pub open spec fn size_gap(a: u32, b: u32) -> int {
    if a >= b { a - b } else { b - a }
}

/// Whether scene `i` is the pose `state` draws.
pub open spec fn scene_matches(scenes: Seq<SceneKey>, i: int, state: WhaleState) -> bool {
    scenes[i].state@ == state.scene_key_spec().0 && scenes[i].calves == state.scene_key_spec().1
}

/// The scene `state` draws at `size`: the first of its poses whose optical
/// size is nearest `size`, or `None` when none was exported.
pub fn nearest_scene(scenes: &[SceneKey], state: WhaleState, size: u32) -> (r: Option<usize>)
    ensures
        r is None <==> forall|i: int| 0 <= i < scenes@.len() ==> !scene_matches(scenes@, i, state),
        r matches Some(i) ==> {
            &&& i < scenes@.len()
            &&& scene_matches(scenes@, i as int, state)
            &&& forall|j: int| 0 <= j < scenes@.len() && scene_matches(scenes@, j, state) ==> size_gap(
                scenes@[i as int].size,
                size,
            ) <= size_gap(#[trigger] scenes@[j].size, size)
            &&& forall|j: int| 0 <= j < i && scene_matches(scenes@, j, state) ==> size_gap(
                scenes@[i as int].size,
                size,
            ) < size_gap(#[trigger] scenes@[j].size, size)
        },
{
    let (key, calves) = state.scene_key();
    let key_chars = chars_of(key);
    let mut best: Option<usize> = None;
    let mut best_gap: u32 = 0;
    let mut i: usize = 0;
    while i < scenes.len()
        invariant
            i <= scenes@.len(),
            key_chars@ == state.scene_key_spec().0,
            calves == state.scene_key_spec().1,
            best is None <==> forall|j: int| 0 <= j < i ==> !scene_matches(scenes@, j, state),
            best matches Some(b) ==> {
                &&& b < i
                &&& scene_matches(scenes@, b as int, state)
                &&& best_gap == size_gap(scenes@[b as int].size, size)
                &&& forall|j: int| 0 <= j < i && scene_matches(scenes@, j, state) ==> best_gap <= size_gap(
                    #[trigger] scenes@[j].size,
                    size,
                )
                &&& forall|j: int| 0 <= j < b && scene_matches(scenes@, j, state) ==> best_gap < size_gap(
                    #[trigger] scenes@[j].size,
                    size,
                )
            },
        decreases scenes@.len() - i,
    {
        let s = &scenes[i];
        let name = chars_of(s.state.as_str());
        let same = s.calves == calves && seq_eq(name.as_slice(), key_chars.as_slice());
        assert(same == scene_matches(scenes@, i as int, state));
        if same {
            let gap = if s.size >= size { s.size - size } else { size - s.size };
            match best {
                None => {
                    best = Some(i);
                    best_gap = gap;
                },
                Some(_) => {
                    if gap < best_gap {
                        best = Some(i);
                        best_gap = gap;
                    }
                },
            }
        }
        i = i + 1;
    }
    best
}

/// The whale widget: the art, centred, with its words on the row below.
#[derive(Clone, Debug, PartialEq, Eq)]
pub struct Whale {
    pub state: WhaleState,
    /// Localized words; `None` uses [`WhaleState::words`].
    pub words: Option<String>,
}

/// The largest standard viewport (32x16, 20x10, 16x8) that fits in `area`
/// with a row to spare for the words.
pub open spec fn viewport_spec(area: Rect) -> Option<(u16, u16)> {
    let rows = if area.height >= 1 { area.height - 1 } else { 0 };
    if area.width >= 32 && rows >= 16 {
        Some((32u16, 16u16))
    } else if area.width >= 20 && rows >= 10 {
        Some((20u16, 10u16))
    } else if area.width >= 16 && rows >= 8 {
        Some((16u16, 8u16))
    } else {
        None
    }
}

/// The art always fits: the viewport chosen for an area lies within it,
/// with a row to spare for the words, and a viewport is at least 16x8.
pub proof fn law_viewport_fits(area: Rect)
    ensures
        viewport_spec(area) matches Some((cols, rows)) ==> {
            &&& cols <= area.width && rows + 1 <= area.height
            &&& frame_size_spec(cols, rows) is Some
        },
{
}

/// Where the art goes: `cols` x `rows` cells from `(x, y)`, and its label
/// on the row below.
#[derive(Clone, Copy, Debug, PartialEq, Eq, Structural)]
pub struct WhaleArt {
    pub x: u16,
    pub y: u16,
    pub cols: u16,
    pub rows: u16,
    pub label_area: Rect,
}

/// What the whale paints: its label, centred; the art where a viewport
/// fits, with the label under it; or else the label alone on the first
/// row, `words_area`.
pub struct WhaleLayout {
    pub label: Line,
    pub words_area: Rect,
    pub art: Option<WhaleArt>,
}

impl Whale {
    pub fn new(state: WhaleState) -> (w: Self)
        ensures
            w.state == state,
            w.words is None,
    {
        Whale { state, words: None }
    }

    /// The same whale with localized words.
    pub fn words(self, words: &str) -> (w: Self)
        ensures
            w.state == self.state,
            w.words matches Some(s) && s@ == words@,
    {
        Whale { words: Some(owned(words)), ..self }
    }

    /// The largest standard viewport that fits, with a row for the words.
    pub fn viewport(area: Rect) -> (v: Option<(u16, u16)>)
        ensures
            v == viewport_spec(area),
    {
        let rows = area.height.saturating_sub(1);
        if area.width >= 32 && rows >= 16 {
            Some((32, 16))
        } else if area.width >= 20 && rows >= 10 {
            Some((20, 10))
        } else if area.width >= 16 && rows >= 8 {
            Some((16, 8))
        } else {
            None
        }
    }

    /// The words the label carries: the localized ones, or the state's.
    pub open spec fn label_words(&self) -> Seq<char> {
        match self.words {
            Some(w) => w@,
            None => self.state.words_spec(),
        }
    }

    /// The label: the state's mark in its hue, a space, and the words in
    /// `Foreground`, centred.
    pub open spec fn label_spec(&self, theme: Theme) -> LineView {
        let state = self.state.state_spec();
        LineView {
            alignment: Some(Alignment::Center),
            ..line_of(
                seq![
                    (pick_spec(state.glyph_spec(), theme.ascii_spec()), theme.fg_spec(state.role_spec())),
                    (" "@, Style::plain()),
                    (safe_text(self.label_words()), theme.fg_spec(Role::Foreground)),
                ],
            )
        }
    }

    /// Where the whale and its label go in `area`. ASCII-safe terminals
    /// get the words alone: Braille has no honest ASCII form.
    pub fn layout(&self, area: Rect, theme: &Theme) -> (l: WhaleLayout)
        requires
            area.fits(),
        ensures
            l.label@ == self.label_spec(*theme),
            l.words_area == (Rect { height: 1, ..area }),
            l.art == (if area.is_empty_spec() || theme.ascii_spec() {
                None
            } else {
                match viewport_spec(area) {
                    Some((cols, rows)) => {
                        let x = (area.x + (area.width - cols) / 2) as u16;
                        let y = (area.y + (area.height - rows - 1) / 2) as u16;
                        Some(WhaleArt { x, y, cols, rows, label_area: Rect { y: (y + rows) as u16, height: 1, ..area } })
                    },
                    None => None,
                }
            }),
    {
        let words = match &self.words {
            Some(w) => owned(w.as_str()),
            None => self.state.words(),
        };
        let mark = StatusMark::new(self.state.state()).word(words.as_str());
        let spans = mark.spans(theme);
        assert(span_views(spans@) =~= self.label_spec(*theme).spans);
        let label = Line::from_spans(spans).centered();
        let words_area = Rect { height: 1, ..area };
        let mut art = None;
        if !area.is_empty() && !theme.ascii() {
            if let Some((cols, rows)) = Self::viewport(area) {
                let x = area.x + (area.width - cols) / 2;
                let y = area.y + (area.height - rows - 1) / 2;
                art = Some(WhaleArt { x, y, cols, rows, label_area: Rect { y: y + rows, height: 1, ..area } });
            }
        }
        WhaleLayout { label, words_area, art }
    }
}

} // verus!
