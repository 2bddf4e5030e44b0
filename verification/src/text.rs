//! Text that is safe to measure and paint.
//!
//! Every string a caller passes can come from a model, a tool or a file
//! name. Bidirectional overrides can make `rm -rf ~/x` display as something
//! else, so every component runs caller text through [`display_safe`]
//! first. Widths and grapheme boundaries come from `unicode-width` and
//! `unicode-segmentation`.

use std::borrow::Cow;

use unicode_segmentation::UnicodeSegmentation;
use unicode_width::UnicodeWidthStr;
use vstd::prelude::*;

use crate::glyphs::{self, pick_spec, ELLIPSIS};
use crate::seqs::{
    all_whitespace, all_whitespace_exec, chars_of, concat, cow_chars, prefix, string_of, trim_end,
    trim_end_len,
};

verus! {

/// The width in terminal cells that `unicode-width` gives a string.
pub uninterp spec fn str_width(text: Seq<char>) -> nat;

/// The extended grapheme clusters `unicode-segmentation` splits a string into.
pub uninterp spec fn grapheme_clusters(text: Seq<char>) -> Seq<Seq<char>>;

/// `char::is_control`: the general category Cc.
pub open spec fn is_control(c: char) -> bool {
    c as u32 <= 0x1F || (0x7F <= c as u32 <= 0x9F)
}

/// Characters that reorder or hide text without drawing anything: the
/// bidirectional embeddings, overrides, isolates and marks, and every
/// control character.
pub open spec fn is_hidden_control(c: char) -> bool {
    ||| 0x202A <= c as u32 <= 0x202E
    ||| 0x2066 <= c as u32 <= 0x2069
    ||| c as u32 == 0x200E
    ||| c as u32 == 0x200F
    ||| c as u32 == 0x061C
    ||| is_control(c)
}

fn is_hidden_control_exec(c: char) -> (b: bool)
    ensures
        b == is_hidden_control(c),
{
    let u = c as u32;
    (0x202A <= u && u <= 0x202E) || (0x2066 <= u && u <= 0x2069) || u == 0x200E || u == 0x200F
        || u == 0x061C || u <= 0x1F || (0x7F <= u && u <= 0x9F)
}

/// `s` with every hidden control removed, order kept.
pub open spec fn safe_text(s: Seq<char>) -> Seq<char>
    decreases s.len(),
{
    if s.len() == 0 {
        s
    } else if is_hidden_control(s.last()) {
        safe_text(s.drop_last())
    } else {
        safe_text(s.drop_last()).push(s.last())
    }
}

/// Display-safe text holds no control character and no bidi override, so
/// caller text can neither reorder itself nor move the cursor; and the
/// characters it keeps are the input's, in order.
pub proof fn law_display_safe_strips_every_control(s: Seq<char>)
    ensures
        forall|i: int| 0 <= i < safe_text(s).len() ==> !is_hidden_control(#[trigger] safe_text(s)[i]),
        safe_text(s).len() <= s.len(),
        safe_text(safe_text(s)) == safe_text(s),
    decreases s.len(),
{
    if s.len() > 0 {
        law_display_safe_strips_every_control(s.drop_last());
        let rest = safe_text(s.drop_last());
        if !is_hidden_control(s.last()) {
            assert(rest.push(s.last()).drop_last() == rest);
            lemma_safe_text_clean(rest.push(s.last()));
        }
    }
}

/// Text with no control in it is its own display-safe form.
proof fn lemma_safe_text_clean(s: Seq<char>)
    requires
        forall|i: int| 0 <= i < s.len() ==> !is_hidden_control(#[trigger] s[i]),
    ensures
        safe_text(s) == s,
    decreases s.len(),
{
    if s.len() > 0 {
        assert(!is_hidden_control(s[s.len() - 1]));
        lemma_safe_text_clean(s.drop_last());
        assert(s.drop_last().push(s.last()) == s);
    }
}

/// `text` without bidi controls or other control characters. Text with
/// nothing to remove comes back borrowed.
pub fn display_safe(text: &str) -> (r: Cow<'_, str>)
    ensures
        r@ == safe_text(text@),
        (r matches Cow::Borrowed(_)) <==> (forall|i: int|
            0 <= i < text@.len() ==> !is_hidden_control(#[trigger] text@[i])),
{
    let chars = chars_of(text);
    let mut kept: Vec<char> = Vec::new();
    let mut hidden = false;
    let mut i: usize = 0;
    while i < chars.len()
        invariant
            i <= chars.len(),
            chars@ == text@,
            kept@ == safe_text(chars@.take(i as int)),
            !hidden <==> forall|j: int| 0 <= j < i ==> !is_hidden_control(#[trigger] chars@[j]),
            !hidden ==> kept@ == chars@.take(i as int),
        decreases chars.len() - i,
    {
        let c = chars[i];
        assert(chars@.take(i + 1).drop_last() == chars@.take(i as int));
        if is_hidden_control_exec(c) {
            hidden = true;
        } else {
            kept.push(c);
        }
        i = i + 1;
    }
    assert(chars@.take(chars.len() as int) == chars@);
    if hidden {
        Cow::Owned(string_of(kept.as_slice()))
    } else {
        Cow::Borrowed(text)
    }
}

/// Display width in terminal cells.
///
/// Trusted: `unicode_width::UnicodeWidthStr::width`, whose result is named
/// [`str_width`].
#[verifier::external_body]
pub fn width(text: &str) -> (w: usize)
    ensures
        w == str_width(text@),
{
    UnicodeWidthStr::width(text)
}

/// The width of a run of characters.
fn width_of(chars: &[char]) -> (w: usize)
    ensures
        w == str_width(chars@),
{
    let s = string_of(chars);
    width(s.as_str())
}

/// The concatenation of a sequence of strings.
pub open spec fn concat_all(gs: Seq<Seq<char>>) -> Seq<char>
    decreases gs.len(),
{
    if gs.len() == 0 {
        Seq::empty()
    } else {
        concat_all(gs.drop_last()) + gs.last()
    }
}

/// The extended grapheme clusters of `text`, in order, each as characters.
///
/// Trusted: `unicode_segmentation::UnicodeSegmentation::graphemes` with
/// extended clusters. Its result is named [`grapheme_clusters`]; the contract
/// adds only what the crate documents of an iterator over the clusters of a
/// string: they are non-empty and together spell the string.
#[verifier::external_body]
fn graphemes(text: &str) -> (gs: Vec<Vec<char>>)
    ensures
        gs@.map_values(|g: Vec<char>| g@) == grapheme_clusters(text@),
        concat_all(gs@.map_values(|g: Vec<char>| g@)) == text@,
        forall|i: int| 0 <= i < gs@.len() ==> (#[trigger] gs@[i])@.len() > 0,
{
    text.graphemes(true).map(|g| g.chars().collect()).collect()
}

/// The sum of a run of widths.
pub open spec fn sum_widths(ws: Seq<int>) -> int
    decreases ws.len(),
{
    if ws.len() == 0 {
        0
    } else {
        sum_widths(ws.drop_last()) + ws.last()
    }
}

/// The width `unicode-width` gives each grapheme.
pub open spec fn widths_of(gs: Seq<Seq<char>>) -> Seq<int> {
    gs.map_values(|g: Seq<char>| str_width(g) as int)
}

/// Widths held as machine integers, as integers.
pub open spec fn as_ints(ws: Seq<usize>) -> Seq<int> {
    ws.map_values(|w: usize| w as int)
}

pub open spec fn fit_from(ws: Seq<int>, budget: int, m: nat) -> nat
    decreases m,
{
    if m == 0 || sum_widths(ws.take(m as int)) <= budget {
        m
    } else {
        fit_from(ws, budget, (m - 1) as nat)
    }
}

/// The most leading widths that sum within `budget`.
pub open spec fn fit_count(ws: Seq<int>, budget: int) -> nat {
    fit_from(ws, budget, ws.len())
}

/// The last word break among the first `n` graphemes: the index of a
/// whitespace grapheme that directly follows a non-whitespace one.
pub open spec fn last_break(gs: Seq<Seq<char>>, n: int) -> Option<int>
    decreases n,
{
    if n <= 1 {
        None
    } else if all_whitespace(gs[n - 1]) && !all_whitespace(gs[n - 2]) {
        Some(n - 1)
    } else {
        last_break(gs, n - 1)
    }
}

/// How many leading graphemes a cut keeps, given their widths `ws`: as many
/// as fit in `budget`, or for prose, those before the last word break among
/// them when that leaves something after trailing whitespace is dropped.
pub open spec fn cut_kept(gs: Seq<Seq<char>>, ws: Seq<int>, budget: int, at_word: bool) -> int {
    let n = fit_count(ws, budget) as int;
    match last_break(gs, n) {
        Some(i) => if at_word && trim_end(concat_all(gs.take(i))).len() > 0 { i } else { n },
        None => n,
    }
}

/// The text a cut keeps before its ellipsis: the kept graphemes, without
/// trailing whitespace.
pub open spec fn cut_body(gs: Seq<Seq<char>>, ws: Seq<int>, budget: int, at_word: bool) -> Seq<char> {
    trim_end(concat_all(gs.take(cut_kept(gs, ws, budget, at_word))))
}

/// The ellipsis that marks a cut: `…`, or `.` when ASCII-safe.
pub open spec fn ellipsis(ascii: bool) -> Seq<char> {
    pick_spec(ELLIPSIS@, ascii)
}

/// The cells the text beside the ellipsis may take.
pub open spec fn cut_budget(max: int, ascii: bool) -> int {
    if max >= str_width(ellipsis(ascii)) { max - str_width(ellipsis(ascii)) } else { 0 }
}

/// What [`truncate`] (`at_word == false`) and [`truncate_words`] return.
///
/// Text within `max` cells is kept whole. Otherwise the most leading
/// graphemes that fit beside the ellipsis are kept; prose is cut at the last
/// word break among them when that leaves something; trailing whitespace is
/// dropped and the ellipsis added.
pub open spec fn cut_spec(text: Seq<char>, max: int, ascii: bool, at_word: bool) -> Seq<char> {
    if str_width(text) <= max {
        text
    } else if max == 0 {
        Seq::empty()
    } else {
        let gs = grapheme_clusters(text);
        cut_body(gs, widths_of(gs), cut_budget(max, ascii), at_word) + ellipsis(ascii)
    }
}

/// The kept graphemes of a cut and the ellipsis fit in `max` cells, by the
/// widths `unicode-width` gives the graphemes and the ellipsis.
pub open spec fn cut_fits(text: Seq<char>, max: int, ascii: bool, at_word: bool) -> bool {
    let gs = grapheme_clusters(text);
    sum_widths(widths_of(gs).take(cut_kept(gs, widths_of(gs), cut_budget(max, ascii), at_word))) + str_width(
        ellipsis(ascii),
    ) <= max
}

proof fn lemma_take_step<A>(s: Seq<A>, k: int)
    requires
        0 <= k < s.len(),
    ensures
        s.take(k + 1).drop_last() == s.take(k),
        s.take(k + 1).last() == s[k],
{
    assert(s.take(k + 1).drop_last() =~= s.take(k));
}

/// Every width is at least zero.
pub open spec fn all_nonneg(ws: Seq<int>) -> bool {
    forall|i: int| 0 <= i < ws.len() ==> ws[i] >= 0
}

proof fn lemma_sum_widths_monotone(ws: Seq<int>, j: int, m: int)
    requires
        0 <= j <= m <= ws.len(),
        all_nonneg(ws),
    ensures
        sum_widths(ws.take(j)) <= sum_widths(ws.take(m)),
    decreases m - j,
{
    if j < m {
        lemma_take_step(ws, m - 1);
        lemma_sum_widths_monotone(ws, j, m - 1);
    }
}

proof fn lemma_fit_from(ws: Seq<int>, budget: int, k: int, m: int)
    requires
        0 <= k <= m <= ws.len(),
        all_nonneg(ws),
        sum_widths(ws.take(k)) <= budget,
        k == ws.len() || sum_widths(ws.take(k + 1)) > budget,
    ensures
        fit_from(ws, budget, m as nat) == k,
    decreases m,
{
    if m > k {
        lemma_sum_widths_monotone(ws, k + 1, m);
        lemma_fit_from(ws, budget, k, m - 1);
    }
}

proof fn lemma_fit_count(ws: Seq<int>, budget: int, k: int)
    requires
        0 <= k <= ws.len(),
        all_nonneg(ws),
        sum_widths(ws.take(k)) <= budget,
        k == ws.len() || sum_widths(ws.take(k + 1)) > budget,
    ensures
        fit_count(ws, budget) == k,
{
    lemma_fit_from(ws, budget, k, ws.len() as int);
}

proof fn lemma_fit_from_fits(ws: Seq<int>, budget: int, m: int)
    requires
        budget >= 0,
        0 <= m <= ws.len(),
        m == ws.len() || sum_widths(ws.take(m + 1)) > budget,
    ensures
        fit_from(ws, budget, m as nat) <= m,
        sum_widths(ws.take(fit_from(ws, budget, m as nat) as int)) <= budget,
        fit_from(ws, budget, m as nat) == ws.len() || sum_widths(
            ws.take(fit_from(ws, budget, m as nat) as int + 1),
        ) > budget,
    decreases m,
{
    if m > 0 && sum_widths(ws.take(m)) > budget {
        lemma_fit_from_fits(ws, budget, m - 1);
    } else if m == 0 {
        assert(ws.take(0) =~= Seq::<int>::empty());
    }
}

proof fn lemma_last_break_below(gs: Seq<Seq<char>>, n: int)
    ensures
        last_break(gs, n) matches Some(i) ==> 1 <= i < n && all_whitespace(gs[i]) && !all_whitespace(gs[i - 1]),
    decreases n,
{
    if n > 1 {
        lemma_last_break_below(gs, n - 1);
    }
}

/// The kept graphemes of a cut fit the budget: the prose cut keeps no more
/// than the plain one, and the plain one keeps only what fits.
proof fn lemma_cut_kept_fits(gs: Seq<Seq<char>>, ws: Seq<int>, budget: int, at_word: bool)
    requires
        budget >= 0,
        all_nonneg(ws),
        gs.len() == ws.len(),
    ensures
        0 <= cut_kept(gs, ws, budget, at_word) <= ws.len(),
        sum_widths(ws.take(cut_kept(gs, ws, budget, at_word))) <= budget,
{
    lemma_fit_from_fits(ws, budget, ws.len() as int);
    let n = fit_count(ws, budget) as int;
    lemma_last_break_below(gs, n);
    lemma_sum_widths_monotone(ws, cut_kept(gs, ws, budget, at_word), n);
}

/// A cut keeps whole graphemes only, and as many as fit: the graphemes
/// kept fit beside the ellipsis in the cells allowed, and one more would
/// not. A wide character or a combining sequence is never split.
pub proof fn law_a_cut_keeps_the_graphemes_that_fit(text: Seq<char>, max: int, ascii: bool)
    requires
        max > 0,
    ensures
        ({
            let budget = cut_budget(max, ascii);
            let ws = widths_of(grapheme_clusters(text));
            let n = fit_count(ws, budget) as int;
            &&& sum_widths(ws.take(n)) <= budget
            &&& n == ws.len() || sum_widths(ws.take(n + 1)) > budget
        }),
{
    let ws = widths_of(grapheme_clusters(text));
    lemma_fit_from_fits(ws, cut_budget(max, ascii), ws.len() as int);
}

/// Prose is cut between words: when text is cut and a word break lies among
/// the graphemes that fit, the prose cut keeps exactly the graphemes before
/// the last such break (a whitespace grapheme right after a word), without
/// trailing whitespace, and adds the ellipsis; it never ends inside a word
/// that a break could have spared.
pub proof fn law_prose_is_cut_between_words(text: Seq<char>, max: int, ascii: bool)
    requires
        str_width(text) > max > 0,
    ensures
        ({
            let gs = grapheme_clusters(text);
            let n = fit_count(widths_of(gs), cut_budget(max, ascii)) as int;
            match last_break(gs, n) {
                Some(i) => trim_end(concat_all(gs.take(i))).len() > 0 ==> {
                    &&& 1 <= i < n
                    &&& all_whitespace(gs[i]) && !all_whitespace(gs[i - 1])
                    &&& cut_spec(text, max, ascii, true) == trim_end(concat_all(gs.take(i))) + ellipsis(ascii)
                },
                None => true,
            }
        }),
{
    let gs = grapheme_clusters(text);
    let n = fit_count(widths_of(gs), cut_budget(max, ascii)) as int;
    lemma_last_break_below(gs, n);
}

/// Cutting a run of graphemes, given each one's width: the text kept
/// before the ellipsis. Keeps the most leading graphemes whose widths fit
/// in `budget`; for prose (`at_word`), stops at the last word break among
/// them when that leaves something; drops trailing whitespace.
pub fn cut_clusters(gs: &Vec<Vec<char>>, widths: &Vec<usize>, budget: usize, at_word: bool) -> (body: Vec<char>)
    requires
        gs@.len() == widths@.len(),
    ensures
        body@ == cut_body(gs@.map_values(|g: Vec<char>| g@), as_ints(widths@), budget as int, at_word),
{
    let ghost gsv = gs@.map_values(|g: Vec<char>| g@);
    let ghost ws = as_ints(widths@);
    let mut used: usize = 0;
    let mut k: usize = 0;
    let mut kept: Vec<char> = Vec::new();
    let mut word_end: Option<usize> = None;
    let ghost mut wb: Option<int> = None;
    let mut in_word = false;
    let mut stop = false;
    while !stop && k < gs.len()
        invariant
            k <= gs.len(),
            gs@.len() == widths@.len(),
            gsv == gs@.map_values(|g: Vec<char>| g@),
            ws == as_ints(widths@),
            gsv.len() == gs@.len(),
            ws.len() == gs@.len(),
            used as int == sum_widths(ws.take(k as int)),
            used <= budget,
            kept@ == concat_all(gsv.take(k as int)),
            in_word == (k > 0 && !all_whitespace(gsv[k - 1])),
            wb == last_break(gsv, k as int),
            word_end is Some <==> wb is Some,
            wb matches Some(i) ==> (0 <= i <= k && word_end->0 as int == concat_all(gsv.take(i)).len()
                && word_end->0 <= kept@.len() && kept@.take(word_end->0 as int) == concat_all(gsv.take(i))),
            stop ==> k < gs.len() && sum_widths(ws.take(k + 1)) > budget,
        decreases gs.len() - k, (if stop { 0int } else { 1int }),
    {
        let w = widths[k];
        proof {
            lemma_take_step(gsv, k as int);
            lemma_take_step(ws, k as int);
        }
        if w > budget - used {
            stop = true;
        } else {
            used = used + w;
            let ws_k = all_whitespace_exec(&gs[k]);
            if ws_k && in_word {
                word_end = Some(kept.len());
                proof {
                    wb = Some(k as int);
                    assert(kept@.take(kept@.len() as int) == kept@);
                }
            }
            in_word = !ws_k;
            let ghost old_kept = kept@;
            kept = concat(kept.as_slice(), gs[k].as_slice());
            proof {
                if let Some(i) = wb {
                    assert(kept@.take(word_end->0 as int) == old_kept.take(word_end->0 as int));
                }
            }
            k = k + 1;
        }
    }
    proof {
        assert(all_nonneg(ws));
        lemma_fit_count(ws, budget as int, k as int);
    }
    let whole_len = trim_end_len(&kept, kept.len());
    let body_len = match word_end {
        Some(off) => if at_word { trim_end_len(&kept, off) } else { whole_len },
        None => whole_len,
    };
    let body_len = if body_len == 0 { whole_len } else { body_len };
    proof {
        assert(kept@.take(kept@.len() as int) == kept@);
    }
    prefix(kept.as_slice(), body_len)
}

/// The widths `unicode-width` gives each of `gs`.
fn cluster_widths(gs: &Vec<Vec<char>>) -> (ws: Vec<usize>)
    ensures
        ws@.len() == gs@.len(),
        as_ints(ws@) == widths_of(gs@.map_values(|g: Vec<char>| g@)),
{
    let mut ws: Vec<usize> = Vec::new();
    let mut i: usize = 0;
    while i < gs.len()
        invariant
            i <= gs.len(),
            ws@.len() == i,
            forall|j: int| 0 <= j < i ==> ws@[j] == str_width(gs@[j]@),
        decreases gs.len() - i,
    {
        ws.push(width_of(gs[i].as_slice()));
        i = i + 1;
    }
    assert(as_ints(ws@) =~= widths_of(gs@.map_values(|g: Vec<char>| g@)));
    ws
}

fn cut<'a>(text: &'a str, max: usize, ascii: bool, at_word: bool) -> (r: Cow<'a, str>)
    ensures
        r@ == cut_spec(text@, max as int, ascii, at_word),
        (r matches Cow::Borrowed(_)) <==> (str_width(text@) <= max || max == 0),
        str_width(text@) > max && max > 0 ==> (max >= str_width(ellipsis(ascii)) ==> cut_fits(
            text@,
            max as int,
            ascii,
            at_word,
        )),
{
    if width(text) <= max {
        return Cow::Borrowed(text);
    }
    if max == 0 {
        proof {
            reveal_strlit("");
        }
        return Cow::Borrowed("");
    }
    let ell = glyphs::pick(ELLIPSIS, ascii);
    let budget = max.saturating_sub(width(ell));
    let gs = graphemes(text);
    let ws = cluster_widths(&gs);
    let body = cut_clusters(&gs, &ws, budget, at_word);
    proof {
        let gsv = gs@.map_values(|g: Vec<char>| g@);
        let wv = widths_of(gsv);
        assert(all_nonneg(wv));
        lemma_cut_kept_fits(gsv, wv, budget as int, at_word);
    }
    let ell_chars = chars_of(ell);
    let out = concat(body.as_slice(), ell_chars.as_slice());
    Cow::Owned(string_of(out.as_slice()))
}

/// Fit `text` into `max` cells, ending with `…` (or `.` when ASCII-safe)
/// when anything was cut. Cuts between graphemes, so a wide character or a
/// combining sequence is never split. Use it for names, paths and IDs.
pub fn truncate(text: &str, max: usize, ascii: bool) -> (r: Cow<'_, str>)
    ensures
        r@ == cut_spec(text@, max as int, ascii, false),
        (r matches Cow::Borrowed(_)) <==> (str_width(text@) <= max || max == 0),
        str_width(text@) > max && max > 0 ==> (max >= str_width(ellipsis(ascii)) ==> cut_fits(
            text@,
            max as int,
            ascii,
            false,
        )),
{
    cut(text, max, ascii, false)
}

/// Like [`truncate`], but for prose: the cut lands between words where it
/// can, because a clipped clause reads as a sentence and a clipped word
/// reads as a bug.
pub fn truncate_words(text: &str, max: usize, ascii: bool) -> (r: Cow<'_, str>)
    ensures
        r@ == cut_spec(text@, max as int, ascii, true),
        (r matches Cow::Borrowed(_)) <==> (str_width(text@) <= max || max == 0),
        str_width(text@) > max && max > 0 ==> (max >= str_width(ellipsis(ascii)) ==> cut_fits(
            text@,
            max as int,
            ascii,
            true,
        )),
{
    cut(text, max, ascii, true)
}

/// `n` spaces.
pub open spec fn spaces(n: int) -> Seq<char> {
    Seq::new(n as nat, |i: int| ' ')
}

/// What [`pad`] returns: the truncated text, then spaces up to `cells`.
pub open spec fn pad_spec(text: Seq<char>, cells: int, ascii: bool) -> Seq<char> {
    let fitted = cut_spec(text, cells, ascii, false);
    let gap = if cells >= str_width(fitted) { cells - str_width(fitted) } else { 0 };
    fitted + spaces(gap)
}

/// Pad `text` with spaces to exactly `cells` wide (truncating first).
pub fn pad(text: &str, cells: usize, ascii: bool) -> (r: String)
    ensures
        r@ == pad_spec(text@, cells as int, ascii),
{
    let fitted = truncate(text, cells, ascii);
    let mut out = cow_chars(&fitted);
    let gap = cells.saturating_sub(width_of(out.as_slice()));
    let ghost start = out@;
    let mut i: usize = 0;
    while i < gap
        invariant
            i <= gap,
            out@ == start + spaces(i as int),
        decreases gap - i,
    {
        out.push(' ');
        assert(spaces(i as int).push(' ') == spaces(i + 1));
        i = i + 1;
    }
    string_of(out.as_slice())
}

} // verus!
