//! Key labels, spelled one way everywhere: `Ctrl+O`, `Alt+V` (`⌥V` on
//! macOS), `Shift+Tab`, `PgUp`. Arrows are glyphs (`↑↓`), and ASCII-safe
//! terminals get words (`Up/Down`).
//!
//! Keys arrive here as plain values; the host converts its terminal
//! library's key events into [`KeyEvent`].

use std::borrow::Cow;

use vstd::prelude::*;

use crate::seqs::{
    ascii_upper, ascii_upper_exec, chars_of, concat, cow_chars, decimal, decimal_exec, replace_all,
    replace_all_exec, seq_eq, string_of,
};

verus! {

/// Where the labels will be read.
#[derive(Clone, Copy, Debug, PartialEq, Eq, Hash, Structural)]
pub struct Platform {
    pub macos: bool,
    pub ascii: bool,
}

/// A key without modifiers.
#[derive(Clone, Copy, Debug, PartialEq, Eq, Hash, Structural)]
pub enum KeyCode {
    Backspace,
    Enter,
    Left,
    Right,
    Up,
    Down,
    Home,
    End,
    PageUp,
    PageDown,
    Tab,
    BackTab,
    Delete,
    Insert,
    F(u8),
    Char(char),
    Esc,
    /// Any other key (media, lock and modifier keys, ...).
    Other,
}

/// The modifiers held with a key.
#[derive(Clone, Copy, Debug, PartialEq, Eq, Hash, Structural)]
pub struct KeyModifiers {
    pub shift: bool,
    pub control: bool,
    pub alt: bool,
    /// `SUPER`: Cmd on macOS, the Windows key elsewhere.
    pub super_key: bool,
}

impl KeyModifiers {
    pub fn none() -> (m: KeyModifiers)
        ensures
            !m.shift && !m.control && !m.alt && !m.super_key,
    {
        KeyModifiers { shift: false, control: false, alt: false, super_key: false }
    }
}

/// A key and its modifiers.
#[derive(Clone, Copy, Debug, PartialEq, Eq, Hash, Structural)]
pub struct KeyEvent {
    pub code: KeyCode,
    pub modifiers: KeyModifiers,
}

impl KeyEvent {
    pub fn new(code: KeyCode, modifiers: KeyModifiers) -> (e: KeyEvent)
        ensures
            e.code == code,
            e.modifiers == modifiers,
    {
        KeyEvent { code, modifiers }
    }
}

/// A catalog chord rendered for the platform: macOS shows `⌥` for `Alt+`
/// and `fn+F1` for `F1`; ASCII-safe terminals and other platforms keep the
/// portable spelling.
pub open spec fn display_chord_spec(chord: Seq<char>, platform: Platform) -> Seq<char> {
    if platform.ascii || !platform.macos {
        chord
    } else {
        replace_all(replace_all(chord, "Alt+"@, "⌥"@), "F1"@, "fn+F1"@)
    }
}

/// Render a catalog chord such as `Alt+V` for the platform: macOS shows
/// `⌥V` and `fn+F1`; ASCII-safe terminals keep the portable spelling.
pub fn display_chord(chord: &str, platform: Platform) -> (r: Cow<'_, str>)
    ensures
        r@ == display_chord_spec(chord@, platform),
        (r matches Cow::Borrowed(_)) <==> display_chord_spec(chord@, platform) == chord@,
{
    if platform.ascii || !platform.macos {
        return Cow::Borrowed(chord);
    }
    let chars = chars_of(chord);
    proof {
        reveal_strlit("Alt+");
        reveal_strlit("F1");
    }
    let step = replace_all_exec(&chars, &chars_of("Alt+"), &chars_of("⌥"));
    let rendered = replace_all_exec(&step, &chars_of("F1"), &chars_of("fn+F1"));
    if seq_eq(rendered.as_slice(), chars.as_slice()) {
        Cow::Borrowed(chord)
    } else {
        Cow::Owned(string_of(rendered.as_slice()))
    }
}

/// The label for one key without modifiers.
pub open spec fn key_name_spec(code: KeyCode, platform: Platform) -> Seq<char> {
    match code {
        KeyCode::Up => if platform.ascii { "Up"@ } else { "↑"@ },
        KeyCode::Down => if platform.ascii { "Down"@ } else { "↓"@ },
        KeyCode::Left => if platform.ascii { "Left"@ } else { "←"@ },
        KeyCode::Right => if platform.ascii { "Right"@ } else { "→"@ },
        KeyCode::Enter => "Enter"@,
        KeyCode::Esc => "Esc"@,
        KeyCode::Tab => "Tab"@,
        KeyCode::BackTab => "Shift+Tab"@,
        KeyCode::Backspace => "Backspace"@,
        KeyCode::Delete => "Delete"@,
        KeyCode::Insert => "Insert"@,
        KeyCode::Home => "Home"@,
        KeyCode::End => "End"@,
        KeyCode::PageUp => "PgUp"@,
        KeyCode::PageDown => "PgDn"@,
        KeyCode::F(n) => "F"@ + decimal(n as nat),
        KeyCode::Char(c) => if c == ' ' { "Space"@ } else { seq![c] },
        KeyCode::Other => "?"@,
    }
}

fn label(s: &'static str) -> (r: Cow<'static, str>)
    ensures
        r@ == s@,
        r matches Cow::Borrowed(_),
{
    Cow::Borrowed(s)
}

/// The label for one key without modifiers.
pub fn key_name(code: KeyCode, platform: Platform) -> (r: Cow<'static, str>)
    ensures
        r@ == key_name_spec(code, platform),
        (r matches Cow::Owned(_)) <==> (code is F || (code matches KeyCode::Char(c) && c != ' ')),
{
    match code {
        KeyCode::Up => label(if platform.ascii { "Up" } else { "↑" }),
        KeyCode::Down => label(if platform.ascii { "Down" } else { "↓" }),
        KeyCode::Left => label(if platform.ascii { "Left" } else { "←" }),
        KeyCode::Right => label(if platform.ascii { "Right" } else { "→" }),
        KeyCode::Enter => label("Enter"),
        KeyCode::Esc => label("Esc"),
        KeyCode::Tab => label("Tab"),
        KeyCode::BackTab => label("Shift+Tab"),
        KeyCode::Backspace => label("Backspace"),
        KeyCode::Delete => label("Delete"),
        KeyCode::Insert => label("Insert"),
        KeyCode::Home => label("Home"),
        KeyCode::End => label("End"),
        KeyCode::PageUp => label("PgUp"),
        KeyCode::PageDown => label("PgDn"),
        KeyCode::F(n) => {
            let digits = decimal_exec(n as u64);
            let name = concat(chars_of("F").as_slice(), digits.as_slice());
            Cow::Owned(string_of(name.as_slice()))
        },
        KeyCode::Char(c) => if c == ' ' {
            label("Space")
        } else {
            let one = vec![c];
            Cow::Owned(string_of(one.as_slice()))
        },
        KeyCode::Other => label("?"),
    }
}

/// The modifier prefix of a chord: `Ctrl+`, `Alt+`, `Cmd+`/`Super+`, and
/// `Shift+` (except for `BackTab`, which names its shift itself).
pub open spec fn modifier_prefix(key: KeyEvent, platform: Platform) -> Seq<char> {
    let m = key.modifiers;
    (if m.control { "Ctrl+"@ } else { Seq::empty() }) + (if m.alt { "Alt+"@ } else { Seq::empty() }) + (
    if m.super_key {
        if platform.macos { "Cmd+"@ } else { "Super+"@ }
    } else {
        Seq::empty()
    }) + (if m.shift && key.code != KeyCode::BackTab { "Shift+"@ } else { Seq::empty() })
}

/// The label [`chord_label`] gives a key event. A letter under a modifier,
/// or an upper-case letter, is shown in capitals.
pub open spec fn chord_label_spec(key: KeyEvent, platform: Platform) -> Seq<char> {
    let prefix = modifier_prefix(key, platform);
    let name = match key.code {
        KeyCode::Char(c) => if prefix.len() > 0 || ('A' <= c <= 'Z') {
            seq![ascii_upper(c)]
        } else {
            key_name_spec(key.code, platform)
        },
        _ => key_name_spec(key.code, platform),
    };
    display_chord_spec(prefix + name, platform)
}

/// A letter shown in capitals.
pub open spec fn capital(c: char) -> char {
    if 'a' <= c <= 'z' { ((c as u32) - 32) as char } else { c }
}

/// The Super key reads `Cmd+` on macOS and `Super+` elsewhere: a letter
/// held with Super alone is that prefix and the letter in capitals.
pub proof fn law_super_is_cmd_on_macos(c: char, macos: bool)
    requires
        'a' <= c <= 'z' || 'A' <= c <= 'Z',
    ensures
        chord_label_spec(
            KeyEvent {
                code: KeyCode::Char(c),
                modifiers: KeyModifiers { shift: false, control: false, alt: false, super_key: true },
            },
            Platform { macos, ascii: false },
        ) == (if macos { "Cmd+"@ } else { "Super+"@ }).push(capital(c)),
{
    reveal_strlit("Cmd+");
    reveal_strlit("Super+");
    reveal_strlit("Alt+");
    reveal_strlit("F1");
    reveal_strlit("⌥");
    reveal_strlit("fn+F1");
    if macos {
        let s = "Cmd+"@.push(capital(c));
        reveal_with_fuel(replace_all, 6);
        assert(s[0] == 'C' && s[1] == 'm' && s[2] == 'd' && s[3] == '+');
        assert(s.take(4)[0] != "Alt+"@[0]);
        assert(s.drop_first().take(4)[0] != "Alt+"@[0]);
        assert(replace_all(s, "Alt+"@, "⌥"@) =~= s);
        assert(s.take(2)[0] != "F1"@[0]);
        assert(s.skip(1).take(2)[0] != "F1"@[0]);
        assert(s.skip(2).take(2)[0] != "F1"@[0]);
        assert(s.skip(3).take(2)[0] != "F1"@[0]);
        assert(replace_all(s, "F1"@, "fn+F1"@) =~= s);
    }
}

/// Ctrl reads `Ctrl+` everywhere; Alt reads `⌥` on macOS and `Alt+`
/// elsewhere and in ASCII-safe terminals. A letter held with either is
/// that prefix and the letter in capitals.
pub proof fn law_ctrl_and_alt_spelling(c: char, macos: bool, ascii: bool)
    requires
        'a' <= c <= 'z' || 'A' <= c <= 'Z',
    ensures
        chord_label_spec(
            KeyEvent {
                code: KeyCode::Char(c),
                modifiers: KeyModifiers { shift: false, control: true, alt: false, super_key: false },
            },
            Platform { macos, ascii },
        ) == "Ctrl+"@.push(capital(c)),
        chord_label_spec(
            KeyEvent {
                code: KeyCode::Char(c),
                modifiers: KeyModifiers { shift: false, control: false, alt: true, super_key: false },
            },
            Platform { macos, ascii },
        ) == (if macos && !ascii { "⌥"@ } else { "Alt+"@ }).push(capital(c)),
{
    reveal_strlit("Ctrl+");
    reveal_strlit("Alt+");
    reveal_strlit("F1");
    reveal_strlit("⌥");
    reveal_strlit("fn+F1");
    reveal_with_fuel(replace_all, 7);
    if macos && !ascii {
        let s = "Ctrl+"@.push(capital(c));
        assert(s[0] == 'C' && s[1] == 't' && s[2] == 'r' && s[3] == 'l' && s[4] == '+');
        assert(s.take(4)[0] != "Alt+"@[0]);
        assert(s.drop_first().take(4)[0] != "Alt+"@[0]);
        assert(s.drop_first().drop_first().take(4)[0] != "Alt+"@[0]);
        assert(replace_all(s, "Alt+"@, "⌥"@) =~= s);
        assert(s.take(2)[0] != "F1"@[0]);
        assert(s.skip(1).take(2)[0] != "F1"@[0]);
        assert(s.skip(2).take(2)[0] != "F1"@[0]);
        assert(s.skip(3).take(2)[0] != "F1"@[0]);
        assert(s.skip(4).take(2)[0] != "F1"@[0]);
        assert(replace_all(s, "F1"@, "fn+F1"@) =~= s);
        let a = "Alt+"@.push(capital(c));
        assert(a.take(4) =~= "Alt+"@);
        assert(replace_all(a, "Alt+"@, "⌥"@) =~= "⌥"@.push(capital(c)));
        let m = "⌥"@.push(capital(c));
        assert(m.take(2)[0] != "F1"@[0]);
        assert(replace_all(m, "F1"@, "fn+F1"@) =~= m);
    }
}

fn append_str(out: Vec<char>, s: &str) -> (r: Vec<char>)
    ensures
        r@ == out@ + s@,
{
    concat(out.as_slice(), chars_of(s).as_slice())
}

/// The label for a key event: `Ctrl+O`, `⌥V`, `Ctrl+Shift+E`, `Enter`, `a`.
/// A letter under a modifier is shown in capitals, as the catalog does.
pub fn chord_label(key: &KeyEvent, platform: Platform) -> (s: String)
    ensures
        s@ == chord_label_spec(*key, platform),
{
    let mods = key.modifiers;
    let mut out: Vec<char> = Vec::new();
    if mods.control {
        out = append_str(out, "Ctrl+");
    }
    if mods.alt {
        out = append_str(out, "Alt+");
    }
    if mods.super_key {
        out = append_str(out, if platform.macos { "Cmd+" } else { "Super+" });
    }
    let shifted_letter = match key.code {
        KeyCode::Char(c) => 'A' <= c && c <= 'Z',
        _ => false,
    };
    let back_tab = match key.code {
        KeyCode::BackTab => true,
        _ => false,
    };
    if mods.shift && !back_tab {
        out = append_str(out, "Shift+");
    }
    assert(out@ == modifier_prefix(*key, platform));
    let name: Vec<char> = match key.code {
        KeyCode::Char(c) => if out.len() > 0 || shifted_letter {
            vec![ascii_upper_exec(c)]
        } else {
            cow_chars(&key_name(key.code, platform))
        },
        code => cow_chars(&key_name(code, platform)),
    };
    assert(name@ == (match key.code {
        KeyCode::Char(c) => if modifier_prefix(*key, platform).len() > 0 || ('A' <= c <= 'Z') {
            seq![ascii_upper(c)]
        } else {
            key_name_spec(key.code, platform)
        },
        _ => key_name_spec(key.code, platform),
    }));
    let full = concat(out.as_slice(), name.as_slice());
    let text = string_of(full.as_slice());
    assert(full@ == modifier_prefix(*key, platform) + name@);
    let shown = display_chord(text.as_str(), platform);
    assert(shown@ == display_chord_spec(full@, platform));
    string_of(cow_chars(&shown).as_slice())
}

/// Two keys that do one thing in opposite directions: `↑↓`, or `Up/Down`
/// when ASCII-safe.
pub open spec fn pair_label_spec(a: KeyCode, b: KeyCode, platform: Platform) -> Seq<char> {
    if platform.ascii {
        key_name_spec(a, platform) + "/"@ + key_name_spec(b, platform)
    } else {
        key_name_spec(a, platform) + key_name_spec(b, platform)
    }
}

/// Two keys that do one thing in opposite directions: `↑↓`, or `Up/Down`
/// when ASCII-safe.
pub fn pair_label(a: KeyCode, b: KeyCode, platform: Platform) -> (s: String)
    ensures
        s@ == pair_label_spec(a, b, platform),
{
    let first = cow_chars(&key_name(a, platform));
    let second = cow_chars(&key_name(b, platform));
    let joined = if platform.ascii {
        let with_slash = append_str(first, "/");
        concat(with_slash.as_slice(), second.as_slice())
    } else {
        concat(first.as_slice(), second.as_slice())
    };
    string_of(joined.as_slice())
}

/// `Ctrl` on Linux and Windows, or `Cmd` (SUPER) on macOS.
pub fn has_control_like_modifier(modifiers: KeyModifiers, platform: Platform) -> (b: bool)
    ensures
        b == (modifiers.control || (platform.macos && modifiers.super_key)),
{
    modifiers.control || (platform.macos && modifiers.super_key)
}

/// `Alt+<key>` navigation: requires Alt, rejects Ctrl and Super so it never
/// collides with clipboard or window-management chords. Shift is allowed.
pub fn alt_nav_modifiers(modifiers: KeyModifiers) -> (b: bool)
    ensures
        b == (modifiers.alt && !modifiers.control && !modifiers.super_key),
{
    modifiers.alt && !modifiers.control && !modifiers.super_key
}

/// `Ctrl+H` is the ASCII backspace many terminals still send for Backspace.
pub fn is_ctrl_h_backspace(key: &KeyEvent) -> (b: bool)
    ensures
        b == (key.code == KeyCode::Char('h') && key.modifiers.control && !key.modifiers.alt
            && !key.modifiers.super_key),
{
    let is_h = match key.code {
        KeyCode::Char(c) => c == 'h',
        _ => false,
    };
    is_h && key.modifiers.control && !key.modifiers.alt && !key.modifiers.super_key
}

} // verus!
