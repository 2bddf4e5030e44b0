//! Every component with fixture data, for the gallery and the snapshot
//! tests. The fixtures double as usage examples: the mode and status-line
//! pickers here are the engine's `/mode` and `/statusline` pickers rebuilt
//! from kit parts.

use vstd::prelude::*;

use crate::components::picker::PickerItem;
use crate::whale::WhaleState;

verus! {

/// What a gallery entry shows.
#[derive(Clone, Copy, Debug, PartialEq, Eq, Structural)]
pub enum Exhibit {
    KeyHints,
    StatusMarks,
    Depths,
    Horizon,
    ModePicker,
    StatusPicker,
    Toasts,
    Icons,
    Spinners,
    Whale(WhaleState),
    WhaleActions,
}

/// One gallery entry: its name, the size it is drawn at, and what it shows.
#[derive(Clone, Copy, Debug)]
pub struct Entry {
    pub name: &'static str,
    pub width: u16,
    pub height: u16,
    pub exhibit: Exhibit,
}

/// The gallery, in order: each entry's name, size and exhibit.
pub open spec fn entries_spec() -> Seq<(Seq<char>, u16, u16, Exhibit)> {
    seq![
        ("key-hints"@, 60u16, 2u16, Exhibit::KeyHints),
        ("status-marks"@, 20u16, 7u16, Exhibit::StatusMarks),
        ("depth"@, 80u16, 6u16, Exhibit::Depths),
        ("horizon"@, 60u16, 3u16, Exhibit::Horizon),
        ("mode-picker"@, 80u16, 13u16, Exhibit::ModePicker),
        ("status-picker"@, 80u16, 20u16, Exhibit::StatusPicker),
        ("toasts"@, 60u16, 3u16, Exhibit::Toasts),
        ("icons"@, 50u16, 4u16, Exhibit::Icons),
        ("spinner"@, 40u16, 3u16, Exhibit::Spinners),
        ("whale-rest"@, 36u16, 17u16, Exhibit::Whale(WhaleState::Rest)),
        ("whale-busy"@, 36u16, 17u16, Exhibit::Whale(WhaleState::Busy)),
        ("whale-needs"@, 36u16, 17u16, Exhibit::Whale(WhaleState::NeedsYou)),
        ("whale-done"@, 36u16, 17u16, Exhibit::Whale(WhaleState::Done)),
        ("whale-pod-1"@, 36u16, 17u16, Exhibit::Whale(WhaleState::Pod { calves: 1 })),
        ("whale-pod-3"@, 36u16, 17u16, Exhibit::Whale(WhaleState::Pod { calves: 3 })),
        ("whale-actions"@, 84u16, 66u16, Exhibit::WhaleActions),
        ("whale-compact"@, 24u16, 11u16, Exhibit::Whale(WhaleState::Busy)),
        ("whale-words-only"@, 14u16, 3u16, Exhibit::Whale(WhaleState::NeedsYou)),
    ]
}

fn entry(name: &'static str, width: u16, height: u16, exhibit: Exhibit) -> (e: Entry)
    ensures
        e.name == name,
        e.width == width,
        e.height == height,
        e.exhibit == exhibit,
{
    Entry { name, width, height, exhibit }
}

/// Every entry, in gallery order.
pub fn entries() -> (v: Vec<Entry>)
    ensures
        v@.len() == entries_spec().len(),
        forall|i: int| 0 <= i < v@.len() ==> ({
            let e = #[trigger] v@[i];
            (e.name@, e.width, e.height, e.exhibit) == entries_spec()[i]
        }),
{
    let v = vec![
        entry("key-hints", 60, 2, Exhibit::KeyHints),
        entry("status-marks", 20, 7, Exhibit::StatusMarks),
        entry("depth", 80, 6, Exhibit::Depths),
        entry("horizon", 60, 3, Exhibit::Horizon),
        entry("mode-picker", 80, 13, Exhibit::ModePicker),
        entry("status-picker", 80, 20, Exhibit::StatusPicker),
        entry("toasts", 60, 3, Exhibit::Toasts),
        entry("icons", 50, 4, Exhibit::Icons),
        entry("spinner", 40, 3, Exhibit::Spinners),
        entry("whale-rest", 36, 17, Exhibit::Whale(WhaleState::Rest)),
        entry("whale-busy", 36, 17, Exhibit::Whale(WhaleState::Busy)),
        entry("whale-needs", 36, 17, Exhibit::Whale(WhaleState::NeedsYou)),
        entry("whale-done", 36, 17, Exhibit::Whale(WhaleState::Done)),
        entry("whale-pod-1", 36, 17, Exhibit::Whale(WhaleState::Pod { calves: 1 })),
        entry("whale-pod-3", 36, 17, Exhibit::Whale(WhaleState::Pod { calves: 3 })),
        entry("whale-actions", 84, 66, Exhibit::WhaleActions),
        entry("whale-compact", 24, 11, Exhibit::Whale(WhaleState::Busy)),
        entry("whale-words-only", 14, 3, Exhibit::Whale(WhaleState::NeedsYou)),
    ];
    v
}

/// The engine's `/mode` rows (English names), with the hints written verbs
/// first.
pub fn mode_items() -> (v: Vec<PickerItem>)
    ensures
        v@.len() == 3,
        v@[0].label@ == "Work"@ && v@[0].key == Some('1') && v@[0].checked is None && v@[0].disabled is None,
        v@[1].label@ == "Plan"@ && v@[1].key == Some('2') && v@[1].checked is None && v@[1].disabled is None,
        v@[2].label@ == "Operate"@ && v@[2].key == Some('3') && v@[2].checked is None && v@[2].disabled is None,
        v@[0].detail matches Some(d) && d@ == "Works in this session; asks before edits and commands"@,
        v@[1].detail matches Some(d) && d@ == "Researches without changing files, then proposes a plan"@,
        v@[2].detail matches Some(d) && d@ == "Runs parallel agents on your goal and checks their work"@,
{
    vec![
        PickerItem::new("Work").key('1').detail("Works in this session; asks before edits and commands"),
        PickerItem::new("Plan").key('2').detail("Researches without changing files, then proposes a plan"),
        PickerItem::new("Operate").key('3').detail("Runs parallel agents on your goal and checks their work"),
    ]
}

/// The status-line rows: what each shows and whether it is on.
pub open spec fn status_rows() -> Seq<(Seq<char>, bool, Seq<char>)> {
    seq![
        ("Mode"@, true, "Work, Plan or Operate"@),
        ("Model"@, true, "The model the next message goes to"@),
        ("Context window %"@, true, "Tokens used of the model's context window"@),
        ("Session cost"@, true, "Running total for this session"@),
        ("Account balance"@, false, "Prepaid credit left with the active provider"@),
        ("Prompt cache hit rate"@, true, "Share of the prompt served from cache"@),
        ("Output tokens"@, true, "Output tokens of the live or last turn"@),
        ("Time to first token"@, true, "Average wait for the first token"@),
        ("Output rate"@, true, "Average tokens per second"@),
        ("Workspace"@, false, "The directory this session writes to"@),
    ]
}

fn status_row(label: &str, on: bool, detail: &str) -> (i: PickerItem)
    ensures
        i.label@ == label@,
        i.checked == Some(on),
        i.detail matches Some(d) && d@ == detail@,
        i.key is None,
        i.disabled is None,
{
    PickerItem::new(label).checked(on).detail(detail)
}

/// The engine's `/statusline` rows with the default footer checked, and
/// the git branch row, disabled outside a repository.
pub fn status_items() -> (v: Vec<PickerItem>)
    ensures
        v@.len() == 11,
        forall|i: int| 0 <= i < 10 ==> ({
            let item = #[trigger] v@[i];
            &&& item.label@ == status_rows()[i].0
            &&& item.checked == Some(status_rows()[i].1)
            &&& item.detail matches Some(d) && d@ == status_rows()[i].2
            &&& item.key is None
            &&& item.disabled is None
        }),
        v@[10].label@ == "Git branch"@,
        v@[10].checked == Some(false),
        v@[10].disabled matches Some(d) && d@ == "Not a git repository"@,
        v@[10].detail is None,
        v@[10].key is None,
{
    let v = vec![
        status_row("Mode", true, "Work, Plan or Operate"),
        status_row("Model", true, "The model the next message goes to"),
        status_row("Context window %", true, "Tokens used of the model's context window"),
        status_row("Session cost", true, "Running total for this session"),
        status_row("Account balance", false, "Prepaid credit left with the active provider"),
        status_row("Prompt cache hit rate", true, "Share of the prompt served from cache"),
        status_row("Output tokens", true, "Output tokens of the live or last turn"),
        status_row("Time to first token", true, "Average wait for the first token"),
        status_row("Output rate", true, "Average tokens per second"),
        status_row("Workspace", false, "The directory this session writes to"),
        PickerItem::new("Git branch").checked(false).disabled("Not a git repository"),
    ];
    v
}

/// How many of `items` are checked on.
pub open spec fn checked_count(items: Seq<PickerItem>) -> int
    decreases items.len(),
{
    if items.len() == 0 {
        0
    } else {
        checked_count(items.drop_last()) + if items.last().checked == Some(true) { 1int } else { 0 }
    }
}

/// How many of `items` are checked on: the status picker's "8 of 11 shown".
pub fn count_checked(items: &[PickerItem]) -> (n: usize)
    ensures
        n == checked_count(items@),
{
    let mut n: usize = 0;
    let mut i: usize = 0;
    while i < items.len()
        invariant
            i <= items@.len(),
            n == checked_count(items@.take(i as int)),
            n <= i,
        decreases items@.len() - i,
    {
        assert(items@.take(i + 1).drop_last() =~= items@.take(i as int));
        if items[i].checked == Some(true) {
            n = n + 1;
        }
        i = i + 1;
    }
    assert(items@.take(items@.len() as int) =~= items@);
    n
}

} // verus!
