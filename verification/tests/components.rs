use codewhale_ratatui::components::spinner::{frame, next_frame_in, FRAMES, PENDING_FRAME, STILL_FRAME};
use codewhale_ratatui::keys::{KeyCode, KeyEvent, KeyModifiers, Platform};
use codewhale_ratatui::style::{Line, Rect};
use codewhale_ratatui::testing::Profile;
use codewhale_ratatui::text::width;
use codewhale_ratatui::time::Duration;
use codewhale_ratatui::{
    centered, duration, Depth, HorizonRule, Icon, KeyHint, KeyHints, MotionMode, Panel, Picker, PickerItem,
    PickerState, Role, Spinner, State, StatusMark, Toast, Toasts,
};

fn hints() -> KeyHints {
    KeyHints::new(vec![KeyHint::new("↑↓", "move"), KeyHint::new("Enter", "select"), KeyHint::new("Esc", "cancel")])
}

fn plain(lines: &[Line]) -> Vec<String> {
    lines.iter().map(|l| l.text()).collect()
}

#[test]
fn packs_on_one_row_when_it_fits() {
    let theme = Profile::DarkTrue.theme();
    assert_eq!(plain(&hints().lines(80, &theme)), ["↑↓ move · Enter select · Esc cancel"]);
}

#[test]
fn chord_hints_use_the_key_label_authority() {
    let mac = Platform { macos: true, ascii: false };
    let alt = KeyModifiers { shift: false, control: false, alt: true, super_key: false };
    let control = KeyModifiers { shift: false, control: true, alt: false, super_key: false };
    let alt_v = KeyEvent::new(KeyCode::Char('v'), alt);
    assert_eq!(KeyHint::chord(&alt_v, mac, "details").keys, "⌥V");
    let ctrl_o = KeyEvent::new(KeyCode::Char('o'), control);
    assert_eq!(KeyHint::chord(&ctrl_o, mac, "reasoning").keys, "Ctrl+O");
}

#[test]
fn wraps_and_never_drops_an_action() {
    let theme = Profile::DarkTrue.theme();
    let rows = plain(&hints().lines(22, &theme));
    assert_eq!(rows, ["↑↓ move · Enter select", "Esc cancel"]);
    let rows = plain(&hints().lines(4, &theme));
    assert_eq!(rows.len(), 3, "every hint survives a degenerate width");
}

#[test]
fn tide_needs_a_real_total() {
    assert_eq!(Icon::tide(3, 0), None);
    let theme = Profile::DarkTrue.theme();
    assert_eq!(Icon::tide(0, 5).unwrap().glyph(&theme), "▁");
    assert_eq!(Icon::tide(5, 5).unwrap().glyph(&theme), "█");
    assert_eq!(Icon::tide(9, 5).unwrap().label(), "5 of 5");
}

#[test]
fn every_icon_has_a_word_and_an_ascii_form() {
    let ascii = Profile::Ascii.theme();
    let icons = [
        Icon::Sonar { elapsed: Duration::zero(), motion: MotionMode::Full },
        Icon::tide(2, 4).unwrap(),
        Icon::Shell,
        Icon::Kelp,
    ];
    for icon in icons {
        assert!(!icon.label().is_empty());
        assert!(icon.glyph(&ascii).is_ascii(), "{icon:?}");
        assert_eq!(width(icon.glyph(&Profile::DarkTrue.theme())), 1);
    }
}

#[test]
fn clicks_map_to_the_scrolled_row() {
    let items: Vec<PickerItem> = (0..10).map(|i| PickerItem::new(&format!("Item {i}"))).collect();
    let picker = Picker::new(&items, PickerState::new(9));
    let area = Rect::new(2, 3, 20, 4);
    assert_eq!(picker.row_at(area, 5, 3), Some(6));
    assert_eq!(picker.row_at(area, 5, 6), Some(9));
    assert_eq!(picker.row_at(area, 1, 3), None);
    assert_eq!(picker.row_at(area, 5, 7), None);
}

#[test]
fn state_wraps_pages_and_keeps_selection_visible() {
    let mut s = PickerState::new(0);
    s.prev(3);
    assert_eq!(s.selected, 2);
    s.next(3);
    assert_eq!(s.selected, 0);
    s.page(20, 5, true);
    assert_eq!(s.selected, 5);
    assert_eq!(s.visible_offset(20, 4), 2);
    s.end(20);
    s.scroll_into_view(20, 4);
    assert_eq!(s.offset, 16);
    s.home();
    assert_eq!(s.visible_offset(20, 4), 0);
}

#[test]
fn spinner_is_earned_then_swells() {
    let ms = Duration::from_millis;
    assert_eq!(frame(ms(100), MotionMode::Full, false), PENDING_FRAME);
    assert_eq!(frame(ms(400), MotionMode::Full, false), FRAMES[0]);
    assert_eq!(frame(ms(600), MotionMode::Full, false), FRAMES[1]);
    assert_eq!(frame(ms(5000), MotionMode::Reduced, false), STILL_FRAME);
    assert_eq!(frame(ms(5000), MotionMode::Still, false), STILL_FRAME);
}

#[test]
fn reduced_motion_schedules_nothing() {
    assert_eq!(next_frame_in(Duration::from_secs(3), MotionMode::Reduced), None);
    assert_eq!(next_frame_in(Duration::from_millis(450), MotionMode::Full), Some(Duration::from_millis(150)));
}

#[test]
fn durations_read_as_words() {
    assert_eq!(Duration::zero(), Duration::from_millis(0));
    assert_eq!(duration(Duration::zero()), "0 ms");
    assert_eq!(duration(Duration::from_millis(850)), "850 ms");
    assert_eq!(duration(Duration::from_secs(12)), "12 s");
    assert_eq!(duration(Duration::from_secs(246)), "4m 06s");
    assert_eq!(duration(Duration::from_secs(3720)), "1h 02m");
}

#[test]
fn motion_settings_match_the_engine() {
    assert_eq!(MotionMode::from_settings(true, true), MotionMode::Reduced);
    assert_eq!(MotionMode::from_settings(false, false), MotionMode::Still);
    assert_eq!(MotionMode::from_settings(false, true), MotionMode::Full);
}

#[test]
fn every_state_has_a_distinct_mark_and_a_word() {
    for profile in [Profile::DarkTrue, Profile::Ascii] {
        let theme = profile.theme();
        let marks: Vec<_> = State::ALL.iter().map(|s| StatusMark::new(*s).glyph(&theme)).collect();
        for (i, a) in marks.iter().enumerate() {
            assert!(!a.trim().is_empty());
            for b in &marks[i + 1..] {
                assert_ne!(a, b, "{profile:?}: two states share {a}");
            }
        }
    }
    for state in State::ALL {
        assert!(!state.word().is_empty());
    }
}

#[test]
fn centered_clamps_to_the_frame() {
    let area = Rect::new(0, 0, 80, 24);
    assert_eq!(centered(area, 68, 10, 44, 8), Rect::new(6, 7, 68, 10));
    let small = Rect::new(0, 0, 30, 6);
    let r = centered(small, 68, 10, 44, 8);
    assert!(r.width <= 28 && r.height <= 4);
}

#[test]
fn caller_text_cannot_reorder_itself() {
    let theme = Profile::DarkTrue.theme();
    let toasts = Toasts::new(vec![Toast::new(State::NeedsYou, "Approve rm -rf ~/\u{202E}txt.exe")]);
    let rows = toasts.layout(Rect::new(0, 0, 40, 1), &theme);
    let text: String = rows.iter().map(|r| r.line.text()).collect();
    assert!(text.contains("rm -rf ~/txt.exe"), "{text}");
    assert!(!text.contains('\u{202E}'));
}

#[test]
fn spinner_reads_verb_and_measured_time() {
    let theme = Profile::Ascii.theme();
    let spans = Spinner::new("Running", Duration::from_secs(38), MotionMode::Reduced).spans(&theme);
    let text: String = spans.iter().map(|s| s.content.clone()).collect();
    assert!(text.contains("Running"), "{text}");
    assert!(text.contains("38 s"), "{text}");
}

#[test]
fn picker_layout_scrolls_and_marks_the_selection() {
    let theme = Profile::DarkTrue.theme();
    let items: Vec<PickerItem> = (0..10).map(|i| PickerItem::new(&format!("Item {i}"))).collect();
    let picker = Picker::new(&items, PickerState::new(9));
    let layout = picker.layout(Rect::new(0, 0, 20, 4), &theme);
    assert_eq!(layout.rows.len(), 4);
    assert_eq!(layout.rows[0].area, Rect::new(0, 0, 19, 1));
    assert_eq!(layout.rows[3].area, Rect::new(0, 3, 19, 1));
    assert!(layout.rows[3].ground.is_some());
    assert!(layout.rows[0].ground.is_none());
    assert!(layout.rows[3].line.text().starts_with("▸ Item 9"));
    assert!(layout.rows[0].line.text().starts_with("  Item 6"));
    let bar = layout.scrollbar.expect("ten rows overflow four");
    assert_eq!((bar.content_length, bar.position, bar.viewport), (6, 6, 4));
    assert_eq!(picker.height(), 10);
    let empty = picker.layout(Rect::new(0, 0, 0, 4), &theme);
    assert!(empty.rows.is_empty() && empty.scrollbar.is_none());
}

#[test]
fn checklist_rows_show_shape_and_disabled_rows_say_why() {
    let theme = Profile::Ascii.theme();
    let items = vec![
        PickerItem::new("Mode").checked(true).detail("Work, Plan or Operate"),
        PickerItem::new("Git").checked(false).disabled("Not a repository"),
        PickerItem::new("Plan").key('2'),
    ];
    let layout = Picker::new(&items, PickerState::new(0)).layout(Rect::new(0, 0, 40, 3), &theme);
    assert_eq!(layout.rows[0].line.text(), "> [x] Mode  Work, Plan or Operate");
    assert_eq!(layout.rows[1].line.text(), "  [ ] Git   Not a repository");
    assert_eq!(layout.rows[2].line.text(), "  2 Plan");
    assert!(layout.rows[1].line.spans.iter().any(|s| s.style.dim));
}

#[test]
fn toasts_stack_newest_last_at_the_bottom_right() {
    let theme = Profile::DarkTrue.theme();
    let toasts = Toasts::new(vec![
        Toast::new(State::Done, "one"),
        Toast::new(State::Done, "two"),
        Toast::new(State::Failed, "three").opens(),
    ]);
    let rows = toasts.layout(Rect::new(10, 5, 30, 2), &theme);
    assert_eq!(rows.len(), 2);
    assert!(rows[0].line.text().contains("two"));
    assert!(rows[1].line.text().contains("three"));
    assert_eq!(rows[1].area.y, 6);
    assert_eq!(rows[0].area.y, 5);
    assert_eq!(rows[1].area.x + rows[1].area.width, 40);
    assert_eq!(rows[1].line.text(), " ✕ three → ");
    assert_eq!(toasts.height(), 3);
    assert!(toasts.layout(Rect::new(0, 0, 0, 0), &theme).is_empty());
}

#[test]
fn panels_edge_where_grounds_cannot_paint() {
    let truecolor = Profile::DarkTrue.theme();
    let sixteen = Profile::Ansi16.theme();
    let area = Rect::new(0, 0, 40, 10);
    let raised = Panel::new(Depth::Raised).title("Card");
    assert!(raised.draw(area, &truecolor).border.is_none());
    assert!(raised.draw(area, &sixteen).border.is_some());
    let overlay = Panel::new(Depth::Overlay).title("Mode").aside("3 of 3");
    let d = overlay.draw(area, &truecolor);
    let border = d.border.expect("overlays are always edged");
    assert_eq!(border.style.fg, truecolor.fg(Role::BorderStrong).fg);
    // Edge, gutter and padding, then the title row and a blank row.
    let (title_area, title) = d.title.expect("a title row");
    assert_eq!(title_area, Rect::new(2, 2, 36, 1));
    assert_eq!(title.text(), "Mode");
    assert_eq!(d.aside.expect("the aside fits").1.text(), "3 of 3");
    assert_eq!(d.inner, Rect::new(2, 4, 36, 4));
    let empty = Rect::new(3, 3, 0, 5);
    assert_eq!(overlay.draw(empty, &truecolor).inner, empty);
}

#[test]
fn panel_hints_take_the_bottom_rows() {
    let theme = Profile::DarkTrue.theme();
    let hints = hints();
    let d = Panel::new(Depth::Stage).hints(&hints).draw(Rect::new(0, 0, 80, 10), &theme);
    let (rail, lines) = d.hints.expect("a hint rail");
    assert_eq!(rail, Rect::new(2, 9, 76, 1));
    assert_eq!(lines.len(), 1);
    assert_eq!(d.inner, Rect::new(2, 0, 76, 8));
}

#[test]
fn the_horizon_fades_only_on_truecolor_grounds() {
    let area = Rect::new(0, 0, 40, 1);
    let faded = HorizonRule::new().label("Ask").draw(area, &Profile::DarkTrue.theme());
    assert_eq!(faded.cells.len(), 40);
    assert_eq!(faded.cells[0].fade, Some((1, 6)));
    assert_eq!(faded.cells[39].fade, Some((1, 6)));
    assert_eq!(faded.cells[4].fade, Some((5, 6)));
    assert_eq!(faded.cells[5].fade, None);
    assert_eq!(faded.symbol, "─");
    let label = faded.label.expect("a label");
    assert_eq!((label.x, label.text.as_str()), (5, " Ask "));
    let plain = HorizonRule::new().aside("12%").draw(area, &Profile::Ascii.theme());
    assert_eq!(plain.symbol, "-");
    assert!(plain.cells.iter().all(|c| c.fade.is_none()));
    let aside = plain.aside.expect("an aside");
    assert_eq!((aside.x, aside.text.as_str(), aside.max_width), (30, " 12% ", 5));
}

#[test]
fn hints_report_their_height_and_dim() {
    let h = KeyHint::new("Enter", "select");
    assert!(h.enabled);
    assert!(!h.disabled().enabled);
    let theme = Profile::DarkTrue.theme();
    assert_eq!(hints().height(80, &theme), 1);
    assert_eq!(hints().height(4, &theme), 3);
    assert_eq!(hints().height(0, &theme), 0);
}
