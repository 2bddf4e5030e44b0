use codewhale_ratatui::color::{indexed_rgb, rgb_to_ansi256};
use codewhale_ratatui::text::{cut_clusters, truncate, truncate_words, width};
use codewhale_ratatui::style::Rect;
use codewhale_ratatui::testing::Profile;
use codewhale_ratatui::{
    centered, Depth, HorizonRule, KeyHint, KeyHints, Panel, Picker, PickerItem, PickerState, Role, Toast, Toasts,
    State, Whale, WhaleState,
};

fn inside(inner: Rect, outer: Rect) -> bool {
    outer.x <= inner.x
        && inner.x + inner.width <= outer.x + outer.width
        && outer.y <= inner.y
        && inner.y + inner.height <= outer.y + outer.height
}

#[test]
fn scrolling_is_stable_once_stored() {
    for selected in [0usize, 3, 9, 15, 40] {
        for offset in [0usize, 5, 30] {
            let mut s = PickerState { selected, offset };
            s.scroll_into_view(20, 4);
            let stored = s.offset;
            assert_eq!(s.visible_offset(20, 4), stored);
            s.scroll_into_view(20, 4);
            assert_eq!(s.offset, stored);
        }
    }
}

#[test]
fn next_undoes_prev_and_the_selection_stays_visible() {
    for len in 1..6usize {
        for selected in 0..len {
            let mut s = PickerState::new(selected);
            s.next(len);
            s.prev(len);
            assert_eq!(s.selected, selected);
            for rows in 1..4usize {
                let o = s.visible_offset(len, rows);
                assert!(o <= selected && selected < o + rows);
            }
        }
    }
}

#[test]
fn panel_content_stays_inside_at_every_depth() {
    let hints = KeyHints::new(vec![KeyHint::new("Enter", "select"), KeyHint::new("Esc", "cancel")]);
    for profile in Profile::ALL {
        let theme = profile.theme();
        for depth in [Depth::Deep, Depth::Stage, Depth::Raised, Depth::Overlay] {
            for (w, h) in [(1u16, 1u16), (3, 2), (8, 6), (30, 7), (80, 24)] {
                let area = Rect::new(5, 2, w, h);
                let panel = Panel::new(depth).title("Title").aside("aside").hints(&hints);
                let inner = panel.draw(area, &theme).inner;
                assert!(inside(inner, area), "{depth:?} {w}x{h}: {inner:?}");
            }
        }
    }
}

#[test]
fn centered_popups_keep_a_margin() {
    for (w, h) in [(1u16, 1u16), (3, 3), (30, 6), (80, 24), (200, 60)] {
        let area = Rect::new(4, 1, w, h);
        let r = centered(area, 68, 10, 44, 8);
        assert!(inside(r, area));
        if w >= 3 {
            assert!(r.x > area.x && r.x + r.width < area.x + area.width);
        }
    }
}

#[test]
fn toasts_stay_inside_and_flush_right() {
    let theme = Profile::DarkTrue.theme();
    let toasts = Toasts::new(vec![
        Toast::new(State::Done, "A notice far longer than the area it has to fit into"),
        Toast::new(State::Failed, "x").opens(),
    ]);
    let area = Rect::new(3, 4, 20, 5);
    for row in toasts.layout(area, &theme) {
        assert!(inside(row.area, area));
        assert_eq!(row.area.x + row.area.width, area.x + area.width);
        assert_eq!(row.ground, theme.bg(Role::Surface));
    }
}

#[test]
fn a_selected_row_has_three_cues() {
    let theme = Profile::DarkTrue.theme();
    let items = vec![PickerItem::new("One"), PickerItem::new("Two")];
    let layout = Picker::new(&items, PickerState::new(1)).layout(Rect::new(0, 0, 20, 2), &theme);
    let (plain_row, selected) = (&layout.rows[0], &layout.rows[1]);
    assert_ne!(plain_row.line.spans[0].content, selected.line.spans[0].content);
    assert_eq!(selected.line.spans[0].style, theme.fg(Role::Primary));
    assert!(selected.line.spans[1].style.bold);
    assert!(!plain_row.line.spans[1].style.bold);
    assert_eq!(selected.line.style, theme.bg(Role::Selected));
    assert_eq!(selected.ground, Some(theme.bg(Role::Selected)));
}

#[test]
fn the_horizon_fades_both_ends_alike() {
    let d = HorizonRule::new().draw(Rect::new(0, 0, 33, 1), &Profile::DarkTrue.theme());
    for i in 0..33 {
        assert_eq!(d.cells[i].fade, d.cells[32 - i].fade);
    }
    let d = HorizonRule::new().draw(Rect::new(0, 0, 33, 1), &Profile::Dark256.theme());
    assert!(d.cells.iter().all(|c| c.fade.is_none()));
}

#[test]
fn the_whale_viewport_always_fits() {
    let theme = Profile::DarkTrue.theme();
    for (w, h) in [(15u16, 9u16), (16, 9), (19, 11), (20, 11), (31, 17), (32, 17), (100, 40)] {
        let area = Rect::new(0, 0, w, h);
        if let Some((cols, rows)) = Whale::viewport(area) {
            assert!(cols <= w && rows < h);
        }
        let layout = Whale::new(WhaleState::Busy).layout(area, &theme);
        if let Some(art) = layout.art {
            assert!(art.x + art.cols <= w && art.y + art.rows < h);
            assert_eq!(art.label_area.y, art.y + art.rows);
        }
    }
}

#[test]
fn next_and_prev_do_nothing_on_an_empty_list() {
    let mut s = PickerState { selected: usize::MAX, offset: 3 };
    s.next(0);
    s.prev(0);
    assert_eq!(s, PickerState { selected: usize::MAX, offset: 3 });
}

#[test]
fn the_chosen_index_is_the_nearest_fixed_one() {
    let d2 = |a: (u8, u8, u8), b: (u8, u8, u8)| {
        let d = |x: u8, y: u8| (i32::from(x) - i32::from(y)).pow(2);
        d(a.0, b.0) + d(a.1, b.1) + d(a.2, b.2)
    };
    for c in [(0u8, 0u8, 0u8), (13, 13, 13), (128, 128, 128), (250, 10, 99), (17, 200, 201), (255, 255, 254)] {
        let idx = rgb_to_ansi256(c.0, c.1, c.2);
        assert!(idx >= 16);
        let best = d2(c, indexed_rgb(idx).unwrap());
        for j in 16..=255u8 {
            assert!(best <= d2(c, indexed_rgb(j).unwrap()), "{c:?}: {idx} vs {j}");
        }
    }
}

#[test]
fn a_cut_fits_its_cells() {
    let text = "Works in this session; asks before edits and shell commands";
    for max in 1..40 {
        assert!(width(&truncate(text, max, false)) <= max, "{max}");
        assert!(width(&truncate_words(text, max, true)) <= max, "{max}");
        assert!(width(&truncate("鲸鱼鲸鱼鲸鱼", max, false)) <= max, "{max}");
    }
}

#[test]
fn clusters_are_cut_by_the_widths_given() {
    let gs: Vec<Vec<char>> = ["ab", " ", "cd", " ", "e"].iter().map(|g| g.chars().collect()).collect();
    // Widths are taken as given, not measured.
    let ws = vec![2, 1, 2, 1, 1];
    assert_eq!(cut_clusters(&gs, &ws, 4, false).into_iter().collect::<String>(), "ab");
    assert_eq!(cut_clusters(&gs, &ws, 5, false).into_iter().collect::<String>(), "ab cd");
    assert_eq!(cut_clusters(&gs, &ws, 6, true).into_iter().collect::<String>(), "ab cd");
    assert_eq!(cut_clusters(&gs, &ws, 5, true).into_iter().collect::<String>(), "ab");
    let wide = vec![9, 1, 1, 1, 1];
    assert_eq!(cut_clusters(&gs, &wide, 8, false).into_iter().collect::<String>(), "");
}
