use codewhale_ratatui::style::Rect;
use codewhale_ratatui::testing::Profile;
use codewhale_ratatui::whale::{frame_size, nearest_scene, Grid, SceneKey};
use codewhale_ratatui::{State, Whale, WhaleState};

#[test]
fn the_pod_draws_exactly_the_calves_it_is_given() {
    // The art has room for three calves; more agents draw three. A pod of
    // none draws plain work: no calf is invented.
    assert_eq!(WhaleState::Pod { calves: 9 }.scene_key(), WhaleState::Pod { calves: 3 }.scene_key());
    assert_eq!(WhaleState::Pod { calves: 0 }.scene_key(), WhaleState::Busy.scene_key());
    assert_eq!(WhaleState::Pod { calves: 1 }.scene_key(), ("pod", 1));
    assert_eq!(WhaleState::Pod { calves: 2 }.scene_key(), ("pod", 2));
    // The words always carry the real count, whatever the art can show.
    for (calves, words) in [
        (0, "Working"),
        (1, "Working with 1 agent"),
        (2, "Working with 2 agents"),
        (3, "Working with 3 agents"),
        (9, "Working with 9 agents"),
        (255, "Working with 255 agents"),
    ] {
        assert_eq!(WhaleState::Pod { calves }.words(), words);
    }
}

#[test]
fn frame_handles_any_viewport_without_overflow() {
    assert!(frame_size(15, 8).is_none());
    assert!(frame_size(u16::MAX, 8).is_some());
}

#[test]
fn frame_sizes_follow_the_smaller_side() {
    assert_eq!(frame_size(32, 16), Some(64));
    assert_eq!(frame_size(20, 10), Some(40));
    assert_eq!(frame_size(16, 8), Some(32));
    assert_eq!(frame_size(16, 7), None);
    assert_eq!(frame_size(u16::MAX, 8), Some(32));
}

#[test]
fn the_nearest_size_of_the_right_pose_is_drawn() {
    let key = |state: &str, calves: u8, size: u32| SceneKey { state: state.to_string(), calves, size };
    let scenes = vec![
        key("rest", 0, 64),
        key("busy", 0, 64),
        key("busy", 0, 40),
        key("pod", 3, 64),
        key("pod", 1, 40),
    ];
    assert_eq!(nearest_scene(&scenes, WhaleState::Busy, 44), Some(2));
    assert_eq!(nearest_scene(&scenes, WhaleState::Busy, 60), Some(1));
    assert_eq!(nearest_scene(&scenes, WhaleState::Busy, 52), Some(1));
    assert_eq!(nearest_scene(&scenes, WhaleState::Pod { calves: 0 }, 40), Some(2));
    assert_eq!(nearest_scene(&scenes, WhaleState::Pod { calves: 7 }, 40), Some(3));
    assert_eq!(nearest_scene(&scenes, WhaleState::Done, 64), None);
}

#[test]
fn grids_read_as_braille_text() {
    let grid = Grid { cols: 2, rows: 2, cells: vec![0, 0x01, 0xff, 0] };
    assert_eq!(grid.cell(1, 0), 0x01);
    assert_eq!(grid.char_at(0, 0), ' ');
    assert_eq!(grid.char_at(1, 0), '\u{2801}');
    assert_eq!(grid.text(), " \u{2801}\n\u{28ff} ");
    assert_eq!(Grid { cols: 3, rows: 0, cells: vec![] }.text(), "");
}

#[test]
fn the_whale_steps_down_to_the_words() {
    let theme = Profile::DarkTrue.theme();
    let whale = Whale::new(WhaleState::NeedsYou);
    let big = whale.layout(Rect::new(0, 0, 36, 17), &theme);
    let art = big.art.expect("room for 32x16");
    assert_eq!((art.x, art.y, art.cols, art.rows), (2, 0, 32, 16));
    assert_eq!(art.label_area, Rect::new(0, 16, 36, 1));
    assert_eq!(big.label.text(), "◆ Needs you");
    let compact = whale.layout(Rect::new(0, 0, 24, 11), &theme);
    assert_eq!(compact.art.map(|a| (a.cols, a.rows)), Some((20, 10)));
    let words_only = whale.layout(Rect::new(0, 0, 14, 3), &theme);
    assert!(words_only.art.is_none());
    assert_eq!(words_only.words_area, Rect::new(0, 0, 14, 1));
    let ascii = whale.layout(Rect::new(0, 0, 36, 17), &Profile::Ascii.theme());
    assert!(ascii.art.is_none());
    assert_eq!(ascii.label.text(), "* Needs you");
    let localized = Whale::new(WhaleState::Rest).words("Au repos").layout(Rect::new(0, 0, 14, 3), &theme);
    assert!(localized.label.text().ends_with("Au repos"));
    assert_eq!(WhaleState::Pod { calves: 2 }.state(), State::Working);
    assert_eq!(Whale::viewport(Rect::new(0, 0, 16, 9)), Some((16, 8)));
}
