use codewhale_ratatui::color::ColorDepth;
use codewhale_ratatui::detect::Appearance;
use codewhale_ratatui::gallery::{count_checked, entries, mode_items, status_items, Exhibit};
use codewhale_ratatui::testing::Profile;
use codewhale_ratatui::{Ground, WhaleState};

#[test]
fn profile_names_find_their_profile() {
    for p in Profile::ALL {
        assert_eq!(Profile::from_name(p.name()), Some(p));
    }
    assert_eq!(Profile::from_name("sepia"), None);
    assert_eq!(Profile::DarkGraphite.theme().ground_kind(), Ground::Graphite);
    assert_eq!(Profile::DarkTrue.theme().ground_kind(), Ground::Ocean);
    assert!(Profile::Ascii.caps().ascii);
    assert_eq!(Profile::UnknownGround.caps().appearance, Appearance::Unknown);
    assert_eq!(Profile::Light256.caps().depth, ColorDepth::Ansi256);
}

#[test]
fn the_gallery_lists_every_exhibit() {
    let all = entries();
    assert_eq!(all.len(), 18);
    assert_eq!((all[0].name, all[0].width, all[0].height), ("key-hints", 60, 2));
    assert_eq!(all[13].exhibit, Exhibit::Whale(WhaleState::Pod { calves: 1 }));
    assert_eq!(all[17].name, "whale-words-only");
    assert_eq!(mode_items().len(), 3);
    let items = status_items();
    assert_eq!(items.len(), 11);
    assert_eq!(count_checked(&items), 8);
    assert!(items[10].disabled.is_some());
}
