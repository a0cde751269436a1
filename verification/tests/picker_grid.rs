use touchhle::icon_grid::{clamp_page_index, compute_pages, icon_slot_contents, IconSlot};
use touchhle::ios_version::{ios_version_for_tag, ios_version_label, ios_version_tag};

#[test]
fn no_apps_give_one_empty_page() {
    assert_eq!(compute_pages(20, 0), vec![0..0]);
}

#[test]
fn first_page_leaves_room_for_add_game() {
    assert_eq!(compute_pages(20, 19), vec![0..19]);
    assert_eq!(compute_pages(20, 20), vec![0..19, 19..20]);
    assert_eq!(compute_pages(16, 50), vec![0..15, 15..31, 31..47, 47..50]);
}

#[test]
fn tiny_pages_still_hold_one_app() {
    assert_eq!(compute_pages(0, 3), vec![0..1, 1..2, 2..3]);
    assert_eq!(compute_pages(1, 2), vec![0..1, 1..2]);
    assert_eq!(compute_pages(2, 3), vec![0..1, 1..3]);
}

#[test]
fn slots_show_add_game_then_apps_then_nothing() {
    let pages = compute_pages(4, 5);
    assert_eq!(pages, vec![0..3, 3..5]);
    let contents = icon_slot_contents(&pages, 4);
    assert_eq!(
        contents,
        vec![
            IconSlot::AddGame,
            IconSlot::App(0),
            IconSlot::App(1),
            IconSlot::App(2),
            IconSlot::App(3),
            IconSlot::App(4),
            IconSlot::Empty,
            IconSlot::Empty,
        ]
    );
}

#[test]
fn every_app_is_shown_exactly_once() {
    for slots in 2..7usize {
        for apps in 0..30usize {
            let pages = compute_pages(slots, apps);
            let contents = icon_slot_contents(&pages, slots);
            assert_eq!(contents[0], IconSlot::AddGame);
            assert_eq!(contents.iter().filter(|c| **c == IconSlot::AddGame).count(), 1);
            for app in 0..apps {
                let shown = contents.iter().filter(|c| **c == IconSlot::App(app)).count();
                assert_eq!(shown, 1, "app {} with {} slots and {} apps", app, slots, apps);
            }
            assert!(contents.iter().all(|c| match c {
                IconSlot::App(i) => *i < apps,
                _ => true,
            }));
        }
    }
}

#[test]
fn page_index_is_clamped_to_existing_pages() {
    assert_eq!(clamp_page_index(0, 0), 0);
    assert_eq!(clamp_page_index(5, 0), 0);
    assert_eq!(clamp_page_index(1, 3), 1);
    assert_eq!(clamp_page_index(3, 3), 2);
    assert_eq!(clamp_page_index(usize::MAX, 3), 2);
}

#[test]
fn ios_version_tags_round_trip() {
    for tag in 1..=18 {
        let version = ios_version_for_tag(tag);
        assert!(version.is_some());
        assert_eq!(ios_version_tag(version), tag);
    }
    assert_eq!(ios_version_for_tag(0), None);
    assert_eq!(ios_version_for_tag(19), None);
    assert_eq!(ios_version_for_tag(-1), None);
    assert_eq!(ios_version_for_tag(11), Some((12, 4, 1)));
    assert_eq!(ios_version_tag(None), 0);
    assert_eq!(ios_version_tag(Some((12, 4, 0))), 0);
}

#[test]
fn ios_version_labels() {
    assert_eq!(ios_version_label(None), "Latest (iOS 26.6)");
    assert_eq!(ios_version_label(Some((2, 0, 0))), "iOS 2.0");
    assert_eq!(ios_version_label(Some((12, 4, 1))), "iOS 12.4.1");
    assert_eq!(ios_version_label(Some((26, 6, 0))), "iOS 26.6");
    assert_eq!(ios_version_label(Some((1, 0, 0))), "Latest (iOS 26.6)");
}
