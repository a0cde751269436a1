use touchhle::app_list::{
    custom_driver_menu_entries, custom_resolution_editor_update, ResolutionEditorUpdate,
    app_picker, apps_refresh, resolution_title, version_line, AppsRefresh, copyright_next_page, copyright_prev_page, custom_driver_label,
    custom_driver_title, equals_ignore_ascii_case, is_custom_driver_extension,
    is_game_bundle_extension,
};
use touchhle::decimal::decimal_string;
use touchhle::capture_clock::capture_timestamp_from_elapsed;
use touchhle::device_model::{
    device_menu_row_selected, device_model_initial_title,
    device_menu_row_visible, device_model_button_title, device_model_entries,
    device_model_label_for_tag,
};
use touchhle::ipa_watch::{listings_equal, IpaFileEntry, IpaWatch};
use touchhle::options::{
    fps_limit_button, graphics_api_entry_selected, orientation_button, pvrtc_decoding_button,
    quality_button, render_rotation_button, scale_hack_button, texture_filtering_index,
    FpsLimit, GraphicsApi, Orientation, PvrtcDecoding, RenderRotation, ScaleHack,
    TextureFiltering, ANISOTROPIC_FILTERING_CHOICES, TEXTURE_UPSCALER_CHOICES,
};

fn families() -> Vec<String> {
    vec!["iPhone".to_string(), "iPad".to_string()]
}

#[test]
fn device_model_entries_list_default_auto_then_families() {
    let entries = device_model_entries(&families());
    assert_eq!(
        entries,
        vec![
            ("Default".to_string(), 1000),
            ("Auto".to_string(), 1001),
            ("iPhone".to_string(), 0),
            ("iPad".to_string(), 1),
        ]
    );
}

#[test]
fn device_model_labels() {
    assert_eq!(device_model_label_for_tag(None, &families()), "Default");
    assert_eq!(device_model_label_for_tag(Some(1000), &families()), "Default");
    assert_eq!(device_model_label_for_tag(Some(1001), &families()), "Native");
    assert_eq!(device_model_label_for_tag(Some(1), &families()), "iPad");
    assert_eq!(device_model_label_for_tag(Some(2), &families()), "Default");
    assert_eq!(device_model_label_for_tag(Some(-1), &families()), "Default");
    assert_eq!(device_model_button_title(Some(0), true, &families()), "iPhone ▲");
    assert_eq!(device_model_button_title(None, false, &families()), "Default ▼");
}

#[test]
fn device_menu_shows_six_rows_from_the_scroll_position() {
    assert!(device_menu_row_visible(0, 0));
    assert!(device_menu_row_visible(5, 0));
    assert!(!device_menu_row_visible(6, 0));
    assert!(!device_menu_row_visible(1, 2));
    assert!(device_menu_row_visible(7, 2));
    assert!(!device_menu_row_visible(8, 2));
}

#[test]
fn extensions_are_compared_without_case() {
    assert!(is_game_bundle_extension("ipa"));
    assert!(is_game_bundle_extension("IPA"));
    assert!(is_game_bundle_extension("App"));
    assert!(!is_game_bundle_extension("apk"));
    assert!(!is_game_bundle_extension("ipas"));
    assert!(is_custom_driver_extension("ZIP"));
    assert!(is_custom_driver_extension("so"));
    assert!(is_custom_driver_extension("DyLib"));
    assert!(is_custom_driver_extension("dll"));
    assert!(!is_custom_driver_extension("exe"));
    assert!(equals_ignore_ascii_case("ÄbC", "Äbc"));
    assert!(!equals_ignore_ascii_case("Ä", "ä"));
}

#[test]
fn custom_driver_labels_and_titles() {
    assert_eq!(custom_driver_label(Some("turnip.zip")), "turnip.zip");
    assert_eq!(custom_driver_label(None), "custom driver");
    assert_eq!(custom_driver_title(Some("turnip.zip")), "Selected: turnip.zip");
    assert_eq!(custom_driver_title(None), "No custom driver");
}

#[test]
fn missing_games_folder_is_reported() {
    let r = app_picker::<u32>("apps", false, Ok(vec![1]));
    assert_eq!(
        r,
        Err("The apps directory couldn't be found. Check you're running touchHLE from the right directory.".to_string())
    );
}

#[test]
fn unlisted_games_folder_is_reported() {
    let r = app_picker::<u32>("apps", true, Err("permission denied".to_string()));
    assert_eq!(
        r,
        Err("Couldn't get list of apps in the apps directory: permission denied.".to_string())
    );
}

#[test]
fn listed_games_are_shown() {
    assert_eq!(app_picker::<u32>("apps", true, Ok(vec![3, 1])), Ok(vec![3, 1]));
}

#[test]
fn copyright_pages_step_within_bounds() {
    assert_eq!(copyright_prev_page(0), None);
    assert_eq!(copyright_prev_page(3), Some(2));
    assert_eq!(copyright_next_page(3, None), Some(4));
    assert_eq!(copyright_next_page(3, Some(3)), None);
    assert_eq!(copyright_next_page(2, Some(3)), Some(3));
}

fn entry(name: &str, size: u64, modified: u128) -> IpaFileEntry {
    IpaFileEntry { name: name.to_string(), size, modified_nanos: modified }
}

#[test]
fn listings_compare_entry_by_entry() {
    assert!(listings_equal(&vec![entry("a.ipa", 1, 2)], &vec![entry("a.ipa", 1, 2)]));
    assert!(!listings_equal(&vec![entry("a.ipa", 1, 2)], &vec![entry("a.ipa", 1, 3)]));
    assert!(!listings_equal(&vec![entry("a.ipa", 1, 2)], &vec![entry("b.ipa", 1, 2)]));
    assert!(!listings_equal(&vec![entry("a.ipa", 1, 2)], &vec![]));
    assert!(listings_equal(&vec![], &vec![]));
}

#[test]
fn a_copied_game_is_loaded_once_after_settling() {
    let mut watch = IpaWatch::new(vec![]);
    assert!(!watch.observe(vec![], 0));
    assert!(!watch.observe(vec![entry("new.ipa", 10, 5)], 1_000));
    assert!(watch.dirty);
    assert!(!watch.observe(vec![entry("new.ipa", 20, 6)], 2_000));
    assert!(!watch.observe(vec![entry("new.ipa", 20, 6)], 2_000 + 499_999_999));
    assert!(watch.observe(vec![entry("new.ipa", 20, 6)], 2_000 + 500_000_000));
    assert!(!watch.dirty);
    assert!(!watch.observe(vec![entry("new.ipa", 20, 6)], 5_000_000_000));
}

#[test]
fn selected_buttons_follow_the_values() {
    assert_eq!(scale_hack_button(None), 0);
    assert_eq!(scale_hack_button(Some(ScaleHack::ThreeQuarters)), 3);
    assert_eq!(scale_hack_button(Some(ScaleHack::Four)), 6);
    assert_eq!(fps_limit_button(Some(FpsLimit::Fps60)), 2);
    assert_eq!(render_rotation_button(Some(RenderRotation::Default)), 0);
    assert_eq!(render_rotation_button(Some(RenderRotation::Plus180)), 4);
    assert_eq!(orientation_button(Some(Orientation::LandscapeLeft)), 1);
    assert_eq!(pvrtc_decoding_button(PvrtcDecoding::Driver), 2);
    assert_eq!(quality_button(&ANISOTROPIC_FILTERING_CHOICES, 8), 3);
    assert_eq!(quality_button(&ANISOTROPIC_FILTERING_CHOICES, 3), 0);
    assert_eq!(quality_button(&TEXTURE_UPSCALER_CHOICES, 3), 2);
    assert_eq!(texture_filtering_index(TextureFiltering::Anisotropic), 3);
    assert!(graphics_api_entry_selected(3, GraphicsApi::Wgpu));
    assert!(!graphics_api_entry_selected(3, GraphicsApi::Vulkan));
    assert!(!graphics_api_entry_selected(9, GraphicsApi::Default));
}

#[test]
fn decimal_strings() {
    assert_eq!(decimal_string(0), "0");
    assert_eq!(decimal_string(7), "7");
    assert_eq!(decimal_string(1280), "1280");
    assert_eq!(decimal_string(u64::MAX), "18446744073709551615");
}

#[test]
fn refreshing_the_games_list() {
    assert!(matches!(apps_refresh::<u32>(Ok(vec![4])), AppsRefresh::Replace(v) if v == vec![4]));
    assert!(matches!(
        apps_refresh::<u32>(Ok(vec![])),
        AppsRefresh::NothingFound(m) if m == "No games found in the game folder yet."
    ));
    assert!(matches!(
        apps_refresh::<u32>(Err("gone".to_string())),
        AppsRefresh::Failed(m) if m == "Couldn't refresh the game list: gone"
    ));
}

#[test]
fn titles_and_version_line() {
    assert_eq!(resolution_title((1280, 720)), "1280 x 720");
    assert_eq!(resolution_title((0, 4294967295)), "0 x 4294967295");
    assert_eq!(version_line("", "0.2.2"), "RadekHLE9.0 0.2.2");
    assert_eq!(version_line("PREVIEW", "0.2.2"), "RadekHLE9.0 PREVIEW 0.2.2");
}

#[test]
fn custom_driver_menu_rows() {
    assert_eq!(
        custom_driver_menu_entries(&vec![]),
        vec![("No custom drivers installed".to_string(), -1)]
    );
    assert_eq!(
        custom_driver_menu_entries(&vec!["a.zip".to_string(), "b.so".to_string()]),
        vec![("a.zip".to_string(), 0), ("b.so".to_string(), 1)]
    );
}

#[test]
fn custom_resolution_editor_feedback() {
    assert!(matches!(custom_resolution_editor_update(true), ResolutionEditorUpdate::Close));
    assert!(matches!(
        custom_resolution_editor_update(false),
        ResolutionEditorUpdate::ShowError("Enter width and height from 64 to 16384.")
    ));
}

#[test]
fn device_model_button_and_rows() {
    assert_eq!(device_model_initial_title(&families()), "Default ^");
    assert!(device_menu_row_selected(Some(1001), 1001));
    assert!(!device_menu_row_selected(Some(3), 1001));
    assert!(!device_menu_row_selected(None, 1000));
}

#[test]
fn capture_timestamp_of_an_early_clock_is_zero() {
    assert_eq!(capture_timestamp_from_elapsed(None), 0);
    assert_eq!(capture_timestamp_from_elapsed(Some(42)), 42);
    assert_eq!(capture_timestamp_from_elapsed(Some((1u128 << 64) + 3)), 3);
}
