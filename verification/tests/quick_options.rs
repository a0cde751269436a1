use touchhle::options::{
    audio_backend_for_tag, audio_backend_index, gles_override_for_tag, gles_override_index,
    memory_management_for_tag, memory_management_index, texture_filtering_for_tag,
    texture_filtering_index,
    Arm64Backend, Arm64Fallback, AudioBackend, GlesOverrideVersion, GraphicsApi, MemoryManagement,
    Orientation, PvrtcDecoding, RenderRotation, ScaleHack, TextureFiltering,
};
use touchhle::quick_options::{PickerContext, QuickOptionEvent, QuickOptions};
use touchhle::resolution::parse_dimension;

fn context() -> PickerContext {
    PickerContext {
        host_resolutions: vec![(640, 480), (1280, 720)],
        custom_driver_paths: vec!["drivers/a.zip".to_string(), "drivers/b.so".to_string()],
        device_model_item_count: 8,
    }
}

fn consistent(q: &QuickOptions, items: usize) -> bool {
    let max_scroll = items.saturating_sub(6);
    !(q.cpu.force_32_bit && q.cpu.force_64_bit)
        && (!q.power.force_max_clocks || q.power.high_performance)
        && q.device.device_model_scroll <= max_scroll
}

#[test]
fn panel_starts_with_the_defaults() {
    let q = QuickOptions::new(true, false, true);
    assert!(q.power.high_performance);
    assert!(!q.power.force_max_clocks);
    assert!(!q.driver.fix_texture_min_filter);
    assert!(q.driver.metal_translator);
    assert!(q.frames.show_fps && q.frames.frame_pacing);
    assert!(q.device.network && q.device.analog_stick_tilt_controls);
    assert!(q.system.log_file && q.cpu.fast_memory && q.driver.shader_compatibility_fixes);
    assert_eq!(q.graphics.pvrtc_decoding, PvrtcDecoding::Auto);
    assert_eq!(q.cpu.memory_management, MemoryManagement::Balanced);
    assert_eq!(q.graphics.anisotropic_filtering, 1);
    assert_eq!(q.device.device_tag, None);
    assert!(consistent(&q, 8));
}

#[test]
fn forcing_one_word_size_clears_the_other() {
    let ctx = context();
    let mut q = QuickOptions::new(false, false, false);
    assert!(q.apply_event(QuickOptionEvent::Force32Bit(true), &ctx));
    assert!(q.cpu.force_32_bit && !q.cpu.force_64_bit);
    q.apply_event(QuickOptionEvent::Force64Bit(true), &ctx);
    assert!(!q.cpu.force_32_bit && q.cpu.force_64_bit);
    q.apply_event(QuickOptionEvent::Force32Bit(false), &ctx);
    assert!(!q.cpu.force_32_bit && q.cpu.force_64_bit);
    q.apply_event(QuickOptionEvent::Force64Bit(false), &ctx);
    assert!(!q.cpu.force_32_bit && !q.cpu.force_64_bit);
}

#[test]
fn clocks_and_battery_savers_are_coupled() {
    let ctx = context();
    let mut q = QuickOptions::new(false, false, false);
    q.apply_event(QuickOptionEvent::ForceMaxClocks(true), &ctx);
    assert!(q.power.force_max_clocks && q.power.high_performance);
    q.apply_event(QuickOptionEvent::HighPerformance(false), &ctx);
    assert!(!q.power.force_max_clocks && !q.power.high_performance);
    q.apply_event(QuickOptionEvent::ForceMaxClocks(true), &ctx);
    q.apply_event(QuickOptionEvent::BatterySaver(true), &ctx);
    assert!(q.power.battery_saver && !q.power.high_performance && !q.power.force_max_clocks);
    q.apply_event(QuickOptionEvent::BatterySaver(false), &ctx);
    q.apply_event(QuickOptionEvent::HighPerformance(true), &ctx);
    q.apply_event(QuickOptionEvent::UltraBatterySaver(true), &ctx);
    assert!(q.power.ultra_battery_saver && q.power.battery_saver);
    assert!(!q.power.high_performance && !q.power.force_max_clocks);
    q.apply_event(QuickOptionEvent::UltraBatterySaver(false), &ctx);
    assert!(!q.power.ultra_battery_saver && q.power.battery_saver);
    q.apply_event(QuickOptionEvent::ForceMaxClocks(false), &ctx);
    assert!(!q.power.force_max_clocks && !q.power.high_performance);
}

#[test]
fn turning_off_the_log_file_turns_off_verbose_logging() {
    let ctx = context();
    let mut q = QuickOptions::new(false, false, false);
    q.apply_event(QuickOptionEvent::VerboseLogging(true), &ctx);
    q.apply_event(QuickOptionEvent::LogFile(true), &ctx);
    assert!(q.system.verbose_logging);
    q.apply_event(QuickOptionEvent::LogFile(false), &ctx);
    assert!(!q.system.log_file && !q.system.verbose_logging);
    q.apply_event(QuickOptionEvent::VerboseLogging(true), &ctx);
    assert!(q.system.verbose_logging);
}

#[test]
fn device_model_menu_scrolls_within_its_rows() {
    let ctx = context();
    let mut q = QuickOptions::new(false, false, false);
    q.apply_event(QuickOptionEvent::DeviceModelScrollUp, &ctx);
    assert_eq!(q.device.device_model_scroll, 0);
    for _ in 0..5 {
        q.apply_event(QuickOptionEvent::DeviceModelScrollDown, &ctx);
    }
    assert_eq!(q.device.device_model_scroll, 2);
    q.apply_event(QuickOptionEvent::DeviceModelScrollUp, &ctx);
    assert_eq!(q.device.device_model_scroll, 1);
    let small = PickerContext { device_model_item_count: 4, ..context() };
    let mut r = QuickOptions::new(false, false, false);
    r.apply_event(QuickOptionEvent::DeviceModelScrollDown, &small);
    assert_eq!(r.device.device_model_scroll, 0);
}

#[test]
fn picking_a_device_model_closes_the_menu() {
    let ctx = context();
    let mut q = QuickOptions::new(false, false, false);
    q.apply_event(QuickOptionEvent::DeviceModelToggle, &ctx);
    assert!(q.device.device_model_open);
    q.apply_event(QuickOptionEvent::DeviceModel(3), &ctx);
    assert!(!q.device.device_model_open);
    assert_eq!(q.device.device_tag, Some(3));
    q.apply_event(QuickOptionEvent::DeviceModelToggle, &ctx);
    q.apply_event(QuickOptionEvent::DeviceModelToggle, &ctx);
    assert!(!q.device.device_model_open);
}

#[test]
fn custom_resolution_editor_starts_from_a_known_resolution() {
    let ctx = context();
    let mut q = QuickOptions::new(false, false, false);
    assert!(q.apply_event(QuickOptionEvent::CustomResolutionCustom, &ctx));
    assert_eq!(q.screen.custom_resolution, Some((1280, 720)));
    let empty = PickerContext { host_resolutions: vec![], ..context() };
    let mut r = QuickOptions::new(false, false, false);
    r.apply_event(QuickOptionEvent::CustomResolutionCustom, &empty);
    assert_eq!(r.screen.custom_resolution, Some((320, 480)));
    r.apply_event(QuickOptionEvent::SupportedResolution(0), &ctx);
    r.apply_event(QuickOptionEvent::CustomResolutionCustom, &ctx);
    assert_eq!(r.screen.custom_resolution, Some((640, 480)));
}

#[test]
fn custom_resolution_fields_are_checked() {
    let ctx = context();
    let mut q = QuickOptions::new(false, false, false);
    let apply = |w: &str, h: &str| QuickOptionEvent::CustomResolutionApply(w.to_string(), h.to_string());
    assert!(q.apply_event(apply(" 800 ", "+600"), &ctx));
    assert_eq!(q.screen.custom_resolution, Some((800, 600)));
    assert!(!q.apply_event(apply("63", "600"), &ctx));
    assert!(!q.apply_event(apply("800", "16385"), &ctx));
    assert!(!q.apply_event(apply("abc", "600"), &ctx));
    assert!(!q.apply_event(apply("", "600"), &ctx));
    assert_eq!(q.screen.custom_resolution, Some((800, 600)));
    assert!(q.apply_event(apply("64", "16384"), &ctx));
    assert_eq!(q.screen.custom_resolution, Some((64, 16384)));
}

#[test]
fn listed_resolutions_are_picked_by_index() {
    let ctx = context();
    let mut q = QuickOptions::new(false, false, false);
    assert!(q.apply_event(QuickOptionEvent::SupportedResolution(1), &ctx));
    assert_eq!(q.screen.custom_resolution, Some((1280, 720)));
    assert!(!q.apply_event(QuickOptionEvent::SupportedResolution(2), &ctx));
    assert!(!q.apply_event(QuickOptionEvent::SupportedResolution(-1), &ctx));
    assert_eq!(q.screen.custom_resolution, Some((1280, 720)));
}

#[test]
fn custom_drivers_are_picked_by_index() {
    let ctx = context();
    let mut q = QuickOptions::new(false, false, false);
    q.apply_event(QuickOptionEvent::CustomDriverSelected(1), &ctx);
    assert_eq!(q.driver.custom_driver, Some(1));
    q.apply_event(QuickOptionEvent::CustomDriverSelected(5), &ctx);
    assert_eq!(q.driver.custom_driver, Some(1));
    q.apply_event(QuickOptionEvent::CustomDriverSelected(-1), &ctx);
    assert_eq!(q.driver.custom_driver, None);
}

#[test]
fn dropdown_tags_select_their_entries() {
    let ctx = context();
    let mut q = QuickOptions::new(false, false, false);
    q.apply_event(QuickOptionEvent::TextureFiltering(2), &ctx);
    assert_eq!(q.graphics.texture_filtering, TextureFiltering::Trilinear);
    q.apply_event(QuickOptionEvent::TextureFiltering(9), &ctx);
    assert_eq!(q.graphics.texture_filtering, TextureFiltering::Default);
    q.apply_event(QuickOptionEvent::MemoryManagement(0), &ctx);
    assert_eq!(q.cpu.memory_management, MemoryManagement::Light);
    q.apply_event(QuickOptionEvent::MemoryManagement(-3), &ctx);
    assert_eq!(q.cpu.memory_management, MemoryManagement::Balanced);
    q.apply_event(QuickOptionEvent::GlesOverride(7), &ctx);
    assert_eq!(q.graphics.gles_override, GlesOverrideVersion::Metal);
    q.apply_event(QuickOptionEvent::AudioBackend(3), &ctx);
    assert_eq!(q.system.audio_backend, AudioBackend::AAudio);
    q.apply_event(QuickOptionEvent::GraphicsApi(3), &ctx);
    assert_eq!(q.graphics.graphics_api, GraphicsApi::Wgpu);
    q.apply_event(QuickOptionEvent::GraphicsApi(6), &ctx);
    assert_eq!(q.graphics.graphics_api, GraphicsApi::Default);
    q.apply_event(QuickOptionEvent::IosVersion(4), &ctx);
    assert_eq!(q.device.ios_version, Some((5, 1, 0)));
    q.apply_event(QuickOptionEvent::IosVersion(0), &ctx);
    assert_eq!(q.device.ios_version, None);
}

#[test]
fn plain_choices_are_stored() {
    let ctx = context();
    let mut q = QuickOptions::new(false, false, false);
    q.apply_event(QuickOptionEvent::ScaleHack(Some(ScaleHack::ThreeQuarters)), &ctx);
    q.apply_event(QuickOptionEvent::Orientation(Some(Orientation::LandscapeRight)), &ctx);
    q.apply_event(QuickOptionEvent::RenderRotation(RenderRotation::Plus90), &ctx);
    q.apply_event(QuickOptionEvent::Arm64Jit(true), &ctx);
    q.apply_event(QuickOptionEvent::Arm64FallbackJit(true), &ctx);
    q.apply_event(QuickOptionEvent::AntiAliasing(4), &ctx);
    q.apply_event(QuickOptionEvent::Vsync(true), &ctx);
    assert_eq!(q.screen.scale_hack, Some(ScaleHack::ThreeQuarters));
    assert_eq!(q.screen.orientation, Some(Orientation::LandscapeRight));
    assert_eq!(q.screen.render_rotation, Some(RenderRotation::Plus90));
    assert_eq!(q.cpu.arm64_backend, Arm64Backend::Jit);
    assert_eq!(q.cpu.arm64_fallback, Arm64Fallback::Jit);
    assert_eq!(q.graphics.anti_aliasing, 4);
    assert!(q.frames.vsync);
}

#[test]
fn every_event_keeps_the_settings_consistent() {
    let ctx = context();
    let mut q = QuickOptions::new(true, false, false);
    let events = vec![
        QuickOptionEvent::ForceMaxClocks(true),
        QuickOptionEvent::Force32Bit(true),
        QuickOptionEvent::Force64Bit(true),
        QuickOptionEvent::DeviceModelScrollDown,
        QuickOptionEvent::DeviceModelScrollDown,
        QuickOptionEvent::DeviceModelScrollDown,
        QuickOptionEvent::BatterySaver(true),
        QuickOptionEvent::HighPerformance(true),
        QuickOptionEvent::ForceMaxClocks(true),
        QuickOptionEvent::UltraBatterySaver(true),
        QuickOptionEvent::DeviceModelScrollUp,
    ];
    for event in events {
        q.apply_event(event, &ctx);
        assert!(consistent(&q, ctx.device_model_item_count));
    }
}

#[test]
fn dimension_fields_are_parsed() {
    assert_eq!(parse_dimension("640"), Some(640));
    assert_eq!(parse_dimension("\t\n 0640 \u{3000}"), Some(640));
    assert_eq!(parse_dimension("+64"), Some(64));
    assert_eq!(parse_dimension("16384"), Some(16384));
    assert_eq!(parse_dimension("16385"), None);
    assert_eq!(parse_dimension("63"), None);
    assert_eq!(parse_dimension("-640"), None);
    assert_eq!(parse_dimension("+"), None);
    assert_eq!(parse_dimension("6 40"), None);
    assert_eq!(parse_dimension("99999999999999999999"), None);
    assert_eq!(parse_dimension("   "), None);
}

#[test]
fn dropdown_tags_and_entries_round_trip() {
    for tag in 0..4i64 {
        assert_eq!(texture_filtering_index(texture_filtering_for_tag(tag)) as i64, tag);
        assert_eq!(audio_backend_index(audio_backend_for_tag(tag)) as i64, tag);
    }
    for tag in 0..3i64 {
        assert_eq!(memory_management_index(memory_management_for_tag(tag)) as i64, tag);
    }
    for tag in 0..8i64 {
        assert_eq!(gles_override_index(gles_override_for_tag(tag)) as i64, tag);
    }
    assert_eq!(texture_filtering_for_tag(4), TextureFiltering::Default);
    assert_eq!(gles_override_for_tag(8), GlesOverrideVersion::Default);
}
