use touchhle::option_args::option_args;
use touchhle::options::{
    Arm64Backend, FpsLimit, GlesOverrideVersion, GraphicsApi, Orientation, RenderRotation,
    ScaleHack,
};
use touchhle::quick_options::{PickerContext, QuickOptionEvent, QuickOptions};

fn drivers() -> Vec<String> {
    vec!["drivers/turnip.zip".to_string()]
}

fn families() -> Vec<String> {
    vec!["iphone".to_string(), "ipad".to_string()]
}

#[test]
fn default_settings_give_the_default_options() {
    let q = QuickOptions::new(false, false, false);
    let args = option_args(&q, &drivers(), &families());
    let expected: Vec<&str> = vec![
        "--disable-core-audio",
        "--disable-fullscreen-stretched",
        "--allow-network-access",
        "--disable-rtcs",
        "--print-fps",
        "--enable-frame-pacing",
        "--fps-limit=off",
        "--disable-vsync",
        "--disable-battery-saver",
        "--disable-ultra-battery-saver",
        "--disable-frame-generation",
        "--disable-high-performance",
        "--disable-force-max-clocks",
        "--disable-custom-driver",
        "--anisotropic-filtering=1",
        "--texture-upscaler=1",
        "--texture-filtering=default",
        "--memory-management=balanced",
        "--audio-backend=default",
        "--disable-low-audio-quality",
        "--pvrtc-decoding=auto",
        "--allow-texture-compression",
        "--anti-aliasing=1",
        "--arm64-backend=interpreter",
        "--disable-llvmpipe-fallback",
        "--disable-metal-translator",
        "--disable-angle-driver",
        "--enable-log-file",
        "--disable-trace-gl-errors",
        "--disable-verbose-logging",
        "--shader-compatibility-fixes",
        "--no-fix-texture-min-filter",
        "--disable-force-composition",
        "--enable-direct-memory-access",
    ];
    assert_eq!(args, expected);
}

#[test]
fn chosen_values_are_written_out() {
    let mut q = QuickOptions::new(false, true, true);
    q.device.ios_version = Some((12, 4, 1));
    q.system.core_audio = true;
    q.screen.scale_hack = Some(ScaleHack::Half);
    q.screen.custom_resolution = Some((1280, 720));
    q.screen.orientation = Some(Orientation::PortraitUpsideDown);
    q.screen.render_rotation = Some(RenderRotation::Minus90);
    q.screen.revert_x_axis = true;
    q.screen.revert_y_axis = true;
    q.screen.fullscreen = true;
    q.device.analog_stick_tilt_controls = false;
    q.frames.show_fps = false;
    q.frames.fps_limit = Some(FpsLimit::Fps120);
    q.driver.custom_driver = Some(0);
    q.graphics.anisotropic_filtering = 16;
    q.graphics.gles_override = GlesOverrideVersion::Gles20;
    q.graphics.graphics_api = GraphicsApi::TranslatorGLES30;
    q.cpu.arm64_backend = Arm64Backend::Jit;
    q.cpu.force_64_bit = true;
    q.device.device_tag = Some(1);
    let args = option_args(&q, &drivers(), &families());
    for wanted in [
        "--ios-version=12.4.1",
        "--core-audio",
        "--scale-hack=0.5",
        "--custom-resolution=1280x720",
        "--upside-down",
        "--render-rotation=minus90",
        "--revert-x-axis",
        "--revert-y-axis",
        "--fullscreen",
        "--disable-analog-stick-tilt-controls",
        "--fps-limit=120",
        "--custom-driver=drivers/turnip.zip",
        "--anisotropic-filtering=16",
        "--gles-override=gles2",
        "--audio-backend=coreaudio",
        "--graphics-api=translator-gles3",
        "--arm64-backend=jit",
        "--arm64-fallback=interpreter",
        "--metal-translator",
        "--fix-texture-min-filter",
        "--force-64-bit",
        "--device-family=ipad",
    ] {
        assert!(args.iter().any(|a| a == wanted), "missing {}", wanted);
    }
    assert_eq!(args[0], "--ios-version=12.4.1");
    assert!(!args.iter().any(|a| a == "--print-fps"));
}

#[test]
fn forcing_32_bit_wins_over_64_bit() {
    let mut q = QuickOptions::new(false, false, false);
    q.cpu.force_32_bit = true;
    q.cpu.force_64_bit = true;
    let args = option_args(&q, &drivers(), &families());
    assert!(args.iter().any(|a| a == "--force-32-bit"));
    assert!(!args.iter().any(|a| a == "--force-64-bit"));
}

#[test]
fn device_family_option_follows_the_tag() {
    let mut q = QuickOptions::new(false, false, false);
    let count = |q: &QuickOptions| {
        option_args(q, &drivers(), &families())
            .into_iter()
            .filter(|a| a.starts_with("--device-family="))
            .collect::<Vec<_>>()
    };
    q.device.device_tag = Some(1000);
    assert!(count(&q).is_empty());
    q.device.device_tag = Some(1001);
    assert_eq!(count(&q), vec!["--device-family=auto".to_string()]);
    q.device.device_tag = Some(0);
    assert_eq!(count(&q), vec!["--device-family=iphone".to_string()]);
    q.device.device_tag = Some(2);
    assert!(count(&q).is_empty());
    q.device.device_tag = Some(-4);
    assert!(count(&q).is_empty());
}

#[test]
fn custom_driver_index_past_the_list_disables_it() {
    let mut q = QuickOptions::new(false, false, false);
    q.driver.custom_driver = Some(3);
    let args = option_args(&q, &drivers(), &families());
    assert!(args.iter().any(|a| a == "--disable-custom-driver"));
}

#[test]
fn max_clocks_come_with_high_performance() {
    let ctx = PickerContext {
        host_resolutions: vec![],
        custom_driver_paths: drivers(),
        device_model_item_count: 8,
    };
    let mut q = QuickOptions::new(false, false, false);
    q.apply_event(QuickOptionEvent::ForceMaxClocks(true), &ctx);
    let args = option_args(&q, &drivers(), &families());
    assert!(args.iter().any(|a| a == "--force-max-clocks"));
    assert!(args.iter().any(|a| a == "--high-performance"));
}

#[test]
fn negative_ios_version_numbers_keep_their_sign() {
    let mut q = QuickOptions::new(false, false, false);
    q.device.ios_version = Some((-1, 0, i32::MIN));
    let args = option_args(&q, &drivers(), &families());
    assert_eq!(args[0], "--ios-version=-1.0.-2147483648");
}
