use vstd::prelude::*;
use vstd::string::StringExecFns;
use crate::decimal::{decimal_digits, push_decimal, push_signed_decimal, signed_decimal};
use crate::device_model::{DEVICE_TAG_AUTO, DEVICE_TAG_DEFAULT};
use crate::options::{
    arm64_backend_label, arm64_backend_name, arm64_fallback_label, arm64_fallback_name,
    audio_backend_driver, audio_backend_driver_name, fps_limit_label, fps_limit_text,
    gles_override_label, gles_override_text, graphics_api_name, graphics_api_option_name,
    memory_management_label, memory_management_text, orientation_flag, orientation_option,
    pvrtc_decoding_name, pvrtc_decoding_short_name, render_rotation_label, render_rotation_name,
    scale_hack_label, scale_hack_text, texture_filtering_label, texture_filtering_text,
    Arm64Backend, AudioBackend, FpsLimit, GlesOverrideVersion, GraphicsApi, Orientation,
    RenderRotation, ScaleHack,
};
use crate::quick_options::{
    initial_quick_options, is_run, lemma_initial_consistent, lemma_run_stays_consistent,
    quick_options_consistent, QuickOptionEvent, QuickOptions,
};

verus! {

/// `args` with `text` added when `on` holds.
pub open spec fn push_if(args: Seq<Seq<char>>, on: bool, text: Seq<char>) -> Seq<Seq<char>> {
    if on {
        args.push(text)
    } else {
        args
    }
}

/// `args` with the option added, when there is one.
pub open spec fn push_opt(args: Seq<Seq<char>>, option: Option<Seq<char>>) -> Seq<Seq<char>> {
    match option {
        Some(text) => args.push(text),
        None => args,
    }
}

/// What an optional string holds.
pub open spec fn text_of(option: Option<String>) -> Option<Seq<char>> {
    match option {
        Some(text) => Some(text@),
        None => None,
    }
}

/// One of two options, as a switch is on or off.
pub open spec fn either(on: bool, yes: Seq<char>, no: Seq<char>) -> Seq<char> {
    if on {
        yes
    } else {
        no
    }
}

/// The option that picks an iOS version: `--ios-version=` and the three
/// numbers joined by dots.
pub open spec fn ios_version_option(v: Option<(i32, i32, i32)>) -> Option<Seq<char>> {
    match v {
        Some(v) => Some(
            "--ios-version="@ + signed_decimal(v.0 as int) + "."@ + signed_decimal(v.1 as int)
                + "."@ + signed_decimal(v.2 as int),
        ),
        None => None,
    }
}

/// The option that picks a scale factor.
pub open spec fn scale_hack_option(v: Option<ScaleHack>) -> Option<Seq<char>> {
    match v {
        Some(v) => Some("--scale-hack="@ + scale_hack_text(v)),
        None => None,
    }
}

/// The option that picks a custom resolution: `--custom-resolution=` and the
/// width and height joined by an "x".
pub open spec fn custom_resolution_option(r: Option<(u32, u32)>) -> Option<Seq<char>> {
    match r {
        Some(r) => Some(
            "--custom-resolution="@ + decimal_digits(r.0 as nat) + "x"@ + decimal_digits(
                r.1 as nat,
            ),
        ),
        None => None,
    }
}

/// The option that forces an orientation.
pub open spec fn orientation_arg(o: Option<Orientation>) -> Option<Seq<char>> {
    match o {
        Some(o) => Some(orientation_option(o)),
        None => None,
    }
}

/// The option that picks a render rotation.
pub open spec fn render_rotation_option(r: Option<RenderRotation>) -> Option<Seq<char>> {
    match r {
        Some(r) => Some("--render-rotation="@ + render_rotation_name(r)),
        None => None,
    }
}

/// The option that picks a frame rate limit, or turns it off.
pub open spec fn fps_limit_option(l: Option<FpsLimit>) -> Seq<char> {
    match l {
        Some(l) => "--fps-limit="@ + fps_limit_text(l),
        None => "--fps-limit=off"@,
    }
}

/// The option that picks the custom driver with index `chosen` among
/// `driver_paths`, or turns custom drivers off.
pub open spec fn custom_driver_option(chosen: Option<usize>, driver_paths: Seq<Seq<char>>) -> Seq<
    char,
> {
    match chosen {
        Some(i) => if i < driver_paths.len() {
            "--custom-driver="@ + driver_paths[i as int]
        } else {
            "--disable-custom-driver"@
        },
        None => "--disable-custom-driver"@,
    }
}

/// The option that forces 32-bit or 64-bit code, 32-bit first.
pub open spec fn forced_bits_option(force_32_bit: bool, force_64_bit: bool) -> Option<Seq<char>> {
    if force_32_bit {
        Some("--force-32-bit"@)
    } else if force_64_bit {
        Some("--force-64-bit"@)
    } else {
        None
    }
}

/// The option that picks the emulated device family for a device-model
/// choice: none for no choice, for the default and for a tag that names no
/// family.
pub open spec fn device_family_option(tag: Option<i32>, family_names: Seq<Seq<char>>) -> Option<
    Seq<char>,
> {
    match tag {
        Some(t) => if t == DEVICE_TAG_DEFAULT {
            None
        } else if t == DEVICE_TAG_AUTO {
            Some("--device-family=auto"@)
        } else if 0 <= t < family_names.len() {
            Some("--device-family="@ + family_names[t as int])
        } else {
            None
        },
        None => None,
    }
}

/// The options for the screen, input and connections, after `args`.
pub open spec fn screen_args(args: Seq<Seq<char>>, q: QuickOptions) -> Seq<Seq<char>> {
    let a = push_opt(args, ios_version_option(q.device.ios_version));
    let a = a.push(either(q.system.core_audio, "--core-audio"@, "--disable-core-audio"@));
    let a = push_opt(a, scale_hack_option(q.screen.scale_hack));
    let a = push_opt(a, custom_resolution_option(q.screen.custom_resolution));
    let a = push_opt(a, orientation_arg(q.screen.orientation));
    let a = push_opt(a, render_rotation_option(q.screen.render_rotation));
    let a = push_if(a, q.screen.revert_x_axis, "--revert-x-axis"@);
    let a = push_if(a, q.screen.revert_y_axis, "--revert-y-axis"@);
    let a = push_if(a, q.screen.fullscreen, "--fullscreen"@);
    let a = a.push(
        either(
            q.screen.fullscreen_stretched,
            "--fullscreen-stretched"@,
            "--disable-fullscreen-stretched"@,
        ),
    );
    let a = push_if(
        a,
        !q.device.analog_stick_tilt_controls,
        "--disable-analog-stick-tilt-controls"@,
    );
    let a = a.push(
        either(q.device.network, "--allow-network-access"@, "--disable-network-access"@),
    );
    a.push(either(q.device.rtcs, "--rtcs"@, "--disable-rtcs"@))
}

/// The options for frame timing and power, after `args`.
pub open spec fn frame_args(args: Seq<Seq<char>>, q: QuickOptions) -> Seq<Seq<char>> {
    let a = push_if(args, q.frames.show_fps, "--print-fps"@);
    let a = a.push(
        either(q.frames.frame_pacing, "--enable-frame-pacing"@, "--disable-frame-pacing"@),
    );
    let a = a.push(fps_limit_option(q.frames.fps_limit));
    let a = a.push(either(q.frames.vsync, "--vsync"@, "--disable-vsync"@));
    let a = a.push(
        either(q.power.battery_saver, "--battery-saver"@, "--disable-battery-saver"@),
    );
    let a = a.push(
        either(
            q.power.ultra_battery_saver,
            "--ultra-battery-saver"@,
            "--disable-ultra-battery-saver"@,
        ),
    );
    let a = a.push(
        either(
            q.frames.frame_generation,
            "--frame-generation"@,
            "--disable-frame-generation"@,
        ),
    );
    let a = a.push(
        either(q.power.high_performance, "--high-performance"@, "--disable-high-performance"@),
    );
    a.push(either(q.power.force_max_clocks, "--force-max-clocks"@, "--disable-force-max-clocks"@))
}

/// The audio backend that runs: Core Audio whenever its switch is on.
pub open spec fn effective_audio_backend(q: QuickOptions) -> AudioBackend {
    if q.system.core_audio {
        AudioBackend::CoreAudio
    } else {
        q.system.audio_backend
    }
}

/// The options for the driver, textures, audio and CPU backend, after
/// `args`; `driver_paths` are the paths of the custom drivers found.
pub open spec fn engine_args(
    args: Seq<Seq<char>>,
    q: QuickOptions,
    driver_paths: Seq<Seq<char>>,
) -> Seq<Seq<char>> {
    let a = args.push(custom_driver_option(q.driver.custom_driver, driver_paths));
    let a = a.push(
        "--anisotropic-filtering="@ + decimal_digits(q.graphics.anisotropic_filtering as nat),
    );
    let a = a.push("--texture-upscaler="@ + decimal_digits(q.graphics.texture_upscaler as nat));
    let a = a.push(
        "--texture-filtering="@ + texture_filtering_text(q.graphics.texture_filtering),
    );
    let a = a.push("--memory-management="@ + memory_management_text(q.cpu.memory_management));
    let a = push_if(
        a,
        q.graphics.gles_override != GlesOverrideVersion::Default,
        "--gles-override="@ + gles_override_text(q.graphics.gles_override),
    );
    let a = a.push("--audio-backend="@ + audio_backend_driver_name(effective_audio_backend(q)));
    let a = a.push(
        either(
            q.system.low_audio_quality,
            "--low-audio-quality"@,
            "--disable-low-audio-quality"@,
        ),
    );
    let a = a.push("--pvrtc-decoding="@ + pvrtc_decoding_name(q.graphics.pvrtc_decoding));
    let a = a.push(
        either(
            q.graphics.no_texture_compression,
            "--no-texture-compression"@,
            "--allow-texture-compression"@,
        ),
    );
    let a = a.push("--anti-aliasing="@ + decimal_digits(q.graphics.anti_aliasing as nat));
    let a = push_if(
        a,
        q.graphics.graphics_api != GraphicsApi::Default,
        "--graphics-api="@ + graphics_api_name(q.graphics.graphics_api),
    );
    let a = a.push("--arm64-backend="@ + arm64_backend_name(q.cpu.arm64_backend));
    push_if(
        a,
        q.cpu.arm64_backend == Arm64Backend::Jit,
        "--arm64-fallback="@ + arm64_fallback_name(q.cpu.arm64_fallback),
    )
}

/// The options for the driver workarounds, logging, memory and the emulated
/// device, after `args`; `family_names` are the option names of the device
/// families that the device-model dropdown lists.
pub open spec fn system_args(
    args: Seq<Seq<char>>,
    q: QuickOptions,
    family_names: Seq<Seq<char>>,
) -> Seq<Seq<char>> {
    let a = args.push(
        either(
            q.driver.llvmpipe_fallback,
            "--llvmpipe-fallback"@,
            "--disable-llvmpipe-fallback"@,
        ),
    );
    let a = a.push(
        either(q.driver.metal_translator, "--metal-translator"@, "--disable-metal-translator"@),
    );
    let a = a.push(either(q.driver.angle_driver, "--angle-driver"@, "--disable-angle-driver"@));
    let a = a.push(either(q.system.log_file, "--enable-log-file"@, "--disable-log-file"@));
    let a = a.push(
        either(q.system.trace_gl_errors, "--trace-gl-errors"@, "--disable-trace-gl-errors"@),
    );
    let a = a.push(
        either(q.system.verbose_logging, "--verbose-logging"@, "--disable-verbose-logging"@),
    );
    let a = a.push(
        either(
            q.driver.shader_compatibility_fixes,
            "--shader-compatibility-fixes"@,
            "--disable-shader-compatibility-fixes"@,
        ),
    );
    let a = a.push(
        either(
            q.driver.fix_texture_min_filter,
            "--fix-texture-min-filter"@,
            "--no-fix-texture-min-filter"@,
        ),
    );
    let a = a.push(
        either(
            q.driver.force_composition,
            "--force-composition"@,
            "--disable-force-composition"@,
        ),
    );
    let a = a.push(
        either(
            q.cpu.fast_memory,
            "--enable-direct-memory-access"@,
            "--disable-direct-memory-access"@,
        ),
    );
    let a = push_opt(a, forced_bits_option(q.cpu.force_32_bit, q.cpu.force_64_bit));
    push_opt(a, device_family_option(q.device.device_tag, family_names))
}

/// The command-line options that the chosen settings give the game, in
/// order; `driver_paths` are the paths of the custom drivers found and
/// `family_names` the option names of the selectable device families.
pub open spec fn option_args_for(
    q: QuickOptions,
    driver_paths: Seq<Seq<char>>,
    family_names: Seq<Seq<char>>,
) -> Seq<Seq<char>> {
    system_args(
        engine_args(frame_args(screen_args(Seq::empty(), q), q), q, driver_paths),
        q,
        family_names,
    )
}

fn push_arg(args: &mut Vec<String>, text: String)
    ensures
        final(args).deep_view() == old(args).deep_view().push(text@),
{
    args.push(text);
    proof {
        assert(args.deep_view() =~= old(args).deep_view().push(text@));
    }
}

fn push_text(args: &mut Vec<String>, text: &str)
    ensures
        final(args).deep_view() == old(args).deep_view().push(text@),
{
    push_arg(args, String::from_str(text));
}

fn push_text_if(args: &mut Vec<String>, on: bool, text: &str)
    ensures
        final(args).deep_view() == push_if(old(args).deep_view(), on, text@),
{
    if on {
        push_text(args, text);
    }
}

fn push_some(args: &mut Vec<String>, option: Option<String>)
    ensures
        final(args).deep_view() == push_opt(old(args).deep_view(), text_of(option)),
{
    if let Some(text) = option {
        push_arg(args, text);
    }
}

fn push_either(args: &mut Vec<String>, on: bool, yes: &str, no: &str)
    ensures
        final(args).deep_view() == old(args).deep_view().push(either(on, yes@, no@)),
{
    if on {
        push_text(args, yes);
    } else {
        push_text(args, no);
    }
}

fn prefixed(prefix: &str, value: &str) -> (text: String)
    ensures
        text@ == prefix@ + value@,
{
    let mut text = String::from_str(prefix);
    text.append(value);
    text
}

fn prefixed_number(prefix: &str, value: u8) -> (text: String)
    ensures
        text@ == prefix@ + decimal_digits(value as nat),
{
    let mut text = String::from_str(prefix);
    push_decimal(&mut text, value as u64);
    text
}

fn ios_version_arg(v: Option<(i32, i32, i32)>) -> (r: Option<String>)
    ensures
        text_of(r) == ios_version_option(v),
{
    match v {
        Some(v) => {
            let mut text = String::from_str("--ios-version=");
            push_signed_decimal(&mut text, v.0 as i64);
            text.append(".");
            push_signed_decimal(&mut text, v.1 as i64);
            text.append(".");
            push_signed_decimal(&mut text, v.2 as i64);
            Some(text)
        },
        None => None,
    }
}

fn scale_hack_arg(v: Option<ScaleHack>) -> (r: Option<String>)
    ensures
        text_of(r) == scale_hack_option(v),
{
    match v {
        Some(v) => Some(prefixed("--scale-hack=", scale_hack_label(v))),
        None => None,
    }
}

fn custom_resolution_arg(r: Option<(u32, u32)>) -> (o: Option<String>)
    ensures
        text_of(o) == custom_resolution_option(r),
{
    match r {
        Some(r) => {
            let mut text = String::from_str("--custom-resolution=");
            push_decimal(&mut text, r.0 as u64);
            text.append("x");
            push_decimal(&mut text, r.1 as u64);
            Some(text)
        },
        None => None,
    }
}

fn orientation_opt_arg(o: Option<Orientation>) -> (r: Option<String>)
    ensures
        text_of(r) == orientation_arg(o),
{
    match o {
        Some(o) => Some(String::from_str(orientation_flag(o))),
        None => None,
    }
}

fn render_rotation_arg(r: Option<RenderRotation>) -> (o: Option<String>)
    ensures
        text_of(o) == render_rotation_option(r),
{
    match r {
        Some(r) => Some(prefixed("--render-rotation=", render_rotation_label(r))),
        None => None,
    }
}

fn fps_limit_arg(l: Option<FpsLimit>) -> (text: String)
    ensures
        text@ == fps_limit_option(l),
{
    match l {
        Some(l) => prefixed("--fps-limit=", fps_limit_label(l)),
        None => String::from_str("--fps-limit=off"),
    }
}

fn custom_driver_arg(chosen: Option<usize>, driver_paths: &Vec<String>) -> (text: String)
    ensures
        text@ == custom_driver_option(chosen, driver_paths.deep_view()),
{
    match chosen {
        Some(i) => {
            if i < driver_paths.len() {
                prefixed("--custom-driver=", driver_paths[i].as_str())
            } else {
                String::from_str("--disable-custom-driver")
            }
        },
        None => String::from_str("--disable-custom-driver"),
    }
}

fn forced_bits_arg(force_32_bit: bool, force_64_bit: bool) -> (r: Option<String>)
    ensures
        text_of(r) == forced_bits_option(force_32_bit, force_64_bit),
{
    if force_32_bit {
        Some(String::from_str("--force-32-bit"))
    } else if force_64_bit {
        Some(String::from_str("--force-64-bit"))
    } else {
        None
    }
}

fn device_family_arg(tag: Option<i32>, family_names: &Vec<String>) -> (r: Option<String>)
    ensures
        text_of(r) == device_family_option(tag, family_names.deep_view()),
{
    match tag {
        Some(t) => {
            if t == DEVICE_TAG_DEFAULT {
                None
            } else if t == DEVICE_TAG_AUTO {
                Some(String::from_str("--device-family=auto"))
            } else if 0 <= t && (t as usize) < family_names.len() {
                Some(prefixed("--device-family=", family_names[t as usize].as_str()))
            } else {
                None
            }
        },
        None => None,
    }
}

fn push_screen_args(args: &mut Vec<String>, q: &QuickOptions)
    ensures
        final(args).deep_view() == screen_args(old(args).deep_view(), *q),
{
    push_some(args, ios_version_arg(q.device.ios_version));
    push_either(args, q.system.core_audio, "--core-audio", "--disable-core-audio");
    push_some(args, scale_hack_arg(q.screen.scale_hack));
    push_some(args, custom_resolution_arg(q.screen.custom_resolution));
    push_some(args, orientation_opt_arg(q.screen.orientation));
    push_some(args, render_rotation_arg(q.screen.render_rotation));
    push_text_if(args, q.screen.revert_x_axis, "--revert-x-axis");
    push_text_if(args, q.screen.revert_y_axis, "--revert-y-axis");
    push_text_if(args, q.screen.fullscreen, "--fullscreen");
    push_either(
        args,
        q.screen.fullscreen_stretched,
        "--fullscreen-stretched",
        "--disable-fullscreen-stretched",
    );
    push_text_if(
        args,
        !q.device.analog_stick_tilt_controls,
        "--disable-analog-stick-tilt-controls",
    );
    push_either(args, q.device.network, "--allow-network-access", "--disable-network-access");
    push_either(args, q.device.rtcs, "--rtcs", "--disable-rtcs");
}

fn push_frame_args(args: &mut Vec<String>, q: &QuickOptions)
    ensures
        final(args).deep_view() == frame_args(old(args).deep_view(), *q),
{
    push_text_if(args, q.frames.show_fps, "--print-fps");
    push_either(args, q.frames.frame_pacing, "--enable-frame-pacing", "--disable-frame-pacing");
    push_arg(args, fps_limit_arg(q.frames.fps_limit));
    push_either(args, q.frames.vsync, "--vsync", "--disable-vsync");
    push_either(args, q.power.battery_saver, "--battery-saver", "--disable-battery-saver");
    push_either(
        args,
        q.power.ultra_battery_saver,
        "--ultra-battery-saver",
        "--disable-ultra-battery-saver",
    );
    push_either(
        args,
        q.frames.frame_generation,
        "--frame-generation",
        "--disable-frame-generation",
    );
    push_either(
        args,
        q.power.high_performance,
        "--high-performance",
        "--disable-high-performance",
    );
    push_either(
        args,
        q.power.force_max_clocks,
        "--force-max-clocks",
        "--disable-force-max-clocks",
    );
}

fn push_engine_args(args: &mut Vec<String>, q: &QuickOptions, driver_paths: &Vec<String>)
    ensures
        final(args).deep_view() == engine_args(
            old(args).deep_view(),
            *q,
            driver_paths.deep_view(),
        ),
{
    push_arg(args, custom_driver_arg(q.driver.custom_driver, driver_paths));
    push_arg(args, prefixed_number("--anisotropic-filtering=", q.graphics.anisotropic_filtering));
    push_arg(args, prefixed_number("--texture-upscaler=", q.graphics.texture_upscaler));
    push_arg(
        args,
        prefixed("--texture-filtering=", texture_filtering_label(q.graphics.texture_filtering)),
    );
    push_arg(
        args,
        prefixed("--memory-management=", memory_management_label(q.cpu.memory_management)),
    );
    if q.graphics.gles_override != GlesOverrideVersion::Default {
        push_arg(args, prefixed("--gles-override=", gles_override_label(q.graphics.gles_override)));
    }
    let audio_backend = if q.system.core_audio {
        AudioBackend::CoreAudio
    } else {
        q.system.audio_backend
    };
    push_arg(args, prefixed("--audio-backend=", audio_backend_driver(audio_backend)));
    push_either(
        args,
        q.system.low_audio_quality,
        "--low-audio-quality",
        "--disable-low-audio-quality",
    );
    push_arg(
        args,
        prefixed("--pvrtc-decoding=", pvrtc_decoding_short_name(q.graphics.pvrtc_decoding)),
    );
    push_either(
        args,
        q.graphics.no_texture_compression,
        "--no-texture-compression",
        "--allow-texture-compression",
    );
    push_arg(args, prefixed_number("--anti-aliasing=", q.graphics.anti_aliasing));
    if q.graphics.graphics_api != GraphicsApi::Default {
        push_arg(
            args,
            prefixed("--graphics-api=", graphics_api_option_name(q.graphics.graphics_api)),
        );
    }
    push_arg(args, prefixed("--arm64-backend=", arm64_backend_label(q.cpu.arm64_backend)));
    if q.cpu.arm64_backend == Arm64Backend::Jit {
        push_arg(args, prefixed("--arm64-fallback=", arm64_fallback_label(q.cpu.arm64_fallback)));
    }
}

fn push_system_args(args: &mut Vec<String>, q: &QuickOptions, family_names: &Vec<String>)
    ensures
        final(args).deep_view() == system_args(
            old(args).deep_view(),
            *q,
            family_names.deep_view(),
        ),
{
    push_either(
        args,
        q.driver.llvmpipe_fallback,
        "--llvmpipe-fallback",
        "--disable-llvmpipe-fallback",
    );
    push_either(
        args,
        q.driver.metal_translator,
        "--metal-translator",
        "--disable-metal-translator",
    );
    push_either(args, q.driver.angle_driver, "--angle-driver", "--disable-angle-driver");
    push_either(args, q.system.log_file, "--enable-log-file", "--disable-log-file");
    push_either(args, q.system.trace_gl_errors, "--trace-gl-errors", "--disable-trace-gl-errors");
    push_either(args, q.system.verbose_logging, "--verbose-logging", "--disable-verbose-logging");
    push_either(
        args,
        q.driver.shader_compatibility_fixes,
        "--shader-compatibility-fixes",
        "--disable-shader-compatibility-fixes",
    );
    push_either(
        args,
        q.driver.fix_texture_min_filter,
        "--fix-texture-min-filter",
        "--no-fix-texture-min-filter",
    );
    push_either(
        args,
        q.driver.force_composition,
        "--force-composition",
        "--disable-force-composition",
    );
    push_either(
        args,
        q.cpu.fast_memory,
        "--enable-direct-memory-access",
        "--disable-direct-memory-access",
    );
    push_some(args, forced_bits_arg(q.cpu.force_32_bit, q.cpu.force_64_bit));
    push_some(args, device_family_arg(q.device.device_tag, family_names));
}

/// The command-line options that the chosen settings give the game, in
/// order, as the picker hands them on with the chosen app. `driver_paths`
/// are the paths of the custom drivers found, `family_names` the option
/// names of the selectable device families, both in the order the panel
/// lists them.
pub fn option_args(
    q: &QuickOptions,
    driver_paths: &Vec<String>,
    family_names: &Vec<String>,
) -> (args: Vec<String>)
    ensures
        args.deep_view() == option_args_for(*q, driver_paths.deep_view(), family_names.deep_view()),
{
    let mut args: Vec<String> = Vec::new();
    proof {
        assert(args.deep_view() =~= Seq::<Seq<char>>::empty());
    }
    push_screen_args(&mut args, q);
    push_frame_args(&mut args, q);
    push_engine_args(&mut args, q, driver_paths);
    push_system_args(&mut args, q, family_names);
    args
}

proof fn lemma_push_keeps_prefix(a: Seq<Seq<char>>, b: Seq<Seq<char>>, i: int)
    requires
        0 <= i < a.len(),
        b.len() >= a.len(),
        b.subrange(0, a.len() as int) == a,
    ensures
        b[i] == a[i],
{
    assert(b.subrange(0, a.len() as int)[i] == b[i]);
}

proof fn lemma_engine_args_extend(a: Seq<Seq<char>>, q: QuickOptions, paths: Seq<Seq<char>>)
    ensures
        engine_args(a, q, paths).len() >= a.len(),
        engine_args(a, q, paths).subrange(0, a.len() as int) =~= a,
{
}

proof fn lemma_system_args_extend(a: Seq<Seq<char>>, q: QuickOptions, names: Seq<Seq<char>>)
    ensures
        system_args(a, q, names).len() >= a.len(),
        system_args(a, q, names).subrange(0, a.len() as int) =~= a,
{
}

/// Whenever the settings ask for maximum clocks, and so (being consistent)
/// for high performance mode, the options that the game gets ask for both.
pub proof fn lemma_max_clocks_come_with_high_performance(
    q: QuickOptions,
    driver_paths: Seq<Seq<char>>,
    family_names: Seq<Seq<char>>,
    device_items: int,
)
    requires
        quick_options_consistent(q, device_items),
        q.power.force_max_clocks,
    ensures
        option_args_for(q, driver_paths, family_names).contains("--force-max-clocks"@),
        option_args_for(q, driver_paths, family_names).contains("--high-performance"@),
{
    let f = frame_args(screen_args(Seq::empty(), q), q);
    let e = engine_args(f, q, driver_paths);
    let all = system_args(e, q, family_names);
    let k = f.len() - 1;
    assert(f[k] == "--force-max-clocks"@);
    assert(f[k - 1] == "--high-performance"@);
    lemma_engine_args_extend(f, q, driver_paths);
    lemma_system_args_extend(e, q, family_names);
    lemma_push_keeps_prefix(f, e, k);
    lemma_push_keeps_prefix(f, e, k - 1);
    lemma_push_keeps_prefix(e, all, k);
    lemma_push_keeps_prefix(e, all, k - 1);
    assert(all[k] == "--force-max-clocks"@);
    assert(all[k - 1] == "--high-performance"@);
}


/// Over any run of events from the panel's initial settings, the settings
/// never force both 32-bit and 64-bit code, the options that the game gets at
/// the end never ask for both, and whenever the settings reached ask for
/// maximum clocks, those options ask for maximum clocks and high performance
/// mode alike.
pub proof fn lemma_run_keeps_clocks_with_high_performance(
    states: Seq<QuickOptions>,
    events: Seq<QuickOptionEvent>,
    hosts: Seq<(u32, u32)>,
    driver_count: int,
    device_items: int,
    high_performance: bool,
    fix_texture_min_filter: bool,
    metal_translator: bool,
    driver_paths: Seq<Seq<char>>,
    family_names: Seq<Seq<char>>,
)
    requires
        is_run(states, events, hosts, driver_count, device_items),
        states[0] == initial_quick_options(high_performance, fix_texture_min_filter, metal_translator),
    ensures
        forall|i: int|
            0 <= i < states.len() ==> !((#[trigger] states[i]).cpu.force_32_bit
                && states[i].cpu.force_64_bit),
        !(option_args_for(states.last(), driver_paths, family_names).contains("--force-32-bit"@)
            && option_args_for(states.last(), driver_paths, family_names).contains(
            "--force-64-bit"@,
        )),
        states.last().power.force_max_clocks ==> option_args_for(
            states.last(),
            driver_paths,
            family_names,
        ).contains("--force-max-clocks"@) && option_args_for(
            states.last(),
            driver_paths,
            family_names,
        ).contains("--high-performance"@),
{
    lemma_initial_consistent(high_performance, fix_texture_min_filter, metal_translator, device_items);
    lemma_run_stays_consistent(states, events, hosts, driver_count, device_items);
    let last = states.last();
    assert(quick_options_consistent(states[states.len() - 1], device_items));
    if last.power.force_max_clocks {
        lemma_max_clocks_come_with_high_performance(last, driver_paths, family_names, device_items);
    }
    lemma_never_both_word_sizes(last, driver_paths, family_names);
}

/// `x` is one of the options that force 32-bit or 64-bit code.
spec fn is_forced_bits_name(x: Seq<char>) -> bool {
    x == "--force-32-bit"@ || x == "--force-64-bit"@
}

/// `e` is plainly not an option that forces 32-bit or 64-bit code: its third
/// or fourth character differs, or so does its length.
spec fn plainly_not_64(e: Seq<char>) -> bool {
    ||| e.len() != 14
    ||| (e.len() >= 4 && (e[2] != 'f' || e[3] != 'o'))
}

proof fn lemma_plainly_not_64(e: Seq<char>, x: Seq<char>)
    requires
        plainly_not_64(e),
        is_forced_bits_name(x),
    ensures
        e != x,
{
    reveal_strlit("--force-64-bit");
    reveal_strlit("--force-32-bit");
    if e == x {
        assert(e[2] == 'f' && e[3] == 'o');
    }
}

proof fn lemma_prefixed_not_64(p: Seq<char>, r: Seq<char>, x: Seq<char>)
    requires
        p.len() >= 4,
        p[2] != 'f' || p[3] != 'o',
        is_forced_bits_name(x),
    ensures
        p + r != x,
{
    assert((p + r)[2] == p[2] && (p + r)[3] == p[3]);
    lemma_plainly_not_64(p + r, x);
}

proof fn lemma_push_keeps_out(a: Seq<Seq<char>>, e: Seq<char>, x: Seq<char>)
    requires
        !a.contains(x),
        is_forced_bits_name(x),
        e != x,
    ensures
        !a.push(e).contains(x),
{
    assert forall|i: int| 0 <= i < a.push(e).len() implies a.push(e)[i] != x by {
        if i < a.len() {
            assert(a.push(e)[i] == a[i]);
            assert(!(a[i] == x));
        }
    }
}

proof fn lemma_extend_keeps_head(p: Seq<char>, r: Seq<char>)
    requires
        p.len() >= 4,
    ensures
        (p + r).len() >= 4,
        (p + r)[2] == p[2],
        (p + r)[3] == p[3],
{
}

proof fn lemma_push_opt_keeps_out(a: Seq<Seq<char>>, o: Option<Seq<char>>, x: Seq<char>)
    requires
        !a.contains(x),
        is_forced_bits_name(x),
        o matches Some(e) ==> e != x,
    ensures
        !push_opt(a, o).contains(x),
{
    if let Some(e) = o {
        lemma_push_keeps_out(a, e, x);
    }
}

proof fn lemma_push_if_keeps_out(a: Seq<Seq<char>>, on: bool, e: Seq<char>, x: Seq<char>)
    requires
        !a.contains(x),
        is_forced_bits_name(x),
        e != x,
    ensures
        !push_if(a, on, e).contains(x),
{
    if on {
        lemma_push_keeps_out(a, e, x);
    }
}

proof fn lemma_screen_args_out(a: Seq<Seq<char>>, q: QuickOptions, x: Seq<char>)
    requires
        !a.contains(x),
        is_forced_bits_name(x),
    ensures
        !screen_args(a, q).contains(x),
{
    reveal_strlit("--core-audio");
    reveal_strlit("--disable-core-audio");
    reveal_strlit("--scale-hack=");
    reveal_strlit("--custom-resolution=");
    reveal_strlit("--landscape-left");
    reveal_strlit("--landscape-right");
    reveal_strlit("--upside-down");
    reveal_strlit("--render-rotation=");
    reveal_strlit("--revert-x-axis");
    reveal_strlit("--revert-y-axis");
    reveal_strlit("--fullscreen");
    reveal_strlit("--fullscreen-stretched");
    reveal_strlit("--disable-fullscreen-stretched");
    reveal_strlit("--disable-analog-stick-tilt-controls");
    reveal_strlit("--allow-network-access");
    reveal_strlit("--disable-network-access");
    reveal_strlit("--rtcs");
    reveal_strlit("--disable-rtcs");
    reveal_strlit("--ios-version=");
    let o = ios_version_option(q.device.ios_version);
    if let Some(v) = q.device.ios_version {
        let p = "--ios-version="@;
        lemma_extend_keeps_head(p, signed_decimal(v.0 as int));
        lemma_extend_keeps_head(p + signed_decimal(v.0 as int), "."@);
        lemma_extend_keeps_head(p + signed_decimal(v.0 as int) + "."@, signed_decimal(v.1 as int));
        lemma_extend_keeps_head(
            p + signed_decimal(v.0 as int) + "."@ + signed_decimal(v.1 as int),
            "."@,
        );
        lemma_extend_keeps_head(
            p + signed_decimal(v.0 as int) + "."@ + signed_decimal(v.1 as int) + "."@,
            signed_decimal(v.2 as int),
        );
        lemma_plainly_not_64(o->0, x);
    }
    lemma_push_opt_keeps_out(a, o, x);
    let a1 = push_opt(a, o);
    let e = either(q.system.core_audio, "--core-audio"@, "--disable-core-audio"@);
    lemma_plainly_not_64(e, x);
    lemma_push_keeps_out(a1, e, x);
    let a2 = a1.push(e);
    let o = scale_hack_option(q.screen.scale_hack);
    if let Some(v) = q.screen.scale_hack {
        lemma_prefixed_not_64("--scale-hack="@, scale_hack_text(v), x);
    }
    lemma_push_opt_keeps_out(a2, o, x);
    let a3 = push_opt(a2, o);
    let o = custom_resolution_option(q.screen.custom_resolution);
    if let Some(r) = q.screen.custom_resolution {
        let p = "--custom-resolution="@;
        lemma_extend_keeps_head(p, decimal_digits(r.0 as nat));
        lemma_extend_keeps_head(p + decimal_digits(r.0 as nat), "x"@);
        lemma_extend_keeps_head(p + decimal_digits(r.0 as nat) + "x"@, decimal_digits(r.1 as nat));
        lemma_plainly_not_64(o->0, x);
    }
    lemma_push_opt_keeps_out(a3, o, x);
    let a4 = push_opt(a3, o);
    let o = orientation_arg(q.screen.orientation);
    if let Some(v) = q.screen.orientation {
        lemma_plainly_not_64(orientation_option(v), x);
    }
    lemma_push_opt_keeps_out(a4, o, x);
    let a5 = push_opt(a4, o);
    let o = render_rotation_option(q.screen.render_rotation);
    if let Some(r) = q.screen.render_rotation {
        lemma_prefixed_not_64("--render-rotation="@, render_rotation_name(r), x);
    }
    lemma_push_opt_keeps_out(a5, o, x);
    let a6 = push_opt(a5, o);
    lemma_plainly_not_64("--revert-x-axis"@, x);
    lemma_push_if_keeps_out(a6, q.screen.revert_x_axis, "--revert-x-axis"@, x);
    let a7 = push_if(a6, q.screen.revert_x_axis, "--revert-x-axis"@);
    lemma_plainly_not_64("--revert-y-axis"@, x);
    lemma_push_if_keeps_out(a7, q.screen.revert_y_axis, "--revert-y-axis"@, x);
    let a8 = push_if(a7, q.screen.revert_y_axis, "--revert-y-axis"@);
    lemma_plainly_not_64("--fullscreen"@, x);
    lemma_push_if_keeps_out(a8, q.screen.fullscreen, "--fullscreen"@, x);
    let a9 = push_if(a8, q.screen.fullscreen, "--fullscreen"@);
    let e = either(
        q.screen.fullscreen_stretched,
        "--fullscreen-stretched"@,
        "--disable-fullscreen-stretched"@,
    );
    lemma_plainly_not_64(e, x);
    lemma_push_keeps_out(a9, e, x);
    let a10 = a9.push(e);
    lemma_plainly_not_64("--disable-analog-stick-tilt-controls"@, x);
    lemma_push_if_keeps_out(
        a10,
        !q.device.analog_stick_tilt_controls,
        "--disable-analog-stick-tilt-controls"@,
        x,
    );
    let a11 = push_if(
        a10,
        !q.device.analog_stick_tilt_controls,
        "--disable-analog-stick-tilt-controls"@,
    );
    let e = either(q.device.network, "--allow-network-access"@, "--disable-network-access"@);
    lemma_plainly_not_64(e, x);
    lemma_push_keeps_out(a11, e, x);
    let a12 = a11.push(e);
    let e = either(q.device.rtcs, "--rtcs"@, "--disable-rtcs"@);
    lemma_plainly_not_64(e, x);
    lemma_push_keeps_out(a12, e, x);
}


proof fn lemma_frame_args_out(a: Seq<Seq<char>>, q: QuickOptions, x: Seq<char>)
    requires
        !a.contains(x),
        is_forced_bits_name(x),
    ensures
        !frame_args(a, q).contains(x),
{
    reveal_strlit("--print-fps");
    reveal_strlit("--enable-frame-pacing");
    reveal_strlit("--disable-frame-pacing");
    reveal_strlit("--fps-limit=");
    reveal_strlit("--fps-limit=off");
    reveal_strlit("--vsync");
    reveal_strlit("--disable-vsync");
    reveal_strlit("--battery-saver");
    reveal_strlit("--disable-battery-saver");
    reveal_strlit("--ultra-battery-saver");
    reveal_strlit("--disable-ultra-battery-saver");
    reveal_strlit("--frame-generation");
    reveal_strlit("--disable-frame-generation");
    reveal_strlit("--high-performance");
    reveal_strlit("--disable-high-performance");
    reveal_strlit("--force-max-clocks");
    reveal_strlit("--disable-force-max-clocks");
    lemma_plainly_not_64("--print-fps"@, x);
    lemma_push_if_keeps_out(a, q.frames.show_fps, "--print-fps"@, x);
    let b = push_if(a, q.frames.show_fps, "--print-fps"@);
    let e = either(q.frames.frame_pacing, "--enable-frame-pacing"@, "--disable-frame-pacing"@);
    lemma_plainly_not_64(e, x);
    lemma_push_keeps_out(b, e, x);
    let c = b.push(e);
    let e = fps_limit_option(q.frames.fps_limit);
    if let Some(l) = q.frames.fps_limit {
        lemma_prefixed_not_64("--fps-limit="@, fps_limit_text(l), x);
    } else {
        lemma_plainly_not_64(e, x);
    }
    lemma_push_keeps_out(c, e, x);
    let d = c.push(e);
    let e = either(q.frames.vsync, "--vsync"@, "--disable-vsync"@);
    lemma_plainly_not_64(e, x);
    lemma_push_keeps_out(d, e, x);
    let d_0 = d.push(e);
    let e = either(q.power.battery_saver, "--battery-saver"@, "--disable-battery-saver"@);
    lemma_plainly_not_64(e, x);
    lemma_push_keeps_out(d_0, e, x);
    let d_1 = d_0.push(e);
    let e = either(q.power.ultra_battery_saver, "--ultra-battery-saver"@, "--disable-ultra-battery-saver"@);
    lemma_plainly_not_64(e, x);
    lemma_push_keeps_out(d_1, e, x);
    let d_2 = d_1.push(e);
    let e = either(q.frames.frame_generation, "--frame-generation"@, "--disable-frame-generation"@);
    lemma_plainly_not_64(e, x);
    lemma_push_keeps_out(d_2, e, x);
    let d_3 = d_2.push(e);
    let e = either(q.power.high_performance, "--high-performance"@, "--disable-high-performance"@);
    lemma_plainly_not_64(e, x);
    lemma_push_keeps_out(d_3, e, x);
    let d_4 = d_3.push(e);
    let e = either(q.power.force_max_clocks, "--force-max-clocks"@, "--disable-force-max-clocks"@);
    lemma_plainly_not_64(e, x);
    lemma_push_keeps_out(d_4, e, x);
    let d_5 = d_4.push(e);
}

proof fn lemma_engine_args_out(
    a: Seq<Seq<char>>,
    q: QuickOptions,
    driver_paths: Seq<Seq<char>>,
    x: Seq<char>,
)
    requires
        !a.contains(x),
        is_forced_bits_name(x),
    ensures
        !engine_args(a, q, driver_paths).contains(x),
{
    reveal_strlit("--custom-driver=");
    reveal_strlit("--disable-custom-driver");
    reveal_strlit("--anisotropic-filtering=");
    reveal_strlit("--texture-upscaler=");
    reveal_strlit("--texture-filtering=");
    reveal_strlit("--memory-management=");
    reveal_strlit("--gles-override=");
    reveal_strlit("--audio-backend=");
    reveal_strlit("--low-audio-quality");
    reveal_strlit("--disable-low-audio-quality");
    reveal_strlit("--pvrtc-decoding=");
    reveal_strlit("--no-texture-compression");
    reveal_strlit("--allow-texture-compression");
    reveal_strlit("--anti-aliasing=");
    reveal_strlit("--graphics-api=");
    reveal_strlit("--arm64-backend=");
    reveal_strlit("--arm64-fallback=");
    let e = custom_driver_option(q.driver.custom_driver, driver_paths);
    if let Some(i) = q.driver.custom_driver {
        if i < driver_paths.len() {
            lemma_prefixed_not_64("--custom-driver="@, driver_paths[i as int], x);
        } else {
            lemma_plainly_not_64(e, x);
        }
    } else {
        lemma_plainly_not_64(e, x);
    }
    lemma_prefixed_not_64(
        "--anisotropic-filtering="@,
        decimal_digits(q.graphics.anisotropic_filtering as nat),
        x,
    );
    lemma_prefixed_not_64("--texture-upscaler="@, decimal_digits(q.graphics.texture_upscaler as nat), x);
    lemma_prefixed_not_64(
        "--texture-filtering="@,
        texture_filtering_text(q.graphics.texture_filtering),
        x,
    );
    lemma_prefixed_not_64("--memory-management="@, memory_management_text(q.cpu.memory_management), x);
    lemma_prefixed_not_64("--gles-override="@, gles_override_text(q.graphics.gles_override), x);
    lemma_prefixed_not_64("--audio-backend="@, audio_backend_driver_name(effective_audio_backend(q)), x);
    lemma_plainly_not_64(
        either(q.system.low_audio_quality, "--low-audio-quality"@, "--disable-low-audio-quality"@),
        x,
    );
    lemma_prefixed_not_64("--pvrtc-decoding="@, pvrtc_decoding_name(q.graphics.pvrtc_decoding), x);
    lemma_plainly_not_64(
        either(
            q.graphics.no_texture_compression,
            "--no-texture-compression"@,
            "--allow-texture-compression"@,
        ),
        x,
    );
    lemma_prefixed_not_64("--anti-aliasing="@, decimal_digits(q.graphics.anti_aliasing as nat), x);
    lemma_prefixed_not_64("--graphics-api="@, graphics_api_name(q.graphics.graphics_api), x);
    lemma_prefixed_not_64("--arm64-backend="@, arm64_backend_name(q.cpu.arm64_backend), x);
    lemma_prefixed_not_64("--arm64-fallback="@, arm64_fallback_name(q.cpu.arm64_fallback), x);
    let all = engine_args(a, q, driver_paths);
    assert forall|i: int| 0 <= i < all.len() implies all[i] != x by {
        if i < a.len() {
            assert(!(a[i] == x));
        }
    }
}

proof fn lemma_system_args_out(
    a: Seq<Seq<char>>,
    q: QuickOptions,
    family_names: Seq<Seq<char>>,
    x: Seq<char>,
)
    requires
        !a.contains(x),
        q.cpu.force_32_bit && x == "--force-64-bit"@ || !q.cpu.force_32_bit && x
            == "--force-32-bit"@,
    ensures
        !system_args(a, q, family_names).contains(x),
{
    reveal_strlit("--llvmpipe-fallback");
    reveal_strlit("--disable-llvmpipe-fallback");
    reveal_strlit("--metal-translator");
    reveal_strlit("--disable-metal-translator");
    reveal_strlit("--angle-driver");
    reveal_strlit("--disable-angle-driver");
    reveal_strlit("--enable-log-file");
    reveal_strlit("--disable-log-file");
    reveal_strlit("--trace-gl-errors");
    reveal_strlit("--disable-trace-gl-errors");
    reveal_strlit("--verbose-logging");
    reveal_strlit("--disable-verbose-logging");
    reveal_strlit("--shader-compatibility-fixes");
    reveal_strlit("--disable-shader-compatibility-fixes");
    reveal_strlit("--fix-texture-min-filter");
    reveal_strlit("--no-fix-texture-min-filter");
    reveal_strlit("--force-composition");
    reveal_strlit("--disable-force-composition");
    reveal_strlit("--enable-direct-memory-access");
    reveal_strlit("--disable-direct-memory-access");
    reveal_strlit("--force-32-bit");
    reveal_strlit("--force-64-bit");
    reveal_strlit("--device-family=");
    reveal_strlit("--device-family=auto");
    let e = either(q.driver.llvmpipe_fallback, "--llvmpipe-fallback"@, "--disable-llvmpipe-fallback"@);
    lemma_plainly_not_64(e, x);
    lemma_push_keeps_out(a, e, x);
    let a_0 = a.push(e);
    let e = either(q.driver.metal_translator, "--metal-translator"@, "--disable-metal-translator"@);
    lemma_plainly_not_64(e, x);
    lemma_push_keeps_out(a_0, e, x);
    let a_1 = a_0.push(e);
    let e = either(q.driver.angle_driver, "--angle-driver"@, "--disable-angle-driver"@);
    lemma_plainly_not_64(e, x);
    lemma_push_keeps_out(a_1, e, x);
    let a_2 = a_1.push(e);
    let e = either(q.system.log_file, "--enable-log-file"@, "--disable-log-file"@);
    lemma_plainly_not_64(e, x);
    lemma_push_keeps_out(a_2, e, x);
    let a_3 = a_2.push(e);
    let e = either(q.system.trace_gl_errors, "--trace-gl-errors"@, "--disable-trace-gl-errors"@);
    lemma_plainly_not_64(e, x);
    lemma_push_keeps_out(a_3, e, x);
    let a_4 = a_3.push(e);
    let e = either(q.system.verbose_logging, "--verbose-logging"@, "--disable-verbose-logging"@);
    lemma_plainly_not_64(e, x);
    lemma_push_keeps_out(a_4, e, x);
    let a_5 = a_4.push(e);
    let e = either(q.driver.shader_compatibility_fixes, "--shader-compatibility-fixes"@, "--disable-shader-compatibility-fixes"@);
    lemma_plainly_not_64(e, x);
    lemma_push_keeps_out(a_5, e, x);
    let a_6 = a_5.push(e);
    let e = either(q.driver.fix_texture_min_filter, "--fix-texture-min-filter"@, "--no-fix-texture-min-filter"@);
    lemma_plainly_not_64(e, x);
    lemma_push_keeps_out(a_6, e, x);
    let a_7 = a_6.push(e);
    let e = either(q.driver.force_composition, "--force-composition"@, "--disable-force-composition"@);
    lemma_plainly_not_64(e, x);
    lemma_push_keeps_out(a_7, e, x);
    let a_8 = a_7.push(e);
    let e = either(q.cpu.fast_memory, "--enable-direct-memory-access"@, "--disable-direct-memory-access"@);
    lemma_plainly_not_64(e, x);
    lemma_push_keeps_out(a_8, e, x);
    let a_9 = a_8.push(e);
    assert("--force-32-bit"@[8] != "--force-64-bit"@[8]);
    lemma_push_opt_keeps_out(a_9, forced_bits_option(q.cpu.force_32_bit, q.cpu.force_64_bit), x);
    let b = push_opt(a_9, forced_bits_option(q.cpu.force_32_bit, q.cpu.force_64_bit));
    let o = device_family_option(q.device.device_tag, family_names);
    if let Some(tag) = q.device.device_tag {
        if 0 <= tag < family_names.len() && tag != DEVICE_TAG_DEFAULT && tag != DEVICE_TAG_AUTO {
            lemma_prefixed_not_64("--device-family="@, family_names[tag as int], x);
        } else if tag == DEVICE_TAG_AUTO {
            lemma_plainly_not_64("--device-family=auto"@, x);
        }
    }
    lemma_push_opt_keeps_out(b, o, x);
}

/// The options that the game gets never ask for both 32-bit and 64-bit code:
/// with 32-bit code forced they never ask for 64-bit code, and otherwise
/// they never ask for 32-bit code.
pub proof fn lemma_never_both_word_sizes(
    q: QuickOptions,
    driver_paths: Seq<Seq<char>>,
    family_names: Seq<Seq<char>>,
)
    ensures
        q.cpu.force_32_bit ==> !option_args_for(q, driver_paths, family_names).contains(
            "--force-64-bit"@,
        ),
        !q.cpu.force_32_bit ==> !option_args_for(q, driver_paths, family_names).contains(
            "--force-32-bit"@,
        ),
{
    let x = if q.cpu.force_32_bit {
        "--force-64-bit"@
    } else {
        "--force-32-bit"@
    };
    let e: Seq<Seq<char>> = Seq::empty();
    lemma_screen_args_out(e, q, x);
    let a = screen_args(e, q);
    lemma_frame_args_out(a, q, x);
    let b = frame_args(a, q);
    lemma_engine_args_out(b, q, driver_paths, x);
    lemma_system_args_out(engine_args(b, q, driver_paths), q, family_names, x);
}


/// `e` starts with `p`.
pub open spec fn starts_with(e: Seq<char>, p: Seq<char>) -> bool {
    p.len() <= e.len() && e.subrange(0, p.len() as int) == p
}

/// `t` is the name, up to its `=`, of one of the numeric graphics options:
/// anisotropic filtering, texture upscaler and anti-aliasing.
spec fn numeric_option_prefix(t: Seq<char>) -> bool {
    ||| t == "--anisotropic-filtering="@
    ||| t == "--texture-upscaler="@
    ||| t == "--anti-aliasing="@
}

/// `t` is the name of a numeric graphics option or one of the two options
/// that revert an axis.
spec fn tracked_option(t: Seq<char>) -> bool {
    ||| numeric_option_prefix(t)
    ||| t == "--revert-x-axis"@
    ||| t == "--revert-y-axis"@
}

/// The setting that the numeric graphics option named `t` carries.
spec fn numeric_option_value(q: QuickOptions, t: Seq<char>) -> u8 {
    if t == "--anisotropic-filtering="@ {
        q.graphics.anisotropic_filtering
    } else if t == "--texture-upscaler="@ {
        q.graphics.texture_upscaler
    } else {
        q.graphics.anti_aliasing
    }
}

/// `e` is too short to be a numeric graphics option or an axis option, or
/// its third to fifth characters are none of "tex", "ani", "ant" and "rev".
spec fn plainly_untracked(e: Seq<char>) -> bool {
    ||| e.len() < 5
    ||| !(e[2] == 't' && e[3] == 'e' && e[4] == 'x') && !(e[2] == 'a' && e[3] == 'n' && (e[4]
        == 'i' || e[4] == 't')) && !(e[2] == 'r' && e[3] == 'e' && e[4] == 'v')
}

/// No option of `a` starts with `t`, but perhaps the one at index `k`.
spec fn no_option_but(a: Seq<Seq<char>>, t: Seq<char>, k: int) -> bool {
    forall|i: int| 0 <= i < a.len() && i != k ==> !starts_with(#[trigger] a[i], t)
}

/// `b` holds the option that `a` holds at index `k`, if `a` has one there.
spec fn keeps_at(a: Seq<Seq<char>>, b: Seq<Seq<char>>, k: int) -> bool {
    0 <= k < a.len() ==> k < b.len() && b[k] == a[k]
}

proof fn lemma_tracked_heads(t: Seq<char>)
    requires
        tracked_option(t),
    ensures
        t.len() >= 15,
        numeric_option_prefix(t) ==> t.len() >= 16,
        !plainly_untracked(t),
{
    reveal_strlit("--anisotropic-filtering=");
    reveal_strlit("--texture-upscaler=");
    reveal_strlit("--anti-aliasing=");
    reveal_strlit("--revert-x-axis");
    reveal_strlit("--revert-y-axis");
}

proof fn lemma_plainly_untracked(e: Seq<char>, t: Seq<char>)
    requires
        plainly_untracked(e),
        tracked_option(t),
    ensures
        !starts_with(e, t),
{
    lemma_tracked_heads(t);
    if starts_with(e, t) {
        let h = e.subrange(0, t.len() as int);
        assert(h[2] == e[2] && h[3] == e[3] && h[4] == e[4]);
    }
}

proof fn lemma_prefixed_untracked(p: Seq<char>, r: Seq<char>, t: Seq<char>)
    requires
        p.len() >= 5,
        plainly_untracked(p),
        tracked_option(t),
    ensures
        !starts_with(p + r, t),
{
    assert((p + r)[2] == p[2] && (p + r)[3] == p[3] && (p + r)[4] == p[4]);
    lemma_plainly_untracked(p + r, t);
}

/// A numeric graphics option starts with the name of no other one, and the
/// texture filtering option starts with none of them.
proof fn lemma_prefixed_other_numeric(p: Seq<char>, r: Seq<char>, t: Seq<char>)
    requires
        numeric_option_prefix(p) && p != t || p == "--texture-filtering="@,
        tracked_option(t),
    ensures
        !starts_with(p + r, t),
{
    reveal_strlit("--revert-x-axis");
    reveal_strlit("--revert-y-axis");
    reveal_strlit("--anisotropic-filtering=");
    reveal_strlit("--texture-upscaler=");
    reveal_strlit("--anti-aliasing=");
    reveal_strlit("--texture-filtering=");
    if starts_with(p + r, t) {
        let h = (p + r).subrange(0, t.len() as int);
        assert(h[2] == p[2] && h[4] == p[4] && h[10] == p[10]);
    }
}

proof fn lemma_push_no_option(a: Seq<Seq<char>>, t: Seq<char>, k: int, e: Seq<char>)
    requires
        no_option_but(a, t, k),
        !starts_with(e, t),
    ensures
        no_option_but(a.push(e), t, k),
        keeps_at(a, a.push(e), k),
{
    assert forall|i: int| 0 <= i < a.push(e).len() && i != k implies !starts_with(
        #[trigger] a.push(e)[i],
        t,
    ) by {
        if i < a.len() {
            assert(a.push(e)[i] == a[i]);
        }
    }
    if 0 <= k < a.len() {
        assert(a.push(e)[k] == a[k]);
    }
}

proof fn lemma_push_if_no_option(a: Seq<Seq<char>>, t: Seq<char>, k: int, on: bool, e: Seq<char>)
    requires
        no_option_but(a, t, k),
        !starts_with(e, t),
    ensures
        no_option_but(push_if(a, on, e), t, k),
        keeps_at(a, push_if(a, on, e), k),
{
    if on {
        lemma_push_no_option(a, t, k, e);
    }
}

proof fn lemma_push_opt_no_option(a: Seq<Seq<char>>, t: Seq<char>, k: int, o: Option<Seq<char>>)
    requires
        no_option_but(a, t, k),
        o matches Some(e) ==> !starts_with(e, t),
    ensures
        no_option_but(push_opt(a, o), t, k),
        keeps_at(a, push_opt(a, o), k),
{
    if let Some(e) = o {
        lemma_push_no_option(a, t, k, e);
    }
}

/// An axis option starts with the name of no other tracked option.
proof fn lemma_axis_option_not(e: Seq<char>, t: Seq<char>)
    requires
        e == "--revert-x-axis"@ || e == "--revert-y-axis"@,
        tracked_option(t),
        e != t,
    ensures
        !starts_with(e, t),
{
    reveal_strlit("--revert-x-axis");
    reveal_strlit("--revert-y-axis");
    lemma_tracked_heads(t);
    if starts_with(e, t) {
        let h = e.subrange(0, t.len() as int);
        assert(h[9] == e[9]);
        assert(e =~= t);
    }
}

/// Pushes the numeric option `p` + `r` onto `a`: when `p` is `t` it becomes
/// the one option of the result that starts with `t`, else it is not one.
proof fn lemma_push_numeric(
    a: Seq<Seq<char>>,
    t: Seq<char>,
    k: int,
    p: Seq<char>,
    r: Seq<char>,
) -> (k2: int)
    requires
        tracked_option(t),
        numeric_option_prefix(p),
        p == t ==> k == -1,
        no_option_but(a, t, k),
    ensures
        k2 == if p == t { a.len() as int } else { k },
        no_option_but(a.push(p + r), t, k2),
        keeps_at(a, a.push(p + r), k2),
        p == t ==> a.push(p + r)[k2] == p + r,
{
    if p == t {
        let b = a.push(p + r);
        assert forall|i: int| 0 <= i < b.len() && i != a.len() implies !starts_with(
            #[trigger] b[i],
            t,
        ) by {
            assert(b[i] == a[i]);
        }
        a.len() as int
    } else {
        lemma_prefixed_other_numeric(p, r, t);
        lemma_push_no_option(a, t, k, p + r);
        k
    }
}

#[verifier::rlimit(60)]
proof fn lemma_screen_args_no_option(a: Seq<Seq<char>>, q: QuickOptions, t: Seq<char>, k: int)
    requires
        tracked_option(t),
        !(t == "--revert-x-axis"@ && q.screen.revert_x_axis),
        !(t == "--revert-y-axis"@ && q.screen.revert_y_axis),
        no_option_but(a, t, k),
    ensures
        no_option_but(screen_args(a, q), t, k),
        keeps_at(a, screen_args(a, q), k),
{
    reveal_strlit("--core-audio");
    reveal_strlit("--disable-core-audio");
    reveal_strlit("--scale-hack=");
    reveal_strlit("--custom-resolution=");
    reveal_strlit("--landscape-left");
    reveal_strlit("--landscape-right");
    reveal_strlit("--upside-down");
    reveal_strlit("--render-rotation=");
    reveal_strlit("--revert-x-axis");
    reveal_strlit("--revert-y-axis");
    reveal_strlit("--fullscreen");
    reveal_strlit("--fullscreen-stretched");
    reveal_strlit("--disable-fullscreen-stretched");
    reveal_strlit("--disable-analog-stick-tilt-controls");
    reveal_strlit("--allow-network-access");
    reveal_strlit("--disable-network-access");
    reveal_strlit("--rtcs");
    reveal_strlit("--disable-rtcs");
    reveal_strlit("--ios-version=");
    let from = k;
    let o = ios_version_option(q.device.ios_version);
    if let Some(v) = q.device.ios_version {
        let p = "--ios-version="@;
        lemma_extend_keeps_head(p, signed_decimal(v.0 as int));
        let p1 = p + signed_decimal(v.0 as int);
        let p2 = p1 + "."@;
        let p3 = p2 + signed_decimal(v.1 as int);
        let p4 = p3 + "."@;
        assert(p1[2] == p[2] && p1[3] == p[3] && p1[4] == p[4]);
        assert(p2[2] == p[2] && p2[3] == p[3] && p2[4] == p[4]);
        assert(p3[2] == p[2] && p3[3] == p[3] && p3[4] == p[4]);
        assert(p4[2] == p[2] && p4[3] == p[3] && p4[4] == p[4]);
        lemma_prefixed_untracked(p4, signed_decimal(v.2 as int), t);
    }
    lemma_push_opt_no_option(a, t, from, o);
    let a1 = push_opt(a, o);
    let e = either(q.system.core_audio, "--core-audio"@, "--disable-core-audio"@);
    lemma_plainly_untracked(e, t);
    lemma_push_no_option(a1, t, from, e);
    let a2 = a1.push(e);
    let o = scale_hack_option(q.screen.scale_hack);
    if let Some(v) = q.screen.scale_hack {
        lemma_prefixed_untracked("--scale-hack="@, scale_hack_text(v), t);
    }
    lemma_push_opt_no_option(a2, t, from, o);
    let a3 = push_opt(a2, o);
    let o = custom_resolution_option(q.screen.custom_resolution);
    if let Some(r) = q.screen.custom_resolution {
        let p = "--custom-resolution="@;
        let p1 = p + decimal_digits(r.0 as nat);
        let p2 = p1 + "x"@;
        assert(p1[2] == p[2] && p1[3] == p[3] && p1[4] == p[4]);
        assert(p2[2] == p[2] && p2[3] == p[3] && p2[4] == p[4]);
        lemma_prefixed_untracked(p2, decimal_digits(r.1 as nat), t);
    }
    lemma_push_opt_no_option(a3, t, from, o);
    let a4 = push_opt(a3, o);
    let o = orientation_arg(q.screen.orientation);
    if let Some(v) = q.screen.orientation {
        lemma_plainly_untracked(orientation_option(v), t);
    }
    lemma_push_opt_no_option(a4, t, from, o);
    let a5 = push_opt(a4, o);
    let o = render_rotation_option(q.screen.render_rotation);
    if let Some(r) = q.screen.render_rotation {
        lemma_prefixed_untracked("--render-rotation="@, render_rotation_name(r), t);
    }
    lemma_push_opt_no_option(a5, t, from, o);
    let a6 = push_opt(a5, o);
    if q.screen.revert_x_axis {
        lemma_axis_option_not("--revert-x-axis"@, t);
        lemma_push_if_no_option(a6, t, from, q.screen.revert_x_axis, "--revert-x-axis"@);
    }
    let a7 = push_if(a6, q.screen.revert_x_axis, "--revert-x-axis"@);
    if q.screen.revert_y_axis {
        lemma_axis_option_not("--revert-y-axis"@, t);
        lemma_push_if_no_option(a7, t, from, q.screen.revert_y_axis, "--revert-y-axis"@);
    }
    let a8 = push_if(a7, q.screen.revert_y_axis, "--revert-y-axis"@);
    lemma_plainly_untracked("--fullscreen"@, t);
    lemma_push_if_no_option(a8, t, from, q.screen.fullscreen, "--fullscreen"@);
    let a9 = push_if(a8, q.screen.fullscreen, "--fullscreen"@);
    let e = either(
        q.screen.fullscreen_stretched,
        "--fullscreen-stretched"@,
        "--disable-fullscreen-stretched"@,
    );
    lemma_plainly_untracked(e, t);
    lemma_push_no_option(a9, t, from, e);
    let a10 = a9.push(e);
    lemma_plainly_untracked("--disable-analog-stick-tilt-controls"@, t);
    lemma_push_if_no_option(a10, t, from,
        !q.device.analog_stick_tilt_controls,
        "--disable-analog-stick-tilt-controls"@,
    );
    let a11 = push_if(
        a10,
        !q.device.analog_stick_tilt_controls,
        "--disable-analog-stick-tilt-controls"@,
    );
    let e = either(q.device.network, "--allow-network-access"@, "--disable-network-access"@);
    lemma_plainly_untracked(e, t);
    lemma_push_no_option(a11, t, from, e);
    let a12 = a11.push(e);
    let e = either(q.device.rtcs, "--rtcs"@, "--disable-rtcs"@);
    lemma_plainly_untracked(e, t);
    lemma_push_no_option(a12, t, from, e);
}

proof fn lemma_frame_args_no_option(a: Seq<Seq<char>>, q: QuickOptions, t: Seq<char>, k: int)
    requires
        tracked_option(t),
        no_option_but(a, t, k),
    ensures
        no_option_but(frame_args(a, q), t, k),
        keeps_at(a, frame_args(a, q), k),
{
    reveal_strlit("--print-fps");
    reveal_strlit("--enable-frame-pacing");
    reveal_strlit("--disable-frame-pacing");
    reveal_strlit("--fps-limit=");
    reveal_strlit("--fps-limit=off");
    reveal_strlit("--vsync");
    reveal_strlit("--disable-vsync");
    reveal_strlit("--battery-saver");
    reveal_strlit("--disable-battery-saver");
    reveal_strlit("--ultra-battery-saver");
    reveal_strlit("--disable-ultra-battery-saver");
    reveal_strlit("--frame-generation");
    reveal_strlit("--disable-frame-generation");
    reveal_strlit("--high-performance");
    reveal_strlit("--disable-high-performance");
    reveal_strlit("--force-max-clocks");
    reveal_strlit("--disable-force-max-clocks");
    lemma_plainly_untracked("--print-fps"@, t);
    lemma_push_if_no_option(a, t, k, q.frames.show_fps, "--print-fps"@);
    let b = push_if(a, q.frames.show_fps, "--print-fps"@);
    let e = either(q.frames.frame_pacing, "--enable-frame-pacing"@, "--disable-frame-pacing"@);
    lemma_plainly_untracked(e, t);
    lemma_push_no_option(b, t, k, e);
    let c = b.push(e);
    let e = fps_limit_option(q.frames.fps_limit);
    if let Some(l) = q.frames.fps_limit {
        lemma_prefixed_untracked("--fps-limit="@, fps_limit_text(l), t);
    } else {
        lemma_plainly_untracked(e, t);
    }
    lemma_push_no_option(c, t, k, e);
    let d = c.push(e);
    let e = either(q.frames.vsync, "--vsync"@, "--disable-vsync"@);
    lemma_plainly_untracked(e, t);
    lemma_push_no_option(d, t, k, e);
    let d0 = d.push(e);
    let e = either(q.power.battery_saver, "--battery-saver"@, "--disable-battery-saver"@);
    lemma_plainly_untracked(e, t);
    lemma_push_no_option(d0, t, k, e);
    let d1 = d0.push(e);
    let e = either(
        q.power.ultra_battery_saver,
        "--ultra-battery-saver"@,
        "--disable-ultra-battery-saver"@,
    );
    lemma_plainly_untracked(e, t);
    lemma_push_no_option(d1, t, k, e);
    let d2 = d1.push(e);
    let e = either(
        q.frames.frame_generation,
        "--frame-generation"@,
        "--disable-frame-generation"@,
    );
    lemma_plainly_untracked(e, t);
    lemma_push_no_option(d2, t, k, e);
    let d3 = d2.push(e);
    let e = either(
        q.power.high_performance,
        "--high-performance"@,
        "--disable-high-performance"@,
    );
    lemma_plainly_untracked(e, t);
    lemma_push_no_option(d3, t, k, e);
    let d4 = d3.push(e);
    let e = either(
        q.power.force_max_clocks,
        "--force-max-clocks"@,
        "--disable-force-max-clocks"@,
    );
    lemma_plainly_untracked(e, t);
    lemma_push_no_option(d4, t, k, e);
}

#[verifier::rlimit(60)]
proof fn lemma_system_args_no_option(
    a: Seq<Seq<char>>,
    q: QuickOptions,
    family_names: Seq<Seq<char>>,
    t: Seq<char>,
    k: int,
)
    requires
        tracked_option(t),
        no_option_but(a, t, k),
    ensures
        no_option_but(system_args(a, q, family_names), t, k),
        keeps_at(a, system_args(a, q, family_names), k),
{
    reveal_strlit("--llvmpipe-fallback");
    reveal_strlit("--disable-llvmpipe-fallback");
    reveal_strlit("--metal-translator");
    reveal_strlit("--disable-metal-translator");
    reveal_strlit("--angle-driver");
    reveal_strlit("--disable-angle-driver");
    reveal_strlit("--enable-log-file");
    reveal_strlit("--disable-log-file");
    reveal_strlit("--trace-gl-errors");
    reveal_strlit("--disable-trace-gl-errors");
    reveal_strlit("--verbose-logging");
    reveal_strlit("--disable-verbose-logging");
    reveal_strlit("--shader-compatibility-fixes");
    reveal_strlit("--disable-shader-compatibility-fixes");
    reveal_strlit("--fix-texture-min-filter");
    reveal_strlit("--no-fix-texture-min-filter");
    reveal_strlit("--force-composition");
    reveal_strlit("--disable-force-composition");
    reveal_strlit("--enable-direct-memory-access");
    reveal_strlit("--disable-direct-memory-access");
    reveal_strlit("--force-32-bit");
    reveal_strlit("--force-64-bit");
    reveal_strlit("--device-family=");
    reveal_strlit("--device-family=auto");
    let e = either(
        q.driver.llvmpipe_fallback,
        "--llvmpipe-fallback"@,
        "--disable-llvmpipe-fallback"@,
    );
    lemma_plainly_untracked(e, t);
    lemma_push_no_option(a, t, k, e);
    let a0 = a.push(e);
    let e = either(q.driver.metal_translator, "--metal-translator"@, "--disable-metal-translator"@);
    lemma_plainly_untracked(e, t);
    lemma_push_no_option(a0, t, k, e);
    let a1 = a0.push(e);
    let e = either(q.driver.angle_driver, "--angle-driver"@, "--disable-angle-driver"@);
    lemma_plainly_untracked(e, t);
    lemma_push_no_option(a1, t, k, e);
    let a2 = a1.push(e);
    let e = either(q.system.log_file, "--enable-log-file"@, "--disable-log-file"@);
    lemma_plainly_untracked(e, t);
    lemma_push_no_option(a2, t, k, e);
    let a3 = a2.push(e);
    let e = either(q.system.trace_gl_errors, "--trace-gl-errors"@, "--disable-trace-gl-errors"@);
    lemma_plainly_untracked(e, t);
    lemma_push_no_option(a3, t, k, e);
    let a4 = a3.push(e);
    let e = either(q.system.verbose_logging, "--verbose-logging"@, "--disable-verbose-logging"@);
    lemma_plainly_untracked(e, t);
    lemma_push_no_option(a4, t, k, e);
    let a5 = a4.push(e);
    let e = either(
        q.driver.shader_compatibility_fixes,
        "--shader-compatibility-fixes"@,
        "--disable-shader-compatibility-fixes"@,
    );
    lemma_plainly_untracked(e, t);
    lemma_push_no_option(a5, t, k, e);
    let a6 = a5.push(e);
    let e = either(
        q.driver.fix_texture_min_filter,
        "--fix-texture-min-filter"@,
        "--no-fix-texture-min-filter"@,
    );
    lemma_plainly_untracked(e, t);
    lemma_push_no_option(a6, t, k, e);
    let a7 = a6.push(e);
    let e = either(
        q.driver.force_composition,
        "--force-composition"@,
        "--disable-force-composition"@,
    );
    lemma_plainly_untracked(e, t);
    lemma_push_no_option(a7, t, k, e);
    let a8 = a7.push(e);
    let e = either(
        q.cpu.fast_memory,
        "--enable-direct-memory-access"@,
        "--disable-direct-memory-access"@,
    );
    lemma_plainly_untracked(e, t);
    lemma_push_no_option(a8, t, k, e);
    let a9 = a8.push(e);
    let o = forced_bits_option(q.cpu.force_32_bit, q.cpu.force_64_bit);
    if let Some(e) = o {
        lemma_plainly_untracked(e, t);
    }
    lemma_push_opt_no_option(a9, t, k, o);
    let b = push_opt(a9, o);
    let o = device_family_option(q.device.device_tag, family_names);
    if let Some(tag) = q.device.device_tag {
        if 0 <= tag < family_names.len() && tag != DEVICE_TAG_DEFAULT && tag != DEVICE_TAG_AUTO {
            lemma_prefixed_untracked("--device-family="@, family_names[tag as int], t);
        } else if tag == DEVICE_TAG_AUTO {
            lemma_plainly_untracked("--device-family=auto"@, t);
        }
    }
    lemma_push_opt_no_option(b, t, k, o);
}

/// The engine options hold each numeric graphics option once, with the
/// setting it names as its value; the index of the one named `t` is returned.
#[verifier::rlimit(60)]
proof fn lemma_engine_args_numeric(
    a: Seq<Seq<char>>,
    q: QuickOptions,
    paths: Seq<Seq<char>>,
    t: Seq<char>,
) -> (k: int)
    requires
        tracked_option(t),
        no_option_but(a, t, -1),
    ensures
        numeric_option_prefix(t) ==> a.len() <= k < engine_args(a, q, paths).len()
            && engine_args(a, q, paths)[k] == t + decimal_digits(
            numeric_option_value(q, t) as nat,
        ),
        !numeric_option_prefix(t) ==> k == -1,
        no_option_but(engine_args(a, q, paths), t, k),
{
    reveal_strlit("--custom-driver=");
    reveal_strlit("--disable-custom-driver");
    reveal_strlit("--anisotropic-filtering=");
    reveal_strlit("--texture-upscaler=");
    reveal_strlit("--texture-filtering=");
    reveal_strlit("--memory-management=");
    reveal_strlit("--gles-override=");
    reveal_strlit("--audio-backend=");
    reveal_strlit("--low-audio-quality");
    reveal_strlit("--disable-low-audio-quality");
    reveal_strlit("--pvrtc-decoding=");
    reveal_strlit("--no-texture-compression");
    reveal_strlit("--allow-texture-compression");
    reveal_strlit("--anti-aliasing=");
    reveal_strlit("--graphics-api=");
    reveal_strlit("--arm64-backend=");
    reveal_strlit("--arm64-fallback=");
    let e = custom_driver_option(q.driver.custom_driver, paths);
    if let Some(i) = q.driver.custom_driver {
        if i < paths.len() {
            lemma_prefixed_untracked("--custom-driver="@, paths[i as int], t);
        } else {
            lemma_plainly_untracked(e, t);
        }
    } else {
        lemma_plainly_untracked(e, t);
    }
    lemma_push_no_option(a, t, -1, e);
    let a1 = a.push(e);
    let p = "--anisotropic-filtering="@;
    let r = decimal_digits(q.graphics.anisotropic_filtering as nat);
    let k1 = lemma_push_numeric(a1, t, -1, p, r);
    let a2 = a1.push(p + r);
    let p = "--texture-upscaler="@;
    let r = decimal_digits(q.graphics.texture_upscaler as nat);
    let k2 = lemma_push_numeric(a2, t, k1, p, r);
    let a3 = a2.push(p + r);
    lemma_prefixed_other_numeric(
        "--texture-filtering="@,
        texture_filtering_text(q.graphics.texture_filtering),
        t,
    );
    let e = "--texture-filtering="@ + texture_filtering_text(q.graphics.texture_filtering);
    lemma_push_no_option(a3, t, k2, e);
    let a4 = a3.push(e);
    let e = "--memory-management="@ + memory_management_text(q.cpu.memory_management);
    lemma_prefixed_untracked(
        "--memory-management="@,
        memory_management_text(q.cpu.memory_management),
        t,
    );
    lemma_push_no_option(a4, t, k2, e);
    let a5 = a4.push(e);
    let e = "--gles-override="@ + gles_override_text(q.graphics.gles_override);
    lemma_prefixed_untracked("--gles-override="@, gles_override_text(q.graphics.gles_override), t);
    let on = q.graphics.gles_override != GlesOverrideVersion::Default;
    lemma_push_if_no_option(a5, t, k2, on, e);
    let a6 = push_if(a5, on, e);
    let e = "--audio-backend="@ + audio_backend_driver_name(effective_audio_backend(q));
    lemma_prefixed_untracked(
        "--audio-backend="@,
        audio_backend_driver_name(effective_audio_backend(q)),
        t,
    );
    lemma_push_no_option(a6, t, k2, e);
    let a7 = a6.push(e);
    let e = either(
        q.system.low_audio_quality,
        "--low-audio-quality"@,
        "--disable-low-audio-quality"@,
    );
    lemma_plainly_untracked(e, t);
    lemma_push_no_option(a7, t, k2, e);
    let a8 = a7.push(e);
    let e = "--pvrtc-decoding="@ + pvrtc_decoding_name(q.graphics.pvrtc_decoding);
    lemma_prefixed_untracked("--pvrtc-decoding="@, pvrtc_decoding_name(q.graphics.pvrtc_decoding), t);
    lemma_push_no_option(a8, t, k2, e);
    let a9 = a8.push(e);
    let e = either(
        q.graphics.no_texture_compression,
        "--no-texture-compression"@,
        "--allow-texture-compression"@,
    );
    lemma_plainly_untracked(e, t);
    lemma_push_no_option(a9, t, k2, e);
    let a10 = a9.push(e);
    let p = "--anti-aliasing="@;
    let r = decimal_digits(q.graphics.anti_aliasing as nat);
    let k3 = lemma_push_numeric(a10, t, k2, p, r);
    let a11 = a10.push(p + r);
    let e = "--graphics-api="@ + graphics_api_name(q.graphics.graphics_api);
    lemma_prefixed_untracked("--graphics-api="@, graphics_api_name(q.graphics.graphics_api), t);
    let on = q.graphics.graphics_api != GraphicsApi::Default;
    lemma_push_if_no_option(a11, t, k3, on, e);
    let a12 = push_if(a11, on, e);
    let e = "--arm64-backend="@ + arm64_backend_name(q.cpu.arm64_backend);
    lemma_prefixed_untracked("--arm64-backend="@, arm64_backend_name(q.cpu.arm64_backend), t);
    lemma_push_no_option(a12, t, k3, e);
    let a13 = a12.push(e);
    let e = "--arm64-fallback="@ + arm64_fallback_name(q.cpu.arm64_fallback);
    lemma_prefixed_untracked("--arm64-fallback="@, arm64_fallback_name(q.cpu.arm64_fallback), t);
    lemma_push_if_no_option(a13, t, k3, q.cpu.arm64_backend == Arm64Backend::Jit, e);
    k3
}

/// The options that the game gets hold exactly one option that starts with
/// the name `t` of a numeric graphics option, at the returned index: the
/// name followed by the digits of the setting it names.
proof fn lemma_one_numeric_option(
    q: QuickOptions,
    driver_paths: Seq<Seq<char>>,
    family_names: Seq<Seq<char>>,
    t: Seq<char>,
) -> (k: int)
    requires
        numeric_option_prefix(t),
    ensures
        0 <= k < option_args_for(q, driver_paths, family_names).len(),
        option_args_for(q, driver_paths, family_names)[k] == t + decimal_digits(
            numeric_option_value(q, t) as nat,
        ),
        forall|j: int|
            0 <= j < option_args_for(q, driver_paths, family_names).len() && starts_with(
                #[trigger] option_args_for(q, driver_paths, family_names)[j],
                t,
            ) ==> j == k,
{
    lemma_tracked_heads(t);
    reveal_strlit("--revert-x-axis");
    reveal_strlit("--revert-y-axis");
    let e: Seq<Seq<char>> = Seq::empty();
    lemma_screen_args_no_option(e, q, t, -1);
    let s = screen_args(e, q);
    lemma_frame_args_no_option(s, q, t, -1);
    let f = frame_args(s, q);
    let k = lemma_engine_args_numeric(f, q, driver_paths, t);
    let g = engine_args(f, q, driver_paths);
    lemma_system_args_no_option(g, q, family_names, t, k);
    let all = system_args(g, q, family_names);
    assert(all == option_args_for(q, driver_paths, family_names));
    assert forall|j: int| 0 <= j < all.len() && starts_with(#[trigger] all[j], t) implies j
        == k by {
        if j != k {
            assert(!starts_with(all[j], t));
        }
    }
    k
}

/// For every choice of settings, the options that the game gets hold exactly
/// one texture upscaler option: `--texture-upscaler=` followed by the decimal
/// digits of the upscaler setting.
pub proof fn lemma_one_texture_upscaler_option(
    q: QuickOptions,
    driver_paths: Seq<Seq<char>>,
    family_names: Seq<Seq<char>>,
)
    ensures
        exists|k: int|
            0 <= k < option_args_for(q, driver_paths, family_names).len() && #[trigger] option_args_for(
                q,
                driver_paths,
                family_names,
            )[k] == "--texture-upscaler="@ + decimal_digits(q.graphics.texture_upscaler as nat)
                && forall|j: int|
                0 <= j < option_args_for(q, driver_paths, family_names).len()
                    && starts_with(
                    #[trigger] option_args_for(q, driver_paths, family_names)[j],
                    "--texture-upscaler="@,
                ) ==> j == k,
{
    reveal_strlit("--anisotropic-filtering=");
    reveal_strlit("--texture-upscaler=");
    reveal_strlit("--anti-aliasing=");
    let k = lemma_one_numeric_option(q, driver_paths, family_names, "--texture-upscaler="@);
    assert(option_args_for(q, driver_paths, family_names)[k] == "--texture-upscaler="@
        + decimal_digits(q.graphics.texture_upscaler as nat));
}

/// For every choice of settings, the options that the game gets hold exactly
/// one anisotropic filtering option: `--anisotropic-filtering=` followed by
/// the decimal digits of the anisotropic filtering setting.
pub proof fn lemma_one_anisotropic_filtering_option(
    q: QuickOptions,
    driver_paths: Seq<Seq<char>>,
    family_names: Seq<Seq<char>>,
)
    ensures
        exists|k: int|
            0 <= k < option_args_for(q, driver_paths, family_names).len() && #[trigger] option_args_for(
                q,
                driver_paths,
                family_names,
            )[k] == "--anisotropic-filtering="@ + decimal_digits(
                q.graphics.anisotropic_filtering as nat,
            ) && forall|j: int|
                0 <= j < option_args_for(q, driver_paths, family_names).len()
                    && starts_with(
                    #[trigger] option_args_for(q, driver_paths, family_names)[j],
                    "--anisotropic-filtering="@,
                ) ==> j == k,
{
    let k = lemma_one_numeric_option(q, driver_paths, family_names, "--anisotropic-filtering="@);
    assert(option_args_for(q, driver_paths, family_names)[k] == "--anisotropic-filtering="@
        + decimal_digits(q.graphics.anisotropic_filtering as nat));
}

/// For every choice of settings, the options that the game gets hold exactly
/// one anti-aliasing option: `--anti-aliasing=` followed by the decimal
/// digits of the anti-aliasing setting.
pub proof fn lemma_one_anti_aliasing_option(
    q: QuickOptions,
    driver_paths: Seq<Seq<char>>,
    family_names: Seq<Seq<char>>,
)
    ensures
        exists|k: int|
            0 <= k < option_args_for(q, driver_paths, family_names).len() && #[trigger] option_args_for(
                q,
                driver_paths,
                family_names,
            )[k] == "--anti-aliasing="@ + decimal_digits(q.graphics.anti_aliasing as nat)
                && forall|j: int|
                0 <= j < option_args_for(q, driver_paths, family_names).len()
                    && starts_with(
                    #[trigger] option_args_for(q, driver_paths, family_names)[j],
                    "--anti-aliasing="@,
                ) ==> j == k,
{
    reveal_strlit("--anisotropic-filtering=");
    reveal_strlit("--texture-upscaler=");
    reveal_strlit("--anti-aliasing=");
    let k = lemma_one_numeric_option(q, driver_paths, family_names, "--anti-aliasing="@);
    assert(option_args_for(q, driver_paths, family_names)[k] == "--anti-aliasing="@
        + decimal_digits(q.graphics.anti_aliasing as nat));
}

proof fn lemma_frame_args_extend(a: Seq<Seq<char>>, q: QuickOptions)
    ensures
        frame_args(a, q).len() >= a.len(),
        frame_args(a, q).subrange(0, a.len() as int) =~= a,
{
}

proof fn lemma_extension_contains(a: Seq<Seq<char>>, b: Seq<Seq<char>>, v: Seq<char>)
    requires
        a.contains(v),
        b.len() >= a.len(),
        b.subrange(0, a.len() as int) == a,
    ensures
        b.contains(v),
{
    let i = choose|i: int| 0 <= i < a.len() && a[i] == v;
    lemma_push_keeps_prefix(a, b, i);
}

proof fn lemma_screen_args_has_axes(a: Seq<Seq<char>>, q: QuickOptions)
    ensures
        q.screen.revert_x_axis ==> screen_args(a, q).contains("--revert-x-axis"@),
        q.screen.revert_y_axis ==> screen_args(a, q).contains("--revert-y-axis"@),
{
    let a6 = push_opt(
        push_opt(
            push_opt(
                push_opt(
                    push_opt(a, ios_version_option(q.device.ios_version)).push(
                        either(q.system.core_audio, "--core-audio"@, "--disable-core-audio"@),
                    ),
                    scale_hack_option(q.screen.scale_hack),
                ),
                custom_resolution_option(q.screen.custom_resolution),
            ),
            orientation_arg(q.screen.orientation),
        ),
        render_rotation_option(q.screen.render_rotation),
    );
    let a7 = push_if(a6, q.screen.revert_x_axis, "--revert-x-axis"@);
    let a8 = push_if(a7, q.screen.revert_y_axis, "--revert-y-axis"@);
    let all = screen_args(a, q);
    assert(all.subrange(0, a8.len() as int) =~= a8);
    if q.screen.revert_x_axis {
        assert(a8[a6.len() as int] == "--revert-x-axis"@);
        lemma_push_keeps_prefix(a8, all, a6.len() as int);
    }
    if q.screen.revert_y_axis {
        assert(a8[a7.len() as int] == "--revert-y-axis"@);
        lemma_push_keeps_prefix(a8, all, a7.len() as int);
    }
}

/// The options that the game gets ask to revert an axis exactly when the
/// settings do: they hold `--revert-x-axis` if and only if the X axis is
/// reverted, and `--revert-y-axis` if and only if the Y axis is.
pub proof fn lemma_axis_options_follow_settings(
    q: QuickOptions,
    driver_paths: Seq<Seq<char>>,
    family_names: Seq<Seq<char>>,
)
    ensures
        option_args_for(q, driver_paths, family_names).contains("--revert-x-axis"@)
            <==> q.screen.revert_x_axis,
        option_args_for(q, driver_paths, family_names).contains("--revert-y-axis"@)
            <==> q.screen.revert_y_axis,
{
    reveal_strlit("--revert-x-axis");
    reveal_strlit("--revert-y-axis");
    let e: Seq<Seq<char>> = Seq::empty();
    let s = screen_args(e, q);
    let f = frame_args(s, q);
    let g = engine_args(f, q, driver_paths);
    let all = system_args(g, q, family_names);
    assert(all == option_args_for(q, driver_paths, family_names));
    lemma_screen_args_has_axes(e, q);
    lemma_frame_args_extend(s, q);
    lemma_engine_args_extend(f, q, driver_paths);
    lemma_system_args_extend(g, q, family_names);
    let x = "--revert-x-axis"@;
    let y = "--revert-y-axis"@;
    if q.screen.revert_x_axis {
        lemma_extension_contains(s, f, x);
        lemma_extension_contains(f, g, x);
        lemma_extension_contains(g, all, x);
    } else {
        lemma_axis_absent(q, driver_paths, family_names, x);
    }
    if q.screen.revert_y_axis {
        lemma_extension_contains(s, f, y);
        lemma_extension_contains(f, g, y);
        lemma_extension_contains(g, all, y);
    } else {
        lemma_axis_absent(q, driver_paths, family_names, y);
    }
}

proof fn lemma_axis_absent(
    q: QuickOptions,
    driver_paths: Seq<Seq<char>>,
    family_names: Seq<Seq<char>>,
    t: Seq<char>,
)
    requires
        t == "--revert-x-axis"@ && !q.screen.revert_x_axis || t == "--revert-y-axis"@
            && !q.screen.revert_y_axis,
    ensures
        !option_args_for(q, driver_paths, family_names).contains(t),
{
    reveal_strlit("--revert-x-axis");
    reveal_strlit("--revert-y-axis");
    assert("--revert-x-axis"@[9] != "--revert-y-axis"@[9]);
    let e: Seq<Seq<char>> = Seq::empty();
    lemma_screen_args_no_option(e, q, t, -1);
    let s = screen_args(e, q);
    lemma_frame_args_no_option(s, q, t, -1);
    let f = frame_args(s, q);
    let k = lemma_engine_args_numeric(f, q, driver_paths, t);
    lemma_tracked_heads(t);
    assert(k == -1);
    let g = engine_args(f, q, driver_paths);
    lemma_system_args_no_option(g, q, family_names, t, -1);
    let all = system_args(g, q, family_names);
    assert(all == option_args_for(q, driver_paths, family_names));
    if all.contains(t) {
        let i = choose|i: int| 0 <= i < all.len() && all[i] == t;
        assert(t.subrange(0, t.len() as int) =~= t);
        assert(starts_with(all[i], t));
    }
}

} // verus!
