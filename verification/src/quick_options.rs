use vstd::prelude::*;
use crate::ios_version::{ios_version_for_tag, version_of_tag};
use crate::options::{
    audio_backend_for_tag, audio_backend_of_tag, gles_override_for_tag, gles_override_of_tag,
    graphics_api_for_tag, graphics_api_of_tag, memory_management_for_tag,
    memory_management_of_tag, texture_filtering_for_tag, texture_filtering_of_tag, Arm64Backend,
    Arm64Fallback, AudioBackend, FpsLimit, GlesOverrideVersion, GraphicsApi, MemoryManagement,
    Orientation, PvrtcDecoding, RenderRotation, ScaleHack, TextureFiltering,
};
use crate::resolution::{dimension_of, parse_dimension};

verus! {

/// The rows of the device-model dropdown that are visible at once.
pub const DEVICE_MENU_VISIBLE_ITEMS: usize = 6;

/// The resolution that the custom resolution editor starts from when no
/// resolution was chosen and the host lists none.
pub const FALLBACK_CUSTOM_RESOLUTION: (u32, u32) = (320, 480);

/// How the game is shown and how its axes are read.
pub struct ScreenSettings {
    pub scale_hack: Option<ScaleHack>,
    pub custom_resolution: Option<(u32, u32)>,
    pub fullscreen: bool,
    pub fullscreen_stretched: bool,
    pub orientation: Option<Orientation>,
    pub render_rotation: Option<RenderRotation>,
    pub revert_x_axis: bool,
    pub revert_y_axis: bool,
}

/// Frame timing and the frame counter.
pub struct FrameSettings {
    pub show_fps: bool,
    pub frame_pacing: bool,
    pub fps_limit: Option<FpsLimit>,
    pub frame_generation: bool,
    pub vsync: bool,
}

/// Performance and battery use.
pub struct PowerSettings {
    pub high_performance: bool,
    pub force_max_clocks: bool,
    pub battery_saver: bool,
    pub ultra_battery_saver: bool,
}

/// The graphics API and texture quality.
pub struct GraphicsSettings {
    pub graphics_api: GraphicsApi,
    pub gles_override: GlesOverrideVersion,
    pub texture_filtering: TextureFiltering,
    pub pvrtc_decoding: PvrtcDecoding,
    pub anisotropic_filtering: u8,
    pub texture_upscaler: u8,
    pub no_texture_compression: bool,
    pub anti_aliasing: u8,
}

/// Workarounds and choices of the graphics driver.
pub struct DriverSettings {
    pub shader_compatibility_fixes: bool,
    pub fix_texture_min_filter: bool,
    pub force_composition: bool,
    pub angle_driver: bool,
    pub llvmpipe_fallback: bool,
    pub metal_translator: bool,
    /// The custom driver, as its index in the list of drivers found.
    pub custom_driver: Option<usize>,
}

/// How guest code and memory are handled.
pub struct CpuSettings {
    pub fast_memory: bool,
    pub force_32_bit: bool,
    pub force_64_bit: bool,
    pub arm64_backend: Arm64Backend,
    pub arm64_fallback: Arm64Fallback,
    pub memory_management: MemoryManagement,
}

/// The emulated device and its connections.
pub struct DeviceSettings {
    /// The device-model dropdown choice: its tag (see `device_model`).
    pub device_tag: Option<i32>,
    pub device_model_open: bool,
    /// The first row shown by the device-model dropdown.
    pub device_model_scroll: usize,
    pub ios_version: Option<(i32, i32, i32)>,
    pub analog_stick_tilt_controls: bool,
    pub network: bool,
    pub rtcs: bool,
}

/// Logging and audio.
pub struct SystemSettings {
    pub log_file: bool,
    pub verbose_logging: bool,
    pub trace_gl_errors: bool,
    pub core_audio: bool,
    pub low_audio_quality: bool,
    pub audio_backend: AudioBackend,
}

/// The settings chosen in the picker's quick options panel, from which the
/// command-line options for the game are built.
pub struct QuickOptions {
    pub screen: ScreenSettings,
    pub frames: FrameSettings,
    pub power: PowerSettings,
    pub graphics: GraphicsSettings,
    pub driver: DriverSettings,
    pub cpu: CpuSettings,
    pub device: DeviceSettings,
    pub system: SystemSettings,
}

/// What the quick options panel offers that does not change while the
/// picker runs.
pub struct PickerContext {
    /// The resolutions that the host screen supports, in the order listed.
    pub host_resolutions: Vec<(u32, u32)>,
    /// The custom drivers found, as paths, in the order listed.
    pub custom_driver_paths: Vec<String>,
    /// The number of rows of the device-model dropdown.
    pub device_model_item_count: usize,
}

/// Something the user did in the quick options panel. Dropdown and list
/// choices carry the tag of the entry picked, switches their new state.
pub enum QuickOptionEvent {
    IosVersion(i32),
    GlesOverride(i64),
    TextureFiltering(i64),
    PvrtcDecoding(PvrtcDecoding),
    MemoryManagement(i64),
    AudioBackend(i64),
    GraphicsApi(i64),
    Arm64Jit(bool),
    Arm64FallbackJit(bool),
    ScaleHack(Option<ScaleHack>),
    /// The editor for a custom resolution was opened.
    CustomResolutionCustom,
    /// The custom resolution editor was confirmed with these field texts.
    CustomResolutionApply(String, String),
    /// A resolution of the host's list was picked.
    SupportedResolution(i32),
    Orientation(Option<Orientation>),
    RenderRotation(RenderRotation),
    RevertXAxis(bool),
    RevertYAxis(bool),
    DeviceModel(i32),
    DeviceModelToggle,
    DeviceModelScrollUp,
    DeviceModelScrollDown,
    AnalogStickTiltControls(bool),
    Network(bool),
    Rtcs(bool),
    ShowFps(bool),
    AngleDriver(bool),
    LogFile(bool),
    TraceGlErrors(bool),
    FastMemory(bool),
    Force32Bit(bool),
    Force64Bit(bool),
    FramePacing(bool),
    FpsLimit(Option<FpsLimit>),
    Vsync(bool),
    BatterySaver(bool),
    UltraBatterySaver(bool),
    VerboseLogging(bool),
    ShaderCompatibilityFixes(bool),
    FixTextureMinFilter(bool),
    ForceComposition(bool),
    FrameGeneration(bool),
    HighPerformance(bool),
    ForceMaxClocks(bool),
    Fullscreen(bool),
    FullscreenStretched(bool),
    LlvmpipeFallback(bool),
    MetalTranslator(bool),
    CoreAudio(bool),
    LowAudioQuality(bool),
    /// A custom driver of the list was picked; a negative tag picks none.
    CustomDriverSelected(i32),
    AnisotropicFiltering(u8),
    TextureUpscaler(u8),
    NoTextureCompression(bool),
    AntiAliasing(u8),
}

/// The last row that the device-model dropdown can scroll to.
pub open spec fn max_device_scroll(item_count: int) -> int {
    if item_count > DEVICE_MENU_VISIBLE_ITEMS {
        item_count - DEVICE_MENU_VISIBLE_ITEMS
    } else {
        0
    }
}

/// The settings the panel starts with. Whether high performance mode, the
/// texture minification fix and the Metal translator start enabled depends on
/// the platform, and is given.
#[verifier::inline]
pub open spec fn initial_quick_options(
    high_performance: bool,
    fix_texture_min_filter: bool,
    metal_translator: bool,
) -> QuickOptions {
    QuickOptions {
        screen: ScreenSettings {
            scale_hack: None,
            custom_resolution: None,
            fullscreen: false,
            fullscreen_stretched: false,
            orientation: None,
            render_rotation: None,
            revert_x_axis: false,
            revert_y_axis: false,
        },
        frames: FrameSettings {
            show_fps: true,
            frame_pacing: true,
            fps_limit: None,
            frame_generation: false,
            vsync: false,
        },
        power: PowerSettings {
            high_performance,
            force_max_clocks: false,
            battery_saver: false,
            ultra_battery_saver: false,
        },
        graphics: GraphicsSettings {
            graphics_api: GraphicsApi::Default,
            gles_override: GlesOverrideVersion::Default,
            texture_filtering: TextureFiltering::Default,
            pvrtc_decoding: PvrtcDecoding::Auto,
            anisotropic_filtering: 1,
            texture_upscaler: 1,
            no_texture_compression: false,
            anti_aliasing: 1,
        },
        driver: DriverSettings {
            shader_compatibility_fixes: true,
            fix_texture_min_filter,
            force_composition: false,
            angle_driver: false,
            llvmpipe_fallback: false,
            metal_translator,
            custom_driver: None,
        },
        cpu: CpuSettings {
            fast_memory: true,
            force_32_bit: false,
            force_64_bit: false,
            arm64_backend: Arm64Backend::Interpreter,
            arm64_fallback: Arm64Fallback::Interpreter,
            memory_management: MemoryManagement::Balanced,
        },
        device: DeviceSettings {
            device_tag: None,
            device_model_open: false,
            device_model_scroll: 0,
            ios_version: None,
            analog_stick_tilt_controls: true,
            network: true,
            rtcs: false,
        },
        system: SystemSettings {
            log_file: true,
            verbose_logging: false,
            trace_gl_errors: false,
            core_audio: false,
            low_audio_quality: false,
            audio_backend: AudioBackend::Default,
        },
    }
}

/// The resolution that the custom resolution editor opens with: the chosen
/// one, else the last that the host lists, else 320 x 480.
pub open spec fn editor_resolution(current: Option<(u32, u32)>, hosts: Seq<(u32, u32)>) -> (
    u32,
    u32,
) {
    match current {
        Some(r) => r,
        None => if hosts.len() > 0 {
            hosts.last()
        } else {
            FALLBACK_CUSTOM_RESOLUTION
        },
    }
}

/// Whether the panel takes an event: a custom resolution whose fields do not
/// both hold a number from 64 to 16384 is refused, and so is a pick from the
/// host's resolutions with a tag outside the list; every other event is
/// taken.
pub open spec fn event_taken(e: QuickOptionEvent, hosts: Seq<(u32, u32)>) -> bool {
    match e {
        QuickOptionEvent::CustomResolutionApply(w, h) => dimension_of(w@) is Some && dimension_of(
            h@,
        ) is Some,
        QuickOptionEvent::SupportedResolution(i) => 0 <= i < hosts.len(),
        _ => true,
    }
}

/// Whether event `e` takes the settings from `s` to `t`. Each setting
/// changes only with the events listed beside it, the others leave it as it
/// was. Besides setting what the event names: forcing 32-bit code turns off
/// forcing 64-bit code and back; the battery savers turn off high performance
/// mode and maximum clocks, the ultra saver also turns on the plain one;
/// turning off high performance mode turns off maximum clocks, and turning on
/// maximum clocks turns on high performance mode; turning off the log file
/// turns off verbose logging; picking a device model closes its dropdown,
/// whose scrolling stops at its first and last rows; a custom resolution or a
/// listed one that is refused (see `event_taken`) changes nothing, nor does a
/// custom driver tag past the end of the list.
pub open spec fn is_step(
    s: QuickOptions,
    e: QuickOptionEvent,
    t: QuickOptions,
    hosts: Seq<(u32, u32)>,
    driver_count: int,
    device_items: int,
) -> bool {
    &&& t.screen.scale_hack == match e {
        QuickOptionEvent::ScaleHack(v) => v,
        _ => s.screen.scale_hack,
    }
    &&& t.screen.custom_resolution == match e {
        QuickOptionEvent::CustomResolutionCustom => Some(
            editor_resolution(s.screen.custom_resolution, hosts),
        ),
        QuickOptionEvent::CustomResolutionApply(w, h) => match (
            dimension_of(w@),
            dimension_of(h@),
        ) {
            (Some(width), Some(height)) => Some((width, height)),
            _ => s.screen.custom_resolution,
        },
        QuickOptionEvent::SupportedResolution(i) => if 0 <= i < hosts.len() {
            Some(hosts[i as int])
        } else {
            s.screen.custom_resolution
        },
        _ => s.screen.custom_resolution,
    }
    &&& t.screen.fullscreen == match e {
        QuickOptionEvent::Fullscreen(b) => b,
        _ => s.screen.fullscreen,
    }
    &&& t.screen.fullscreen_stretched == match e {
        QuickOptionEvent::FullscreenStretched(b) => b,
        _ => s.screen.fullscreen_stretched,
    }
    &&& t.screen.orientation == match e {
        QuickOptionEvent::Orientation(v) => v,
        _ => s.screen.orientation,
    }
    &&& t.screen.render_rotation == match e {
        QuickOptionEvent::RenderRotation(v) => Some(v),
        _ => s.screen.render_rotation,
    }
    &&& t.screen.revert_x_axis == match e {
        QuickOptionEvent::RevertXAxis(b) => b,
        _ => s.screen.revert_x_axis,
    }
    &&& t.screen.revert_y_axis == match e {
        QuickOptionEvent::RevertYAxis(b) => b,
        _ => s.screen.revert_y_axis,
    }
    &&& t.device.analog_stick_tilt_controls == match e {
        QuickOptionEvent::AnalogStickTiltControls(b) => b,
        _ => s.device.analog_stick_tilt_controls,
    }
    &&& t.device.network == match e {
        QuickOptionEvent::Network(b) => b,
        _ => s.device.network,
    }
    &&& t.device.rtcs == match e {
        QuickOptionEvent::Rtcs(b) => b,
        _ => s.device.rtcs,
    }
    &&& t.frames.show_fps == match e {
        QuickOptionEvent::ShowFps(b) => b,
        _ => s.frames.show_fps,
    }
    &&& t.frames.frame_pacing == match e {
        QuickOptionEvent::FramePacing(b) => b,
        _ => s.frames.frame_pacing,
    }
    &&& t.frames.fps_limit == match e {
        QuickOptionEvent::FpsLimit(v) => v,
        _ => s.frames.fps_limit,
    }
    &&& t.frames.frame_generation == match e {
        QuickOptionEvent::FrameGeneration(b) => b,
        _ => s.frames.frame_generation,
    }
    &&& t.power.high_performance == match e {
        QuickOptionEvent::BatterySaver(true) => false,
        QuickOptionEvent::UltraBatterySaver(true) => false,
        QuickOptionEvent::HighPerformance(b) => b,
        QuickOptionEvent::ForceMaxClocks(true) => true,
        _ => s.power.high_performance,
    }
    &&& t.power.force_max_clocks == match e {
        QuickOptionEvent::BatterySaver(true) => false,
        QuickOptionEvent::UltraBatterySaver(true) => false,
        QuickOptionEvent::HighPerformance(false) => false,
        QuickOptionEvent::ForceMaxClocks(b) => b,
        _ => s.power.force_max_clocks,
    }
    &&& t.frames.vsync == match e {
        QuickOptionEvent::Vsync(b) => b,
        _ => s.frames.vsync,
    }
    &&& t.power.battery_saver == match e {
        QuickOptionEvent::BatterySaver(b) => b,
        QuickOptionEvent::UltraBatterySaver(true) => true,
        _ => s.power.battery_saver,
    }
    &&& t.power.ultra_battery_saver == match e {
        QuickOptionEvent::UltraBatterySaver(b) => b,
        _ => s.power.ultra_battery_saver,
    }
    &&& t.system.verbose_logging == match e {
        QuickOptionEvent::VerboseLogging(b) => b,
        QuickOptionEvent::LogFile(false) => false,
        _ => s.system.verbose_logging,
    }
    &&& t.driver.shader_compatibility_fixes == match e {
        QuickOptionEvent::ShaderCompatibilityFixes(b) => b,
        _ => s.driver.shader_compatibility_fixes,
    }
    &&& t.driver.fix_texture_min_filter == match e {
        QuickOptionEvent::FixTextureMinFilter(b) => b,
        _ => s.driver.fix_texture_min_filter,
    }
    &&& t.driver.force_composition == match e {
        QuickOptionEvent::ForceComposition(b) => b,
        _ => s.driver.force_composition,
    }
    &&& t.driver.angle_driver == match e {
        QuickOptionEvent::AngleDriver(b) => b,
        _ => s.driver.angle_driver,
    }
    &&& t.system.log_file == match e {
        QuickOptionEvent::LogFile(b) => b,
        _ => s.system.log_file,
    }
    &&& t.system.trace_gl_errors == match e {
        QuickOptionEvent::TraceGlErrors(b) => b,
        _ => s.system.trace_gl_errors,
    }
    &&& t.cpu.fast_memory == match e {
        QuickOptionEvent::FastMemory(b) => b,
        _ => s.cpu.fast_memory,
    }
    &&& t.cpu.force_32_bit == match e {
        QuickOptionEvent::Force32Bit(b) => b,
        QuickOptionEvent::Force64Bit(true) => false,
        _ => s.cpu.force_32_bit,
    }
    &&& t.cpu.force_64_bit == match e {
        QuickOptionEvent::Force64Bit(b) => b,
        QuickOptionEvent::Force32Bit(true) => false,
        _ => s.cpu.force_64_bit,
    }
    &&& t.device.device_tag == match e {
        QuickOptionEvent::DeviceModel(tag) => Some(tag),
        _ => s.device.device_tag,
    }
    &&& t.device.device_model_open == match e {
        QuickOptionEvent::DeviceModel(_) => false,
        QuickOptionEvent::DeviceModelToggle => !s.device.device_model_open,
        _ => s.device.device_model_open,
    }
    &&& t.device.device_model_scroll == match e {
        QuickOptionEvent::DeviceModelScrollUp => if s.device.device_model_scroll > 0 {
            s.device.device_model_scroll - 1
        } else {
            s.device.device_model_scroll as int
        },
        QuickOptionEvent::DeviceModelScrollDown => if s.device.device_model_scroll < max_device_scroll(
            device_items,
        ) {
            s.device.device_model_scroll + 1
        } else {
            s.device.device_model_scroll as int
        },
        _ => s.device.device_model_scroll as int,
    }
    &&& t.device.ios_version == match e {
        QuickOptionEvent::IosVersion(tag) => version_of_tag(tag as int),
        _ => s.device.ios_version,
    }
    &&& t.system.core_audio == match e {
        QuickOptionEvent::CoreAudio(b) => b,
        _ => s.system.core_audio,
    }
    &&& t.system.low_audio_quality == match e {
        QuickOptionEvent::LowAudioQuality(b) => b,
        _ => s.system.low_audio_quality,
    }
    &&& t.graphics.graphics_api == match e {
        QuickOptionEvent::GraphicsApi(tag) => graphics_api_of_tag(tag as int),
        _ => s.graphics.graphics_api,
    }
    &&& t.system.audio_backend == match e {
        QuickOptionEvent::AudioBackend(tag) => audio_backend_of_tag(tag as int),
        _ => s.system.audio_backend,
    }
    &&& t.graphics.texture_filtering == match e {
        QuickOptionEvent::TextureFiltering(tag) => texture_filtering_of_tag(tag as int),
        _ => s.graphics.texture_filtering,
    }
    &&& t.graphics.pvrtc_decoding == match e {
        QuickOptionEvent::PvrtcDecoding(v) => v,
        _ => s.graphics.pvrtc_decoding,
    }
    &&& t.cpu.memory_management == match e {
        QuickOptionEvent::MemoryManagement(tag) => memory_management_of_tag(tag as int),
        _ => s.cpu.memory_management,
    }
    &&& t.graphics.gles_override == match e {
        QuickOptionEvent::GlesOverride(tag) => gles_override_of_tag(tag as int),
        _ => s.graphics.gles_override,
    }
    &&& t.cpu.arm64_backend == match e {
        QuickOptionEvent::Arm64Jit(on) => if on {
            Arm64Backend::Jit
        } else {
            Arm64Backend::Interpreter
        },
        _ => s.cpu.arm64_backend,
    }
    &&& t.cpu.arm64_fallback == match e {
        QuickOptionEvent::Arm64FallbackJit(on) => if on {
            Arm64Fallback::Jit
        } else {
            Arm64Fallback::Interpreter
        },
        _ => s.cpu.arm64_fallback,
    }
    &&& t.driver.llvmpipe_fallback == match e {
        QuickOptionEvent::LlvmpipeFallback(b) => b,
        _ => s.driver.llvmpipe_fallback,
    }
    &&& t.driver.metal_translator == match e {
        QuickOptionEvent::MetalTranslator(b) => b,
        _ => s.driver.metal_translator,
    }
    &&& t.driver.custom_driver == match e {
        QuickOptionEvent::CustomDriverSelected(i) => if i < 0 {
            None
        } else if i < driver_count {
            Some(i as usize)
        } else {
            s.driver.custom_driver
        },
        _ => s.driver.custom_driver,
    }
    &&& t.graphics.anisotropic_filtering == match e {
        QuickOptionEvent::AnisotropicFiltering(v) => v,
        _ => s.graphics.anisotropic_filtering,
    }
    &&& t.graphics.texture_upscaler == match e {
        QuickOptionEvent::TextureUpscaler(v) => v,
        _ => s.graphics.texture_upscaler,
    }
    &&& t.graphics.no_texture_compression == match e {
        QuickOptionEvent::NoTextureCompression(b) => b,
        _ => s.graphics.no_texture_compression,
    }
    &&& t.graphics.anti_aliasing == match e {
        QuickOptionEvent::AntiAliasing(v) => v,
        _ => s.graphics.anti_aliasing,
    }
}

/// Whether event `e` takes the settings from `s` to `t` in the panel
/// described by `ctx` (see `is_step`).
pub open spec fn steps_in(s: QuickOptions, e: QuickOptionEvent, t: QuickOptions, ctx: &PickerContext) -> bool {
    is_step(
        s,
        e,
        t,
        ctx.host_resolutions@,
        ctx.custom_driver_paths.len() as int,
        ctx.device_model_item_count as int,
    )
}

/// The settings never force both 32-bit and 64-bit code, never ask for
/// maximum clocks without high performance mode, and keep the device-model
/// dropdown scrolled within its rows.
pub open spec fn quick_options_consistent(s: QuickOptions, device_items: int) -> bool {
    &&& !(s.cpu.force_32_bit && s.cpu.force_64_bit)
    &&& (s.power.force_max_clocks ==> s.power.high_performance)
    &&& s.device.device_model_scroll <= max_device_scroll(device_items)
}

impl QuickOptions {
    /// The settings the panel starts with; the three flags are the platform's
    /// defaults.
    pub fn new(high_performance: bool, fix_texture_min_filter: bool, metal_translator: bool) -> (r:
        QuickOptions)
        ensures
            r == initial_quick_options(high_performance, fix_texture_min_filter, metal_translator),
    {
        QuickOptions {
            screen: ScreenSettings {
                scale_hack: None,
                custom_resolution: None,
                fullscreen: false,
                fullscreen_stretched: false,
                orientation: None,
                render_rotation: None,
                revert_x_axis: false,
                revert_y_axis: false,
            },
            frames: FrameSettings {
                show_fps: true,
                frame_pacing: true,
                fps_limit: None,
                frame_generation: false,
                vsync: false,
            },
            power: PowerSettings {
                high_performance,
                force_max_clocks: false,
                battery_saver: false,
                ultra_battery_saver: false,
            },
            graphics: GraphicsSettings {
                graphics_api: GraphicsApi::Default,
                gles_override: GlesOverrideVersion::Default,
                texture_filtering: TextureFiltering::Default,
                pvrtc_decoding: PvrtcDecoding::Auto,
                anisotropic_filtering: 1,
                texture_upscaler: 1,
                no_texture_compression: false,
                anti_aliasing: 1,
            },
            driver: DriverSettings {
                shader_compatibility_fixes: true,
                fix_texture_min_filter,
                force_composition: false,
                angle_driver: false,
                llvmpipe_fallback: false,
                metal_translator,
                custom_driver: None,
            },
            cpu: CpuSettings {
                fast_memory: true,
                force_32_bit: false,
                force_64_bit: false,
                arm64_backend: Arm64Backend::Interpreter,
                arm64_fallback: Arm64Fallback::Interpreter,
                memory_management: MemoryManagement::Balanced,
            },
            device: DeviceSettings {
                device_tag: None,
                device_model_open: false,
                device_model_scroll: 0,
                ios_version: None,
                analog_stick_tilt_controls: true,
                network: true,
                rtcs: false,
            },
            system: SystemSettings {
                log_file: true,
                verbose_logging: false,
                trace_gl_errors: false,
                core_audio: false,
                low_audio_quality: false,
                audio_backend: AudioBackend::Default,
            },
        }
    }

    /// Applies one event of the panel to the settings; returns whether the
    /// event was taken (see `event_taken`).
    pub fn apply_event(&mut self, event: QuickOptionEvent, ctx: &PickerContext) -> (taken: bool)
        ensures
            is_step(
                *old(self),
                event,
                *final(self),
                ctx.host_resolutions@,
                ctx.custom_driver_paths.len() as int,
                ctx.device_model_item_count as int,
            ),
            taken == event_taken(event, ctx.host_resolutions@),
    {
        match event {
            QuickOptionEvent::IosVersion(tag) => {
                self.on_ios_version(tag, ctx);
                true
            },
            QuickOptionEvent::GlesOverride(tag) => {
                self.on_gles_override(tag, ctx);
                true
            },
            QuickOptionEvent::TextureFiltering(tag) => {
                self.on_texture_filtering(tag, ctx);
                true
            },
            QuickOptionEvent::PvrtcDecoding(v) => {
                self.on_pvrtc_decoding(v, ctx);
                true
            },
            QuickOptionEvent::MemoryManagement(tag) => {
                self.on_memory_management(tag, ctx);
                true
            },
            QuickOptionEvent::AudioBackend(tag) => {
                self.on_audio_backend(tag, ctx);
                true
            },
            QuickOptionEvent::GraphicsApi(tag) => {
                self.on_graphics_api(tag, ctx);
                true
            },
            QuickOptionEvent::Arm64Jit(on) => {
                self.on_arm64_jit(on, ctx);
                true
            },
            QuickOptionEvent::Arm64FallbackJit(on) => {
                self.on_arm64_fallback_jit(on, ctx);
                true
            },
            QuickOptionEvent::ScaleHack(v) => {
                self.on_scale_hack(v, ctx);
                true
            },
            QuickOptionEvent::CustomResolutionCustom => {
                self.on_custom_resolution_custom(ctx);
                true
            },
            QuickOptionEvent::CustomResolutionApply(width_text, height_text) => self.on_custom_resolution_apply(width_text, height_text, ctx),
            QuickOptionEvent::SupportedResolution(index) => self.on_supported_resolution(index, ctx),
            QuickOptionEvent::Orientation(v) => {
                self.on_orientation(v, ctx);
                true
            },
            QuickOptionEvent::RenderRotation(v) => {
                self.on_render_rotation(v, ctx);
                true
            },
            QuickOptionEvent::RevertXAxis(b) => {
                self.on_revert_x_axis(b, ctx);
                true
            },
            QuickOptionEvent::RevertYAxis(b) => {
                self.on_revert_y_axis(b, ctx);
                true
            },
            QuickOptionEvent::DeviceModel(tag) => {
                self.on_device_model(tag, ctx);
                true
            },
            QuickOptionEvent::DeviceModelToggle => {
                self.on_device_model_toggle(ctx);
                true
            },
            QuickOptionEvent::DeviceModelScrollUp => {
                self.on_device_model_scroll_up(ctx);
                true
            },
            QuickOptionEvent::DeviceModelScrollDown => {
                self.on_device_model_scroll_down(ctx);
                true
            },
            QuickOptionEvent::AnalogStickTiltControls(b) => {
                self.on_analog_stick_tilt_controls(b, ctx);
                true
            },
            QuickOptionEvent::Network(b) => {
                self.on_network(b, ctx);
                true
            },
            QuickOptionEvent::Rtcs(b) => {
                self.on_rtcs(b, ctx);
                true
            },
            QuickOptionEvent::ShowFps(b) => {
                self.on_show_fps(b, ctx);
                true
            },
            QuickOptionEvent::AngleDriver(b) => {
                self.on_angle_driver(b, ctx);
                true
            },
            QuickOptionEvent::LogFile(b) => {
                self.on_log_file(b, ctx);
                true
            },
            QuickOptionEvent::TraceGlErrors(b) => {
                self.on_trace_gl_errors(b, ctx);
                true
            },
            QuickOptionEvent::FastMemory(b) => {
                self.on_fast_memory(b, ctx);
                true
            },
            QuickOptionEvent::Force32Bit(b) => {
                self.on_force_32_bit(b, ctx);
                true
            },
            QuickOptionEvent::Force64Bit(b) => {
                self.on_force_64_bit(b, ctx);
                true
            },
            QuickOptionEvent::FramePacing(b) => {
                self.on_frame_pacing(b, ctx);
                true
            },
            QuickOptionEvent::FpsLimit(v) => {
                self.on_fps_limit(v, ctx);
                true
            },
            QuickOptionEvent::Vsync(b) => {
                self.on_vsync(b, ctx);
                true
            },
            QuickOptionEvent::BatterySaver(b) => {
                self.on_battery_saver(b, ctx);
                true
            },
            QuickOptionEvent::UltraBatterySaver(b) => {
                self.on_ultra_battery_saver(b, ctx);
                true
            },
            QuickOptionEvent::VerboseLogging(b) => {
                self.on_verbose_logging(b, ctx);
                true
            },
            QuickOptionEvent::ShaderCompatibilityFixes(b) => {
                self.on_shader_compatibility_fixes(b, ctx);
                true
            },
            QuickOptionEvent::FixTextureMinFilter(b) => {
                self.on_fix_texture_min_filter(b, ctx);
                true
            },
            QuickOptionEvent::ForceComposition(b) => {
                self.on_force_composition(b, ctx);
                true
            },
            QuickOptionEvent::FrameGeneration(b) => {
                self.on_frame_generation(b, ctx);
                true
            },
            QuickOptionEvent::HighPerformance(b) => {
                self.on_high_performance(b, ctx);
                true
            },
            QuickOptionEvent::ForceMaxClocks(b) => {
                self.on_force_max_clocks(b, ctx);
                true
            },
            QuickOptionEvent::Fullscreen(b) => {
                self.on_fullscreen(b, ctx);
                true
            },
            QuickOptionEvent::FullscreenStretched(b) => {
                self.on_fullscreen_stretched(b, ctx);
                true
            },
            QuickOptionEvent::LlvmpipeFallback(b) => {
                self.on_llvmpipe_fallback(b, ctx);
                true
            },
            QuickOptionEvent::MetalTranslator(b) => {
                self.on_metal_translator(b, ctx);
                true
            },
            QuickOptionEvent::CoreAudio(b) => {
                self.on_core_audio(b, ctx);
                true
            },
            QuickOptionEvent::LowAudioQuality(b) => {
                self.on_low_audio_quality(b, ctx);
                true
            },
            QuickOptionEvent::CustomDriverSelected(index) => {
                self.on_custom_driver_selected(index, ctx);
                true
            },
            QuickOptionEvent::AnisotropicFiltering(v) => {
                self.on_anisotropic_filtering(v, ctx);
                true
            },
            QuickOptionEvent::TextureUpscaler(v) => {
                self.on_texture_upscaler(v, ctx);
                true
            },
            QuickOptionEvent::NoTextureCompression(b) => {
                self.on_no_texture_compression(b, ctx);
                true
            },
            QuickOptionEvent::AntiAliasing(v) => {
                self.on_anti_aliasing(v, ctx);
                true
            },
        }
    }

    // One function per event, each proving its own step; `apply_event` picks
    // the one for its event.
    fn on_ios_version(&mut self, tag: i32, ctx: &PickerContext)
        ensures
            steps_in(*old(self), QuickOptionEvent::IosVersion(tag), *final(self), ctx),
    {
        self.device.ios_version = ios_version_for_tag(tag);
    }

    fn on_gles_override(&mut self, tag: i64, ctx: &PickerContext)
        ensures
            steps_in(*old(self), QuickOptionEvent::GlesOverride(tag), *final(self), ctx),
    {
        self.graphics.gles_override = gles_override_for_tag(tag);
    }

    fn on_texture_filtering(&mut self, tag: i64, ctx: &PickerContext)
        ensures
            steps_in(*old(self), QuickOptionEvent::TextureFiltering(tag), *final(self), ctx),
    {
        self.graphics.texture_filtering = texture_filtering_for_tag(tag);
    }

    fn on_pvrtc_decoding(&mut self, v: PvrtcDecoding, ctx: &PickerContext)
        ensures
            steps_in(*old(self), QuickOptionEvent::PvrtcDecoding(v), *final(self), ctx),
    {
        self.graphics.pvrtc_decoding = v;
    }

    fn on_memory_management(&mut self, tag: i64, ctx: &PickerContext)
        ensures
            steps_in(*old(self), QuickOptionEvent::MemoryManagement(tag), *final(self), ctx),
    {
        self.cpu.memory_management = memory_management_for_tag(tag);
    }

    fn on_audio_backend(&mut self, tag: i64, ctx: &PickerContext)
        ensures
            steps_in(*old(self), QuickOptionEvent::AudioBackend(tag), *final(self), ctx),
    {
        self.system.audio_backend = audio_backend_for_tag(tag);
    }

    fn on_graphics_api(&mut self, tag: i64, ctx: &PickerContext)
        ensures
            steps_in(*old(self), QuickOptionEvent::GraphicsApi(tag), *final(self), ctx),
    {
        self.graphics.graphics_api = graphics_api_for_tag(tag);
    }

    fn on_arm64_jit(&mut self, on: bool, ctx: &PickerContext)
        ensures
            steps_in(*old(self), QuickOptionEvent::Arm64Jit(on), *final(self), ctx),
    {
        self.cpu.arm64_backend = if on {
            Arm64Backend::Jit
        } else {
            Arm64Backend::Interpreter
        };
    }

    fn on_arm64_fallback_jit(&mut self, on: bool, ctx: &PickerContext)
        ensures
            steps_in(*old(self), QuickOptionEvent::Arm64FallbackJit(on), *final(self), ctx),
    {
        self.cpu.arm64_fallback = if on {
            Arm64Fallback::Jit
        } else {
            Arm64Fallback::Interpreter
        };
    }

    fn on_scale_hack(&mut self, v: Option<ScaleHack>, ctx: &PickerContext)
        ensures
            steps_in(*old(self), QuickOptionEvent::ScaleHack(v), *final(self), ctx),
    {
        self.screen.scale_hack = v;
    }

    fn on_custom_resolution_custom(&mut self, ctx: &PickerContext)
        ensures
            steps_in(*old(self), QuickOptionEvent::CustomResolutionCustom, *final(self), ctx),
    {
        let resolution = match self.screen.custom_resolution {
            Some(r) => r,
            None => {
                let n = ctx.host_resolutions.len();
                if n > 0 {
                    ctx.host_resolutions[n - 1]
                } else {
                    FALLBACK_CUSTOM_RESOLUTION
                }
            },
        };
        self.screen.custom_resolution = Some(resolution);
    }

    fn on_custom_resolution_apply(&mut self, width_text: String, height_text: String, ctx: &PickerContext) -> (taken: bool)
        ensures
            steps_in(*old(self), QuickOptionEvent::CustomResolutionApply(width_text, height_text), *final(self), ctx),
            taken == event_taken(QuickOptionEvent::CustomResolutionApply(width_text, height_text), ctx.host_resolutions@),
    {
        let width = parse_dimension(width_text.as_str());
        let height = parse_dimension(height_text.as_str());
        match (width, height) {
            (Some(w), Some(h)) => {
                self.screen.custom_resolution = Some((w, h));
            },
            _ => {
                return false;
            },
        }
        true
    }

    fn on_supported_resolution(&mut self, index: i32, ctx: &PickerContext) -> (taken: bool)
        ensures
            steps_in(*old(self), QuickOptionEvent::SupportedResolution(index), *final(self), ctx),
            taken == event_taken(QuickOptionEvent::SupportedResolution(index), ctx.host_resolutions@),
    {
        if index >= 0 && (index as usize) < ctx.host_resolutions.len() {
            self.screen.custom_resolution = Some(ctx.host_resolutions[index as usize]);
        } else {
            return false;
        }
        true
    }

    fn on_orientation(&mut self, v: Option<Orientation>, ctx: &PickerContext)
        ensures
            steps_in(*old(self), QuickOptionEvent::Orientation(v), *final(self), ctx),
    {
        self.screen.orientation = v;
    }

    fn on_render_rotation(&mut self, v: RenderRotation, ctx: &PickerContext)
        ensures
            steps_in(*old(self), QuickOptionEvent::RenderRotation(v), *final(self), ctx),
    {
        self.screen.render_rotation = Some(v);
    }

    fn on_revert_x_axis(&mut self, b: bool, ctx: &PickerContext)
        ensures
            steps_in(*old(self), QuickOptionEvent::RevertXAxis(b), *final(self), ctx),
    {
        self.screen.revert_x_axis = b;
    }

    fn on_revert_y_axis(&mut self, b: bool, ctx: &PickerContext)
        ensures
            steps_in(*old(self), QuickOptionEvent::RevertYAxis(b), *final(self), ctx),
    {
        self.screen.revert_y_axis = b;
    }

    fn on_device_model(&mut self, tag: i32, ctx: &PickerContext)
        ensures
            steps_in(*old(self), QuickOptionEvent::DeviceModel(tag), *final(self), ctx),
    {
        self.device.device_tag = Some(tag);
        self.device.device_model_open = false;
    }

    fn on_device_model_toggle(&mut self, ctx: &PickerContext)
        ensures
            steps_in(*old(self), QuickOptionEvent::DeviceModelToggle, *final(self), ctx),
    {
        self.device.device_model_open = !self.device.device_model_open;
    }

    fn on_device_model_scroll_up(&mut self, ctx: &PickerContext)
        ensures
            steps_in(*old(self), QuickOptionEvent::DeviceModelScrollUp, *final(self), ctx),
    {
        if self.device.device_model_scroll > 0 {
            self.device.device_model_scroll = self.device.device_model_scroll - 1;
        }
    }

    fn on_device_model_scroll_down(&mut self, ctx: &PickerContext)
        ensures
            steps_in(*old(self), QuickOptionEvent::DeviceModelScrollDown, *final(self), ctx),
    {
        let max_scroll = if ctx.device_model_item_count > DEVICE_MENU_VISIBLE_ITEMS {
            ctx.device_model_item_count - DEVICE_MENU_VISIBLE_ITEMS
        } else {
            0
        };
        if self.device.device_model_scroll < max_scroll {
            self.device.device_model_scroll = self.device.device_model_scroll + 1;
        }
    }

    fn on_analog_stick_tilt_controls(&mut self, b: bool, ctx: &PickerContext)
        ensures
            steps_in(*old(self), QuickOptionEvent::AnalogStickTiltControls(b), *final(self), ctx),
    {
        self.device.analog_stick_tilt_controls = b;
    }

    fn on_network(&mut self, b: bool, ctx: &PickerContext)
        ensures
            steps_in(*old(self), QuickOptionEvent::Network(b), *final(self), ctx),
    {
        self.device.network = b;
    }

    fn on_rtcs(&mut self, b: bool, ctx: &PickerContext)
        ensures
            steps_in(*old(self), QuickOptionEvent::Rtcs(b), *final(self), ctx),
    {
        self.device.rtcs = b;
    }

    fn on_show_fps(&mut self, b: bool, ctx: &PickerContext)
        ensures
            steps_in(*old(self), QuickOptionEvent::ShowFps(b), *final(self), ctx),
    {
        self.frames.show_fps = b;
    }

    fn on_angle_driver(&mut self, b: bool, ctx: &PickerContext)
        ensures
            steps_in(*old(self), QuickOptionEvent::AngleDriver(b), *final(self), ctx),
    {
        self.driver.angle_driver = b;
    }

    fn on_log_file(&mut self, b: bool, ctx: &PickerContext)
        ensures
            steps_in(*old(self), QuickOptionEvent::LogFile(b), *final(self), ctx),
    {
        self.system.log_file = b;
        if !b {
            self.system.verbose_logging = false;
        }
    }

    fn on_trace_gl_errors(&mut self, b: bool, ctx: &PickerContext)
        ensures
            steps_in(*old(self), QuickOptionEvent::TraceGlErrors(b), *final(self), ctx),
    {
        self.system.trace_gl_errors = b;
    }

    fn on_fast_memory(&mut self, b: bool, ctx: &PickerContext)
        ensures
            steps_in(*old(self), QuickOptionEvent::FastMemory(b), *final(self), ctx),
    {
        self.cpu.fast_memory = b;
    }

    fn on_force_32_bit(&mut self, b: bool, ctx: &PickerContext)
        ensures
            steps_in(*old(self), QuickOptionEvent::Force32Bit(b), *final(self), ctx),
    {
        self.cpu.force_32_bit = b;
        if b {
            self.cpu.force_64_bit = false;
        }
    }

    fn on_force_64_bit(&mut self, b: bool, ctx: &PickerContext)
        ensures
            steps_in(*old(self), QuickOptionEvent::Force64Bit(b), *final(self), ctx),
    {
        self.cpu.force_64_bit = b;
        if b {
            self.cpu.force_32_bit = false;
        }
    }

    fn on_frame_pacing(&mut self, b: bool, ctx: &PickerContext)
        ensures
            steps_in(*old(self), QuickOptionEvent::FramePacing(b), *final(self), ctx),
    {
        self.frames.frame_pacing = b;
    }

    fn on_fps_limit(&mut self, v: Option<FpsLimit>, ctx: &PickerContext)
        ensures
            steps_in(*old(self), QuickOptionEvent::FpsLimit(v), *final(self), ctx),
    {
        self.frames.fps_limit = v;
    }

    fn on_vsync(&mut self, b: bool, ctx: &PickerContext)
        ensures
            steps_in(*old(self), QuickOptionEvent::Vsync(b), *final(self), ctx),
    {
        self.frames.vsync = b;
    }

    fn on_battery_saver(&mut self, b: bool, ctx: &PickerContext)
        ensures
            steps_in(*old(self), QuickOptionEvent::BatterySaver(b), *final(self), ctx),
    {
        self.power.battery_saver = b;
        if b {
            self.power.high_performance = false;
            self.power.force_max_clocks = false;
        }
    }

    fn on_ultra_battery_saver(&mut self, b: bool, ctx: &PickerContext)
        ensures
            steps_in(*old(self), QuickOptionEvent::UltraBatterySaver(b), *final(self), ctx),
    {
        self.power.ultra_battery_saver = b;
        if b {
            self.power.battery_saver = true;
            self.power.high_performance = false;
            self.power.force_max_clocks = false;
        }
    }

    fn on_verbose_logging(&mut self, b: bool, ctx: &PickerContext)
        ensures
            steps_in(*old(self), QuickOptionEvent::VerboseLogging(b), *final(self), ctx),
    {
        self.system.verbose_logging = b;
    }

    fn on_shader_compatibility_fixes(&mut self, b: bool, ctx: &PickerContext)
        ensures
            steps_in(*old(self), QuickOptionEvent::ShaderCompatibilityFixes(b), *final(self), ctx),
    {
        self.driver.shader_compatibility_fixes = b;
    }

    fn on_fix_texture_min_filter(&mut self, b: bool, ctx: &PickerContext)
        ensures
            steps_in(*old(self), QuickOptionEvent::FixTextureMinFilter(b), *final(self), ctx),
    {
        self.driver.fix_texture_min_filter = b;
    }

    fn on_force_composition(&mut self, b: bool, ctx: &PickerContext)
        ensures
            steps_in(*old(self), QuickOptionEvent::ForceComposition(b), *final(self), ctx),
    {
        self.driver.force_composition = b;
    }

    fn on_frame_generation(&mut self, b: bool, ctx: &PickerContext)
        ensures
            steps_in(*old(self), QuickOptionEvent::FrameGeneration(b), *final(self), ctx),
    {
        self.frames.frame_generation = b;
    }

    fn on_high_performance(&mut self, b: bool, ctx: &PickerContext)
        ensures
            steps_in(*old(self), QuickOptionEvent::HighPerformance(b), *final(self), ctx),
    {
        self.power.high_performance = b;
        if !b {
            self.power.force_max_clocks = false;
        }
    }

    fn on_force_max_clocks(&mut self, b: bool, ctx: &PickerContext)
        ensures
            steps_in(*old(self), QuickOptionEvent::ForceMaxClocks(b), *final(self), ctx),
    {
        self.power.force_max_clocks = b;
        if b {
            self.power.high_performance = true;
        }
    }

    fn on_fullscreen(&mut self, b: bool, ctx: &PickerContext)
        ensures
            steps_in(*old(self), QuickOptionEvent::Fullscreen(b), *final(self), ctx),
    {
        self.screen.fullscreen = b;
    }

    fn on_fullscreen_stretched(&mut self, b: bool, ctx: &PickerContext)
        ensures
            steps_in(*old(self), QuickOptionEvent::FullscreenStretched(b), *final(self), ctx),
    {
        self.screen.fullscreen_stretched = b;
    }

    fn on_llvmpipe_fallback(&mut self, b: bool, ctx: &PickerContext)
        ensures
            steps_in(*old(self), QuickOptionEvent::LlvmpipeFallback(b), *final(self), ctx),
    {
        self.driver.llvmpipe_fallback = b;
    }

    fn on_metal_translator(&mut self, b: bool, ctx: &PickerContext)
        ensures
            steps_in(*old(self), QuickOptionEvent::MetalTranslator(b), *final(self), ctx),
    {
        self.driver.metal_translator = b;
    }

    fn on_core_audio(&mut self, b: bool, ctx: &PickerContext)
        ensures
            steps_in(*old(self), QuickOptionEvent::CoreAudio(b), *final(self), ctx),
    {
        self.system.core_audio = b;
    }

    fn on_low_audio_quality(&mut self, b: bool, ctx: &PickerContext)
        ensures
            steps_in(*old(self), QuickOptionEvent::LowAudioQuality(b), *final(self), ctx),
    {
        self.system.low_audio_quality = b;
    }

    fn on_custom_driver_selected(&mut self, index: i32, ctx: &PickerContext)
        ensures
            steps_in(*old(self), QuickOptionEvent::CustomDriverSelected(index), *final(self), ctx),
    {
        let chosen = if index < 0 {
            None
        } else if (index as usize) < ctx.custom_driver_paths.len() {
            Some(index as usize)
        } else {
            self.driver.custom_driver
        };
        self.driver.custom_driver = chosen;
    }

    fn on_anisotropic_filtering(&mut self, v: u8, ctx: &PickerContext)
        ensures
            steps_in(*old(self), QuickOptionEvent::AnisotropicFiltering(v), *final(self), ctx),
    {
        self.graphics.anisotropic_filtering = v;
    }

    fn on_texture_upscaler(&mut self, v: u8, ctx: &PickerContext)
        ensures
            steps_in(*old(self), QuickOptionEvent::TextureUpscaler(v), *final(self), ctx),
    {
        self.graphics.texture_upscaler = v;
    }

    fn on_no_texture_compression(&mut self, b: bool, ctx: &PickerContext)
        ensures
            steps_in(*old(self), QuickOptionEvent::NoTextureCompression(b), *final(self), ctx),
    {
        self.graphics.no_texture_compression = b;
    }

    fn on_anti_aliasing(&mut self, v: u8, ctx: &PickerContext)
        ensures
            steps_in(*old(self), QuickOptionEvent::AntiAliasing(v), *final(self), ctx),
    {
        self.graphics.anti_aliasing = v;
    }

}

/// The panel starts consistent, whatever the platform defaults and the size
/// of the device-model dropdown.
pub proof fn lemma_initial_consistent(
    high_performance: bool,
    fix_texture_min_filter: bool,
    metal_translator: bool,
    device_items: int,
)
    ensures
        quick_options_consistent(
            initial_quick_options(high_performance, fix_texture_min_filter, metal_translator),
            device_items,
        ),
{
}

/// Every event keeps the settings consistent: 32-bit and 64-bit code are
/// never both forced, maximum clocks never come without high performance
/// mode, and the device-model dropdown never scrolls past its rows.
pub proof fn lemma_event_keeps_consistency(
    s: QuickOptions,
    e: QuickOptionEvent,
    t: QuickOptions,
    hosts: Seq<(u32, u32)>,
    driver_count: int,
    device_items: int,
)
    requires
        quick_options_consistent(s, device_items),
        is_step(s, e, t, hosts, driver_count, device_items),
    ensures
        quick_options_consistent(t, device_items),
{
}


/// `states` is a run of the panel: each state follows the one before by the
/// event of the same index.
pub open spec fn is_run(
    states: Seq<QuickOptions>,
    events: Seq<QuickOptionEvent>,
    hosts: Seq<(u32, u32)>,
    driver_count: int,
    device_items: int,
) -> bool {
    &&& states.len() == events.len() + 1
    &&& forall|i: int|
        0 <= i < events.len() ==> is_step(
            #[trigger] states[i],
            events[i],
            states[i + 1],
            hosts,
            driver_count,
            device_items,
        )
}

/// Over any run of events that starts from consistent settings (as the
/// panel's initial settings are), every state is consistent: 32-bit and
/// 64-bit code are never both forced, maximum clocks never come without high
/// performance mode, and the device-model dropdown stays within its rows.
pub proof fn lemma_run_stays_consistent(
    states: Seq<QuickOptions>,
    events: Seq<QuickOptionEvent>,
    hosts: Seq<(u32, u32)>,
    driver_count: int,
    device_items: int,
)
    requires
        is_run(states, events, hosts, driver_count, device_items),
        quick_options_consistent(states[0], device_items),
    ensures
        forall|i: int|
            0 <= i < states.len() ==> quick_options_consistent(#[trigger] states[i], device_items),
    decreases events.len(),
{
    if events.len() > 0 {
        let n = events.len() - 1;
        let prefix = states.subrange(0, n + 1);
        let prefix_events = events.subrange(0, n);
        assert forall|i: int| 0 <= i < prefix_events.len() implies is_step(
            #[trigger] prefix[i],
            prefix_events[i],
            prefix[i + 1],
            hosts,
            driver_count,
            device_items,
        ) by {
            assert(prefix[i] == states[i] && prefix[i + 1] == states[i + 1]);
            assert(is_step(states[i], events[i], states[i + 1], hosts, driver_count, device_items));
        }
        lemma_run_stays_consistent(prefix, prefix_events, hosts, driver_count, device_items);
        assert(quick_options_consistent(prefix[n], device_items));
        assert(is_step(states[n], events[n], states[n + 1], hosts, driver_count, device_items));
        lemma_event_keeps_consistency(states[n], events[n], states[n + 1], hosts, driver_count, device_items);
        assert forall|i: int| 0 <= i < states.len() implies quick_options_consistent(
            #[trigger] states[i],
            device_items,
        ) by {
            if i <= n {
                assert(prefix[i] == states[i]);
            }
        }
    }
}

/// Each switch and choice of the panel writes exactly the setting it names:
/// after the event with value `b` that setting is `b`, and the setting paired
/// with it on the panel (the other axis, the other fullscreen mode, the other
/// audio switch, the other network switch, the other texture number, the
/// other screen turn) is as it was.
pub proof fn lemma_switch_sets_its_setting(
    s: QuickOptions,
    e: QuickOptionEvent,
    t: QuickOptions,
    hosts: Seq<(u32, u32)>,
    driver_count: int,
    device_items: int,
)
    requires
        is_step(s, e, t, hosts, driver_count, device_items),
    ensures
        e matches QuickOptionEvent::RevertXAxis(b) ==> t.screen.revert_x_axis == b
            && t.screen.revert_y_axis == s.screen.revert_y_axis,
        e matches QuickOptionEvent::RevertYAxis(b) ==> t.screen.revert_y_axis == b
            && t.screen.revert_x_axis == s.screen.revert_x_axis,
        e matches QuickOptionEvent::Fullscreen(b) ==> t.screen.fullscreen == b
            && t.screen.fullscreen_stretched == s.screen.fullscreen_stretched,
        e matches QuickOptionEvent::FullscreenStretched(b) ==> t.screen.fullscreen_stretched == b
            && t.screen.fullscreen == s.screen.fullscreen,
        e matches QuickOptionEvent::CoreAudio(b) ==> t.system.core_audio == b
            && t.system.low_audio_quality == s.system.low_audio_quality,
        e matches QuickOptionEvent::LowAudioQuality(b) ==> t.system.low_audio_quality == b
            && t.system.core_audio == s.system.core_audio,
        e matches QuickOptionEvent::Network(b) ==> t.device.network == b && t.device.rtcs
            == s.device.rtcs,
        e matches QuickOptionEvent::Rtcs(b) ==> t.device.rtcs == b && t.device.network
            == s.device.network,
        e matches QuickOptionEvent::AnalogStickTiltControls(b)
            ==> t.device.analog_stick_tilt_controls == b,
        e matches QuickOptionEvent::ShowFps(b) ==> t.frames.show_fps == b,
        e matches QuickOptionEvent::FramePacing(b) ==> t.frames.frame_pacing == b,
        e matches QuickOptionEvent::Vsync(b) ==> t.frames.vsync == b,
        e matches QuickOptionEvent::FrameGeneration(b) ==> t.frames.frame_generation == b,
        e matches QuickOptionEvent::AngleDriver(b) ==> t.driver.angle_driver == b,
        e matches QuickOptionEvent::LlvmpipeFallback(b) ==> t.driver.llvmpipe_fallback == b,
        e matches QuickOptionEvent::MetalTranslator(b) ==> t.driver.metal_translator == b,
        e matches QuickOptionEvent::ShaderCompatibilityFixes(b)
            ==> t.driver.shader_compatibility_fixes == b,
        e matches QuickOptionEvent::FixTextureMinFilter(b) ==> t.driver.fix_texture_min_filter
            == b,
        e matches QuickOptionEvent::ForceComposition(b) ==> t.driver.force_composition == b,
        e matches QuickOptionEvent::LogFile(b) ==> t.system.log_file == b,
        e matches QuickOptionEvent::TraceGlErrors(b) ==> t.system.trace_gl_errors == b,
        e matches QuickOptionEvent::VerboseLogging(b) ==> t.system.verbose_logging == b,
        e matches QuickOptionEvent::FastMemory(b) ==> t.cpu.fast_memory == b,
        e matches QuickOptionEvent::Force32Bit(b) ==> t.cpu.force_32_bit == b,
        e matches QuickOptionEvent::Force64Bit(b) ==> t.cpu.force_64_bit == b,
        e matches QuickOptionEvent::BatterySaver(b) ==> t.power.battery_saver == b,
        e matches QuickOptionEvent::UltraBatterySaver(b) ==> t.power.ultra_battery_saver == b,
        e matches QuickOptionEvent::HighPerformance(b) ==> t.power.high_performance == b,
        e matches QuickOptionEvent::ForceMaxClocks(b) ==> t.power.force_max_clocks == b,
        e matches QuickOptionEvent::NoTextureCompression(b) ==> t.graphics.no_texture_compression
            == b,
        e matches QuickOptionEvent::AnisotropicFiltering(v) ==> t.graphics.anisotropic_filtering
            == v && t.graphics.texture_upscaler == s.graphics.texture_upscaler,
        e matches QuickOptionEvent::TextureUpscaler(v) ==> t.graphics.texture_upscaler == v
            && t.graphics.anisotropic_filtering == s.graphics.anisotropic_filtering,
        e matches QuickOptionEvent::AntiAliasing(v) ==> t.graphics.anti_aliasing == v,
        e matches QuickOptionEvent::ScaleHack(v) ==> t.screen.scale_hack == v,
        e matches QuickOptionEvent::Orientation(v) ==> t.screen.orientation == v
            && t.screen.render_rotation == s.screen.render_rotation,
        e matches QuickOptionEvent::RenderRotation(v) ==> t.screen.render_rotation == Some(v)
            && t.screen.orientation == s.screen.orientation,
        e matches QuickOptionEvent::FpsLimit(v) ==> t.frames.fps_limit == v,
        e matches QuickOptionEvent::PvrtcDecoding(v) ==> t.graphics.pvrtc_decoding == v,
        e matches QuickOptionEvent::IosVersion(tag) ==> t.device.ios_version == version_of_tag(
            tag as int,
        ),
        e matches QuickOptionEvent::DeviceModel(tag) ==> t.device.device_tag == Some(tag)
            && !t.device.device_model_open,
{
}

} // verus!
