use vstd::prelude::*;

verus! {

/// Texture filtering mode; the order is that of its dropdown.
#[derive(Clone, Copy, PartialEq, Eq, Structural, Debug)]
pub enum TextureFiltering {
    Default,
    Bilinear,
    Trilinear,
    Anisotropic,
}

/// Guest memory management mode; the order is that of its dropdown.
#[derive(Clone, Copy, PartialEq, Eq, Structural, Debug)]
pub enum MemoryManagement {
    Light,
    Balanced,
    Aggressive,
}

/// OpenGL ES version override; the order is that of its dropdown.
#[derive(Clone, Copy, PartialEq, Eq, Structural, Debug)]
pub enum GlesOverrideVersion {
    Default,
    Gles10,
    Gles11,
    Gles20,
    Gles30,
    Gles31,
    Gles32,
    Metal,
}

/// Audio output backend; the order is that of its dropdown.
#[derive(Clone, Copy, PartialEq, Eq, Structural, Debug)]
pub enum AudioBackend {
    Default,
    CoreAudio,
    OpenSlEs,
    AAudio,
}

/// Graphics API used to run the game.
#[derive(Clone, Copy, PartialEq, Eq, Structural, Debug)]
pub enum GraphicsApi {
    Default,
    Translator,
    TranslatorGLES30,
    GLES10,
    GLES11,
    GLES20,
    GLES30,
    Wgpu,
    Vulkan,
    Software,
    Metal,
}

/// Where PVRTC textures are decoded.
#[derive(Clone, Copy, PartialEq, Eq, Structural, Debug)]
pub enum PvrtcDecoding {
    Software,
    Auto,
    Driver,
}

/// How 64-bit ARM code is run.
#[derive(Clone, Copy, PartialEq, Eq, Structural, Debug)]
pub enum Arm64Backend {
    Interpreter,
    Jit,
}

/// What runs 64-bit ARM code that the JIT cannot.
#[derive(Clone, Copy, PartialEq, Eq, Structural, Debug)]
pub enum Arm64Fallback {
    Interpreter,
    Jit,
}

/// Extra rotation applied to the rendered picture.
#[derive(Clone, Copy, PartialEq, Eq, Structural, Debug)]
pub enum RenderRotation {
    Default,
    Minus90,
    Minus180,
    Plus90,
    Plus180,
}

/// A device orientation that the picker can force.
#[derive(Clone, Copy, PartialEq, Eq, Structural, Debug)]
pub enum Orientation {
    LandscapeLeft,
    LandscapeRight,
    PortraitUpsideDown,
}

/// The resolution scale factors offered by the picker: 1, 0.5, 0.75, 2, 3
/// and 4.
#[derive(Clone, Copy, PartialEq, Eq, Structural, Debug)]
pub enum ScaleHack {
    One,
    Half,
    ThreeQuarters,
    Two,
    Three,
    Four,
}

/// The frame rate limits offered by the picker: 30, 60 and 120 frames per
/// second.
#[derive(Clone, Copy, PartialEq, Eq, Structural, Debug)]
pub enum FpsLimit {
    Fps30,
    Fps60,
    Fps120,
}

// ---------------------------------------------------------------------------
// Dropdown tags: a dropdown entry's tag is its index; a tag out of range
// selects the default value.

/// The texture filtering mode that dropdown tag `tag` selects.
pub open spec fn texture_filtering_of_tag(tag: int) -> TextureFiltering {
    if tag == 1 {
        TextureFiltering::Bilinear
    } else if tag == 2 {
        TextureFiltering::Trilinear
    } else if tag == 3 {
        TextureFiltering::Anisotropic
    } else {
        TextureFiltering::Default
    }
}

/// The memory management mode that dropdown tag `tag` selects ("balanced"
/// when the tag is out of range).
pub open spec fn memory_management_of_tag(tag: int) -> MemoryManagement {
    if tag == 0 {
        MemoryManagement::Light
    } else if tag == 2 {
        MemoryManagement::Aggressive
    } else {
        MemoryManagement::Balanced
    }
}

/// The OpenGL ES override that dropdown tag `tag` selects.
pub open spec fn gles_override_of_tag(tag: int) -> GlesOverrideVersion {
    if tag == 1 {
        GlesOverrideVersion::Gles10
    } else if tag == 2 {
        GlesOverrideVersion::Gles11
    } else if tag == 3 {
        GlesOverrideVersion::Gles20
    } else if tag == 4 {
        GlesOverrideVersion::Gles30
    } else if tag == 5 {
        GlesOverrideVersion::Gles31
    } else if tag == 6 {
        GlesOverrideVersion::Gles32
    } else if tag == 7 {
        GlesOverrideVersion::Metal
    } else {
        GlesOverrideVersion::Default
    }
}

/// The audio backend that dropdown tag `tag` selects.
pub open spec fn audio_backend_of_tag(tag: int) -> AudioBackend {
    if tag == 1 {
        AudioBackend::CoreAudio
    } else if tag == 2 {
        AudioBackend::OpenSlEs
    } else if tag == 3 {
        AudioBackend::AAudio
    } else {
        AudioBackend::Default
    }
}

/// The graphics API that dropdown tag `tag` selects. The dropdown lists six
/// choices: default, the two translators, WGPU, Vulkan and software
/// rendering.
pub open spec fn graphics_api_of_tag(tag: int) -> GraphicsApi {
    if tag == 1 {
        GraphicsApi::Translator
    } else if tag == 2 {
        GraphicsApi::TranslatorGLES30
    } else if tag == 3 {
        GraphicsApi::Wgpu
    } else if tag == 4 {
        GraphicsApi::Vulkan
    } else if tag == 5 {
        GraphicsApi::Software
    } else {
        GraphicsApi::Default
    }
}

/// The texture filtering mode that a dropdown tag selects.
pub fn texture_filtering_for_tag(tag: i64) -> (r: TextureFiltering)
    ensures
        r == texture_filtering_of_tag(tag as int),
{
    if tag == 1 {
        TextureFiltering::Bilinear
    } else if tag == 2 {
        TextureFiltering::Trilinear
    } else if tag == 3 {
        TextureFiltering::Anisotropic
    } else {
        TextureFiltering::Default
    }
}

/// The memory management mode that a dropdown tag selects.
pub fn memory_management_for_tag(tag: i64) -> (r: MemoryManagement)
    ensures
        r == memory_management_of_tag(tag as int),
{
    if tag == 0 {
        MemoryManagement::Light
    } else if tag == 2 {
        MemoryManagement::Aggressive
    } else {
        MemoryManagement::Balanced
    }
}

/// The OpenGL ES override that a dropdown tag selects.
pub fn gles_override_for_tag(tag: i64) -> (r: GlesOverrideVersion)
    ensures
        r == gles_override_of_tag(tag as int),
{
    if tag == 1 {
        GlesOverrideVersion::Gles10
    } else if tag == 2 {
        GlesOverrideVersion::Gles11
    } else if tag == 3 {
        GlesOverrideVersion::Gles20
    } else if tag == 4 {
        GlesOverrideVersion::Gles30
    } else if tag == 5 {
        GlesOverrideVersion::Gles31
    } else if tag == 6 {
        GlesOverrideVersion::Gles32
    } else if tag == 7 {
        GlesOverrideVersion::Metal
    } else {
        GlesOverrideVersion::Default
    }
}

/// The audio backend that a dropdown tag selects.
pub fn audio_backend_for_tag(tag: i64) -> (r: AudioBackend)
    ensures
        r == audio_backend_of_tag(tag as int),
{
    if tag == 1 {
        AudioBackend::CoreAudio
    } else if tag == 2 {
        AudioBackend::OpenSlEs
    } else if tag == 3 {
        AudioBackend::AAudio
    } else {
        AudioBackend::Default
    }
}

/// The graphics API that a dropdown tag selects.
pub fn graphics_api_for_tag(tag: i64) -> (r: GraphicsApi)
    ensures
        r == graphics_api_of_tag(tag as int),
{
    if tag == 1 {
        GraphicsApi::Translator
    } else if tag == 2 {
        GraphicsApi::TranslatorGLES30
    } else if tag == 3 {
        GraphicsApi::Wgpu
    } else if tag == 4 {
        GraphicsApi::Vulkan
    } else if tag == 5 {
        GraphicsApi::Software
    } else {
        GraphicsApi::Default
    }
}

// ---------------------------------------------------------------------------
// Names: the text of a value's dropdown entry, and the name that stands for
// the value in a command-line option.

/// The dropdown entry of a texture filtering mode; it is also the mode's
/// name on the command line.
pub open spec fn texture_filtering_text(v: TextureFiltering) -> Seq<char> {
    match v {
        TextureFiltering::Default => "default"@,
        TextureFiltering::Bilinear => "bilinear"@,
        TextureFiltering::Trilinear => "trilinear"@,
        TextureFiltering::Anisotropic => "anisotropic"@,
    }
}

/// The dropdown entry of a memory management mode; it is also the mode's
/// name on the command line.
pub open spec fn memory_management_text(v: MemoryManagement) -> Seq<char> {
    match v {
        MemoryManagement::Light => "light"@,
        MemoryManagement::Balanced => "balanced"@,
        MemoryManagement::Aggressive => "aggressive"@,
    }
}

/// The dropdown entry of an OpenGL ES override; it is also the override's
/// name on the command line.
pub open spec fn gles_override_text(v: GlesOverrideVersion) -> Seq<char> {
    match v {
        GlesOverrideVersion::Default => "default"@,
        GlesOverrideVersion::Gles10 => "gles1.0"@,
        GlesOverrideVersion::Gles11 => "gles1.1"@,
        GlesOverrideVersion::Gles20 => "gles2"@,
        GlesOverrideVersion::Gles30 => "3.0"@,
        GlesOverrideVersion::Gles31 => "3.1"@,
        GlesOverrideVersion::Gles32 => "3.2"@,
        GlesOverrideVersion::Metal => "Metal"@,
    }
}

/// The dropdown entry of an audio backend.
pub open spec fn audio_backend_text(v: AudioBackend) -> Seq<char> {
    match v {
        AudioBackend::Default => "default"@,
        AudioBackend::CoreAudio => "Core audio"@,
        AudioBackend::OpenSlEs => "OpenSL ES"@,
        AudioBackend::AAudio => "AAudio"@,
    }
}

/// The driver name of an audio backend on the command line.
pub open spec fn audio_backend_driver_name(v: AudioBackend) -> Seq<char> {
    match v {
        AudioBackend::Default => "default"@,
        AudioBackend::CoreAudio => "coreaudio"@,
        AudioBackend::OpenSlEs => "opensles"@,
        AudioBackend::AAudio => "aaudio"@,
    }
}

/// The name of a graphics API on the command line; the default has none, as
/// it is never written out.
pub open spec fn graphics_api_name(v: GraphicsApi) -> Seq<char> {
    match v {
        GraphicsApi::Default => Seq::empty(),
        GraphicsApi::Translator => "translator"@,
        GraphicsApi::TranslatorGLES30 => "translator-gles3"@,
        GraphicsApi::GLES10 => "gles1.0"@,
        GraphicsApi::GLES11 => "gles1.1"@,
        GraphicsApi::GLES20 => "gles2.0"@,
        GraphicsApi::GLES30 => "gles3.0"@,
        GraphicsApi::Wgpu => "wgpu"@,
        GraphicsApi::Vulkan => "vulkan"@,
        GraphicsApi::Software => "software"@,
        GraphicsApi::Metal => "metal"@,
    }
}

/// The name of a PVRTC decoding mode on the command line.
pub open spec fn pvrtc_decoding_name(v: PvrtcDecoding) -> Seq<char> {
    match v {
        PvrtcDecoding::Software => "software"@,
        PvrtcDecoding::Auto => "auto"@,
        PvrtcDecoding::Driver => "driver"@,
    }
}

/// The name of a 64-bit ARM backend on the command line.
pub open spec fn arm64_backend_name(v: Arm64Backend) -> Seq<char> {
    match v {
        Arm64Backend::Interpreter => "interpreter"@,
        Arm64Backend::Jit => "jit"@,
    }
}

/// The name of a 64-bit ARM fallback on the command line.
pub open spec fn arm64_fallback_name(v: Arm64Fallback) -> Seq<char> {
    match v {
        Arm64Fallback::Interpreter => "interpreter"@,
        Arm64Fallback::Jit => "jit"@,
    }
}

/// The name of a render rotation on the command line.
pub open spec fn render_rotation_name(v: RenderRotation) -> Seq<char> {
    match v {
        RenderRotation::Default => "default"@,
        RenderRotation::Minus90 => "minus90"@,
        RenderRotation::Minus180 => "minus180"@,
        RenderRotation::Plus90 => "plus90"@,
        RenderRotation::Plus180 => "plus180"@,
    }
}

/// The command-line option that forces an orientation.
pub open spec fn orientation_option(v: Orientation) -> Seq<char> {
    match v {
        Orientation::LandscapeLeft => "--landscape-left"@,
        Orientation::LandscapeRight => "--landscape-right"@,
        Orientation::PortraitUpsideDown => "--upside-down"@,
    }
}

/// A scale factor as a number is written: "1", "0.5", "0.75", "2", "3" or "4".
pub open spec fn scale_hack_text(v: ScaleHack) -> Seq<char> {
    match v {
        ScaleHack::One => "1"@,
        ScaleHack::Half => "0.5"@,
        ScaleHack::ThreeQuarters => "0.75"@,
        ScaleHack::Two => "2"@,
        ScaleHack::Three => "3"@,
        ScaleHack::Four => "4"@,
    }
}

/// A frame rate limit as a number is written: "30", "60" or "120".
pub open spec fn fps_limit_text(v: FpsLimit) -> Seq<char> {
    match v {
        FpsLimit::Fps30 => "30"@,
        FpsLimit::Fps60 => "60"@,
        FpsLimit::Fps120 => "120"@,
    }
}

/// The dropdown entry of a texture filtering mode.
pub fn texture_filtering_label(v: TextureFiltering) -> (r: &'static str)
    ensures
        r@ == texture_filtering_text(v),
{
    match v {
        TextureFiltering::Default => "default",
        TextureFiltering::Bilinear => "bilinear",
        TextureFiltering::Trilinear => "trilinear",
        TextureFiltering::Anisotropic => "anisotropic",
    }
}

/// The dropdown entry of a memory management mode.
pub fn memory_management_label(v: MemoryManagement) -> (r: &'static str)
    ensures
        r@ == memory_management_text(v),
{
    match v {
        MemoryManagement::Light => "light",
        MemoryManagement::Balanced => "balanced",
        MemoryManagement::Aggressive => "aggressive",
    }
}

/// The dropdown entry of an OpenGL ES override.
pub fn gles_override_label(v: GlesOverrideVersion) -> (r: &'static str)
    ensures
        r@ == gles_override_text(v),
{
    match v {
        GlesOverrideVersion::Default => "default",
        GlesOverrideVersion::Gles10 => "gles1.0",
        GlesOverrideVersion::Gles11 => "gles1.1",
        GlesOverrideVersion::Gles20 => "gles2",
        GlesOverrideVersion::Gles30 => "3.0",
        GlesOverrideVersion::Gles31 => "3.1",
        GlesOverrideVersion::Gles32 => "3.2",
        GlesOverrideVersion::Metal => "Metal",
    }
}

/// The dropdown entry of an audio backend.
pub fn audio_backend_label(v: AudioBackend) -> (r: &'static str)
    ensures
        r@ == audio_backend_text(v),
{
    match v {
        AudioBackend::Default => "default",
        AudioBackend::CoreAudio => "Core audio",
        AudioBackend::OpenSlEs => "OpenSL ES",
        AudioBackend::AAudio => "AAudio",
    }
}

/// The driver name of an audio backend.
pub fn audio_backend_driver(v: AudioBackend) -> (r: &'static str)
    ensures
        r@ == audio_backend_driver_name(v),
{
    match v {
        AudioBackend::Default => "default",
        AudioBackend::CoreAudio => "coreaudio",
        AudioBackend::OpenSlEs => "opensles",
        AudioBackend::AAudio => "aaudio",
    }
}

/// The command-line name of a graphics API.
pub fn graphics_api_option_name(v: GraphicsApi) -> (r: &'static str)
    ensures
        r@ == graphics_api_name(v),
{
    proof {
        reveal_strlit("");
    }
    match v {
        GraphicsApi::Default => "",
        GraphicsApi::Translator => "translator",
        GraphicsApi::TranslatorGLES30 => "translator-gles3",
        GraphicsApi::GLES10 => "gles1.0",
        GraphicsApi::GLES11 => "gles1.1",
        GraphicsApi::GLES20 => "gles2.0",
        GraphicsApi::GLES30 => "gles3.0",
        GraphicsApi::Wgpu => "wgpu",
        GraphicsApi::Vulkan => "vulkan",
        GraphicsApi::Software => "software",
        GraphicsApi::Metal => "metal",
    }
}

/// The command-line name of a PVRTC decoding mode.
pub fn pvrtc_decoding_short_name(v: PvrtcDecoding) -> (r: &'static str)
    ensures
        r@ == pvrtc_decoding_name(v),
{
    match v {
        PvrtcDecoding::Software => "software",
        PvrtcDecoding::Auto => "auto",
        PvrtcDecoding::Driver => "driver",
    }
}

/// The command-line name of a 64-bit ARM backend.
pub fn arm64_backend_label(v: Arm64Backend) -> (r: &'static str)
    ensures
        r@ == arm64_backend_name(v),
{
    match v {
        Arm64Backend::Interpreter => "interpreter",
        Arm64Backend::Jit => "jit",
    }
}

/// The command-line name of a 64-bit ARM fallback.
pub fn arm64_fallback_label(v: Arm64Fallback) -> (r: &'static str)
    ensures
        r@ == arm64_fallback_name(v),
{
    match v {
        Arm64Fallback::Interpreter => "interpreter",
        Arm64Fallback::Jit => "jit",
    }
}

/// The command-line name of a render rotation.
pub fn render_rotation_label(v: RenderRotation) -> (r: &'static str)
    ensures
        r@ == render_rotation_name(v),
{
    match v {
        RenderRotation::Default => "default",
        RenderRotation::Minus90 => "minus90",
        RenderRotation::Minus180 => "minus180",
        RenderRotation::Plus90 => "plus90",
        RenderRotation::Plus180 => "plus180",
    }
}

/// The command-line option that forces an orientation.
pub fn orientation_flag(v: Orientation) -> (r: &'static str)
    ensures
        r@ == orientation_option(v),
{
    match v {
        Orientation::LandscapeLeft => "--landscape-left",
        Orientation::LandscapeRight => "--landscape-right",
        Orientation::PortraitUpsideDown => "--upside-down",
    }
}

/// A scale factor written as a number.
pub fn scale_hack_label(v: ScaleHack) -> (r: &'static str)
    ensures
        r@ == scale_hack_text(v),
{
    match v {
        ScaleHack::One => "1",
        ScaleHack::Half => "0.5",
        ScaleHack::ThreeQuarters => "0.75",
        ScaleHack::Two => "2",
        ScaleHack::Three => "3",
        ScaleHack::Four => "4",
    }
}

/// A frame rate limit written as a number.
pub fn fps_limit_label(v: FpsLimit) -> (r: &'static str)
    ensures
        r@ == fps_limit_text(v),
{
    match v {
        FpsLimit::Fps30 => "30",
        FpsLimit::Fps60 => "60",
        FpsLimit::Fps120 => "120",
    }
}

// ---------------------------------------------------------------------------
// Which button or dropdown entry shows a value as selected.

/// The dropdown entry of a texture filtering mode.
pub open spec fn texture_filtering_entry(v: TextureFiltering) -> int {
    match v {
        TextureFiltering::Default => 0,
        TextureFiltering::Bilinear => 1,
        TextureFiltering::Trilinear => 2,
        TextureFiltering::Anisotropic => 3,
    }
}

/// The dropdown entry of a memory management mode.
pub open spec fn memory_management_entry(v: MemoryManagement) -> int {
    match v {
        MemoryManagement::Light => 0,
        MemoryManagement::Balanced => 1,
        MemoryManagement::Aggressive => 2,
    }
}

/// The dropdown entry of an OpenGL ES override.
pub open spec fn gles_override_entry(v: GlesOverrideVersion) -> int {
    match v {
        GlesOverrideVersion::Default => 0,
        GlesOverrideVersion::Gles10 => 1,
        GlesOverrideVersion::Gles11 => 2,
        GlesOverrideVersion::Gles20 => 3,
        GlesOverrideVersion::Gles30 => 4,
        GlesOverrideVersion::Gles31 => 5,
        GlesOverrideVersion::Gles32 => 6,
        GlesOverrideVersion::Metal => 7,
    }
}

/// The dropdown entry of an audio backend.
pub open spec fn audio_backend_entry(v: AudioBackend) -> int {
    match v {
        AudioBackend::Default => 0,
        AudioBackend::CoreAudio => 1,
        AudioBackend::OpenSlEs => 2,
        AudioBackend::AAudio => 3,
    }
}

/// The dropdown entry of a texture filtering mode.
pub fn texture_filtering_index(v: TextureFiltering) -> (r: usize)
    ensures
        r == texture_filtering_entry(v),
{
    match v {
        TextureFiltering::Default => 0,
        TextureFiltering::Bilinear => 1,
        TextureFiltering::Trilinear => 2,
        TextureFiltering::Anisotropic => 3,
    }
}

/// The dropdown entry of a memory management mode.
pub fn memory_management_index(v: MemoryManagement) -> (r: usize)
    ensures
        r == memory_management_entry(v),
{
    match v {
        MemoryManagement::Light => 0,
        MemoryManagement::Balanced => 1,
        MemoryManagement::Aggressive => 2,
    }
}

/// The dropdown entry of an OpenGL ES override.
pub fn gles_override_index(v: GlesOverrideVersion) -> (r: usize)
    ensures
        r == gles_override_entry(v),
{
    match v {
        GlesOverrideVersion::Default => 0,
        GlesOverrideVersion::Gles10 => 1,
        GlesOverrideVersion::Gles11 => 2,
        GlesOverrideVersion::Gles20 => 3,
        GlesOverrideVersion::Gles30 => 4,
        GlesOverrideVersion::Gles31 => 5,
        GlesOverrideVersion::Gles32 => 6,
        GlesOverrideVersion::Metal => 7,
    }
}

/// The dropdown entry of an audio backend.
pub fn audio_backend_index(v: AudioBackend) -> (r: usize)
    ensures
        r == audio_backend_entry(v),
{
    match v {
        AudioBackend::Default => 0,
        AudioBackend::CoreAudio => 1,
        AudioBackend::OpenSlEs => 2,
        AudioBackend::AAudio => 3,
    }
}

/// Picking a dropdown entry selects the value that the dropdown then shows
/// at that entry, and the entry of every value picks that value back.
pub proof fn lemma_dropdown_entries_roundtrip(tag: int)
    ensures
        0 <= tag < 4 ==> texture_filtering_entry(texture_filtering_of_tag(tag)) == tag,
        0 <= tag < 3 ==> memory_management_entry(memory_management_of_tag(tag)) == tag,
        0 <= tag < 8 ==> gles_override_entry(gles_override_of_tag(tag)) == tag,
        0 <= tag < 4 ==> audio_backend_entry(audio_backend_of_tag(tag)) == tag,
        forall|v: TextureFiltering| texture_filtering_of_tag(#[trigger] texture_filtering_entry(v)) == v,
        forall|v: MemoryManagement| memory_management_of_tag(#[trigger] memory_management_entry(v)) == v,
        forall|v: GlesOverrideVersion| gles_override_of_tag(#[trigger] gles_override_entry(v)) == v,
        forall|v: AudioBackend| audio_backend_of_tag(#[trigger] audio_backend_entry(v)) == v,
{
}

/// The scale factor button that shows as selected: 0 for the default, then
/// 1, 0.5, 0.75, 2, 3 and 4 in that order.
pub fn scale_hack_button(v: Option<ScaleHack>) -> (r: usize)
    ensures
        r == match v {
            None => 0usize,
            Some(ScaleHack::One) => 1,
            Some(ScaleHack::Half) => 2,
            Some(ScaleHack::ThreeQuarters) => 3,
            Some(ScaleHack::Two) => 4,
            Some(ScaleHack::Three) => 5,
            Some(ScaleHack::Four) => 6,
        },
{
    match v {
        None => 0,
        Some(ScaleHack::One) => 1,
        Some(ScaleHack::Half) => 2,
        Some(ScaleHack::ThreeQuarters) => 3,
        Some(ScaleHack::Two) => 4,
        Some(ScaleHack::Three) => 5,
        Some(ScaleHack::Four) => 6,
    }
}

/// The frame rate limit button that shows as selected: 0 for no limit, then
/// 30, 60 and 120.
pub fn fps_limit_button(v: Option<FpsLimit>) -> (r: usize)
    ensures
        r == match v {
            None => 0usize,
            Some(FpsLimit::Fps30) => 1,
            Some(FpsLimit::Fps60) => 2,
            Some(FpsLimit::Fps120) => 3,
        },
{
    match v {
        None => 0,
        Some(FpsLimit::Fps30) => 1,
        Some(FpsLimit::Fps60) => 2,
        Some(FpsLimit::Fps120) => 3,
    }
}

/// The render rotation button that shows as selected: 0 for the default,
/// then -90, -180, +90 and +180 degrees.
pub fn render_rotation_button(v: Option<RenderRotation>) -> (r: usize)
    ensures
        r == match v {
            None => 0usize,
            Some(RenderRotation::Default) => 0,
            Some(RenderRotation::Minus90) => 1,
            Some(RenderRotation::Minus180) => 2,
            Some(RenderRotation::Plus90) => 3,
            Some(RenderRotation::Plus180) => 4,
        },
{
    match v {
        None => 0,
        Some(RenderRotation::Default) => 0,
        Some(RenderRotation::Minus90) => 1,
        Some(RenderRotation::Minus180) => 2,
        Some(RenderRotation::Plus90) => 3,
        Some(RenderRotation::Plus180) => 4,
    }
}

/// The orientation button that shows as selected: 0 for the default, then
/// landscape left, landscape right and upside down.
pub fn orientation_button(v: Option<Orientation>) -> (r: usize)
    ensures
        r == match v {
            None => 0usize,
            Some(Orientation::LandscapeLeft) => 1,
            Some(Orientation::LandscapeRight) => 2,
            Some(Orientation::PortraitUpsideDown) => 3,
        },
{
    match v {
        None => 0,
        Some(Orientation::LandscapeLeft) => 1,
        Some(Orientation::LandscapeRight) => 2,
        Some(Orientation::PortraitUpsideDown) => 3,
    }
}

/// The PVRTC decoding button that shows as selected: software, automatic,
/// driver.
pub fn pvrtc_decoding_button(v: PvrtcDecoding) -> (r: usize)
    ensures
        r == match v {
            PvrtcDecoding::Software => 0usize,
            PvrtcDecoding::Auto => 1,
            PvrtcDecoding::Driver => 2,
        },
{
    match v {
        PvrtcDecoding::Software => 0,
        PvrtcDecoding::Auto => 1,
        PvrtcDecoding::Driver => 2,
    }
}

/// The button of a row of quality choices that shows as selected: the first
/// that offers `value`, or the first button when none does.
pub fn quality_button(choices: &[u8], value: u8) -> (r: usize)
    ensures
        (exists|i: int| 0 <= i < choices@.len() && choices@[i] == value) ==> {
            &&& r < choices@.len()
            &&& choices@[r as int] == value
            &&& forall|j: int| 0 <= j < r ==> choices@[j] != value
        },
        !(exists|i: int| 0 <= i < choices@.len() && choices@[i] == value) ==> r == 0,
{
    let mut i: usize = 0;
    while i < choices.len()
        invariant
            i <= choices@.len(),
            forall|j: int| 0 <= j < i ==> choices@[j] != value,
        decreases choices@.len() - i,
    {
        if choices[i] == value {
            return i;
        }
        i = i + 1;
    }
    0
}

/// The choices of the anisotropic filtering row.
pub const ANISOTROPIC_FILTERING_CHOICES: [u8; 5] = [1, 2, 4, 8, 16];

/// The choices of the anti-aliasing row.
pub const ANTI_ALIASING_CHOICES: [u8; 4] = [1, 2, 4, 8];

/// The choices of the texture upscaler row.
pub const TEXTURE_UPSCALER_CHOICES: [u8; 4] = [1, 2, 3, 4];

/// The graphics APIs that the dropdown lists, in order.
pub open spec fn graphics_api_entries() -> Seq<GraphicsApi> {
    seq![
        GraphicsApi::Default,
        GraphicsApi::Translator,
        GraphicsApi::TranslatorGLES30,
        GraphicsApi::Wgpu,
        GraphicsApi::Vulkan,
        GraphicsApi::Software,
    ]
}

/// Whether dropdown entry `index` of the graphics API dropdown shows as
/// selected for `value`: the entry lists it.
pub fn graphics_api_entry_selected(index: usize, value: GraphicsApi) -> (r: bool)
    ensures
        r == (index < 6 && graphics_api_entries()[index as int] == value),
{
    index < 6 && graphics_api_for_tag(index as i64) == value
}

} // verus!
