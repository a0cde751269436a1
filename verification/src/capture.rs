use vstd::prelude::*;
use vstd::arithmetic::div_mod::*;
use vstd::arithmetic::mul::*;

verus! {

/// A camera frame ready for display: its size, the capture timestamp that the
/// native side wrote, and the converted pixels, four bytes per pixel.
#[derive(Clone)]
pub struct CameraFrame {
    pub width: u32,
    pub height: u32,
    pub timestamp: u64,
    pub rgba: Vec<u8>,
}

/// The byte at `i` of the NV21 payload, or 128 (a neutral chroma value) when
/// the payload is too short to hold it.
pub open spec fn byte_or_neutral(nv21: Seq<u8>, i: int) -> int {
    if 0 <= i < nv21.len() {
        nv21[i] as int
    } else {
        128
    }
}

/// Integer division by 256 rounding toward zero, as Rust's `/` on `i32` does.
pub open spec fn div256_toward_zero(x: int) -> int {
    if x >= 0 {
        x / 256
    } else {
        -((-x) / 256)
    }
}

/// `x` clamped to the range of a byte.
pub open spec fn clamp_to_byte(x: int) -> u8 {
    if x < 0 {
        0
    } else if x > 255 {
        255
    } else {
        x as u8
    }
}

/// The luma term of the pixel at column `x`, row `y`: the Y sample less 16,
/// and never below 0.
pub open spec fn luma_term(nv21: Seq<u8>, width: int, x: int, y: int) -> int {
    let y_value = nv21[y * width + x] as int;
    if y_value - 16 > 0 {
        y_value - 16
    } else {
        0
    }
}

/// Index of the V sample shared by the 2x2 block that holds pixel (`x`, `y`):
/// the interleaved VU plane starts after the `width * height` Y samples.
pub open spec fn chroma_index(width: int, height: int, x: int, y: int) -> int {
    width * height + (y / 2) * width + (x - x % 2)
}

/// The V sample of pixel (`x`, `y`), centred on zero.
pub open spec fn chroma_v(nv21: Seq<u8>, width: int, height: int, x: int, y: int) -> int {
    byte_or_neutral(nv21, chroma_index(width, height, x, y)) - 128
}

/// The U sample of pixel (`x`, `y`), centred on zero.
pub open spec fn chroma_u(nv21: Seq<u8>, width: int, height: int, x: int, y: int) -> int {
    byte_or_neutral(nv21, chroma_index(width, height, x, y) + 1) - 128
}

/// Red channel of pixel (`x`, `y`) by the BT.601 integer formula.
pub open spec fn red_of(nv21: Seq<u8>, width: int, height: int, x: int, y: int) -> u8 {
    let c = luma_term(nv21, width, x, y);
    let v = chroma_v(nv21, width, height, x, y);
    clamp_to_byte(div256_toward_zero(298 * c + 409 * v + 128))
}

/// Green channel of pixel (`x`, `y`) by the BT.601 integer formula.
pub open spec fn green_of(nv21: Seq<u8>, width: int, height: int, x: int, y: int) -> u8 {
    let c = luma_term(nv21, width, x, y);
    let v = chroma_v(nv21, width, height, x, y);
    let u = chroma_u(nv21, width, height, x, y);
    clamp_to_byte(div256_toward_zero(298 * c - 100 * u - 208 * v + 128))
}

/// Blue channel of pixel (`x`, `y`) by the BT.601 integer formula.
pub open spec fn blue_of(nv21: Seq<u8>, width: int, height: int, x: int, y: int) -> u8 {
    let c = luma_term(nv21, width, x, y);
    let u = chroma_u(nv21, width, height, x, y);
    clamp_to_byte(div256_toward_zero(298 * c + 516 * u + 128))
}

/// Byte `k` (0 to 3) of the output for pixel (`x`, `y`): blue, green, red,
/// then an opaque alpha of 255.
pub open spec fn pixel_byte(nv21: Seq<u8>, width: int, height: int, x: int, y: int, k: int) -> u8 {
    if k == 0 {
        blue_of(nv21, width, height, x, y)
    } else if k == 1 {
        green_of(nv21, width, height, x, y)
    } else if k == 2 {
        red_of(nv21, width, height, x, y)
    } else {
        255
    }
}

/// Byte `i` of the converted frame: pixels are laid out row by row, four
/// bytes each.
pub open spec fn converted_byte(nv21: Seq<u8>, width: int, height: int, i: int) -> u8 {
    let p = i / 4;
    pixel_byte(nv21, width, height, p % width, p / width, i % 4)
}

/// One channel from the numerator of its formula: divided by 256 toward zero,
/// then clamped to a byte.
fn channel_from(numerator: i32) -> (r: u8)
    ensures
        r == clamp_to_byte(div256_toward_zero(numerator as int)),
{
    if numerator < 0 {
        0
    } else {
        let q = numerator / 256;
        if q > 255 {
            255
        } else {
            q as u8
        }
    }
}

/// The sample at `i`, or 128 when `i` is past the end of the payload.
fn sample_or_neutral(nv21: &[u8], i: usize) -> (r: i32)
    ensures
        r as int == byte_or_neutral(nv21@, i as int),
{
    if i < nv21.len() {
        nv21[i] as i32
    } else {
        128
    }
}

proof fn lemma_pixel_position(p: int, width: int, x: int, y: int)
    requires
        width > 0,
        0 <= x < width,
        0 <= y,
        p == y * width + x,
    ensures
        p % width == x,
        p / width == y,
{
    lemma_fundamental_div_mod_converse(p, width, y, x);
}

proof fn lemma_output_position(p: int, k: int)
    requires
        0 <= p,
        0 <= k < 4,
    ensures
        (4 * p + k) / 4 == p,
        (4 * p + k) % 4 == k,
{
    lemma_fundamental_div_mod_converse(4 * p + k, 4, p, k);
}

/// Converts an NV21 camera frame (a full-resolution Y plane followed by an
/// interleaved, half-resolution VU plane) into 32-bit pixels, four bytes per
/// pixel in blue, green, red, alpha order. Chroma samples that the payload is
/// too short to hold are read as 128.
pub fn nv21_to_rgba(width: u32, height: u32, nv21: &[u8]) -> (rgba: Vec<u8>)
    requires
        width as int * height as int <= nv21@.len(),
        4 * (width as int * height as int) <= usize::MAX,
    ensures
        rgba@.len() == 4 * (width as int * height as int),
        forall|i: int|
            0 <= i < rgba@.len() ==> #[trigger] rgba@[i] == converted_byte(
                nv21@,
                width as int,
                height as int,
                i,
            ),
{
    let w = width as usize;
    let h = height as usize;
    let ghost wi = w as int;
    let ghost hi = h as int;
    proof {
        lemma_mul_nonnegative(wi, hi);
    }
    let frame_size = w * h;
    let mut rgba: Vec<u8> = Vec::new();
    let mut y: usize = 0;
    let mut row_start: usize = 0;
    let mut uv_row: usize = 0;
    while y < h
        invariant
            w == width as usize,
            h == height as usize,
            wi == w as int,
            hi == h as int,
            frame_size as int == wi * hi,
            wi * hi <= nv21@.len(),
            4 * (wi * hi) <= usize::MAX,
            y <= h,
            row_start as int == y as int * wi,
            uv_row as int == (y as int / 2) * wi,
            rgba@.len() == 4 * row_start as int,
            forall|i: int|
                0 <= i < rgba@.len() ==> #[trigger] rgba@[i] == converted_byte(nv21@, wi, hi, i),
        decreases h - y,
    {
        proof {
            lemma_mul_inequality(y as int, hi - 1, wi);
            lemma_mul_is_distributive_sub(wi, hi, 1);
            lemma_mul_is_commutative(wi, hi - 1);
            lemma_mul_is_commutative(wi, hi);
            lemma_div_is_ordered(y as int, hi, 2);
            lemma_mul_inequality(y as int / 2, y as int, wi);
        }
        let mut x: usize = 0;
        while x < w
            invariant
                w == width as usize,
                h == height as usize,
                wi == w as int,
                hi == h as int,
                frame_size as int == wi * hi,
                wi * hi <= nv21@.len(),
                4 * (wi * hi) <= usize::MAX,
                y < h,
                x <= w,
                row_start as int == y as int * wi,
                row_start as int + wi <= wi * hi,
                uv_row as int == (y as int / 2) * wi,
                uv_row <= row_start,
                rgba@.len() == 4 * (row_start as int + x as int),
                forall|i: int|
                    0 <= i < rgba@.len() ==> #[trigger] rgba@[i] == converted_byte(
                        nv21@,
                        wi,
                        hi,
                        i,
                    ),
            decreases w - x,
        {
            let p = row_start + x;
            let y_value = nv21[p] as i32;
            let uv_index = frame_size + uv_row + (x - x % 2);
            let v = sample_or_neutral(nv21, uv_index) - 128;
            let u = sample_or_neutral(nv21, uv_index + 1) - 128;
            let c = if y_value - 16 > 0 {
                y_value - 16
            } else {
                0
            };
            let r = channel_from(298 * c + 409 * v + 128);
            let g = channel_from(298 * c - 100 * u - 208 * v + 128);
            let b = channel_from(298 * c + 516 * u + 128);
            proof {
                lemma_pixel_position(p as int, wi, x as int, y as int);
                assert(chroma_index(wi, hi, x as int, y as int) == uv_index as int);
                assert(luma_term(nv21@, wi, x as int, y as int) == c as int);
                lemma_output_position(p as int, 0);
                lemma_output_position(p as int, 1);
                lemma_output_position(p as int, 2);
                lemma_output_position(p as int, 3);
            }
            let ghost before = rgba@;
            rgba.push(b);
            rgba.push(g);
            rgba.push(r);
            rgba.push(255u8);
            proof {
                assert forall|i: int|
                    0 <= i < rgba@.len() implies #[trigger] rgba@[i] == converted_byte(
                        nv21@,
                        wi,
                        hi,
                        i,
                    ) by {
                    if i >= before.len() {
                        let k = i - 4 * p as int;
                        assert(i == 4 * p as int + k);
                    }
                }
            }
            x = x + 1;
        }
        proof {
            lemma_mul_is_distributive_add(wi, y as int, 1);
            lemma_mul_is_commutative(wi, y as int);
            lemma_mul_is_commutative(wi, y as int + 1);
            lemma_mul_is_commutative(wi, (y as int + 1) / 2);
            lemma_mul_is_commutative(wi, y as int / 2);
            if (y as int + 1) % 2 == 0 {
                lemma_mul_is_distributive_add(wi, y as int / 2, 1);
            }
        }
        row_start = row_start + w;
        if (y + 1) % 2 == 0 {
            uv_row = uv_row + w;
        }
        y = y + 1;
    }
    proof {
        lemma_mul_is_commutative(wi, hi);
    }
    rgba
}


/// The first four bytes of a camera capture file, read as a little-endian
/// `u32`.
pub const CAMERA_MAGIC: u32 = 0x5248_4346;

/// The largest NV21 payload that a capture file may announce, in bytes.
pub const MAX_CAMERA_PAYLOAD: u32 = 16777216;

/// The size of the header at the start of a camera capture file.
pub const CAMERA_HEADER_LEN: usize = 24;

/// The little-endian `u32` stored in `bytes` at `offset`.
pub open spec fn le_u32_at(bytes: Seq<u8>, offset: int) -> int {
    bytes[offset] as int + 256 * (bytes[offset + 1] as int) + 65536 * (bytes[offset + 2] as int)
        + 16777216 * (bytes[offset + 3] as int)
}

/// The little-endian `u64` stored in `bytes` at `offset`.
pub open spec fn le_u64_at(bytes: Seq<u8>, offset: int) -> int {
    le_u32_at(bytes, offset) + 4294967296 * le_u32_at(bytes, offset + 4)
}

/// The fields of a camera capture header.
#[derive(Clone, Copy, PartialEq, Eq, Debug)]
pub struct CameraHeader {
    pub width: u32,
    pub height: u32,
    pub timestamp: u64,
    pub payload_len: u32,
}

/// What a camera capture header says about the frame that follows it.
#[derive(Clone, Copy, PartialEq, Eq, Debug)]
pub enum CameraHeaderCheck {
    /// The file does not start with the camera magic number.
    BadMagic,
    /// The frame size overflows the platform's `usize`.
    SizeOverflow,
    /// The size fields are zero, disagree with each other, or exceed the limit.
    BadDimensions,
    /// The frame is the one that was delivered last.
    Unchanged,
    /// A new frame whose payload of `payload_len` bytes can be read.
    Ready(CameraHeader),
}

/// The NV21 payload size of a `width` by `height` frame: one byte of luma
/// per pixel plus half as much chroma.
pub open spec fn nv21_len(width: int, height: int) -> int {
    (width * height * 3) / 2
}

/// The verdict on a 24-byte camera header, given the timestamp of the frame
/// delivered last.
pub open spec fn camera_header_verdict(header: Seq<u8>, last_timestamp: u64) -> CameraHeaderCheck {
    let width = le_u32_at(header, 4);
    let height = le_u32_at(header, 8);
    let timestamp = le_u64_at(header, 12);
    let payload_len = le_u32_at(header, 20);
    if le_u32_at(header, 0) != CAMERA_MAGIC as int {
        CameraHeaderCheck::BadMagic
    } else if width * height * 3 > usize::MAX {
        CameraHeaderCheck::SizeOverflow
    } else if width == 0 || height == 0 || payload_len != nv21_len(width, height)
        || payload_len > MAX_CAMERA_PAYLOAD as int {
        CameraHeaderCheck::BadDimensions
    } else if timestamp == last_timestamp as int {
        CameraHeaderCheck::Unchanged
    } else {
        CameraHeaderCheck::Ready(
            CameraHeader {
                width: width as u32,
                height: height as u32,
                timestamp: timestamp as u64,
                payload_len: payload_len as u32,
            },
        )
    }
}

/// A header that announces a frame that can be converted: non-zero sizes, a
/// payload of exactly the NV21 size, and no more than the limit.
pub open spec fn is_valid_camera_header(header: CameraHeader) -> bool {
    &&& header.width > 0
    &&& header.height > 0
    &&& header.payload_len as int == nv21_len(header.width as int, header.height as int)
    &&& header.payload_len <= MAX_CAMERA_PAYLOAD
}

fn read_le_u32(bytes: &[u8], offset: usize) -> (r: u32)
    requires
        offset + 4 <= bytes@.len(),
    ensures
        r as int == le_u32_at(bytes@, offset as int),
{
    bytes[offset] as u32 + 256 * (bytes[offset + 1] as u32) + 65536 * (bytes[offset + 2] as u32)
        + 16777216 * (bytes[offset + 3] as u32)
}

fn read_le_u64(bytes: &[u8], offset: usize) -> (r: u64)
    requires
        offset + 8 <= bytes@.len(),
        offset <= CAMERA_HEADER_LEN,
    ensures
        r as int == le_u64_at(bytes@, offset as int),
{
    let low = read_le_u32(bytes, offset) as u64;
    let high = read_le_u32(bytes, offset + 4) as u64;
    low + 4294967296 * high
}

/// Checks the 24-byte header of a camera capture file: its magic number, its
/// size fields, and whether its timestamp differs from that of the frame
/// delivered last.
pub fn check_camera_header(header: &[u8], last_timestamp: u64) -> (r: CameraHeaderCheck)
    requires
        header@.len() == CAMERA_HEADER_LEN,
    ensures
        r == camera_header_verdict(header@, last_timestamp),
        r matches CameraHeaderCheck::Ready(h) ==> is_valid_camera_header(h),
        r matches CameraHeaderCheck::Ready(h) ==> h.width as int == le_u32_at(header@, 4)
            && h.height as int == le_u32_at(header@, 8) && h.timestamp as int == le_u64_at(
            header@,
            12,
        ) && h.payload_len as int == le_u32_at(header@, 20),
{
    if read_le_u32(header, 0) != CAMERA_MAGIC {
        return CameraHeaderCheck::BadMagic;
    }
    let width = read_le_u32(header, 4);
    let height = read_le_u32(header, 8);
    let timestamp = read_le_u64(header, 12);
    let payload_len = read_le_u32(header, 20);
    let expected_len = match (width as usize).checked_mul(height as usize) {
        Some(pixels) => match pixels.checked_mul(3) {
            Some(bytes) => bytes / 2,
            None => {
                proof {
                    lemma_mul_is_commutative(width as int * height as int, 3);
                }
                return CameraHeaderCheck::SizeOverflow;
            },
        },
        None => {
            proof {
                lemma_mul_nonnegative(width as int, height as int);
                lemma_mul_inequality(1, 3, width as int * height as int);
            }
            return CameraHeaderCheck::SizeOverflow;
        },
    };
    if width == 0 || height == 0 || payload_len as usize != expected_len || payload_len
        > MAX_CAMERA_PAYLOAD {
        return CameraHeaderCheck::BadDimensions;
    }
    if timestamp == last_timestamp {
        return CameraHeaderCheck::Unchanged;
    }
    CameraHeaderCheck::Ready(CameraHeader { width, height, timestamp, payload_len })
}

/// The warning written to the log for the result of a header check: only a
/// wrong magic number and inconsistent sizes are reported.
pub fn camera_check_message(check: CameraHeaderCheck) -> (r: Option<&'static str>)
    ensures
        check is BadMagic ==> r == Some(
            "Native camera capture file has an invalid header; ignoring it",
        ),
        check is BadDimensions ==> r == Some(
            "Native camera capture file has invalid dimensions; ignoring it",
        ),
        !(check is BadMagic) && !(check is BadDimensions) ==> r is None,
{
    match check {
        CameraHeaderCheck::BadMagic => Some(
            "Native camera capture file has an invalid header; ignoring it",
        ),
        CameraHeaderCheck::BadDimensions => Some(
            "Native camera capture file has invalid dimensions; ignoring it",
        ),
        _ => None,
    }
}

/// Builds the frame for a valid header from its NV21 payload.
pub fn camera_frame_from_payload(header: CameraHeader, nv21: &[u8]) -> (frame: CameraFrame)
    requires
        is_valid_camera_header(header),
        nv21@.len() == header.payload_len,
    ensures
        frame.width == header.width,
        frame.height == header.height,
        frame.timestamp == header.timestamp,
        frame.rgba@.len() == 4 * (header.width as int * header.height as int),
        forall|i: int|
            0 <= i < frame.rgba@.len() ==> #[trigger] frame.rgba@[i] == converted_byte(
                nv21@,
                header.width as int,
                header.height as int,
                i,
            ),
{
    proof {
        lemma_mul_nonnegative(header.width as int, header.height as int);
    }
    let rgba = nv21_to_rgba(header.width, header.height, nv21);
    CameraFrame { width: header.width, height: header.height, timestamp: header.timestamp, rgba }
}

/// A frame is delivered once: when a header announces a new frame, the same
/// header read again after that frame was delivered (its timestamp being the
/// last one) is reported unchanged.
pub proof fn lemma_frame_delivered_once(header: Seq<u8>, last_timestamp: u64)
    requires
        camera_header_verdict(header, last_timestamp) is Ready,
    ensures
        camera_header_verdict(
            header,
            camera_header_verdict(header, last_timestamp)->Ready_0.timestamp,
        ) == CameraHeaderCheck::Unchanged,
{
}

proof fn lemma_div256_monotone(x: int, y: int)
    requires
        x <= y,
    ensures
        div256_toward_zero(x) <= div256_toward_zero(y),
{
    if x >= 0 {
        lemma_div_is_ordered(x, y, 256);
    } else if y >= 0 {
        lemma_div_pos_is_pos(-x, 256);
        lemma_div_pos_is_pos(y, 256);
    } else {
        lemma_div_is_ordered(-y, -x, 256);
    }
}

/// Brighter luma never darkens: when two payloads differ only in the Y sample
/// of one pixel, and the second is at least as bright there, every colour
/// channel of that pixel is at least as high in the second conversion, and
/// every other byte of the two conversions is the same.
pub proof fn lemma_brighter_luma_never_darkens(
    a: Seq<u8>,
    b: Seq<u8>,
    width: int,
    height: int,
    i: int,
    k: int,
)
    requires
        width > 0,
        height > 0,
        a.len() == b.len(),
        width * height <= a.len(),
        0 <= i < width * height,
        a[i] <= b[i],
        forall|j: int| 0 <= j < a.len() && j != i ==> a[j] == b[j],
        0 <= k < 4 * (width * height),
    ensures
        k / 4 == i && k % 4 < 3 ==> converted_byte(a, width, height, k) <= converted_byte(
            b,
            width,
            height,
            k,
        ),
        k / 4 != i ==> converted_byte(a, width, height, k) == converted_byte(b, width, height, k),
{
    let n = width * height;
    let p = k / 4;
    assert(0 <= p < n);
    let x = p % width;
    let y = p / width;
    lemma_fundamental_div_mod(p, width);
    lemma_mod_bound(p, width);
    lemma_div_pos_is_pos(p, width);
    lemma_mul_is_commutative(width, y);
    assert(y * width + x == p);
    lemma_div_pos_is_pos(y, 2);
    lemma_mul_nonnegative(y / 2, width);
    assert(0 <= x - x % 2) by {
        lemma_mod_bound(x, 2);
    }
    let ci = chroma_index(width, height, x, y);
    assert(ci >= n);
    assert(byte_or_neutral(a, ci) == byte_or_neutral(b, ci));
    assert(byte_or_neutral(a, ci + 1) == byte_or_neutral(b, ci + 1));
    if p != i {
        assert(a[y * width + x] == b[y * width + x]);
    } else {
        let ca = luma_term(a, width, x, y);
        let cb = luma_term(b, width, x, y);
        assert(ca <= cb);
        let v = chroma_v(a, width, height, x, y);
        let u = chroma_u(a, width, height, x, y);
        lemma_div256_monotone(298 * ca + 409 * v + 128, 298 * cb + 409 * v + 128);
        lemma_div256_monotone(298 * ca - 100 * u - 208 * v + 128, 298 * cb - 100 * u - 208 * v + 128);
        lemma_div256_monotone(298 * ca + 516 * u + 128, 298 * cb + 516 * u + 128);
    }
}

/// Where the V sample of pixel (`x`, `y`) lies: after the `width * height`
/// Y samples, in the chroma row `y / 2` (of `width` bytes), at the pair of
/// the 2x2 block `x / 2`; the U sample is the byte after it.
pub open spec fn block_v_index(width: int, height: int, x: int, y: int) -> int {
    width * height + (y / 2) * width + 2 * (x / 2)
}

/// One colour channel from the numerator of its BT.601 integer formula:
/// divided by 256 rounding toward zero, then clamped to 0..=255.
pub open spec fn bt601_channel(numerator: int) -> int {
    let quotient = if numerator >= 0 {
        numerator / 256
    } else {
        -((-numerator) / 256)
    };
    if quotient < 0 {
        0
    } else if quotient > 255 {
        255
    } else {
        quotient
    }
}

/// The payload byte at `i`, or 128 where the payload is too short.
pub open spec fn sample_at(nv21: Seq<u8>, i: int) -> int {
    if i < nv21.len() {
        nv21[i] as int
    } else {
        128
    }
}

/// Each pixel takes its colour from its own Y sample and from the VU pair of
/// the 2x2 block that holds it: the output bytes of pixel (`x`, `y`) are
/// blue, green and red by the BT.601 integer formula over the Y sample at
/// `y * width + x`, the V sample at `block_v_index` and the U sample right
/// after it (128 where the payload is too short), then an opaque alpha.
pub proof fn lemma_pixel_colour_from_its_samples(
    nv21: Seq<u8>,
    width: int,
    height: int,
    x: int,
    y: int,
)
    requires
        0 <= x < width,
        0 <= y < height,
        width * height <= nv21.len(),
    ensures
        ({
            let p = y * width + x;
            let luma = nv21[p] as int;
            let c = if luma > 16 { luma - 16 } else { 0 };
            let v = sample_at(nv21, block_v_index(width, height, x, y)) - 128;
            let u = sample_at(nv21, block_v_index(width, height, x, y) + 1) - 128;
            &&& converted_byte(nv21, width, height, 4 * p) as int == bt601_channel(
                298 * c + 516 * u + 128,
            )
            &&& converted_byte(nv21, width, height, 4 * p + 1) as int == bt601_channel(
                298 * c - 100 * u - 208 * v + 128,
            )
            &&& converted_byte(nv21, width, height, 4 * p + 2) as int == bt601_channel(
                298 * c + 409 * v + 128,
            )
            &&& converted_byte(nv21, width, height, 4 * p + 3) == 255
        }),
{
    let p = y * width + x;
    lemma_mul_nonnegative(y, width);
    lemma_mul_nonnegative(y / 2, width);
    lemma_pixel_position(p, width, x, y);
    lemma_output_position(p, 0);
    lemma_output_position(p, 1);
    lemma_output_position(p, 2);
    lemma_output_position(p, 3);
    lemma_fundamental_div_mod(x, 2);
    assert(chroma_index(width, height, x, y) == block_v_index(width, height, x, y));
    assert(4 * p / 4 == p && (4 * p) % 4 == 0) by {
        lemma_output_position(p, 0);
        assert(4 * p + 0 == 4 * p);
    }
}

/// A pixel's output depends on no byte but its own Y sample and its block's
/// VU pair: two payloads of one length that agree on those three bytes give
/// the same four output bytes for that pixel.
pub proof fn lemma_pixel_reads_only_its_samples(
    a: Seq<u8>,
    b: Seq<u8>,
    width: int,
    height: int,
    x: int,
    y: int,
    k: int,
)
    requires
        0 <= x < width,
        0 <= y < height,
        width * height <= a.len(),
        a.len() == b.len(),
        a[y * width + x] == b[y * width + x],
        block_v_index(width, height, x, y) < a.len() ==> a[block_v_index(width, height, x, y)]
            == b[block_v_index(width, height, x, y)],
        block_v_index(width, height, x, y) + 1 < a.len() ==> a[block_v_index(
            width,
            height,
            x,
            y,
        ) + 1] == b[block_v_index(width, height, x, y) + 1],
        0 <= k < 4,
    ensures
        converted_byte(a, width, height, 4 * (y * width + x) + k) == converted_byte(
            b,
            width,
            height,
            4 * (y * width + x) + k,
        ),
{
    lemma_mul_nonnegative(y, width);
    lemma_mul_nonnegative(y / 2, width);
    lemma_fundamental_div_mod(x, 2);
    lemma_pixel_colour_from_its_samples(a, width, height, x, y);
    lemma_pixel_colour_from_its_samples(b, width, height, x, y);
    assert(block_v_index(width, height, x, y) >= 0);
}

/// The four pixels of a 2x2 block share one VU pair: two pixels side by side
/// in a block (`x` even), or one above the other (`y` even), whose Y samples
/// are equal come out as the same four bytes.
pub proof fn lemma_block_shares_its_chroma(
    nv21: Seq<u8>,
    width: int,
    height: int,
    x: int,
    y: int,
    k: int,
)
    requires
        0 <= x < width,
        0 <= y < height,
        width * height <= nv21.len(),
        0 <= k < 4,
    ensures
        x % 2 == 0 && x + 1 < width && nv21[y * width + x] == nv21[y * width + x + 1]
            ==> converted_byte(nv21, width, height, 4 * (y * width + x) + k) == converted_byte(
            nv21,
            width,
            height,
            4 * (y * width + x + 1) + k,
        ),
        y % 2 == 0 && y + 1 < height && nv21[y * width + x] == nv21[(y + 1) * width + x]
            ==> converted_byte(nv21, width, height, 4 * (y * width + x) + k) == converted_byte(
            nv21,
            width,
            height,
            4 * ((y + 1) * width + x) + k,
        ),
        x + 2 < width ==> block_v_index(width, height, x + 2, y) == block_v_index(
            width,
            height,
            x,
            y,
        ) + 2,
{
    lemma_pixel_colour_from_its_samples(nv21, width, height, x, y);
    lemma_fundamental_div_mod(x, 2);
    lemma_fundamental_div_mod(x + 2, 2);
    lemma_fundamental_div_mod(x + 1, 2);
    lemma_fundamental_div_mod(y, 2);
    lemma_fundamental_div_mod(y + 1, 2);
    if x % 2 == 0 && x + 1 < width {
        lemma_pixel_colour_from_its_samples(nv21, width, height, x + 1, y);
        assert((x + 1) / 2 == x / 2);
        assert(y * width + x + 1 == y * width + (x + 1));
    }
    if y % 2 == 0 && y + 1 < height {
        lemma_pixel_colour_from_its_samples(nv21, width, height, x, y + 1);
        assert((y + 1) / 2 == y / 2);
    }
    if x + 2 < width {
        assert((x + 2) / 2 == x / 2 + 1);
    }
}

/// An accepted header hands on its fields as stored: the width is the
/// little-endian number in bytes 4 to 7, the height the one in bytes 8 to 11,
/// the timestamp the one in bytes 12 to 19 and the payload length the one in
/// bytes 20 to 23. It starts with the bytes "FCHR", and its timestamp is not
/// that of the frame delivered last.
pub proof fn lemma_ready_header_fields(header: Seq<u8>, last_timestamp: u64)
    requires
        header.len() == CAMERA_HEADER_LEN,
    ensures
        camera_header_verdict(header, last_timestamp) matches CameraHeaderCheck::Ready(h) ==> {
            &&& h.width as int == header[4] + 256 * header[5] + 65536 * header[6] + 16777216
                * header[7]
            &&& h.height as int == header[8] + 256 * header[9] + 65536 * header[10] + 16777216
                * header[11]
            &&& h.timestamp as int == header[12] + 256 * header[13] + 65536 * header[14]
                + 16777216 * header[15] + 4294967296 * (header[16] + 256 * header[17] + 65536
                * header[18] + 16777216 * header[19])
            &&& h.payload_len as int == header[20] + 256 * header[21] + 65536 * header[22]
                + 16777216 * header[23]
            &&& header[0] == 0x46 && header[1] == 0x43 && header[2] == 0x48 && header[3] == 0x52
            &&& h.timestamp != last_timestamp
        },
{
}

} // verus!
