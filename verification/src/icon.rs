//! The brightness-tinted tray icon: which pixels of the bulb picture are
//! recolored, the color for a brightness, and the lit indicator segments.
//! Pixels are 32-bit BGRA values, rows top to bottom.
use vstd::prelude::*;

verus! {

/// The bulb color at 0% brightness.
pub fn off_color() -> (r: (u8, u8, u8))
    ensures
        r == (128u8, 128u8, 128u8),
{
    (128, 128, 128)
}

/// The bulb color at 100% brightness, also the color of the lit indicators.
pub fn on_color() -> (r: (u8, u8, u8))
    ensures
        r == (255u8, 212u8, 59u8),
{
    (255, 212, 59)
}

/// The alpha channel of a pixel.
pub open spec fn alpha_of(pixel: u32) -> int {
    pixel as int / 0x100_0000
}

/// The red channel of a pixel.
pub open spec fn red_of(pixel: u32) -> int {
    (pixel as int / 0x1_0000) % 0x100
}

/// The green channel of a pixel.
pub open spec fn green_of(pixel: u32) -> int {
    (pixel as int / 0x100) % 0x100
}

/// The blue channel of a pixel.
pub open spec fn blue_of(pixel: u32) -> int {
    pixel as int % 0x100
}

/// Whether a pixel belongs to the yellow bulb: visible, and clearly redder and
/// greener than it is blue.
pub open spec fn spec_is_bulb_fill(pixel: u32) -> bool {
    alpha_of(pixel) != 0 && red_of(pixel) > blue_of(pixel) + 20 && green_of(pixel) > blue_of(pixel) + 10
}

/// Recognizes the pixels of the bulb to tint.
pub fn is_bulb_fill(pixel: u32) -> (r: bool)
    ensures
        r == spec_is_bulb_fill(pixel),
{
    let alpha = pixel / 0x100_0000;
    let blue = pixel % 0x100;
    let green = (pixel / 0x100) % 0x100;
    let red = (pixel / 0x1_0000) % 0x100;
    alpha != 0 && red > blue + 20 && green > blue + 10
}

/// Whether a pixel in row `y` of `height` belongs to the bulb's socket: in the
/// bottom five sixteenths and not black.
pub open spec fn spec_is_socket(pixel: u32, y: int, height: int) -> bool {
    y >= height * 11 / 16 && pixel as int % 0x100_0000 != 0
}

/// Recognizes the pixels of the bulb's socket.
pub fn is_socket(pixel: u32, y: usize, height: usize) -> (r: bool)
    requires
        height <= usize::MAX / 11,
    ensures
        r == spec_is_socket(pixel, y as int, height as int),
{
    y >= height * 11 / 16 && pixel % 0x100_0000 != 0
}

/// The indicator segment, numbered 1 to 5, that covers the point `(x, y)` of the
/// 32-by-32 grid, if any.
pub open spec fn segment_at(gx: int, gy: int) -> Option<u32> {
    if 2 <= gx <= 4 && 14 <= gy <= 16 {
        Some(1u32)
    } else if 5 <= gx <= 7 && 3 <= gy <= 5 {
        Some(2u32)
    } else if 15 <= gx <= 17 && 0 <= gy <= 2 {
        Some(3u32)
    } else if 25 <= gx <= 27 && 3 <= gy <= 5 {
        Some(4u32)
    } else if 28 <= gx <= 30 && 14 <= gy <= 16 {
        Some(5u32)
    } else {
        None
    }
}

/// The indicator segment at pixel `(x, y)` of a `width` by `height` icon, scaled
/// onto a 32-by-32 grid.
pub open spec fn spec_indicator_segment(x: int, y: int, width: int, height: int) -> Option<u32> {
    segment_at(x * 32 / width, y * 32 / height)
}

/// Finds the indicator segment, if any, drawn at pixel `(x, y)`.
pub fn indicator_segment(x: usize, y: usize, width: usize, height: usize) -> (r: Option<u32>)
    requires
        width > 0,
        height > 0,
        x <= usize::MAX / 32,
        y <= usize::MAX / 32,
    ensures
        r == spec_indicator_segment(x as int, y as int, width as int, height as int),
{
    let gx = x * 32 / width;
    let gy = y * 32 / height;
    if 2 <= gx && gx <= 4 && 14 <= gy && gy <= 16 {
        Some(1)
    } else if 5 <= gx && gx <= 7 && 3 <= gy && gy <= 5 {
        Some(2)
    } else if 15 <= gx && gx <= 17 && gy <= 2 {
        Some(3)
    } else if 25 <= gx && gx <= 27 && 3 <= gy && gy <= 5 {
        Some(4)
    } else if 28 <= gx && gx <= 30 && 14 <= gy && gy <= 16 {
        Some(5)
    } else {
        None
    }
}

/// A channel premultiplied by `alpha`.
pub open spec fn scale(component: u8, alpha: u8) -> int {
    component as int * alpha as int / 255
}

/// The premultiplied BGRA pixel of a color and an alpha.
pub open spec fn spec_bgra(red: u8, green: u8, blue: u8, alpha: u8) -> u32 {
    (scale(blue, alpha) + scale(green, alpha) * 0x100 + scale(red, alpha) * 0x1_0000 + alpha as int
        * 0x100_0000) as u32
}

/// Packs a color and an alpha into a premultiplied BGRA pixel.
pub fn bgra(red: u8, green: u8, blue: u8, alpha: u8) -> (r: u32)
    ensures
        r == spec_bgra(red, green, blue, alpha),
{
    let a = alpha as u32;
    assert(red as u32 * a <= 255 * 255 && green as u32 * a <= 255 * 255 && blue as u32 * a <= 255 * 255)
        by (nonlinear_arith)
        requires
            red <= 255,
            green <= 255,
            blue <= 255,
            a <= 255,
    ;
    let b = blue as u32 * a / 255;
    let g = green as u32 * a / 255;
    let r = red as u32 * a / 255;
    b + g * 0x100 + r * 0x1_0000 + a * 0x100_0000
}

/// The bulb color for a brightness: the off and on colors mixed in proportion,
/// rounded; brightness above 100 counts as 100.
pub open spec fn mix(off: int, on: int, brightness: int) -> u8 {
    ((off * (100 - brightness) + on * brightness + 50) / 100) as u8
}

/// The bulb color at `brightness` percent.
pub open spec fn spec_color(brightness: u32) -> (u8, u8, u8) {
    let b = if brightness > 100 { 100 } else { brightness as int };
    (mix(128, 255, b), mix(128, 212, b), mix(128, 59, b))
}

fn mix_channel(off: u8, on: u8, brightness: u32) -> (r: u8)
    requires
        brightness <= 100,
    ensures
        r == mix(off as int, on as int, brightness as int),
{
    let o = off as u32;
    let n = on as u32;
    assert(o * (100 - brightness) + n * brightness <= 255 * 100) by (nonlinear_arith)
        requires
            o <= 255,
            n <= 255,
            brightness <= 100,
    ;
    ((o * (100 - brightness) + n * brightness + 50) / 100) as u8
}

/// Interpolates the bulb color between the off and on colors.
pub fn color(brightness: u32) -> (r: (u8, u8, u8))
    ensures
        r == spec_color(brightness),
{
    let b = if brightness > 100 { 100 } else { brightness };
    (mix_channel(128, 255, b), mix_channel(128, 212, b), mix_channel(128, 59, b))
}

/// The color reaches exactly the off color at 0% and the on color from 100% up.
pub proof fn lemma_color_endpoints(brightness: u32)
    ensures
        spec_color(0) == (128u8, 128u8, 128u8),
        brightness >= 100 ==> spec_color(brightness) == (255u8, 212u8, 59u8),
{
}

/// How many indicator segments a brightness lights: one per 20 points, from 0 to 5.
pub open spec fn active_segments(brightness: u32) -> int {
    (if brightness > 100 { 100 } else { brightness as int }) / 20
}

/// Whether the indicator at pixel `(x, y)` is lit at `brightness`.
pub open spec fn indicator_lit(x: int, y: int, width: int, height: int, brightness: u32) -> bool {
    match spec_indicator_segment(x, y, width, height) {
        Some(s) => s <= active_segments(brightness),
        None => false,
    }
}

/// The source pixel moved three rows down; the top three rows are empty.
pub open spec fn shifted(source: Seq<u32>, width: int, i: int) -> u32 {
    if i / width >= 3 {
        source[i - 3 * width]
    } else {
        0u32
    }
}

/// The tinted icon's pixel at position `i`: a lit indicator, else the socket
/// darkened to black (at least mostly opaque), else the bulb in the brightness
/// color, else the source pixel moved three rows down.
pub open spec fn tinted_pixel(source: Seq<u32>, width: int, height: int, brightness: u32, i: int) -> u32 {
    let x = i % width;
    let y = i / width;
    let original = shifted(source, width, i);
    let alpha = alpha_of(original);
    let c = spec_color(brightness);
    if indicator_lit(x, y, width, height, brightness) {
        spec_bgra(255, 212, 59, 230)
    } else if spec_is_socket(original, y, height) {
        spec_bgra(0, 0, 0, (if alpha > 224 { alpha } else { 224 }) as u8)
    } else if spec_is_bulb_fill(original) {
        spec_bgra(c.0, c.1, c.2, alpha as u8)
    } else {
        original
    }
}

/// Tints the pixels of the bulb picture `source`, `width` by `height`, for
/// `brightness`: the picture moves three rows down, the socket turns black, the
/// bulb takes the brightness color, and one indicator segment lights per 20
/// points.
pub fn tint_pixels(source: &Vec<u32>, width: usize, height: usize, brightness: u32) -> (r: Vec<u32>)
    requires
        source@.len() == width * height,
        width <= usize::MAX / 32,
        height <= usize::MAX / 32,
    ensures
        r@.len() == source@.len(),
        forall|i: int| 0 <= i < r@.len() ==> #[trigger] r@[i] == tinted_pixel(source@, width as int, height as int, brightness, i),
{
    let total = source.len();
    if total == 0 {
        return Vec::new();
    }
    assert(width > 0 && height > 0) by (nonlinear_arith)
        requires
            total == width * height,
            total != 0,
    ;
    let (red, green, blue) = color(brightness);
    let active: u32 = (if brightness > 100 { 100 } else { brightness }) / 20;
    let mut out: Vec<u32> = Vec::new();
    let mut i: usize = 0;
    while i < total
        invariant
            total == source@.len() == width * height,
            width > 0,
            height > 0,
            width <= usize::MAX / 32,
            height <= usize::MAX / 32,
            (red, green, blue) == spec_color(brightness),
            active == active_segments(brightness),
            i <= total,
            out@.len() == i,
            forall|j: int| 0 <= j < i ==> #[trigger] out@[j] == tinted_pixel(source@, width as int, height as int, brightness, j),
        decreases total - i,
    {
        let x = i % width;
        let y = i / width;
        assert(y < height) by (nonlinear_arith)
            requires
                i < width * height,
                y == i / width,
                width > 0,
        ;
        let original: u32 = if y >= 3 {
            assert(i - 3 * width >= 0) by (nonlinear_arith)
                requires
                    y >= 3,
                    y == i / width,
                    width > 0,
            ;
            source[i - 3 * width]
        } else {
            0
        };
        let alpha = (original / 0x100_0000) as u8;
        let lit = match indicator_segment(x, y, width, height) {
            Some(segment) => segment <= active,
            None => false,
        };
        let pixel = if lit {
            bgra(255, 212, 59, 230)
        } else if is_socket(original, y, height) {
            bgra(0, 0, 0, if alpha > 224 { alpha } else { 224 })
        } else if is_bulb_fill(original) {
            bgra(red, green, blue, alpha)
        } else {
            original
        };
        out.push(pixel);
        i = i + 1;
    }
    out
}

/// Whether bit `b` (0 the leftmost) of the mask byte `v` is set.
pub open spec fn mask_bit(v: u8, b: int) -> bool {
    (v >> ((7 - b) as u8)) & 1u8 == 1u8
}

/// The pixel that bit `b` of mask byte `k` stands for, as an index into the
/// pixels of a `width`-wide icon whose mask rows are `stride` bytes long.
pub open spec fn mask_pixel_index(k: int, b: int, stride: int, width: int) -> int {
    (k / stride) * width + (k % stride) * 8 + b
}

/// Whether the lit indicators cover the mask bit `b` of byte `k`, in a mask with
/// `stride` bytes per row for a `width` by `height` icon.
pub open spec fn mask_cleared(k: int, b: int, stride: int, width: int, height: int, brightness: u32) -> bool {
    let x = (k % stride) * 8 + b;
    let y = k / stride;
    0 <= x < width && 0 <= y < height && indicator_lit(x, y, width, height, brightness)
}

proof fn lemma_clear_bit(v: u8, b0: u8, b: u8)
    requires
        b0 < 8,
        b < 8,
    ensures
        ((v & !(0x80u8 >> b0)) >> (7 - b) as u8) & 1u8 == (if b == b0 {
            0u8
        } else {
            (v >> (7 - b) as u8) & 1u8
        }),
{
    assert(((v & !(0x80u8 >> b0)) >> (7 - b) as u8) & 1u8 == (if b == b0 {
        0u8
    } else {
        (v >> (7 - b) as u8) & 1u8
    })) by (bit_vector)
        requires
            b0 < 8,
            b < 8,
    ;
}

/// Bit `b` of byte `k` stands for the pixel `(x, y)` exactly when `k` is the
/// byte of that pixel in row `y` and `b` its bit.
proof fn lemma_mask_position(k: int, b: int, stride: int, width: int, x: int, y: int)
    requires
        stride > 0,
        0 <= k,
        0 <= b < 8,
        0 <= x < width,
        0 <= y,
        (width + 7) / 8 <= stride,
        (k % stride) * 8 + b < width,
    ensures
        (mask_pixel_index(k, b, stride, width) == y * width + x) <==> (k == y * stride + x / 8 && b == x % 8),
{
    let px = (k % stride) * 8 + b;
    let py = k / stride;
    vstd::arithmetic::div_mod::lemma_fundamental_div_mod(k, stride);
    assert(0 <= k % stride < stride) by {
        vstd::arithmetic::div_mod::lemma_mod_pos_bound(k, stride);
    }
    assert(py >= 0) by {
        vstd::arithmetic::div_mod::lemma_div_pos_is_pos(k, stride);
    }
    assert(0 <= px);
    if mask_pixel_index(k, b, stride, width) == y * width + x {
        vstd::arithmetic::div_mod::lemma_fundamental_div_mod_converse(y * width + x, width, py, px);
        vstd::arithmetic::div_mod::lemma_fundamental_div_mod_converse(y * width + x, width, y, x);
        assert(px == x && py == y);
        vstd::arithmetic::div_mod::lemma_fundamental_div_mod_converse(x, 8, k % stride, b);
        assert(k == stride * py + k % stride);
        assert(k == y * stride + x / 8) by (nonlinear_arith)
            requires
                k == stride * py + k % stride,
                py == y,
                k % stride == x / 8,
        ;
    }
    if k == y * stride + x / 8 && b == x % 8 {
        assert(x / 8 < stride) by (nonlinear_arith)
            requires
                0 <= x < width,
                (width + 7) / 8 <= stride,
        ;
        assert(x / 8 >= 0) by (nonlinear_arith)
            requires
                0 <= x,
        ;
        vstd::arithmetic::div_mod::lemma_fundamental_div_mod_converse(k, stride, y, x / 8);
        vstd::arithmetic::div_mod::lemma_fundamental_div_mod(x, 8);
        assert(mask_pixel_index(k, b, stride, width) == y * width + x) by (nonlinear_arith)
            requires
                k / stride == y,
                k % stride == x / 8,
                b == x % 8,
                x == 8 * (x / 8) + x % 8,
                mask_pixel_index(k, b, stride, width) == (k / stride) * width + (k % stride) * 8 + b,
        ;
    }
}

/// The byte and bit of pixel `(x, y)` stand for that pixel.
proof fn lemma_pixel_of_byte(x: int, y: int, stride: int, width: int)
    requires
        0 <= x < width,
        0 <= y,
        (width + 7) / 8 <= stride,
    ensures
        (y * stride + x / 8) % stride == x / 8,
        (y * stride + x / 8) / stride == y,
        ((y * stride + x / 8) % stride) * 8 + x % 8 == x,
        0 <= x % 8 < 8,
{
    assert(0 <= x / 8 < stride) by (nonlinear_arith)
        requires
            0 <= x < width,
            (width + 7) / 8 <= stride,
    ;
    vstd::arithmetic::div_mod::lemma_fundamental_div_mod_converse(y * stride + x / 8, stride, y, x / 8);
    vstd::arithmetic::div_mod::lemma_fundamental_div_mod(x, 8);
}

/// Makes the lit indicators opaque in the one-bit AND mask `mask` (`stride`
/// bytes per row) of a `width` by `height` icon: clears their bits and keeps
/// every other bit.
pub fn clear_indicator_mask(mask: &mut Vec<u8>, stride: usize, width: usize, height: usize, brightness: u32)
    requires
        width <= usize::MAX / 32,
        height <= usize::MAX / 32,
        width * height <= usize::MAX,
        width > 0 && height > 0 ==> (width + 7) / 8 <= stride && height * stride <= old(mask)@.len(),
    ensures
        final(mask)@.len() == old(mask)@.len(),
        forall|k: int, b: int|
            0 <= k < final(mask)@.len() && 0 <= b < 8 ==> (#[trigger] mask_bit(final(mask)@[k], b) == (mask_bit(
                old(mask)@[k],
                b,
            ) && !mask_cleared(k, b, stride as int, width as int, height as int, brightness))),
{
    if width == 0 || height == 0 {
        return;
    }
    let active: u32 = (if brightness > 100 { 100 } else { brightness }) / 20;
    let total = width * height;
    let mut p: usize = 0;
    while p < total
        invariant
            width > 0,
            height > 0,
            width <= usize::MAX / 32,
            height <= usize::MAX / 32,
            total == width * height,
            (width + 7) / 8 <= stride,
            height * stride <= old(mask)@.len(),
            mask@.len() == old(mask)@.len(),
            active == active_segments(brightness),
            p <= total,
            forall|k: int, b: int|
                0 <= k < mask@.len() && 0 <= b < 8 ==> (#[trigger] mask_bit(mask@[k], b) == (mask_bit(
                    old(mask)@[k],
                    b,
                ) && !(mask_cleared(k, b, stride as int, width as int, height as int, brightness)
                    && mask_pixel_index(k, b, stride as int, width as int) < p))),
        decreases total - p,
    {
        let x = p % width;
        let y = p / width;
        assert(y < height && p == y * width + x) by (nonlinear_arith)
            requires
                p < width * height,
                y == p / width,
                x == p % width,
                width > 0,
        ;
        let lit = match indicator_segment(x, y, width, height) {
            Some(segment) => segment <= active,
            None => false,
        };
        let ghost before = mask@;
        let len = mask.len();
        if lit {
            assert(y * stride + x / 8 < height * stride) by (nonlinear_arith)
                requires
                    y < height,
                    x < width,
                    (width + 7) / 8 <= stride,
            ;
            assert(y * stride <= y * stride + x / 8);
            let k0 = y * stride + x / 8;
            let b0 = (x % 8) as u8;
            let v = mask[k0];
            mask[k0] = v & !(0x80u8 >> b0);
            proof {
                lemma_pixel_of_byte(x as int, y as int, stride as int, width as int);
                assert forall|k: int, b: int| 0 <= k < mask@.len() && 0 <= b < 8 implies (#[trigger] mask_bit(mask@[k], b)
                    == (mask_bit(old(mask)@[k], b) && !(mask_cleared(k, b, stride as int, width as int, height as int, brightness)
                    && mask_pixel_index(k, b, stride as int, width as int) < p + 1))) by {
                    assert(mask_bit(before[k], b) == (mask_bit(old(mask)@[k], b) && !(mask_cleared(k, b, stride as int, width as int, height as int, brightness)
                        && mask_pixel_index(k, b, stride as int, width as int) < p)));
                    if k == k0 {
                        lemma_clear_bit(v, b0, b as u8);
                    } else {
                        assert(mask@[k] == before[k]);
                    }
                    if (k % stride as int) * 8 + b < width {
                        lemma_mask_position(k, b, stride as int, width as int, x as int, y as int);
                    }
                }
            }
        } else {
            proof {
                lemma_pixel_of_byte(x as int, y as int, stride as int, width as int);
                assert forall|k: int, b: int| 0 <= k < mask@.len() && 0 <= b < 8 implies (#[trigger] mask_bit(mask@[k], b)
                    == (mask_bit(old(mask)@[k], b) && !(mask_cleared(k, b, stride as int, width as int, height as int, brightness)
                    && mask_pixel_index(k, b, stride as int, width as int) < p + 1))) by {
                    if (k % stride as int) * 8 + b < width {
                        lemma_mask_position(k, b, stride as int, width as int, x as int, y as int);
                    }
                }
            }
        }
        p = p + 1;
    }
    proof {
        assert forall|k: int, b: int| 0 <= k < mask@.len() && 0 <= b < 8 && mask_cleared(
            k,
            b,
            stride as int,
            width as int,
            height as int,
            brightness,
        ) implies mask_pixel_index(k, b, stride as int, width as int) < total by {
            let px = (k % stride as int) * 8 + b;
            let py = k / stride as int;
            assert(py * width + px < width * height) by (nonlinear_arith)
                requires
                    0 <= px < width,
                    0 <= py < height,
            ;
        }
    }
}

} // verus!
