//! The colour gradient drawn behind the video: one 32-bit ARGB word per
//! pixel, laid out line by line in the byte order of the machine.

use vstd::prelude::*;

verus! {

/// `part` out of `whole`, scaled to the range of a colour channel.
pub open spec fn scaled(part: int, whole: int) -> int {
    part * 0xFF / whole
}

/// The smaller of two integers.
pub open spec fn lesser(a: int, b: int) -> int {
    if a <= b {
        a
    } else {
        b
    }
}

/// Red fades out towards the right and towards the bottom.
pub open spec fn red_at(x: int, y: int, width: int, height: int) -> int {
    lesser(scaled(width - x, width), scaled(height - y, height))
}

/// Green grows towards the right and fades out towards the bottom.
pub open spec fn green_at(x: int, y: int, width: int, height: int) -> int {
    lesser(scaled(x, width), scaled(height - y, height))
}

/// Blue fades out towards the right and grows towards the bottom.
pub open spec fn blue_at(x: int, y: int, width: int, height: int) -> int {
    lesser(scaled(width - x, width), scaled(y, height))
}

/// The opaque ARGB word of the pixel in column `x` and line `y` of a
/// gradient of `width` by `height` pixels.
pub open spec fn pixel_at(x: int, y: int, width: int, height: int) -> int {
    0xFF00_0000 + red_at(x, y, width, height) * 0x1_0000 + green_at(x, y, width, height) * 0x100
        + blue_at(x, y, width, height)
}

/// A scaled part of a whole is a channel value.
pub proof fn lemma_scaled_in_range(part: int, whole: int)
    requires
        0 <= part <= whole,
        0 < whole,
    ensures
        0 <= scaled(part, whole) <= 0xFF,
{
    assert(0 <= part * 0xFF <= whole * 0xFF) by (nonlinear_arith)
        requires
            0 <= part <= whole,
    ;
    vstd::arithmetic::div_mod::lemma_div_is_ordered(0, part * 0xFF, whole);
    vstd::arithmetic::div_mod::lemma_div_is_ordered(part * 0xFF, whole * 0xFF, whole);
    assert(whole * 0xFF == whole * 0xFF + 0 && 0xFF * whole == whole * 0xFF) by (nonlinear_arith);
    vstd::arithmetic::div_mod::lemma_div_multiples_vanish(0xFF, whole);
    assert(0int / whole == 0) by (nonlinear_arith)
        requires
            0 < whole,
    ;
}

/// Every pixel inside the gradient has its three channels in range, so its
/// word is an opaque colour that fits 32 bits.
pub proof fn lemma_pixel_in_range(x: int, y: int, width: int, height: int)
    requires
        0 <= x < width,
        0 <= y < height,
    ensures
        0 <= red_at(x, y, width, height) <= 0xFF,
        0 <= green_at(x, y, width, height) <= 0xFF,
        0 <= blue_at(x, y, width, height) <= 0xFF,
        0xFF00_0000 <= pixel_at(x, y, width, height) <= 0xFFFF_FFFF,
{
    lemma_scaled_in_range(width - x, width);
    lemma_scaled_in_range(x, width);
    lemma_scaled_in_range(height - y, height);
    lemma_scaled_in_range(y, height);
}

fn scale(part: u32, whole: u32) -> (level: u32)
    requires
        part <= whole,
        0 < whole,
    ensures
        level == scaled(part as int, whole as int),
        level <= 0xFF,
{
    proof {
        lemma_scaled_in_range(part as int, whole as int);
    }
    let wide: u64 = part as u64 * 0xFF;
    (wide / whole as u64) as u32
}

fn smaller(a: u32, b: u32) -> (m: u32)
    ensures
        m == lesser(a as int, b as int),
{
    if a <= b {
        a
    } else {
        b
    }
}

/// Computes the ARGB word of the pixel in column `x` and line `y` of a
/// gradient of `buf_x` by `buf_y` pixels.
pub fn gradient_pixel(x: u32, y: u32, buf_x: u32, buf_y: u32) -> (pixel: u32)
    requires
        x < buf_x,
        y < buf_y,
    ensures
        pixel == pixel_at(x as int, y as int, buf_x as int, buf_y as int),
{
    let from_right: u32 = scale(buf_x - x, buf_x);
    let from_left: u32 = scale(x, buf_x);
    let from_bottom: u32 = scale(buf_y - y, buf_y);
    let from_top: u32 = scale(y, buf_y);
    let r: u32 = smaller(from_right, from_bottom);
    let g: u32 = smaller(from_left, from_bottom);
    let b: u32 = smaller(from_right, from_top);
    assert((0xFFu32 << 24) == 0xFF00_0000) by (bit_vector);
    assert((r << 16) == r * 0x1_0000) by (bit_vector)
        requires
            r <= 0xFF,
    ;
    assert((g << 8) == g * 0x100) by (bit_vector)
        requires
            g <= 0xFF,
    ;
    (0xFFu32 << 24) + (r << 16) + (g << 8) + b
}

/// The four bytes of `word`, least significant first.
pub open spec fn le_bytes(word: u32) -> Seq<u8> {
    seq![
        (word % 0x100) as u8,
        (word / 0x100 % 0x100) as u8,
        (word / 0x1_0000 % 0x100) as u8,
        (word / 0x100_0000) as u8,
    ]
}

/// The four bytes of `word`, most significant first.
pub open spec fn be_bytes(word: u32) -> Seq<u8> {
    seq![
        (word / 0x100_0000) as u8,
        (word / 0x1_0000 % 0x100) as u8,
        (word / 0x100 % 0x100) as u8,
        (word % 0x100) as u8,
    ]
}

/// `bytes` holds `word` in one of the two byte orders a machine can have.
pub open spec fn is_native_word(bytes: Seq<u8>, word: u32) -> bool {
    bytes == le_bytes(word) || bytes == be_bytes(word)
}

/// In little-endian order a gradient pixel is the bytes blue, green, red
/// and an alpha of `0xFF`.
pub proof fn lemma_pixel_le_bytes(x: int, y: int, width: int, height: int)
    requires
        0 <= x < width,
        0 <= y < height,
    ensures
        le_bytes(pixel_at(x, y, width, height) as u32) == seq![
            blue_at(x, y, width, height) as u8,
            green_at(x, y, width, height) as u8,
            red_at(x, y, width, height) as u8,
            0xFFu8,
        ],
{
    lemma_pixel_in_range(x, y, width, height);
}

/// `u32::to_ne_bytes`: the memory representation of `word` in the byte
/// order of the machine. Which of the two orders that is, is not stated.
#[verifier::external_body]
fn native_bytes(word: u32) -> (bytes: [u8; 4])
    ensures
        is_native_word(bytes@, word),
{
    word.to_ne_bytes()
}

/// Appends the four bytes of one pixel to a buffer.
pub fn push_word(buffer: &mut Vec<u8>, bytes: [u8; 4])
    ensures
        final(buffer)@ == old(buffer)@ + bytes@,
{
    buffer.push(bytes[0]);
    buffer.push(bytes[1]);
    buffer.push(bytes[2]);
    buffer.push(bytes[3]);
}

/// What goes to the compositor to show a gradient: the size the memory
/// pool must have, its contents, and the geometry of the buffer in it.
pub struct Drawing {
    /// Size of the memory pool in bytes.
    pub pool_size: usize,
    /// Contents of the pool from its start.
    pub bytes: Vec<u8>,
    /// Width of the buffer in pixels.
    pub width: i32,
    /// Height of the buffer in pixels.
    pub height: i32,
    /// Bytes from the start of one line to the start of the next.
    pub stride: i32,
}

/// Bytes that a gradient of `width` by `height` pixels occupies.
pub open spec fn pool_bytes(width: u32, height: u32) -> int {
    4 * width * height
}

/// The sizes for which a gradient can be drawn: its byte size fits 32
/// bits, and its height and stride fit the signed 32-bit arguments that
/// describe a buffer.
pub open spec fn drawable(width: u32, height: u32) -> bool {
    &&& pool_bytes(width, height) <= u32::MAX
    &&& 4 * width <= i32::MAX
    &&& height <= i32::MAX
}

/// The word of the `i`-th pixel of a gradient, counted line by line.
pub open spec fn pixel_of(i: int, width: u32, height: u32) -> u32 {
    pixel_at(i % (width as int), i / (width as int), width as int, height as int) as u32
}

/// Tells whether a gradient of `buf_x` by `buf_y` pixels can be drawn.
pub fn can_draw(buf_x: u32, buf_y: u32) -> (ok: bool)
    ensures
        ok == drawable(buf_x, buf_y),
{
    let w: u64 = buf_x as u64;
    let h: u64 = buf_y as u64;
    if w > 0x1FFF_FFFF || h > 0x7FFF_FFFF {
        return false;
    }
    assert(4 * w * h <= 4 * 0x1FFF_FFFF * 0x7FFF_FFFF) by (nonlinear_arith)
        requires
            w <= 0x1FFF_FFFF,
            h <= 0x7FFF_FFFF,
    ;
    4 * w * h <= 0xFFFF_FFFF
}

proof fn lemma_pixel_position(i: int, width: int, height: int)
    requires
        0 <= i < width * height,
        0 <= width,
        0 <= height,
    ensures
        0 < width,
        0 <= i % width < width,
        0 <= i / width < height,
{
    assert(0 < width) by (nonlinear_arith)
        requires
            0 <= i < width * height,
            0 <= width,
    ;
    vstd::arithmetic::div_mod::lemma_mod_bound(i, width);
    vstd::arithmetic::div_mod::lemma_fundamental_div_mod(i, width);
    assert(0 <= i / width < height) by (nonlinear_arith)
        requires
            0 <= i < width * height,
            0 < width,
            i == width * (i / width) + i % width,
            0 <= i % width < width,
    ;
}

/// Renders the gradient for a window of `buf_x` by `buf_y` pixels: four
/// bytes per pixel, line by line from the top left.
pub fn redraw(buf_x: u32, buf_y: u32) -> (drawing: Drawing)
    requires
        drawable(buf_x, buf_y),
    ensures
        drawing.pool_size == pool_bytes(buf_x, buf_y),
        drawing.bytes@.len() == pool_bytes(buf_x, buf_y),
        drawing.width == buf_x,
        drawing.height == buf_y,
        drawing.stride == 4 * buf_x,
        forall|i: int|
            0 <= i < buf_x * buf_y ==> is_native_word(
                #[trigger] drawing.bytes@.subrange(4 * i, 4 * i + 4),
                pixel_of(i, buf_x, buf_y),
            ),
{
    assert(buf_x * buf_y <= 0x3FFF_FFFF && 4 * buf_x * buf_y == 4 * (buf_x * buf_y))
        by (nonlinear_arith)
        requires
            4 * buf_x * buf_y <= 0xFFFF_FFFF,
    ;
    let count: u32 = buf_x * buf_y;
    let mut bytes: Vec<u8> = Vec::new();
    let mut i: u32 = 0;
    while i < count
        invariant
            count == buf_x * buf_y,
            count <= 0x3FFF_FFFF,
            i <= count,
            bytes@.len() == 4 * i,
            forall|j: int|
                0 <= j < i ==> is_native_word(
                    #[trigger] bytes@.subrange(4 * j, 4 * j + 4),
                    pixel_of(j, buf_x, buf_y),
                ),
        decreases count - i,
    {
        proof {
            lemma_pixel_position(i as int, buf_x as int, buf_y as int);
            lemma_pixel_in_range(
                i as int % buf_x as int,
                i as int / buf_x as int,
                buf_x as int,
                buf_y as int,
            );
        }
        let x: u32 = i % buf_x;
        let y: u32 = i / buf_x;
        let pixel: u32 = gradient_pixel(x, y, buf_x, buf_y);
        let word: [u8; 4] = native_bytes(pixel);
        let ghost before = bytes@;
        push_word(&mut bytes, word);
        proof {
            assert(bytes@.subrange(4 * i, 4 * i + 4) == word@);
            assert forall|j: int| 0 <= j < i implies is_native_word(
                #[trigger] bytes@.subrange(4 * j, 4 * j + 4),
                pixel_of(j, buf_x, buf_y),
            ) by {
                assert(bytes@.subrange(4 * j, 4 * j + 4) == before.subrange(4 * j, 4 * j + 4));
            }
        }
        i += 1;
    }
    Drawing {
        pool_size: (4 * count) as usize,
        bytes,
        width: buf_x as i32,
        height: buf_y as i32,
        stride: (4 * buf_x) as i32,
    }
}

} // verus!
