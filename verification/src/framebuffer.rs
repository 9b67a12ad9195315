//! Decoding of the display's framebuffer into the pixels that are drawn.
//!
//! The framebuffer is page-major with the least significant bit on top, the
//! SSD1306's native layout: each page is `width` bytes and covers eight rows,
//! and bit `k` of a byte is row `8 * page + k` of that byte's column.  The
//! pixels are drawn row by row, left to right, in batches of at most 256.

use vstd::prelude::*;

use vstd::arithmetic::div_mod::lemma_fundamental_div_mod_converse;

verus! {

/// Number of pixels handed to the draw target at once.
pub const FRAME_BATCH_PIXELS: usize = 256;

/// One pixel of the frame: its column, its row, and whether it is lit.
#[derive(Clone, Copy, Debug, PartialEq, Eq, Structural)]
pub struct FramePixel {
    pub x: i32,
    pub y: i32,
    pub on: bool,
}

/// Index of the byte that holds the pixel at column `x`, row `y`.
pub open spec fn page_byte_index(width: int, x: int, y: int) -> int {
    (y / 8) * width + x
}

/// Whether the pixel at column `x`, row `y` is lit: bit `y % 8` of its byte.
pub open spec fn pixel_lit(bytes: Seq<u8>, width: int, x: int, y: int) -> bool {
    bytes[page_byte_index(width, x, y)] & (1u8 << ((y % 8) as u8)) != 0
}

/// The `k`-th pixel of the frame in drawing order (row by row, left to
/// right): column `k % width`, row `k / width`.
pub open spec fn frame_pixel(bytes: Seq<u8>, width: int, k: int) -> FramePixel {
    FramePixel {
        x: (k % width) as i32,
        y: (k / width) as i32,
        on: pixel_lit(bytes, width, k % width, k / width),
    }
}

/// Number of bytes a framebuffer of this size holds: one per column for
/// each page of eight rows.
pub open spec fn framebuffer_len(width: int, height: int) -> int {
    ((height + 7) / 8) * width
}

/// Number of batches for `n` pixels.
pub open spec fn batch_count(n: int) -> int {
    (n + 255) / 256
}

/// Number of pixels in batch `b` of `n` pixels: 256, but fewer in the last.
pub open spec fn batch_len(n: int, b: int) -> int {
    if n - 256 * b < 256 { n - 256 * b } else { 256 }
}

/// The byte of the pixel at column `x`, row `y` of a `width` by `height`
/// frame lies inside the framebuffer.
proof fn lemma_byte_index_bound(x: int, y: int, width: int, height: int)
    requires
        0 <= x < width,
        0 <= y < height,
    ensures
        0 <= page_byte_index(width, x, y),
        page_byte_index(width, x, y) + 1 <= framebuffer_len(width, height),
        (y / 8) * width <= page_byte_index(width, x, y),
{
    let q = y / 8;
    let p = (height + 7) / 8;
    assert(q + 1 <= p);
    assert(0 <= q);
    assert((q + 1) * width <= p * width) by (nonlinear_arith)
        requires
            q + 1 <= p,
            width >= 0,
    ;
    assert(q * width + width == (q + 1) * width) by (nonlinear_arith);
    assert(0 <= q * width) by (nonlinear_arith)
        requires
            0 <= q,
            0 <= width,
    ;
}

/// The pixels of a `width` by `height` frame, decoded from its page-major
/// framebuffer, in drawing order and cut into batches of 256: every batch
/// is full but the last, and pixel `j` of batch `b` is pixel `256 * b + j`
/// of the frame.
pub fn frame_batches(bytes: &[u8], width: u16, height: u16) -> (batches: Vec<Vec<FramePixel>>)
    requires
        framebuffer_len(width as int, height as int) <= bytes@.len(),
    ensures
        batches@.len() == batch_count(width * height),
        forall|b: int|
            0 <= b < batches@.len() ==> #[trigger] batches@[b]@.len() == batch_len(
                width * height,
                b,
            ),
        forall|b: int, j: int|
            0 <= b < batches@.len() && 0 <= j < batches@[b]@.len() ==> #[trigger] batches@[b]@[j]
                == frame_pixel(bytes@, width as int, 256 * b + j),
        forall|b: int, j: int|
            0 <= b < batches@.len() && 0 <= j < batches@[b]@.len() ==> ({
                let k = 256 * b + j;
                let x = k % (width as int);
                let y = k / (width as int);
                &&& (#[trigger] batches@[b]@[j]).x as int == x
                &&& batches@[b]@[j].y as int == y
                &&& batches@[b]@[j].on == ((bytes@[(y / 8) * width + x] >> ((y % 8) as u8)) & 1u8 == 1u8)
            }),
{
    let w: usize = width as usize;
    let len: usize = bytes.len();
    let mut batches: Vec<Vec<FramePixel>> = Vec::new();
    let mut batch: Vec<FramePixel> = Vec::new();
    let ghost mut k: int = 0;
    for y in 0..height
        invariant
            w == width,
            len == bytes@.len(),
            framebuffer_len(width as int, height as int) <= bytes@.len(),
            k == y * width,
            k == 256 * batches@.len() + batch@.len(),
            batch@.len() < 256,
            forall|b: int|
                0 <= b < batches@.len() ==> #[trigger] batches@[b]@.len() == 256,
            forall|b: int, j: int|
                0 <= b < batches@.len() && 0 <= j < batches@[b]@.len() ==> #[trigger] batches@[b]@[j]
                    == frame_pixel(bytes@, width as int, 256 * b + j),
            forall|j: int|
                0 <= j < batch@.len() ==> #[trigger] batch@[j] == frame_pixel(
                    bytes@,
                    width as int,
                    256 * batches@.len() + j,
                ),
    {
        assert((y + 1) * width == y * width + width) by (nonlinear_arith);
        for x in 0..width
            invariant
                w == width,
                len == bytes@.len(),
                y < height,
                framebuffer_len(width as int, height as int) <= bytes@.len(),
                k == y * width + x,
                k == 256 * batches@.len() + batch@.len(),
                batch@.len() < 256,
                forall|b: int|
                    0 <= b < batches@.len() ==> #[trigger] batches@[b]@.len() == 256,
                forall|b: int, j: int|
                    0 <= b < batches@.len() && 0 <= j < batches@[b]@.len()
                        ==> #[trigger] batches@[b]@[j] == frame_pixel(
                        bytes@,
                        width as int,
                        256 * b + j,
                    ),
                forall|j: int|
                    0 <= j < batch@.len() ==> #[trigger] batch@[j] == frame_pixel(
                        bytes@,
                        width as int,
                        256 * batches@.len() + j,
                    ),
        {
            proof {
                lemma_byte_index_bound(x as int, y as int, width as int, height as int);
                lemma_fundamental_div_mod_converse(k, width as int, y as int, x as int);
            }
            assert((y as usize / 8) * w == (y as int / 8) * (width as int));
            let row_start: usize = (y as usize / 8) * w;
            let index: usize = row_start + x as usize;
            let shift: u8 = (y % 8) as u8;
            let on: bool = bytes[index] & (1u8 << shift) != 0;
            let pixel = FramePixel { x: x as i32, y: y as i32, on };
            batch.push(pixel);
            proof {
                k = k + 1;
            }
            if batch.len() == FRAME_BATCH_PIXELS {
                batches.push(batch);
                batch = Vec::new();
            }
        }
    }
    let ghost full = batches@.len() as int;
    let ghost rest = batch@.len() as int;
    if batch.len() > 0 {
        batches.push(batch);
    }
    proof {
        let n = width * height;
        assert(k == height * width);
        assert(height * width == width * height) by (nonlinear_arith);
        assert forall|b: int, j: int|
            0 <= b < batches@.len() && 0 <= j < batches@[b]@.len() implies ({
                let k = 256 * b + j;
                let x = k % (width as int);
                let y = k / (width as int);
                &&& (#[trigger] batches@[b]@[j]).x as int == x
                &&& batches@[b]@[j].y as int == y
                &&& batches@[b]@[j].on == ((bytes@[(y / 8) * width + x] >> ((y % 8) as u8)) & 1u8 == 1u8)
            }) by {
            lemma_frame_pixel_is_page_bit(bytes@, width, height, 256 * b + j);
        }
        if rest == 0 {
            lemma_fundamental_div_mod_converse(n + 255, 256, full, 255);
        } else {
            lemma_fundamental_div_mod_converse(n + 255, 256, full + 1, rest - 1);
        }
    }
    batches
}


/// Number of batches that a `width` by `height` frame is drawn in.
pub fn frame_batch_count(width: u16, height: u16) -> (count: usize)
    ensures
        count == batch_count(width * height),
{
    assert(width * height <= 0xffff * 0xffff) by (nonlinear_arith)
        requires
            width <= 0xffff,
            height <= 0xffff,
    ;
    let n: usize = width as usize * height as usize;
    (n + 255) / 256
}

/// Batch `b` of the frame's pixels in drawing order, in a fixed buffer of
/// 256 pixels, with the number of pixels it holds: pixel `j` of the batch
/// is pixel `256 * b + j` of the frame.  A batch past the last one is
/// empty.  Drawing the batches one after another draws the whole frame
/// without holding it.
pub fn frame_batch(bytes: &[u8], width: u16, height: u16, b: usize) -> (batch: ([FramePixel; 256], usize))
    requires
        framebuffer_len(width as int, height as int) <= bytes@.len(),
    ensures
        batch.1 == if b < batch_count(width * height) { batch_len(width * height, b as int) } else { 0 },
        forall|j: int|
            0 <= j < batch.1 ==> #[trigger] batch.0@[j] == frame_pixel(bytes@, width as int, 256 * b + j),
        forall|j: int|
            0 <= j < batch.1 ==> ({
                let k = 256 * b + j;
                let x = k % (width as int);
                let y = k / (width as int);
                &&& (#[trigger] batch.0@[j]).x as int == x
                &&& batch.0@[j].y as int == y
                &&& batch.0@[j].on == ((bytes@[(y / 8) * width + x] >> ((y % 8) as u8)) & 1u8 == 1u8)
            }),
{
    let mut pixels: [FramePixel; 256] = [FramePixel { x: 0, y: 0, on: false }; 256];
    let count: usize = frame_batch_count(width, height);
    if b >= count {
        return (pixels, 0);
    }
    let w: usize = width as usize;
    assert(width * height <= 0xffff * 0xffff) by (nonlinear_arith)
        requires
            width <= 0xffff,
            height <= 0xffff,
    ;
    let n: usize = width as usize * height as usize;
    let len: usize = bytes.len();
    let start: usize = 256 * b;
    let end: usize = if n - start < 256 { n } else { start + 256 };
    proof {
        assert(n == width * height);
        lemma_fundamental_div_mod_converse(n + 255, 256, count as int, (n + 255) % 256);
        assert(w > 0) by (nonlinear_arith)
            requires
                n == w * height,
                start < n,
        ;
    }
    let mut k: usize = start;
    while k < end
        invariant
            w == width,
            w > 0,
            n == width * height,
            len == bytes@.len(),
            framebuffer_len(width as int, height as int) <= bytes@.len(),
            start == 256 * b,
            start <= k <= end,
            end <= n,
            end - start <= 256,
            forall|j: int|
                0 <= j < k - start ==> #[trigger] pixels@[j] == frame_pixel(bytes@, width as int, 256 * b + j),
        decreases end - k,
    {
        let x: usize = k % w;
        let y: usize = k / w;
        proof {
            vstd::arithmetic::div_mod::lemma_multiply_divide_lt(k as int, w as int, height as int);
            lemma_byte_index_bound(x as int, y as int, width as int, height as int);
        }
        let row_start: usize = (y / 8) * w;
        let index: usize = row_start + x;
        let shift: u8 = (y % 8) as u8;
        let on: bool = bytes[index] & (1u8 << shift) != 0;
        pixels[k - start] = FramePixel { x: x as i32, y: y as i32, on };
        k = k + 1;
    }
    assert forall|j: int| 0 <= j < end - start implies ({
        let k = 256 * b + j;
        let x = k % (width as int);
        let y = k / (width as int);
        &&& (#[trigger] pixels@[j]).x as int == x
        &&& pixels@[j].y as int == y
        &&& pixels@[j].on == ((bytes@[(y / 8) * width + x] >> ((y % 8) as u8)) & 1u8 == 1u8)
    }) by {
        lemma_frame_pixel_is_page_bit(bytes@, width, height, 256 * b + j);
    }
    (pixels, end - start)
}

/// Pixel `k` of the drawing order is column `k % width`, row `k / width`, and
/// it is lit exactly when bit `row % 8` of byte `(row / 8) * width + column`
/// is set: page `row / 8` holds eight rows, bit 0 the topmost.
pub proof fn lemma_frame_pixel_is_page_bit(bytes: Seq<u8>, width: u16, height: u16, k: int)
    requires
        0 <= k < width * height,
    ensures
        ({
            let w = width as int;
            let p = frame_pixel(bytes, w, k);
            &&& p.x as int == k % w
            &&& p.y as int == k / w
            &&& 0 <= k % w < w
            &&& 0 <= k / w < height
            &&& p.on == ((bytes[((k / w) / 8) * w + k % w] >> (((k / w) % 8) as u8)) & 1u8 == 1u8)
        }),
{
    let w = width as int;
    assert(w > 0) by (nonlinear_arith)
        requires
            0 <= k < w * height,
            0 <= height,
    ;
    vstd::arithmetic::div_mod::lemma_multiply_divide_lt(k, w, height as int);
    vstd::arithmetic::div_mod::lemma_div_pos_is_pos(k, w);
    vstd::arithmetic::div_mod::lemma_mod_pos_bound(k, w);
    let byte: u8 = bytes[((k / w) / 8) * w + k % w];
    let shift: u8 = ((k / w) % 8) as u8;
    assert((byte & (1u8 << shift) != 0) == ((byte >> shift) & 1u8 == 1u8)) by (bit_vector)
        requires
            shift < 8,
    ;
}

/// Every pixel of a `width` by `height` screen is drawn exactly once, at its
/// place: pixel `(x, y)` comes at position `y * width + x` of the drawing
/// order, with the value of its bit, and no other position holds it.
pub proof fn lemma_each_pixel_drawn_once(bytes: Seq<u8>, width: u16, height: u16, x: int, y: int, k: int)
    requires
        0 <= x < width,
        0 <= y < height,
        0 <= k < width * height,
    ensures
        0 <= y * width + x < width * height,
        frame_pixel(bytes, width as int, y * width + x) == (FramePixel {
            x: x as i32,
            y: y as i32,
            on: pixel_lit(bytes, width as int, x, y),
        }),
        frame_pixel(bytes, width as int, k).x == x && frame_pixel(bytes, width as int, k).y == y
            ==> k == y * width + x,
{
    let w = width as int;
    let h = height as int;
    lemma_fundamental_div_mod_converse(y * w + x, w, y, x);
    assert(y * w + x < w * h) by (nonlinear_arith)
        requires
            0 <= x < w,
            0 <= y < h,
    ;
    assert(0 <= y * w) by (nonlinear_arith)
        requires
            0 <= y,
            0 <= w,
    ;
    vstd::arithmetic::div_mod::lemma_fundamental_div_mod(k, w);
    vstd::arithmetic::div_mod::lemma_mod_pos_bound(k, w);
    vstd::arithmetic::div_mod::lemma_div_pos_is_pos(k, w);
    vstd::arithmetic::div_mod::lemma_multiply_divide_lt(k, w, h);
    assert(w * (k / w) == (k / w) * w) by (nonlinear_arith);
}


/// The batches of `n` pixels split them without gap or overlap: no batch for
/// no pixel; otherwise every batch holds 1 to 256 pixels, all but the last
/// exactly 256, and the last ends at pixel `n`.
pub proof fn lemma_batches_partition(n: int)
    requires
        n >= 0,
    ensures
        n == 0 ==> batch_count(n) == 0,
        n > 0 ==> batch_count(n) >= 1 && 256 * (batch_count(n) - 1) < n <= 256 * batch_count(n),
        forall|b: int|
            0 <= b < batch_count(n) ==> 1 <= #[trigger] batch_len(n, b) <= 256 && (b < batch_count(n) - 1
                ==> batch_len(n, b) == 256) && (b == batch_count(n) - 1 ==> 256 * b + batch_len(n, b) == n),
{
    lemma_fundamental_div_mod_converse(n + 255, 256, (n + 255) / 256, (n + 255) % 256);
    vstd::arithmetic::div_mod::lemma_fundamental_div_mod(n + 255, 256);
    vstd::arithmetic::div_mod::lemma_mod_pos_bound(n + 255, 256);
}

} // verus!
