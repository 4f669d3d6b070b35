//! Raw RGBA pixel buffers and region cropping.
//!
//! A `PixelBuffer` carries width, height and a byte vector of RGBA8
//! samples. It is valid exactly when the byte vector holds
//! `width * height * 4` bytes and describes at least one pixel; an invalid
//! buffer is rejected before encoding or clipboard transfer. Cropping is
//! performed on a full buffer already in memory, never by a second capture.
use vstd::prelude::*;
use vstd::arithmetic::div_mod::lemma_fundamental_div_mod;
use vstd::arithmetic::div_mod::lemma_multiply_divide_lt;
use vstd::arithmetic::mul::lemma_mul_is_commutative;

verus! {

/// Raw RGBA8 samples with declared dimensions.
#[derive(Debug, PartialEq, Eq)]
pub struct PixelBuffer {
    /// Width in pixels.
    pub width: u32,
    /// Height in pixels.
    pub height: u32,
    /// RGBA8 samples, row-major, four bytes per pixel.
    pub data: Vec<u8>,
}

impl PixelBuffer {
    /// The buffer invariant: the byte vector length matches the declared
    /// dimensions exactly, and the buffer describes at least one pixel.
    pub open spec fn valid(self) -> bool {
        &&& self.data@.len() == self.width * self.height * 4
        &&& self.width >= 1
        &&& self.height >= 1
    }

    /// The byte of channel `ch` of the pixel at column `col`, row `row`.
    pub open spec fn byte_at(self, col: int, row: int, ch: int) -> u8 {
        self.data@[(row * self.width + col) * 4 + ch]
    }

    /// Checks the buffer invariant.
    pub fn is_valid(&self) -> (r: bool)
        ensures
            r == self.valid(),
    {
        if self.width == 0 || self.height == 0 {
            return false;
        }
        let len: usize = self.data.len();
        proof {
            let w = self.width as int;
            let h = self.height as int;
            assert(w * h <= 0xffff_ffff * 0xffff_ffff) by (nonlinear_arith)
                requires
                    0 <= w <= 0xffff_ffff,
                    0 <= h <= 0xffff_ffff,
            ;
        }
        let wh: u64 = (self.width as u64) * (self.height as u64);
        if wh > u64::MAX / 4 {
            // The required length would exceed any vector's length.
            return false;
        }
        let need: u64 = wh * 4;
        (len as u64) == need
    }
}

/// Flat byte positions of earlier pixels precede the position where the
/// pixel at (`row`, `col`) starts.
proof fn lemma_flat_index_lt(r2: int, c2: int, ch: int, row: int, col: int, w: int)
    by (nonlinear_arith)
    requires
        0 <= ch < 4,
        0 <= c2 < w,
        0 <= r2,
        0 <= col,
        0 <= row,
        r2 < row || (r2 == row && c2 < col),
    ensures
        0 <= (r2 * w + c2) * 4 + ch < row * w * 4 + col * 4,
{
}

/// A pixel position inside a `rows` x `cols` grid has its bytes inside the
/// grid's flat byte range.
proof fn lemma_flat_index_bound(r2: int, c2: int, ch: int, rows: int, cols: int)
    by (nonlinear_arith)
    requires
        0 <= ch < 4,
        0 <= c2 < cols,
        0 <= r2 < rows,
    ensures
        0 <= (r2 * cols + c2) * 4 + ch < cols * rows * 4,
{
}

/// Copies the `w` x `h` region whose top-left corner is (`x`, `y`) out of a
/// valid full buffer. The result holds exactly `w * h * 4` bytes, and each
/// of its pixels equals the source pixel offset by (`x`, `y`).
pub fn crop(src: &PixelBuffer, x: u32, y: u32, w: u32, h: u32) -> (r: PixelBuffer)
    requires
        src.valid(),
        x + w <= src.width,
        y + h <= src.height,
        w >= 1,
        h >= 1,
    ensures
        r.width == w,
        r.height == h,
        r.valid(),
        forall|row: int, col: int, ch: int|
            0 <= row < h && 0 <= col < w && 0 <= ch < 4 ==> r.byte_at(col, row, ch) == src.byte_at(
                x + col,
                y + row,
                ch,
            ),
{
    let big_w: usize = src.width as usize;
    let mut data: Vec<u8> = Vec::new();
    let mut row: u32 = 0;
    while row < h
        invariant
            src.valid(),
            x + w <= src.width,
            y + h <= src.height,
            w >= 1,
            h >= 1,
            big_w == src.width,
            0 <= row <= h,
            data@.len() == row * w * 4,
            forall|r2: int, c2: int, ch: int|
                0 <= r2 < row && 0 <= c2 < w && 0 <= ch < 4 ==> #[trigger] data@[(r2 * w + c2) * 4
                    + ch] == src.byte_at(x + c2, y + r2, ch),
        decreases h - row,
    {
        let mut col: u32 = 0;
        while col < w
            invariant
                src.valid(),
                x + w <= src.width,
                y + h <= src.height,
                w >= 1,
                h >= 1,
                big_w == src.width,
                0 <= row < h,
                0 <= col <= w,
                data@.len() == row * w * 4 + col * 4,
                forall|r2: int, c2: int, ch: int|
                    (0 <= r2 < row || (r2 == row && 0 <= c2 < col)) && 0 <= c2 < w && 0 <= ch < 4
                        ==> #[trigger] data@[(r2 * w + c2) * 4 + ch] == src.byte_at(
                        x + c2,
                        y + r2,
                        ch,
                    ),
            decreases w - col,
        {
            let sy: usize = (y + row) as usize;
            let sx: usize = (x + col) as usize;
            let src_len: usize = src.data.len();
            proof {
                let wi = src.width as int;
                let hi = src.height as int;
                lemma_flat_index_bound(sy as int, sx as int, 0, hi, wi);
                lemma_flat_index_bound(sy as int, sx as int, 3, hi, wi);
                assert(src_len == wi * hi * 4) by {
                    assert(wi * hi == hi * wi) by (nonlinear_arith);
                }
                assert(((sy as int) * (big_w as int) + (sx as int)) * 4 + 3 < src_len);
            }
            let base: usize = (sy * big_w + sx) * 4;
            data.push(src.data[base]);
            data.push(src.data[base + 1]);
            data.push(src.data[base + 2]);
            data.push(src.data[base + 3]);
            proof {
                assert forall|r2: int, c2: int, ch: int|
                    (0 <= r2 < row || (r2 == row && 0 <= c2 < col + 1)) && 0 <= c2 < w && 0 <= ch
                        < 4 implies #[trigger] data@[(r2 * w + c2) * 4 + ch] == src.byte_at(
                    x + c2,
                    y + r2,
                    ch,
                ) by {
                    if r2 < row || (r2 == row && c2 < col) {
                        lemma_flat_index_lt(r2, c2, ch, row as int, col as int, w as int);
                    } else {
                        assert((r2 * w + c2) * 4 + ch == row * w * 4 + col * 4 + ch);
                    }
                }
            }
            col += 1;
        }
        proof {
            let ri = row as int;
            let wi = w as int;
            assert((ri + 1) * wi * 4 == ri * wi * 4 + wi * 4) by (nonlinear_arith);
        }
        row += 1;
    }
    proof {
        assert(h * w * 4 == w * h * 4) by (nonlinear_arith);
    }
    PixelBuffer { width: w, height: h, data }
}

/// The byte stream of the `w` x `h` region of `src` at (`x`, `y`), as one
/// flat row-major RGBA sequence: byte `k` belongs to channel `k % 4` of
/// the region pixel numbered `k / 4`.
pub open spec fn region_bytes(src: PixelBuffer, x: u32, y: u32, w: u32, h: u32) -> Seq<u8> {
    Seq::new(
        (w * h * 4) as nat,
        |k: int|
            src.byte_at(x + ((k / 4) % (w as int)), y + ((k / 4) / (w as int)), k % 4),
    )
}

/// A buffer whose pixels equal the (`x`, `y`)-offset pixels of `src` is,
/// as a flat byte sequence, exactly `region_bytes`.
pub proof fn lemma_region_bytes(src: PixelBuffer, b: PixelBuffer, x: u32, y: u32, w: u32, h: u32)
    requires
        w >= 1,
        b.width == w,
        b.height == h,
        b.data@.len() == w * h * 4,
        forall|row: int, col: int, ch: int|
            0 <= row < h && 0 <= col < w && 0 <= ch < 4 ==> b.byte_at(col, row, ch) == src.byte_at(
                x + col,
                y + row,
                ch,
            ),
    ensures
        b.data@ == region_bytes(src, x, y, w, h),
{
    let wi = w as int;
    let hi = h as int;
    assert forall|k: int| 0 <= k < b.data@.len() implies b.data@[k] == region_bytes(
        src,
        x,
        y,
        w,
        h,
    )[k] by {
        let p = k / 4;
        let ch = k % 4;
        let row = p / wi;
        let col = p % wi;
        lemma_fundamental_div_mod(k, 4);
        lemma_fundamental_div_mod(p, wi);
        assert(wi * hi * 4 == 4 * (wi * hi) && wi * row == row * wi) by (nonlinear_arith);
        lemma_multiply_divide_lt(k, 4, wi * hi);
        lemma_multiply_divide_lt(p, wi, hi);
        assert(k == (row * wi + col) * 4 + ch);
        assert(b.byte_at(col, row, ch) == src.byte_at(x + col, y + row, ch));
    }
    assert(b.data@ =~= region_bytes(src, x, y, w, h));
}

} // verus!
