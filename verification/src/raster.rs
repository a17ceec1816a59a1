//! In-memory grayscale raster and the codec steps that are pure logic:
//! ordered dithering down to a bilevel image, and MSB-first bit-packing with
//! each row padded to a whole byte.

use vstd::prelude::*;

verus! {

/// A row-major grayscale raster, one luma byte per pixel (0 black, 255
/// white).
#[derive(Clone)]
pub struct Raster {
    pub width: u32,
    pub height: u32,
    pub pixels: Vec<u8>,
}

impl Raster {
    /// The pixel buffer holds exactly one byte per pixel.
    pub open spec fn wf(&self) -> bool {
        self.pixels@.len() == self.width as int * self.height as int
    }

    /// Builds a raster when the buffer length matches the dimensions.
    pub fn new(width: u32, height: u32, pixels: Vec<u8>) -> (r: Option<Raster>)
        ensures
            match r {
                Some(img) => img.width == width && img.height == height && img.pixels@ == pixels@
                    && img.wf(),
                None => pixels@.len() != width as int * height as int,
            },
    {
        proof {
            lemma_mul_u32_fits(width as int, height as int);
        }
        if (pixels.len() as u64) == (width as u64) * (height as u64) {
            Some(Raster { width, height, pixels })
        } else {
            None
        }
    }
}

/// Number of packed bytes per raster row: one bit per pixel, rounded up to a
/// whole byte.
pub open spec fn spec_bytes_per_row(width: nat) -> nat {
    (width + 7) / 8
}

/// Row stride in packed bytes for a raster `width` pixels wide.
pub fn bytes_per_row(width: u32) -> (r: u32)
    ensures
        r == spec_bytes_per_row(width as nat),
{
    width / 8 + if width % 8 == 0 { 0u32 } else { 1u32 }
}

/// A pixel prints dark when its luma is below the midpoint.
pub open spec fn spec_dark(luma: u8) -> bool {
    luma < 127
}

/// One bit of the packed raster: 1 for a dark pixel, 0 for a bright pixel or
/// for row padding beyond the last column.
pub open spec fn spec_bit(width: nat, pixels: Seq<u8>, row: nat, col: nat) -> nat {
    if col < width && spec_dark(pixels[(row * width + col) as int]) {
        1
    } else {
        0
    }
}

/// Value of the first `k` bits of a packed byte, most significant bit first.
pub open spec fn spec_packed_prefix(
    width: nat,
    pixels: Seq<u8>,
    row: nat,
    byte: nat,
    k: nat,
) -> nat
    decreases k,
{
    if k == 0 {
        0
    } else {
        spec_packed_prefix(width, pixels, row, byte, (k - 1) as nat) * 2 + spec_bit(
            width,
            pixels,
            row,
            byte * 8 + (k - 1) as nat,
        )
    }
}

/// Largest value the first `k` bits of a packed byte can take.
pub open spec fn spec_prefix_cap(k: nat) -> nat {
    if k == 0 {
        0
    } else if k == 1 {
        1
    } else if k == 2 {
        3
    } else if k == 3 {
        7
    } else if k == 4 {
        15
    } else if k == 5 {
        31
    } else if k == 6 {
        63
    } else if k == 7 {
        127
    } else {
        255
    }
}

/// The product of two 32-bit values fits in 64 bits.
pub(crate) proof fn lemma_mul_u32_fits(a: int, b: int)
    by (nonlinear_arith)
    requires
        0 <= a < 0x1_0000_0000,
        0 <= b < 0x1_0000_0000,
    ensures
        0 <= a * b <= 0xFFFF_FFFE_0000_0001,
{
}

/// A row-major index stays within a `w`-by-`h` buffer.
proof fn lemma_row_major_bound(w: int, h: int, r: int, c: int)
    by (nonlinear_arith)
    requires
        0 <= r < h,
        0 <= c < w,
    ensures
        0 <= r * w + c < w * h,
{
}

/// Row and column recovered from a row-major index.
proof fn lemma_row_major_divmod(w: int, r: int, c: int)
    by (nonlinear_arith)
    requires
        0 <= c < w,
        0 <= r,
    ensures
        (w * r + c) / w == r,
        (w * r + c) % w == c,
{
}

/// One more full row extends a row-major buffer by `w`.
proof fn lemma_mul_row_step(w: int, r: int)
    by (nonlinear_arith)
    ensures
        w * r + w == w * (r + 1),
{
}

/// One packed byte: eight MSB-first bits starting at pixel column `byte * 8`.
pub open spec fn spec_packed_byte(width: nat, pixels: Seq<u8>, row: nat, byte: nat) -> u8 {
    spec_packed_prefix(width, pixels, row, byte, 8) as u8
}

/// The packed raster: `spec_bytes_per_row(width) * height` bytes, row by
/// row.
pub open spec fn spec_bit_encode(width: nat, height: nat, pixels: Seq<u8>) -> Seq<u8> {
    Seq::new(
        spec_bytes_per_row(width) * height,
        |i: int|
            spec_packed_byte(
                width,
                pixels,
                (i / spec_bytes_per_row(width) as int) as nat,
                (i % spec_bytes_per_row(width) as int) as nat,
            ),
    )
}

/// Packs a raster into bytes, one bit per pixel, MSB first, each row padded
/// to a whole byte. Dark pixels become 1 bits.
pub fn bit_encode(img: &Raster) -> (r: Vec<u8>)
    requires
        img.wf(),
    ensures
        r@ == spec_bit_encode(img.width as nat, img.height as nat, img.pixels@),
        r@.len() == spec_bytes_per_row(img.width as nat) * img.height as nat,
{
    let ghost width = img.width as nat;
    let ghost pixels = img.pixels@;
    let bpr = bytes_per_row(img.width);
    let mut out: Vec<u8> = Vec::new();
    let mut row: u32 = 0;
    while row < img.height
        invariant
            img.wf(),
            bpr == spec_bytes_per_row(img.width as nat),
            0 <= row <= img.height,
            out@.len() == bpr as int * row as int,
            forall|i: int|
                0 <= i < out@.len() ==> out@[i] == spec_packed_byte(
                    img.width as nat,
                    img.pixels@,
                    (i / bpr as int) as nat,
                    (i % bpr as int) as nat,
                ),
        decreases img.height - row,
    {
        let mut b: u32 = 0;
        while b < bpr
            invariant
                img.wf(),
                bpr == spec_bytes_per_row(img.width as nat),
                0 <= row < img.height,
                0 <= b <= bpr,
                out@.len() == bpr as int * row as int + b as int,
                forall|i: int|
                    0 <= i < out@.len() ==> out@[i] == spec_packed_byte(
                        img.width as nat,
                        img.pixels@,
                        (i / bpr as int) as nat,
                        (i % bpr as int) as nat,
                    ),
            decreases bpr - b,
        {
            let mut byte: u8 = 0;
            let mut k: u32 = 0;
            while k < 8
                invariant
                    img.wf(),
                    0 <= row < img.height,
                    b < bpr,
                    bpr == spec_bytes_per_row(img.width as nat),
                    0 <= k <= 8,
                    byte as nat == spec_packed_prefix(
                        img.width as nat,
                        img.pixels@,
                        row as nat,
                        b as nat,
                        k as nat,
                    ),
                    byte as nat <= spec_prefix_cap(k as nat),
                decreases 8 - k,
            {
                let col: u64 = b as u64 * 8 + k as u64;
                let dark: bool = if col < img.width as u64 {
                    proof {
                        lemma_mul_u32_fits(row as int, img.width as int);
                        lemma_row_major_bound(
                            img.width as int,
                            img.height as int,
                            row as int,
                            col as int,
                        );
                        assert(img.pixels.len() == img.pixels@.len());
                    }
                    let idx: u64 = row as u64 * img.width as u64 + col;
                    img.pixels[idx as usize] < 127
                } else {
                    false
                };
                proof {
                    let w = img.width as nat;
                    let px = img.pixels@;
                    assert(spec_packed_prefix(w, px, row as nat, b as nat, (k + 1) as nat)
                        == spec_packed_prefix(w, px, row as nat, b as nat, k as nat) * 2 + spec_bit(
                        w,
                        px,
                        row as nat,
                        b as nat * 8 + k as nat,
                    ));
                    assert(spec_bit(w, px, row as nat, b as nat * 8 + k as nat) == if dark {
                        1nat
                    } else {
                        0nat
                    });
                }
                byte = byte * 2 + if dark {
                    1
                } else {
                    0
                };
                k = k + 1;
            }
            proof {
                lemma_row_major_divmod(bpr as int, row as int, b as int);
            }
            out.push(byte);
            b = b + 1;
        }
        row = row + 1;
        proof {
            lemma_mul_row_step(bpr as int, row as int - 1);
        }
    }
    proof {
        assert(out@ =~= spec_bit_encode(img.width as nat, img.height as nat, img.pixels@));
    }
    out
}

/// Entry `x`, `y` of the 8-by-8 ordered-dither index matrix, a value 0 to
/// 63; `x` and `y` are taken modulo 8.
pub open spec fn spec_bayer8(x: nat, y: nat) -> nat {
    let bx0 = x % 2;
    let by0 = y % 2;
    let bx1 = (x / 2) % 2;
    let by1 = (y / 2) % 2;
    let bx2 = (x / 4) % 2;
    let by2 = (y / 4) % 2;
    32 * ((bx0 + by0) % 2) + 16 * by0 + 8 * ((bx1 + by1) % 2) + 4 * by1 + 2 * ((bx2 + by2) % 2)
        + by2
}

/// A dithered pixel: dark (0) when the luma falls below the cell's
/// threshold, bright (255) otherwise.
pub open spec fn spec_dither_pixel(luma: u8, x: nat, y: nat) -> u8 {
    if (luma as nat) < 4 * spec_bayer8(x % 8, y % 8) + 2 {
        0
    } else {
        255
    }
}

/// The dithered pixel buffer of a raster `width` pixels wide.
pub open spec fn spec_dither_seq(width: nat, pixels: Seq<u8>) -> Seq<u8> {
    Seq::new(
        pixels.len(),
        |i: int| spec_dither_pixel(pixels[i], (i % width as int) as nat, (i / width as int) as nat),
    )
}

/// Entry `x`, `y` of the 8-by-8 ordered-dither index matrix.
fn bayer8(x: u32, y: u32) -> (r: u32)
    ensures
        r as nat == spec_bayer8(x as nat, y as nat),
        r < 64,
{
    let bx0 = x % 2;
    let by0 = y % 2;
    let bx1 = (x / 2) % 2;
    let by1 = (y / 2) % 2;
    let bx2 = (x / 4) % 2;
    let by2 = (y / 4) % 2;
    32 * ((bx0 + by0) % 2) + 16 * by0 + 8 * ((bx1 + by1) % 2) + 4 * by1 + 2 * ((bx2 + by2) % 2)
        + by2
}

/// Reduces a grayscale raster to a bilevel one (pixels 0 or 255) by ordered
/// dithering with an 8-by-8 index matrix, so that midtones become pixel
/// patterns rather than banded solid regions.
pub fn dither(img: &Raster) -> (r: Raster)
    requires
        img.wf(),
    ensures
        r.width == img.width,
        r.height == img.height,
        r.wf(),
        r.pixels@ == spec_dither_seq(img.width as nat, img.pixels@),
{
    let mut out: Vec<u8> = Vec::new();
    let mut y: u32 = 0;
    while y < img.height
        invariant
            img.wf(),
            0 <= y <= img.height,
            out@.len() == img.width as int * y as int,
            forall|i: int|
                0 <= i < out@.len() ==> out@[i] == spec_dither_pixel(
                    img.pixels@[i],
                    (i % img.width as int) as nat,
                    (i / img.width as int) as nat,
                ),
        decreases img.height - y,
    {
        let mut x: u32 = 0;
        while x < img.width
            invariant
                img.wf(),
                0 <= y < img.height,
                0 <= x <= img.width,
                out@.len() == img.width as int * y as int + x as int,
                forall|i: int|
                    0 <= i < out@.len() ==> out@[i] == spec_dither_pixel(
                        img.pixels@[i],
                        (i % img.width as int) as nat,
                        (i / img.width as int) as nat,
                    ),
            decreases img.width - x,
        {
            proof {
                lemma_mul_u32_fits(y as int, img.width as int);
                lemma_row_major_bound(img.width as int, img.height as int, y as int, x as int);
                lemma_row_major_divmod(img.width as int, y as int, x as int);
                assert(img.pixels.len() == img.pixels@.len());
            }
            let idx: u64 = y as u64 * img.width as u64 + x as u64;
            let luma = img.pixels[idx as usize];
            let threshold = 4 * bayer8(x % 8, y % 8) + 2;
            let value: u8 = if (luma as u32) < threshold {
                0
            } else {
                255
            };
            proof {
                assert(value == spec_dither_pixel(img.pixels@[idx as int], x as nat, y as nat));
            }
            out.push(value);
            proof {
                let i0 = out@.len() - 1;
                assert(i0 == img.width as int * y as int + x as int);
                assert(out@[i0] == value);
                assert(y as int * img.width as int == img.width as int * y as int)
                    by (nonlinear_arith);
                assert(idx as int == i0);
                assert(img.pixels@[i0] == img.pixels@[idx as int]);
                assert(i0 % (img.width as int) == x as int);
                assert(i0 / (img.width as int) == y as int);
                assert(out@[i0] == spec_dither_pixel(
                    img.pixels@[i0],
                    (i0 % img.width as int) as nat,
                    (i0 / img.width as int) as nat,
                ));
            }
            x = x + 1;
        }
        y = y + 1;
        proof {
            lemma_mul_row_step(img.width as int, y as int - 1);
        }
    }
    let r = Raster { width: img.width, height: img.height, pixels: out };
    proof {
        assert(r.pixels@ =~= spec_dither_seq(img.width as nat, img.pixels@));
    }
    r
}

} // verus!
