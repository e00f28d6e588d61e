//! Discrete core of a Monte-Carlo ray tracer.
//!
//! The renderer's floating-point geometry (surfaces, materials, the camera)
//! lives outside this crate; what is collected here is the part of the
//! renderer that is exact integer and string computation, with contracts:
//! pixel-job indexing, the vertical flip of the output buffer, the plain-text
//! pixel stream, the Perlin lattice permutations, decoded image buffers, the
//! construction schedule of the bounding-volume hierarchy, the recursion
//! cutoff of the integrator, and the elapsed-time report.

use vstd::prelude::*;

use vstd::arithmetic::div_mod::{
    lemma_fundamental_div_mod, lemma_fundamental_div_mod_converse,
    lemma_mod_division_less_than_divisor, lemma_multiply_divide_lt,
};
use vstd::arithmetic::mul::lemma_mul_is_commutative;

pub mod axis;
pub mod bvh;
pub mod decimal;
pub mod elapsed;
pub mod image_texture;
pub mod integrator;
pub mod perlin;
pub mod ppm;

verus! {

/// Maps a flat pixel-job index to `(x, y)` image coordinates for an image
/// `width` pixels wide: jobs are numbered row by row, `x` advancing fastest.
pub fn get_image_coordinates(i: u32, width: u32) -> (coords: (u32, u32))
    requires
        width > 0,
    ensures
        coords.0 == i % width,
        coords.1 == i / width,
{
    let x = i % width;
    let y = i / width;

    (x, y)
}

/// A pixel job's coordinates point back at the job's own slot of the
/// output buffer: rebuilding the flat index from `(x, y)` as `y * width + x`
/// recovers the job index, for every job of every image width.
pub proof fn image_coordinates_roundtrip(i: u32, width: u32)
    requires
        width > 0,
    ensures
        (i / width) * width + (i % width) == i,
{
    lemma_fundamental_div_mod(i as int, width as int);
    lemma_mul_is_commutative(width as int, (i as int) / (width as int));
}

/// Two distinct pixel jobs land in distinct slots: no two jobs of a render
/// ever share a pixel, so their writes never contend.
pub proof fn image_coordinates_injective(i1: u32, i2: u32, width: u32)
    requires
        width > 0,
        i1 != i2,
    ensures
        !(i1 % width == i2 % width && i1 / width == i2 / width),
{
    image_coordinates_roundtrip(i1, width);
    image_coordinates_roundtrip(i2, width);
}

/// Where the pixel at flat index `j` of a vertically flipped buffer comes
/// from in the original buffer: the same column, the row mirrored.
pub open spec fn flipped_index(j: int, width: int, height: int) -> int {
    (height - 1 - j / width) * width + j % width
}

/// A row-major buffer with row 0 at the bottom, reordered so that row 0
/// comes first from the top.
pub open spec fn flipped_seq(pixels: Seq<(u8, u8, u8)>, width: int, height: int) -> Seq<
    (u8, u8, u8),
> {
    Seq::new(pixels.len(), |j: int| pixels[flipped_index(j, width, height)])
}

/// Mirroring the rows of a buffer twice restores it: the vertical flip is
/// its own inverse on every full `width * height` buffer.
pub proof fn flip_vertical_involution(pixels: Seq<(u8, u8, u8)>, width: int, height: int)
    requires
        width > 0,
        pixels.len() == width * height,
    ensures
        flipped_seq(flipped_seq(pixels, width, height), width, height) == pixels,
{
    let once = flipped_seq(pixels, width, height);
    let twice = flipped_seq(once, width, height);
    assert forall|j: int| 0 <= j < pixels.len() implies twice[j] == pixels[j] by {
        let y = j / width;
        let x = j % width;
        lemma_multiply_divide_lt(j, width, height);
        lemma_mod_division_less_than_divisor(j, width);
        lemma_fundamental_div_mod(j, width);
        assert(0 <= (height - 1 - y) * width + x < width * height) by (nonlinear_arith)
            requires
                0 < width,
                0 <= x < width,
                0 <= y < height,
        ;
        lemma_fundamental_div_mod_converse(
            (height - 1 - y) * width + x,
            width,
            height - 1 - y,
            x,
        );
        lemma_mul_is_commutative(width, y);
        assert(flipped_index(flipped_index(j, width, height), width, height) == j);
    }
    assert(twice =~= pixels);
}

/// Flips a row-major pixel buffer vertically. The render loop produces the
/// buffer with row 0 at the bottom of the image; encoders expect row 0 at
/// the top, so the rows are mirrored before the buffer is handed off.
pub fn flip_vertical(width: u32, height: u32, pixels: &Vec<(u8, u8, u8)>) -> (out: Vec<
    (u8, u8, u8),
>)
    requires
        width > 0,
        pixels@.len() == width * height,
    ensures
        out@.len() == pixels@.len(),
        out@ == flipped_seq(pixels@, width as int, height as int),
        forall|j: int|
            0 <= j < out@.len() ==> out@[j] == pixels@[flipped_index(
                j,
                width as int,
                height as int,
            )],
        forall|x: int, y: int|
            0 <= x < width && 0 <= y < height ==> #[trigger] out@[y * (width as int) + x]
                == pixels@[(height - 1 - y) * (width as int) + x],
{
    let w = width as usize;
    let h = height as usize;
    let n = pixels.len();
    let mut out: Vec<(u8, u8, u8)> = Vec::new();
    let mut j: usize = 0;
    while j < n
        invariant
            w == width,
            h == height,
            width > 0,
            n == pixels@.len(),
            pixels@.len() == width * height,
            j <= n,
            out@.len() == j,
            forall|jj: int|
                0 <= jj < j ==> out@[jj] == pixels@[flipped_index(
                    jj,
                    width as int,
                    height as int,
                )],
        decreases n - j,
    {
        let y = j / w;
        let x = j % w;
        proof {
            lemma_multiply_divide_lt(j as int, w as int, h as int);
            lemma_mod_division_less_than_divisor(j as int, w as int);
            assert((h - 1 - y) * w + x < h * w) by (nonlinear_arith)
                requires
                    0 < w,
                    0 <= y < h,
                    0 <= x < w,
            ;
            assert(h * w == pixels@.len()) by (nonlinear_arith)
                requires
                    w == width,
                    h == height,
                    pixels@.len() == width * height,
            ;
        }
        let src = (h - 1 - y) * w + x;
        let p = pixels[src];
        out.push(p);
        j += 1;
    }
    proof {
        let wi = width as int;
        let hi = height as int;
        assert forall|x: int, y: int| 0 <= x < width && 0 <= y < height implies #[trigger] out@[y
            * wi + x] == pixels@[(hi - 1 - y) * wi + x] by {
            lemma_fundamental_div_mod_converse(y * wi + x, wi, y, x);
            assert(0 <= y * wi + x < wi * hi) by (nonlinear_arith)
                requires
                    0 < wi,
                    0 <= x < wi,
                    0 <= y < hi,
            ;
            assert(wi * hi == out@.len()) by (nonlinear_arith)
                requires
                    out@.len() == width * height,
                    wi == width,
                    hi == height,
            ;
            assert(out@[y * wi + x] == pixels@[flipped_index(y * wi + x, wi, hi)]);
        }
        assert(out@ =~= flipped_seq(pixels@, wi, hi));
    }
    out
}

} // verus!
