//! The plain-text pixel stream.
//!
//! A rendered image can be emitted as text: a `P3` header carrying the
//! image size and the channel maximum, then one `R G B` line per pixel,
//! rows top to bottom. The render loop's buffer keeps row 0 at the bottom
//! of the image, so the stream walks the rows mirrored.

use vstd::prelude::*;

use crate::decimal::{dec_digits, u64_to_decimal};
use crate::{flip_vertical, flipped_seq};

verus! {

/// The text of the stream's header for a `width` by `height` image.
pub open spec fn ppm_header(width: int, height: int) -> Seq<char> {
    "P3\n"@ + dec_digits(width as nat) + " "@ + dec_digits(height as nat) + "\n255\n"@
}

/// The text of one pixel's line.
pub open spec fn ppm_line(p: (u8, u8, u8)) -> Seq<char> {
    dec_digits(p.0 as nat) + " "@ + dec_digits(p.1 as nat) + " "@ + dec_digits(p.2 as nat) + "\n"@
}

/// The concatenated lines of the first `j` pixels of `pixels`.
pub open spec fn ppm_lines_upto(pixels: Seq<(u8, u8, u8)>, j: int) -> Seq<char>
    decreases j,
{
    if j <= 0 {
        Seq::empty()
    } else {
        ppm_lines_upto(pixels, j - 1) + ppm_line(pixels[j - 1])
    }
}

/// The whole stream for a buffer with row 0 at the bottom: the header,
/// then every pixel's line, rows emitted top to bottom.
pub open spec fn ppm_image_text(pixels: Seq<(u8, u8, u8)>, width: int, height: int) -> Seq<char> {
    ppm_header(width, height) + ppm_lines_upto(
        flipped_seq(pixels, width, height),
        pixels.len() as int,
    )
}

/// Renders one pixel's line of the stream.
pub fn ppm_pixel_line(p: (u8, u8, u8)) -> (s: String)
    ensures
        s@ == ppm_line(p),
{
    let mut s = u64_to_decimal(p.0 as u64);
    s.append(" ");
    let g = u64_to_decimal(p.1 as u64);
    s.append(g.as_str());
    s.append(" ");
    let b = u64_to_decimal(p.2 as u64);
    s.append(b.as_str());
    s.append("\n");
    s
}

/// Renders the whole stream for a row-major pixel buffer with row 0 at
/// the bottom of the image.
pub fn ppm_image(width: u32, height: u32, pixels: &Vec<(u8, u8, u8)>) -> (s: String)
    requires
        width > 0,
        pixels@.len() == width * height,
    ensures
        s@ == ppm_image_text(pixels@, width as int, height as int),
{
    let flipped = flip_vertical(width, height, pixels);
    proof {
        assert(flipped@ =~= flipped_seq(pixels@, width as int, height as int));
    }
    let mut s = String::from_str("P3\n");
    let w_digits = u64_to_decimal(width as u64);
    s.append(w_digits.as_str());
    s.append(" ");
    let h_digits = u64_to_decimal(height as u64);
    s.append(h_digits.as_str());
    s.append("\n255\n");
    let n = flipped.len();
    let mut j: usize = 0;
    while j < n
        invariant
            n == flipped@.len(),
            j <= n,
            s@ == ppm_header(width as int, height as int) + ppm_lines_upto(flipped@, j as int),
        decreases n - j,
    {
        let line = ppm_pixel_line(flipped[j]);
        s.append(line.as_str());
        j += 1;
    }
    s
}

} // verus!
