//! Binary PPM (P6) encoding of a pixel buffer.

use vstd::prelude::*;
use crate::image::Color;

verus! {

/// The ASCII decimal digits of `n`, most significant first, with no sign and
/// no leading zero (the single digit `0` when `n == 0`).
pub open spec fn decimal_digits(n: nat) -> Seq<u8>
    decreases n,
{
    if n < 10 {
        seq![(n + 48) as u8]
    } else {
        decimal_digits(n / 10) + seq![((n % 10) + 48) as u8]
    }
}

/// Appends the ASCII decimal digits of `n` to `out`.
fn push_decimal(n: usize, out: &mut Vec<u8>)
    ensures
        final(out)@ == old(out)@ + decimal_digits(n as nat),
    decreases n,
{
    if n >= 10 {
        push_decimal(n / 10, out);
    }
    out.push((n % 10) as u8 + 48);
    assert(out@ =~= old(out)@ + decimal_digits(n as nat));
}

/// The header of a P6 pixel map: the ASCII bytes of `"P6\n"`, the decimal
/// width, one space, the decimal height, `"\n"`, and the maximum channel
/// value `"255\n"`.
pub open spec fn ppm_header(width: nat, height: nat) -> Seq<u8> {
    seq![80u8, 54u8, 10u8] + decimal_digits(width) + seq![32u8] + decimal_digits(height)
        + seq![10u8, 50u8, 53u8, 53u8, 10u8]
}

/// The three channel bytes of one pixel, red first.
pub open spec fn color_bytes(c: Color) -> Seq<u8> {
    seq![c.r, c.g, c.b]
}

/// The raw pixel section of a P6 pixel map: three bytes per pixel, in buffer
/// order, with no padding.
pub open spec fn pixel_data(pixels: Seq<Color>) -> Seq<u8>
    decreases pixels.len(),
{
    if pixels.len() == 0 {
        Seq::empty()
    } else {
        pixel_data(pixels.drop_last()) + color_bytes(pixels.last())
    }
}

/// The pixel section takes exactly three bytes per pixel: no padding,
/// trailers, or per-row alignment.
pub proof fn lemma_pixel_data_len(pixels: Seq<Color>)
    ensures
        pixel_data(pixels).len() == 3 * pixels.len(),
    decreases pixels.len(),
{
    if pixels.len() > 0 {
        lemma_pixel_data_len(pixels.drop_last());
    }
}

/// The whole P6 pixel map: header, then the raw pixel bytes.
pub open spec fn ppm_encoding(width: nat, height: nat, pixels: Seq<Color>) -> Seq<u8> {
    ppm_header(width, height) + pixel_data(pixels)
}

/// Serializes a pixel buffer of exactly `width * height` colors, row-major,
/// into the binary P6 pixel-map format.
pub fn ppm_bytes(width: usize, height: usize, img: &[Color]) -> (r: Vec<u8>)
    requires
        img@.len() == width * height,
    ensures
        r@ == ppm_encoding(width as nat, height as nat, img@),
        r@.len() == ppm_header(width as nat, height as nat).len() + 3 * img@.len(),
{
    proof {
        lemma_pixel_data_len(img@);
    }
    let mut data: Vec<u8> = Vec::new();
    data.push(80);
    data.push(54);
    data.push(10);
    push_decimal(width, &mut data);
    data.push(32);
    push_decimal(height, &mut data);
    data.push(10);
    data.push(50);
    data.push(53);
    data.push(53);
    data.push(10);
    assert(data@ =~= ppm_header(width as nat, height as nat));
    let ghost header = data@;
    let mut i: usize = 0;
    while i < img.len()
        invariant
            i <= img@.len(),
            header == ppm_header(width as nat, height as nat),
            data@ == header + pixel_data(img@.take(i as int)),
        decreases img@.len() - i,
    {
        let c = img[i];
        data.push(c.r);
        data.push(c.g);
        data.push(c.b);
        proof {
            let taken = img@.take(i + 1);
            assert(taken.drop_last() =~= img@.take(i as int));
            assert(taken.last() == img@[i as int]);
            assert(data@ =~= header + pixel_data(taken));
        }
        i += 1;
    }
    proof {
        assert(img@.take(img@.len() as int) =~= img@);
    }
    data
}

/// The encoding is a function of the dimensions and the pixel buffer alone:
/// any two byte strings that the encoder's contract admits for the same
/// inputs are equal, so repeated runs over identical inputs are
/// byte-identical.
pub proof fn lemma_ppm_encoding_deterministic(
    width: nat,
    height: nat,
    pixels: Seq<Color>,
    a: Seq<u8>,
    b: Seq<u8>,
)
    requires
        a == ppm_encoding(width, height, pixels),
        b == ppm_encoding(width, height, pixels),
    ensures
        a == b,
{
}

} // verus!
