//! Edge enhancement by unsharp masking: a Gaussian-blurred copy of the
//! image is computed by the image-codec collaborator, and each color
//! channel is pushed away from its blurred value by half the difference,
//! clamped to the byte range. Alpha passes through unchanged.

use vstd::prelude::*;

use crate::pixels::{RasterImage, RasterView};

verus! {

/// What the collaborator's Gaussian blur (radius 1) returns for a given
/// RGBA buffer: a function of the pixel data and dimensions alone.
pub uninterp spec fn blur_of(data: Seq<u8>, w: int, h: int) -> Seq<u8>;

/// Relies on `image::imageops::blur`: a Gaussian blur with sigma 1, whose
/// result depends only on the pixel buffer and its dimensions, and whose
/// output buffer has the input's dimensions.
#[verifier::external_body]
fn gaussian_blur(img: &RasterImage) -> (r: RasterImage)
    requires
        img.well_formed(),
    ensures
        r.width == img.width,
        r.height == img.height,
        r.data@.len() == img.data@.len(),
        r.data@ == blur_of(img.data@, img@.width, img@.height),
{
    let buf = image::RgbaImage::from_raw(img.width, img.height, img.data.clone()).unwrap();
    let blurred = image::imageops::blur(&buf, 1u8.into());
    RasterImage { width: img.width, height: img.height, data: blurred.into_raw() }
}

/// One sharpened channel value: the original plus half the difference
/// between the original and its blurred value (that is, the rounded-down
/// value of `orig + (orig - blur) / 2`), clamped to the byte range.
pub open spec fn sharpen_channel(orig: int, blur: int) -> int {
    let half = (3 * orig - blur) / 2;
    if half < 0 {
        0
    } else if half > 255 {
        255
    } else {
        half
    }
}

/// The unsharp-masked buffer: every R, G and B byte sharpened against the
/// blurred buffer, every alpha byte kept.
pub open spec fn sharpen_spec(orig: Seq<u8>, blur: Seq<u8>) -> Seq<u8> {
    Seq::new(
        orig.len(),
        |i: int|
            if i % 4 == 3 {
                orig[i]
            } else {
                sharpen_channel(orig[i] as int, blur[i] as int) as u8
            },
    )
}

/// The enhanced image: the unsharp mask of `img` against its blur.
pub open spec fn enhance_spec(img: RasterView) -> RasterView {
    RasterView {
        width: img.width,
        height: img.height,
        data: sharpen_spec(img.data, blur_of(img.data, img.width, img.height)),
    }
}

fn sharpen_channel_of(orig: u8, blur: u8) -> (r: u8)
    ensures
        r == sharpen_channel(orig as int, blur as int),
{
    let s: i32 = 3 * (orig as i32) - (blur as i32);
    if s < 0 {
        proof {
            vstd::arithmetic::div_mod::lemma_div_is_ordered(s as int, 0, 2);
        }
        0
    } else {
        let half: i32 = s / 2;
        if half > 255 {
            255
        } else {
            half as u8
        }
    }
}

/// Sharpens an image by unsharp masking; the result has the same
/// dimensions, and its alpha channel is the original's.
pub fn enhance(img: &RasterImage) -> (out: RasterImage)
    requires
        img.well_formed(),
    ensures
        out@ == enhance_spec(img@),
        out.well_formed(),
        out.width == img.width,
        out.height == img.height,
{
    let blurred = gaussian_blur(img);
    let n: usize = img.data.len();
    let mut data: Vec<u8> = Vec::new();
    let mut i: usize = 0;
    while i < n
        invariant
            img.well_formed(),
            n == img.data@.len(),
            blurred.data@.len() == n,
            blurred.data@ == blur_of(img@.data, img@.width, img@.height),
            i <= n,
            data@.len() == i,
            forall|k: int| 0 <= k < i ==> data@[k] == enhance_spec(img@).data[k],
        decreases n - i,
    {
        let c: u8 = if i % 4 == 3 {
            img.data[i]
        } else {
            sharpen_channel_of(img.data[i], blurred.data[i])
        };
        data.push(c);
        i = i + 1;
    }
    proof {
        assert(data@ =~= enhance_spec(img@).data);
    }
    RasterImage { width: img.width, height: img.height, data }
}

} // verus!
