//! The resizer: computes the target pixel dimensions for each glyph mode
//! from the requested column width and the source aspect ratio, and
//! delegates the resampling itself to the image-codec collaborator's
//! Lanczos filter.

use vstd::prelude::*;

use crate::pixels::{RasterImage, RasterView};
use crate::render::RenderMode;

verus! {

/// What the collaborator's Lanczos resampling returns for a given RGBA
/// buffer and dimension pair: a function of the source pixels and the two
/// dimension pairs alone.
pub uninterp spec fn lanczos_of(data: Seq<u8>, w: int, h: int, tw: int, th: int) -> Seq<u8>;

/// Relies on `image::imageops::resize` with `FilterType::Lanczos3`:
/// resampling depends only on the source buffer and the dimensions, and
/// the returned buffer has exactly the requested dimensions.
#[verifier::external_body]
fn resize_lanczos(img: &RasterImage, tw: u32, th: u32) -> (r: RasterImage)
    requires
        img.well_formed(),
        tw >= 1,
        th >= 1,
        tw as int * th as int * 4 <= usize::MAX as int,
    ensures
        r.width == tw,
        r.height == th,
        r.data@.len() == tw as int * th as int * 4,
        r.data@ == lanczos_of(img.data@, img@.width, img@.height, tw as int, th as int),
{
    let buf = image::RgbaImage::from_raw(img.width, img.height, img.data.clone()).unwrap();
    let resized = image::imageops::resize(&buf, tw, th, image::imageops::FilterType::Lanczos3);
    RasterImage { width: tw, height: th, data: resized.into_raw() }
}

/// The requested column width, clamped to at least one column: a width of
/// zero is a configuration degeneracy and degrades to the minimum rather
/// than failing.
pub open spec fn clamp_width(w: int) -> int {
    if w < 1 {
        1
    } else {
        w
    }
}

/// The aspect-scaled pixel height for `cols` columns of square pixels:
/// `cols * ih / iw`, rounded down.
pub open spec fn aspect_height(cols: int, iw: int, ih: int) -> int {
    cols * ih / iw
}

/// The target pixel dimensions for a glyph mode, requested width and
/// source dimensions.
///
/// - Half-block: one terminal row shows two pixel rows, so the height is
///   the aspect height rounded up to even, at least 2.
/// - Braille: one cell shows a 2x4 dot block, so the width doubles and the
///   height is four times the aspect-scaled terminal row count, at least 4.
/// - Ascii: one cell per pixel; terminal cells are about twice as tall as
///   wide, so the height is half the aspect height, at least 1.
pub open spec fn target_dims(mode: RenderMode, width: int, iw: int, ih: int) -> (int, int) {
    let cols = clamp_width(width);
    match mode {
        RenderMode::HalfBlock => {
            let h0 = aspect_height(cols, iw, ih);
            let he = h0 + (h0 % 2);
            (cols, if he < 2 {
                2
            } else {
                he
            })
        },
        RenderMode::Braille => {
            let rows = cols * ih / (2 * iw);
            (2 * cols, if 4 * rows < 4 {
                4
            } else {
                4 * rows
            })
        },
        RenderMode::Ascii => {
            let h0 = cols * ih / (2 * iw);
            (cols, if h0 < 1 {
                1
            } else {
                h0
            })
        },
    }
}

/// Both target dimensions are at least one pixel.
pub proof fn lemma_target_dims_pos(mode: RenderMode, width: int, iw: int, ih: int)
    requires
        iw >= 1,
        ih >= 0,
    ensures
        target_dims(mode, width, iw, ih).0 >= 1,
        target_dims(mode, width, iw, ih).1 >= 1,
{
    let cols = clamp_width(width);
    vstd::arithmetic::div_mod::lemma_div_pos_is_pos(cols * ih, iw);
    vstd::arithmetic::div_mod::lemma_div_pos_is_pos(cols * ih, 2 * iw);
    assert(cols * ih >= 0) by (nonlinear_arith)
        requires
            cols >= 1,
            ih >= 0,
    ;
    vstd::arithmetic::div_mod::lemma_mod_bound(aspect_height(cols, iw, ih), 2);
}

/// Whether the target dimensions fit the machine: each axis fits a `u32`
/// and the resized buffers fit in memory indexable by `usize`.
pub open spec fn dims_fit(mode: RenderMode, width: int, iw: int, ih: int) -> bool {
    let d = target_dims(mode, width, iw, ih);
    &&& d.0 <= u32::MAX as int
    &&& d.1 <= u32::MAX as int
    &&& 8 * d.0 * d.1 <= usize::MAX as int
}

/// Computes the target dimensions for a mode; the exec counterpart of
/// `target_dims`.
pub fn compute_target_dims(mode: RenderMode, width: u32, iw: u32, ih: u32) -> (d: (u32, u32))
    requires
        iw >= 1,
        dims_fit(mode, width as int, iw as int, ih as int),
    ensures
        d.0 as int == target_dims(mode, width as int, iw as int, ih as int).0,
        d.1 as int == target_dims(mode, width as int, iw as int, ih as int).1,
        d.0 >= 1,
        d.1 >= 1,
{
    proof {
        lemma_target_dims_pos(mode, width as int, iw as int, ih as int);
    }
    let cols: u64 = if width < 1 {
        1
    } else {
        width as u64
    };
    proof {
        assert(cols as int * ih as int <= 0xFFFF_FFFF * 0xFFFF_FFFF && (ih as int >= 1 ==> cols
            as int * ih as int >= 1)) by (nonlinear_arith)
            requires
                1 <= cols <= 0xFFFF_FFFF,
                ih <= 0xFFFF_FFFF,
        ;
        assert(cols as int * ih as int / (iw as int) <= cols as int * ih as int && cols as int
            * ih as int / (2 * iw as int) <= cols as int * ih as int) by (nonlinear_arith)
            requires
                iw >= 1,
                cols as int * ih as int >= 0,
        ;
    }
    match mode {
        RenderMode::HalfBlock => {
            let h0: u64 = cols * (ih as u64) / (iw as u64);
            let he: u64 = h0 + (h0 % 2);
            let th: u64 = if he < 2 {
                2
            } else {
                he
            };
            (cols as u32, th as u32)
        },
        RenderMode::Braille => {
            let rows: u64 = cols * (ih as u64) / (2 * (iw as u64));
            let th: u64 = if rows < 1 {
                4
            } else {
                4 * rows
            };
            ((2 * cols) as u32, th as u32)
        },
        RenderMode::Ascii => {
            let h0: u64 = cols * (ih as u64) / (2 * (iw as u64));
            let th: u64 = if h0 < 1 {
                1
            } else {
                h0
            };
            (cols as u32, th as u32)
        },
    }
}

/// Resamples an image to the target dimensions of the given mode with the
/// collaborator's Lanczos filter.
pub fn resize_for_mode(img: &RasterImage, mode: RenderMode, width: u32) -> (out: RasterImage)
    requires
        img.well_formed(),
        dims_fit(mode, width as int, img@.width, img@.height),
    ensures
        out.well_formed(),
        out@.width == target_dims(mode, width as int, img@.width, img@.height).0,
        out@.height == target_dims(mode, width as int, img@.width, img@.height).1,
        out@.data == lanczos_of(
            img@.data,
            img@.width,
            img@.height,
            out@.width,
            out@.height,
        ),
{
    let (tw, th) = compute_target_dims(mode, width, img.width, img.height);
    proof {
        let d = target_dims(mode, width as int, img@.width, img@.height);
        assert(4 * d.0 * d.1 <= 8 * d.0 * d.1 && tw as int * th as int * 4 == 4 * d.0 * d.1)
            by (nonlinear_arith)
            requires
                d.0 >= 1,
                d.1 >= 1,
                tw as int == d.0,
                th as int == d.1,
        ;
    }
    resize_lanczos(img, tw, th)
}

} // verus!
