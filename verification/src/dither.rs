//! The dither engine: plain thresholding, ordered (Bayer) dithering, and
//! Floyd-Steinberg error diffusion over a luminance image.
//!
//! Error diffusion works in fixed point, in units of one sixteenth of a
//! luminance step, so that the four diffused shares of each pixel's error
//! are integers that add back up to exactly that error. Accumulator cells
//! saturate at a bound (`ERR_CAP`) far beyond any value a real image can
//! drive them to, which keeps the pass total for every buffer.

use vstd::prelude::*;
use vstd::arithmetic::div_mod::lemma_fundamental_div_mod_converse;

use crate::pixels::{GrayView, GrayscaleImage};

verus! {

// ─── Plain threshold ─────────────────────────────────────────────────

/// Binarization at the midpoint: luminance 128 and above becomes full
/// white, anything below becomes black.
pub open spec fn threshold_value(v: int) -> int {
    if v >= 128 {
        255
    } else {
        0
    }
}

/// The thresholded luminance image.
pub open spec fn threshold_spec(img: GrayView) -> GrayView {
    GrayView {
        width: img.width,
        height: img.height,
        data: Seq::new(img.data.len(), |i: int| threshold_value(img.data[i] as int) as u8),
    }
}

/// Binarizes a luminance image at the midpoint.
pub fn threshold_image(img: &GrayscaleImage) -> (out: GrayscaleImage)
    requires
        img.well_formed(),
    ensures
        out@ == threshold_spec(img@),
        out.well_formed(),
        out.width == img.width,
        out.height == img.height,
{
    let n: usize = img.data.len();
    let mut data: Vec<u8> = Vec::new();
    let mut i: usize = 0;
    while i < n
        invariant
            n == img.data@.len(),
            i <= n,
            data@.len() == i,
            forall|k: int| 0 <= k < i ==> data@[k] == threshold_spec(img@).data[k],
        decreases n - i,
    {
        let v: u8 = if img.data[i] >= 128 {
            255
        } else {
            0
        };
        data.push(v);
        i = i + 1;
    }
    proof {
        assert(data@ =~= threshold_spec(img@).data);
    }
    GrayscaleImage { width: img.width, height: img.height, data }
}

// ─── Ordered (Bayer) dithering ───────────────────────────────────────

/// The 4x4 Bayer threshold matrix, indexed by `x % 4` and `y % 4`.
pub open spec fn bayer(x: int, y: int) -> int {
    let xm = x % 4;
    let ym = y % 4;
    if ym == 0 {
        if xm == 0 {
            0
        } else if xm == 1 {
            8
        } else if xm == 2 {
            2
        } else {
            10
        }
    } else if ym == 1 {
        if xm == 0 {
            12
        } else if xm == 1 {
            4
        } else if xm == 2 {
            14
        } else {
            6
        }
    } else if ym == 2 {
        if xm == 0 {
            3
        } else if xm == 1 {
            11
        } else if xm == 2 {
            1
        } else {
            9
        }
    } else {
        if xm == 0 {
            15
        } else if xm == 1 {
            7
        } else if xm == 2 {
            13
        } else {
            5
        }
    }
}

/// One ordered-dithered luminance value: the pixel perturbed by half the
/// signed difference between its Bayer threshold (the matrix entry scaled
/// by 16) and the midpoint, clamped to the byte range. The perturbation
/// `(16*bayer - 128) / 2` simplifies to `8*bayer - 64`.
pub open spec fn ordered_value(v: int, x: int, y: int) -> int {
    let adjusted = v + 8 * bayer(x, y) - 64;
    if adjusted < 0 {
        0
    } else if adjusted > 255 {
        255
    } else {
        adjusted
    }
}

/// The ordered-dithered luminance image.
pub open spec fn ordered_spec(img: GrayView) -> GrayView {
    GrayView {
        width: img.width,
        height: img.height,
        data: Seq::new(
            img.data.len(),
            |i: int| ordered_value(img.data[i] as int, i % img.width, i / img.width) as u8,
        ),
    }
}

/// Ordered dithering is periodic in the Bayer matrix: two pixels four
/// columns and four rows apart with the same luminance dither to the same
/// value.
pub proof fn lemma_bayer_periodic(v: int, x: int, y: int)
    requires
        0 <= x,
        0 <= y,
    ensures
        ordered_value(v, x + 4, y + 4) == ordered_value(v, x, y),
{
    assert((x + 4) % 4 == x % 4);
    assert((y + 4) % 4 == y % 4);
}

fn bayer_of(x: usize, y: usize) -> (t: u8)
    ensures
        t == bayer(x as int, y as int),
{
    let xm: usize = x % 4;
    let ym: usize = y % 4;
    if ym == 0 {
        if xm == 0 {
            0
        } else if xm == 1 {
            8
        } else if xm == 2 {
            2
        } else {
            10
        }
    } else if ym == 1 {
        if xm == 0 {
            12
        } else if xm == 1 {
            4
        } else if xm == 2 {
            14
        } else {
            6
        }
    } else if ym == 2 {
        if xm == 0 {
            3
        } else if xm == 1 {
            11
        } else if xm == 2 {
            1
        } else {
            9
        }
    } else {
        if xm == 0 {
            15
        } else if xm == 1 {
            7
        } else if xm == 2 {
            13
        } else {
            5
        }
    }
}

/// Perturbs every luminance value by the Bayer threshold of its position,
/// spreading quantization error without any sequential dependency.
pub fn ordered_dither(img: &GrayscaleImage) -> (out: GrayscaleImage)
    requires
        img.well_formed(),
        img.width >= 1,
    ensures
        out@ == ordered_spec(img@),
        out.well_formed(),
        out.width == img.width,
        out.height == img.height,
{
    let w: usize = img.width as usize;
    let h: usize = img.height as usize;
    let n: usize = img.data.len();
    let mut data: Vec<u8> = Vec::new();
    let mut y: usize = 0;
    while y < h
        invariant
            img.well_formed(),
            img.width >= 1,
            w == img.width,
            h == img.height,
            n == img.data@.len(),
            y <= h,
            data@.len() == y * w,
            forall|k: int| 0 <= k < y * w ==> data@[k] == ordered_spec(img@).data[k],
        decreases h - y,
    {
        let mut x: usize = 0;
        while x < w
            invariant
                img.well_formed(),
                img.width >= 1,
                w == img.width,
                h == img.height,
                n == img.data@.len(),
                y < h,
                x <= w,
                data@.len() == y * w + x,
                forall|k: int| 0 <= k < y * w + x ==> data@[k] == ordered_spec(img@).data[k],
            decreases w - x,
        {
            proof {
                crate::glyphs::lemma_grid_index(w as int, h as int, x as int, y as int);
            }
            let i: usize = y * w + x;
            let v: u8 = img.data[i];
            let t: u8 = bayer_of(x, y);
            let adjusted: i32 = v as i32 + 8 * (t as i32) - 64;
            let d: u8 = if adjusted < 0 {
                0
            } else if adjusted > 255 {
                255
            } else {
                adjusted as u8
            };
            proof {
                lemma_fundamental_div_mod_converse(i as int, w as int, y as int, x as int);
            }
            data.push(d);
            x = x + 1;
        }
        proof {
            vstd::arithmetic::mul::lemma_mul_is_distributive_add_other_way(
                w as int,
                y as int,
                1,
            );
        }
        y = y + 1;
    }
    proof {
        vstd::arithmetic::mul::lemma_mul_is_commutative(h as int, w as int);
        assert(data@ =~= ordered_spec(img@).data);
        assert(data@.len() == img@.data.len());
    }
    GrayscaleImage { width: img.width, height: img.height, data }
}

// ─── Floyd-Steinberg error diffusion ─────────────────────────────────

/// Saturation bound for error accumulator cells, in sixteenths of a
/// luminance step. Real images keep accumulators within a few thousand
/// sixteenths; the cap only makes the pass total on every buffer.
pub const ERR_CAP: i64 = 0x1000000000000000;

/// Clamps an accumulator value to the saturation bound.
pub open spec fn sat_cap(v: int) -> i64 {
    if v > ERR_CAP as int {
        ERR_CAP
    } else if v < -(ERR_CAP as int) {
        (-ERR_CAP) as i64
    } else {
        v as i64
    }
}

/// The share of an error (in sixteenths) diffused to the right neighbor:
/// seven sixteenths, rounded down.
pub open spec fn diffuse_right(e: int) -> int {
    7 * e / 16
}

/// The share diffused below left: three sixteenths, rounded down.
pub open spec fn diffuse_below_left(e: int) -> int {
    3 * e / 16
}

/// The share diffused straight below: five sixteenths, rounded down.
pub open spec fn diffuse_below(e: int) -> int {
    5 * e / 16
}

/// The share diffused below right: whatever remains, close to one
/// sixteenth, so that the four shares add back up to the whole error.
pub open spec fn diffuse_below_right(e: int) -> int {
    e - diffuse_right(e) - diffuse_below_left(e) - diffuse_below(e)
}

/// Error conservation: the four diffused shares of a pixel's error sum to
/// exactly that error — the 7/16, 3/16, 5/16 and 1/16 weights together
/// account for all of it, and energy is lost only where a share falls
/// outside the image. Each rounded share stays within one sixteenth-step
/// of its exact weight.
pub proof fn lemma_error_conserved(e: int)
    ensures
        diffuse_right(e) + diffuse_below_left(e) + diffuse_below(e) + diffuse_below_right(e) == e,
        16 * diffuse_right(e) <= 7 * e < 16 * diffuse_right(e) + 16,
        16 * diffuse_below_left(e) <= 3 * e < 16 * diffuse_below_left(e) + 16,
        16 * diffuse_below(e) <= 5 * e < 16 * diffuse_below(e) + 16,
        e <= 16 * diffuse_below_right(e) < e + 48,
{
    vstd::arithmetic::div_mod::lemma_fundamental_div_mod(7 * e, 16);
    vstd::arithmetic::div_mod::lemma_fundamental_div_mod(3 * e, 16);
    vstd::arithmetic::div_mod::lemma_fundamental_div_mod(5 * e, 16);
    vstd::arithmetic::div_mod::lemma_mod_bound(7 * e, 16);
    vstd::arithmetic::div_mod::lemma_mod_bound(3 * e, 16);
    vstd::arithmetic::div_mod::lemma_mod_bound(5 * e, 16);
}

/// Adds a diffused share into an accumulator cell, saturating.
pub open spec fn fs_apply(err: Seq<i64>, idx: int, amt: int) -> Seq<i64> {
    err.update(idx, sat_cap(err[idx] as int + amt))
}

/// One pixel of the error-diffusion pass. The accumulator buffer has
/// `h + 1` rows of `w + 2` cells: one padding column on the left, one on
/// the right beyond the last pixel's right neighbor, and one padding row
/// below, so that shares falling outside the image land in padding and are
/// simply never read again. The cell of pixel column `c` in row `y` is at
/// `y*(w+2) + c + 1`.
pub open spec fn fs_step(
    gray: Seq<u8>,
    w: int,
    h: int,
    x: int,
    y: int,
    out: Seq<u8>,
    err: Seq<i64>,
) -> (Seq<u8>, Seq<i64>) {
    let acc = err[y * (w + 2) + x + 1] as int;
    let old16 = 16 * gray[y * w + x] as int + acc;
    let new_val: int = if old16 >= 2040 {
        255
    } else {
        0
    };
    let e = old16 - 16 * new_val;
    let err1 = fs_apply(err, y * (w + 2) + x + 2, diffuse_right(e));
    let err2 = if y + 1 < h {
        fs_apply(
            fs_apply(
                fs_apply(err1, (y + 1) * (w + 2) + x, diffuse_below_left(e)),
                (y + 1) * (w + 2) + x + 1,
                diffuse_below(e),
            ),
            (y + 1) * (w + 2) + x + 2,
            diffuse_below_right(e),
        )
    } else {
        err1
    };
    (out.push(new_val as u8), err2)
}

/// The all-zero accumulator buffer.
pub open spec fn fs_init(w: int, h: int) -> Seq<i64> {
    Seq::new(((h + 1) * (w + 2)) as nat, |j: int| 0i64)
}

/// The state after diffusing the first `i` pixels in row-major order.
pub open spec fn fs_run(gray: Seq<u8>, w: int, h: int, i: int) -> (Seq<u8>, Seq<i64>)
    decreases i,
{
    if i <= 0 {
        (Seq::empty(), fs_init(w, h))
    } else {
        let prev = fs_run(gray, w, h, i - 1);
        fs_step(gray, w, h, (i - 1) % w, (i - 1) / w, prev.0, prev.1)
    }
}

/// The binarized image Floyd-Steinberg error diffusion produces.
pub open spec fn floyd_steinberg_spec(img: GrayView) -> GrayView {
    GrayView {
        width: img.width,
        height: img.height,
        data: fs_run(img.data, img.width, img.height, img.width * img.height).0,
    }
}

/// In-range positions for every accumulator slot one diffusion step
/// touches.
pub proof fn lemma_err_slots(w: int, h: int, x: int, y: int)
    by (nonlinear_arith)
    requires
        0 <= x < w,
        0 <= y < h,
    ensures
        0 <= y * (w + 2) + x + 1,
        y * (w + 2) + x + 3 < (h + 1) * (w + 2),
        (y + 1) * (w + 2) == y * (w + 2) + (w + 2),
        y + 1 < h ==> (y + 1) * (w + 2) + x + 2 < (h + 1) * (w + 2),
        0 <= y * w + x < w * h,
{
}

/// The row-major position of the `i`-th diffusion step is inside the grid.
pub proof fn lemma_step_pos(w: int, h: int, i: int)
    by (nonlinear_arith)
    requires
        1 <= w,
        1 <= i <= w * h,
    ensures
        0 <= (i - 1) % w < w,
        0 <= (i - 1) / w < h,
{
}

/// Every cell of the running accumulator stays within the saturation cap,
/// and the state sizes are as expected.
pub proof fn lemma_fs_state(gray: Seq<u8>, w: int, h: int, i: int)
    requires
        1 <= w,
        0 <= h,
        0 <= i <= w * h,
    ensures
        fs_run(gray, w, h, i).0.len() == i,
        fs_run(gray, w, h, i).1.len() == (h + 1) * (w + 2),
        forall|j: int|
            0 <= j < (h + 1) * (w + 2) ==> -ERR_CAP as int <= #[trigger] fs_run(
                gray,
                w,
                h,
                i,
            ).1[j] as int <= ERR_CAP as int,
    decreases i,
{
    assert((h + 1) * (w + 2) >= 0) by (nonlinear_arith)
        requires
            1 <= w,
            0 <= h,
    ;
    if i <= 0 {
        assert(fs_run(gray, w, h, i).1 =~= fs_init(w, h));
    } else {
        lemma_fs_state(gray, w, h, i - 1);
        lemma_step_pos(w, h, i);
        let x = (i - 1) % w;
        let y = (i - 1) / w;
        lemma_err_slots(w, h, x, y);
    }
}

fn floor_div16(v: i64) -> (r: i64)
    requires
        i64::MIN as int + 16 < v as int,
    ensures
        r as int == v as int / 16,
        16 * (r as int) <= v as int,
        (v as int) < 16 * (r as int) + 16,
{
    proof {
        vstd::arithmetic::div_mod::lemma_fundamental_div_mod(v as int, 16);
        vstd::arithmetic::div_mod::lemma_mod_bound(v as int, 16);
    }
    if v >= 0 {
        v / 16
    } else {
        let r = -((-v + 15) / 16);
        proof {
            vstd::arithmetic::div_mod::lemma_fundamental_div_mod((-v + 15) as int, 16);
            vstd::arithmetic::div_mod::lemma_mod_bound((-v + 15) as int, 16);
        }
        r
    }
}

fn sat_add(cell: i64, amt: i64) -> (r: i64)
    requires
        -ERR_CAP as int <= cell as int <= ERR_CAP as int,
        -0x4000000000000000 <= amt as int <= 0x4000000000000000,
    ensures
        r == sat_cap(cell as int + amt as int),
{
    let s: i64 = cell + amt;
    if s > ERR_CAP {
        ERR_CAP
    } else if s < -ERR_CAP {
        -ERR_CAP
    } else {
        s
    }
}

/// Binarizes a luminance image by Floyd-Steinberg error diffusion: each
/// pixel's accumulated error is added to its luminance, the sum is
/// binarized at the midpoint, and the residual is diffused to the right,
/// below-left, below and below-right neighbors with weights 7/16, 3/16,
/// 5/16 and 1/16; shares that fall outside the image are dropped.
pub fn floyd_steinberg(img: &GrayscaleImage) -> (out: GrayscaleImage)
    requires
        img.well_formed(),
        img.width >= 1,
        img.height >= 1,
        (img.height as int + 1) * (img.width as int + 2) <= usize::MAX as int,
    ensures
        out@ == floyd_steinberg_spec(img@),
        out.well_formed(),
        out.width == img.width,
        out.height == img.height,
{
    let w: usize = img.width as usize;
    let h: usize = img.height as usize;
    let n: usize = img.data.len();
    proof {
        assert((h + 1) * (w + 2) >= w * h + 2 && (h as int + 1) * (w as int + 2) >= 3 * (h as int
            + 1) && (h as int + 1) * (w as int + 2) >= w as int + 2) by (nonlinear_arith)
            requires
                w >= 1,
                h >= 1,
        ;
    }
    let esize: usize = (h + 1) * (w + 2);
    let mut err: Vec<i64> = vec![0i64; esize];
    proof {
        assert(err@ =~= fs_init(w as int, h as int));
    }
    let mut data: Vec<u8> = Vec::new();
    let ghost gseq = img.data@;
    let mut y: usize = 0;
    while y < h
        invariant
            img.well_formed(),
            img.width >= 1,
            img.height >= 1,
            w == img.width,
            h == img.height,
            n == img.data@.len(),
            gseq == img.data@,
            esize == (h + 1) * (w + 2),
            y <= h,
            data@.len() == y * w,
            (data@, err@) == fs_run(gseq, w as int, h as int, (y * w) as int),
        decreases h - y,
    {
        let mut x: usize = 0;
        while x < w
            invariant
                img.well_formed(),
                img.width >= 1,
                img.height >= 1,
                w == img.width,
                h == img.height,
                n == img.data@.len(),
                gseq == img.data@,
                esize == (h + 1) * (w + 2),
                y < h,
                x <= w,
                data@.len() == y * w + x,
                (data@, err@) == fs_run(gseq, w as int, h as int, (y * w + x) as int),
            decreases w - x,
        {
            proof {
                crate::glyphs::lemma_grid_index(w as int, h as int, x as int, y as int);
                lemma_err_slots(w as int, h as int, x as int, y as int);
                lemma_fs_state(gseq, w as int, h as int, (y * w + x) as int);
                vstd::arithmetic::mul::lemma_mul_inequality(
                    (y + 1) as int,
                    h as int + 1,
                    (w + 2) as int,
                );
            }
            let i: usize = y * w + x;
            let rb: usize = y * (w + 2);
            let acc: i64 = err[rb + x + 1];
            let old16: i64 = 16 * (img.data[i] as i64) + acc;
            let nv: u8 = if old16 >= 2040 {
                255
            } else {
                0
            };
            let e: i64 = old16 - 16 * (nv as i64);
            let a7: i64 = floor_div16(7 * e);
            let a3: i64 = floor_div16(3 * e);
            let a5: i64 = floor_div16(5 * e);
            let a1: i64 = e - a7 - a3 - a5;
            let ghost err0 = err@;
            let t7: i64 = sat_add(err[rb + x + 2], a7);
            err[rb + x + 2] = t7;
            if y + 1 < h {
                let rb2: usize = rb + (w + 2);
                let t3: i64 = sat_add(err[rb2 + x], a3);
                err[rb2 + x] = t3;
                let t5: i64 = sat_add(err[rb2 + x + 1], a5);
                err[rb2 + x + 1] = t5;
                let t1: i64 = sat_add(err[rb2 + x + 2], a1);
                err[rb2 + x + 2] = t1;
            }
            data.push(nv);
            proof {
                lemma_fundamental_div_mod_converse(i as int, w as int, y as int, x as int);
                let stepped = fs_step(
                    gseq,
                    w as int,
                    h as int,
                    x as int,
                    y as int,
                    fs_run(gseq, w as int, h as int, i as int).0,
                    err0,
                );
                assert(data@ =~= stepped.0);
                assert(err@ =~= stepped.1);
                assert((data@, err@) == fs_run(gseq, w as int, h as int, i as int + 1));
            }
            x = x + 1;
        }
        proof {
            vstd::arithmetic::mul::lemma_mul_is_distributive_add_other_way(w as int, y as int, 1);
        }
        y = y + 1;
    }
    proof {
        vstd::arithmetic::mul::lemma_mul_is_commutative(h as int, w as int);
    }
    GrayscaleImage { width: img.width, height: img.height, data }
}

} // verus!
