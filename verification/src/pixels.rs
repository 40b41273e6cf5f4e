//! In-memory image buffers: a row-major RGBA byte buffer and a single-channel
//! luminance buffer, with the exact conversion between them.
//!
//! Each buffer type has a ghost view holding its dimensions and byte
//! sequence, so that specifications can speak about intermediate images that
//! exist only inside a pipeline stage.

use vstd::prelude::*;

verus! {

/// The mathematical content of an RGBA image: its dimensions and the flat
/// byte sequence, four bytes per pixel.
#[verifier::ext_equal]
pub ghost struct RasterView {
    pub width: int,
    pub height: int,
    pub data: Seq<u8>,
}

impl RasterView {
    /// The buffer holds exactly four bytes per pixel and the image is not
    /// degenerate in either axis.
    pub open spec fn well_formed(self) -> bool {
        &&& self.data.len() == self.width * self.height * 4
        &&& self.width >= 1
        &&& self.height >= 1
    }

    /// The red channel of the pixel at flat index `i`.
    pub open spec fn r_at(self, i: int) -> u8 {
        self.data[4 * i]
    }

    /// The green channel of the pixel at flat index `i`.
    pub open spec fn g_at(self, i: int) -> u8 {
        self.data[4 * i + 1]
    }

    /// The blue channel of the pixel at flat index `i`.
    pub open spec fn b_at(self, i: int) -> u8 {
        self.data[4 * i + 2]
    }

    /// The alpha channel of the pixel at flat index `i`.
    pub open spec fn a_at(self, i: int) -> u8 {
        self.data[4 * i + 3]
    }

    /// Every pixel holds the same four channel bytes.
    pub open spec fn uniform(self, r: u8, g: u8, b: u8, a: u8) -> bool {
        forall|i: int|
            0 <= i < self.width * self.height ==> self.r_at(i) == r && self.g_at(i) == g
                && self.b_at(i) == b && self.a_at(i) == a
    }
}

/// The mathematical content of a luminance image.
#[verifier::ext_equal]
pub ghost struct GrayView {
    pub width: int,
    pub height: int,
    pub data: Seq<u8>,
}

impl GrayView {
    /// The buffer holds exactly one byte per pixel.
    pub open spec fn well_formed(self) -> bool {
        self.data.len() == self.width * self.height
    }

    /// The luminance of the pixel at column `x`, row `y`.
    pub open spec fn lum_at(self, x: int, y: int) -> u8 {
        self.data[y * self.width + x]
    }
}

/// A decoded image: `width * height` pixels of four bytes each
/// (red, green, blue, alpha), row-major.
pub struct RasterImage {
    pub width: u32,
    pub height: u32,
    pub data: Vec<u8>,
}

impl View for RasterImage {
    type V = RasterView;

    open spec fn view(&self) -> RasterView {
        RasterView { width: self.width as int, height: self.height as int, data: self.data@ }
    }
}

impl RasterImage {
    /// The buffer holds exactly four bytes per pixel and the image is not
    /// degenerate in either axis.
    pub open spec fn well_formed(self) -> bool {
        self@.well_formed()
    }
}

/// A single-channel luminance image: `width * height` bytes, row-major.
pub struct GrayscaleImage {
    pub width: u32,
    pub height: u32,
    pub data: Vec<u8>,
}

impl View for GrayscaleImage {
    type V = GrayView;

    open spec fn view(&self) -> GrayView {
        GrayView { width: self.width as int, height: self.height as int, data: self.data@ }
    }
}

impl GrayscaleImage {
    /// The buffer holds exactly one byte per pixel.
    pub open spec fn well_formed(self) -> bool {
        self@.well_formed()
    }
}

/// The sRGB-weighted luminance of one RGB triple, the same integer formula
/// the image-codec collaborator uses for its grayscale conversion:
/// `(2126*r + 7152*g + 722*b) / 10000`, rounded down.
pub open spec fn luminance_spec(r: int, g: int, b: int) -> int {
    (2126 * r + 7152 * g + 722 * b) / 10000
}

/// The luminance of one pixel as a byte; always fits because the weights
/// sum to 10000.
pub fn luminance(r: u8, g: u8, b: u8) -> (l: u8)
    ensures
        l == luminance_spec(r as int, g as int, b as int),
        l <= 255,
{
    let acc: u32 = 2126 * (r as u32) + 7152 * (g as u32) + 722 * (b as u32);
    (acc / 10000) as u8
}

/// The luminance buffer of an RGBA image: one byte per pixel, each the
/// weighted luminance of that pixel's RGB channels.
pub open spec fn grayscale_spec(img: RasterView) -> GrayView {
    GrayView {
        width: img.width,
        height: img.height,
        data: Seq::new(
            (img.width * img.height) as nat,
            |i: int|
                luminance_spec(img.r_at(i) as int, img.g_at(i) as int, img.b_at(i) as int) as u8,
        ),
    }
}

/// Converts an RGBA image to its luminance image.
pub fn to_grayscale(img: &RasterImage) -> (g: GrayscaleImage)
    requires
        img.well_formed(),
    ensures
        g@ == grayscale_spec(img@),
        g.well_formed(),
        g.width == img.width,
        g.height == img.height,
{
    let len: usize = img.data.len();
    let n: usize = len / 4;
    proof {
        assert(n == img@.width * img@.height);
    }
    let mut out: Vec<u8> = Vec::new();
    let mut i: usize = 0;
    while i < n
        invariant
            n == img@.width * img@.height,
            img.data@.len() == 4 * n,
            len == 4 * n,
            i <= n,
            out@.len() == i,
            forall|k: int| 0 <= k < i ==> out@[k] == grayscale_spec(img@).data[k],
        decreases n - i,
    {
        let r = img.data[4 * i];
        let g = img.data[4 * i + 1];
        let b = img.data[4 * i + 2];
        out.push(luminance(r, g, b));
        i = i + 1;
    }
    proof {
        assert(out@ =~= grayscale_spec(img@).data);
    }
    GrayscaleImage { width: img.width, height: img.height, data: out }
}

} // verus!
