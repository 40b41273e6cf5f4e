//! The rendering pipeline: an optional unsharp mask, mode-specific target
//! dimensions and Lanczos resampling, the dither engine, one of three glyph
//! encoders, and the serialized escape-sequence string.

use vstd::prelude::*;
use vstd::string::StringExecFns;

use crate::dither::{floyd_steinberg, floyd_steinberg_spec, ordered_dither, ordered_spec,
    threshold_image, threshold_spec};
use crate::glyphs::{ascii_output, braille_output, hb_output, render_ascii_cells,
    render_braille_cells, render_half_block_cells};
use crate::pixels::{grayscale_spec, to_grayscale, RasterImage, RasterView};
use crate::resize::{dims_fit, lanczos_of, resize_for_mode, target_dims};
use crate::sharpen::{enhance, enhance_spec};
use crate::textfmt::string_from_chars;

verus! {

/// The glyph strategy used for one render.
#[derive(Clone, Copy, Default)]
pub enum RenderMode {
    /// Half-block characters: two vertically stacked pixels per cell, each
    /// with its own color.
    HalfBlock,
    /// Braille characters: a 2x4 dot block per cell, the highest dot
    /// resolution.
    Braille,
    /// A colored density ramp of ASCII characters.
    #[default]
    Ascii,
}

/// The options of one render call.
#[derive(Clone, Copy)]
pub struct RenderConfig {
    /// Target width in terminal columns.
    pub width: u32,
    /// The glyph strategy.
    pub mode: RenderMode,
    /// Whether to dither the luminance field (error diffusion for braille,
    /// ordered dithering for the ASCII ramp).
    pub dither: bool,
    /// Whether to sharpen the image by unsharp masking before resizing.
    pub edge_enhance: bool,
}

impl Default for RenderConfig {
    /// Eighty columns of dithered, edge-enhanced ASCII.
    fn default() -> (c: Self)
        ensures
            c.width == 80,
            c.mode is Ascii,
            c.dither,
            c.edge_enhance,
    {
        RenderConfig { width: 80, mode: RenderMode::Ascii, dither: true, edge_enhance: true }
    }
}

/// A decode failure: the path that could not be rendered and the decoder's
/// report.
pub struct RenderError {
    /// The path whose decode failed.
    pub path: String,
    /// What the image-codec collaborator reported.
    pub detail: String,
}

impl RenderError {
    /// The error as one line of text.
    pub fn message(&self) -> (m: String)
        ensures
            m@ == "Failed to decode image: "@ + self.path@ + ": "@ + self.detail@,
    {
        let mut m = String::from_str("Failed to decode image: ");
        m.append(self.path.as_str());
        m.append(": ");
        m.append(self.detail.as_str());
        m
    }
}

/// The full rendered output for an image and a configuration: the image is
/// optionally sharpened, resampled to the mode's target dimensions, its
/// luminance field is dithered as the mode asks, and the matching glyph
/// encoder serializes the result.
pub open spec fn render_spec(img: RasterView, config: RenderConfig) -> Seq<char> {
    let src = if config.edge_enhance {
        enhance_spec(img)
    } else {
        img
    };
    let d = target_dims(config.mode, config.width as int, img.width, img.height);
    let resized = RasterView {
        width: d.0,
        height: d.1,
        data: lanczos_of(src.data, src.width, src.height, d.0, d.1),
    };
    match config.mode {
        RenderMode::HalfBlock => hb_output(resized),
        RenderMode::Braille => {
            let bin = if config.dither {
                floyd_steinberg_spec(grayscale_spec(resized))
            } else {
                threshold_spec(grayscale_spec(resized))
            };
            braille_output(resized, bin)
        },
        RenderMode::Ascii => {
            let sel = if config.dither {
                ordered_spec(grayscale_spec(resized))
            } else {
                grayscale_spec(resized)
            };
            ascii_output(resized, sel)
        },
    }
}

/// Renders an in-memory image to a string of styled glyphs.
pub fn render(img: &RasterImage, config: &RenderConfig) -> (r: String)
    requires
        img.well_formed(),
        dims_fit(config.mode, config.width as int, img@.width, img@.height),
    ensures
        r@ == render_spec(img@, *config),
{
    let resized = if config.edge_enhance {
        let enhanced = enhance(img);
        resize_for_mode(&enhanced, config.mode, config.width)
    } else {
        resize_for_mode(img, config.mode, config.width)
    };
    proof {
        let d = target_dims(config.mode, config.width as int, img@.width, img@.height);
        assert((d.1 + 1) * (d.0 + 2) <= 8 * d.0 * d.1) by (nonlinear_arith)
            requires
                d.0 >= 1,
                d.1 >= 2 || (d.0 >= 1 && d.1 >= 1),
        ;
    }
    let cells: Vec<char> = match config.mode {
        RenderMode::HalfBlock => render_half_block_cells(&resized),
        RenderMode::Braille => {
            let gray = to_grayscale(&resized);
            let bin = if config.dither {
                floyd_steinberg(&gray)
            } else {
                threshold_image(&gray)
            };
            render_braille_cells(&resized, &bin)
        },
        RenderMode::Ascii => {
            let gray = to_grayscale(&resized);
            let sel = if config.dither {
                ordered_dither(&gray)
            } else {
                gray
            };
            render_ascii_cells(&resized, &sel)
        },
    };
    string_from_chars(cells)
}

/// Relies on `image::ImageReader::open`, `decode` and
/// `DynamicImage::to_rgba8`: reads and decodes the image file at `path`
/// into an RGBA buffer of four bytes per pixel with both dimensions at
/// least one, or reports why it could not.
#[verifier::external_body]
fn decode_image_file(path: &str) -> (r: Result<RasterImage, String>)
    ensures
        r is Ok ==> r->Ok_0.well_formed(),
{
    let open_result = image::ImageReader::open(path);
    let decoded = match open_result {
        Ok(reader) => match reader.decode() {
            Ok(img) => img,
            Err(e) => return Err(e.to_string()),
        },
        Err(e) => return Err(e.to_string()),
    };
    let rgba = decoded.to_rgba8();
    let (w, h) = rgba.dimensions();
    if w == 0 || h == 0 {
        return Err("image has no pixels".to_string());
    }
    Ok(RasterImage { width: w, height: h, data: rgba.into_raw() })
}

/// What a path-based render promises: an error always carries the path it
/// came from, and a success is the exact rendering of some well-formed
/// decoded image under the given configuration.
pub open spec fn render_path_post(
    r: Result<String, RenderError>,
    path: Seq<char>,
    config: RenderConfig,
) -> bool {
    &&& r is Err ==> r->Err_0.path@ == path
    &&& r is Ok ==> exists|v: RasterView|
        v.well_formed() && dims_fit(config.mode, config.width as int, v.width, v.height) && (
        r->Ok_0)@ == render_spec(v, config)
}

/// Checks that a mode's target dimensions for an image fit the machine;
/// the exec counterpart of `dims_fit`.
pub fn dims_fit_check(mode: RenderMode, width: u32, iw: u32, ih: u32) -> (b: bool)
    requires
        iw >= 1,
    ensures
        b == dims_fit(mode, width as int, iw as int, ih as int),
{
    let cols: u128 = if width < 1 {
        1
    } else {
        width as u128
    };
    proof {
        assert(cols as int * ih as int <= 0xFFFF_FFFF * 0xFFFF_FFFF) by (nonlinear_arith)
            requires
                1 <= cols <= 0xFFFF_FFFF,
                ih <= 0xFFFF_FFFF,
        ;
        assert(cols as int * ih as int / (iw as int) <= cols as int * ih as int && cols as int
            * ih as int / (2 * iw as int) <= cols as int * ih as int) by (nonlinear_arith)
            requires
                iw >= 1,
                cols as int * ih as int >= 0,
        ;
    }
    let (tw, th): (u128, u128) = match mode {
        RenderMode::HalfBlock => {
            let h0: u128 = cols * (ih as u128) / (iw as u128);
            let he: u128 = h0 + (h0 % 2);
            (cols, if he < 2 {
                2
            } else {
                he
            })
        },
        RenderMode::Braille => {
            let rows: u128 = cols * (ih as u128) / (2 * (iw as u128));
            (2 * cols, if rows < 1 {
                4
            } else {
                4 * rows
            })
        },
        RenderMode::Ascii => {
            let h0: u128 = cols * (ih as u128) / (2 * (iw as u128));
            (cols, if h0 < 1 {
                1
            } else {
                h0
            })
        },
    };
    if tw > 0xFFFF_FFFF || th > 0xFFFF_FFFF {
        false
    } else {
        proof {
            assert(8 * (tw as int) * (th as int) <= 8 * 0xFFFF_FFFF * 0xFFFF_FFFF)
                by (nonlinear_arith)
                requires
                    tw <= 0xFFFF_FFFF,
                    th <= 0xFFFF_FFFF,
            ;
        }
        8 * tw * th <= usize::MAX as u128
    }
}

/// Renders the image file at `path`: decoding is delegated to the
/// image-codec collaborator; a decode failure is returned with the
/// offending path, never panicking. An image whose target dimensions would
/// overflow the machine is likewise reported as an error.
pub fn render_path(path: &str, config: &RenderConfig) -> (r: Result<String, RenderError>)
    ensures
        render_path_post(r, path@, *config),
{
    match decode_image_file(path) {
        Err(detail) => Err(RenderError { path: String::from_str(path), detail }),
        Ok(img) => {
            if dims_fit_check(config.mode, config.width, img.width, img.height) {
                let ghost v = img@;
                let out = render(&img, config);
                proof {
                    assert(v.well_formed() && dims_fit(
                        config.mode,
                        config.width as int,
                        v.width,
                        v.height,
                    ) && out@ == render_spec(v, *config));
                }
                Ok(out)
            } else {
                Err(
                    RenderError {
                        path: String::from_str(path),
                        detail: String::from_str("target dimensions overflow the machine"),
                    },
                )
            }
        },
    }
}

/// Renders an image file with the default configuration.
pub fn show_image(path: &str) -> (r: Result<String, RenderError>)
    ensures
        render_path_post(
            r,
            path@,
            RenderConfig { width: 80, mode: RenderMode::Ascii, dither: true, edge_enhance: true },
        ),
{
    render_path(path, &RenderConfig::default())
}

/// Renders an image file as half-block cells at the given width.
pub fn show_image_blocks(path: &str, width: u32) -> (r: Result<String, RenderError>)
    ensures
        render_path_post(
            r,
            path@,
            RenderConfig { width, mode: RenderMode::HalfBlock, dither: true, edge_enhance: true },
        ),
{
    render_path(
        path,
        &RenderConfig { width, mode: RenderMode::HalfBlock, dither: true, edge_enhance: true },
    )
}

/// Renders an image file as braille cells at the given width.
pub fn show_image_braille(path: &str, width: u32) -> (r: Result<String, RenderError>)
    ensures
        render_path_post(
            r,
            path@,
            RenderConfig { width, mode: RenderMode::Braille, dither: true, edge_enhance: true },
        ),
{
    render_path(
        path,
        &RenderConfig { width, mode: RenderMode::Braille, dither: true, edge_enhance: true },
    )
}

/// Renders an image file as a colored ASCII ramp at the given width.
pub fn show_image_ascii(path: &str, width: u32) -> (r: Result<String, RenderError>)
    ensures
        render_path_post(
            r,
            path@,
            RenderConfig { width, mode: RenderMode::Ascii, dither: true, edge_enhance: true },
        ),
{
    render_path(
        path,
        &RenderConfig { width, mode: RenderMode::Ascii, dither: true, edge_enhance: true },
    )
}

/// Renders the title screen image.
pub fn show_title_screen() -> (r: Result<String, RenderError>)
    ensures
        render_path_post(
            r,
            "assets/images/title.png"@,
            RenderConfig { width: 100, mode: RenderMode::Ascii, dither: true, edge_enhance: true },
        ),
{
    show_image_ascii("assets/images/title.png", 100)
}

/// Renders the image of a named location.
pub fn show_location(location_name: &str) -> (r: Result<String, RenderError>)
    ensures
        render_path_post(
            r,
            "assets/images/locations/"@ + location_name@ + ".png"@,
            RenderConfig { width: 80, mode: RenderMode::Ascii, dither: true, edge_enhance: true },
        ),
{
    let mut path = String::from_str("assets/images/locations/");
    path.append(location_name);
    path.append(".png");
    show_image_ascii(path.as_str(), 80)
}

/// Renders the image of a named enemy.
pub fn show_enemy(enemy_name: &str) -> (r: Result<String, RenderError>)
    ensures
        render_path_post(
            r,
            "assets/images/enemies/"@ + enemy_name@ + ".png"@,
            RenderConfig { width: 60, mode: RenderMode::Ascii, dither: true, edge_enhance: true },
        ),
{
    let mut path = String::from_str("assets/images/enemies/");
    path.append(enemy_name);
    path.append(".png");
    show_image_ascii(path.as_str(), 60)
}

/// Renders the image of a named item.
pub fn show_item(item_name: &str) -> (r: Result<String, RenderError>)
    ensures
        render_path_post(
            r,
            "assets/images/items/"@ + item_name@ + ".png"@,
            RenderConfig { width: 40, mode: RenderMode::Ascii, dither: true, edge_enhance: true },
        ),
{
    let mut path = String::from_str("assets/images/items/");
    path.append(item_name);
    path.append(".png");
    show_image_ascii(path.as_str(), 40)
}

} // verus!
