use hunter::dither::{floyd_steinberg, ordered_dither, threshold_image};
use hunter::glyphs::{render_braille_cells, render_half_block_cells};
use hunter::pixels::{luminance, to_grayscale, GrayscaleImage, RasterImage};
use hunter::render::{
    dims_fit_check, render, render_path, show_image_ascii, RenderConfig, RenderError, RenderMode,
};
use hunter::textfmt::string_from_chars;

fn solid(w: u32, h: u32, px: [u8; 4]) -> RasterImage {
    let mut data = Vec::new();
    for _ in 0..(w * h) {
        data.extend_from_slice(&px);
    }
    RasterImage {
        width: w,
        height: h,
        data,
    }
}

/// Black/white checkerboard: pixel (x, y) is white when x + y is even.
fn checkerboard(w: u32, h: u32) -> RasterImage {
    let mut data = Vec::new();
    for y in 0..h {
        for x in 0..w {
            let v = if (x + y) % 2 == 0 { 255 } else { 0 };
            data.extend_from_slice(&[v, v, v, 255]);
        }
    }
    RasterImage {
        width: w,
        height: h,
        data,
    }
}

fn config(width: u32, mode: RenderMode, dither: bool, edge_enhance: bool) -> RenderConfig {
    RenderConfig {
        width,
        mode,
        dither,
        edge_enhance,
    }
}

#[test]
fn luminance_weights() {
    assert_eq!(luminance(255, 0, 0), 54);
    assert_eq!(luminance(0, 255, 0), 182);
    assert_eq!(luminance(0, 0, 255), 18);
    assert_eq!(luminance(255, 255, 255), 255);
    assert_eq!(luminance(0, 0, 0), 0);
}

#[test]
fn grayscale_of_uniform() {
    let img = solid(3, 2, [10, 20, 30, 255]);
    let g = to_grayscale(&img);
    assert_eq!(g.width, 3);
    assert_eq!(g.height, 2);
    // (2126*10 + 7152*20 + 722*30) / 10000 = 18
    assert_eq!(g.data, vec![18; 6]);
}

#[test]
fn ascii_uniform_color_selects_one_ramp_char() {
    // A uniform image renders as the same glyph with the same foreground
    // in every cell: luminance 18 selects ramp index 0, the densest '@'.
    let img = solid(2, 1, [10, 20, 30, 255]);
    let out = render(&img, &config(2, RenderMode::Ascii, false, false));
    assert_eq!(
        out,
        "\x1b[38;2;10;20;30m@\x1b[38;2;10;20;30m@\x1b[0m\n"
    );
}

#[test]
fn ascii_solid_red_single_cell() {
    // Pure red has luminance 54 under the sRGB weighting, which lands on
    // ramp index 1: the '%' glyph, colored with the original red.
    let img = solid(1, 1, [255, 0, 0, 255]);
    let out = render(&img, &config(1, RenderMode::Ascii, false, false));
    assert_eq!(out, "\x1b[38;2;255;0;0m%\x1b[0m\n");
}

#[test]
fn ascii_solid_red_two_by_two() {
    let img = solid(2, 2, [255, 0, 0, 255]);
    let out = render(&img, &config(1, RenderMode::Ascii, false, false));
    assert_eq!(out, "\x1b[38;2;255;0;0m%\x1b[0m\n");
}

#[test]
fn half_block_row_count_rounds_up() {
    // 3x3 source at width 3: target height is the aspect height 3 rounded
    // up to even, 4 pixels, so 2 terminal rows.
    let img = solid(3, 3, [1, 2, 3, 255]);
    let out = render(&img, &config(3, RenderMode::HalfBlock, false, false));
    assert_eq!(out.matches('\n').count(), 2);
    assert_eq!(out.matches('\u{2580}').count(), 6);
}

#[test]
fn half_block_exact_two_pixels() {
    let mut data = Vec::new();
    data.extend_from_slice(&[10, 20, 30, 255]);
    data.extend_from_slice(&[40, 50, 60, 255]);
    let img = RasterImage {
        width: 1,
        height: 2,
        data,
    };
    let out = render(&img, &config(1, RenderMode::HalfBlock, false, false));
    assert_eq!(out, "\x1b[38;2;10;20;30;48;2;40;50;60m\u{2580}\x1b[0m\n");
}

#[test]
fn half_block_odd_height_reuses_top_pixel() {
    // The encoder itself, on an odd-height image: the last row's background
    // equals its foreground.
    let img = solid(1, 1, [9, 8, 7, 255]);
    let cells = render_half_block_cells(&img);
    let out: String = string_from_chars(cells);
    assert_eq!(out, "\x1b[38;2;9;8;7;48;2;9;8;7m\u{2580}\x1b[0m\n");
}

#[test]
fn braille_all_white_block() {
    let img = solid(2, 4, [255, 255, 255, 255]);
    let out = render(&img, &config(1, RenderMode::Braille, false, false));
    assert_eq!(out, "\x1b[38;2;255;255;255m\u{28FF}\x1b[0m\n");
}

#[test]
fn braille_all_black_block() {
    let img = solid(2, 4, [0, 0, 0, 255]);
    let out = render(&img, &config(1, RenderMode::Braille, false, false));
    assert_eq!(out, "\x1b[38;2;0;0;0m\u{2800}\x1b[0m\n");
}

#[test]
fn braille_checkerboard_single_glyph() {
    // Dots land on the white pixels of a 2x4 checkerboard: positions
    // (0,0), (1,1), (0,2) and (1,3), i.e. bits 0, 4, 2 and 7 — pattern
    // 0x95, glyph U+2895 — over the mid-gray block average.
    let img = checkerboard(2, 4);
    let out = render(&img, &config(1, RenderMode::Braille, false, false));
    assert_eq!(out, "\x1b[38;2;127;127;127m\u{2895}\x1b[0m\n");
}

#[test]
fn braille_checkerboard_four_glyphs() {
    // A 4x8 checkerboard at width 2 resamples to itself and yields a 2x2
    // glyph grid, every block showing the same checkerboard pattern.
    let img = checkerboard(4, 8);
    let out = render(&img, &config(2, RenderMode::Braille, false, false));
    let cell = "\x1b[38;2;127;127;127m\u{2895}";
    let row = format!("{}{}\x1b[0m\n", cell, cell);
    assert_eq!(out, format!("{}{}", row, row));
}

#[test]
fn braille_partial_block_drops_outside_dots() {
    // A 3x5 luminance field has one full 2x4 block; the encoder tolerates
    // the leftover column and row.
    let img = solid(3, 5, [255, 255, 255, 255]);
    let gray = to_grayscale(&img);
    let bin = threshold_image(&gray);
    let out = string_from_chars(render_braille_cells(&img, &bin));
    assert_eq!(out, "\x1b[38;2;255;255;255m\u{28FF}\x1b[0m\n");
}

#[test]
fn threshold_at_midpoint() {
    let gray = GrayscaleImage {
        width: 4,
        height: 1,
        data: vec![127, 128, 0, 255],
    };
    let out = threshold_image(&gray);
    assert_eq!(out.data, vec![0, 255, 0, 255]);
}

#[test]
fn ordered_dither_exact_values() {
    // Perturbation is value + 8*bayer - 64; for value 100 the first Bayer
    // row (0, 8, 2, 10) gives 36, 100, 52, 116.
    let gray = GrayscaleImage {
        width: 4,
        height: 1,
        data: vec![100; 4],
    };
    let out = ordered_dither(&gray);
    assert_eq!(out.data, vec![36, 100, 52, 116]);
}

#[test]
fn ordered_dither_is_periodic() {
    // Same luminance four columns and four rows apart dithers identically.
    let gray = GrayscaleImage {
        width: 8,
        height: 8,
        data: vec![100; 64],
    };
    let out = ordered_dither(&gray);
    for y in 0..4 {
        for x in 0..4 {
            assert_eq!(
                out.data[y * 8 + x],
                out.data[(y + 4) * 8 + (x + 4)],
                "mismatch at ({}, {})",
                x,
                y
            );
        }
    }
}

#[test]
fn floyd_steinberg_mid_gray() {
    // Worked by hand in sixteenths: 128 binarizes to white with error
    // -2032; the diffused shares drive the next pixel and the pixel below
    // to black, and the accumulated errors push the last pixel back to
    // white.
    let gray = GrayscaleImage {
        width: 2,
        height: 2,
        data: vec![128; 4],
    };
    let out = floyd_steinberg(&gray);
    assert_eq!(out.data, vec![255, 0, 0, 255]);
}

#[test]
fn floyd_steinberg_extremes_stay_fixed() {
    let gray = GrayscaleImage {
        width: 3,
        height: 2,
        data: vec![0, 255, 0, 255, 0, 255],
    };
    let out = floyd_steinberg(&gray);
    assert_eq!(out.data, vec![0, 255, 0, 255, 0, 255]);
}

#[test]
fn edge_enhance_changes_output() {
    // With a real Gaussian blur, sharpening a non-uniform mid-tone image
    // changes pixel values; were the blur the identity, the unsharp mask
    // would return the image unchanged and both renders would be equal.
    let mut img = solid(3, 3, [100, 100, 100, 255]);
    // brighter center pixel
    let c = (3 * 1 + 1) * 4;
    img.data[c] = 200;
    img.data[c + 1] = 200;
    img.data[c + 2] = 200;
    let with = render(&img, &config(3, RenderMode::Ascii, false, true));
    let without = render(&img, &config(3, RenderMode::Ascii, false, false));
    assert_ne!(with, without);
}

#[test]
fn resize_respects_target_dimensions() {
    // 8x8 at width 2 in ASCII mode resamples to 2x1: one row of two cells,
    // so three escape introducers in all (two colors and one reset).
    let img = solid(8, 8, [5, 5, 5, 255]);
    let out = render(&img, &config(2, RenderMode::Ascii, false, false));
    assert_eq!(out.matches('\n').count(), 1);
    assert_eq!(out.matches('\u{1b}').count(), 3);
}

#[test]
fn width_zero_degrades_to_one_column() {
    let img = solid(2, 2, [0, 0, 0, 255]);
    let out = render(&img, &config(0, RenderMode::Ascii, false, false));
    assert_eq!(out.matches('\n').count(), 1);
    assert_eq!(out.matches('\u{1b}').count(), 2);
}

#[test]
fn dither_modes_share_dimensions() {
    let img = checkerboard(8, 8);
    let plain = render(&img, &config(4, RenderMode::Braille, false, false));
    let dithered = render(&img, &config(4, RenderMode::Braille, true, false));
    assert_eq!(
        plain.matches('\n').count(),
        dithered.matches('\n').count()
    );
}

#[test]
fn dims_fit_for_small_images() {
    assert!(dims_fit_check(RenderMode::Ascii, 80, 640, 480));
    assert!(dims_fit_check(RenderMode::Braille, 80, 640, 480));
    assert!(dims_fit_check(RenderMode::HalfBlock, 80, 640, 480));
}

#[test]
fn default_config() {
    let c = RenderConfig::default();
    assert_eq!(c.width, 80);
    assert!(matches!(c.mode, RenderMode::Ascii));
    assert!(c.dither);
    assert!(c.edge_enhance);
}

#[test]
fn render_path_missing_file_reports_path() {
    // Decode of a nonexistent path returns a decode failure that names the
    // path; it never panics.
    let r = render_path("no/such/file.png", &RenderConfig::default());
    match r {
        Err(e) => {
            assert_eq!(e.path, "no/such/file.png");
            assert!(e
                .message()
                .starts_with("Failed to decode image: no/such/file.png: "));
        }
        Ok(_) => panic!("decoding a missing file must fail"),
    }
}

#[test]
fn show_image_ascii_missing_file_reports_path() {
    let r = show_image_ascii("also/missing.png", 40);
    match r {
        Err(e) => assert_eq!(e.path, "also/missing.png"),
        Ok(_) => panic!("decoding a missing file must fail"),
    }
}

#[test]
fn render_error_message_shape() {
    let e = RenderError {
        path: String::from("p.png"),
        detail: String::from("bad header"),
    };
    assert_eq!(e.message(), "Failed to decode image: p.png: bad header");
}
