//! Glyph encoders: the three strategies that turn a resized image (and its
//! luminance field) into a string of styled terminal cells.
//!
//! Every encoder's output is pinned down exactly: a spec function gives the
//! full character sequence, built from true-color SGR escapes, one glyph
//! character per cell, and a reset plus newline per row.

use vstd::prelude::*;

use crate::pixels::{GrayView, GrayscaleImage, RasterImage, RasterView};
use crate::textfmt::{char_from_code, dec_of, digit_char, push_dec_u8};

verus! {

/// The concatenation of `f(0) + f(1) + ... + f(n-1)`.
pub open spec fn concat_upto(f: spec_fn(int) -> Seq<char>, n: int) -> Seq<char>
    decreases n,
{
    if n <= 0 {
        Seq::empty()
    } else {
        concat_upto(f, n - 1) + f(n - 1)
    }
}

/// The start of a true-color foreground SGR escape: `ESC [ 3 8 ; 2 ;`.
pub open spec fn fg_prefix() -> Seq<char> {
    seq!['\u{1b}', '[', '3', '8', ';', '2', ';']
}

/// The middle of a combined foreground/background escape: `; 4 8 ; 2 ;`.
pub open spec fn bg_infix() -> Seq<char> {
    seq![';', '4', '8', ';', '2', ';']
}

/// A semicolon-separated decimal color triple: `R ; G ; B`.
pub open spec fn color_triple(r: int, g: int, b: int) -> Seq<char> {
    dec_of(r) + seq![';'] + dec_of(g) + seq![';'] + dec_of(b)
}

/// A full foreground escape: `ESC[38;2;R;G;Bm`.
pub open spec fn sgr_fg(r: int, g: int, b: int) -> Seq<char> {
    fg_prefix() + color_triple(r, g, b) + seq!['m']
}

/// A combined foreground and background escape: `ESC[38;2;R;G;B;48;2;R;G;Bm`.
pub open spec fn sgr_fg_bg(r: int, g: int, b: int, br: int, bg: int, bb: int) -> Seq<char> {
    fg_prefix() + color_triple(r, g, b) + bg_infix() + color_triple(br, bg, bb) + seq!['m']
}

/// The end of every row: an SGR reset then a line break.
pub open spec fn row_end() -> Seq<char> {
    seq!['\u{1b}', '[', '0', 'm', '\n']
}

fn push_color_triple(out: &mut Vec<char>, r: u8, g: u8, b: u8)
    ensures
        final(out)@ == old(out)@ + color_triple(r as int, g as int, b as int),
{
    push_dec_u8(out, r);
    out.push(';');
    push_dec_u8(out, g);
    out.push(';');
    push_dec_u8(out, b);
    proof {
        assert(out@ =~= old(out)@ + color_triple(r as int, g as int, b as int));
    }
}

fn push_fg_prefix(out: &mut Vec<char>)
    ensures
        final(out)@ == old(out)@ + fg_prefix(),
{
    out.push('\u{1b}');
    out.push('[');
    out.push('3');
    out.push('8');
    out.push(';');
    out.push('2');
    out.push(';');
    proof {
        assert(out@ =~= old(out)@ + fg_prefix());
    }
}

fn push_fg_escape(out: &mut Vec<char>, r: u8, g: u8, b: u8)
    ensures
        final(out)@ == old(out)@ + sgr_fg(r as int, g as int, b as int),
{
    push_fg_prefix(out);
    push_color_triple(out, r, g, b);
    out.push('m');
    proof {
        assert(out@ =~= old(out)@ + sgr_fg(r as int, g as int, b as int));
    }
}

fn push_bg_infix(out: &mut Vec<char>)
    ensures
        final(out)@ == old(out)@ + bg_infix(),
{
    out.push(';');
    out.push('4');
    out.push('8');
    out.push(';');
    out.push('2');
    out.push(';');
    proof {
        assert(out@ =~= old(out)@ + bg_infix());
    }
}

fn push_fg_bg_escape(out: &mut Vec<char>, r: u8, g: u8, b: u8, br: u8, bg: u8, bb: u8)
    ensures
        final(out)@ == old(out)@ + sgr_fg_bg(
            r as int,
            g as int,
            b as int,
            br as int,
            bg as int,
            bb as int,
        ),
{
    push_fg_prefix(out);
    push_color_triple(out, r, g, b);
    push_bg_infix(out);
    push_color_triple(out, br, bg, bb);
    out.push('m');
    proof {
        assert(out@ =~= old(out)@ + sgr_fg_bg(
            r as int,
            g as int,
            b as int,
            br as int,
            bg as int,
            bb as int,
        ));
    }
}

fn push_row_end(out: &mut Vec<char>)
    ensures
        final(out)@ == old(out)@ + row_end(),
{
    out.push('\u{1b}');
    out.push('[');
    out.push('0');
    out.push('m');
    out.push('\n');
    proof {
        assert(out@ =~= old(out)@ + row_end());
    }
}

/// The fixed density ramp, dense to sparse: index 0 is the densest glyph.
pub open spec fn ramp_char(idx: int) -> char {
    if idx == 0 {
        '@'
    } else if idx == 1 {
        '%'
    } else if idx == 2 {
        '#'
    } else if idx == 3 {
        '*'
    } else if idx == 4 {
        '+'
    } else if idx == 5 {
        '='
    } else if idx == 6 {
        '-'
    } else if idx == 7 {
        ':'
    } else if idx == 8 {
        '.'
    } else {
        ' '
    }
}

/// A luminance byte's position in the ten-step ramp, always in `[0, 9]`.
pub open spec fn ramp_index(lum: int) -> int {
    lum * 9 / 255
}

/// The ramp character a luminance byte selects.
pub fn ramp_char_of(lum: u8) -> (c: char)
    ensures
        c == ramp_char(ramp_index(lum as int)),
{
    let idx: usize = (lum as usize) * 9 / 255;
    if idx == 0 {
        '@'
    } else if idx == 1 {
        '%'
    } else if idx == 2 {
        '#'
    } else if idx == 3 {
        '*'
    } else if idx == 4 {
        '+'
    } else if idx == 5 {
        '='
    } else if idx == 6 {
        '-'
    } else if idx == 7 {
        ':'
    } else if idx == 8 {
        '.'
    } else {
        ' '
    }
}

/// The flat index of an in-range grid position is in range for the grid.
pub proof fn lemma_grid_index(w: int, h: int, x: int, y: int)
    by (nonlinear_arith)
    requires
        0 <= x < w,
        0 <= y < h,
    ensures
        0 <= y * w + x < w * h,
{
}

// ─── ASCII encoder ───────────────────────────────────────────────────

/// One ASCII cell: a foreground escape carrying the pixel's own color, then
/// the ramp character its (possibly dithered) luminance selects.
pub open spec fn ascii_cell(img: RasterView, gray: GrayView, x: int, y: int) -> Seq<char> {
    let i = y * img.width + x;
    sgr_fg(img.r_at(i) as int, img.g_at(i) as int, img.b_at(i) as int) + seq![
        ramp_char(ramp_index(gray.lum_at(x, y) as int)),
    ]
}

/// One ASCII output row, terminated by a reset and newline.
pub open spec fn ascii_row(img: RasterView, gray: GrayView, y: int) -> Seq<char> {
    concat_upto(|x: int| ascii_cell(img, gray, x, y), img.width) + row_end()
}

/// The whole ASCII output: one row per image row.
pub open spec fn ascii_output(img: RasterView, gray: GrayView) -> Seq<char> {
    concat_upto(|y: int| ascii_row(img, gray, y), img.height)
}

/// Renders one glyph per pixel: the character comes from the luminance
/// field, the color from the unmodified image.
pub fn render_ascii_cells(img: &RasterImage, gray: &GrayscaleImage) -> (out: Vec<char>)
    requires
        img.well_formed(),
        gray.well_formed(),
        gray.width == img.width,
        gray.height == img.height,
    ensures
        out@ == ascii_output(img@, gray@),
{
    let w: usize = img.width as usize;
    let h: usize = img.height as usize;
    let len: usize = img.data.len();
    let mut out: Vec<char> = Vec::new();
    let ghost rows = |y: int| ascii_row(img@, gray@, y);
    let mut y: usize = 0;
    while y < h
        invariant
            img.well_formed(),
            gray.well_formed(),
            gray.width == img.width,
            gray.height == img.height,
            w == img.width,
            h == img.height,
            len == img.data@.len(),
            y <= h,
            rows == (|yy: int| ascii_row(img@, gray@, yy)),
            out@ == concat_upto(rows, y as int),
        decreases h - y,
    {
        let ghost cells = |x: int| ascii_cell(img@, gray@, x, y as int);
        let ghost row_start = out@;
        let mut x: usize = 0;
        while x < w
            invariant
                img.well_formed(),
                gray.well_formed(),
                gray.width == img.width,
                gray.height == img.height,
                w == img.width,
                h == img.height,
                len == img.data@.len(),
                y < h,
                x <= w,
                cells == (|xx: int| ascii_cell(img@, gray@, xx, y as int)),
                out@ == row_start + concat_upto(cells, x as int),
            decreases w - x,
        {
            proof {
                lemma_grid_index(w as int, h as int, x as int, y as int);
            }
            let i: usize = y * w + x;
            let r = img.data[4 * i];
            let g = img.data[4 * i + 1];
            let b = img.data[4 * i + 2];
            let lum = gray.data[i];
            push_fg_escape(&mut out, r, g, b);
            out.push(ramp_char_of(lum));
            proof {
                assert(concat_upto(cells, x as int + 1) == concat_upto(cells, x as int) + cells(
                    x as int,
                ));
                assert(out@ =~= row_start + concat_upto(cells, x as int + 1));
            }
            x = x + 1;
        }
        push_row_end(&mut out);
        proof {
            assert(concat_upto(rows, y as int + 1) == concat_upto(rows, y as int) + rows(y as int));
            assert(out@ =~= concat_upto(rows, y as int + 1));
        }
        y = y + 1;
    }
    out
}

// ─── Half-block encoder ──────────────────────────────────────────────

/// The number of terminal rows half-block output has for an image of
/// height `h`: two image rows per terminal row, rounded up.
pub open spec fn hb_rows(h: int) -> int {
    (h + 1) / 2
}

/// One half-block cell: the pixel of the top sub-row as foreground, the
/// pixel of the bottom sub-row as background (the top pixel again when the
/// bottom row is past the image edge), then the upper-half-block glyph.
pub open spec fn hb_cell(img: RasterView, x: int, r: int) -> Seq<char> {
    let ti = 2 * r * img.width + x;
    let bi = if 2 * r + 1 < img.height {
        (2 * r + 1) * img.width + x
    } else {
        ti
    };
    sgr_fg_bg(
        img.r_at(ti) as int,
        img.g_at(ti) as int,
        img.b_at(ti) as int,
        img.r_at(bi) as int,
        img.g_at(bi) as int,
        img.b_at(bi) as int,
    ) + seq!['\u{2580}']
}

/// One half-block output row.
pub open spec fn hb_row(img: RasterView, r: int) -> Seq<char> {
    concat_upto(|x: int| hb_cell(img, x, r), img.width) + row_end()
}

/// The whole half-block output.
pub open spec fn hb_output(img: RasterView) -> Seq<char> {
    concat_upto(|r: int| hb_row(img, r), hb_rows(img.height))
}

/// Renders two vertically stacked pixels per terminal cell, the top one as
/// the foreground of an upper-half-block glyph and the bottom one as its
/// background.
pub fn render_half_block_cells(img: &RasterImage) -> (out: Vec<char>)
    requires
        img.well_formed(),
    ensures
        out@ == hb_output(img@),
{
    let w: usize = img.width as usize;
    let h: usize = img.height as usize;
    let len: usize = img.data.len();
    let nrows: usize = (h - 1) / 2 + 1;
    proof {
        assert(nrows == hb_rows(h as int));
    }
    let mut out: Vec<char> = Vec::new();
    let ghost rows = |r: int| hb_row(img@, r);
    let mut row: usize = 0;
    while row < nrows
        invariant
            img.well_formed(),
            w == img.width,
            h == img.height,
            len == img.data@.len(),
            nrows == hb_rows(h as int),
            row <= nrows,
            rows == (|r: int| hb_row(img@, r)),
            out@ == concat_upto(rows, row as int),
        decreases nrows - row,
    {
        let ghost cells = |x: int| hb_cell(img@, x, row as int);
        let ghost row_start = out@;
        let y: usize = 2 * row;
        proof {
            assert(y < h);
        }
        let mut x: usize = 0;
        while x < w
            invariant
                img.well_formed(),
                w == img.width,
                h == img.height,
                len == img.data@.len(),
                nrows == hb_rows(h as int),
                row < nrows,
                y == 2 * row,
                y < h,
                x <= w,
                cells == (|xx: int| hb_cell(img@, xx, row as int)),
                out@ == row_start + concat_upto(cells, x as int),
            decreases w - x,
        {
            proof {
                lemma_grid_index(w as int, h as int, x as int, y as int);
            }
            let ti: usize = y * w + x;
            let tr = img.data[4 * ti];
            let tg = img.data[4 * ti + 1];
            let tb = img.data[4 * ti + 2];
            let (br, bg, bb) = if y + 1 < h {
                proof {
                    lemma_grid_index(w as int, h as int, x as int, y as int + 1);
                }
                let bi: usize = (y + 1) * w + x;
                (img.data[4 * bi], img.data[4 * bi + 1], img.data[4 * bi + 2])
            } else {
                (tr, tg, tb)
            };
            push_fg_bg_escape(&mut out, tr, tg, tb, br, bg, bb);
            out.push('\u{2580}');
            proof {
                assert(concat_upto(cells, x as int + 1) == concat_upto(cells, x as int) + cells(
                    x as int,
                ));
                assert(out@ =~= row_start + concat_upto(cells, x as int + 1));
            }
            x = x + 1;
        }
        push_row_end(&mut out);
        proof {
            assert(concat_upto(rows, row as int + 1) == concat_upto(rows, row as int) + rows(
                row as int,
            ));
            assert(out@ =~= concat_upto(rows, row as int + 1));
        }
        row = row + 1;
    }
    out
}

/// Uniformity of the ASCII encoder: on an image whose every pixel has the
/// same color, with the plain (undithered) luminance field, every cell is
/// the same glyph — a foreground escape carrying that color, then the ramp
/// character selected by that color's luminance.
pub proof fn lemma_ascii_uniform(img: RasterView, r: u8, g: u8, b: u8, a: u8, x: int, y: int)
    requires
        img.well_formed(),
        img.uniform(r, g, b, a),
        0 <= x < img.width,
        0 <= y < img.height,
    ensures
        ascii_cell(img, crate::pixels::grayscale_spec(img), x, y) == sgr_fg(
            r as int,
            g as int,
            b as int,
        ) + seq![
            ramp_char(
                ramp_index(crate::pixels::luminance_spec(r as int, g as int, b as int) as int),
            ),
        ],
{
    lemma_grid_index(img.width, img.height, x, y);
    let i = y * img.width + x;
    assert(img.r_at(i) == r && img.g_at(i) == g && img.b_at(i) == b);
    assert(crate::pixels::grayscale_spec(img).lum_at(x, y) == crate::pixels::luminance_spec(
        r as int,
        g as int,
        b as int,
    ) as u8);
}

/// Row structure of the half-block encoder: the output has one terminal
/// row for every two pixel rows, rounded up; and when the pixel height is
/// odd, every cell of the last terminal row shows the top pixel as both
/// foreground and background.
pub proof fn lemma_hb_rows(img: RasterView, x: int)
    requires
        img.well_formed(),
        0 <= x < img.width,
    ensures
        hb_output(img) == concat_upto(|r: int| hb_row(img, r), (img.height + 1) / 2),
        2 * hb_rows(img.height) >= img.height,
        2 * (hb_rows(img.height) - 1) < img.height,
        img.height % 2 == 1 ==> hb_cell(img, x, hb_rows(img.height) - 1) == sgr_fg_bg(
            img.r_at(2 * (hb_rows(img.height) - 1) * img.width + x) as int,
            img.g_at(2 * (hb_rows(img.height) - 1) * img.width + x) as int,
            img.b_at(2 * (hb_rows(img.height) - 1) * img.width + x) as int,
            img.r_at(2 * (hb_rows(img.height) - 1) * img.width + x) as int,
            img.g_at(2 * (hb_rows(img.height) - 1) * img.width + x) as int,
            img.b_at(2 * (hb_rows(img.height) - 1) * img.width + x) as int,
        ) + seq!['\u{2580}'],
{
    let h = img.height;
    let last = hb_rows(h) - 1;
    if h % 2 == 1 {
        assert(2 * last + 1 == h);
    }
}

/// How many line breaks a character sequence holds.
pub open spec fn count_newlines(s: Seq<char>) -> int
    decreases s.len(),
{
    if s.len() == 0 {
        0
    } else {
        count_newlines(s.drop_last()) + if s.last() == '\n' {
            1int
        } else {
            0int
        }
    }
}

/// Line breaks add up over concatenation.
pub proof fn lemma_count_newlines_concat(a: Seq<char>, b: Seq<char>)
    ensures
        count_newlines(a + b) == count_newlines(a) + count_newlines(b),
    decreases b.len(),
{
    if b.len() == 0 {
        assert(a + b =~= a);
    } else {
        lemma_count_newlines_concat(a, b.drop_last());
        assert((a + b).drop_last() =~= a + b.drop_last());
    }
}

/// A sequence without a line break counts none.
pub proof fn lemma_count_newlines_zero(s: Seq<char>)
    requires
        forall|i: int| 0 <= i < s.len() ==> s[i] != '\n',
    ensures
        count_newlines(s) == 0,
    decreases s.len(),
{
    if s.len() > 0 {
        lemma_count_newlines_zero(s.drop_last());
    }
}

/// Decimal digits hold no line break.
pub proof fn lemma_dec_of_no_newline(n: int)
    ensures
        forall|i: int| 0 <= i < dec_of(n).len() ==> dec_of(n)[i] != '\n',
    decreases n,
{
    if n < 10 {
        assert(dec_of(n) =~= seq![digit_char(n)]);
        assert(digit_char(n) != '\n');
    } else {
        lemma_dec_of_no_newline(n / 10);
        assert(dec_of(n) =~= dec_of(n / 10).push(digit_char(n % 10)));
        assert(digit_char(n % 10) != '\n');
        assert forall|i: int| 0 <= i < dec_of(n).len() implies dec_of(n)[i] != '\n' by {
            if i < dec_of(n / 10).len() {
                assert(dec_of(n)[i] == dec_of(n / 10)[i]);
            } else {
                assert(dec_of(n)[i] == digit_char(n % 10));
            }
        }
    }
}

/// The row terminator holds exactly one line break.
proof fn lemma_row_end_one_newline()
    ensures
        count_newlines(row_end()) == 1,
{
    reveal_with_fuel(count_newlines, 6);
    assert(row_end().drop_last() =~= seq!['\u{1b}', '[', '0', 'm']);
    assert(seq!['\u{1b}', '[', '0', 'm'].drop_last() =~= seq!['\u{1b}', '[', '0']);
    assert(seq!['\u{1b}', '[', '0'].drop_last() =~= seq!['\u{1b}', '[']);
    assert(seq!['\u{1b}', '['].drop_last() =~= seq!['\u{1b}']);
    assert(seq!['\u{1b}'].drop_last() =~= Seq::<char>::empty());
}

/// A combined color escape holds no line break.
pub proof fn lemma_sgr_fg_bg_no_newline(r: int, g: int, b: int, br: int, bg: int, bb: int)
    ensures
        forall|i: int|
            0 <= i < sgr_fg_bg(r, g, b, br, bg, bb).len() ==> sgr_fg_bg(r, g, b, br, bg, bb)[i]
                != '\n',
{
    lemma_dec_of_no_newline(r);
    lemma_dec_of_no_newline(g);
    lemma_dec_of_no_newline(b);
    lemma_dec_of_no_newline(br);
    lemma_dec_of_no_newline(bg);
    lemma_dec_of_no_newline(bb);
}

/// The half-block cells of one terminal row hold no line break.
proof fn lemma_hb_cells_no_newline(img: RasterView, r: int, n: int)
    requires
        n >= 0,
    ensures
        count_newlines(concat_upto(|x: int| hb_cell(img, x, r), n)) == 0,
    decreases n,
{
    let f = |x: int| hb_cell(img, x, r);
    if n == 0 {
        assert(count_newlines(concat_upto(f, 0)) == 0);
    } else {
        lemma_hb_cells_no_newline(img, r, n - 1);
        let ti = 2 * r * img.width + (n - 1);
        let bi = if 2 * r + 1 < img.height {
            (2 * r + 1) * img.width + (n - 1)
        } else {
            ti
        };
        lemma_sgr_fg_bg_no_newline(
            img.r_at(ti) as int,
            img.g_at(ti) as int,
            img.b_at(ti) as int,
            img.r_at(bi) as int,
            img.g_at(bi) as int,
            img.b_at(bi) as int,
        );
        lemma_count_newlines_zero(f(n - 1));
        lemma_count_newlines_concat(concat_upto(f, n - 1), f(n - 1));
    }
}

/// Line structure of the half-block output: it holds exactly one line
/// break per terminal row — the pixel height halved, rounded up.
pub proof fn lemma_hb_line_count(img: RasterView)
    requires
        img.well_formed(),
    ensures
        count_newlines(hb_output(img)) == hb_rows(img.height),
{
    lemma_hb_rows_upto(img, hb_rows(img.height));
}

proof fn lemma_hb_rows_upto(img: RasterView, n: int)
    requires
        img.width >= 0,
        n >= 0,
    ensures
        count_newlines(concat_upto(|r: int| hb_row(img, r), n)) == n,
    decreases n,
{
    let f = |r: int| hb_row(img, r);
    if n == 0 {
        assert(count_newlines(concat_upto(f, 0)) == 0);
    } else {
        lemma_hb_rows_upto(img, n - 1);
        lemma_hb_cells_no_newline(img, n - 1, img.width);
        lemma_row_end_one_newline();
        lemma_count_newlines_concat(
            concat_upto(|x: int| hb_cell(img, x, n - 1), img.width),
            row_end(),
        );
        lemma_count_newlines_concat(concat_upto(f, n - 1), f(n - 1));
    }
}

// ─── Braille encoder ─────────────────────────────────────────────────

/// Whether the dot at offset `(dx, dy)` of the 2x4 block at cell
/// `(cx, cy)` lies inside the image and its binarized luminance is set.
pub open spec fn dot_on(gray: GrayView, cx: int, cy: int, dx: int, dy: int) -> bool {
    let px = 2 * cx + dx;
    let py = 4 * cy + dy;
    &&& px < gray.width
    &&& py < gray.height
    &&& gray.lum_at(px, py) > 0
}

/// The braille bit weight of the dot at offset `(dx, dy)`: the fixed
/// mapping (0,0)->0, (0,1)->1, (0,2)->2, (0,3)->6, (1,0)->3, (1,1)->4,
/// (1,2)->5, (1,3)->7, as a power of two.
pub open spec fn dot_weight(dx: int, dy: int) -> int {
    if dy == 0 {
        if dx == 0 {
            1
        } else {
            8
        }
    } else if dy == 1 {
        if dx == 0 {
            2
        } else {
            16
        }
    } else if dy == 2 {
        if dx == 0 {
            4
        } else {
            32
        }
    } else {
        if dx == 0 {
            64
        } else {
            128
        }
    }
}

/// The pattern contribution of the first `k` dots, in the order
/// (0,0), (1,0), (0,1), (1,1), (0,2), (1,2), (0,3), (1,3).
pub open spec fn pattern_acc(gray: GrayView, cx: int, cy: int, k: int) -> int
    decreases k,
{
    if k <= 0 {
        0
    } else {
        let dx = (k - 1) % 2;
        let dy = (k - 1) / 2;
        pattern_acc(gray, cx, cy, k - 1) + if dot_on(gray, cx, cy, dx, dy) {
            dot_weight(dx, dy)
        } else {
            0
        }
    }
}

/// The 8-bit braille pattern of the block at cell `(cx, cy)`: bit set
/// exactly for the in-bounds dots whose binarized luminance is set.
pub open spec fn braille_pattern(gray: GrayView, cx: int, cy: int) -> int {
    pattern_acc(gray, cx, cy, 8)
}

/// The sum of the braille bit weights of the first `k` dots.
pub open spec fn weight_prefix_sum(k: int) -> int {
    if k <= 0 {
        0
    } else if k == 1 {
        1
    } else if k == 2 {
        9
    } else if k == 3 {
        11
    } else if k == 4 {
        27
    } else if k == 5 {
        31
    } else if k == 6 {
        63
    } else if k == 7 {
        127
    } else {
        255
    }
}

/// Every partial braille pattern stays within the sum of the bit weights
/// spent so far; in particular the full pattern is an 8-bit value.
pub proof fn lemma_pattern_bound(gray: GrayView, cx: int, cy: int, k: int)
    requires
        0 <= k <= 8,
    ensures
        0 <= pattern_acc(gray, cx, cy, k) <= weight_prefix_sum(k),
    decreases k,
{
    if k > 0 {
        lemma_pattern_bound(gray, cx, cy, k - 1);
    }
}

/// The character whose code point is `0x2800` plus the given pattern.
pub open spec fn braille_glyph(p: int) -> char {
    (0x2800 + p) as char
}

/// The running (red, green, blue, count) sums over the first `k` dots of
/// the block at `(cx, cy)`, counting only in-bounds pixels.
pub open spec fn block_acc(img: RasterView, cx: int, cy: int, k: int) -> (int, int, int, int)
    decreases k,
{
    if k <= 0 {
        (0, 0, 0, 0)
    } else {
        let dx = (k - 1) % 2;
        let dy = (k - 1) / 2;
        let px = 2 * cx + dx;
        let py = 4 * cy + dy;
        let prev = block_acc(img, cx, cy, k - 1);
        if px < img.width && py < img.height {
            let i = py * img.width + px;
            (
                prev.0 + img.r_at(i) as int,
                prev.1 + img.g_at(i) as int,
                prev.2 + img.b_at(i) as int,
                prev.3 + 1,
            )
        } else {
            prev
        }
    }
}

/// The foreground of a braille cell: the mean of the RGB channels over the
/// in-bounds pixels of its 2x4 block, or mid-gray for a block wholly
/// outside the image.
pub open spec fn braille_color(img: RasterView, cx: int, cy: int) -> (int, int, int) {
    let acc = block_acc(img, cx, cy, 8);
    if acc.3 == 0 {
        (128, 128, 128)
    } else {
        (acc.0 / acc.3, acc.1 / acc.3, acc.2 / acc.3)
    }
}

/// One braille cell: a foreground escape carrying the block's mean color,
/// then the braille character its dot pattern selects.
pub open spec fn braille_cell(img: RasterView, gray: GrayView, cx: int, cy: int) -> Seq<
    char,
> {
    let c = braille_color(img, cx, cy);
    sgr_fg(c.0, c.1, c.2) + seq![braille_glyph(braille_pattern(gray, cx, cy))]
}

/// One braille output row.
pub open spec fn braille_row(img: RasterView, gray: GrayView, cy: int) -> Seq<char> {
    concat_upto(|cx: int| braille_cell(img, gray, cx, cy), img.width / 2) + row_end()
}

/// The whole braille output: one cell per full 2x4 block of the image.
pub open spec fn braille_output(img: RasterView, gray: GrayView) -> Seq<char> {
    concat_upto(|cy: int| braille_row(img, gray, cy), img.height / 4)
}


/// Braille extremes, lit side: a 2x4 block whose binarized luminance is
/// fully lit yields the full dot pattern 0xFF, and its glyph is U+28FF.
pub proof fn lemma_braille_all_white(gray: GrayView, cx: int, cy: int)
    requires
        0 <= cx,
        0 <= cy,
        2 * cx + 1 < gray.width,
        4 * cy + 3 < gray.height,
        gray.lum_at(2 * cx, 4 * cy) > 0,
        gray.lum_at(2 * cx + 1, 4 * cy) > 0,
        gray.lum_at(2 * cx, 4 * cy + 1) > 0,
        gray.lum_at(2 * cx + 1, 4 * cy + 1) > 0,
        gray.lum_at(2 * cx, 4 * cy + 2) > 0,
        gray.lum_at(2 * cx + 1, 4 * cy + 2) > 0,
        gray.lum_at(2 * cx, 4 * cy + 3) > 0,
        gray.lum_at(2 * cx + 1, 4 * cy + 3) > 0,
    ensures
        braille_pattern(gray, cx, cy) == 0xFF,
        braille_glyph(braille_pattern(gray, cx, cy)) == '\u{28FF}',
{
    reveal_with_fuel(pattern_acc, 9);
    assert(braille_pattern(gray, cx, cy) == 0xFF);
    assert(braille_glyph(0xFF) as u32 == 0x28FF);
    assert(braille_glyph(0xFF) == '\u{28FF}');
}

/// Braille extremes, dark side: a 2x4 block whose binarized luminance is
/// fully dark yields the empty dot pattern 0, and its glyph is U+2800.
pub proof fn lemma_braille_all_black(gray: GrayView, cx: int, cy: int)
    requires
        0 <= cx,
        0 <= cy,
        2 * cx + 1 < gray.width,
        4 * cy + 3 < gray.height,
        gray.lum_at(2 * cx, 4 * cy) == 0,
        gray.lum_at(2 * cx + 1, 4 * cy) == 0,
        gray.lum_at(2 * cx, 4 * cy + 1) == 0,
        gray.lum_at(2 * cx + 1, 4 * cy + 1) == 0,
        gray.lum_at(2 * cx, 4 * cy + 2) == 0,
        gray.lum_at(2 * cx + 1, 4 * cy + 2) == 0,
        gray.lum_at(2 * cx, 4 * cy + 3) == 0,
        gray.lum_at(2 * cx + 1, 4 * cy + 3) == 0,
    ensures
        braille_pattern(gray, cx, cy) == 0,
        braille_glyph(braille_pattern(gray, cx, cy)) == '\u{2800}',
{
    reveal_with_fuel(pattern_acc, 9);
    assert(braille_pattern(gray, cx, cy) == 0);
    assert(braille_glyph(0) as u32 == 0x2800);
    assert(braille_glyph(0) == '\u{2800}');
}

fn dot_weight_of(k: usize) -> (w: u32)
    requires
        k < 8,
    ensures
        w == dot_weight(k as int % 2, k as int / 2),
{
    if k == 0 {
        1
    } else if k == 1 {
        8
    } else if k == 2 {
        2
    } else if k == 3 {
        16
    } else if k == 4 {
        4
    } else if k == 5 {
        32
    } else if k == 6 {
        64
    } else {
        128
    }
}

/// Renders one glyph per 2x4 pixel block: the braille character encodes
/// which binarized luminance dots are set, the color is the block's mean.
#[verifier::rlimit(30)]
pub fn render_braille_cells(img: &RasterImage, gray: &GrayscaleImage) -> (out: Vec<char>)
    requires
        img.well_formed(),
        gray.well_formed(),
        gray.width == img.width,
        gray.height == img.height,
    ensures
        out@ == braille_output(img@, gray@),
{
    let w: usize = img.width as usize;
    let h: usize = img.height as usize;
    let len: usize = img.data.len();
    let cw: usize = w / 2;
    let ch: usize = h / 4;
    let mut out: Vec<char> = Vec::new();
    let ghost rows = |cy: int| braille_row(img@, gray@, cy);
    let mut cy: usize = 0;
    while cy < ch
        invariant
            img.well_formed(),
            gray.well_formed(),
            gray.width == img.width,
            gray.height == img.height,
            w == img.width,
            h == img.height,
            len == img.data@.len(),
            cw == w / 2,
            ch == h / 4,
            cy <= ch,
            rows == (|yy: int| braille_row(img@, gray@, yy)),
            out@ == concat_upto(rows, cy as int),
        decreases ch - cy,
    {
        let ghost cells = |cx: int| braille_cell(img@, gray@, cx, cy as int);
        let ghost row_start = out@;
        let mut cx: usize = 0;
        while cx < cw
            invariant
                img.well_formed(),
                gray.well_formed(),
                gray.width == img.width,
                gray.height == img.height,
                w == img.width,
                h == img.height,
                len == img.data@.len(),
                cw == w / 2,
                ch == h / 4,
                cy < ch,
                cx <= cw,
                cells == (|xx: int| braille_cell(img@, gray@, xx, cy as int)),
                out@ == row_start + concat_upto(cells, cx as int),
            decreases cw - cx,
        {
            let mut pat: u32 = 0;
            let mut rs: u32 = 0;
            let mut gs: u32 = 0;
            let mut bs: u32 = 0;
            let mut cnt: u32 = 0;
            let mut k: usize = 0;
            while k < 8
                invariant
                    img.well_formed(),
                    gray.well_formed(),
                    gray.width == img.width,
                    gray.height == img.height,
                    w == img.width,
                    h == img.height,
                    len == img.data@.len(),
                    cx < cw,
                    cy < ch,
                    cw == w / 2,
                    ch == h / 4,
                    k <= 8,
                    pat == pattern_acc(gray@, cx as int, cy as int, k as int),
                    (rs as int, gs as int, bs as int, cnt as int) == block_acc(
                        img@,
                        cx as int,
                        cy as int,
                        k as int,
                    ),
                    cnt <= k,
                    rs <= 255 * cnt,
                    gs <= 255 * cnt,
                    bs <= 255 * cnt,
                decreases 8 - k,
            {
                let dx: usize = k % 2;
                let dy: usize = k / 2;
                let px: usize = 2 * cx + dx;
                let py: usize = 4 * cy + dy;
                if px < w && py < h {
                    proof {
                        lemma_grid_index(w as int, h as int, px as int, py as int);
                    }
                    let i: usize = py * w + px;
                    if gray.data[i] > 0 {
                        proof {
                            lemma_pattern_bound(gray@, cx as int, cy as int, k as int);
                        }
                        pat = pat + dot_weight_of(k);
                    }
                    rs = rs + img.data[4 * i] as u32;
                    gs = gs + img.data[4 * i + 1] as u32;
                    bs = bs + img.data[4 * i + 2] as u32;
                    cnt = cnt + 1;
                }
                k = k + 1;
            }
            proof {
                lemma_pattern_bound(gray@, cx as int, cy as int, 8);
            }
            let (r, g, b) = if cnt > 0 {
                proof {
                    assert(rs / cnt <= 255 && gs / cnt <= 255 && bs / cnt <= 255) by (nonlinear_arith)
                        requires
                            cnt > 0,
                            rs <= 255 * cnt,
                            gs <= 255 * cnt,
                            bs <= 255 * cnt,
                    ;
                }
                ((rs / cnt) as u8, (gs / cnt) as u8, (bs / cnt) as u8)
            } else {
                (128u8, 128u8, 128u8)
            };
            let glyph = char_from_code(0x2800 + pat);
            push_fg_escape(&mut out, r, g, b);
            out.push(glyph);
            proof {
                assert(glyph == braille_glyph(pat as int));
                assert(concat_upto(cells, cx as int + 1) == concat_upto(cells, cx as int) + cells(
                    cx as int,
                ));
                assert(out@ =~= row_start + concat_upto(cells, cx as int + 1));
            }
            cx = cx + 1;
        }
        push_row_end(&mut out);
        proof {
            assert(concat_upto(rows, cy as int + 1) == concat_upto(rows, cy as int) + rows(
                cy as int,
            ));
            assert(out@ =~= concat_upto(rows, cy as int + 1));
        }
        cy = cy + 1;
    }
    out
}

} // verus!
