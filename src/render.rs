//! Turning one scan-line of the text grid into pixel pairs.

use vstd::prelude::*;
use crate::colour::RGBPair;
use crate::font::Font;
use crate::line_buffer::LineBuffer;
use crate::lookup::{TextColourLookup, lookup_index};
use crate::mode::{Format, is_text};
use crate::text::GlyphAttr;
use crate::{MAX_NUM_PIXEL_PAIRS_PER_LINE, MAX_TEXT_CELLS, MAX_TEXT_COLS, MAX_TEXT_ROWS};

verus! {

/// Two of the eight mono pixels of a font byte: pair `k` (0 to 3, left to
/// right) is bits `7 - 2k` and `6 - 2k`.
pub open spec fn mono_bits(mono: u8, k: int) -> int {
    let shifted: int = if k == 0 {
        mono as int / 64
    } else if k == 1 {
        mono as int / 16
    } else if k == 2 {
        mono as int / 4
    } else {
        mono as int
    };
    shifted % 4
}

/// Pixel pair `i` of a text line whose first cell is `grid[row_start]`,
/// drawn with pixel row `font_row` of `font`: each cell gives four pairs.
pub open spec fn text_pixel_pair(
    grid: Seq<GlyphAttr>,
    row_start: int,
    font: Seq<u8>,
    font_row: int,
    lookup: Seq<RGBPair>,
    i: int,
) -> RGBPair {
    let cell = grid[row_start + i / 4];
    let mono = font[font_row * 256 + cell.glyph_spec().0];
    lookup[lookup_index(cell.attr_spec().0 as int, mono_bits(mono, i % 4))]
}

/// The pixels of a buffer that held `old` after drawing `num_cols` cells of a
/// text line; the pairs past them keep their values.
pub open spec fn text_line_pixels(
    old: Seq<RGBPair>,
    grid: Seq<GlyphAttr>,
    row_start: int,
    font: Seq<u8>,
    font_row: int,
    lookup: Seq<RGBPair>,
    num_cols: int,
) -> Seq<RGBPair> {
    Seq::new(
        old.len(),
        |i: int|
            if i < num_cols * 4 {
                text_pixel_pair(grid, row_start, font, font_row, lookup, i)
            } else {
                old[i]
            },
    )
}

/// The pixels of a buffer that held `old` after rendering scan-line `line`
/// with `font`, on a screen of `num_rows` by `num_cols` cells. Text rows past
/// the screen, and widths other than 40 and 80 columns, draw nothing.
pub open spec fn rendered_pixels(
    old: Seq<RGBPair>,
    line: int,
    num_rows: int,
    num_cols: int,
    grid: Seq<GlyphAttr>,
    font: Font,
    lookup: Seq<RGBPair>,
) -> Seq<RGBPair> {
    let text_row = line / font.height();
    let font_row = line % font.height();
    if text_row < num_rows && (num_cols == 80 || num_cols == 40) {
        text_line_pixels(old, grid, text_row * num_cols, font.data@, font_row, lookup, num_cols)
    } else {
        old
    }
}

/// Draw the scan-line that `scan_line_buffer.line_number` names, then hand
/// the buffer to the pixel output.
///
/// The text row is the line number divided by the font height, and the
/// pixel row within the glyphs is the remainder. The 8x16 formats use
/// `font16`, the 8x8 formats `font8`; in any other format nothing is drawn
/// and the buffer stays with the renderer.
pub fn render_scanline(
    scan_line_buffer: &mut LineBuffer,
    format: Format,
    num_rows: usize,
    num_cols: usize,
    grid: &[GlyphAttr],
    font16: &Font,
    font8: &Font,
    lookup: &TextColourLookup,
)
    requires
        old(scan_line_buffer).wf(),
        font16.wf(),
        font16.height_shift == 4,
        font8.wf(),
        font8.height_shift == 3,
        lookup.wf(),
        num_rows <= MAX_TEXT_ROWS,
        num_cols <= MAX_TEXT_COLS,
        num_rows * num_cols <= grid@.len(),
    ensures
        !is_text(format) ==> *final(scan_line_buffer) == *old(scan_line_buffer),
        is_text(format) ==> {
            let font = if format == Format::Text8x16 { *font16 } else { *font8 };
            &&& final(scan_line_buffer).pixels@ == rendered_pixels(
                old(scan_line_buffer).pixels@,
                old(scan_line_buffer).line_number as int,
                num_rows as int,
                num_cols as int,
                grid@,
                font,
                lookup.entries@,
            )
            &&& !final(scan_line_buffer).ready_for_drawing
            &&& final(scan_line_buffer).line_number == old(scan_line_buffer).line_number
            &&& final(scan_line_buffer).length == old(scan_line_buffer).length
        },
{
    let font = match format {
        Format::Text8x16 => font16,
        Format::Text8x8 => font8,
        _ => {
            return;
        },
    };
    let current_line_num = scan_line_buffer.line_number;
    let shift = font.height_shift;
    let height: u16 = 1u16 << shift;
    assert(height == 8 || height == 16) by (bit_vector)
        requires
            shift == 3 || shift == 4,
            height == 1u16 << shift,
    ;
    let text_row = (current_line_num >> shift) as usize;
    let font_row = (current_line_num & (height - 1)) as usize;
    proof {
        lemma_line_split(current_line_num, shift);
    }
    if text_row >= num_rows {
        scan_line_buffer.mark_rendering_done();
        return;
    }
    assert(text_row * num_cols + num_cols <= num_rows * num_cols <= MAX_TEXT_CELLS)
        by (nonlinear_arith)
        requires
            text_row < num_rows,
            num_rows <= MAX_TEXT_ROWS,
            num_cols <= MAX_TEXT_COLS,
    ;
    let row_start = text_row * num_cols;
    if num_cols == 80 || num_cols == 40 {
        render_scanline_text(
            num_cols,
            grid,
            row_start,
            font,
            font_row,
            lookup,
            &mut scan_line_buffer.pixels,
        );
    }
    scan_line_buffer.mark_rendering_done();
}

/// Draw `num_cols` cells, from `grid[row_start]` on, into the first
/// `4 * num_cols` pixel pairs, with pixel row `font_row` of `font`.
pub fn render_scanline_text(
    num_cols: usize,
    grid: &[GlyphAttr],
    row_start: usize,
    font: &Font,
    font_row: usize,
    lookup: &TextColourLookup,
    pixels: &mut Vec<RGBPair>,
)
    requires
        num_cols <= MAX_TEXT_COLS,
        row_start + num_cols <= grid@.len(),
        row_start + num_cols <= MAX_TEXT_CELLS,
        font.wf(),
        font_row < font.height(),
        lookup.wf(),
        old(pixels)@.len() == MAX_NUM_PIXEL_PAIRS_PER_LINE,
    ensures
        final(pixels)@ == text_line_pixels(
            old(pixels)@,
            grid@,
            row_start as int,
            font.data@,
            font_row as int,
            lookup.entries@,
            num_cols as int,
        ),
{
    let font_offset = font_row * 256;
    let mut col: usize = 0;
    while col < num_cols
        invariant
            col <= num_cols,
            num_cols <= MAX_TEXT_COLS,
            row_start + num_cols <= grid@.len(),
            row_start + num_cols <= MAX_TEXT_CELLS,
            font.wf(),
            font_row < font.height(),
            font_offset == font_row * 256,
            lookup.wf(),
            pixels@.len() == MAX_NUM_PIXEL_PAIRS_PER_LINE,
            old(pixels)@.len() == MAX_NUM_PIXEL_PAIRS_PER_LINE,
            forall|i: int|
                0 <= i < col * 4 ==> #[trigger] pixels@[i] == text_pixel_pair(
                    grid@,
                    row_start as int,
                    font.data@,
                    font_row as int,
                    lookup.entries@,
                    i,
                ),
            forall|i: int| col * 4 <= i < MAX_NUM_PIXEL_PAIRS_PER_LINE ==> #[trigger] pixels@[i] == old(pixels)@[i],
        decreases num_cols - col,
    {
        let glyphattr = grid[row_start + col];
        let attr = glyphattr.attr();
        let glyph_index = glyphattr.glyph().0 as usize;
        let mono_pixels = font.data[font_offset + glyph_index];
        assert((mono_pixels >> 6u8) == mono_pixels / 64 && (mono_pixels >> 4u8) == mono_pixels / 16
            && (mono_pixels >> 2u8) == mono_pixels / 4) by (bit_vector);
        let pair_offset = col * 4;
        pixels.set(pair_offset, lookup.lookup(attr, mono_pixels >> 6u8));
        pixels.set(pair_offset + 1, lookup.lookup(attr, mono_pixels >> 4u8));
        pixels.set(pair_offset + 2, lookup.lookup(attr, mono_pixels >> 2u8));
        pixels.set(pair_offset + 3, lookup.lookup(attr, mono_pixels));
        assert forall|i: int| 0 <= i < (col + 1) * 4 implies #[trigger] pixels@[i] == text_pixel_pair(
            grid@,
            row_start as int,
            font.data@,
            font_row as int,
            lookup.entries@,
            i,
        ) by {
            if i >= col * 4 {
                assert(i / 4 == col as int);
            }
        }
        col = col + 1;
    }
    assert(pixels@ =~= text_line_pixels(
        old(pixels)@,
        grid@,
        row_start as int,
        font.data@,
        font_row as int,
        lookup.entries@,
        num_cols as int,
    ));
}

/// Splitting a line number with a shift and a mask, as the renderer does,
/// gives the text row and the pixel row within it: for a font `1 << shift`
/// pixels high (8 or 16), `n >> shift` is `n / height` and
/// `n & (height - 1)` is `n % height`.
pub proof fn lemma_line_split(n: u16, shift: u8)
    requires
        shift == 3 || shift == 4,
    ensures
        (n >> shift) as int == n as int / (if shift == 3 { 8int } else { 16int }),
        (n & ((1u16 << shift) - 1) as u16) as int == n as int % (if shift == 3 { 8int } else { 16int }),
{
    if shift == 3 {
        assert((n >> 3u8) == n / 8 && (n & ((1u16 << 3u8) - 1) as u16) == n % 8) by (bit_vector);
    } else {
        assert((n >> 4u8) == n / 16 && (n & ((1u16 << 4u8) - 1) as u16) == n % 16) by (bit_vector);
    }
}

} // verus!
