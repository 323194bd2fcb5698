use neotron_pico_bios::colour::RGBPair;
use neotron_pico_bios::font::Font;
use neotron_pico_bios::line_buffer::LineBuffer;
use neotron_pico_bios::lookup::TextColourLookup;
use neotron_pico_bios::mode::Format;
use neotron_pico_bios::palette::video_palette;
use neotron_pico_bios::render::{render_scanline, render_scanline_text};
use neotron_pico_bios::text::{Attr, Glyph, GlyphAttr};

/// A font whose glyph `g` has the byte `g` on every pixel row, except
/// that the space is blank.
fn test_font(height: usize) -> Vec<u8> {
    let mut data = Vec::new();
    for _row in 0..height {
        for g in 0..256usize {
            data.push(if g == 32 { 0 } else { g as u8 });
        }
    }
    data
}

fn lookup() -> TextColourLookup {
    let mut l = TextColourLookup::blank();
    l.init(&video_palette());
    l
}

fn white_on_black() -> Attr {
    Attr::new(15, 0, false)
}

fn dirty_buffer(line: u16) -> LineBuffer {
    let mut b = LineBuffer::new();
    for p in b.pixels.iter_mut() {
        *p = RGBPair(0xdead_beef);
    }
    b.set_ready(line);
    b
}

#[test]
fn blank_grid_renders_background() {
    let f16 = test_font(16);
    let f8 = test_font(8);
    let font16 = Font { height_shift: 4, data: &f16 };
    let font8 = Font { height_shift: 3, data: &f8 };
    let grid = vec![GlyphAttr::new(Glyph(32), white_on_black()); 4800];
    let l = lookup();
    let mut buf = dirty_buffer(0);
    render_scanline(&mut buf, Format::Text8x16, 30, 80, &grid, &font16, &font8, &l);
    let black = video_palette()[0];
    let bg_pair = RGBPair::new(black, black);
    assert_eq!(buf.pixels.len(), 320);
    for p in buf.pixels.iter() {
        assert_eq!(*p, bg_pair);
    }
    assert!(buf.is_rendering_done());
}

#[test]
fn glyph_bits_pick_colours() {
    let f16 = test_font(16);
    let f8 = test_font(8);
    let font16 = Font { height_shift: 4, data: &f16 };
    let font8 = Font { height_shift: 3, data: &f8 };
    let mut grid = vec![GlyphAttr::new(Glyph(32), white_on_black()); 4800];
    // Row 1 of an 8x8 screen is scan-lines 8 to 15. Glyph 0b1001_0110 in
    // yellow (7) on blue (4).
    grid[80] = GlyphAttr::new(Glyph(0b1001_0110), Attr::new(7, 4, false));
    let l = lookup();
    let mut buf = dirty_buffer(13);
    render_scanline(&mut buf, Format::Text8x8, 60, 80, &grid, &font16, &font8, &l);
    let pal = video_palette();
    let (fg, bg) = (pal[7], pal[4]);
    assert_eq!(buf.pixels[0], RGBPair::new(fg, bg));
    assert_eq!(buf.pixels[1], RGBPair::new(bg, fg));
    assert_eq!(buf.pixels[2], RGBPair::new(bg, fg));
    assert_eq!(buf.pixels[3], RGBPair::new(fg, bg));
    assert_eq!(buf.pixels[4], RGBPair::new(pal[0], pal[0]));
    assert_eq!(buf.line_number, 13);
}

#[test]
fn line_past_last_row_draws_nothing() {
    let f16 = test_font(16);
    let f8 = test_font(8);
    let font16 = Font { height_shift: 4, data: &f16 };
    let font8 = Font { height_shift: 3, data: &f8 };
    let grid = vec![GlyphAttr::new(Glyph(65), white_on_black()); 4800];
    let l = lookup();
    // 25 rows of 16 pixels end at line 399.
    let mut buf = dirty_buffer(400);
    render_scanline(&mut buf, Format::Text8x16, 25, 80, &grid, &font16, &font8, &l);
    assert!(buf.pixels.iter().all(|p| *p == RGBPair(0xdead_beef)));
    assert!(buf.is_rendering_done());
}

#[test]
fn unsupported_width_draws_nothing() {
    let f16 = test_font(16);
    let f8 = test_font(8);
    let font16 = Font { height_shift: 4, data: &f16 };
    let font8 = Font { height_shift: 3, data: &f8 };
    let grid = vec![GlyphAttr::new(Glyph(65), white_on_black()); 4800];
    let l = lookup();
    let mut buf = dirty_buffer(0);
    render_scanline(&mut buf, Format::Text8x16, 30, 64, &grid, &font16, &font8, &l);
    assert!(buf.pixels.iter().all(|p| *p == RGBPair(0xdead_beef)));
    assert!(buf.is_rendering_done());
}

#[test]
fn graphics_format_leaves_buffer_with_renderer() {
    let f16 = test_font(16);
    let f8 = test_font(8);
    let font16 = Font { height_shift: 4, data: &f16 };
    let font8 = Font { height_shift: 3, data: &f8 };
    let grid = vec![GlyphAttr::new(Glyph(65), white_on_black()); 4800];
    let l = lookup();
    let mut buf = dirty_buffer(0);
    render_scanline(&mut buf, Format::Chunky8, 30, 80, &grid, &font16, &font8, &l);
    assert!(buf.pixels.iter().all(|p| *p == RGBPair(0xdead_beef)));
    assert!(buf.is_ready_for_rendering());
}

#[test]
fn forty_columns_fill_half_the_line() {
    let f8 = test_font(8);
    let font8 = Font { height_shift: 3, data: &f8 };
    let grid = vec![GlyphAttr::new(Glyph(0xff), white_on_black()); 4800];
    let l = lookup();
    let mut pixels = vec![RGBPair(7); 320];
    render_scanline_text(40, &grid, 0, &font8, 2, &l, &mut pixels);
    let white = video_palette()[15];
    for i in 0..160 {
        assert_eq!(pixels[i], RGBPair::new(white, white));
    }
    for i in 160..320 {
        assert_eq!(pixels[i], RGBPair(7));
    }
}

#[test]
fn font_row_and_text_row_from_line_number() {
    // A font whose row r of every glyph is the byte r, on a 16-high font:
    // line 37 is text row 2, font row 5.
    let mut f16 = Vec::new();
    for row in 0..16usize {
        for _g in 0..256usize {
            f16.push(row as u8);
        }
    }
    let f8 = test_font(8);
    let font16 = Font { height_shift: 4, data: &f16 };
    let font8 = Font { height_shift: 3, data: &f8 };
    let mut grid = vec![GlyphAttr::new(Glyph(32), white_on_black()); 4800];
    grid[2 * 80] = GlyphAttr::new(Glyph(1), white_on_black());
    let l = lookup();
    let mut buf = dirty_buffer(37);
    render_scanline(&mut buf, Format::Text8x16, 30, 80, &grid, &font16, &font8, &l);
    let pal = video_palette();
    let (w, k) = (pal[15], pal[0]);
    // 5 = 0b0000_0101: pairs 00, 00, 01, 01.
    assert_eq!(buf.pixels[0], RGBPair::new(k, k));
    assert_eq!(buf.pixels[1], RGBPair::new(k, k));
    assert_eq!(buf.pixels[2], RGBPair::new(k, w));
    assert_eq!(buf.pixels[3], RGBPair::new(k, w));
}
