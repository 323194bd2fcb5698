use neotron_pico_bios::mode::{Format, Timing, VideoMode};
use neotron_pico_bios::text::{Attr, Glyph, GlyphAttr};

#[test]
fn attr_packs_colours_and_blink() {
    assert_eq!(Attr::new(15, 0, false).as_u8(), 0x78);
    assert_eq!(Attr::new(1, 7, true).as_u8(), 0x8f);
    assert_eq!(Attr::new(9, 3, false).fg(), 9);
    assert_eq!(Attr::new(9, 3, false).bg(), 3);
}

#[test]
fn glyph_attr_round_trip() {
    let c = GlyphAttr::new(Glyph(0x41), Attr(0x1e));
    assert_eq!(c, GlyphAttr(0x1e41));
    assert_eq!(c.glyph(), Glyph(0x41));
    assert_eq!(c.attr(), Attr(0x1e));
}

#[test]
fn mode_dimensions() {
    let m = VideoMode::new(Timing::T640x400, Format::Text8x8);
    assert_eq!(m.horizontal_pixels(), 640);
    assert_eq!(m.vertical_lines(), 400);
    assert_eq!(m.text_width(), Some(80));
    assert_eq!(m.text_height(), Some(50));
    let d = VideoMode { timing: Timing::T800x600, format: Format::Text8x16, horiz_2x: true, vert_2x: true };
    assert_eq!(d.horizontal_pixels(), 400);
    assert_eq!(d.vertical_lines(), 300);
    assert_eq!(d.text_width(), Some(50));
    assert_eq!(d.text_height(), Some(18));
    assert_eq!(VideoMode::new(Timing::T640x480, Format::Chunky1).text_width(), None);
    assert_eq!(VideoMode::new(Timing::T640x480, Format::Chunky1).text_height(), None);
}
