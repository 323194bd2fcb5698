use neotron_pico_bios::colour::{RGBColour, RGBPair};
use neotron_pico_bios::palette::{palette_entry, video_palette};

#[test]
fn new4_packs_blue_green_red() {
    assert_eq!(RGBColour::new4(0x1, 0x2, 0x3), RGBColour(0x321));
    assert_eq!(RGBColour::new4(0xf, 0xf, 0xf), RGBColour(0xfff));
}

#[test]
fn new4_keeps_low_nibbles() {
    assert_eq!(RGBColour::new4(0x1a, 0x2b, 0xfc), RGBColour(0xcba));
}

#[test]
fn new8_keeps_high_nibbles() {
    assert_eq!(RGBColour::new8(0xff, 0x80, 0x1f), RGBColour(0x18f));
    assert_eq!(RGBColour::new8(0x0f, 0x0f, 0x0f), RGBColour(0x000));
}

#[test]
fn pair_puts_first_pixel_low() {
    let p = RGBPair::new(RGBColour(0x123), RGBColour(0xabc));
    assert_eq!(p, RGBPair(0x0abc_0123));
}

#[test]
fn palette_has_text_colours_first() {
    let p = video_palette();
    assert_eq!(p.len(), 256);
    assert_eq!(p[0], RGBColour(0x000));
    assert_eq!(p[1], RGBColour(0x008));
    assert_eq!(p[7], RGBColour(0x0cc));
    assert_eq!(p[15], RGBColour(0xfff));
    assert_eq!(p[16], RGBColour(0x300));
    assert_eq!(p[255], RGBColour(0x777));
    assert_eq!(palette_entry(9), RGBColour(0x00f));
}
