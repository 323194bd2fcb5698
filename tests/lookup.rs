use neotron_pico_bios::colour::{RGBColour, RGBPair};
use neotron_pico_bios::lookup::TextColourLookup;
use neotron_pico_bios::palette::video_palette;
use neotron_pico_bios::text::Attr;

#[test]
fn blank_table_is_black() {
    let l = TextColourLookup::blank();
    assert_eq!(l.entries.len(), 512);
    assert!(l.entries.iter().all(|p| *p == RGBPair(0)));
}

#[test]
fn every_entry_matches_the_palette() {
    let pal = video_palette();
    let mut l = TextColourLookup::blank();
    l.init(&pal);
    for fg in 0..16u8 {
        for bg in 0..8u8 {
            for px in 0..4u8 {
                let attr = Attr::new(fg, bg, false);
                let first = if px & 2 != 0 { pal[fg as usize] } else { pal[bg as usize] };
                let second = if px & 1 != 0 { pal[fg as usize] } else { pal[bg as usize] };
                assert_eq!(l.lookup(attr, px), RGBPair::new(first, second));
            }
        }
    }
}

#[test]
fn lookup_ignores_blink_and_high_pixel_bits() {
    let pal = video_palette();
    let mut l = TextColourLookup::blank();
    l.init(&pal);
    let plain = l.lookup(Attr::new(9, 1, false), 0b10);
    assert_eq!(l.lookup(Attr::new(9, 1, true), 0b1111_1110), plain);
    assert_eq!(plain, RGBPair::new(pal[9], pal[1]));
}

#[test]
fn short_palette_fills_only_what_it_holds() {
    let pal = vec![RGBColour(0x001), RGBColour(0x002), RGBColour(0x003), RGBColour(0x004)];
    let mut l = TextColourLookup::blank();
    l.init(&pal);
    assert_eq!(l.lookup(Attr::new(3, 2, false), 0b01), RGBPair::new(pal[2], pal[3]));
    assert_eq!(l.lookup(Attr::new(5, 2, false), 0b01), RGBPair(0));
    assert_eq!(l.lookup(Attr::new(1, 6, false), 0b11), RGBPair(0));
}
