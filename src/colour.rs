//! 12-bit colours and packed pixel pairs.

use vstd::prelude::*;

verus! {

/// A 12-bit colour value.
///
/// Each channel has four bits, packed as `0xBGR`: red in the lowest nibble,
/// then green, then blue. The pixel state machine shifts pixels out right
/// first, and red bit 0 sits on the lowest output pin.
#[derive(Copy, Clone, Debug, PartialEq, Eq, Structural, Default)]
pub struct RGBColour(pub u16);

/// Two `RGBColour` pixels packed into one 32-bit word.
///
/// The first pixel is packed in the lower 16 bits, as the pixel state machine
/// shifts right.
#[derive(Copy, Clone, Debug, PartialEq, Eq, Structural, Default)]
pub struct RGBPair(pub u32);

/// The packed value of a colour with the given 4-bit channels.
pub open spec fn pack_rgb(red: int, green: int, blue: int) -> int {
    blue * 256 + green * 16 + red
}

/// The packed value of a pixel pair: `first` low, `second` high.
pub open spec fn pack_pair(first: RGBColour, second: RGBColour) -> int {
    second.0 * 0x1_0000 + first.0
}

impl RGBColour {
    /// Make a 12-bit colour from 8-bit red, green and blue values, keeping
    /// the top four bits of each.
    pub fn new8(red: u8, green: u8, blue: u8) -> (c: RGBColour)
        ensures
            c.0 == pack_rgb(red as int / 16, green as int / 16, blue as int / 16),
    {
        let r = (red >> 4) as u16;
        let g = (green >> 4) as u16;
        let b = (blue >> 4) as u16;
        assert(r == red / 16 && g == green / 16 && b == blue / 16) by (bit_vector)
            requires
                r == (red >> 4) as u16,
                g == (green >> 4) as u16,
                b == (blue >> 4) as u16,
        ;
        Self::pack(r, g, b)
    }

    /// Make a 12-bit colour from 4-bit red, green and blue values; only the
    /// low four bits of each argument are used.
    pub fn new4(red: u8, green: u8, blue: u8) -> (c: RGBColour)
        ensures
            c.0 == pack_rgb(red as int % 16, green as int % 16, blue as int % 16),
    {
        let r = (red & 0x0F) as u16;
        let g = (green & 0x0F) as u16;
        let b = (blue & 0x0F) as u16;
        assert(r == red % 16 && g == green % 16 && b == blue % 16) by (bit_vector)
            requires
                r == (red & 0x0F) as u16,
                g == (green & 0x0F) as u16,
                b == (blue & 0x0F) as u16,
        ;
        Self::pack(r, g, b)
    }

    fn pack(r: u16, g: u16, b: u16) -> (c: RGBColour)
        requires
            r < 16,
            g < 16,
            b < 16,
        ensures
            c.0 == pack_rgb(r as int, g as int, b as int),
    {
        let v = (b << 8) | (g << 4) | r;
        assert(v == b * 256 + g * 16 + r) by (bit_vector)
            requires
                r < 16,
                g < 16,
                b < 16,
                v == (b << 8) | (g << 4) | r,
        ;
        RGBColour(v)
    }
}

impl RGBPair {
    /// Make a pixel pair from two colours; `first` is shown first.
    pub fn new(first: RGBColour, second: RGBColour) -> (p: RGBPair)
        ensures
            p.0 == pack_pair(first, second),
    {
        let f: u32 = first.0 as u32;
        let s: u32 = second.0 as u32;
        let v = (s << 16) | f;
        assert(v == s * 0x1_0000 + f) by (bit_vector)
            requires
                f < 0x1_0000,
                s < 0x1_0000,
                v == (s << 16) | f,
        ;
        RGBPair(v)
    }
}

} // verus!
