//! Glyphs, colour attributes and the glyph+attribute cells of the text grid.

use vstd::prelude::*;

verus! {

/// An index into the 256 glyphs of a font.
#[derive(Copy, Clone, Debug, PartialEq, Eq, Structural)]
pub struct Glyph(pub u8);

/// A text attribute byte: bit 7 is blink, bits 6..3 the foreground colour
/// index and bits 2..0 the background colour index.
#[derive(Copy, Clone, Debug, PartialEq, Eq, Structural)]
pub struct Attr(pub u8);

/// One cell of the text grid: the glyph in the low byte and its attribute
/// in the high byte.
#[derive(Copy, Clone, Debug, PartialEq, Eq, Structural)]
pub struct GlyphAttr(pub u16);

/// The foreground colour index of the default attribute (white).
pub const FG_WHITE: u8 = 15;

/// The background colour index of the default attribute (black).
pub const BG_BLACK: u8 = 0;

/// The attribute byte made of a foreground index, a background index and a
/// blink flag.
pub open spec fn attr_byte(fg: int, bg: int, blink: bool) -> int {
    (if blink { 128int } else { 0int }) + fg * 8 + bg
}

/// The cell value made of a glyph and an attribute.
pub open spec fn cell_value(glyph: Glyph, attr: Attr) -> int {
    attr.0 * 256 + glyph.0
}

impl Attr {
    /// Make an attribute from a 4-bit foreground colour index, a 3-bit
    /// background colour index and a blink flag.
    pub fn new(fg: u8, bg: u8, blink: bool) -> (a: Attr)
        requires
            fg < 16,
            bg < 8,
        ensures
            a.0 == attr_byte(fg as int, bg as int, blink),
    {
        let b: u8 = if blink { 0x80 } else { 0 };
        let v = b | (fg << 3) | bg;
        assert(v == b + fg * 8 + bg) by (bit_vector)
            requires
                fg < 16,
                bg < 8,
                b == 0 || b == 0x80,
                v == b | (fg << 3) | bg,
        ;
        Attr(v)
    }

    /// The foreground colour index.
    pub fn fg(self) -> (r: u8)
        ensures
            r == (self.0 / 8) % 16,
    {
        (self.0 / 8) % 16
    }

    /// The background colour index.
    pub fn bg(self) -> (r: u8)
        ensures
            r == self.0 % 8,
    {
        self.0 % 8
    }

    /// The attribute as a byte.
    pub fn as_u8(self) -> (r: u8)
        ensures
            r == self.0,
    {
        self.0
    }
}

impl GlyphAttr {
    /// Pack a glyph and an attribute into one cell.
    pub fn new(glyph: Glyph, attr: Attr) -> (c: GlyphAttr)
        ensures
            c.0 == cell_value(glyph, attr),
            c.glyph_spec() == glyph,
            c.attr_spec() == attr,
    {
        let g = glyph.0 as u16;
        let a = attr.0 as u16;
        let v = (a << 8) | g;
        assert(v == a * 256 + g) by (bit_vector)
            requires
                g < 256,
                a < 256,
                v == (a << 8) | g,
        ;
        GlyphAttr(v)
    }

    pub open spec fn glyph_spec(self) -> Glyph {
        Glyph((self.0 % 256) as u8)
    }

    pub open spec fn attr_spec(self) -> Attr {
        Attr((self.0 / 256) as u8)
    }

    /// The glyph of this cell.
    pub fn glyph(self) -> (g: Glyph)
        ensures
            g == self.glyph_spec(),
    {
        Glyph((self.0 % 256) as u8)
    }

    /// The attribute of this cell.
    pub fn attr(self) -> (a: Attr)
        ensures
            a == self.attr_spec(),
    {
        Attr((self.0 / 256) as u8)
    }
}

} // verus!
