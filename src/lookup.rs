//! The text colour look-up table.
//!
//! It maps a 9-bit index, made of the 4-bit foreground colour index, the
//! 3-bit background colour index and two mono pixels, to a pixel pair:
//!
//! ```text
//! | FG3 | FG2 | FG1 | FG0 | BG2 | BG1 | BG0 | PX1 | PX0 |
//! ```
//!
//! `PX1` is the pixel shown first, and goes in the low half of the pair.

use vstd::prelude::*;
use crate::colour::{RGBColour, RGBPair, pack_pair};
use crate::text::{Attr, attr_byte};

verus! {

/// How many entries the table holds.
pub const LOOKUP_ENTRIES: usize = 512;

/// Caches the conversion of two mono pixels into a pixel pair in the
/// foreground and background colours of an attribute.
pub struct TextColourLookup {
    pub entries: Vec<RGBPair>,
}

/// The entry for an attribute byte (blink bit ignored) and two mono pixels
/// (only the low two bits used).
pub open spec fn lookup_index(attr: int, pixels: int) -> int {
    (attr % 128) * 4 + pixels % 4
}

/// The pixel pair for two mono pixels: a set bit shows the foreground
/// colour, a clear bit the background colour. Bit 1 is the first pixel.
pub open spec fn mono_pair(fg: RGBColour, bg: RGBColour, pixels: int) -> RGBPair {
    RGBPair(
        pack_pair(
            if (pixels / 2) % 2 == 1 { fg } else { bg },
            if pixels % 2 == 1 { fg } else { bg },
        ) as u32,
    )
}

/// The foreground colour index that a table index stands for.
pub open spec fn index_fg(i: int) -> int {
    i / 32
}

/// The background colour index that a table index stands for.
pub open spec fn index_bg(i: int) -> int {
    (i / 4) % 8
}

/// The entry that `init` writes at index `i` from `palette`, if any: only
/// colours that the palette holds are used.
pub open spec fn filled_entry(palette: Seq<RGBColour>, i: int) -> Option<RGBPair> {
    if index_fg(i) < palette.len() && index_bg(i) < palette.len() {
        Some(mono_pair(palette[index_fg(i)], palette[index_bg(i)], i % 4))
    } else {
        None
    }
}

/// The entries after filling a table that held `entries` from `palette`.
pub open spec fn init_result(entries: Seq<RGBPair>, palette: Seq<RGBColour>) -> Seq<RGBPair> {
    Seq::new(
        entries.len(),
        |i: int|
            match filled_entry(palette, i) {
                Some(p) => p,
                None => entries[i],
            },
    )
}

impl TextColourLookup {
    pub open spec fn wf(&self) -> bool {
        self.entries@.len() == LOOKUP_ENTRIES
    }

    /// The entry that `lookup` returns.
    pub open spec fn spec_lookup(&self, attr: Attr, pixels: u8) -> RGBPair {
        self.entries@[lookup_index(attr.0 as int, pixels as int)]
    }

    /// A table with every entry zero (black on black).
    pub fn blank() -> (r: TextColourLookup)
        ensures
            r.wf(),
            forall|i: int| 0 <= i < LOOKUP_ENTRIES ==> r.entries@[i] == RGBPair(0),
    {
        let mut entries: Vec<RGBPair> = Vec::new();
        let mut i: usize = 0;
        while i < LOOKUP_ENTRIES
            invariant
                i <= LOOKUP_ENTRIES,
                entries@.len() == i,
                forall|j: int| 0 <= j < i ==> entries@[j] == RGBPair(0),
            decreases LOOKUP_ENTRIES - i,
        {
            entries.push(RGBPair(0));
            i = i + 1;
        }
        TextColourLookup { entries }
    }

    /// Fill the table from a palette: the foreground colours are its first
    /// 16 entries and the background colours its first 8. Entries whose
    /// colours the palette does not hold are left as they were.
    pub fn init(&mut self, palette: &[RGBColour])
        requires
            old(self).wf(),
        ensures
            final(self).wf(),
            final(self).entries@ == init_result(old(self).entries@, palette@),
    {
        let mut i: usize = 0;
        while i < LOOKUP_ENTRIES
            invariant
                i <= LOOKUP_ENTRIES,
                self.wf(),
                forall|j: int|
                    0 <= j < i ==> #[trigger] self.entries@[j] == match filled_entry(palette@, j) {
                        Some(p) => p,
                        None => old(self).entries@[j],
                    },
                forall|j: int| i <= j < LOOKUP_ENTRIES ==> #[trigger] self.entries@[j] == old(self).entries@[j],
            decreases LOOKUP_ENTRIES - i,
        {
            let fg = i / 32;
            let bg = (i / 4) % 8;
            let pixels = i % 4;
            if fg < palette.len() && bg < palette.len() {
                let fg_colour = palette[fg];
                let bg_colour = palette[bg];
                let first = if pixels & 0x02 == 0x02 {
                    fg_colour
                } else {
                    bg_colour
                };
                let second = if pixels & 0x01 == 0x01 {
                    fg_colour
                } else {
                    bg_colour
                };
                assert((pixels & 0x02 == 0x02) == ((pixels / 2) % 2 == 1)
                    && (pixels & 0x01 == 0x01) == (pixels % 2 == 1)) by (bit_vector)
                    requires
                        pixels < 4,
                ;
                self.entries.set(i, RGBPair::new(first, second));
            }
            i = i + 1;
        }
        assert(self.entries@ =~= init_result(old(self).entries@, palette@));
    }

    /// The pixel pair for an attribute and two mono pixels. Only the low two
    /// bits of `pixels` are looked at, and the blink bit of `attr` is ignored.
    pub fn lookup(&self, attr: Attr, pixels: u8) -> (r: RGBPair)
        requires
            self.wf(),
        ensures
            r == self.spec_lookup(attr, pixels),
    {
        let a = attr.0;
        let index: usize = (((a & 0x7F) as usize) << 2) | (pixels & 0x03) as usize;
        assert(index == (a % 128) * 4 + pixels % 4) by (bit_vector)
            requires
                index == (((a & 0x7F) as usize) << 2) | (pixels & 0x03) as usize,
        ;
        self.entries[index]
    }
}

/// Once a table is filled from a palette of at least 16 colours, looking up
/// the attribute with foreground colour `fg` and background colour `bg`
/// (blink clear) and two mono pixels gives the pair whose pixels are the
/// palette's `fg` colour where the pixel's bit is set and its `bg` colour
/// where it is clear.
pub proof fn lemma_lookup_matches_palette(
    before: TextColourLookup,
    palette: Seq<RGBColour>,
    fg: u8,
    bg: u8,
    pixels: u8,
)
    requires
        before.wf(),
        palette.len() >= 16,
        fg < 16,
        bg < 8,
        pixels < 4,
    ensures
        init_result(before.entries@, palette)[lookup_index(
            attr_byte(fg as int, bg as int, false),
            pixels as int,
        )] == mono_pair(palette[fg as int], palette[bg as int], pixels as int),
{
    let i = lookup_index(attr_byte(fg as int, bg as int, false), pixels as int);
    assert(i == fg * 32 + bg * 4 + pixels) by (nonlinear_arith)
        requires
            i == lookup_index(attr_byte(fg as int, bg as int, false), pixels as int),
            fg < 16,
            bg < 8,
            pixels < 4,
    ;
    assert(index_fg(i) == fg && index_bg(i) == bg && i % 4 == pixels) by (nonlinear_arith)
        requires
            i == fg * 32 + bg * 4 + pixels,
            fg < 16,
            bg < 8,
            pixels < 4,
    ;
}

} // verus!
