//! Video modes: a timing standard, a memory format and two doubling flags.

use vstd::prelude::*;

verus! {

/// The timing of the video signal.
#[derive(Copy, Clone, Debug, PartialEq, Eq, Structural)]
pub enum Timing {
    /// VGA 640x480 at 60 Hz.
    T640x480,
    /// VGA 640x400 at 70 Hz.
    T640x400,
    /// VESA 800x600 at 60 Hz.
    T800x600,
}

/// The format of video memory.
#[derive(Copy, Clone, Debug, PartialEq, Eq, Structural)]
pub enum Format {
    /// Text with an 8x16 font.
    Text8x16,
    /// Text with an 8x8 font.
    Text8x8,
    /// 32-bit true-colour pixels.
    Chunky32,
    /// 16-bit high-colour pixels.
    Chunky16,
    /// 8-bit indexed pixels.
    Chunky8,
    /// 4-bit indexed pixels.
    Chunky4,
    /// 2-bit indexed pixels.
    Chunky2,
    /// 1-bit pixels.
    Chunky1,
}

/// A video mode.
#[derive(Copy, Clone, Debug, PartialEq, Eq, Structural)]
pub struct VideoMode {
    pub timing: Timing,
    pub format: Format,
    /// Pixels are twice as wide as nominal.
    pub horiz_2x: bool,
    /// Lines are twice as tall as nominal.
    pub vert_2x: bool,
}

/// Whether a format is one of the two text formats.
pub open spec fn is_text(format: Format) -> bool {
    format == Format::Text8x16 || format == Format::Text8x8
}

impl VideoMode {
    pub open spec fn spec_horizontal_pixels(self) -> int {
        let full: int = match self.timing {
            Timing::T800x600 => 800,
            _ => 640,
        };
        if self.horiz_2x { full / 2 } else { full }
    }

    pub open spec fn spec_vertical_lines(self) -> int {
        let full: int = match self.timing {
            Timing::T640x480 => 480,
            Timing::T640x400 => 400,
            Timing::T800x600 => 600,
        };
        if self.vert_2x { full / 2 } else { full }
    }

    pub open spec fn spec_text_width(self) -> Option<int> {
        if is_text(self.format) {
            Some(self.spec_horizontal_pixels() / 8)
        } else {
            None
        }
    }

    pub open spec fn spec_text_height(self) -> Option<int> {
        match self.format {
            Format::Text8x8 => Some(self.spec_vertical_lines() / 8),
            Format::Text8x16 => Some(self.spec_vertical_lines() / 16),
            _ => None,
        }
    }

    pub open spec fn spec_new(timing: Timing, format: Format) -> VideoMode {
        VideoMode { timing, format, horiz_2x: false, vert_2x: false }
    }

    /// Make a mode of nominal width and height.
    #[verifier::when_used_as_spec(spec_new)]
    pub fn new(timing: Timing, format: Format) -> (m: VideoMode)
        ensures
            m == Self::spec_new(timing, format),
    {
        VideoMode { timing, format, horiz_2x: false, vert_2x: false }
    }

    /// The timing standard of this mode.
    pub fn timing(self) -> (t: Timing)
        ensures
            t == self.timing,
    {
        self.timing
    }

    /// The memory format of this mode.
    pub fn format(self) -> (f: Format)
        ensures
            f == self.format,
    {
        self.format
    }

    /// Whether lines are doubled in height.
    pub fn is_vert_2x(self) -> (r: bool)
        ensures
            r == self.vert_2x,
    {
        self.vert_2x
    }

    /// Whether pixels are doubled in width.
    pub fn is_horiz_2x(self) -> (r: bool)
        ensures
            r == self.horiz_2x,
    {
        self.horiz_2x
    }

    /// How many visible pixels a line holds.
    pub fn horizontal_pixels(self) -> (r: u16)
        ensures
            r == self.spec_horizontal_pixels(),
    {
        let full: u16 = match self.timing {
            Timing::T800x600 => 800,
            _ => 640,
        };
        if self.horiz_2x {
            full / 2
        } else {
            full
        }
    }

    /// How many visible lines a frame holds.
    pub fn vertical_lines(self) -> (r: u16)
        ensures
            r == self.spec_vertical_lines(),
    {
        let full: u16 = match self.timing {
            Timing::T640x480 => 480,
            Timing::T640x400 => 400,
            Timing::T800x600 => 600,
        };
        if self.vert_2x {
            full / 2
        } else {
            full
        }
    }

    /// How many glyph+attribute cells a text row holds, in a text format.
    pub fn text_width(self) -> (r: Option<u16>)
        ensures
            r matches Some(w) ==> self.spec_text_width() == Some(w as int),
            r is None <==> self.spec_text_width() is None,
    {
        match self.format {
            Format::Text8x8 | Format::Text8x16 => Some(self.horizontal_pixels() / 8),
            _ => None,
        }
    }

    /// How many text rows a screen holds, in a text format.
    pub fn text_height(self) -> (r: Option<u16>)
        ensures
            r matches Some(h) ==> self.spec_text_height() == Some(h as int),
            r is None <==> self.spec_text_height() is None,
    {
        match self.format {
            Format::Text8x8 => Some(self.vertical_lines() / 8),
            Format::Text8x16 => Some(self.vertical_lines() / 16),
            _ => None,
        }
    }
}

} // verus!
