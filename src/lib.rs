//! Text-mode VGA video generation: colour packing, scan-line timing words,
//! the text colour look-up table, the scan-line renderer, the DMA interrupt
//! sequencer and a small boot-time text console.

pub mod colour;
pub mod text;
pub mod mode;
pub mod timing;
pub mod lookup;
pub mod palette;
pub mod font;
pub mod line_buffer;
pub mod render;
pub mod vga;
pub mod console;
pub mod multicore;

use vstd::prelude::*;

verus! {

/// How many pixels a scan-line holds at most.
pub const MAX_NUM_PIXELS_PER_LINE: usize = 640;

/// How many visible scan-lines a frame holds at most.
pub const MAX_NUM_LINES: usize = 480;

/// How many pixel pairs a scan-line holds at most: half the pixels.
pub const MAX_NUM_PIXEL_PAIRS_PER_LINE: usize = 320;

/// The highest number of columns in any text mode: glyphs are 8 pixels wide.
pub const MAX_TEXT_COLS: usize = 80;

/// The highest number of rows in any text mode: glyphs are at least 8
/// pixels high.
pub const MAX_TEXT_ROWS: usize = 60;

/// How many cells the text grid holds.
pub const MAX_TEXT_CELLS: usize = 4800;

} // verus!
