//! Scan-line buffers, handed between the renderer and the pixel output.

use vstd::prelude::*;
use crate::colour::RGBPair;
use crate::MAX_NUM_PIXEL_PAIRS_PER_LINE;

verus! {

/// One scan-line of pixels, with the length word that the pixel state
/// machine reads first.
///
/// While `ready_for_drawing` is set the renderer owns the pixels; once it is
/// cleared they belong to the pixel output until the sequencer sets it again
/// with a new line number.
pub struct LineBuffer {
    /// One less than the number of pixel pairs sent out.
    pub length: u32,
    /// The pixels, in pairs.
    pub pixels: Vec<RGBPair>,
    /// Set when the renderer may fill this buffer.
    pub ready_for_drawing: bool,
    /// The scan-line the renderer should draw here.
    pub line_number: u16,
}

impl LineBuffer {
    pub open spec fn wf(&self) -> bool {
        self.pixels@.len() == MAX_NUM_PIXEL_PAIRS_PER_LINE
    }

    /// An empty buffer: all pixels black, length zero, owned by the output.
    pub fn new() -> (r: LineBuffer)
        ensures
            r.wf(),
            r.length == 0,
            forall|i: int| 0 <= i < MAX_NUM_PIXEL_PAIRS_PER_LINE ==> r.pixels@[i] == RGBPair(0),
            !r.ready_for_drawing,
            r.line_number == 0,
    {
        let mut pixels: Vec<RGBPair> = Vec::new();
        let mut i: usize = 0;
        while i < MAX_NUM_PIXEL_PAIRS_PER_LINE
            invariant
                i <= MAX_NUM_PIXEL_PAIRS_PER_LINE,
                pixels@.len() == i,
                forall|j: int| 0 <= j < i ==> pixels@[j] == RGBPair(0),
            decreases MAX_NUM_PIXEL_PAIRS_PER_LINE - i,
        {
            pixels.push(RGBPair(0));
            i = i + 1;
        }
        LineBuffer { length: 0, pixels, ready_for_drawing: false, line_number: 0 }
    }

    /// Hand the buffer to the renderer, to draw `line_number`.
    pub fn set_ready(&mut self, line_number: u16)
        ensures
            *final(self) == (LineBuffer { line_number, ready_for_drawing: true, ..*old(self) }),
    {
        self.line_number = line_number;
        self.ready_for_drawing = true;
    }

    /// Hand the rendered buffer to the pixel output.
    pub fn mark_rendering_done(&mut self)
        ensures
            *final(self) == (LineBuffer { ready_for_drawing: false, ..*old(self) }),
    {
        self.ready_for_drawing = false;
    }

    /// Whether the renderer may fill this buffer.
    pub fn is_ready_for_rendering(&self) -> (r: bool)
        ensures
            r == self.ready_for_drawing,
    {
        self.ready_for_drawing
    }

    /// Whether the renderer has finished with this buffer.
    pub fn is_rendering_done(&self) -> (r: bool)
        ensures
            r == !self.ready_for_drawing,
    {
        !self.is_ready_for_rendering()
    }
}

} // verus!
