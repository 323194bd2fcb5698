//! The video state shared by the renderer and the DMA interrupt sequencer:
//! the current mode and its timing, the two scan-line buffers, the colour
//! look-up table and the line counters.

use vstd::prelude::*;
use crate::colour::RGBColour;
use crate::font::Font;
use crate::line_buffer::LineBuffer;
use crate::lookup::{TextColourLookup, init_result};
use crate::mode::{Format, Timing, VideoMode, is_text};
use crate::render::render_scanline;
use crate::text::GlyphAttr;
use crate::timing::TimingBuffer;
use crate::MAX_NUM_PIXEL_PAIRS_PER_LINE;
use crate::MAX_TEXT_CELLS;
use vstd::arithmetic::div_mod::{lemma_mod_multiples_vanish, lemma_mod_self_0, lemma_small_mod};

verus! {

/// Which timing words the timing DMA channel should send next.
#[derive(Copy, Clone, Debug, PartialEq, Eq, Structural)]
pub enum ScanlineKind {
    /// A line with visible pixels.
    Visible,
    /// A line of the vertical front or back porch.
    Porch,
    /// A line of the vertical sync pulse.
    Sync,
}

/// One of the two scan-line buffers.
#[derive(Copy, Clone, Debug, PartialEq, Eq, Structural)]
pub enum PixelBuffer {
    /// The buffer for even scan-lines.
    Even,
    /// The buffer for odd scan-lines.
    Odd,
}

/// What the interrupt handler must start: the next timing transfer, and the
/// next pixel transfer.
#[derive(Copy, Clone, Debug, PartialEq, Eq, Structural)]
pub struct IrqActions {
    pub timing: Option<ScanlineKind>,
    pub pixels: Option<PixelBuffer>,
}

/// The state of the video system.
pub struct Vga {
    /// The current video mode.
    pub mode: VideoMode,
    /// The timing words and frame layout of the current mode.
    pub timing_buffer: TimingBuffer,
    /// How many text columns are visible.
    pub num_text_cols: usize,
    /// How many text rows are visible.
    pub num_text_rows: usize,
    /// The scan-line being timed; runs over the whole frame.
    pub current_timing_line: u16,
    /// The scan-line being played out; runs over the visible lines.
    pub current_playout_line: u16,
    /// How many lines were queued for playout before their rendering was done.
    pub clashed_count: u32,
    /// Clock cycles spent rendering.
    pub render_time: u32,
    /// How many pixel transfers have completed.
    pub total_lines: u32,
    /// The buffer of the even scan-lines.
    pub even: LineBuffer,
    /// The buffer of the odd scan-lines.
    pub odd: LineBuffer,
    /// The text colour look-up table.
    pub text_colour_lookup: TextColourLookup,
}

/// The modes this driver can show: 640x480 or 640x400, in either text
/// format, with neither pixels nor lines doubled.
pub open spec fn mode_supported(mode: VideoMode) -> bool {
    &&& (mode.timing == Timing::T640x480 || mode.timing == Timing::T640x400)
    &&& is_text(mode.format)
    &&& !mode.horiz_2x
    &&& !mode.vert_2x
}

/// The timing buffer (as a value) of a timing standard.
pub open spec fn timing_for(timing: Timing) -> (Seq<u32>, Seq<u32>, Seq<u32>, int, int, int, int) {
    if timing == Timing::T640x400 {
        TimingBuffer::spec_640x400()
    } else {
        TimingBuffer::spec_640x480()
    }
}

/// The timing line after `line`, in a frame whose last line is `last`.
pub open spec fn next_timing_line(line: int, last: int) -> int {
    if line >= last { 0 } else { line + 1 }
}

/// Which part of the frame a timing line is in.
pub open spec fn scanline_kind(line: int, tb: TimingBuffer) -> ScanlineKind {
    if line <= tb.visible_lines_ends_at {
        ScanlineKind::Visible
    } else if line <= tb.front_porch_end_at {
        ScanlineKind::Porch
    } else if line <= tb.sync_pulse_ends_at {
        ScanlineKind::Sync
    } else {
        ScanlineKind::Porch
    }
}

/// The visible line after `line`, when the last visible line is `last`.
pub open spec fn next_visible_line(line: int, last: int) -> int {
    if line < last { line + 1 } else { 0 }
}

/// What `set_video_mode` does: a supported mode is taken, with its timing
/// and text size; any other leaves the state as it was.
pub open spec fn set_video_mode_spec(before: Vga, mode: VideoMode, after: Vga, r: bool) -> bool {
    &&& r == mode_supported(mode)
    &&& r ==> {
        &&& after.mode == mode
        &&& after.timing_buffer.view() == timing_for(mode.timing)
        &&& after.num_text_cols == mode.spec_text_width()->0
        &&& after.num_text_rows == mode.spec_text_height()->0
        &&& after == (Vga {
            mode: after.mode,
            timing_buffer: after.timing_buffer,
            num_text_cols: after.num_text_cols,
            num_text_rows: after.num_text_rows,
            ..before
        })
    }
    &&& !r ==> after == before
}

impl Vga {
    pub open spec fn wf(&self) -> bool {
        &&& mode_supported(self.mode)
        &&& self.timing_buffer.view() == timing_for(self.mode.timing)
        &&& self.num_text_cols == self.mode.spec_text_width()->0
        &&& self.num_text_rows == self.mode.spec_text_height()->0
        &&& self.even.wf()
        &&& self.odd.wf()
        &&& self.text_colour_lookup.wf()
    }

    /// The next timing line, and the timing words to send for it.
    pub fn on_timing_dma_complete(&mut self) -> (kind: ScanlineKind)
        ensures
            final(self).current_timing_line == next_timing_line(
                old(self).current_timing_line as int,
                old(self).timing_buffer.back_porch_ends_at as int,
            ),
            kind == scanline_kind(final(self).current_timing_line as int, old(self).timing_buffer),
            *final(self) == (Vga { current_timing_line: final(self).current_timing_line, ..*old(self) }),
    {
        let old_timing_line = self.current_timing_line;
        let next_timing_line: u16 = if old_timing_line >= self.timing_buffer.back_porch_ends_at {
            0
        } else {
            old_timing_line + 1
        };
        self.current_timing_line = next_timing_line;
        if next_timing_line <= self.timing_buffer.visible_lines_ends_at {
            ScanlineKind::Visible
        } else if next_timing_line <= self.timing_buffer.front_porch_end_at {
            ScanlineKind::Porch
        } else if next_timing_line <= self.timing_buffer.sync_pulse_ends_at {
            ScanlineKind::Sync
        } else {
            ScanlineKind::Porch
        }
    }

    /// A visible line has been sent out: queue the other buffer for playout
    /// (counting a clash if its rendering is not done), and hand the buffer
    /// just played back to the renderer, to draw the line after the next.
    pub fn on_pixel_dma_complete(&mut self) -> (queued: PixelBuffer)
        ensures
            ({
                let last = old(self).current_playout_line as int;
                let end = old(self).timing_buffer.visible_lines_ends_at as int;
                let next = next_visible_line(last, end);
                let draw = next_visible_line(next, end);
                let played_even = last % 2 == 0;
                let queued_buf = if played_even { old(self).odd } else { old(self).even };
                &&& queued == (if played_even { PixelBuffer::Odd } else { PixelBuffer::Even })
                &&& final(self).current_playout_line == next
                &&& final(self).clashed_count == (if queued_buf.ready_for_drawing {
                    old(self).clashed_count.wrapping_add(1)
                } else {
                    old(self).clashed_count
                })
                &&& final(self).total_lines == old(self).total_lines.wrapping_add(1)
                &&& played_even ==> final(self).odd == old(self).odd
                    && final(self).even == (LineBuffer {
                    line_number: draw as u16,
                    ready_for_drawing: true,
                    ..old(self).even
                })
                &&& !played_even ==> final(self).even == old(self).even
                    && final(self).odd == (LineBuffer {
                    line_number: draw as u16,
                    ready_for_drawing: true,
                    ..old(self).odd
                })
                &&& *final(self) == (Vga {
                    current_playout_line: final(self).current_playout_line,
                    clashed_count: final(self).clashed_count,
                    total_lines: final(self).total_lines,
                    even: final(self).even,
                    odd: final(self).odd,
                    ..*old(self)
                })
            }),
    {
        let last_playout_line = self.current_playout_line;
        let visible_end = self.timing_buffer.visible_lines_ends_at;
        let next_playout_line: u16 = if last_playout_line < visible_end {
            last_playout_line + 1
        } else {
            0
        };
        let next_draw_line: u16 = if next_playout_line < visible_end {
            next_playout_line + 1
        } else {
            0
        };
        self.total_lines = self.total_lines.wrapping_add(1);
        let queued = if last_playout_line % 2 == 0 {
            if !self.odd.is_rendering_done() {
                self.clashed_count = self.clashed_count.wrapping_add(1);
            }
            self.even.set_ready(next_draw_line);
            PixelBuffer::Odd
        } else {
            if !self.even.is_rendering_done() {
                self.clashed_count = self.clashed_count.wrapping_add(1);
            }
            self.odd.set_ready(next_draw_line);
            PixelBuffer::Even
        };
        self.current_playout_line = next_playout_line;
        queued
    }

    /// Render into the odd buffer, from the text grid.
    pub fn render_odd(&mut self, grid: &[GlyphAttr], font16: &Font, font8: &Font)
        requires
            old(self).wf(),
            grid@.len() == MAX_TEXT_CELLS,
            font16.wf(),
            font16.height_shift == 4,
            font8.wf(),
            font8.height_shift == 3,
        ensures
            final(self).wf(),
            *final(self) == (Vga { odd: final(self).odd, ..*old(self) }),
            final(self).odd.pixels@ == crate::render::rendered_pixels(
                old(self).odd.pixels@,
                old(self).odd.line_number as int,
                old(self).num_text_rows as int,
                old(self).num_text_cols as int,
                grid@,
                if old(self).mode.format == Format::Text8x16 { *font16 } else { *font8 },
                old(self).text_colour_lookup.entries@,
            ),
            !final(self).odd.ready_for_drawing,
            final(self).odd.line_number == old(self).odd.line_number,
    {
        render_scanline(
            &mut self.odd,
            self.mode.format,
            self.num_text_rows,
            self.num_text_cols,
            grid,
            font16,
            font8,
            &self.text_colour_lookup,
        );
    }

    /// Render into the even buffer, from the text grid.
    pub fn render_even(&mut self, grid: &[GlyphAttr], font16: &Font, font8: &Font)
        requires
            old(self).wf(),
            grid@.len() == MAX_TEXT_CELLS,
            font16.wf(),
            font16.height_shift == 4,
            font8.wf(),
            font8.height_shift == 3,
        ensures
            final(self).wf(),
            *final(self) == (Vga { even: final(self).even, ..*old(self) }),
            final(self).even.pixels@ == crate::render::rendered_pixels(
                old(self).even.pixels@,
                old(self).even.line_number as int,
                old(self).num_text_rows as int,
                old(self).num_text_cols as int,
                grid@,
                if old(self).mode.format == Format::Text8x16 { *font16 } else { *font8 },
                old(self).text_colour_lookup.entries@,
            ),
            !final(self).even.ready_for_drawing,
            final(self).even.line_number == old(self).even.line_number,
    {
        render_scanline(
            &mut self.even,
            self.mode.format,
            self.num_text_rows,
            self.num_text_cols,
            grid,
            font16,
            font8,
            &self.text_colour_lookup,
        );
    }
}

/// Set up the video state: 640x480 with the 8x16 font (80 by 30 cells),
/// the colour look-up table filled from `palette`, and both scan-line
/// buffers marked as rendered, so that playout starts at once (the first
/// frame or two show whatever the buffers hold).
pub fn init(palette: &[RGBColour]) -> (vga: Vga)
    ensures
        vga.wf(),
        vga.mode == VideoMode::new(Timing::T640x480, Format::Text8x16),
        vga.num_text_cols == 80,
        vga.num_text_rows == 30,
        vga.current_timing_line == 0,
        vga.current_playout_line == 0,
        vga.clashed_count == 0,
        vga.render_time == 0,
        vga.total_lines == 0,
        vga.text_colour_lookup.entries@ == init_result(
            Seq::new(512, |i: int| crate::colour::RGBPair(0)),
            palette@,
        ),
        vga.even.length == MAX_NUM_PIXEL_PAIRS_PER_LINE - 1,
        vga.odd.length == MAX_NUM_PIXEL_PAIRS_PER_LINE - 1,
        !vga.even.ready_for_drawing,
        !vga.odd.ready_for_drawing,
        vga.even.line_number == 0,
        vga.odd.line_number == 0,
        forall|i: int| 0 <= i < MAX_NUM_PIXEL_PAIRS_PER_LINE ==> vga.even.pixels@[i] == crate::colour::RGBPair(0),
        forall|i: int| 0 <= i < MAX_NUM_PIXEL_PAIRS_PER_LINE ==> vga.odd.pixels@[i] == crate::colour::RGBPair(0),
{
    let mut text_colour_lookup = TextColourLookup::blank();
    assert(text_colour_lookup.entries@ =~= Seq::new(512, |i: int| crate::colour::RGBPair(0)));
    text_colour_lookup.init(palette);
    let mut even = LineBuffer::new();
    let mut odd = LineBuffer::new();
    // The pixel state machine's loop sends one pair more than this count.
    even.length = (MAX_NUM_PIXEL_PAIRS_PER_LINE as u32) - 1;
    odd.length = (MAX_NUM_PIXEL_PAIRS_PER_LINE as u32) - 1;
    even.mark_rendering_done();
    odd.mark_rendering_done();
    Vga {
        mode: VideoMode::new(Timing::T640x480, Format::Text8x16),
        timing_buffer: TimingBuffer::make_640x480(),
        num_text_cols: 80,
        num_text_rows: 30,
        current_timing_line: 0,
        current_playout_line: 0,
        clashed_count: 0,
        render_time: 0,
        total_lines: 0,
        even,
        odd,
        text_colour_lookup,
    }
}

/// The current video mode.
pub fn get_video_mode(vga: &Vga) -> (mode: VideoMode)
    ensures
        mode == vga.mode,
{
    vga.mode
}

/// Change the video mode. Only the supported modes are taken; the timing
/// and the visible text size follow the mode. Any other mode is refused and
/// changes nothing.
pub fn set_video_mode(vga: &mut Vga, mode: VideoMode) -> (r: bool)
    requires
        old(vga).wf(),
    ensures
        final(vga).wf(),
        set_video_mode_spec(*old(vga), mode, *final(vga), r),
{
    let mode_ok = match (mode.timing(), mode.format(), mode.is_horiz_2x(), mode.is_vert_2x()) {
        (Timing::T640x480, Format::Text8x16, false, false)
        | (Timing::T640x480, Format::Text8x8, false, false) => {
            vga.mode = mode;
            vga.timing_buffer = TimingBuffer::make_640x480();
            true
        },
        (Timing::T640x400, Format::Text8x16, false, false)
        | (Timing::T640x400, Format::Text8x8, false, false) => {
            vga.mode = mode;
            vga.timing_buffer = TimingBuffer::make_640x400();
            true
        },
        _ => false,
    };
    if mode_ok {
        vga.num_text_cols = match mode.text_width() {
            Some(w) => w as usize,
            None => 0,
        };
        vga.num_text_rows = match mode.text_height() {
            Some(h) => h as usize,
            None => 0,
        };
    }
    mode_ok
}

/// The scan-line being played out.
pub fn get_scan_line(vga: &Vga) -> (r: u16)
    ensures
        r == vga.current_playout_line,
{
    vga.current_playout_line
}

/// How many visible scan-lines the current mode has.
pub fn get_num_scan_lines(vga: &Vga) -> (r: u16)
    ensures
        r == vga.mode.spec_vertical_lines(),
{
    let mode = get_video_mode(vga);
    mode.vertical_lines()
}

/// Whether a mode is the one the OS is told to prefer: 640x480 with the
/// 8x16 font.
pub fn video_is_valid_mode(mode: VideoMode) -> (r: bool)
    ensures
        r == (mode == VideoMode::new(Timing::T640x480, Format::Text8x16)),
{
    mode.timing == Timing::T640x480 && mode.format == Format::Text8x16 && !mode.horiz_2x
        && !mode.vert_2x
}

/// Whether playout has reached the line a caller waits for: `line`, or the
/// last visible line if `line` is past it.
pub fn scan_line_reached(vga: &Vga, line: u16) -> (r: bool)
    requires
        vga.wf(),
    ensures
        r == (vga.current_playout_line == if line < vga.mode.spec_vertical_lines() {
            line as int
        } else {
            vga.mode.spec_vertical_lines() - 1
        }),
{
    let num_lines = get_num_scan_lines(vga);
    let desired_line = if line < num_lines {
        line
    } else {
        num_lines - 1
    };
    get_scan_line(vga) == desired_line
}

/// Add one pass of the render loop (an odd and an even line, taking
/// `waited` clock cycles in all) to the render time: it counts the cycles
/// of one line, the mean of the two.
pub fn record_render_time(vga: &mut Vga, waited: u32)
    ensures
        *final(vga) == (Vga { render_time: old(vga).render_time.wrapping_add(waited / 2), ..*old(vga) }),
{
    vga.render_time = vga.render_time.wrapping_add(waited / 2);
}

/// Handle the DMA interrupt: `timing_dma_chan_irq` and `pixel_dma_chan_irq`
/// say which channels have finished a transfer. Returns the transfers to
/// start: the timing words for the next timing line, and the buffer to play
/// out next.
pub fn irq(vga: &mut Vga, timing_dma_chan_irq: bool, pixel_dma_chan_irq: bool) -> (actions: IrqActions)
    ensures
        ({
            let mid = if timing_dma_chan_irq {
                Vga {
                    current_timing_line: next_timing_line(
                        old(vga).current_timing_line as int,
                        old(vga).timing_buffer.back_porch_ends_at as int,
                    ) as u16,
                    ..*old(vga)
                }
            } else {
                *old(vga)
            };
            &&& timing_dma_chan_irq <==> actions.timing is Some
            &&& pixel_dma_chan_irq <==> actions.pixels is Some
            &&& actions.timing matches Some(k) ==> k == scanline_kind(
                mid.current_timing_line as int,
                old(vga).timing_buffer,
            )
            &&& !pixel_dma_chan_irq ==> *final(vga) == mid
            &&& pixel_dma_chan_irq ==> final(vga).current_timing_line == mid.current_timing_line
        }),
        pixel_dma_chan_irq ==> {
            let last = old(vga).current_playout_line as int;
            let end = old(vga).timing_buffer.visible_lines_ends_at as int;
            let played_even = last % 2 == 0;
            let queued_buf = if played_even { old(vga).odd } else { old(vga).even };
            &&& actions.pixels == Some(if played_even { PixelBuffer::Odd } else { PixelBuffer::Even })
            &&& final(vga).current_playout_line == next_visible_line(last, end)
            &&& final(vga).clashed_count == (if queued_buf.ready_for_drawing {
                old(vga).clashed_count.wrapping_add(1)
            } else {
                old(vga).clashed_count
            })
            &&& final(vga).total_lines == old(vga).total_lines.wrapping_add(1)
            &&& played_even ==> final(vga).odd == old(vga).odd && final(vga).even == (LineBuffer {
                line_number: next_visible_line(next_visible_line(last, end), end) as u16,
                ready_for_drawing: true,
                ..old(vga).even
            })
            &&& !played_even ==> final(vga).even == old(vga).even && final(vga).odd == (LineBuffer {
                line_number: next_visible_line(next_visible_line(last, end), end) as u16,
                ready_for_drawing: true,
                ..old(vga).odd
            })
        },
        final(vga).mode == old(vga).mode,
        final(vga).render_time == old(vga).render_time,
        final(vga).timing_buffer == old(vga).timing_buffer,
        final(vga).text_colour_lookup == old(vga).text_colour_lookup,
        final(vga).num_text_cols == old(vga).num_text_cols,
        final(vga).num_text_rows == old(vga).num_text_rows,
        old(vga).wf() ==> final(vga).wf(),
{
    let timing = if timing_dma_chan_irq {
        Some(vga.on_timing_dma_complete())
    } else {
        None
    };
    let pixels = if pixel_dma_chan_irq {
        Some(vga.on_pixel_dma_complete())
    } else {
        None
    };
    IrqActions { timing, pixels }
}

/// Setting a supported mode (640x480 or 640x400, in either text format)
/// succeeds; reading the mode back gives the same mode, and the number of
/// visible scan-lines is that of the timing standard.
pub proof fn lemma_set_then_get_mode(before: Vga, after: Vga, timing: Timing, format: Format, r: bool)
    requires
        timing == Timing::T640x480 || timing == Timing::T640x400,
        format == Format::Text8x16 || format == Format::Text8x8,
        set_video_mode_spec(before, VideoMode::new(timing, format), after, r),
    ensures
        r,
        after.mode == VideoMode::new(timing, format),
        after.mode.spec_vertical_lines() == if timing == Timing::T640x480 { 480int } else { 400int },
{
}

/// Setting the same mode twice leaves the same timing buffer, word for
/// word, after each call; the second call changes nothing at all.
pub proof fn lemma_set_mode_twice(s0: Vga, s1: Vga, s2: Vga, mode: VideoMode, r1: bool, r2: bool)
    requires
        set_video_mode_spec(s0, mode, s1, r1),
        set_video_mode_spec(s1, mode, s2, r2),
    ensures
        s2.timing_buffer == s1.timing_buffer,
        s2 == s1,
{
    broadcast use vstd::array::axiom_array_ext_equal;

    if r1 {
        assert(s2.timing_buffer.visible_line.data =~= s1.timing_buffer.visible_line.data);
        assert(s2.timing_buffer.vblank_porch_buffer.data =~= s1.timing_buffer.vblank_porch_buffer.data);
        assert(s2.timing_buffer.vblank_sync_buffer.data =~= s1.timing_buffer.vblank_sync_buffer.data);
    }
}

/// When a pixel transfer completes, the buffer handed back to the renderer
/// is tagged with the line two ahead of the one just played, wrapping
/// around the visible lines: `(last + 2) mod count`, where `count` is the
/// number of visible lines.
pub proof fn lemma_draw_line_two_ahead(last: int, end: int)
    requires
        0 < end,
        0 <= last <= end,
    ensures
        next_visible_line(next_visible_line(last, end), end) == (last + 2) % (end + 1),
{
    if last + 2 <= end {
        lemma_small_mod((last + 2) as nat, (end + 1) as nat);
    } else if last + 1 == end {
        lemma_mod_self_0(end + 1);
    } else {
        lemma_mod_multiples_vanish(1, 1, end + 1);
        lemma_small_mod(1, (end + 1) as nat);
    }
}

} // verus!
