//! Scan-line timing words for the timing state machine.
//!
//! The timing state machine takes one 32-bit word per portion of a scan-line
//! (front porch, sync pulse, back porch, visible period). Bits 0 and 1 set the
//! H-Sync and V-Sync pins, bits 2..15 hold the length of the period less six
//! clocks, and the upper half word is an instruction executed at the start of
//! the period (a no-op, or one that raises the pixel state machine's IRQ).

use vstd::prelude::*;

verus! {

/// The polarity of a sync pulse.
#[derive(Copy, Clone, Debug, PartialEq, Eq, Structural)]
pub enum SyncPolarity {
    /// An active-high pulse.
    Positive,
    /// An active-low pulse.
    Negative,
}

/// The four timing words of one scan-line.
#[derive(Copy, Clone, Debug, PartialEq, Eq)]
pub struct ScanlineTimingBuffer {
    pub data: [u32; 4],
}

/// The timing words for each part of the frame, and the last scan-line of
/// each part.
#[derive(Copy, Clone, Debug, PartialEq, Eq)]
pub struct TimingBuffer {
    /// Used on lines with visible pixels.
    pub visible_line: ScanlineTimingBuffer,
    /// Used in the vertical front porch and back porch.
    pub vblank_porch_buffer: ScanlineTimingBuffer,
    /// Used in the vertical sync pulse.
    pub vblank_sync_buffer: ScanlineTimingBuffer,
    /// The last visible scan-line.
    pub visible_lines_ends_at: u16,
    /// The last scan-line of the front porch.
    pub front_porch_end_at: u16,
    /// The last scan-line of the sync pulse.
    pub sync_pulse_ends_at: u16,
    /// The last scan-line of the back porch, and of the frame.
    pub back_porch_ends_at: u16,
}

/// Instruction run at the start of a period: raise IRQ 0.
pub const IRQ_INSTRUCTION: u32 = 0xc000;

/// Instruction run at the start of a period: a no-op (move Y into Y).
pub const NOP_INSTRUCTION: u32 = 0xa042;

/// The horizontal timings (front porch, sync, back porch, visible) of both
/// supported standards, in pixel clocks.
pub open spec fn vga_h_timings() -> (u32, u32, u32, u32) {
    (16, 96, 48, 640)
}

/// Whether a period, in system clocks, can be encoded in a timing word.
pub open spec fn period_fits(period: int) -> bool {
    6 <= period < 6 + 0x4000
}

/// The timing word for one period.
pub open spec fn timing_word(period: int, hsync: bool, vsync: bool, raise_irq: bool) -> int {
    (if raise_irq { IRQ_INSTRUCTION as int } else { NOP_INSTRUCTION as int }) * 0x1_0000 + (period
        - 6) * 4 + (if vsync { 2int } else { 0int }) + (if hsync { 1int } else { 0int })
}

impl SyncPolarity {
    /// The pin level while the pulse is active.
    pub open spec fn spec_enabled(self) -> bool {
        self == SyncPolarity::Positive
    }

    /// The pin level while the pulse is active.
    pub fn enabled(&self) -> (r: bool)
        ensures
            r == self.spec_enabled(),
    {
        match self {
            SyncPolarity::Positive => true,
            SyncPolarity::Negative => false,
        }
    }

    /// The pin level while the pulse is not active.
    pub fn disabled(&self) -> (r: bool)
        ensures
            r == !self.spec_enabled(),
    {
        match self {
            SyncPolarity::Positive => false,
            SyncPolarity::Negative => true,
        }
    }
}

/// The words of a line in the visible part of the frame. The back porch is
/// five clocks shorter and the visible period five clocks longer than the
/// standard, to make up for interrupt and state machine start latency.
pub open spec fn visible_words(hsync: SyncPolarity, vsync: SyncPolarity, t: (u32, u32, u32, u32)) -> Seq<u32> {
    seq![
        timing_word(t.0 * 10, !hsync.spec_enabled(), !vsync.spec_enabled(), false) as u32,
        timing_word(t.1 * 10, hsync.spec_enabled(), !vsync.spec_enabled(), false) as u32,
        timing_word(t.2 * 10 - 5, !hsync.spec_enabled(), !vsync.spec_enabled(), false) as u32,
        timing_word(t.3 * 10 + 5, !hsync.spec_enabled(), !vsync.spec_enabled(), true) as u32,
    ]
}

/// The words of a line in the vertical front or back porch.
pub open spec fn porch_words(hsync: SyncPolarity, vsync: SyncPolarity, t: (u32, u32, u32, u32)) -> Seq<u32> {
    seq![
        timing_word(t.0 * 10, !hsync.spec_enabled(), !vsync.spec_enabled(), false) as u32,
        timing_word(t.1 * 10, hsync.spec_enabled(), !vsync.spec_enabled(), false) as u32,
        timing_word(t.2 * 10, !hsync.spec_enabled(), !vsync.spec_enabled(), false) as u32,
        timing_word(t.3 * 10, !hsync.spec_enabled(), !vsync.spec_enabled(), false) as u32,
    ]
}

/// The words of a line in the vertical sync pulse.
pub open spec fn pulse_words(hsync: SyncPolarity, vsync: SyncPolarity, t: (u32, u32, u32, u32)) -> Seq<u32> {
    seq![
        timing_word(t.0 * 10, !hsync.spec_enabled(), vsync.spec_enabled(), false) as u32,
        timing_word(t.1 * 10, hsync.spec_enabled(), vsync.spec_enabled(), false) as u32,
        timing_word(t.2 * 10, !hsync.spec_enabled(), vsync.spec_enabled(), false) as u32,
        timing_word(t.3 * 10, !hsync.spec_enabled(), vsync.spec_enabled(), false) as u32,
    ]
}

/// Whether the four periods of a scan-line (and the latency adjustment of
/// the visible line) can be encoded.
pub open spec fn timings_fit(t: (u32, u32, u32, u32)) -> bool {
    &&& period_fits(t.0 * 10)
    &&& period_fits(t.1 * 10)
    &&& period_fits(t.2 * 10 - 5)
    &&& period_fits(t.2 * 10)
    &&& period_fits(t.3 * 10 + 5)
    &&& period_fits(t.3 * 10)
}

impl ScanlineTimingBuffer {
    /// The timing words of a line in the visible part of the frame.
    ///
    /// The timings are front porch, sync, back porch and visible, in pixel
    /// clocks; a pixel clock is ten system clocks.
    pub fn new_v_visible(hsync: SyncPolarity, vsync: SyncPolarity, timings: (u32, u32, u32, u32)) -> (r: ScanlineTimingBuffer)
        requires
            timings_fit(timings),
        ensures
            r.data@ == visible_words(hsync, vsync, timings),
    {
        let r = ScanlineTimingBuffer {
            data: [
                Self::make_timing(timings.0 * 10, hsync.disabled(), vsync.disabled(), false),
                Self::make_timing(timings.1 * 10, hsync.enabled(), vsync.disabled(), false),
                Self::make_timing((timings.2 * 10) - 5, hsync.disabled(), vsync.disabled(), false),
                Self::make_timing((timings.3 * 10) + 5, hsync.disabled(), vsync.disabled(), true),
            ],
        };
        assert(r.data@ =~= visible_words(hsync, vsync, timings));
        r
    }

    /// The timing words of a line in the vertical front or back porch.
    pub fn new_v_porch(hsync: SyncPolarity, vsync: SyncPolarity, timings: (u32, u32, u32, u32)) -> (r: ScanlineTimingBuffer)
        requires
            timings_fit(timings),
        ensures
            r.data@ == porch_words(hsync, vsync, timings),
    {
        let r = ScanlineTimingBuffer {
            data: [
                Self::make_timing(timings.0 * 10, hsync.disabled(), vsync.disabled(), false),
                Self::make_timing(timings.1 * 10, hsync.enabled(), vsync.disabled(), false),
                Self::make_timing(timings.2 * 10, hsync.disabled(), vsync.disabled(), false),
                Self::make_timing(timings.3 * 10, hsync.disabled(), vsync.disabled(), false),
            ],
        };
        assert(r.data@ =~= porch_words(hsync, vsync, timings));
        r
    }

    /// The timing words of a line in the vertical sync pulse.
    pub fn new_v_pulse(hsync: SyncPolarity, vsync: SyncPolarity, timings: (u32, u32, u32, u32)) -> (r: ScanlineTimingBuffer)
        requires
            timings_fit(timings),
        ensures
            r.data@ == pulse_words(hsync, vsync, timings),
    {
        let r = ScanlineTimingBuffer {
            data: [
                Self::make_timing(timings.0 * 10, hsync.disabled(), vsync.enabled(), false),
                Self::make_timing(timings.1 * 10, hsync.enabled(), vsync.enabled(), false),
                Self::make_timing(timings.2 * 10, hsync.disabled(), vsync.enabled(), false),
                Self::make_timing(timings.3 * 10, hsync.disabled(), vsync.enabled(), false),
            ],
        };
        assert(r.data@ =~= pulse_words(hsync, vsync, timings));
        r
    }

    /// The timing word for one period.
    ///
    /// * `period` - the length of the period, in system clocks
    /// * `hsync` - the level of the H-Sync pin during the period
    /// * `vsync` - the level of the V-Sync pin during the period
    /// * `raise_irq` - whether the pixel state machine's IRQ is raised at
    ///   the start of the period
    pub fn make_timing(period: u32, hsync: bool, vsync: bool, raise_irq: bool) -> (r: u32)
        requires
            period_fits(period as int),
        ensures
            r == timing_word(period as int, hsync, vsync, raise_irq),
    {
        let command: u32 = if raise_irq {
            IRQ_INSTRUCTION
        } else {
            NOP_INSTRUCTION
        };
        let h: u32 = if hsync { 1 } else { 0 };
        let v: u32 = if vsync { 2 } else { 0 };
        let p: u32 = period - 6;
        let value = h | v | (p << 2) | (command << 16);
        assert(value == h + v + p * 4 + command * 0x1_0000) by (bit_vector)
            requires
                h < 2,
                v == 0 || v == 2,
                p < 0x4000,
                command < 0x1_0000,
                value == h | v | (p << 2) | (command << 16),
        ;
        value
    }
}

impl TimingBuffer {
    /// The timing of the 640x400 at 70 Hz standard: 400 visible lines, a
    /// front porch of 12 lines, a sync pulse of 2 and a back porch of 35.
    pub open spec fn spec_640x400() -> (Seq<u32>, Seq<u32>, Seq<u32>, int, int, int, int) {
        let h = SyncPolarity::Negative;
        let v = SyncPolarity::Positive;
        (
            visible_words(h, v, vga_h_timings()),
            porch_words(h, v, vga_h_timings()),
            pulse_words(h, v, vga_h_timings()),
            399int,
            411int,
            413int,
            448int,
        )
    }

    /// The timing of the 640x480 at 60 Hz standard: 480 visible lines, a
    /// front porch of 10 lines, a sync pulse of 2 and a back porch of 33.
    pub open spec fn spec_640x480() -> (Seq<u32>, Seq<u32>, Seq<u32>, int, int, int, int) {
        let h = SyncPolarity::Negative;
        let v = SyncPolarity::Negative;
        (
            visible_words(h, v, vga_h_timings()),
            porch_words(h, v, vga_h_timings()),
            pulse_words(h, v, vga_h_timings()),
            479int,
            489int,
            491int,
            524int,
        )
    }

    /// Everything the buffer holds, as mathematical values.
    pub open spec fn view(self) -> (Seq<u32>, Seq<u32>, Seq<u32>, int, int, int, int) {
        (
            self.visible_line.data@,
            self.vblank_porch_buffer.data@,
            self.vblank_sync_buffer.data@,
            self.visible_lines_ends_at as int,
            self.front_porch_end_at as int,
            self.sync_pulse_ends_at as int,
            self.back_porch_ends_at as int,
        )
    }

    /// Make a timing buffer for 640x400 at 70 Hz.
    pub fn make_640x400() -> (r: TimingBuffer)
        ensures
            r.view() == Self::spec_640x400(),
    {
        let h = SyncPolarity::Negative;
        let v = SyncPolarity::Positive;
        let t: (u32, u32, u32, u32) = (16, 96, 48, 640);
        TimingBuffer {
            visible_line: ScanlineTimingBuffer::new_v_visible(h, v, t),
            vblank_porch_buffer: ScanlineTimingBuffer::new_v_porch(h, v, t),
            vblank_sync_buffer: ScanlineTimingBuffer::new_v_pulse(h, v, t),
            visible_lines_ends_at: 399,
            front_porch_end_at: 399 + 12,
            sync_pulse_ends_at: 399 + 12 + 2,
            back_porch_ends_at: 399 + 12 + 2 + 35,
        }
    }

    /// Make a timing buffer for 640x480 at 60 Hz.
    pub fn make_640x480() -> (r: TimingBuffer)
        ensures
            r.view() == Self::spec_640x480(),
    {
        let h = SyncPolarity::Negative;
        let v = SyncPolarity::Negative;
        let t: (u32, u32, u32, u32) = (16, 96, 48, 640);
        TimingBuffer {
            visible_line: ScanlineTimingBuffer::new_v_visible(h, v, t),
            vblank_porch_buffer: ScanlineTimingBuffer::new_v_porch(h, v, t),
            vblank_sync_buffer: ScanlineTimingBuffer::new_v_pulse(h, v, t),
            visible_lines_ends_at: 479,
            front_porch_end_at: 479 + 10,
            sync_pulse_ends_at: 479 + 10 + 2,
            back_porch_ends_at: 479 + 10 + 2 + 33,
        }
    }
}

} // verus!
