use neotron_pico_bios::timing::{ScanlineTimingBuffer, SyncPolarity, TimingBuffer};

#[test]
fn make_timing_packs_fields() {
    // (160 - 6) << 2 = 616, with both sync bits and the no-op instruction.
    assert_eq!(
        ScanlineTimingBuffer::make_timing(160, true, true, false),
        0xa042_0000 | (154 << 2) | 3
    );
    // The IRQ instruction, with neither sync bit.
    assert_eq!(
        ScanlineTimingBuffer::make_timing(6405, false, false, true),
        0xc000_0000 | (6399 << 2)
    );
}

#[test]
fn polarity_levels() {
    assert!(SyncPolarity::Positive.enabled());
    assert!(!SyncPolarity::Positive.disabled());
    assert!(!SyncPolarity::Negative.enabled());
    assert!(SyncPolarity::Negative.disabled());
}

#[test]
fn visible_line_adjusts_back_porch_and_visible() {
    let b = ScanlineTimingBuffer::new_v_visible(
        SyncPolarity::Negative,
        SyncPolarity::Negative,
        (16, 96, 48, 640),
    );
    assert_eq!(b.data[0], ScanlineTimingBuffer::make_timing(160, true, true, false));
    assert_eq!(b.data[1], ScanlineTimingBuffer::make_timing(960, false, true, false));
    assert_eq!(b.data[2], ScanlineTimingBuffer::make_timing(475, true, true, false));
    assert_eq!(b.data[3], ScanlineTimingBuffer::make_timing(6405, true, true, true));
}

#[test]
fn sync_pulse_line_drives_vsync() {
    let b = ScanlineTimingBuffer::new_v_pulse(
        SyncPolarity::Negative,
        SyncPolarity::Positive,
        (16, 96, 48, 640),
    );
    assert_eq!(b.data[0], ScanlineTimingBuffer::make_timing(160, true, true, false));
    assert_eq!(b.data[1], ScanlineTimingBuffer::make_timing(960, false, true, false));
    assert_eq!(b.data[3], ScanlineTimingBuffer::make_timing(6400, true, true, false));
}

#[test]
fn frame_layout_640x480() {
    let t = TimingBuffer::make_640x480();
    assert_eq!(t.visible_lines_ends_at, 479);
    assert_eq!(t.front_porch_end_at, 489);
    assert_eq!(t.sync_pulse_ends_at, 491);
    assert_eq!(t.back_porch_ends_at, 524);
}

#[test]
fn frame_layout_640x400() {
    let t = TimingBuffer::make_640x400();
    assert_eq!(t.visible_lines_ends_at, 399);
    assert_eq!(t.front_porch_end_at, 411);
    assert_eq!(t.sync_pulse_ends_at, 413);
    assert_eq!(t.back_porch_ends_at, 448);
    // V-Sync is active-high here, so it idles low outside the pulse.
    assert_eq!(
        t.vblank_porch_buffer.data[0],
        ScanlineTimingBuffer::make_timing(160, true, false, false)
    );
    assert_eq!(
        t.vblank_sync_buffer.data[0],
        ScanlineTimingBuffer::make_timing(160, true, true, false)
    );
}
