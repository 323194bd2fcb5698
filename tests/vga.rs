use neotron_pico_bios::colour::RGBPair;
use neotron_pico_bios::mode::{Format, Timing, VideoMode};
use neotron_pico_bios::palette::video_palette;
use neotron_pico_bios::timing::TimingBuffer;
use neotron_pico_bios::vga::{
    get_num_scan_lines, get_scan_line, get_video_mode, init, irq, record_render_time,
    scan_line_reached, set_video_mode, video_is_valid_mode, PixelBuffer, ScanlineKind, Vga,
};

fn fresh() -> Vga {
    init(&video_palette())
}

#[test]
fn init_state() {
    let vga = fresh();
    assert_eq!(get_video_mode(&vga), VideoMode::new(Timing::T640x480, Format::Text8x16));
    assert_eq!(get_num_scan_lines(&vga), 480);
    assert_eq!(get_scan_line(&vga), 0);
    assert_eq!(vga.num_text_cols, 80);
    assert_eq!(vga.num_text_rows, 30);
    assert_eq!(vga.even.length, 319);
    assert_eq!(vga.odd.length, 319);
    assert!(vga.even.is_rendering_done());
    assert!(vga.odd.is_rendering_done());
    assert_eq!(vga.timing_buffer, TimingBuffer::make_640x480());
}

#[test]
fn set_then_get_every_supported_mode() {
    for (timing, lines) in [(Timing::T640x480, 480u16), (Timing::T640x400, 400u16)] {
        for (format, height) in [(Format::Text8x16, 16usize), (Format::Text8x8, 8usize)] {
            let mut vga = fresh();
            let mode = VideoMode::new(timing, format);
            assert!(set_video_mode(&mut vga, mode));
            assert_eq!(get_video_mode(&vga), mode);
            assert_eq!(get_num_scan_lines(&vga), lines);
            assert_eq!(vga.num_text_cols, 80);
            assert_eq!(vga.num_text_rows, lines as usize / height);
        }
    }
}

#[test]
fn unsupported_modes_change_nothing() {
    let rejected = [
        VideoMode::new(Timing::T800x600, Format::Text8x16),
        VideoMode::new(Timing::T640x480, Format::Chunky8),
        VideoMode { timing: Timing::T640x480, format: Format::Text8x16, horiz_2x: true, vert_2x: false },
        VideoMode { timing: Timing::T640x400, format: Format::Text8x8, horiz_2x: false, vert_2x: true },
    ];
    for mode in rejected {
        let mut vga = fresh();
        assert!(!set_video_mode(&mut vga, mode));
        assert_eq!(get_video_mode(&vga), VideoMode::new(Timing::T640x480, Format::Text8x16));
        assert_eq!(vga.timing_buffer, TimingBuffer::make_640x480());
        assert_eq!(vga.num_text_rows, 30);
    }
}

#[test]
fn setting_a_mode_twice_gives_the_same_timing() {
    let mut vga = fresh();
    let mode = VideoMode::new(Timing::T640x400, Format::Text8x8);
    assert!(set_video_mode(&mut vga, mode));
    let first = vga.timing_buffer;
    assert!(set_video_mode(&mut vga, mode));
    assert_eq!(vga.timing_buffer, first);
    assert_eq!(first, TimingBuffer::make_640x400());
}

#[test]
fn valid_mode_is_640x480_text8x16() {
    assert!(video_is_valid_mode(VideoMode::new(Timing::T640x480, Format::Text8x16)));
    assert!(!video_is_valid_mode(VideoMode::new(Timing::T640x480, Format::Text8x8)));
    assert!(!video_is_valid_mode(VideoMode::new(Timing::T640x400, Format::Text8x16)));
}

#[test]
fn timing_lines_walk_the_frame() {
    let mut vga = fresh();
    let mut kinds = Vec::new();
    for _ in 0..525 {
        let a = irq(&mut vga, true, false);
        assert_eq!(a.pixels, None);
        kinds.push(a.timing.unwrap());
    }
    // Lines 1..=479 visible, 480..=489 front porch, 490..=491 sync,
    // 492..=524 back porch, then line 0 again.
    assert_eq!(kinds[0], ScanlineKind::Visible);
    assert_eq!(kinds[478], ScanlineKind::Visible);
    assert_eq!(kinds[479], ScanlineKind::Porch);
    assert_eq!(kinds[488], ScanlineKind::Porch);
    assert_eq!(kinds[489], ScanlineKind::Sync);
    assert_eq!(kinds[490], ScanlineKind::Sync);
    assert_eq!(kinds[491], ScanlineKind::Porch);
    assert_eq!(kinds[523], ScanlineKind::Porch);
    assert_eq!(vga.current_timing_line, 0);
    assert_eq!(kinds[524], ScanlineKind::Visible);
}

#[test]
fn pixel_irq_alternates_buffers_and_tags_lines() {
    let mut vga = fresh();
    let a = irq(&mut vga, false, true);
    assert_eq!(a.timing, None);
    // Line 0 was played from the even buffer: queue the odd one, and hand
    // the even one back to draw line 2.
    assert_eq!(a.pixels, Some(PixelBuffer::Odd));
    assert_eq!(get_scan_line(&vga), 1);
    assert!(vga.even.is_ready_for_rendering());
    assert_eq!(vga.even.line_number, 2);
    assert!(vga.odd.is_rendering_done());
    vga.even.mark_rendering_done();
    let a = irq(&mut vga, false, true);
    assert_eq!(a.pixels, Some(PixelBuffer::Even));
    assert_eq!(vga.odd.line_number, 3);
    assert_eq!(vga.clashed_count, 0);
}

#[test]
fn draw_line_wraps_at_the_last_visible_line() {
    let mut vga = fresh();
    for n in 0..480u32 {
        let last = get_scan_line(&vga);
        assert_eq!(last as u32, n);
        irq(&mut vga, false, true);
        let buf = if last % 2 == 0 { &vga.even } else { &vga.odd };
        assert_eq!(buf.line_number as u32, (n + 2) % 480);
        vga.even.mark_rendering_done();
        vga.odd.mark_rendering_done();
    }
    assert_eq!(get_scan_line(&vga), 0);
    assert_eq!(vga.clashed_count, 0);
    assert_eq!(vga.total_lines, 480);
}

#[test]
fn clash_counted_once_per_late_buffer() {
    let mut vga = fresh();
    // Playing line 0 hands the even buffer to the renderer.
    irq(&mut vga, false, true);
    for p in vga.even.pixels.iter_mut() {
        *p = RGBPair(0x0123_4567);
    }
    // The renderer has not finished when line 1 ends: the even buffer is
    // queued anyway, with what it holds, and one clash is counted.
    let before = vga.even.pixels.clone();
    let a = irq(&mut vga, false, true);
    assert_eq!(a.pixels, Some(PixelBuffer::Even));
    assert_eq!(vga.clashed_count, 1);
    assert_eq!(vga.even.pixels, before);
    // And again on the next late buffer.
    irq(&mut vga, false, true);
    assert_eq!(vga.clashed_count, 2);
}

#[test]
fn wait_target_is_capped_at_last_visible_line() {
    let mut vga = fresh();
    assert!(scan_line_reached(&vga, 0));
    assert!(!scan_line_reached(&vga, 1));
    for _ in 0..479 {
        irq(&mut vga, false, true);
        vga.even.mark_rendering_done();
        vga.odd.mark_rendering_done();
    }
    assert_eq!(get_scan_line(&vga), 479);
    assert!(scan_line_reached(&vga, 479));
    assert!(scan_line_reached(&vga, 1000));
    assert!(!scan_line_reached(&vga, 478));
}

#[test]
fn render_time_adds_half_the_pass() {
    let mut vga = fresh();
    record_render_time(&mut vga, 4000);
    record_render_time(&mut vga, 3001);
    assert_eq!(vga.render_time, 3500);
}

#[test]
fn render_into_both_buffers() {
    let f16: Vec<u8> = vec![0xff; 4096];
    let f8: Vec<u8> = vec![0xff; 2048];
    let font16 = neotron_pico_bios::font::Font { height_shift: 4, data: &f16 };
    let font8 = neotron_pico_bios::font::Font { height_shift: 3, data: &f8 };
    let grid = vec![
        neotron_pico_bios::text::GlyphAttr::new(
            neotron_pico_bios::text::Glyph(1),
            neotron_pico_bios::text::Attr::new(15, 0, false)
        );
        4800
    ];
    let mut vga = fresh();
    irq(&mut vga, false, true);
    vga.render_even(&grid, &font16, &font8);
    let white = video_palette()[15];
    assert!(vga.even.is_rendering_done());
    assert_eq!(vga.even.pixels[0], RGBPair::new(white, white));
    vga.odd.set_ready(3);
    vga.render_odd(&grid, &font16, &font8);
    assert_eq!(vga.odd.pixels[319], RGBPair::new(white, white));
}
