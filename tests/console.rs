use neotron_pico_bios::console::TextConsole;
use neotron_pico_bios::font::Font;
use neotron_pico_bios::text::{Attr, Glyph, GlyphAttr};

fn blank() -> GlyphAttr {
    GlyphAttr::new(Glyph(b' '), Attr(0))
}

fn console_with_grid() -> TextConsole {
    let mut tc = TextConsole::new();
    tc.set_text_buffer(vec![blank(); 4800]);
    tc
}

fn cell(tc: &TextConsole, row: usize, col: usize, num_cols: usize) -> GlyphAttr {
    tc.text_buffer().unwrap()[row * num_cols + col]
}

#[test]
fn hi_newline_at_top_left() {
    let mut tc = console_with_grid();
    tc.move_to(0, 0, 30, 80);
    tc.write_str("Hi\n", 30, 80);
    let white_on_black = Attr::new(15, 0, false);
    assert_eq!(cell(&tc, 0, 0, 80), GlyphAttr::new(Glyph(b'H'), white_on_black));
    assert_eq!(cell(&tc, 0, 1, 80), GlyphAttr::new(Glyph(b'i'), white_on_black));
    assert_eq!(cell(&tc, 0, 2, 80), blank());
    assert_eq!((tc.current_row, tc.current_col), (1, 0));
}

#[test]
fn text_reads_back_with_current_attribute() {
    let mut tc = console_with_grid();
    tc.move_to(3, 10, 30, 80);
    let attr = Attr::new(14, 1, false);
    tc.set_attribute(attr);
    tc.write_str("Neotron 42!", 30, 80);
    for (i, b) in "Neotron 42!".bytes().enumerate() {
        let c = cell(&tc, 3, 10 + i, 80);
        assert_eq!(c.glyph(), Glyph(b));
        assert_eq!(c.attr(), attr);
        assert_eq!(c.attr().as_u8(), 0x71);
    }
    assert_eq!(cell(&tc, 3, 9, 80), blank());
    assert_eq!(cell(&tc, 3, 21, 80), blank());
    assert_eq!((tc.current_row, tc.current_col), (3, 21));
}

#[test]
fn move_out_of_range_keeps_that_axis() {
    let mut tc = console_with_grid();
    tc.move_to(5, 7, 30, 80);
    tc.move_to(30, 9, 30, 80);
    assert_eq!((tc.current_row, tc.current_col), (5, 9));
    tc.move_to(2, 80, 30, 80);
    assert_eq!((tc.current_row, tc.current_col), (2, 9));
    tc.move_to(200, 200, 30, 80);
    assert_eq!((tc.current_row, tc.current_col), (2, 9));
}

#[test]
fn writing_past_last_column_wraps() {
    let mut tc = console_with_grid();
    tc.move_to(4, 79, 30, 80);
    tc.write_str("ab", 30, 80);
    assert_eq!(cell(&tc, 4, 79, 80).glyph(), Glyph(b'a'));
    assert_eq!(cell(&tc, 5, 0, 80).glyph(), Glyph(b'b'));
    assert_eq!((tc.current_row, tc.current_col), (5, 1));
}

#[test]
fn writing_past_last_row_scrolls_one_row() {
    let mut tc = console_with_grid();
    tc.write_str("top\nsecond", 25, 40);
    tc.move_to(24, 0, 25, 40);
    tc.write_str("last\n", 25, 40);
    // Everything moved up one row; the new last row is blank.
    assert_eq!(cell(&tc, 0, 0, 40).glyph(), Glyph(b's'));
    assert_eq!(cell(&tc, 23, 0, 40).glyph(), Glyph(b'l'));
    for col in 0..40 {
        assert_eq!(cell(&tc, 24, col, 40), blank());
    }
    assert_eq!((tc.current_row, tc.current_col), (24, 0));
}

#[test]
fn carriage_return_resets_column_only() {
    let mut tc = console_with_grid();
    tc.write_str("abc\rX", 30, 80);
    assert_eq!(cell(&tc, 0, 0, 80).glyph(), Glyph(b'X'));
    assert_eq!(cell(&tc, 0, 1, 80).glyph(), Glyph(b'b'));
    assert_eq!((tc.current_row, tc.current_col), (0, 1));
}

#[test]
fn unknown_characters_become_question_marks() {
    let mut tc = console_with_grid();
    tc.write_str("\u{4e2d}\u{e9}\u{2588}", 30, 80);
    assert_eq!(cell(&tc, 0, 0, 80).glyph(), Glyph(b'?'));
    assert_eq!(cell(&tc, 0, 1, 80).glyph(), Glyph(130));
    assert_eq!(cell(&tc, 0, 2, 80).glyph(), Glyph(219));
}

#[test]
fn no_grid_no_change() {
    let mut tc = TextConsole::new();
    tc.write_str("hello", 30, 80);
    assert!(tc.text_buffer().is_none());
    assert_eq!((tc.current_row, tc.current_col), (0, 0));
}

#[test]
fn code_page_850_mapping() {
    assert_eq!(Font::convert_char('A'), Some(Glyph(65)));
    assert_eq!(Font::convert_char('\u{7f}'), Some(Glyph(127)));
    assert_eq!(Font::convert_char('\u{a0}'), Some(Glyph(255)));
    assert_eq!(Font::convert_char('\u{c7}'), Some(Glyph(128)));
    assert_eq!(Font::convert_char('\u{25a0}'), Some(Glyph(254)));
    assert_eq!(Font::convert_char('\u{20ac}'), None);
}

#[test]
fn ascii_only_mapping() {
    assert_eq!(TextConsole::map_char_to_glyph('z'), Some(Glyph(b'z')));
    assert_eq!(TextConsole::map_char_to_glyph('\u{e9}'), None);
}
