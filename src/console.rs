//! A minimal text console for boot-time messages.
//!
//! It writes glyph+attribute cells into a text grid laid out as rows of the
//! visible number of columns. There is no escape-sequence handling: a new
//! line moves to the start of the next row, a carriage return to the start
//! of the current row, and every other character becomes one cell.

use vstd::prelude::*;
use crate::font::{Font, cp850_glyph};
use crate::text::{Attr, BG_BLACK, FG_WHITE, Glyph, GlyphAttr, attr_byte, cell_value};
use crate::{MAX_TEXT_CELLS, MAX_TEXT_COLS, MAX_TEXT_ROWS};

verus! {

/// The glyph shown for characters the font does not have.
pub const REPLACEMENT_GLYPH: u8 = 63;

/// The glyph of a space.
pub const SPACE_GLYPH: u8 = 32;

/// A cursor, an attribute for new text, and the grid written to.
pub struct TextConsole {
    pub current_col: u8,
    pub current_row: u8,
    pub text_buffer: Option<Vec<GlyphAttr>>,
    pub attr: Attr,
}

/// The cursor and the cells of a console, as values.
pub struct ConsoleState {
    pub row: int,
    pub col: int,
    pub cells: Seq<GlyphAttr>,
}

/// The cell a character becomes: its Code Page 850 glyph, or `?`.
pub open spec fn char_cell(ch: char, attr: Attr) -> GlyphAttr {
    let glyph = match cp850_glyph(ch) {
        Some(g) => g,
        None => Glyph(REPLACEMENT_GLYPH),
    };
    GlyphAttr(cell_value(glyph, attr) as u16)
}

/// The cell that a scrolled-in row is blanked with: a space, black on black.
pub open spec fn blank_cell() -> GlyphAttr {
    GlyphAttr(cell_value(Glyph(SPACE_GLYPH), Attr(0)) as u16)
}

/// The cells after scrolling a screen of `num_rows` by `num_cols` cells up
/// by one row: each row takes the contents of the row below, and the last
/// row is blanked. Cells past the screen are kept.
pub open spec fn scrolled(cells: Seq<GlyphAttr>, num_rows: int, num_cols: int) -> Seq<GlyphAttr> {
    Seq::new(
        cells.len(),
        |i: int|
            if i < num_cols * (num_rows - 1) {
                cells[i + num_cols]
            } else if i < num_cols * num_rows {
                blank_cell()
            } else {
                cells[i]
            },
    )
}

/// The state after writing one character.
pub open spec fn put_char(st: ConsoleState, ch: char, attr: Attr, num_rows: int, num_cols: int) -> ConsoleState {
    let st1 = if ch == '\n' {
        ConsoleState { row: st.row + 1, col: 0, cells: st.cells }
    } else if ch == '\r' {
        ConsoleState { row: st.row, col: 0, cells: st.cells }
    } else {
        ConsoleState {
            row: st.row,
            col: st.col + 1,
            cells: st.cells.update(st.col + num_cols * st.row, char_cell(ch, attr)),
        }
    };
    let st2 = if st1.col == num_cols {
        ConsoleState { row: st1.row + 1, col: 0, cells: st1.cells }
    } else {
        st1
    };
    if st2.row == num_rows {
        ConsoleState { row: num_rows - 1, col: st2.col, cells: scrolled(st2.cells, num_rows, num_cols) }
    } else {
        st2
    }
}

/// The state after writing a sequence of characters, one after another.
pub open spec fn put_chars(st: ConsoleState, chars: Seq<char>, attr: Attr, num_rows: int, num_cols: int) -> ConsoleState
    decreases chars.len(),
{
    if chars.len() == 0 {
        st
    } else {
        put_char(put_chars(st, chars.drop_last(), attr, num_rows, num_cols), chars.last(), attr, num_rows, num_cols)
    }
}

/// Whether a screen size fits the grid, and a cursor is on the screen.
pub open spec fn cursor_ok(row: int, col: int, num_rows: int, num_cols: int) -> bool {
    &&& 0 < num_rows <= MAX_TEXT_ROWS
    &&& 0 < num_cols <= MAX_TEXT_COLS
    &&& 0 <= row < num_rows
    &&& 0 <= col < num_cols
}

impl TextConsole {
    /// The cursor and the cells, as values.
    pub open spec fn state(&self) -> ConsoleState {
        ConsoleState {
            row: self.current_row as int,
            col: self.current_col as int,
            cells: match self.text_buffer {
                Some(b) => b@,
                None => Seq::empty(),
            },
        }
    }

    /// The grid, if there is one, holds a cell for every position of the
    /// largest screen.
    pub open spec fn wf(&self) -> bool {
        self.text_buffer matches Some(b) ==> b@.len() == MAX_TEXT_CELLS
    }

    /// A console with no grid, the cursor at the top left, writing white on
    /// black.
    pub fn new() -> (c: TextConsole)
        ensures
            c.wf(),
            c.current_row == 0,
            c.current_col == 0,
            c.text_buffer is None,
            c.attr.0 == attr_byte(FG_WHITE as int, BG_BLACK as int, false),
    {
        TextConsole {
            current_row: 0,
            current_col: 0,
            text_buffer: None,
            attr: Attr::new(FG_WHITE, BG_BLACK, false),
        }
    }

    /// Write to `text_buffer` from now on. The cursor is not moved and the
    /// grid is not cleared.
    pub fn set_text_buffer(&mut self, text_buffer: Vec<GlyphAttr>)
        requires
            text_buffer@.len() == MAX_TEXT_CELLS,
        ensures
            *final(self) == (TextConsole { text_buffer: Some(text_buffer), ..*old(self) }),
            final(self).wf(),
    {
        self.text_buffer = Some(text_buffer);
    }

    /// The grid written to, if any.
    pub fn text_buffer(&self) -> (r: Option<&Vec<GlyphAttr>>)
        ensures
            r is Some <==> self.text_buffer is Some,
            r is Some ==> *r->0 == self.text_buffer->0,
    {
        self.text_buffer.as_ref()
    }

    /// Set the attribute of text written from now on.
    pub fn set_attribute(&mut self, attr: Attr)
        ensures
            *final(self) == (TextConsole { attr, ..*old(self) }),
    {
        self.attr = attr;
    }

    /// Move the cursor to `row` and `col` of a screen of `num_rows` by
    /// `num_cols` cells. Where a value is off the screen, the cursor does
    /// not move on that axis.
    pub fn move_to(&mut self, row: u8, col: u8, num_rows: usize, num_cols: usize)
        ensures
            final(self).current_row == if (row as int) < num_rows { row } else { old(self).current_row },
            final(self).current_col == if (col as int) < num_cols { col } else { old(self).current_col },
            final(self).text_buffer == old(self).text_buffer,
            final(self).attr == old(self).attr,
    {
        if (row as usize) < num_rows {
            self.current_row = row;
        }
        if (col as usize) < num_cols {
            self.current_col = col;
        }
    }

    /// Write `s` at the cursor, on a screen of `num_rows` by `num_cols`
    /// cells, and leave the cursor after it. Text that reaches the end of a
    /// row goes on at the start of the next; text that goes past the last
    /// row scrolls the screen up. Without a grid nothing happens.
    pub fn write_str(&mut self, s: &str, num_rows: usize, num_cols: usize)
        requires
            old(self).wf(),
            cursor_ok(old(self).current_row as int, old(self).current_col as int, num_rows as int, num_cols as int),
        ensures
            final(self).wf(),
            final(self).attr == old(self).attr,
            final(self).text_buffer is Some <==> old(self).text_buffer is Some,
            old(self).text_buffer is None ==> *final(self) == *old(self),
            old(self).text_buffer is Some ==> final(self).state() == put_chars(
                old(self).state(),
                s@,
                old(self).attr,
                num_rows as int,
                num_cols as int,
            ),
            cursor_ok(final(self).current_row as int, final(self).current_col as int, num_rows as int, num_cols as int),
    {
        let attr = self.attr;
        let mut row = self.current_row;
        let mut col = self.current_col;
        match self.text_buffer.take() {
            None => {},
            Some(mut buffer) => {
                let ghost start = old(self).state();
                let ghost mut done: Seq<char> = Seq::empty();
                for ch in it: s.chars()
                    invariant
                        buffer@.len() == MAX_TEXT_CELLS,
                        cursor_ok(row as int, col as int, num_rows as int, num_cols as int),
                        done == it.seq().take(it.index() as int),
                        put_chars(start, done, attr, num_rows as int, num_cols as int) == (ConsoleState {
                            row: row as int,
                            col: col as int,
                            cells: buffer@,
                        }),
                {
                    let cursor = put_one(&mut buffer, row, col, ch, attr, num_rows, num_cols);
                    row = cursor.0;
                    col = cursor.1;
                    proof {
                        let next = done.push(ch);
                        assert(next.drop_last() =~= done);
                        done = next;
                    }
                }
                assert(done =~= s@);
                self.text_buffer = Some(buffer);
                self.current_row = row;
                self.current_col = col;
            },
        }
    }

    /// The glyph for a 7-bit US-ASCII character; other characters have none.
    pub fn map_char_to_glyph(input: char) -> (r: Option<Glyph>)
        ensures
            r == if input as u32 <= 127 { Some(Glyph(input as u8)) } else { None::<Glyph> },
    {
        if input as u32 <= 127 {
            Some(Glyph(input as u8))
        } else {
            None
        }
    }
}

/// Whether a character is a 7-bit ASCII character other than new line and
/// carriage return: one that is written as a single cell.
pub open spec fn is_plain_ascii(ch: char) -> bool {
    ch as u32 <= 127 && ch != '\n' && ch != '\r'
}

/// Writing plain ASCII text that fits on the cursor's row, then reading
/// the grid back, gives each character's own glyph index with the console's
/// attribute, in the cells from the cursor on; the cursor ends just after
/// the text and no other cell changes.
pub proof fn lemma_write_read_back(st: ConsoleState, s: Seq<char>, attr: Attr, num_rows: int, num_cols: int)
    requires
        cursor_ok(st.row, st.col, num_rows, num_cols),
        st.cells.len() == MAX_TEXT_CELLS,
        st.col + s.len() < num_cols,
        forall|i: int| 0 <= i < s.len() ==> is_plain_ascii(#[trigger] s[i]),
    ensures
        put_chars(st, s, attr, num_rows, num_cols).row == st.row,
        put_chars(st, s, attr, num_rows, num_cols).col == st.col + s.len(),
        put_chars(st, s, attr, num_rows, num_cols).cells.len() == st.cells.len(),
        forall|i: int|
            0 <= i < s.len() ==> put_chars(st, s, attr, num_rows, num_cols).cells[st.col + i + num_cols
                * st.row] == GlyphAttr(cell_value(Glyph(s[i] as u8), attr) as u16),
        forall|j: int|
            0 <= j < st.cells.len() && !(st.col + num_cols * st.row <= j < st.col + s.len() + num_cols
                * st.row) ==> put_chars(st, s, attr, num_rows, num_cols).cells[j] == st.cells[j],
    decreases s.len(),
{
    if s.len() > 0 {
        let prefix = s.drop_last();
        assert forall|i: int| 0 <= i < prefix.len() implies is_plain_ascii(#[trigger] prefix[i]) by {
            assert(prefix[i] == s[i]);
        }
        lemma_write_read_back(st, prefix, attr, num_rows, num_cols);
        let mid = put_chars(st, prefix, attr, num_rows, num_cols);
        assert(is_plain_ascii(s[s.len() - 1]));
        assert(st.col + num_cols * st.row < MAX_TEXT_CELLS) by (nonlinear_arith)
            requires
                cursor_ok(st.row, st.col, num_rows, num_cols),
        ;
        assert(st.col + (s.len() - 1) + num_cols * st.row < MAX_TEXT_CELLS) by (nonlinear_arith)
            requires
                cursor_ok(st.row, st.col, num_rows, num_cols),
                st.col + s.len() < num_cols,
        ;
        let end = put_chars(st, s, attr, num_rows, num_cols);
        let last = s[s.len() - 1];
        assert(end == put_char(mid, last, attr, num_rows, num_cols));
        assert(char_cell(last, attr) == GlyphAttr(cell_value(Glyph(last as u8), attr) as u16));
        assert forall|i: int| 0 <= i < s.len() implies end.cells[st.col + i + num_cols * st.row]
            == GlyphAttr(cell_value(Glyph(s[i] as u8), attr) as u16) by {
            if i < s.len() - 1 {
                assert(prefix[i] == s[i]);
            }
        }
    }
}

/// Writing a plain character in the last column moves the cursor to the
/// start of the next row; on the last row, the screen instead scrolls up by
/// exactly one row, the new last row is blank, and the cursor stays on the
/// last row, at column 0.
pub proof fn lemma_wrap_and_scroll(st: ConsoleState, ch: char, attr: Attr, num_rows: int, num_cols: int)
    requires
        cursor_ok(st.row, st.col, num_rows, num_cols),
        st.cells.len() == MAX_TEXT_CELLS,
        st.col == num_cols - 1,
        is_plain_ascii(ch),
    ensures
        ({
            let written = st.cells.update(st.col + num_cols * st.row, char_cell(ch, attr));
            let end = put_char(st, ch, attr, num_rows, num_cols);
            &&& end.col == 0
            &&& st.row + 1 < num_rows ==> end.row == st.row + 1 && end.cells == written
            &&& st.row + 1 == num_rows ==> {
                &&& end.row == num_rows - 1
                &&& end.cells == scrolled(written, num_rows, num_cols)
                &&& forall|i: int|
                    0 <= i < num_cols * (num_rows - 1) ==> #[trigger] end.cells[i] == written[i + num_cols]
                &&& forall|i: int|
                    num_cols * (num_rows - 1) <= i < num_cols * num_rows ==> #[trigger] end.cells[i]
                        == blank_cell()
            }
        }),
{
    assert(num_cols * (num_rows - 1) + num_cols == num_cols * num_rows) by (nonlinear_arith);
    assert(num_cols * num_rows <= MAX_TEXT_CELLS) by (nonlinear_arith)
        requires
            cursor_ok(st.row, st.col, num_rows, num_cols),
    ;
}

/// Write one character at the cursor and return the new cursor.
fn put_one(
    buffer: &mut Vec<GlyphAttr>,
    row: u8,
    col: u8,
    ch: char,
    attr: Attr,
    num_rows: usize,
    num_cols: usize,
) -> (cursor: (u8, u8))
    requires
        cursor_ok(row as int, col as int, num_rows as int, num_cols as int),
        old(buffer)@.len() == MAX_TEXT_CELLS,
    ensures
        final(buffer)@.len() == MAX_TEXT_CELLS,
        cursor_ok(cursor.0 as int, cursor.1 as int, num_rows as int, num_cols as int),
        put_char(
            ConsoleState { row: row as int, col: col as int, cells: old(buffer)@ },
            ch,
            attr,
            num_rows as int,
            num_cols as int,
        ) == (ConsoleState { row: cursor.0 as int, col: cursor.1 as int, cells: final(buffer)@ }),
{
    let mut row = row;
    let mut col = col;
    if ch == '\n' {
        // New line, with an implicit carriage return.
        row = row + 1;
        col = 0;
    } else if ch == '\r' {
        col = 0;
    } else {
        let glyph = match Font::convert_char(ch) {
            Some(g) => g,
            None => Glyph(REPLACEMENT_GLYPH),
        };
        let glyphattr = GlyphAttr::new(glyph, attr);
        write_at(glyphattr, buffer, row, col, num_cols);
        col = col + 1;
    }
    if col as usize == num_cols {
        col = 0;
        row = row + 1;
    }
    if row as usize == num_rows {
        // Stay on the last row, and scroll everything up.
        row = (num_rows - 1) as u8;
        scroll_up(buffer, num_rows, num_cols);
    }
    (row, col)
}

/// Put one cell at `row` and `col` of a screen `num_cols` cells wide.
fn write_at(glyphattr: GlyphAttr, buffer: &mut Vec<GlyphAttr>, row: u8, col: u8, num_cols: usize)
    requires
        (col as int) < num_cols <= MAX_TEXT_COLS,
        (row as int) < MAX_TEXT_ROWS,
        old(buffer)@.len() == MAX_TEXT_CELLS,
    ensures
        final(buffer)@ == old(buffer)@.update(col + num_cols * row, glyphattr),
        final(buffer)@.len() == MAX_TEXT_CELLS,
{
    assert(col + num_cols * row < MAX_TEXT_CELLS) by (nonlinear_arith)
        requires
            (col as int) < num_cols <= MAX_TEXT_COLS,
            (row as int) < MAX_TEXT_ROWS,
    ;
    let offset = (col as usize) + (num_cols * (row as usize));
    buffer.set(offset, glyphattr);
}

/// Scroll a screen of `num_rows` by `num_cols` cells up by one row, and
/// blank the last row.
fn scroll_up(buffer: &mut Vec<GlyphAttr>, num_rows: usize, num_cols: usize)
    requires
        0 < num_rows <= MAX_TEXT_ROWS,
        0 < num_cols <= MAX_TEXT_COLS,
        old(buffer)@.len() == MAX_TEXT_CELLS,
    ensures
        final(buffer)@ == scrolled(old(buffer)@, num_rows as int, num_cols as int),
{
    assert(num_cols * num_rows <= MAX_TEXT_CELLS) by (nonlinear_arith)
        requires
            0 < num_rows <= MAX_TEXT_ROWS,
            0 < num_cols <= MAX_TEXT_COLS,
    ;
    assert(num_cols * (num_rows - 1) + num_cols == num_cols * num_rows) by (nonlinear_arith);
    let moved = num_cols * (num_rows - 1);
    let mut i: usize = 0;
    while i < moved
        invariant
            i <= moved,
            moved == num_cols * (num_rows - 1),
            moved + num_cols <= MAX_TEXT_CELLS,
            buffer@.len() == MAX_TEXT_CELLS,
            forall|j: int| 0 <= j < i ==> #[trigger] buffer@[j] == old(buffer)@[j + num_cols],
            forall|j: int| i <= j < MAX_TEXT_CELLS ==> #[trigger] buffer@[j] == old(buffer)@[j],
        decreases moved - i,
    {
        let cell = buffer[i + num_cols];
        buffer.set(i, cell);
        i = i + 1;
    }
    let mut c: usize = 0;
    while c < num_cols
        invariant
            c <= num_cols,
            moved == num_cols * (num_rows - 1),
            moved + num_cols <= MAX_TEXT_CELLS,
            buffer@.len() == MAX_TEXT_CELLS,
            forall|j: int| 0 <= j < moved ==> #[trigger] buffer@[j] == old(buffer)@[j + num_cols],
            forall|j: int| moved <= j < moved + c ==> #[trigger] buffer@[j] == blank_cell(),
            forall|j: int| moved + c <= j < MAX_TEXT_CELLS ==> #[trigger] buffer@[j] == old(buffer)@[j],
        decreases num_cols - c,
    {
        let blank = GlyphAttr::new(Glyph(SPACE_GLYPH), Attr(0));
        buffer.set(moved + c, blank);
        c = c + 1;
    }
    assert(buffer@ =~= scrolled(old(buffer)@, num_rows as int, num_cols as int));
}

} // verus!
