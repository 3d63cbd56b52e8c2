use vstd::prelude::*;
use vstd::string::StringSliceAdditionalSpecFns;
use crate::buffer::{Buffer, ScreenChar, BUFFER_HEIGHT, BUFFER_WIDTH};
use crate::color::ColorCode;

verus! {

/// The glyph shown in place of a byte that the screen cannot represent.
pub const PLACEHOLDER: u8 = 0xfe;

/// What a writer shows: the cursor, the active color and every cell.
pub ghost struct Screen {
    pub row: int,
    pub column: int,
    pub color: ColorCode,
    pub grid: Seq<Seq<ScreenChar>>,
}

/// An empty cell in the given color.
pub open spec fn blank(color: ColorCode) -> ScreenChar {
    ScreenChar { ascii_character: 0x20u8, color_code: color }
}

/// A row of empty cells in the given color.
pub open spec fn blank_row(color: ColorCode) -> Seq<ScreenChar> {
    Seq::new(BUFFER_WIDTH as nat, |c: int| blank(color))
}

/// Whether a byte is shown as it is: printable ASCII or a newline.
pub open spec fn is_displayable(b: u8) -> bool {
    (0x20 <= b <= 0x7e) || b == 0x0a
}

/// The byte that a string's byte is shown as.
pub open spec fn glyph_of(b: u8) -> u8 {
    if is_displayable(b) {
        b
    } else {
        PLACEHOLDER
    }
}

impl Screen {
    /// The cursor is on the screen (the column may sit just past the last
    /// one) and the grid has the screen's dimensions.
    pub open spec fn wf(self) -> bool {
        &&& 0 <= self.row < BUFFER_HEIGHT
        &&& 0 <= self.column <= BUFFER_WIDTH
        &&& self.grid.len() == BUFFER_HEIGHT
        &&& forall|r: int| 0 <= r < BUFFER_HEIGHT ==> (#[trigger] self.grid[r]).len() == BUFFER_WIDTH
    }

    /// The screen after a line advance: down one row, or, on the last row,
    /// every row moved up by one and a blank last row.
    pub open spec fn new_line(self) -> Screen {
        if self.row == BUFFER_HEIGHT - 1 {
            Screen {
                column: 0,
                grid: self.grid.subrange(1, BUFFER_HEIGHT as int).push(blank_row(self.color)),
                ..self
            }
        } else {
            Screen { row: self.row + 1, column: 0, ..self }
        }
    }

    /// The screen with row `r` blanked in the active color.
    pub open spec fn clear_row(self, r: int) -> Screen {
        Screen { grid: self.grid.update(r, blank_row(self.color)), ..self }
    }

    /// The screen with every row blanked and the cursor at the top left.
    pub open spec fn clear(self) -> Screen {
        Screen {
            row: 0,
            column: 0,
            grid: Seq::new(BUFFER_HEIGHT as nat, |r: int| blank_row(self.color)),
            ..self
        }
    }

    /// The screen with `ch` put at row `r`, column `c`.
    pub open spec fn put(self, r: int, c: int, ch: ScreenChar) -> Screen {
        Screen { grid: self.grid.update(r, self.grid[r].update(c, ch)), ..self }
    }

    /// The screen after writing one byte: a newline advances the line;
    /// any other byte wraps first if the row is full, then is put at the
    /// cursor in the active color and the cursor moves right.
    pub open spec fn put_byte(self, b: u8) -> Screen {
        if b == 0x0a {
            self.new_line()
        } else {
            let s = if self.column >= BUFFER_WIDTH {
                self.new_line()
            } else {
                self
            };
            let t = s.put(s.row, s.column, ScreenChar { ascii_character: b, color_code: s.color });
            Screen { column: s.column + 1, ..t }
        }
    }

    /// The screen after writing the bytes of a string, each shown as its glyph.
    pub open spec fn put_str(self, bytes: Seq<u8>) -> Screen
        decreases bytes.len(),
    {
        if bytes.len() == 0 {
            self
        } else {
            self.put_str(bytes.drop_last()).put_byte(glyph_of(bytes.last()))
        }
    }

    /// The screen after writing the bytes of a string in `color`, with the
    /// active color restored afterwards.
    pub open spec fn put_str_in(self, color: ColorCode, bytes: Seq<u8>) -> Screen {
        Screen { color: self.color, ..Screen { color, ..self }.put_str(bytes) }
    }
}

/// A cursor over the screen's character grid.
pub struct Writer {
    row_position: usize,
    column_position: usize,
    color_code: ColorCode,
    buffer: &'static mut Buffer,
}

impl View for Writer {
    type V = Screen;

    closed spec fn view(&self) -> Screen {
        Screen {
            row: self.row_position as int,
            column: self.column_position as int,
            color: self.color_code,
            grid: self.buffer.grid(),
        }
    }
}

impl Writer {
    /// The writer's invariant: its cursor is on the screen.
    #[verifier::type_invariant]
    closed spec fn wf(&self) -> bool {
        self.row_position < BUFFER_HEIGHT && self.column_position <= BUFFER_WIDTH
    }

    /// A writer over `buffer`, at the top left, writing in `color_code`.
    pub fn new(buffer: &'static mut Buffer, color_code: ColorCode) -> (r: Writer)
        ensures
            r@.wf(),
            r@.row == 0,
            r@.column == 0,
            r@.color == color_code,
            r@.grid == old(buffer).grid(),
    {
        Writer { row_position: 0, column_position: 0, color_code, buffer }
    }

    /// Overwrites every cell of row `row` with a blank in the active color.
    fn clear_row(&mut self, row: usize)
        requires
            old(self).wf(),
            row < BUFFER_HEIGHT,
        ensures
            final(self).wf(),
            final(self)@ == old(self)@.clear_row(row as int),
    {
        let blank = ScreenChar { ascii_character: 0x20u8, color_code: self.color_code };
        let mut col: usize = 0;
        while col < BUFFER_WIDTH
            invariant
                col <= BUFFER_WIDTH,
                row < BUFFER_HEIGHT,
                self.wf(),
                self.row_position == old(self).row_position,
                self.column_position == old(self).column_position,
                self.color_code == old(self).color_code,
                blank == crate::writer::blank(self.color_code),
                forall|i: int, j: int|
                    0 <= i < BUFFER_HEIGHT && 0 <= j < BUFFER_WIDTH && (i != row || j >= col)
                        ==> #[trigger] self.buffer.cell(i, j) == old(self).buffer.cell(i, j),
                forall|j: int| 0 <= j < col ==> #[trigger] self.buffer.cell(row as int, j) == blank,
            decreases BUFFER_WIDTH - col,
        {
            self.buffer.write(row, col, blank);
            col += 1;
        }
        assert(self@.grid =~~= old(self)@.clear_row(row as int).grid);
    }

    /// Advances the cursor to the start of the next line, scrolling every
    /// row up by one when the cursor is on the last row.
    fn new_line(&mut self)
        requires
            old(self).wf(),
        ensures
            final(self).wf(),
            final(self)@ == old(self)@.new_line(),
    {
        if self.row_position == BUFFER_HEIGHT - 1 {
            let mut row: usize = 1;
            while row < BUFFER_HEIGHT
                invariant
                    1 <= row <= BUFFER_HEIGHT,
                    self.wf(),
                    self.row_position == old(self).row_position,
                    self.column_position == old(self).column_position,
                    self.color_code == old(self).color_code,
                    forall|i: int, j: int|
                        0 <= i < row - 1 && 0 <= j < BUFFER_WIDTH
                            ==> #[trigger] self.buffer.cell(i, j) == old(self).buffer.cell(i + 1, j),
                    forall|i: int, j: int|
                        row - 1 <= i < BUFFER_HEIGHT && 0 <= j < BUFFER_WIDTH
                            ==> #[trigger] self.buffer.cell(i, j) == old(self).buffer.cell(i, j),
                decreases BUFFER_HEIGHT - row,
            {
                let mut col: usize = 0;
                while col < BUFFER_WIDTH
                    invariant
                        1 <= row < BUFFER_HEIGHT,
                        col <= BUFFER_WIDTH,
                        self.wf(),
                        self.row_position == old(self).row_position,
                        self.column_position == old(self).column_position,
                        self.color_code == old(self).color_code,
                        forall|i: int, j: int|
                            0 <= i < row - 1 && 0 <= j < BUFFER_WIDTH
                                ==> #[trigger] self.buffer.cell(i, j) == old(self).buffer.cell(i + 1, j),
                        forall|j: int|
                            0 <= j < col ==> #[trigger] self.buffer.cell(row - 1, j)
                                == old(self).buffer.cell(row as int, j),
                        forall|i: int, j: int|
                            row - 1 <= i < BUFFER_HEIGHT && 0 <= j < BUFFER_WIDTH && (i != row - 1
                                || j >= col) ==> #[trigger] self.buffer.cell(i, j)
                                == old(self).buffer.cell(i, j),
                    decreases BUFFER_WIDTH - col,
                {
                    let character = self.buffer.read(row, col);
                    self.buffer.write(row - 1, col, character);
                    col += 1;
                }
                row += 1;
            }
            let ghost moved = self@;
            self.clear_row(BUFFER_HEIGHT - 1);
            assert(self@.grid =~~= old(self)@.new_line().grid) by {
                assert forall|i: int| 0 <= i < BUFFER_HEIGHT - 1 implies #[trigger] self@.grid[i]
                    =~= old(self)@.new_line().grid[i] by {
                    assert forall|j: int| 0 <= j < BUFFER_WIDTH implies self@.grid[i][j]
                        == old(self)@.new_line().grid[i][j] by {
                        assert(moved.grid[i][j] == self@.grid[i][j]);
                    }
                }
            }
        } else {
            self.row_position += 1;
        }
        self.column_position = 0;
    }

    /// Writes one byte at the cursor. A newline advances the line; any other
    /// byte wraps to the next line first if the row is full, is stored with
    /// the active color, and moves the cursor one column right.
    pub fn write_byte(&mut self, byte: u8)
        ensures
            final(self)@.wf(),
            final(self)@ == old(self)@.put_byte(byte),
    {
        proof {
            use_type_invariant(&*self);
        }
        if byte == 0x0a {
            self.new_line();
        } else {
            if self.column_position >= BUFFER_WIDTH {
                self.new_line();
            }
            let row = self.row_position;
            let col = self.column_position;
            let ghost before = self@;
            let color_code = self.color_code;
            self.buffer.write(row, col, ScreenChar { ascii_character: byte, color_code });
            self.column_position += 1;
            assert(self@.grid =~~= before.put(row as int, col as int, ScreenChar {
                ascii_character: byte,
                color_code,
            }).grid);
        }
        proof {
            use_type_invariant(&*self);
        }
    }

    /// Writes the bytes of `s` in order: printable ASCII and newlines as they
    /// are, every other byte as the placeholder glyph.
    pub fn write_string(&mut self, s: &str)
        ensures
            final(self)@.wf(),
            final(self)@ == old(self)@.put_str(s.spec_bytes()),
    {
        proof {
            use_type_invariant(&*self);
        }
        let bytes = s.as_bytes();
        let mut i: usize = 0;
        while i < bytes.len()
            invariant
                i <= bytes@.len(),
                bytes@ == s.spec_bytes(),
                self.wf(),
                self@ == old(self)@.put_str(bytes@.take(i as int)),
            decreases bytes@.len() - i,
        {
            let byte = bytes[i];
            if (0x20 <= byte && byte <= 0x7e) || byte == 0x0a {
                self.write_byte(byte);
            } else {
                self.write_byte(PLACEHOLDER);
            }
            assert(bytes@.take(i + 1).drop_last() =~= bytes@.take(i as int));
            i += 1;
        }
        assert(bytes@.take(i as int) =~= bytes@);
        proof {
            use_type_invariant(&*self);
        }
    }

    /// Blanks every row in the active color and puts the cursor at the top left.
    pub fn clear_screen(&mut self)
        ensures
            final(self)@.wf(),
            final(self)@ == old(self)@.clear(),
    {
        proof {
            use_type_invariant(&*self);
        }
        let mut row: usize = 0;
        while row < BUFFER_HEIGHT
            invariant
                row <= BUFFER_HEIGHT,
                self.wf(),
                self@.row == old(self)@.row,
                self@.column == old(self)@.column,
                self@.color == old(self)@.color,
                self@.grid.len() == BUFFER_HEIGHT,
                forall|i: int| 0 <= i < row ==> #[trigger] self@.grid[i] == blank_row(self@.color),
                forall|i: int| row <= i < BUFFER_HEIGHT ==> #[trigger] self@.grid[i] == old(self)@.grid[i],
            decreases BUFFER_HEIGHT - row,
        {
            self.clear_row(row);
            row += 1;
        }
        self.row_position = 0;
        self.column_position = 0;
        assert(self@.grid =~= old(self)@.clear().grid);
        proof {
            use_type_invariant(&*self);
        }
    }

    /// Writes `s` as `write_string` does, but in `color`; the active color is
    /// the same afterwards as before.
    pub fn with_color(&mut self, color: ColorCode, s: &str)
        ensures
            final(self)@.wf(),
            final(self)@ == old(self)@.put_str_in(color, s.spec_bytes()),
    {
        proof {
            use_type_invariant(&*self);
        }
        let saved = self.color_code;
        self.color_code = color;
        self.write_string(s);
        self.color_code = saved;
        proof {
            use_type_invariant(&*self);
        }
    }

    /// The row of the cursor.
    pub fn row_position(&self) -> (r: usize)
        ensures
            r == self@.row,
    {
        self.row_position
    }

    /// The column of the cursor.
    pub fn column_position(&self) -> (r: usize)
        ensures
            r == self@.column,
    {
        self.column_position
    }

    /// The active color.
    pub fn color_code(&self) -> (r: ColorCode)
        ensures
            r == self@.color,
    {
        self.color_code
    }

    /// Reads the character at (`row`, `col`).
    pub fn read_char(&self, row: usize, col: usize) -> (r: ScreenChar)
        requires
            row < BUFFER_HEIGHT,
            col < BUFFER_WIDTH,
        ensures
            r == self@.grid[row as int][col as int],
    {
        self.buffer.read(row, col)
    }
}

#[verifier::external_type_specification]
#[verifier::external_body]
pub struct ExFmtError(core::fmt::Error);

impl core::fmt::Write for Writer {
    /// Formatted output lands here; writing to the screen cannot fail.
    fn write_str(&mut self, s: &str) -> (r: core::fmt::Result)
        ensures
            r is Ok,
            final(self)@ == old(self)@.put_str(s.spec_bytes()),
    {
        self.write_string(s);
        Ok(())
    }
}

} // verus!
