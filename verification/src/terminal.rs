//! The terminal: a cursor over the display memory.

use vstd::prelude::*;
use vstd::string::StringSliceAdditionalSpecFns;
use crate::buffer::{is_grid, VgaBuffer, VgaChar, BUFFER_H, BUFFER_W};
use crate::color::ColorCode;
use crate::screen::{colored, Screen, NEWLINE, TAB, TAB_W};

verus! {

/// A writer that places bytes on the display and keeps track of the cursor.
pub struct Terminal {
    row: usize,
    col: usize,
    color: ColorCode,
    buffer: VgaBuffer,
}

impl View for Terminal {
    type V = Screen;

    /// The cursor, the colour of plain text, and what the display shows.
    closed spec fn view(&self) -> Screen {
        Screen {
            row: self.row as int,
            col: self.col as int,
            color: self.color,
            cells: self.buffer@,
        }
    }
}

impl Terminal {
    /// The cursor is on a row of the display, and on a column of it or just
    /// behind the last one; the colour of plain text is white on black.
    #[verifier::type_invariant]
    pub closed spec fn inv(&self) -> bool {
        self.row < BUFFER_H && self.col <= BUFFER_W && self.color == ColorCode::plain()
    }

    /// Every terminal shows a well-formed screen whose plain text is white
    /// on black.
    pub proof fn lemma_wf(&self)
        requires
            self.inv(),
        ensures
            self@.wf(),
            self@.color == ColorCode::plain(),
    {
        self.buffer.lemma_is_grid();
    }

    /// A terminal over the given display memory, with the cursor in the
    /// top left corner and white on black as the colour of plain text. The
    /// cells show whatever the memory holds.
    pub fn new(buffer: VgaBuffer) -> (terminal: Terminal)
        ensures
            terminal@.row == 0,
            terminal@.col == 0,
            terminal@.color == ColorCode::plain(),
            terminal@.cells == buffer@,
            terminal@.wf(),
    {
        proof {
            buffer.lemma_is_grid();
        }
        Terminal { row: 0, col: 0, color: ColorCode::plain(), buffer }
    }

    /// The row of the cursor.
    pub fn row(&self) -> (row: usize)
        ensures
            row == self@.row,
            self@.wf(),
            self@.color == ColorCode::plain(),
    {
        proof {
            use_type_invariant(self);
            self.lemma_wf();
        }
        self.row
    }

    /// The column of the cursor.
    pub fn col(&self) -> (col: usize)
        ensures
            col == self@.col,
            self@.wf(),
            self@.color == ColorCode::plain(),
    {
        proof {
            use_type_invariant(self);
            self.lemma_wf();
        }
        self.col
    }

    /// The colour of empty cells and of text written without a colour.
    pub fn color(&self) -> (color: ColorCode)
        ensures
            color == self@.color,
            color == ColorCode::plain(),
    {
        proof {
            use_type_invariant(self);
        }
        self.color
    }

    /// The cell that the display shows at a row and a column, or `None`
    /// where the position is not on the display.
    pub fn read(&self, row: usize, col: usize) -> (cell: Option<VgaChar>)
        ensures
            cell == if row < BUFFER_H && col < BUFFER_W {
                Some(self@.cells[row as int][col as int])
            } else {
                None
            },
    {
        if row < BUFFER_H && col < BUFFER_W {
            Some(self.buffer.read(row, col))
        } else {
            None
        }
    }

    /// Empties every cell of the display. The cursor stays where it is.
    pub fn clear(&mut self)
        ensures
            final(self)@ == old(self)@.clear(),
            final(self)@.wf(),
            final(self)@.color == ColorCode::plain(),
            forall|r: int, c: int|
                0 <= r < BUFFER_H && 0 <= c < BUFFER_W ==> #[trigger] final(self)@.cells[r][c]
                    == VgaChar::blank(ColorCode::plain()),
    {
        proof {
            use_type_invariant(&*self);
            self.lemma_wf();
        }
        let mut i: usize = 0;
        while i < BUFFER_H
            invariant
                0 <= i <= BUFFER_H,
                self.row == old(self).row < BUFFER_H,
                self.col == old(self).col <= BUFFER_W,
                self.color == old(self).color,
                self.color == ColorCode::plain(),
                is_grid(self.buffer@),
                forall|r: int| 0 <= r < i ==> self.buffer@[r] == Screen::blank_row(self.color),
            decreases BUFFER_H - i,
        {
            let mut j: usize = 0;
            while j < BUFFER_W
                invariant
                    0 <= i < BUFFER_H,
                    0 <= j <= BUFFER_W,
                    self.row == old(self).row < BUFFER_H,
                    self.col == old(self).col <= BUFFER_W,
                    self.color == old(self).color,
                    self.color == ColorCode::plain(),
                    is_grid(self.buffer@),
                    forall|r: int|
                        0 <= r < i ==> self.buffer@[r] == Screen::blank_row(self.color),
                    forall|c: int|
                        0 <= c < j ==> self.buffer@[i as int][c] == VgaChar::blank(self.color),
                decreases BUFFER_W - j,
            {
                self.buffer.write(i, j, VgaChar::blank(self.color));
                j += 1;
            }
            assert(self.buffer@[i as int] =~= Screen::blank_row(self.color));
            i += 1;
        }
        assert(self.buffer@ =~= old(self)@.clear().cells);
    }

    /// Moves every row up by one and empties the last row.
    fn scroll(&mut self)
        ensures
            final(self)@ == old(self)@.scroll(),
    {
        proof {
            use_type_invariant(&*self);
            self.lemma_wf();
        }
        let mut i: usize = 0;
        while i < BUFFER_H - 1
            invariant
                0 <= i <= BUFFER_H - 1,
                self.row == old(self).row < BUFFER_H,
                self.col == old(self).col <= BUFFER_W,
                self.color == old(self).color,
                self.color == ColorCode::plain(),
                is_grid(self.buffer@),
                is_grid(old(self).buffer@),
                forall|r: int| 0 <= r < i ==> self.buffer@[r] == old(self).buffer@[r + 1],
                forall|r: int| i <= r < BUFFER_H ==> self.buffer@[r] == old(self).buffer@[r],
            decreases BUFFER_H - 1 - i,
        {
            let mut j: usize = 0;
            while j < BUFFER_W
                invariant
                    0 <= i < BUFFER_H - 1,
                    0 <= j <= BUFFER_W,
                    self.row == old(self).row < BUFFER_H,
                    self.col == old(self).col <= BUFFER_W,
                    self.color == old(self).color,
                    self.color == ColorCode::plain(),
                    is_grid(self.buffer@),
                    is_grid(old(self).buffer@),
                    forall|r: int| 0 <= r < i ==> self.buffer@[r] == old(self).buffer@[r + 1],
                    forall|r: int| i < r < BUFFER_H ==> self.buffer@[r] == old(self).buffer@[r],
                    forall|c: int|
                        0 <= c < j ==> self.buffer@[i as int][c] == old(self).buffer@[i + 1][c],
                decreases BUFFER_W - j,
            {
                let cell: VgaChar = self.buffer.read(i + 1, j);
                self.buffer.write(i, j, cell);
                j += 1;
            }
            assert(self.buffer@[i as int] =~= old(self).buffer@[i + 1]);
            i += 1;
        }
        let last: usize = BUFFER_H - 1;
        let mut j: usize = 0;
        while j < BUFFER_W
            invariant
                0 <= j <= BUFFER_W,
                last == BUFFER_H - 1,
                self.row == old(self).row < BUFFER_H,
                self.col == old(self).col <= BUFFER_W,
                self.color == old(self).color,
                self.color == ColorCode::plain(),
                is_grid(self.buffer@),
                is_grid(old(self).buffer@),
                forall|r: int|
                    0 <= r < BUFFER_H - 1 ==> self.buffer@[r] == old(self).buffer@[r + 1],
                forall|c: int|
                    0 <= c < j ==> self.buffer@[last as int][c] == VgaChar::blank(self.color),
            decreases BUFFER_W - j,
        {
            self.buffer.write(last, j, VgaChar::blank(self.color));
            j += 1;
        }
        assert(self.buffer@[last as int] =~= Screen::blank_row(self.color));
        assert(self.buffer@ =~= old(self)@.scroll().cells);
    }

    /// Ends the line: the cursor goes to the start of the next row, and
    /// from the last row the display scrolls by one row instead.
    pub fn new_line(&mut self)
        ensures
            final(self)@ == old(self)@.new_line(),
            final(self)@.wf(),
            final(self)@.color == ColorCode::plain(),
    {
        proof {
            use_type_invariant(&*self);
            self.lemma_wf();
        }
        self.col = 0;
        if self.row + 1 < BUFFER_H {
            self.row += 1;
        } else {
            self.scroll();
        }
        proof {
            use_type_invariant(&*self);
            self.lemma_wf();
        }
    }

    /// Moves the cursor to the next tab stop, or begins a new line where
    /// that stop is not on the display.
    pub fn tab(&mut self)
        ensures
            final(self)@ == old(self)@.tab(),
            final(self)@.wf(),
            final(self)@.color == ColorCode::plain(),
    {
        proof {
            use_type_invariant(&*self);
            self.lemma_wf();
        }
        let stop: usize = (self.col / TAB_W + 1) * TAB_W;
        if stop >= BUFFER_W {
            self.new_line();
        } else {
            self.col = stop;
        }
    }

    /// Takes one byte in the given colour. A newline begins a new line and
    /// a tab moves to the next tab stop; any other byte is shown at the
    /// cursor, on a new line where the row of the cursor is full.
    pub fn print_char(&mut self, byte: u8, color: ColorCode)
        ensures
            final(self)@ == old(self)@.print_char(byte, color),
            final(self)@.wf(),
            final(self)@.color == ColorCode::plain(),
    {
        proof {
            use_type_invariant(&*self);
            self.lemma_wf();
        }
        if byte == NEWLINE {
            self.new_line();
        } else if byte == TAB {
            self.tab();
        } else {
            if self.col >= BUFFER_W {
                self.new_line();
            }
            proof {
                use_type_invariant(&*self);
            }
            self.buffer.write(self.row, self.col, VgaChar { ascii: byte, color });
            self.col += 1;
        }
    }

    /// Takes the bytes of a text, in order, all in the given colour.
    pub fn print_str(&mut self, s: &str, color: ColorCode)
        ensures
            final(self)@ == old(self)@.print_str(s.spec_bytes(), color),
            final(self)@.wf(),
            final(self)@.color == ColorCode::plain(),
    {
        proof {
            use_type_invariant(&*self);
            self.lemma_wf();
        }
        let bytes: &[u8] = s.as_bytes();
        let mut i: usize = 0;
        while i < bytes.len()
            invariant
                0 <= i <= bytes.len(),
                bytes@ == s.spec_bytes(),
                self@.wf(),
                self@.color == ColorCode::plain(),
                self@ == old(self)@.feed(colored(bytes@.take(i as int), color)),
            decreases bytes.len() - i,
        {
            proof {
                let before = colored(bytes@.take(i as int), color);
                let after = colored(bytes@.take(i + 1), color);
                assert(after.drop_last() =~= before);
                assert(after.last() == VgaChar { ascii: bytes@[i as int], color });
            }
            self.print_char(bytes[i], color);
            i += 1;
        }
        assert(bytes@.take(i as int) =~= bytes@);
    }
}

impl core::fmt::Write for Terminal {
    /// Takes a fragment of formatted text in the colour of plain text. The
    /// display takes every byte, so this never fails.
    fn write_str(&mut self, s: &str) -> (result: core::fmt::Result)
        ensures
            result is Ok,
            final(self)@ == old(self)@.print_str(s.spec_bytes(), old(self)@.color),
            final(self)@.wf(),
            final(self)@.color == ColorCode::plain(),
    {
        let color: ColorCode = self.color;
        self.print_str(s, color);
        Ok(())
    }
}

/// `core::fmt::Error`, which a formatter reports and a terminal never does.
#[verifier::external_type_specification]
#[verifier::external_body]
pub struct ExFmtError(core::fmt::Error);

} // verus!
