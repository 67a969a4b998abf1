//! The display as a mathematical value, and what each operation of the
//! terminal makes of it.

use vstd::prelude::*;
use crate::buffer::{is_grid, VgaChar, BUFFER_H, BUFFER_W};
use crate::color::ColorCode;

verus! {

/// The distance between two tab stops.
pub const TAB_W: usize = 4;

/// The byte that ends a line.
pub const NEWLINE: u8 = 0x0a;

/// The byte that moves the cursor to the next tab stop.
pub const TAB: u8 = 0x09;

/// A display and its cursor: the state of a terminal.
pub struct Screen {
    /// The row that the next character goes to.
    pub row: int,
    /// The column that the next character goes to. It equals `BUFFER_W`
    /// when the row is full, and the next character then opens a new line.
    pub col: int,
    /// The colour of empty cells and of text written without a colour.
    pub color: ColorCode,
    /// The cells, by row and then by column.
    pub cells: Seq<Seq<VgaChar>>,
}

/// The bytes of a text, each paired with one colour.
pub open spec fn colored(bytes: Seq<u8>, color: ColorCode) -> Seq<VgaChar> {
    Seq::new(bytes.len(), |i: int| VgaChar { ascii: bytes[i], color })
}

/// Whether a byte is shown as a character: it is neither the newline nor
/// the tab.
pub open spec fn is_glyph(byte: u8) -> bool {
    byte != NEWLINE && byte != TAB
}

impl Screen {
    /// The cursor is on the display, or just behind the end of a row, and
    /// the cells have the shape of the display.
    pub open spec fn wf(self) -> bool {
        &&& 0 <= self.row < BUFFER_H
        &&& 0 <= self.col <= BUFFER_W
        &&& is_grid(self.cells)
    }

    /// A row of empty cells.
    pub open spec fn blank_row(color: ColorCode) -> Seq<VgaChar> {
        Seq::new(BUFFER_W as nat, |c: int| VgaChar::blank(color))
    }

    /// Every cell empty, the cursor where it was.
    pub open spec fn clear(self) -> Screen {
        Screen { cells: Seq::new(BUFFER_H as nat, |r: int| Self::blank_row(self.color)), ..self }
    }

    /// Every row takes the content of the row below it, and the last row
    /// becomes empty. The cursor stays.
    pub open spec fn scroll(self) -> Screen {
        Screen {
            cells: Seq::new(
                BUFFER_H as nat,
                |r: int|
                    if r < BUFFER_H - 1 {
                        self.cells[r + 1]
                    } else {
                        Self::blank_row(self.color)
                    },
            ),
            ..self
        }
    }

    /// The cursor goes to the start of the next row. From the last row the
    /// display scrolls instead, and the cursor stays on the last row.
    pub open spec fn new_line(self) -> Screen {
        if self.row + 1 < BUFFER_H {
            Screen { row: self.row + 1, col: 0, ..self }
        } else {
            Screen { row: BUFFER_H - 1, col: 0, ..self.scroll() }
        }
    }

    /// The cursor goes to the next tab stop of its row. Where that stop is
    /// not on the display, a new line begins.
    pub open spec fn tab(self) -> Screen {
        let stop = (self.col / (TAB_W as int) + 1) * TAB_W;
        if stop >= BUFFER_W {
            self.new_line()
        } else {
            Screen { col: stop, ..self }
        }
    }

    /// The cell is placed at the cursor, and the cursor moves one column
    /// on. A cursor behind the end of its row first begins a new line.
    pub open spec fn put(self, cell: VgaChar) -> Screen {
        let at = if self.col >= BUFFER_W {
            self.new_line()
        } else {
            self
        };
        Screen {
            col: at.col + 1,
            cells: at.cells.update(at.row, at.cells[at.row].update(at.col, cell)),
            ..at
        }
    }

    /// One byte in one colour: a newline, a tab, or a character to show.
    pub open spec fn print_char(self, byte: u8, color: ColorCode) -> Screen {
        if byte == NEWLINE {
            self.new_line()
        } else if byte == TAB {
            self.tab()
        } else {
            self.put(VgaChar { ascii: byte, color })
        }
    }

    /// A run of coloured bytes, one after the other. Each element gives a
    /// byte and the colour to print it in.
    pub open spec fn feed(self, text: Seq<VgaChar>) -> Screen
        decreases text.len(),
    {
        if text.len() == 0 {
            self
        } else {
            self.feed(text.drop_last()).print_char(text.last().ascii, text.last().color)
        }
    }

    /// The bytes of a text, one after the other, all in one colour.
    pub open spec fn print_str(self, bytes: Seq<u8>, color: ColorCode) -> Screen {
        self.feed(colored(bytes, color))
    }
}

} // verus!
