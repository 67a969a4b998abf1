//! What holds of every screen: the laws of clearing, of writing runs of
//! characters, of wrapping, of scrolling, of tab stops and of log records.

use vstd::prelude::*;
use vstd::string::{is_ascii, StringSliceAdditionalSpecFns};
use crate::buffer::{VgaChar, BUFFER_H, BUFFER_W};
use crate::color::ColorCode;
use crate::logger::Level;
use crate::screen::{colored, is_glyph, Screen, NEWLINE, TAB_W};

verus! {

/// Whether every element of a run is a character to show: none is a newline
/// or a tab.
pub open spec fn all_glyphs(text: Seq<VgaChar>) -> bool {
    forall|i: int| 0 <= i < text.len() ==> is_glyph((#[trigger] text[i]).ascii)
}

/// Whether a text is a line that fits a row: characters to show, and no
/// more of them than a row has columns.
pub open spec fn is_line(text: Seq<VgaChar>) -> bool {
    all_glyphs(text) && text.len() <= BUFFER_W
}

impl Screen {
    /// Lines one after the other, each followed by a newline in the colour
    /// `nl`.
    pub open spec fn feed_lines(self, lines: Seq<Seq<VgaChar>>, nl: ColorCode) -> Screen
        decreases lines.len(),
    {
        if lines.len() == 0 {
            self
        } else {
            self.feed_lines(lines.drop_last(), nl).feed(lines.last()).print_char(NEWLINE, nl)
        }
    }
}

/// Every operation keeps the cursor on the display and the shape of the
/// cells, and none changes the colour of plain text.
pub proof fn lemma_step_wf(s: Screen, byte: u8, color: ColorCode)
    requires
        s.wf(),
    ensures
        s.clear().wf(),
        s.new_line().wf(),
        s.tab().wf(),
        s.print_char(byte, color).wf(),
        s.clear().color == s.color,
        s.new_line().color == s.color,
        s.tab().color == s.color,
        s.print_char(byte, color).color == s.color,
{
}

/// A run of bytes keeps the cursor on the display and the shape of the
/// cells, and does not change the colour of plain text.
pub proof fn lemma_feed_wf(s: Screen, text: Seq<VgaChar>)
    requires
        s.wf(),
    ensures
        s.feed(text).wf(),
        s.feed(text).color == s.color,
    decreases text.len(),
{
    if text.len() > 0 {
        lemma_feed_wf(s, text.drop_last());
        lemma_step_wf(s.feed(text.drop_last()), text.last().ascii, text.last().color);
    }
}

/// Feeding one run and then another is feeding the two as one.
pub proof fn lemma_feed_append(s: Screen, first: Seq<VgaChar>, second: Seq<VgaChar>)
    ensures
        s.feed(first + second) == s.feed(first).feed(second),
    decreases second.len(),
{
    if second.len() == 0 {
        assert(first + second =~= first);
    } else {
        assert((first + second).drop_last() =~= first + second.drop_last());
        assert((first + second).last() == second.last());
        lemma_feed_append(s, first, second.drop_last());
    }
}

/// Printing a text is printing its first part and then the rest.
pub proof fn lemma_print_str_append(s: Screen, first: Seq<u8>, second: Seq<u8>, color: ColorCode)
    ensures
        s.print_str(first + second, color) == s.print_str(first, color).print_str(second, color),
{
    assert(colored(first + second, color) =~= colored(first, color) + colored(second, color));
    lemma_feed_append(s, colored(first, color), colored(second, color));
}

/// After clearing, every cell is the empty cell in the colour of plain
/// text, and the cursor is where it was.
pub proof fn lemma_clear_blanks_every_cell(s: Screen, row: int, col: int)
    requires
        0 <= row < BUFFER_H,
        0 <= col < BUFFER_W,
    ensures
        s.clear().cells[row][col] == VgaChar::blank(s.color),
        s.clear().row == s.row,
        s.clear().col == s.col,
{
}

/// Clearing a cleared screen changes nothing.
pub proof fn lemma_clear_idempotent(s: Screen)
    ensures
        s.clear().clear() == s.clear(),
{
    assert(s.clear().clear().cells =~= s.clear().cells);
}

/// Where a run of characters lands while the display does not scroll. The
/// cells are counted from the cursor, row after row: the character `i` of
/// the run fills the cell that lies `i` cells behind the cursor, and no
/// other cell changes. The cursor ends behind the last character written.
pub proof fn lemma_glyph_run(s: Screen, text: Seq<VgaChar>)
    requires
        s.wf(),
        all_glyphs(text),
        text.len() > 0 ==> s.row + (s.col + text.len() - 1) / (BUFFER_W as int) < BUFFER_H,
    ensures
        s.feed(text).wf(),
        s.feed(text).color == s.color,
        text.len() == 0 ==> s.feed(text) == s,
        text.len() > 0 ==> s.feed(text).row == s.row + (s.col + text.len() - 1) / (BUFFER_W
            as int),
        text.len() > 0 ==> s.feed(text).col == (s.col + text.len() - 1) % (BUFFER_W as int) + 1,
        forall|r: int, c: int|
            0 <= r < BUFFER_H && 0 <= c < BUFFER_W ==> #[trigger] s.feed(text).cells[r][c] == ({
                let p = (r - s.row) * BUFFER_W + c - s.col;
                if 0 <= p < text.len() {
                    text[p]
                } else {
                    s.cells[r][c]
                }
            }),
    decreases text.len(),
{
    if text.len() > 0 {
        let head = text.drop_last();
        let n = text.len() as int;
        lemma_glyph_run(s, head);
        let before = s.feed(head);
        let at = if before.col >= BUFFER_W {
            before.new_line()
        } else {
            before
        };
        let after = s.feed(text);
        assert(is_glyph(text[n - 1].ascii));
        assert(after == before.put(text.last()));
        assert(at.row == s.row + (s.col + n - 1) / (BUFFER_W as int));
        assert(at.col == (s.col + n - 1) % (BUFFER_W as int));
        assert(at.cells == before.cells);
        assert((at.row - s.row) * BUFFER_W + at.col - s.col == n - 1);
        assert forall|r: int, c: int|
            0 <= r < BUFFER_H && 0 <= c < BUFFER_W implies #[trigger] after.cells[r][c] == ({
            let p = (r - s.row) * BUFFER_W + c - s.col;
            if 0 <= p < text.len() {
                text[p]
            } else {
                s.cells[r][c]
            }
        }) by {
            let p = (r - s.row) * BUFFER_W + c - s.col;
            if r == at.row && c == at.col {
                assert(p == n - 1);
            } else {
                assert(p != n - 1);
                assert(after.cells[r][c] == before.cells[r][c]);
                if 0 <= p < n - 1 {
                    assert(head[p] == text[p]);
                }
            }
        }
    }
}

/// Characters that fit the row of the cursor move the cursor by their
/// number and leave it on its row. They fill the cells from the cursor on,
/// and no other cell changes.
pub proof fn lemma_glyphs_advance_column(s: Screen, text: Seq<VgaChar>)
    requires
        s.wf(),
        all_glyphs(text),
        s.col + text.len() <= BUFFER_W,
    ensures
        s.feed(text).row == s.row,
        s.feed(text).col == s.col + text.len(),
        s.feed(text).wf(),
        forall|i: int| 0 <= i < text.len() ==> s.feed(text).cells[s.row][s.col + i] == text[i],
        forall|r: int, c: int|
            0 <= r < BUFFER_H && 0 <= c < BUFFER_W && !(r == s.row && s.col <= c < s.col
                + text.len()) ==> #[trigger] s.feed(text).cells[r][c] == s.cells[r][c],
{
    lemma_glyph_run(s, text);
    let t = s.feed(text);
    assert forall|i: int| 0 <= i < text.len() implies t.cells[s.row][s.col + i] == text[i] by {
        assert(t.cells[s.row][s.col + i] == text[(s.row - s.row) * BUFFER_W + (s.col + i) - s.col]);
    }
}

/// A text longer than a row, written from the start of a row that is not
/// the last one: its first `BUFFER_W` characters fill that row, and the
/// rest begin the next row. The two rows read back give the text.
pub proof fn lemma_long_line_wraps(s: Screen, text: Seq<VgaChar>)
    requires
        s.wf(),
        s.col == 0,
        s.row + 1 < BUFFER_H,
        all_glyphs(text),
        BUFFER_W < text.len() <= 2 * BUFFER_W,
    ensures
        s.feed(text).row == s.row + 1,
        s.feed(text).col == text.len() - BUFFER_W,
        s.feed(text).cells[s.row] == text.take(BUFFER_W as int),
        s.feed(text).cells[s.row + 1].take(text.len() - BUFFER_W) == text.skip(BUFFER_W as int),
        s.feed(text).cells[s.row] + s.feed(text).cells[s.row + 1].take(text.len() - BUFFER_W)
            == text,
{
    lemma_glyph_run(s, text);
    let t = s.feed(text);
    let k = text.len() - BUFFER_W;
    assert forall|c: int| 0 <= c < BUFFER_W implies t.cells[s.row][c] == text[c] by {
        assert(t.cells[s.row][c] == text[(s.row - s.row) * BUFFER_W + c - s.col]);
    }
    let next = t.cells[s.row + 1];
    assert forall|c: int| 0 <= c < k implies #[trigger] next[c] == text[BUFFER_W + c] by {
        assert(t.cells[s.row + 1][c] == text[(s.row + 1 - s.row) * BUFFER_W + c - s.col]);
    }
    assert(t.cells[s.row] =~= text.take(BUFFER_W as int));
    assert(t.cells[s.row + 1].take(k) =~= text.skip(BUFFER_W as int));
    assert(t.cells[s.row] + t.cells[s.row + 1].take(k) =~= text);
}

/// Lines written from the top left corner, each followed by a newline, as
/// long as the display does not scroll: line `i` begins row `i`, the rows
/// from the cursor on are as they were, and the cursor stands at the start
/// of the row behind the last line.
pub proof fn lemma_lines_fill_rows(s: Screen, lines: Seq<Seq<VgaChar>>, nl: ColorCode)
    requires
        s.wf(),
        s.row == 0,
        s.col == 0,
        lines.len() < BUFFER_H,
        forall|i: int| 0 <= i < lines.len() ==> is_line(#[trigger] lines[i]),
    ensures
        s.feed_lines(lines, nl).wf(),
        s.feed_lines(lines, nl).color == s.color,
        s.feed_lines(lines, nl).row == lines.len(),
        s.feed_lines(lines, nl).col == 0,
        forall|i: int, c: int|
            0 <= i < lines.len() && 0 <= c < lines[i].len() ==> #[trigger] s.feed_lines(
                lines,
                nl,
            ).cells[i][c] == lines[i][c],
        forall|r: int|
            lines.len() <= r < BUFFER_H ==> #[trigger] s.feed_lines(lines, nl).cells[r]
                == s.cells[r],
    decreases lines.len(),
{
    if lines.len() > 0 {
        let head = lines.drop_last();
        let line = lines.last();
        let k = head.len() as int;
        assert forall|i: int| 0 <= i < head.len() implies is_line(#[trigger] head[i]) by {
            assert(head[i] == lines[i]);
        }
        lemma_lines_fill_rows(s, head, nl);
        let before = s.feed_lines(head, nl);
        assert(is_line(lines[k]));
        lemma_glyphs_advance_column(before, line);
        let written = before.feed(line);
        let after = s.feed_lines(lines, nl);
        assert(after == written.new_line());
        assert(after.cells == written.cells);
        lemma_feed_wf(before, line);
        assert forall|i: int, c: int|
            0 <= i < lines.len() && 0 <= c < lines[i].len() implies #[trigger] after.cells[i][c]
            == lines[i][c] by {
            if i < k {
                assert(written.cells[i][c] == before.cells[i][c]);
                assert(head[i] == lines[i]);
            } else {
                assert(written.cells[before.row][before.col + c] == line[c]);
            }
        }
        assert forall|r: int| lines.len() <= r < BUFFER_H implies #[trigger] after.cells[r]
            == s.cells[r] by {
            assert(before.cells[r] == s.cells[r]);
            assert forall|c: int| 0 <= c < BUFFER_W implies written.cells[r][c]
                == before.cells[r][c] by {}
            assert(written.cells[r] =~= before.cells[r]);
        }
    }
}

/// One line more than the display has rows, written from the top left
/// corner with a newline behind each line but the last: the first line has
/// scrolled off. Each row but the last begins with the line that follows
/// the line of its number, so the top row begins with the second line. The
/// last row holds the last line and is empty behind it; it is empty where
/// that line is.
pub proof fn lemma_first_line_scrolls_off(
    s: Screen,
    lines: Seq<Seq<VgaChar>>,
    last: Seq<VgaChar>,
    nl: ColorCode,
)
    requires
        s.wf(),
        s.row == 0,
        s.col == 0,
        lines.len() == BUFFER_H,
        forall|i: int| 0 <= i < lines.len() ==> is_line(#[trigger] lines[i]),
        is_line(last),
    ensures
        s.feed_lines(lines, nl).feed(last).row == BUFFER_H - 1,
        s.feed_lines(lines, nl).feed(last).col == last.len(),
        s.feed_lines(lines, nl).feed(last).cells[0].take(lines[1].len() as int) == lines[1],
        forall|r: int|
            0 <= r < BUFFER_H - 1 ==> (#[trigger] s.feed_lines(lines, nl).feed(
                last,
            ).cells[r]).take(lines[r + 1].len() as int) == lines[r + 1],
        s.feed_lines(lines, nl).feed(last).cells[BUFFER_H - 1] == last + Screen::blank_row(
            s.color,
        ).skip(last.len() as int),
{
    let head = lines.drop_last();
    let line = lines.last();
    let bottom = BUFFER_H - 1;
    assert forall|i: int| 0 <= i < head.len() implies is_line(#[trigger] head[i]) by {
        assert(head[i] == lines[i]);
    }
    lemma_lines_fill_rows(s, head, nl);
    let before = s.feed_lines(head, nl);
    assert(is_line(lines[bottom]));
    lemma_glyphs_advance_column(before, line);
    let written = before.feed(line);
    lemma_feed_wf(before, line);
    let scrolled = s.feed_lines(lines, nl);
    assert(scrolled == written.new_line());
    assert(scrolled.wf());
    lemma_glyphs_advance_column(scrolled, last);
    let t = scrolled.feed(last);
    assert forall|r: int, c: int|
        0 <= r < BUFFER_H - 1 && 0 <= c < lines[r + 1].len() implies t.cells[r][c] == lines[r
        + 1][c] by {
        assert(t.cells[r][c] == scrolled.cells[r][c]);
        assert(scrolled.cells[r] == written.cells[r + 1]);
        if r + 1 < bottom {
            assert(written.cells[r + 1][c] == before.cells[r + 1][c]);
            assert(head[r + 1] == lines[r + 1]);
        } else {
            assert(written.cells[before.row][before.col + c] == line[c]);
        }
    }
    assert forall|r: int| 0 <= r < BUFFER_H - 1 implies (#[trigger] t.cells[r]).take(
        lines[r + 1].len() as int,
    ) == lines[r + 1] by {
        assert(t.cells[r].take(lines[r + 1].len() as int) =~= lines[r + 1]);
    }
    assert forall|c: int| 0 <= c < BUFFER_W implies t.cells[bottom][c] == (last
        + Screen::blank_row(s.color).skip(last.len() as int))[c] by {
        if c < last.len() {
            assert(t.cells[scrolled.row][scrolled.col + c] == last[c]);
        } else {
            assert(t.cells[bottom][c] == scrolled.cells[bottom][c]);
        }
    }
    assert(t.cells[bottom] =~= last + Screen::blank_row(s.color).skip(last.len() as int));
}

/// A newline above the last row moves the cursor to the start of the next
/// row and changes no cell. On the last row it moves every row up by one,
/// empties the last row in the colour of plain text, and leaves the cursor
/// at the start of the last row.
pub proof fn lemma_new_line(s: Screen)
    requires
        s.wf(),
    ensures
        s.new_line().col == 0,
        s.row < BUFFER_H - 1 ==> s.new_line().row == s.row + 1 && s.new_line().cells == s.cells,
        s.row == BUFFER_H - 1 ==> s.new_line().row == BUFFER_H - 1,
        s.row == BUFFER_H - 1 ==> forall|r: int|
            0 <= r < BUFFER_H - 1 ==> #[trigger] s.new_line().cells[r] == s.cells[r + 1],
        s.row == BUFFER_H - 1 ==> forall|c: int|
            0 <= c < BUFFER_W ==> #[trigger] s.new_line().cells[BUFFER_H - 1][c] == VgaChar::blank(
                s.color,
            ),
{
}

/// A tab goes to the next multiple of `TAB_W` on the row of the cursor and
/// changes no cell. From the last `TAB_W` columns of a row, and from behind
/// its end, there is no such stop on the display, and the tab begins a new
/// line.
pub proof fn lemma_tab_stops(s: Screen)
    requires
        s.wf(),
    ensures
        s.col < BUFFER_W - TAB_W ==> s.tab().row == s.row && s.tab().cells == s.cells,
        s.col < BUFFER_W - TAB_W ==> s.col < s.tab().col <= s.col + TAB_W,
        s.col < BUFFER_W - TAB_W ==> s.tab().col % (TAB_W as int) == 0,
        s.col >= BUFFER_W - TAB_W ==> s.tab() == s.new_line(),
{
}

/// After a tab that begins a new line, the next character lands in the
/// first column: on the next row, or on the last row where the display has
/// scrolled.
pub proof fn lemma_tab_wrap_then_glyph(s: Screen, cell: VgaChar)
    requires
        s.wf(),
        s.col >= BUFFER_W - TAB_W,
        is_glyph(cell.ascii),
    ensures
        s.tab().print_char(cell.ascii, cell.color).col == 1,
        s.tab().print_char(cell.ascii, cell.color).row == if s.row + 1 < BUFFER_H {
            s.row + 1
        } else {
            BUFFER_H - 1
        },
        s.tab().print_char(cell.ascii, cell.color).cells[s.tab().row][0] == cell,
{
}

/// The label of every level is five characters to show.
pub proof fn lemma_label_is_five_glyphs(level: Level)
    ensures
        level.label().spec_bytes().len() == 5,
        all_glyphs(colored(level.label().spec_bytes(), level.color())),
{
    broadcast use vstd::string::is_ascii_spec_bytes;

    reveal_strlit("ERROR");
    reveal_strlit("WARN ");
    reveal_strlit("INFO ");
    reveal_strlit("DEBUG");
    reveal_strlit("TRACE");
    let label = level.label();
    assert(label@.len() == 5);
    assert(is_ascii(label));
    assert(label.spec_bytes().len() == 5);
}

/// The label of information has the colour of plain text.
pub proof fn lemma_info_label_is_plain()
    ensures
        Level::Info.color() == ColorCode::plain(),
{
}

/// What a row shows that begins with a record: `[`, the five characters
/// of the label in the colour of the level, `]: ` and the message, all but
/// the label in the colour `plain`.
pub open spec fn shows_record(row: Seq<VgaChar>, level: Level, message: Seq<u8>, plain: ColorCode)
    -> bool {
    &&& row.len() >= 9 + message.len()
    &&& row[0] == VgaChar { ascii: 0x5b, color: plain }
    &&& forall|c: int|
        1 <= c < 6 ==> #[trigger] row[c] == (VgaChar {
            ascii: level.label().spec_bytes()[c - 1],
            color: level.color(),
        })
    &&& row[6] == VgaChar { ascii: 0x5d, color: plain }
    &&& row[7] == VgaChar { ascii: 0x3a, color: plain }
    &&& row[8] == VgaChar { ascii: 0x20, color: plain }
    &&& forall|c: int|
        9 <= c < 9 + message.len() ==> #[trigger] row[c] == (VgaChar {
            ascii: message[c - 9],
            color: plain,
        })
}

/// A record up to its closing newline, written from the start of a row
/// with a message of characters that fits behind the label: the row shows
/// the record, no other cell changes, and the cursor stands behind the
/// message.
pub proof fn lemma_record_line(s: Screen, level: Level, message: Seq<u8>)
    requires
        s.wf(),
        s.col == 0,
        forall|i: int| 0 <= i < message.len() ==> is_glyph(#[trigger] message[i]),
        9 + message.len() <= BUFFER_W,
    ensures
        s.log_label(level).print_str(message, s.color).wf(),
        s.log_label(level).print_str(message, s.color).color == s.color,
        s.log_label(level).print_str(message, s.color).row == s.row,
        s.log_label(level).print_str(message, s.color).col == 9 + message.len(),
        shows_record(
            s.log_label(level).print_str(message, s.color).cells[s.row],
            level,
            message,
            s.color,
        ),
        forall|r: int, c: int|
            0 <= r < BUFFER_H && 0 <= c < BUFFER_W && !(r == s.row && c < 9 + message.len())
                ==> #[trigger] s.log_label(level).print_str(message, s.color).cells[r][c]
                == s.cells[r][c],
{
    broadcast use vstd::string::is_ascii_spec_bytes;

    reveal_strlit("[");
    reveal_strlit("]: ");
    let open = "[".spec_bytes();
    let close = "]: ".spec_bytes();
    assert("["@.len() == 1 && is_ascii("["));
    assert("]: "@.len() == 3 && is_ascii("]: "));
    assert(open.len() == 1 && open[0] == 0x5b);
    assert(close.len() == 3 && close[0] == 0x5d && close[1] == 0x3a && close[2] == 0x20);
    lemma_label_is_five_glyphs(level);
    let label = level.label().spec_bytes();

    let s1 = s.print_str(open, s.color);
    lemma_glyphs_advance_column(s, colored(open, s.color));
    let s2 = s1.print_str(label, level.color());
    lemma_glyphs_advance_column(s1, colored(label, level.color()));
    let s3 = s2.print_str(close, s.color);
    lemma_glyphs_advance_column(s2, colored(close, s.color));
    let s4 = s3.print_str(message, s.color);
    lemma_glyphs_advance_column(s3, colored(message, s.color));
    lemma_feed_wf(s, colored(open, s.color));
    lemma_feed_wf(s1, colored(label, level.color()));
    lemma_feed_wf(s2, colored(close, s.color));
    lemma_feed_wf(s3, colored(message, s.color));
    assert(s4 == s.log_label(level).print_str(message, s.color));
    let row = s4.cells[s.row];
    assert(s1.cells[s.row][s.col + 0] == colored(open, s.color)[0]);
    assert forall|c: int| 1 <= c < 6 implies #[trigger] row[c] == (VgaChar {
        ascii: label[c - 1],
        color: level.color(),
    }) by {
        assert(s2.cells[s1.row][s1.col + (c - 1)] == colored(label, level.color())[c - 1]);
    }
    assert(s3.cells[s2.row][s2.col + 0] == colored(close, s.color)[0]);
    assert(s3.cells[s2.row][s2.col + 1] == colored(close, s.color)[1]);
    assert(s3.cells[s2.row][s2.col + 2] == colored(close, s.color)[2]);
    assert forall|c: int| 9 <= c < 9 + message.len() implies #[trigger] row[c] == (VgaChar {
        ascii: message[c - 9],
        color: s.color,
    }) by {
        assert(s4.cells[s3.row][s3.col + (c - 9)] == colored(message, s.color)[c - 9]);
    }
}

/// A record of any level at the start of a row above the last, with a
/// message of characters that fits behind the label: the row shows the
/// record, no other cell changes, and the cursor goes to the start of the
/// next row.
pub proof fn lemma_record_fills_a_row(s: Screen, level: Level, message: Seq<u8>)
    requires
        s.wf(),
        s.col == 0,
        s.row < BUFFER_H - 1,
        forall|i: int| 0 <= i < message.len() ==> is_glyph(#[trigger] message[i]),
        9 + message.len() <= BUFFER_W,
    ensures
        s.log(level, message).row == s.row + 1,
        s.log(level, message).col == 0,
        shows_record(s.log(level, message).cells[s.row], level, message, s.color),
        forall|r: int, c: int|
            0 <= r < BUFFER_H && 0 <= c < BUFFER_W && !(r == s.row && c < 9 + message.len())
                ==> #[trigger] s.log(level, message).cells[r][c] == s.cells[r][c],
{
    lemma_record_line(s, level, message);
}

/// A record of any level at the start of the last row, with a message of
/// characters that fits behind the label: the closing newline scrolls the
/// display, so the row above the last shows the record, every row above
/// that one holds what the row below it held, the last row is empty, and
/// the cursor stands at its start.
pub proof fn lemma_record_on_the_last_row(s: Screen, level: Level, message: Seq<u8>)
    requires
        s.wf(),
        s.col == 0,
        s.row == BUFFER_H - 1,
        forall|i: int| 0 <= i < message.len() ==> is_glyph(#[trigger] message[i]),
        9 + message.len() <= BUFFER_W,
    ensures
        s.log(level, message).row == BUFFER_H - 1,
        s.log(level, message).col == 0,
        shows_record(s.log(level, message).cells[BUFFER_H - 2], level, message, s.color),
        s.log(level, message).cells[BUFFER_H - 2].skip(9 + message.len() as int)
            == s.cells[BUFFER_H - 1].skip(9 + message.len() as int),
        forall|r: int|
            0 <= r < BUFFER_H - 2 ==> #[trigger] s.log(level, message).cells[r] == s.cells[r + 1],
        s.log(level, message).cells[BUFFER_H - 1] == Screen::blank_row(s.color),
{
    lemma_record_line(s, level, message);
    let line = s.log_label(level).print_str(message, s.color);
    let t = s.log(level, message);
    assert(t == line.new_line());
    let record = line.cells[BUFFER_H - 1];
    let held = s.cells[BUFFER_H - 1];
    assert(t.cells[BUFFER_H - 2] == record);
    assert forall|c: int| 9 + message.len() <= c < BUFFER_W implies #[trigger] record[c]
        == held[c] by {
        assert(line.cells[BUFFER_H - 1][c] == s.cells[BUFFER_H - 1][c]);
    }
    assert(record.skip(9 + message.len() as int) =~= held.skip(9 + message.len() as int));
    assert forall|r: int| 0 <= r < BUFFER_H - 2 implies #[trigger] t.cells[r] == s.cells[r
        + 1] by {
        let below = line.cells[r + 1];
        assert(t.cells[r] == below);
        assert forall|c: int| 0 <= c < BUFFER_W implies #[trigger] below[c] == s.cells[r
            + 1][c] by {
            assert(line.cells[r + 1][c] == s.cells[r + 1][c]);
        }
        assert(below =~= s.cells[r + 1]);
    }
}

} // verus!
