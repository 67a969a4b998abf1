use std::fmt::Write;
use vga_terminal::{
    Color, ColorCode, Terminal, VgaBuffer, VgaCells, VgaChar, BUFFER_H, BUFFER_W, NEWLINE, TAB,
    TAB_W,
};
use volatile::Volatile;

fn memory(fill: [u8; 2]) -> &'static mut VgaCells {
    let cells: VgaCells = std::array::from_fn(|_| std::array::from_fn(|_| Volatile::new(fill)));
    Box::leak(Box::new(cells))
}

fn terminal() -> Terminal {
    let mut terminal = Terminal::new(VgaBuffer::new(memory([b'#', 0x4e])));
    terminal.clear();
    terminal
}

fn plain() -> ColorCode {
    ColorCode::plain()
}

fn cell(terminal: &Terminal, row: usize, col: usize) -> VgaChar {
    terminal.read(row, col).unwrap()
}

fn row_text(terminal: &Terminal, row: usize) -> String {
    (0..BUFFER_W).map(|col| cell(terminal, row, col).ascii as char).collect()
}

fn snapshot(terminal: &Terminal) -> Vec<VgaChar> {
    let mut cells = Vec::new();
    for row in 0..BUFFER_H {
        for col in 0..BUFFER_W {
            cells.push(cell(terminal, row, col));
        }
    }
    cells
}

fn padded(text: &str) -> String {
    format!("{:<width$}", text, width = BUFFER_W)
}

#[test]
fn geometry_is_eighty_by_twenty_five() {
    assert_eq!(BUFFER_W, 80);
    assert_eq!(BUFFER_H, 25);
    assert_eq!(TAB_W, 4);
    assert_eq!(NEWLINE, b'\n');
    assert_eq!(TAB, b'\t');
}

#[test]
fn buffer_reads_back_what_was_written() {
    let mut buffer = VgaBuffer::new(memory([0, 0]));
    let a = VgaChar { ascii: b'a', color: ColorCode(0x1e) };
    let b = VgaChar { ascii: b'b', color: ColorCode(0x2f) };
    buffer.write(3, 7, a);
    buffer.write(24, 79, b);
    assert_eq!(buffer.read(3, 7), a);
    assert_eq!(buffer.read(24, 79), b);
    assert_eq!(buffer.read(7, 3), VgaChar { ascii: 0, color: ColorCode(0) });
    assert_eq!(buffer.read(0, 0), VgaChar { ascii: 0, color: ColorCode(0) });
    buffer.write(3, 7, b);
    assert_eq!(buffer.read(3, 7), b);
}

#[test]
fn buffer_shows_what_the_memory_holds() {
    let buffer = VgaBuffer::new(memory([b'x', 0x70]));
    for row in 0..BUFFER_H {
        for col in 0..BUFFER_W {
            assert_eq!(buffer.read(row, col), VgaChar { ascii: b'x', color: ColorCode(0x70) });
        }
    }
}

#[test]
fn display_memory_is_two_bytes_a_cell() {
    assert_eq!(std::mem::size_of::<VgaCells>(), 2 * BUFFER_W * BUFFER_H);
    assert_eq!(std::mem::align_of::<VgaCells>(), 1);
}

#[test]
fn new_terminal_starts_in_the_top_left_corner() {
    let terminal = Terminal::new(VgaBuffer::new(memory([b'#', 0x4e])));
    assert_eq!(terminal.row(), 0);
    assert_eq!(terminal.col(), 0);
    assert_eq!(terminal.color(), ColorCode(0x0f));
    assert_eq!(cell(&terminal, 0, 0), VgaChar { ascii: b'#', color: ColorCode(0x4e) });
    assert_eq!(cell(&terminal, 24, 79), VgaChar { ascii: b'#', color: ColorCode(0x4e) });
}

#[test]
fn read_outside_the_display_is_none() {
    let terminal = terminal();
    assert_eq!(terminal.read(BUFFER_H, 0), None);
    assert_eq!(terminal.read(0, BUFFER_W), None);
    assert_eq!(terminal.read(usize::MAX, usize::MAX), None);
    assert!(terminal.read(BUFFER_H - 1, BUFFER_W - 1).is_some());
}

#[test]
fn clear_blanks_every_cell() {
    let mut terminal = Terminal::new(VgaBuffer::new(memory([b'#', 0x4e])));
    terminal.print_str("some text\nand more", ColorCode(0x2a));
    terminal.clear();
    let blank = VgaChar { ascii: b' ', color: ColorCode(0x0f) };
    for row in 0..BUFFER_H {
        for col in 0..BUFFER_W {
            assert_eq!(terminal.read(row, col), Some(blank));
        }
    }
}

#[test]
fn clear_leaves_the_cursor() {
    let mut terminal = terminal();
    terminal.print_str("ab\ncde", plain());
    terminal.clear();
    assert_eq!((terminal.row(), terminal.col()), (1, 3));
    terminal.print_char(b'x', plain());
    assert_eq!(cell(&terminal, 1, 3).ascii, b'x');
}

#[test]
fn clear_twice_is_clear_once() {
    let mut terminal = terminal();
    terminal.print_str("hello", plain());
    terminal.clear();
    let once = snapshot(&terminal);
    let cursor = (terminal.row(), terminal.col());
    terminal.clear();
    assert_eq!(snapshot(&terminal), once);
    assert_eq!((terminal.row(), terminal.col()), cursor);
}

#[test]
fn characters_advance_the_column_and_keep_the_row() {
    let mut terminal = terminal();
    terminal.print_str("\n\n", plain());
    for count in 1..=BUFFER_W {
        terminal.print_char(b'a' + (count % 26) as u8, ColorCode(count as u8));
        assert_eq!(terminal.row(), 2);
        assert_eq!(terminal.col(), count);
    }
    for col in 0..BUFFER_W {
        let count = col + 1;
        assert_eq!(
            cell(&terminal, 2, col),
            VgaChar { ascii: b'a' + (count % 26) as u8, color: ColorCode(count as u8) }
        );
    }
    assert_eq!(row_text(&terminal, 1), padded(""));
    assert_eq!(row_text(&terminal, 3), padded(""));
}

#[test]
fn character_is_written_in_its_color() {
    let mut terminal = terminal();
    let color = ColorCode::new(Color::Blue, Color::Yellow);
    terminal.print_char(b'Z', color);
    assert_eq!(cell(&terminal, 0, 0), VgaChar { ascii: b'Z', color: ColorCode(0x1e) });
    assert_eq!(cell(&terminal, 0, 1), VgaChar { ascii: b' ', color: ColorCode(0x0f) });
}

#[test]
fn full_row_wraps_before_the_next_character() {
    let mut terminal = terminal();
    let line: String = "x".repeat(BUFFER_W);
    terminal.print_str(&line, plain());
    assert_eq!((terminal.row(), terminal.col()), (0, BUFFER_W));
    terminal.print_char(b'y', plain());
    assert_eq!((terminal.row(), terminal.col()), (1, 1));
    assert_eq!(row_text(&terminal, 0), line);
    assert_eq!(row_text(&terminal, 1), padded("y"));
}

#[test]
fn newline_after_a_full_row_leaves_no_empty_row() {
    let mut terminal = terminal();
    terminal.print_str(&"x".repeat(BUFFER_W), plain());
    terminal.print_char(b'\n', plain());
    assert_eq!((terminal.row(), terminal.col()), (1, 0));
}

#[test]
fn long_string_wraps_onto_the_next_row() {
    for extra in [1usize, 7, 40, BUFFER_W] {
        let mut terminal = terminal();
        terminal.print_str("\n\n\n", plain());
        let text: String =
            (0..BUFFER_W + extra).map(|i| (b'A' + (i % 26) as u8) as char).collect();
        terminal.print_str(&text, plain());
        assert_eq!((terminal.row(), terminal.col()), (4, extra));
        assert_eq!(row_text(&terminal, 3), text[..BUFFER_W]);
        assert_eq!(row_text(&terminal, 4)[..extra], text[BUFFER_W..]);
        let read_back = row_text(&terminal, 3) + &row_text(&terminal, 4)[..extra];
        assert_eq!(read_back, text);
        assert_eq!(row_text(&terminal, 4)[extra..], padded("")[extra..]);
        assert_eq!(row_text(&terminal, 2), padded(""));
        assert_eq!(row_text(&terminal, 5), padded(""));
    }
}

#[test]
fn long_string_from_mid_row_wraps_at_the_row_end() {
    let mut terminal = terminal();
    terminal.print_str(&"-".repeat(75), plain());
    terminal.print_str("0123456789", plain());
    assert_eq!((terminal.row(), terminal.col()), (1, 5));
    assert_eq!(row_text(&terminal, 0)[75..], *"01234");
    assert_eq!(row_text(&terminal, 1), padded("56789"));
}

#[test]
fn newline_moves_to_the_start_of_the_next_row() {
    let mut terminal = terminal();
    terminal.print_str("abc", plain());
    terminal.print_char(b'\n', plain());
    assert_eq!((terminal.row(), terminal.col()), (1, 0));
    terminal.new_line();
    assert_eq!((terminal.row(), terminal.col()), (2, 0));
    assert_eq!(row_text(&terminal, 0), padded("abc"));
}

#[test]
fn newline_on_the_last_row_scrolls() {
    let mut terminal = terminal();
    for row in 0..BUFFER_H {
        if row > 0 {
            terminal.print_char(b'\n', plain());
        }
        terminal.print_str(&format!("row {}", row), ColorCode(row as u8 + 1));
    }
    assert_eq!((terminal.row(), terminal.col()), (BUFFER_H - 1, 6));
    terminal.print_char(b'\n', plain());
    assert_eq!((terminal.row(), terminal.col()), (BUFFER_H - 1, 0));
    for row in 0..BUFFER_H - 1 {
        assert_eq!(row_text(&terminal, row), padded(&format!("row {}", row + 1)));
        assert_eq!(cell(&terminal, row, 0).color, ColorCode(row as u8 + 2));
    }
    let blank = VgaChar { ascii: b' ', color: ColorCode(0x0f) };
    for col in 0..BUFFER_W {
        assert_eq!(cell(&terminal, BUFFER_H - 1, col), blank);
    }
}

#[test]
fn wrap_on_the_last_row_scrolls() {
    let mut terminal = terminal();
    for _ in 0..BUFFER_H - 1 {
        terminal.new_line();
    }
    terminal.print_str(&"a".repeat(BUFFER_W), plain());
    assert_eq!((terminal.row(), terminal.col()), (BUFFER_H - 1, BUFFER_W));
    terminal.print_char(b'b', plain());
    assert_eq!((terminal.row(), terminal.col()), (BUFFER_H - 1, 1));
    assert_eq!(row_text(&terminal, BUFFER_H - 2), "a".repeat(BUFFER_W));
    assert_eq!(row_text(&terminal, BUFFER_H - 1), padded("b"));
}

#[test]
fn one_line_more_than_rows_scrolls_the_first_line_off() {
    let mut terminal = terminal();
    for line in 1..=BUFFER_H {
        terminal.print_str(&format!("line {}\n", line), plain());
    }
    terminal.print_str(&format!("line {}", BUFFER_H + 1), plain());
    assert_eq!(row_text(&terminal, 0), padded("line 2"));
    for row in 0..BUFFER_H - 1 {
        assert_eq!(row_text(&terminal, row), padded(&format!("line {}", row + 2)));
    }
    assert_eq!(row_text(&terminal, BUFFER_H - 1), padded("line 26"));
    assert_eq!((terminal.row(), terminal.col()), (BUFFER_H - 1, 7));
}

#[test]
fn last_row_is_blank_when_nothing_follows_the_last_newline() {
    let mut terminal = terminal();
    for line in 1..=BUFFER_H {
        terminal.print_str(&format!("line {}\n", line), plain());
    }
    assert_eq!(row_text(&terminal, 0), padded("line 2"));
    assert_eq!(row_text(&terminal, BUFFER_H - 2), padded("line 25"));
    assert_eq!(row_text(&terminal, BUFFER_H - 1), padded(""));
    assert_eq!((terminal.row(), terminal.col()), (BUFFER_H - 1, 0));
}

#[test]
fn second_scroll_moves_the_second_line_off() {
    let mut terminal = terminal();
    for line in 1..=BUFFER_H + 1 {
        terminal.print_str(&format!("line {}\n", line), plain());
    }
    assert_eq!(row_text(&terminal, 0), padded("line 3"));
    assert_eq!(row_text(&terminal, BUFFER_H - 2), padded("line 26"));
    assert_eq!(row_text(&terminal, BUFFER_H - 1), padded(""));
}

#[test]
fn scroll_blanks_the_last_row_in_the_plain_color() {
    let mut terminal = terminal();
    for _ in 0..BUFFER_H - 1 {
        terminal.new_line();
    }
    terminal.print_str("bottom", ColorCode(0x4e));
    terminal.new_line();
    assert_eq!(cell(&terminal, BUFFER_H - 2, 0), VgaChar { ascii: b'b', color: ColorCode(0x4e) });
    for col in 0..BUFFER_W {
        assert_eq!(
            cell(&terminal, BUFFER_H - 1, col),
            VgaChar { ascii: b' ', color: ColorCode(0x0f) }
        );
    }
}

#[test]
fn tab_at_column_three_goes_to_column_four() {
    let mut terminal = terminal();
    terminal.print_str("abc", plain());
    terminal.print_char(b'\t', plain());
    assert_eq!((terminal.row(), terminal.col()), (0, 4));
    terminal.print_char(b'd', plain());
    assert_eq!(row_text(&terminal, 0), padded("abc d"));
}

#[test]
fn tab_at_column_seventy_eight_wraps() {
    let mut terminal = terminal();
    terminal.print_str(&"a".repeat(78), plain());
    terminal.tab();
    assert_eq!((terminal.row(), terminal.col()), (1, 0));
    terminal.print_str("next", plain());
    assert_eq!(row_text(&terminal, 0), padded(&"a".repeat(78)));
    assert_eq!(row_text(&terminal, 1), padded("next"));
    assert_eq!((terminal.row(), terminal.col()), (1, 4));
}

#[test]
fn tab_goes_to_the_next_multiple_of_four() {
    for start in 0..=BUFFER_W {
        let mut terminal = terminal();
        terminal.print_str(&"a".repeat(start), plain());
        assert_eq!((terminal.row(), terminal.col()), (0, start));
        terminal.tab();
        let stop = (start / 4 + 1) * 4;
        if stop >= BUFFER_W {
            assert_eq!((terminal.row(), terminal.col()), (1, 0));
        } else {
            assert_eq!((terminal.row(), terminal.col()), (0, stop));
            assert_eq!(terminal.col() % 4, 0);
            assert!(terminal.col() > start && terminal.col() <= start + 4);
        }
    }
}

#[test]
fn tab_at_a_tab_stop_goes_to_the_next_one() {
    let mut terminal = terminal();
    terminal.tab();
    assert_eq!(terminal.col(), 4);
    terminal.tab();
    assert_eq!(terminal.col(), 8);
}

#[test]
fn tab_writes_no_cell() {
    let mut terminal = Terminal::new(VgaBuffer::new(memory([b'#', 0x4e])));
    let before = snapshot(&terminal);
    terminal.print_char(b'\t', plain());
    terminal.print_char(b'\n', plain());
    assert_eq!(snapshot(&terminal), before);
}

#[test]
fn tab_on_the_last_row_near_the_end_scrolls() {
    let mut terminal = terminal();
    for _ in 0..BUFFER_H - 1 {
        terminal.new_line();
    }
    terminal.print_str(&"z".repeat(77), plain());
    terminal.tab();
    assert_eq!((terminal.row(), terminal.col()), (BUFFER_H - 1, 0));
    assert_eq!(row_text(&terminal, BUFFER_H - 2), padded(&"z".repeat(77)));
    assert_eq!(row_text(&terminal, BUFFER_H - 1), padded(""));
}

#[test]
fn print_str_handles_newlines_and_tabs_in_order() {
    let mut terminal = terminal();
    terminal.print_str("ab\tc\nd\t\te", plain());
    assert_eq!(row_text(&terminal, 0), padded("ab  c"));
    assert_eq!(row_text(&terminal, 1), padded("d       e"));
    assert_eq!((terminal.row(), terminal.col()), (1, 9));
}

#[test]
fn print_str_is_print_char_byte_by_byte() {
    let text = "one\ttwo\nthree and a rather long tail that goes on and on and on and on and on and on to wrap";
    let mut whole = terminal();
    whole.print_str(text, ColorCode(0x0a));
    let mut single = terminal();
    for byte in text.bytes() {
        single.print_char(byte, ColorCode(0x0a));
    }
    assert_eq!(snapshot(&whole), snapshot(&single));
    assert_eq!((whole.row(), whole.col()), (single.row(), single.col()));
}

#[test]
fn print_str_in_two_parts_is_print_str_of_the_whole() {
    let mut whole = terminal();
    whole.print_str("first part\tand the second\n", plain());
    let mut parts = terminal();
    parts.print_str("first part\tand", plain());
    parts.print_str(" the second\n", plain());
    assert_eq!(snapshot(&whole), snapshot(&parts));
    assert_eq!((whole.row(), whole.col()), (parts.row(), parts.col()));
}

#[test]
fn print_str_writes_every_byte_of_a_wide_character() {
    let mut terminal = terminal();
    terminal.print_str("é", plain());
    assert_eq!(terminal.col(), 2);
    assert_eq!(cell(&terminal, 0, 0).ascii, 0xc3);
    assert_eq!(cell(&terminal, 0, 1).ascii, 0xa9);
}

#[test]
fn empty_string_changes_nothing() {
    let mut terminal = terminal();
    terminal.print_str("abc", plain());
    let before = snapshot(&terminal);
    terminal.print_str("", plain());
    assert_eq!(snapshot(&terminal), before);
    assert_eq!((terminal.row(), terminal.col()), (0, 3));
}

#[test]
fn write_str_uses_the_plain_color_and_succeeds() {
    let mut terminal = terminal();
    assert_eq!(terminal.write_str("I have 5 cats\n"), Ok(()));
    assert_eq!(row_text(&terminal, 0), padded("I have 5 cats"));
    for col in 0..13 {
        assert_eq!(cell(&terminal, 0, col).color, ColorCode(0x0f));
    }
    assert_eq!((terminal.row(), terminal.col()), (1, 0));
}

#[test]
fn formatted_fragments_arrive_in_order() {
    let mut terminal = terminal();
    let rendered = format!("I have {} {}", 5, "cats");
    for fragment in rendered.split_inclusive(' ') {
        assert!(terminal.write_str(fragment).is_ok());
    }
    assert_eq!(row_text(&terminal, 0), padded("I have 5 cats"));
}
