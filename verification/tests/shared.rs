use spin::Mutex;
use vga_terminal::{
    _vga_clear, _vga_print, with_terminal, ColorCode, Terminal, VgaBuffer, VgaCells, VgaChar, BUFFER_H,
    BUFFER_W,
};
use volatile::Volatile;

fn shared_terminal() -> Mutex<Terminal> {
    let cells: VgaCells =
        std::array::from_fn(|_| std::array::from_fn(|_| Volatile::new([b'?', 0x70])));
    let mut terminal = Terminal::new(VgaBuffer::new(Box::leak(Box::new(cells))));
    terminal.clear();
    Mutex::new(terminal)
}

fn row_of(terminal: &Terminal, row: usize) -> String {
    (0..BUFFER_W).map(|col| terminal.read(row, col).unwrap().ascii as char).collect::<String>()
        .trim_end().to_string()
}

#[test]
fn with_terminal_hands_back_what_the_closure_returns() {
    let shared = shared_terminal();
    let cursor = with_terminal(&shared, |terminal: &mut Terminal| {
        terminal.print_str("abc\nde", ColorCode::plain());
        (terminal.row(), terminal.col())
    });
    assert_eq!(cursor, (1, 2));
}

#[test]
fn with_terminal_keeps_the_state_between_calls() {
    let shared = shared_terminal();
    with_terminal(&shared, |terminal: &mut Terminal| terminal.print_str("one ", ColorCode(0x0f)));
    with_terminal(&shared, |terminal: &mut Terminal| terminal.print_str("two", ColorCode(0x0f)));
    let text = with_terminal(&shared, |terminal: &mut Terminal| row_of(terminal, 0));
    assert_eq!(text, "one two");
}

#[test]
fn with_terminal_releases_the_lock() {
    let shared = shared_terminal();
    with_terminal(&shared, |terminal: &mut Terminal| terminal.new_line());
    assert!(shared.try_lock().is_some());
    with_terminal(&shared, |terminal: &mut Terminal| terminal.new_line());
    assert_eq!(shared.lock().row(), 2);
}

#[test]
fn with_terminal_holds_the_lock_while_the_closure_runs() {
    let shared = shared_terminal();
    let free = with_terminal(&shared, |_: &mut Terminal| shared.try_lock().is_some());
    assert!(!free);
}

#[test]
fn vga_clear_blanks_the_shared_display() {
    let shared = shared_terminal();
    with_terminal(&shared, |terminal: &mut Terminal| {
        terminal.print_str("to be removed", ColorCode(0x4e))
    });
    _vga_clear(&shared);
    let terminal = shared.lock();
    for row in 0..BUFFER_H {
        for col in 0..BUFFER_W {
            assert_eq!(
                terminal.read(row, col),
                Some(VgaChar { ascii: b' ', color: ColorCode(0x0f) })
            );
        }
    }
    assert_eq!((terminal.row(), terminal.col()), (0, 13));
}

#[test]
fn messages_of_alternating_writers_do_not_interleave() {
    let shared = shared_terminal();
    let writers: [&str; 4] = ["aaaaaaaaaaaa", "bbbbbbbbbbbb", "cccccccccccc", "dddddddddddd"];
    for turn in 0..20 {
        let message = writers[(turn * 3) % 4];
        with_terminal(&shared, |terminal: &mut Terminal| {
            for byte in message.bytes() {
                assert!(shared.try_lock().is_none());
                terminal.print_char(byte, ColorCode(0x0f));
            }
            terminal.new_line();
        });
    }
    let terminal = shared.lock();
    assert_eq!((terminal.row(), terminal.col()), (20, 0));
    let mut counts = [0usize; 4];
    for row in 0..20 {
        let text = row_of(&terminal, row);
        let writer = writers.iter().position(|message| *message == text);
        assert!(writer.is_some(), "row {} holds {:?}", row, text);
        counts[writer.unwrap()] += 1;
    }
    assert_eq!(counts, [5, 5, 5, 5]);
}

#[test]
fn vga_print_writes_the_message_in_the_plain_color() {
    let shared = shared_terminal();
    _vga_print(&shared, &format!("I have {} {}\n", 5, "cats"));
    _vga_print(&shared, "next");
    let terminal = shared.lock();
    assert_eq!(row_of(&terminal, 0), "I have 5 cats");
    assert_eq!(row_of(&terminal, 1), "next");
    for col in 0..13 {
        assert_eq!(terminal.read(0, col).unwrap().color, ColorCode(0x0f));
    }
    assert_eq!((terminal.row(), terminal.col()), (1, 4));
}

#[test]
fn vga_print_releases_the_lock() {
    let shared = shared_terminal();
    _vga_print(&shared, "held only while printing");
    assert!(shared.try_lock().is_some());
    _vga_clear(&shared);
    assert!(shared.try_lock().is_some());
}
