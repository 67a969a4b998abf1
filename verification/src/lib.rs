//! A character-cell display driver for the 80x25 text mode of VGA hardware.
//!
//! The driver turns a stream of bytes into coloured cells of a memory-mapped
//! grid, with line wrapping, tab stops and scrolling. Every function states
//! what it does to a [`Screen`], a mathematical picture of the display.

pub mod buffer;
pub mod color;
pub mod laws;
pub mod logger;
pub mod screen;
pub mod shared;
pub mod terminal;

pub use buffer::{VgaBuffer, VgaCells, VgaChar, BUFFER_H, BUFFER_W};
pub use color::{Color, ColorCode};
pub use logger::{init_logger, InitError, Level, TerminalLogger};
pub use screen::{Screen, NEWLINE, TAB, TAB_W};
pub use shared::{_vga_clear, _vga_print, with_terminal};
pub use terminal::Terminal;
