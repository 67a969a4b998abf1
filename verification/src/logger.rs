//! The terminal as the sink of a logging facade: records with a coloured
//! label for their level.

use vstd::prelude::*;
use vstd::string::StringSliceAdditionalSpecFns;
use spin::Mutex;
use crate::color::{Color, ColorCode};
use crate::screen::{Screen, NEWLINE};
use crate::shared::with_terminal;
use crate::terminal::Terminal;

verus! {

/// The severity of a log record, the most severe first.
#[derive(Copy, Clone, Debug, PartialEq, Eq, Structural)]
pub enum Level {
    Error,
    Warn,
    Info,
    Debug,
    Trace,
}

impl Level {
    /// The label of a level: its name in capitals, filled to five
    /// characters with a space.
    pub open spec fn spec_label(self) -> &'static str {
        match self {
            Level::Error => "ERROR",
            Level::Warn => "WARN ",
            Level::Info => "INFO ",
            Level::Debug => "DEBUG",
            Level::Trace => "TRACE",
        }
    }

    /// The label of a level.
    #[verifier::when_used_as_spec(spec_label)]
    pub fn label(self) -> (text: &'static str)
        ensures
            text == self.spec_label(),
    {
        match self {
            Level::Error => "ERROR",
            Level::Warn => "WARN ",
            Level::Info => "INFO ",
            Level::Debug => "DEBUG",
            Level::Trace => "TRACE",
        }
    }

    /// The foreground of a level's label: red for errors, yellow for
    /// warnings, white for information, green for debugging, blue for
    /// traces.
    pub open spec fn foreground(self) -> Color {
        match self {
            Level::Error => Color::Red,
            Level::Warn => Color::Yellow,
            Level::Info => Color::White,
            Level::Debug => Color::Green,
            Level::Trace => Color::Blue,
        }
    }

    /// The colour of a level's label: its foreground on black.
    pub open spec fn spec_color(self) -> ColorCode {
        ColorCode::new(Color::Black, self.foreground())
    }

    /// The colour of a level's label. For information it is the colour of
    /// plain text.
    #[verifier::when_used_as_spec(spec_color)]
    pub fn color(self) -> (code: ColorCode)
        ensures
            code == self.spec_color(),
            self is Info ==> code == ColorCode::plain(),
    {
        match self {
            Level::Error => ColorCode::new(Color::Black, Color::Red),
            Level::Warn => ColorCode::new(Color::Black, Color::Yellow),
            Level::Info => ColorCode::new(Color::Black, Color::White),
            Level::Debug => ColorCode::new(Color::Black, Color::Green),
            Level::Trace => ColorCode::new(Color::Black, Color::Blue),
        }
    }
}

impl Screen {
    /// The head of a log record on the screen: `[`, the label of the level
    /// in the colour of the level, and `]: `, the brackets in the colour of
    /// plain text.
    pub open spec fn log_label(self, level: Level) -> Screen {
        self.print_str("[".spec_bytes(), self.color).print_str(
            level.label().spec_bytes(),
            level.color(),
        ).print_str("]: ".spec_bytes(), self.color)
    }

    /// A log record on the screen: its head, the message and a newline, the
    /// message and the newline in the colour of plain text.
    pub open spec fn log(self, level: Level, message: Seq<u8>) -> Screen {
        self.log_label(level).print_str(message, self.color).print_char(NEWLINE, self.color)
    }
}

/// The logger that writes records to a terminal.
pub struct TerminalLogger;

impl TerminalLogger {
    /// Whether the logger asks for records of a level: it does for errors,
    /// warnings and information, and does not for debugging and traces.
    pub open spec fn spec_enabled(&self, level: Level) -> bool {
        level is Error || level is Warn || level is Info
    }

    /// Whether the logger asks for records of a level. This is its answer
    /// to the facade; a record that is handed over is written whatever its
    /// level.
    #[verifier::when_used_as_spec(spec_enabled)]
    pub fn enabled(&self, level: Level) -> (yes: bool)
        ensures
            yes == self.spec_enabled(level),
    {
        match level {
            Level::Error | Level::Warn | Level::Info => true,
            Level::Debug | Level::Trace => false,
        }
    }

    /// Writes the head of a record to a terminal that the caller holds:
    /// the label of the level in brackets and in the colour of the level.
    /// The caller writes the message and the newline behind it.
    pub fn write_label(&self, terminal: &mut Terminal, level: Level)
        ensures
            final(terminal)@ == old(terminal)@.log_label(level),
            final(terminal)@.wf(),
            final(terminal)@.color == ColorCode::plain(),
    {
        let plain: ColorCode = terminal.color();
        terminal.print_str("[", plain);
        terminal.print_str(level.label(), level.color());
        terminal.print_str("]: ", plain);
    }

    /// Writes a record of any level to a terminal that the caller holds.
    pub fn write(&self, terminal: &mut Terminal, level: Level, message: &str)
        ensures
            final(terminal)@ == old(terminal)@.log(level, message.spec_bytes()),
            final(terminal)@.wf(),
            final(terminal)@.color == ColorCode::plain(),
    {
        let plain: ColorCode = terminal.color();
        self.write_label(terminal, level);
        terminal.print_str(message, plain);
        terminal.print_char(NEWLINE, plain);
    }

    /// Writes a record of any level to the shared terminal, under its lock.
    pub fn log(&self, terminal: &Mutex<Terminal>, level: Level, message: &str) {
        with_terminal(
            terminal,
            |shared: &mut Terminal|
                {
                    self.write(shared, level, message);
                },
        );
    }
}

/// `log::SetLoggerError`, which `log::set_logger` returns where a logger
/// has been registered before.
#[verifier::external_type_specification]
#[verifier::external_body]
pub struct ExSetLoggerError(log::SetLoggerError);

/// Why the logger could not be set up.
#[derive(Copy, Clone, Debug, PartialEq, Eq, Structural)]
pub enum InitError {
    /// Another logger has been registered with the facade before.
    AlreadyRegistered,
}

/// `log::set_max_level`: stores the level as the most verbose one that the
/// facade passes on to the logger.
#[verifier::external_body]
fn set_max_level(level: Level) {
    log::set_max_level(
        match level {
            Level::Error => log::LevelFilter::Error,
            Level::Warn => log::LevelFilter::Warn,
            Level::Info => log::LevelFilter::Info,
            Level::Debug => log::LevelFilter::Debug,
            Level::Trace => log::LevelFilter::Trace,
        },
    )
}

/// Completes the set-up of logging, given what registering the logger with
/// the facade has returned. Where the logger was registered, the facade is
/// told to pass on records up to `Level::Info`; where it was refused,
/// nothing is changed and the refusal is reported.
pub fn init_logger(registered: Result<(), log::SetLoggerError>) -> (result: Result<(), InitError>)
    ensures
        registered is Ok ==> result == Ok::<(), InitError>(()),
        registered is Err ==> result == Err::<(), InitError>(InitError::AlreadyRegistered),
{
    match registered {
        Ok(()) => {
            set_max_level(Level::Info);
            Ok(())
        },
        Err(_) => Err(InitError::AlreadyRegistered),
    }
}

} // verus!
