//! The logger and the standard output. Whatever the interpreter writes, the
//! lines of its log and the lines that a program prints, is appended to one
//! record in the order in which it is written; the caller of the library
//! sends the record to the terminal.

use vstd::prelude::*;
use vstd::string::StringExecFns;

verus! {

/// A level of the log. As the setting of a logger it says how much is
/// written; as the level of a message it says what kind of message it is.
#[derive(Debug, Clone, Copy, PartialEq, Eq, Structural)]
pub enum Level {
    Info,
    Debug,
    Warn,
    Off,
}

impl Level {
    /// Whether a logger with the setting `self` writes a message of the
    /// level `message`: milestones at every setting but `Off`, traces at
    /// `Debug` and `Warn`, warnings at `Warn` only.
    pub open spec fn shows(self, message: Level) -> bool {
        match message {
            Level::Info => self == Level::Info || self == Level::Debug || self == Level::Warn,
            Level::Debug => self == Level::Debug || self == Level::Warn,
            Level::Warn => self == Level::Warn,
            Level::Off => false,
        }
    }

    /// What stands before a message of this level.
    pub open spec fn tag(self) -> Seq<char> {
        match self {
            Level::Info => "[INFO] "@,
            Level::Debug => "[DEBUG] "@,
            Level::Warn => "[WARN] "@,
            Level::Off => ""@,
        }
    }
}

/// The output after a logger with the setting `setting` was asked to write
/// `message` at the level `level`: one line more where that level is shown,
/// and the same output where it is not.
pub open spec fn logged(
    setting: Level,
    output: Seq<Seq<char>>,
    level: Level,
    message: Seq<char>,
) -> Seq<Seq<char>> {
    if setting.shows(level) {
        output.push(level.tag() + message)
    } else {
        output
    }
}

/// The lines of a list of strings.
pub open spec fn lines_of(output: Seq<String>) -> Seq<Seq<char>> {
    Seq::new(output.len(), |i: int| output[i]@)
}

/// The logger: its setting, and the lines written to the standard output so
/// far, those that programs print among them.
pub struct Logger {
    pub level: Level,
    pub output: Vec<String>,
}

/// The model of a logger.
pub struct LoggerView {
    pub level: Level,
    pub output: Seq<Seq<char>>,
}

impl View for Logger {
    type V = LoggerView;

    open spec fn view(&self) -> LoggerView {
        LoggerView { level: self.level, output: lines_of(self.output@) }
    }
}

impl Logger {
    /// A logger with the given setting that has written nothing.
    pub fn new(level: Level) -> (r: Logger)
        ensures
            r@ == (LoggerView { level, output: Seq::empty() }),
    {
        let r = Logger { level, output: Vec::new() };
        assert(r@.output =~= Seq::empty());
        r
    }

    /// Writes one line to the output, whatever the setting.
    pub fn print(&mut self, line: String)
        ensures
            final(self)@ == (LoggerView {
                level: old(self)@.level,
                output: old(self)@.output.push(line@),
            }),
    {
        self.output.push(line);
        assert(self@.output =~= old(self)@.output.push(line@));
    }

    /// Writes `message` at the level `level`, where the setting shows it.
    pub fn log(&mut self, level: Level, message: &str)
        ensures
            final(self)@ == (LoggerView {
                level: old(self)@.level,
                output: logged(old(self)@.level, old(self)@.output, level, message@),
            }),
    {
        match level {
            Level::Info => {
                if self.level == Level::Info || self.level == Level::Debug || self.level
                    == Level::Warn {
                    let mut line = "[INFO] ".to_owned();
                    line.append(message);
                    self.print(line);
                }
            },
            Level::Debug => {
                if self.level == Level::Debug || self.level == Level::Warn {
                    let mut line = "[DEBUG] ".to_owned();
                    line.append(message);
                    self.print(line);
                }
            },
            Level::Warn => {
                if self.level == Level::Warn {
                    let mut line = "[WARN] ".to_owned();
                    line.append(message);
                    self.print(line);
                }
            },
            Level::Off => {},
        }
    }

    /// Writes a milestone of the pipeline.
    pub fn info(&mut self, message: &str)
        ensures
            final(self)@ == (LoggerView {
                level: old(self)@.level,
                output: logged(old(self)@.level, old(self)@.output, Level::Info, message@),
            }),
    {
        self.log(Level::Info, message);
    }

    /// Writes a trace.
    pub fn debug(&mut self, message: &str)
        ensures
            final(self)@ == (LoggerView {
                level: old(self)@.level,
                output: logged(old(self)@.level, old(self)@.output, Level::Debug, message@),
            }),
    {
        self.log(Level::Debug, message);
    }

    /// Writes a warning.
    pub fn warn(&mut self, message: &str)
        ensures
            final(self)@ == (LoggerView {
                level: old(self)@.level,
                output: logged(old(self)@.level, old(self)@.output, Level::Warn, message@),
            }),
    {
        self.log(Level::Warn, message);
    }
}

} // verus!
