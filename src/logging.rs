//! Log levels and the logger's configuration, built once and handed to whoever
//! logs.

use vstd::prelude::*;
use crate::http_header::dateable;

verus! {

/// The severity of a log message, from least to most severe.
#[derive(Clone, Copy, Debug)]
pub enum LogLevel {
    Debug,
    Verbose,
    Info,
    Warn,
    Error,
    Fatal,
}

/// The place of a level in the order of severity.
pub open spec fn level_rank(l: LogLevel) -> int {
    match l {
        LogLevel::Debug => 0,
        LogLevel::Verbose => 1,
        LogLevel::Info => 2,
        LogLevel::Warn => 3,
        LogLevel::Error => 4,
        LogLevel::Fatal => 5,
    }
}

/// The level a lower-case name stands for.
pub open spec fn named_level(name: Seq<char>) -> Option<LogLevel> {
    if name == "debug"@ {
        Some(LogLevel::Debug)
    } else if name == "verbose"@ {
        Some(LogLevel::Verbose)
    } else if name == "info"@ {
        Some(LogLevel::Info)
    } else if name == "warn"@ {
        Some(LogLevel::Warn)
    } else if name == "error"@ {
        Some(LogLevel::Error)
    } else if name == "fatal"@ {
        Some(LogLevel::Fatal)
    } else {
        None
    }
}

/// The capitalised name of a level.
pub open spec fn level_title(l: LogLevel) -> Seq<char> {
    match l {
        LogLevel::Debug => "Debug"@,
        LogLevel::Verbose => "Verbose"@,
        LogLevel::Info => "Info"@,
        LogLevel::Warn => "Warn"@,
        LogLevel::Error => "Error"@,
        LogLevel::Fatal => "Fatal"@,
    }
}

/// The lower-case form of a text, as the standard library writes it.
pub uninterp spec fn lower_of(s: Seq<char>) -> Seq<char>;

/// Relies on `str::to_lowercase`: the result depends on the characters alone.
#[verifier::external_body]
fn lowercase(s: &str) -> (r: String)
    ensures
        r@ == lower_of(s@),
{
    s.to_lowercase()
}

/// The level a lower-case name stands for.
pub fn level_named(name: &str) -> (r: Option<LogLevel>)
    ensures
        r == named_level(name@),
{
    let name = String::from_str(name);
    if name == String::from_str("debug") {
        Some(LogLevel::Debug)
    } else if name == String::from_str("verbose") {
        Some(LogLevel::Verbose)
    } else if name == String::from_str("info") {
        Some(LogLevel::Info)
    } else if name == String::from_str("warn") {
        Some(LogLevel::Warn)
    } else if name == String::from_str("error") {
        Some(LogLevel::Error)
    } else if name == String::from_str("fatal") {
        Some(LogLevel::Fatal)
    } else {
        None
    }
}

/// The date and time of a log line, as chrono writes it.
pub uninterp spec fn log_date_text(unix_secs: i64) -> Seq<char>;

/// Relies on chrono's `DateTime::format`: the `%Y-%m-%d %H:%M:%S` text of a Unix
/// time, which `DateTime::from_timestamp` turns into a UTC date. Chrono dates
/// every time from 1970 to the end of 9999.
#[verifier::external_body]
fn log_date(unix_secs: i64) -> (r: Option<String>)
    ensures
        r matches Some(t) ==> t@ == log_date_text(unix_secs),
        dateable(unix_secs) ==> r is Some,
{
    chrono::DateTime::from_timestamp(unix_secs, 0).map(
        |t| t.format("%Y-%m-%d %H:%M:%S").to_string(),
    )
}

/// The coloured tag that marks a level in a log line.
pub open spec fn level_tag(l: LogLevel) -> Seq<char> {
    match l {
        LogLevel::Debug => "\x1B[96;1;1m[DEBUG]\x1B[0m"@,
        LogLevel::Verbose => "\x1B[35;1;1m[VERBOSE]\x1B[0m"@,
        LogLevel::Info => "\x1B[32;1;1m[INFO]\x1B[0m"@,
        LogLevel::Warn => "\x1B[33;1;1m[WARN]\x1B[0m"@,
        LogLevel::Error => "\x1B[31;1;1m[ERROR]\x1B[0m"@,
        LogLevel::Fatal => "\x1B[31;1;5;7m[FATAL]\x1B[0m"@,
    }
}

impl LogLevel {
    /// The place of this level in the order of severity.
    pub fn rank(&self) -> (r: u8)
        ensures
            r == level_rank(*self),
    {
        match self {
            LogLevel::Debug => 0,
            LogLevel::Verbose => 1,
            LogLevel::Info => 2,
            LogLevel::Warn => 3,
            LogLevel::Error => 4,
            LogLevel::Fatal => 5,
        }
    }

    /// The level a name stands for, in any case.
    pub fn from_str(level: &str) -> (r: Result<LogLevel, String>)
        ensures
            match r {
                Ok(l) => named_level(lower_of(level@)) == Some(l),
                Err(m) => named_level(lower_of(level@)) is None && m@ == "Invalid log level: "@
                    + level@,
            },
    {
        let name = lowercase(level);
        match level_named(name.as_str()) {
            Some(l) => Ok(l),
            None => Err(String::from_str("Invalid log level: ").concat(level)),
        }
    }

    /// The lower-case name of this level, as log settings write it.
    pub fn name(&self) -> (r: &'static str)
        ensures
            named_level(r@) == Some(*self),
    {
        proof {
            reveal_strlit("debug");
            reveal_strlit("verbose");
            reveal_strlit("info");
            reveal_strlit("warn");
            reveal_strlit("error");
            reveal_strlit("fatal");
            assert("info"@[0] != "warn"@[0]);
            assert("debug"@[0] != "error"@[0] && "debug"@[0] != "fatal"@[0]);
            assert("error"@[0] != "fatal"@[0]);
        }
        match self {
            LogLevel::Debug => "debug",
            LogLevel::Verbose => "verbose",
            LogLevel::Info => "info",
            LogLevel::Warn => "warn",
            LogLevel::Error => "error",
            LogLevel::Fatal => "fatal",
        }
    }

    /// The capitalised name of this level.
    pub fn to_string(&self) -> (r: String)
        ensures
            r@ == level_title(*self),
    {
        let name = match self {
            LogLevel::Debug => "Debug",
            LogLevel::Verbose => "Verbose",
            LogLevel::Info => "Info",
            LogLevel::Warn => "Warn",
            LogLevel::Error => "Error",
            LogLevel::Fatal => "Fatal",
        };
        String::from_str(name)
    }
}

impl PartialEq for LogLevel {
    fn eq(&self, other: &LogLevel) -> (r: bool)
        ensures
            r == (level_rank(*self) == level_rank(*other)),
    {
        self.rank() == other.rank()
    }
}

impl vstd::std_specs::cmp::PartialEqSpecImpl for LogLevel {
    open spec fn obeys_eq_spec() -> bool {
        true
    }

    open spec fn eq_spec(&self, other: &LogLevel) -> bool {
        level_rank(*self) == level_rank(*other)
    }
}

/// The order of two levels by severity.
pub open spec fn level_cmp(a: LogLevel, b: LogLevel) -> Option<std::cmp::Ordering> {
    if level_rank(a) < level_rank(b) {
        Some(std::cmp::Ordering::Less)
    } else if level_rank(a) == level_rank(b) {
        Some(std::cmp::Ordering::Equal)
    } else {
        Some(std::cmp::Ordering::Greater)
    }
}

impl PartialOrd for LogLevel {
    fn partial_cmp(&self, other: &LogLevel) -> (r: Option<std::cmp::Ordering>)
        ensures
            r == level_cmp(*self, *other),
    {
        let a = self.rank();
        let b = other.rank();
        if a < b {
            Some(std::cmp::Ordering::Less)
        } else if a == b {
            Some(std::cmp::Ordering::Equal)
        } else {
            Some(std::cmp::Ordering::Greater)
        }
    }
}

impl vstd::std_specs::cmp::PartialOrdSpecImpl for LogLevel {
    open spec fn obeys_partial_cmp_spec() -> bool {
        true
    }

    open spec fn partial_cmp_spec(&self, other: &LogLevel) -> Option<std::cmp::Ordering> {
        level_cmp(*self, *other)
    }
}

/// The settings of the logger while they are being chosen.
pub struct Builder {
    pub level: LogLevel,
    pub write_to_console: bool,
    pub write_to_file: bool,
    pub file_path: String,
}

/// The logger's settings, fixed once built.
pub struct Logger {
    /// The least severe level that is written.
    pub level: LogLevel,
    pub write_to_console: bool,
    pub write_to_file: bool,
    pub file_path: String,
}

impl Logger {
    /// Whether a message of level `level` is written.
    pub fn enabled(&self, level: LogLevel) -> (r: bool)
        ensures
            r == (level_rank(level) >= level_rank(self.level)),
    {
        level.rank() >= self.level.rank()
    }

    /// The line that logs `message` at `level` at the Unix time `now`.
    pub fn line(&self, level: LogLevel, now: i64, message: &str) -> (r: String)
        requires
            dateable(now),
        ensures
            r@ == log_date_text(now) + " "@ + level_tag(level) + "\t"@ + message@,
    {
        let tag = match level {
            LogLevel::Debug => "\x1B[96;1;1m[DEBUG]\x1B[0m",
            LogLevel::Verbose => "\x1B[35;1;1m[VERBOSE]\x1B[0m",
            LogLevel::Info => "\x1B[32;1;1m[INFO]\x1B[0m",
            LogLevel::Warn => "\x1B[33;1;1m[WARN]\x1B[0m",
            LogLevel::Error => "\x1B[31;1;1m[ERROR]\x1B[0m",
            LogLevel::Fatal => "\x1B[31;1;5;7m[FATAL]\x1B[0m",
        };
        let mut out = match log_date(now) {
            Some(d) => d,
            None => String::new(),
        };
        out.append(" ");
        out.append(tag);
        out.append("\t");
        out.append(message);
        out
    }
}

impl Builder {
    /// The default settings: `Info` and above, to the console only.
    pub fn new() -> (r: Self)
        ensures
            r.level == LogLevel::Info,
            r.write_to_console,
            !r.write_to_file,
            r.file_path@ == Seq::<char>::empty(),
    {
        Builder {
            level: LogLevel::Info,
            write_to_console: true,
            write_to_file: false,
            file_path: String::new(),
        }
    }

    pub fn level(&mut self, level: LogLevel) -> (r: &Builder)
        ensures
            final(self).level == level,
            final(self).write_to_console == old(self).write_to_console,
            final(self).write_to_file == old(self).write_to_file,
            final(self).file_path == old(self).file_path,
            *r == *final(self),
    {
        self.level = level;
        self
    }

    pub fn write_to_console(&mut self, write_to_console: bool) -> (r: &Builder)
        ensures
            final(self).level == old(self).level,
            final(self).write_to_console == write_to_console,
            final(self).write_to_file == old(self).write_to_file,
            final(self).file_path == old(self).file_path,
            *r == *final(self),
    {
        self.write_to_console = write_to_console;
        self
    }

    pub fn write_to_file(&mut self, write_to_file: bool) -> (r: &Builder)
        ensures
            final(self).level == old(self).level,
            final(self).write_to_console == old(self).write_to_console,
            final(self).write_to_file == write_to_file,
            final(self).file_path == old(self).file_path,
            *r == *final(self),
    {
        self.write_to_file = write_to_file;
        self
    }

    pub fn file_path(&mut self, file_path: &str) -> (r: &Builder)
        ensures
            final(self).level == old(self).level,
            final(self).write_to_console == old(self).write_to_console,
            final(self).write_to_file == old(self).write_to_file,
            final(self).file_path@ == file_path@,
            *r == *final(self),
    {
        self.file_path = String::from_str(file_path);
        self
    }

    /// The settings chosen, as the logger that components are handed.
    pub fn build(&self) -> (r: Logger)
        ensures
            r.level == self.level,
            r.write_to_console == self.write_to_console,
            r.write_to_file == self.write_to_file,
            r.file_path == self.file_path,
    {
        Logger {
            level: self.level,
            write_to_console: self.write_to_console,
            write_to_file: self.write_to_file,
            file_path: self.file_path.clone(),
        }
    }
}

} // verus!
