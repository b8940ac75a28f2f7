//! The decisions of the logger: its configuration, which levels each
//! output accepts, how an entry is written and when the log file is
//! rotated. The runtime owns the channels, threads and files.
use vstd::prelude::*;
use vstd::string::*;
use crate::text::concat2;
use crate::clock::clock_reading;

verus! {

/// Log levels, from the most to the least severe.
#[derive(Debug, Clone, Copy, PartialEq, Eq, PartialOrd, Ord, Hash, Structural)]
pub enum LogLevel {
    /// Very serious errors.
    Error,
    /// Hazardous situations.
    Warn,
    /// Useful information.
    Info,
    /// Lower priority information.
    Debug,
    /// Very low priority, often extremely verbose, information.
    Trace,
}

/// The severity rank of a level: 1 for `Error` up to 5 for `Trace`.
pub open spec fn level_rank(l: LogLevel) -> nat {
    match l {
        LogLevel::Error => 1,
        LogLevel::Warn => 2,
        LogLevel::Info => 3,
        LogLevel::Debug => 4,
        LogLevel::Trace => 5,
    }
}

/// The name of a level as written in a log line.
pub open spec fn level_name(l: LogLevel) -> Seq<char> {
    match l {
        LogLevel::Error => "ERROR"@,
        LogLevel::Warn => "WARN"@,
        LogLevel::Info => "INFO"@,
        LogLevel::Debug => "DEBUG"@,
        LogLevel::Trace => "TRACE"@,
    }
}

impl LogLevel {
    /// The severity rank, 1 (`Error`) to 5 (`Trace`).
    pub fn rank(&self) -> (r: u8)
        ensures
            r == level_rank(*self),
    {
        match self {
            LogLevel::Error => 1,
            LogLevel::Warn => 2,
            LogLevel::Info => 3,
            LogLevel::Debug => 4,
            LogLevel::Trace => 5,
        }
    }

    /// The name of the level, such as `"INFO"`.
    pub fn as_str(&self) -> (s: &'static str)
        ensures
            s@ == level_name(*self),
    {
        let s = match self {
            LogLevel::Error => "ERROR",
            LogLevel::Warn => "WARN",
            LogLevel::Info => "INFO",
            LogLevel::Debug => "DEBUG",
            LogLevel::Trace => "TRACE",
        };
        proof {
            reveal_strlit("ERROR");
            reveal_strlit("WARN");
            reveal_strlit("INFO");
            reveal_strlit("DEBUG");
            reveal_strlit("TRACE");
        }
        s
    }
}

/// Whether an output with threshold `threshold` writes an entry of
/// `level`: the output is enabled and the entry at least as severe.
pub open spec fn accepted(threshold: Option<LogLevel>, level: LogLevel) -> bool {
    match threshold {
        Some(t) => level_rank(level) <= level_rank(t),
        None => false,
    }
}

/// Whether an output with threshold `threshold` writes an entry of `level`.
pub fn accepts(threshold: Option<LogLevel>, level: LogLevel) -> (b: bool)
    ensures
        b == accepted(threshold, level),
{
    match threshold {
        Some(t) => level.rank() <= t.rank(),
        None => false,
    }
}

/// Logger configuration. Sizes are in bytes, intervals in milliseconds; a
/// level of `None` turns that output off.
#[derive(Debug, Clone)]
pub struct LoggerConfig {
    /// Application name, which names the log file.
    pub app_name: String,
    /// Size at which the log file is rotated.
    pub max_file_size: u64,
    /// Whether a rotated log file is kept as a backup.
    pub use_backup: bool,
    /// Log check interval.
    pub check_interval: u64,
    /// Directory of the log files.
    pub log_dir: String,
    /// Level of the file output.
    pub file_level: Option<LogLevel>,
    /// Level of the console output.
    pub console_level: Option<LogLevel>,
    /// Level of the callback output.
    pub callback_level: Option<LogLevel>,
}

impl Default for LoggerConfig {
    /// Application `"application"`, files of 10 MiB kept as a backup when
    /// rotated, a check every 100 ms, directory `"logs"`, file and console
    /// at `Info`, no callback output.
    fn default() -> (c: Self)
        ensures
            c.app_name@ == "application"@,
            c.max_file_size == 10 * 1024 * 1024,
            c.use_backup,
            c.check_interval == 100,
            c.log_dir@ == "logs"@,
            c.file_level == Some(LogLevel::Info),
            c.console_level == Some(LogLevel::Info),
            c.callback_level == None::<LogLevel>,
    {
        LoggerConfig {
            app_name: String::from_str("application"),
            max_file_size: 10 * 1024 * 1024,
            use_backup: true,
            check_interval: 100,
            log_dir: String::from_str("logs"),
            file_level: Some(LogLevel::Info),
            console_level: Some(LogLevel::Info),
            callback_level: None,
        }
    }
}

/// The outputs that write an entry.
#[derive(Debug, Clone, Copy, PartialEq, Eq, Structural)]
pub struct LogRoute {
    /// Whether the console writes it.
    pub console: bool,
    /// Whether the log file gets it.
    pub file: bool,
    /// Whether the callback gets it.
    pub callback: bool,
}

/// The outputs of `config` that write an entry of `level`; the callback
/// output also needs a callback to be set.
pub fn route(config: &LoggerConfig, level: LogLevel, has_callback: bool) -> (r: LogRoute)
    ensures
        r.console == accepted(config.console_level, level),
        r.file == accepted(config.file_level, level),
        r.callback == (has_callback && accepted(config.callback_level, level)),
{
    LogRoute {
        console: accepts(config.console_level, level),
        file: accepts(config.file_level, level),
        callback: has_callback && accepts(config.callback_level, level),
    }
}

/// What happens to the log file before a line is written.
#[derive(Debug, Clone, Copy, PartialEq, Eq, Structural)]
pub enum Rotation {
    /// The line fits: write it to the current file.
    Keep,
    /// Rename the file to the backup name, then start a new one.
    Backup,
    /// Remove the file, then start a new one.
    Remove,
}

/// The rotation before writing a line of `line_size` bytes to a file of
/// `current_size` bytes: the file is rotated when the line would take it
/// past `max_file_size`.
pub fn rotation_for(current_size: u64, line_size: u64, max_file_size: u64, use_backup: bool) -> (r: Rotation)
    requires
        current_size + line_size <= u64::MAX,
    ensures
        r == (if current_size + line_size > max_file_size {
            if use_backup { Rotation::Backup } else { Rotation::Remove }
        } else {
            Rotation::Keep
        }),
{
    if current_size + line_size > max_file_size {
        if use_backup { Rotation::Backup } else { Rotation::Remove }
    } else {
        Rotation::Keep
    }
}

/// The name of the log file of application `app`.
pub fn log_file_name(app: &str) -> (s: String)
    ensures
        s@ == app@ + ".log"@,
{
    concat2(app, ".log")
}

/// The name of the backup of the log file of application `app`.
pub fn backup_file_name(app: &str) -> (s: String)
    ensures
        s@ == app@ + ".log.bak"@,
{
    concat2(app, ".log.bak")
}

/// The pattern of log timestamps: date, time and microseconds.
pub open spec fn log_time_pattern() -> Seq<char> {
    "%Y-%m-%d %H:%M:%S%.6f"@
}

/// The UTC time `secs` seconds and `nanos` nanoseconds after the Unix
/// epoch, formatted by chrono with the pattern `pattern`; `None` where
/// chrono has no such time.
pub uninterp spec fn utc_formatted(secs: i64, nanos: u32, pattern: Seq<char>) -> Option<Seq<char>>;

/// Calls `chrono::DateTime::from_timestamp` and formats the UTC time with
/// `format(pattern).to_string()`. The text is named by `utc_formatted`, and
/// is `None` exactly where `from_timestamp` gives `None`. Only the pattern
/// of log timestamps is admitted: `to_string` panics on a pattern chrono
/// cannot write, and that one it always can.
#[verifier::external_body]
fn utc_text_at(secs: i64, nanos: u32, pattern: &str) -> (s: Option<String>)
    requires
        pattern@ == log_time_pattern(),
    ensures
        s is None <==> utc_formatted(secs, nanos, pattern@) is None,
        s matches Some(t) ==> utc_formatted(secs, nanos, pattern@) == Some(t@),
{
    match chrono::DateTime::from_timestamp(secs, nanos) {
        Some(t) => Some(t.format(pattern).to_string()),
        None => None,
    }
}

/// The log timestamp of a clock reading: its UTC time in the pattern of
/// log timestamps, or the empty text where the clock reads before the Unix
/// epoch or beyond chrono's range.
pub open spec fn reading_log_time(reading: Option<(u64, u32)>) -> Seq<char> {
    match reading {
        Some(d) => if d.0 <= i64::MAX as u64 {
            match utc_formatted(d.0 as i64, d.1, log_time_pattern()) {
                Some(t) => t,
                None => Seq::empty(),
            }
        } else {
            Seq::empty()
        },
        None => Seq::empty(),
    }
}

/// The log timestamp of the clock reading `reading`. Timestamps are written
/// in UTC: reading the machine's time zone goes through chrono's local-zone
/// lookup, which panics on zone data it cannot use.
pub fn log_timestamp_of(reading: Option<(u64, u32)>) -> (s: String)
    ensures
        s@ == reading_log_time(reading),
{
    match reading {
        Some((secs, nanos)) => {
            if secs <= i64::MAX as u64 {
                let pattern = "%Y-%m-%d %H:%M:%S%.6f";
                proof { reveal_strlit("%Y-%m-%d %H:%M:%S%.6f"); }
                match utc_text_at(secs as i64, nanos, pattern) {
                    Some(t) => t,
                    None => String::new(),
                }
            } else {
                String::new()
            }
        },
        None => String::new(),
    }
}

/// The line of an entry.
pub open spec fn entry_line(timestamp: Seq<char>, level: LogLevel, message: Seq<char>) -> Seq<char> {
    "["@ + timestamp + "]["@ + level_name(level) + "] "@ + message
}

/// A log entry: its message, level and the time it was made.
#[derive(Debug, Clone)]
pub struct LogEntry {
    message: String,
    level: LogLevel,
    timestamp: String,
}

impl LogEntry {
    /// The message of the entry.
    pub closed spec fn text(self) -> Seq<char> {
        self.message@
    }

    /// The level of the entry.
    pub closed spec fn severity(self) -> LogLevel {
        self.level
    }

    /// The time of the entry as written.
    pub closed spec fn stamp(self) -> Seq<char> {
        self.timestamp@
    }

    /// An entry made at the time written `timestamp`.
    pub fn with_timestamp(message: &str, level: LogLevel, timestamp: &str) -> (e: Self)
        ensures
            e.text() == message@,
            e.severity() == level,
            e.stamp() == timestamp@,
    {
        LogEntry {
            message: String::from_str(message),
            level,
            timestamp: String::from_str(timestamp),
        }
    }

    /// An entry made now, stamped with the log timestamp of the clock.
    pub fn new(message: &str, level: LogLevel) -> (e: Self)
        ensures
            e.text() == message@,
            e.severity() == level,
            exists|reading: Option<(u64, u32)>| e.stamp() == #[trigger] reading_log_time(reading),
    {
        let ts = log_timestamp_of(clock_reading());
        Self::with_timestamp(message, level, ts.as_str())
    }

    /// The message.
    pub fn message(&self) -> (m: &str)
        ensures
            m@ == self.text(),
    {
        self.message.as_str()
    }

    /// The level.
    pub fn level(&self) -> (l: LogLevel)
        ensures
            l == self.severity(),
    {
        self.level
    }

    /// The time of the entry as written.
    pub fn timestamp(&self) -> (t: &str)
        ensures
            t@ == self.stamp(),
    {
        self.timestamp.as_str()
    }

    /// The line written for the entry: `"[<time>][<LEVEL>] <message>"`.
    pub fn format(&self) -> (s: String)
        ensures
            s@ == entry_line(self.stamp(), self.severity(), self.text()),
    {
        let s = concat2("[", self.timestamp.as_str());
        let s = concat2(s.as_str(), "][");
        let s = concat2(s.as_str(), self.level.as_str());
        let s = concat2(s.as_str(), "] ");
        let s = concat2(s.as_str(), self.message.as_str());
        proof {
            reveal_strlit("[");
            reveal_strlit("][");
            reveal_strlit("] ");
        }
        s
    }
}

/// The state of the logger: its configuration and whether it runs. The
/// runtime owns the channel and the output threads; it starts them once
/// `start` has accepted and sends every entry that `log` returns.
pub struct Logger {
    config: LoggerConfig,
    running: bool,
}

impl Logger {
    /// The configuration.
    pub closed spec fn settings(self) -> LoggerConfig {
        self.config
    }

    /// Whether the logger runs.
    pub closed spec fn runs(self) -> bool {
        self.running
    }

    /// A stopped logger with the default configuration.
    pub fn new() -> (l: Self)
        ensures
            !l.runs(),
            l.settings().app_name@ == "application"@,
    {
        Logger { config: LoggerConfig::default(), running: false }
    }

    /// Replace the configuration.
    pub fn configure(&mut self, config: LoggerConfig)
        ensures
            final(self).settings() == config,
            final(self).runs() == old(self).runs(),
    {
        self.config = config;
    }

    /// The configuration.
    pub fn config(&self) -> (c: &LoggerConfig)
        ensures
            *c == self.settings(),
    {
        &self.config
    }

    /// Start the logger; an error if it already runs.
    pub fn start(&mut self) -> (r: crate::error::Result<()>)
        ensures
            old(self).runs() ==> (r matches Err(crate::error::Error::LoggerError(m))
                && m@ == "Logger is already running"@) && final(self).runs(),
            !old(self).runs() ==> r is Ok && final(self).runs(),
            final(self).settings() == old(self).settings(),
    {
        if self.running {
            return Err(crate::error::Error::logger_error("Logger is already running"));
        }
        self.running = true;
        Ok(())
    }

    /// Stop the logger.
    pub fn stop(&mut self)
        ensures
            !final(self).runs(),
            final(self).settings() == old(self).settings(),
    {
        self.running = false;
    }

    /// Whether the logger runs.
    pub fn is_running(&self) -> (b: bool)
        ensures
            b == self.runs(),
    {
        self.running
    }

    /// Accept `entry` for the outputs; an error if the logger is stopped.
    pub fn log_entry(&self, entry: LogEntry) -> (r: crate::error::Result<LogEntry>)
        ensures
            !self.runs() ==> (r matches Err(crate::error::Error::LoggerError(m))
                && m@ == "Logger is not running"@),
            self.runs() ==> r == Ok::<LogEntry, crate::error::Error>(entry),
    {
        if !self.running {
            return Err(crate::error::Error::logger_error("Logger is not running"));
        }
        Ok(entry)
    }

    /// An entry of `level` with `message`, made now, for the outputs; an
    /// error if the logger is stopped.
    pub fn log(&self, level: LogLevel, message: &str) -> (r: crate::error::Result<LogEntry>)
        ensures
            !self.runs() ==> (r matches Err(crate::error::Error::LoggerError(m))
                && m@ == "Logger is not running"@),
            self.runs() ==> (r matches Ok(e) && e.text() == message@ && e.severity() == level
                && exists|reading: Option<(u64, u32)>| e.stamp() == #[trigger] reading_log_time(reading)),
    {
        if !self.running {
            return Err(crate::error::Error::logger_error("Logger is not running"));
        }
        self.log_entry(LogEntry::new(message, level))
    }

    /// An error entry.
    pub fn error(&self, message: &str) -> (r: crate::error::Result<LogEntry>)
        ensures
            !self.runs() ==> r is Err,
            self.runs() ==> (r matches Ok(e) && e.text() == message@ && e.severity() == LogLevel::Error
                && exists|reading: Option<(u64, u32)>| e.stamp() == #[trigger] reading_log_time(reading)),
    {
        self.log(LogLevel::Error, message)
    }

    /// A warning entry.
    pub fn warn(&self, message: &str) -> (r: crate::error::Result<LogEntry>)
        ensures
            !self.runs() ==> r is Err,
            self.runs() ==> (r matches Ok(e) && e.text() == message@ && e.severity() == LogLevel::Warn
                && exists|reading: Option<(u64, u32)>| e.stamp() == #[trigger] reading_log_time(reading)),
    {
        self.log(LogLevel::Warn, message)
    }

    /// An information entry.
    pub fn info(&self, message: &str) -> (r: crate::error::Result<LogEntry>)
        ensures
            !self.runs() ==> r is Err,
            self.runs() ==> (r matches Ok(e) && e.text() == message@ && e.severity() == LogLevel::Info
                && exists|reading: Option<(u64, u32)>| e.stamp() == #[trigger] reading_log_time(reading)),
    {
        self.log(LogLevel::Info, message)
    }

    /// A debug entry.
    pub fn debug(&self, message: &str) -> (r: crate::error::Result<LogEntry>)
        ensures
            !self.runs() ==> r is Err,
            self.runs() ==> (r matches Ok(e) && e.text() == message@ && e.severity() == LogLevel::Debug
                && exists|reading: Option<(u64, u32)>| e.stamp() == #[trigger] reading_log_time(reading)),
    {
        self.log(LogLevel::Debug, message)
    }

    /// A trace entry.
    pub fn trace(&self, message: &str) -> (r: crate::error::Result<LogEntry>)
        ensures
            !self.runs() ==> r is Err,
            self.runs() ==> (r matches Ok(e) && e.text() == message@ && e.severity() == LogLevel::Trace
                && exists|reading: Option<(u64, u32)>| e.stamp() == #[trigger] reading_log_time(reading)),
    {
        self.log(LogLevel::Trace, message)
    }
}

} // verus!
