//! The in-memory log surface: a severity filter and a text buffer the UI
//! renders.
//!
//! Formatting is fully specified; the timestamp text is produced by the
//! shell (the clock is not the library's business) and woven in verbatim.

use vstd::prelude::*;
use crate::text::{concat2, concat3};

verus! {

/// Log severities, most severe first.
#[derive(Clone, Copy, Debug, PartialEq, Eq, Structural)]
pub enum LogLevel {
    Error,
    Warn,
    Info,
    Debug,
    Trace,
}

/// The rank a severity filters by: a record is kept when its level's rank
/// does not exceed the configured maximum's.
pub open spec fn level_rank(l: LogLevel) -> int {
    match l {
        LogLevel::Error => 1,
        LogLevel::Warn => 2,
        LogLevel::Info => 3,
        LogLevel::Debug => 4,
        LogLevel::Trace => 5,
    }
}

/// The tag a record of this level is printed with.
pub open spec fn level_tag_spec(l: LogLevel) -> Seq<char> {
    match l {
        LogLevel::Error => "ERROR"@,
        LogLevel::Warn => "WARN"@,
        LogLevel::Info => "INFO"@,
        LogLevel::Debug => "DEBUG"@,
        LogLevel::Trace => "TRACE"@,
    }
}

/// The name a level is announced with when the filter changes.
pub open spec fn level_label_spec(l: LogLevel) -> Seq<char> {
    match l {
        LogLevel::Error => "Error"@,
        LogLevel::Warn => "Warn"@,
        LogLevel::Info => "Info"@,
        LogLevel::Debug => "Debug"@,
        LogLevel::Trace => "Trace"@,
    }
}

/// One rendered buffer line: `[LEVEL] timestamp - message` and a newline.
pub open spec fn log_line_spec(l: LogLevel, ts: Seq<char>, msg: Seq<char>) -> Seq<char> {
    "["@ + level_tag_spec(l) + "] "@ + ts + " - "@ + msg + "\n"@
}

/// The tag a record of this level is printed with.
pub fn level_tag(l: LogLevel) -> (r: String)
    ensures
        r@ == level_tag_spec(l),
{
    match l {
        LogLevel::Error => "ERROR".to_owned(),
        LogLevel::Warn => "WARN".to_owned(),
        LogLevel::Info => "INFO".to_owned(),
        LogLevel::Debug => "DEBUG".to_owned(),
        LogLevel::Trace => "TRACE".to_owned(),
    }
}

/// The name a level is announced with when the filter changes.
pub fn level_label(l: LogLevel) -> (r: String)
    ensures
        r@ == level_label_spec(l),
{
    match l {
        LogLevel::Error => "Error".to_owned(),
        LogLevel::Warn => "Warn".to_owned(),
        LogLevel::Info => "Info".to_owned(),
        LogLevel::Debug => "Debug".to_owned(),
        LogLevel::Trace => "Trace".to_owned(),
    }
}

/// The in-memory logger: what the log tab shows.
pub struct MyLogger {
    /// Every line kept so far, in arrival order.
    pub buffer: String,
    /// The most verbose level still kept.
    pub max_level: LogLevel,
}

impl MyLogger {
    /// A fresh logger keeping records up to `max_level`.
    pub fn new(max_level: LogLevel) -> (l: MyLogger)
        ensures
            l.buffer@ == Seq::<char>::empty(),
            l.max_level == max_level,
    {
        MyLogger { buffer: String::new(), max_level }
    }

    /// Whether a record of this level passes the filter.
    pub fn enabled(&self, level: LogLevel) -> (r: bool)
        ensures
            r == (level_rank(level) <= level_rank(self.max_level)),
    {
        let rank: u8 = match level {
            LogLevel::Error => 1,
            LogLevel::Warn => 2,
            LogLevel::Info => 3,
            LogLevel::Debug => 4,
            LogLevel::Trace => 5,
        };
        let max_rank: u8 = match self.max_level {
            LogLevel::Error => 1,
            LogLevel::Warn => 2,
            LogLevel::Info => 3,
            LogLevel::Debug => 4,
            LogLevel::Trace => 5,
        };
        rank <= max_rank
    }

    /// Appends one record, if its level passes the filter; filtered records
    /// leave the buffer untouched.
    pub fn log(&mut self, level: LogLevel, timestamp: &str, message: &str)
        ensures
            final(self).max_level == old(self).max_level,
            level_rank(level) <= level_rank(old(self).max_level)
                ==> final(self).buffer@ == old(self).buffer@
                    + log_line_spec(level, timestamp@, message@),
            level_rank(level) > level_rank(old(self).max_level)
                ==> final(self).buffer@ == old(self).buffer@,
    {
        if self.enabled(level) {
            let tag = level_tag(level);
            let head = concat3("[", tag.as_str(), "] ");
            let mid = concat3(timestamp, " - ", message);
            let line = concat3(head.as_str(), mid.as_str(), "\n");
            proof {
                assert(line@ =~= log_line_spec(level, timestamp@, message@));
            }
            self.buffer.append(line.as_str());
        }
    }

    /// Narrows or widens the filter, announcing the change in the buffer.
    pub fn set_level(&mut self, level: LogLevel, timestamp: &str)
        ensures
            final(self).max_level == level,
            final(self).buffer@ == old(self).buffer@ + timestamp@
                + " - Logger level set to: "@ + level_label_spec(level) + "\n"@,
    {
        self.max_level = level;
        let label = level_label(level);
        let tail = concat2(label.as_str(), "\n");
        let line = concat3(timestamp, " - Logger level set to: ", tail.as_str());
        self.buffer.append(line.as_str());
        proof {
            assert(self.buffer@ =~= old(self).buffer@ + timestamp@ + " - Logger level set to: "@
                + level_label_spec(level) + "\n"@);
        }
    }

    /// The buffer as the log tab shows it.
    pub fn contents(&self) -> (r: String)
        ensures
            r@ == self.buffer@,
    {
        self.buffer.clone()
    }
}

} // verus!
