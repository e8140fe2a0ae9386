//! The worker's log lines: which records are written and how a line reads.

use vstd::prelude::*;
use colorful::Colorful;

verus! {

/// Log levels, from the most to the least severe.
#[derive(Debug, Clone, Copy, PartialEq, Eq, Structural)]
pub enum Level {
    Error,
    Warn,
    Info,
    Debug,
    Trace,
}

/// The rank of a level: 1 for `Error` up to 5 for `Trace`.
pub open spec fn level_rank(l: Level) -> int {
    match l {
        Level::Error => 1,
        Level::Warn => 2,
        Level::Info => 3,
        Level::Debug => 4,
        Level::Trace => 5,
    }
}

/// The name of a level.
pub open spec fn level_name(l: Level) -> Seq<char> {
    match l {
        Level::Error => "ERROR"@,
        Level::Warn => "WARN"@,
        Level::Info => "INFO"@,
        Level::Debug => "DEBUG"@,
        Level::Trace => "TRACE"@,
    }
}

fn level_rank_of(l: Level) -> (r: u8)
    ensures
        r == level_rank(l),
{
    match l {
        Level::Error => 1,
        Level::Warn => 2,
        Level::Info => 3,
        Level::Debug => 4,
        Level::Trace => 5,
    }
}

fn level_name_of(l: Level) -> (s: &'static str)
    ensures
        s@ == level_name(l),
{
    match l {
        Level::Error => "ERROR",
        Level::Warn => "WARN",
        Level::Info => "INFO",
        Level::Debug => "DEBUG",
        Level::Trace => "TRACE",
    }
}

/// The colours of level names.
#[derive(Debug, Clone, Copy, PartialEq, Eq, Structural)]
pub enum LogColor {
    Red,
    Yellow,
    White,
    Green,
}

/// The colour of a level's name: red, yellow, white, then green for debug and trace.
pub open spec fn level_color(l: Level) -> LogColor {
    match l {
        Level::Error => LogColor::Red,
        Level::Warn => LogColor::Yellow,
        Level::Info => LogColor::White,
        Level::Debug => LogColor::Green,
        Level::Trace => LogColor::Green,
    }
}

/// What `colorful`'s `gradient` writes for a text starting from a colour.
pub uninterp spec fn gradient_text(text: Seq<char>, color: LogColor) -> Seq<char>;

/// Colours a text with a gradient from a colour (`colorful::Colorful::gradient`, then `to_string`).
/// It needs a text of one non-empty line: `gradient` colours each line and fails on an empty one.
/// Claimed: the result is `gradient_text` of the text and colour.
#[verifier::external_body]
fn color_gradient(text: &str, color: LogColor) -> (s: String)
    requires
        text@.len() > 0,
        forall|i: int| 0 <= i < text@.len() ==> text@[i] != '\n' && text@[i] != '\r',
    ensures
        s@ == gradient_text(text@, color),
{
    let c = match color {
        LogColor::Red => colorful::Color::Red,
        LogColor::Yellow => colorful::Color::Yellow,
        LogColor::White => colorful::Color::White,
        LogColor::Green => colorful::Color::Green,
    };
    text.gradient(c).to_string()
}

/// A logger writing lines `<level>\t<name>\t<message>`, or, with a time format,
/// `<time>\t<coloured level>\t<name>\t<message>`.
#[derive(Debug, Clone)]
pub struct LotusLog {
    pub name: String,
    pub level: Level,
    pub time_format: Option<String>,
}

/// The line written for a record.
pub open spec fn log_line(name: Seq<char>, level: Level, time: Option<Seq<char>>, message: Seq<char>) -> Seq<char> {
    match time {
        Some(t) => t + "\t"@ + gradient_text(level_name(level), level_color(level)) + "\t"@ + name + "\t"@ + message,
        None => level_name(level) + "\t"@ + name + "\t"@ + message,
    }
}

impl LotusLog {
    pub fn new(name: String, level: Level) -> (l: LotusLog)
        ensures
            l.name@ == name@,
            l.level == level,
            l.time_format is None,
    {
        LotusLog { name, level, time_format: None }
    }

    /// Sets the time format (`strftime` syntax) that starts each line.
    pub fn set_time_format(&mut self, format: String)
        ensures
            final(self).name@ == old(self).name@,
            final(self).level == old(self).level,
            final(self).time_format matches Some(f) && f@ == format@,
    {
        self.time_format = Some(format);
    }

    /// Whether records of `level` are written: those at least as severe as the logger's level.
    pub fn enabled(&self, level: Level) -> (r: bool)
        ensures
            r == (level_rank(level) <= level_rank(self.level)),
    {
        level_rank_of(level) <= level_rank_of(self.level)
    }

    /// The line written for a record, `None` when its level is not enabled. `time` is the current
    /// time written in the logger's time format, given exactly when the logger has one.
    pub fn format_line(&self, level: Level, time: Option<String>, message: &str) -> (r: Option<String>)
        requires
            time is Some <==> self.time_format is Some,
        ensures
            r is Some <==> level_rank(level) <= level_rank(self.level),
            r matches Some(line) ==> line@ == log_line(self.name@, level, match time {
                Some(t) => Some(t@),
                None => None::<Seq<char>>,
            }, message@),
    {
        if !self.enabled(level) {
            return None;
        }
        let name = level_name_of(level);
        let mut line = match time {
            Some(t) => {
                let mut l = t;
                l.append("\t");
                let color = match level {
                    Level::Error => LogColor::Red,
                    Level::Warn => LogColor::Yellow,
                    Level::Info => LogColor::White,
                    Level::Debug => LogColor::Green,
                    Level::Trace => LogColor::Green,
                };
                proof { reveal_strlit("ERROR"); reveal_strlit("WARN"); reveal_strlit("INFO"); reveal_strlit("DEBUG"); reveal_strlit("TRACE"); }
                let colored = color_gradient(name, color);
                l.append(colored.as_str());
                l
            },
            None => name.to_owned(),
        };
        line.append("\t");
        line.append(self.name.as_str());
        line.append("\t");
        line.append(message);
        Some(line)
    }
}

} // verus!

verus! {

/// Levels are strictly ordered, `Error` < `Warn` < `Info` < `Debug` < `Trace`, so of two
/// different levels exactly one writes the records of the other (a logger writes the records at
/// its own level or a more severe one). Error records are written by every logger, and trace
/// records only by a trace logger.
pub proof fn law_levels_strictly_ordered(logger: Level, record: Level)
    ensures
        level_rank(Level::Error) < level_rank(Level::Warn),
        level_rank(Level::Warn) < level_rank(Level::Info),
        level_rank(Level::Info) < level_rank(Level::Debug),
        level_rank(Level::Debug) < level_rank(Level::Trace),
        level_rank(logger) == level_rank(record) ==> logger == record,
        logger != record ==> (level_rank(record) <= level_rank(logger)) != (level_rank(logger) <= level_rank(record)),
        level_rank(Level::Error) <= level_rank(logger),
        level_rank(Level::Trace) <= level_rank(logger) ==> logger == Level::Trace,
{
}

} // verus!
