//! Structured log-event sink.
//!
//! The core emits structured events — level, subsystem tag, message — on scan
//! results, hook transitions and feature changes.  The events are collected in
//! order; the host drains them to whatever sink it maintains (a console, a
//! window).  A severity filter, parsed from a host-supplied setting, decides
//! which events are kept.

use vstd::prelude::*;

verus! {

/// Severity of one log event, most severe first.
#[derive(Clone, Copy, PartialEq, Eq, Structural, Debug)]
pub enum LogLevel {
    Error,
    Warn,
    Info,
    Debug,
    Trace,
}

/// Severity filter: keep events at or above a severity, or none at all.
#[derive(Clone, Copy, PartialEq, Eq, Structural, Debug)]
pub enum LogLevelFilter {
    Off,
    Error,
    Warn,
    Info,
    Debug,
    Trace,
}

/// Numeric severity of a level; smaller is more severe.
pub open spec fn level_rank(level: LogLevel) -> int {
    match level {
        LogLevel::Error => 1,
        LogLevel::Warn => 2,
        LogLevel::Info => 3,
        LogLevel::Debug => 4,
        LogLevel::Trace => 5,
    }
}

/// Numeric bound of a filter; events with a rank at or below it are kept.
pub open spec fn filter_rank(filter: LogLevelFilter) -> int {
    match filter {
        LogLevelFilter::Off => 0,
        LogLevelFilter::Error => 1,
        LogLevelFilter::Warn => 2,
        LogLevelFilter::Info => 3,
        LogLevelFilter::Debug => 4,
        LogLevelFilter::Trace => 5,
    }
}

/// An event passes a filter when its severity rank is within the bound.
pub open spec fn spec_enabled(level: LogLevel, filter: LogLevelFilter) -> bool {
    level_rank(level) <= filter_rank(filter)
}

/// One structured log event.
pub struct LogRecord {
    pub level: LogLevel,
    pub target: String,
    pub message: String,
}

/// Ordered collection of the events that passed the filter.
pub struct Logger {
    pub filter: LogLevelFilter,
    pub records: Vec<LogRecord>,
}

impl Logger {
    pub fn new(filter: LogLevelFilter) -> (r: Logger)
        ensures
            r.filter == filter,
            r.records@.len() == 0,
    {
        Logger { filter, records: Vec::new() }
    }

    /// Does an event of this severity pass the logger's filter?
    pub fn enabled(&self, level: LogLevel) -> (r: bool)
        ensures
            r == spec_enabled(level, self.filter),
    {
        let lr: u8 = match level {
            LogLevel::Error => 1,
            LogLevel::Warn => 2,
            LogLevel::Info => 3,
            LogLevel::Debug => 4,
            LogLevel::Trace => 5,
        };
        let fr: u8 = match self.filter {
            LogLevelFilter::Off => 0,
            LogLevelFilter::Error => 1,
            LogLevelFilter::Warn => 2,
            LogLevelFilter::Info => 3,
            LogLevelFilter::Debug => 4,
            LogLevelFilter::Trace => 5,
        };
        lr <= fr
    }

    /// Record one event; events that do not pass the filter are dropped.
    pub fn log(&mut self, level: LogLevel, target: String, message: String)
        ensures
            final(self).filter == old(self).filter,
            final(self).records@ == if spec_enabled(level, old(self).filter) {
                old(self).records@.push(LogRecord { level, target, message })
            } else {
                old(self).records@
            },
            logger_extended(*old(self), *final(self)),
    {
        proof {
            lemma_logger_extended_refl(*self);
            assert(self.records@.push(
                LogRecord { level, target, message },
            ).subrange(0, self.records@.len() as int) =~= self.records@);
        }
        if self.enabled(level) {
            self.records.push(LogRecord { level, target, message });
        }
    }
}

/// The second logger state extends the first: same filter, and every event of
/// the first still in place, in order, at the front.
pub open spec fn logger_extended(a: Logger, b: Logger) -> bool {
    &&& b.filter == a.filter
    &&& a.records@.len() <= b.records@.len()
    &&& b.records@.subrange(0, a.records@.len() as int) == a.records@
}

pub proof fn lemma_logger_extended_refl(a: Logger)
    ensures
        logger_extended(a, a),
{
    assert(a.records@.subrange(0, a.records@.len() as int) =~= a.records@);
}

pub proof fn lemma_logger_extended_trans(a: Logger, b: Logger, c: Logger)
    requires
        logger_extended(a, b),
        logger_extended(b, c),
    ensures
        logger_extended(a, c),
{
    assert(c.records@.subrange(0, a.records@.len() as int) =~= b.records@.subrange(
        0,
        a.records@.len() as int,
    ));
}

/// The filter a host-supplied setting string selects: the five level names
/// select their level; anything else selects the default.
pub open spec fn spec_filter_of_setting(s: Seq<char>) -> LogLevelFilter {
    if s == "TRACE"@ {
        LogLevelFilter::Trace
    } else if s == "DEBUG"@ {
        LogLevelFilter::Debug
    } else if s == "INFO"@ {
        LogLevelFilter::Info
    } else if s == "WARN"@ {
        LogLevelFilter::Warn
    } else if s == "ERROR"@ {
        LogLevelFilter::Error
    } else {
        LogLevelFilter::Debug
    }
}

/// Parse a severity-filter setting; unknown settings select the default
/// filter.
pub fn string_to_log_level(string: &String) -> (r: LogLevelFilter)
    ensures
        r == spec_filter_of_setting(string@),
{
    if *string == "TRACE".to_owned() {
        LogLevelFilter::Trace
    } else if *string == "DEBUG".to_owned() {
        LogLevelFilter::Debug
    } else if *string == "INFO".to_owned() {
        LogLevelFilter::Info
    } else if *string == "WARN".to_owned() {
        LogLevelFilter::Warn
    } else if *string == "ERROR".to_owned() {
        LogLevelFilter::Error
    } else {
        LogLevelFilter::Debug
    }
}

/// Build the logger from the host's optional severity setting; without a
/// setting the default filter applies.
pub fn init(setting: Option<String>) -> (r: Logger)
    ensures
        r.records@.len() == 0,
        r.filter == match setting {
            Some(s) => spec_filter_of_setting(s@),
            None => LogLevelFilter::Debug,
        },
{
    let filter = match setting {
        Some(s) => string_to_log_level(&s),
        None => LogLevelFilter::Debug,
    };
    Logger::new(filter)
}

} // verus!
