//! Log levels: how the configured level names are read.
use vstd::prelude::*;

use crate::text::{chars_eq, to_chars, to_lowercase, unicode_lowercase};

pub mod logger;

verus! {

/// The most verbose level a logger writes (`simplelog::LevelFilter`).
#[derive(Clone, Copy, Debug, PartialEq, Eq, Structural)]
pub enum LevelFilter {
    Off,
    Error,
    Warn,
    Info,
    Debug,
    Trace,
}

/// The level named by a lowercase word, if any.
pub open spec fn level_of_word(w: Seq<char>) -> Option<LevelFilter> {
    if w == "error"@ {
        Some(LevelFilter::Error)
    } else if w == "warn"@ {
        Some(LevelFilter::Warn)
    } else if w == "info"@ {
        Some(LevelFilter::Info)
    } else if w == "debug"@ {
        Some(LevelFilter::Debug)
    } else if w == "trace"@ {
        Some(LevelFilter::Trace)
    } else {
        None
    }
}

/// The level named by `name` in any case, if any.
pub fn level_of_name(name: &str) -> (res: Option<LevelFilter>)
    ensures
        res == level_of_word(unicode_lowercase(name@)),
{
    let lower = to_lowercase(name);
    let w = to_chars(lower.as_str());
    if chars_eq(&w, &to_chars("error")) {
        Some(LevelFilter::Error)
    } else if chars_eq(&w, &to_chars("warn")) {
        Some(LevelFilter::Warn)
    } else if chars_eq(&w, &to_chars("info")) {
        Some(LevelFilter::Info)
    } else if chars_eq(&w, &to_chars("debug")) {
        Some(LevelFilter::Debug)
    } else if chars_eq(&w, &to_chars("trace")) {
        Some(LevelFilter::Trace)
    } else {
        None
    }
}

/// The level a configured name selects: the level it names in any case,
/// and no logging at all for any other name.
pub fn get_enum_level(log_level: &str) -> (res: LevelFilter)
    ensures
        res == match level_of_word(unicode_lowercase(log_level@)) {
            Some(l) => l,
            None => LevelFilter::Off,
        },
{
    match level_of_name(log_level) {
        Some(l) => l,
        None => LevelFilter::Off,
    }
}

/// A level of the tracing subscriber (`tracing::Level`).
#[derive(Clone, Copy, Debug, PartialEq, Eq, Structural)]
pub enum TraceLevel {
    Trace,
    Debug,
    Info,
    Warn,
    Error,
}

/// The tracing level named exactly (lowercase) by `w`, if any.
pub open spec fn trace_level_of_word(w: Seq<char>) -> Option<TraceLevel> {
    if w == "trace"@ {
        Some(TraceLevel::Trace)
    } else if w == "debug"@ {
        Some(TraceLevel::Debug)
    } else if w == "info"@ {
        Some(TraceLevel::Info)
    } else if w == "warn"@ {
        Some(TraceLevel::Warn)
    } else if w == "error"@ {
        Some(TraceLevel::Error)
    } else {
        None
    }
}

/// The tracing level a configured name selects, if it names one exactly.
pub fn logging_level_lookup(name: &str) -> (res: Option<TraceLevel>)
    ensures
        res == trace_level_of_word(name@),
{
    let w = to_chars(name);
    if chars_eq(&w, &to_chars("trace")) {
        Some(TraceLevel::Trace)
    } else if chars_eq(&w, &to_chars("debug")) {
        Some(TraceLevel::Debug)
    } else if chars_eq(&w, &to_chars("info")) {
        Some(TraceLevel::Info)
    } else if chars_eq(&w, &to_chars("warn")) {
        Some(TraceLevel::Warn)
    } else if chars_eq(&w, &to_chars("error")) {
        Some(TraceLevel::Error)
    } else {
        None
    }
}

/// The tracing level a configured name selects, `INFO` when it names none.
pub fn cli_logging_level(name: &str) -> (res: TraceLevel)
    ensures
        res == match trace_level_of_word(name@) {
            Some(l) => l,
            None => TraceLevel::Info,
        },
{
    match logging_level_lookup(name) {
        Some(l) => l,
        None => TraceLevel::Info,
    }
}

/// How the tracing subscriber prints.
#[derive(Clone, Copy, Debug, PartialEq, Eq, Structural)]
pub enum SubscriberStyle {
    /// With targets, over several lines.
    Pretty,
    /// Without targets, one line per event.
    Compact,
}

/// The subscriber set up for the value of `TIDY_BACKTRACE` (`None` when it
/// is not set): pretty for `1`, compact when unset, and none for any other
/// value.
pub fn subscriber_style(tidy_backtrace: Option<&str>) -> (res: Option<SubscriberStyle>)
    ensures
        match tidy_backtrace {
            Some(v) => if v@ == "1"@ {
                res == Some(SubscriberStyle::Pretty)
            } else {
                res is None
            },
            None => res == Some(SubscriberStyle::Compact),
        },
{
    match tidy_backtrace {
        Some(v) => {
            let w = to_chars(v);
            if chars_eq(&w, &to_chars("1")) {
                Some(SubscriberStyle::Pretty)
            } else {
                None
            }
        },
        None => Some(SubscriberStyle::Compact),
    }
}

} // verus!
