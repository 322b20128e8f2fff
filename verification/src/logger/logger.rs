//! Log levels read from the configuration, with a default per logger.
use vstd::prelude::*;

use crate::logger::{level_of_name, level_of_word, LevelFilter};
use crate::text::unicode_lowercase;

verus! {

/// The level named by `level` in any case, or `default_level` when it
/// names none.
pub fn serialize_log_level(level: &str, default_level: LevelFilter) -> (res: LevelFilter)
    ensures
        res == match level_of_word(unicode_lowercase(level@)) {
            Some(l) => l,
            None => default_level,
        },
{
    match level_of_name(level) {
        Some(l) => l,
        None => default_level,
    }
}

/// The levels of the terminal and file loggers: `warn` and `info` unless
/// the configuration names others.
pub fn logger_levels(term: &str, file: &str) -> (res: (LevelFilter, LevelFilter))
    ensures
        res.0 == match level_of_word(unicode_lowercase(term@)) {
            Some(l) => l,
            None => LevelFilter::Warn,
        },
        res.1 == match level_of_word(unicode_lowercase(file@)) {
            Some(l) => l,
            None => LevelFilter::Info,
        },
{
    (serialize_log_level(term, LevelFilter::Warn), serialize_log_level(file, LevelFilter::Info))
}

} // verus!
