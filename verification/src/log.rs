//! Log-level filtering: a message is emitted only when its level is at
//! least the configured level.

use vstd::prelude::*;

verus! {

/// Severity of a log message, from the most verbose to the most severe.
#[derive(Debug, Copy, Clone, PartialEq, Eq, Structural)]
pub enum LogLevel {
    Debug,
    Info,
    Warn,
    Error,
    Line,
}

/// Rank of a level; higher means more severe.
pub open spec fn level_rank(level: LogLevel) -> int {
    match level {
        LogLevel::Debug => 1,
        LogLevel::Info => 2,
        LogLevel::Warn => 3,
        LogLevel::Error => 4,
        LogLevel::Line => 5,
    }
}

/// Returns the rank of `level`, the position used to compare severities.
pub fn rank_of(level: LogLevel) -> (r: u8)
    ensures
        r as int == level_rank(level),
{
    match level {
        LogLevel::Debug => 1,
        LogLevel::Info => 2,
        LogLevel::Warn => 3,
        LogLevel::Error => 4,
        LogLevel::Line => 5,
    }
}

/// Decides whether a message of severity `log_level` is emitted when the
/// sink is configured to show `set_level` and above.
pub fn should_log(set_level: LogLevel, log_level: LogLevel) -> (r: bool)
    ensures
        r == (level_rank(set_level) <= level_rank(log_level)),
{
    rank_of(set_level) <= rank_of(log_level)
}

} // verus!
