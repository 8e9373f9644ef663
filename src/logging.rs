//! The log level that the verbosity flag selects.
use vstd::prelude::*;

verus! {

/// The levels that the verbosity flag can select.
#[derive(Clone, Copy, Debug, PartialEq, Eq, Structural)]
pub enum LogLevel {
    Info,
    Debug,
    Trace,
}

/// No flag logs at info, one at debug, two or more at trace.
pub open spec fn spec_log_level(count: u64) -> LogLevel {
    if count == 0 {
        LogLevel::Info
    } else if count == 1 {
        LogLevel::Debug
    } else {
        LogLevel::Trace
    }
}

/// The filter directive that limits this program's logging to a level.
pub open spec fn spec_directive(level: LogLevel) -> Seq<char> {
    match level {
        LogLevel::Info => "oxy=info"@,
        LogLevel::Debug => "oxy=debug"@,
        LogLevel::Trace => "oxy=trace"@,
    }
}

/// The level selected by `count` occurrences of the verbosity flag.
pub fn log_level(count: u64) -> (r: LogLevel)
    ensures
        r == spec_log_level(count),
{
    if count == 0 {
        LogLevel::Info
    } else if count == 1 {
        LogLevel::Debug
    } else {
        LogLevel::Trace
    }
}

/// The filter directive to install: none where the environment already sets one, so that
/// an outside setting always wins.
pub fn logging_directive(count: u64, override_present: bool) -> (r: Option<&'static str>)
    ensures
        override_present ==> r is None,
        !override_present ==> (r matches Some(d) && d@ == spec_directive(spec_log_level(count))),
{
    if override_present {
        None
    } else {
        match log_level(count) {
            LogLevel::Info => Some("oxy=info"),
            LogLevel::Debug => Some("oxy=debug"),
            LogLevel::Trace => Some("oxy=trace"),
        }
    }
}

} // verus!
