//! What is settled before the process serves: how much is logged.
//!
//! The level is configured as a text. It is brought to lower case and read
//! as the name of a level; a text that names none, or no text at all, gives
//! [`LogLevel::Info`].

use vstd::prelude::*;
use std::str::FromStr;
use crate::text::{lowercase, lowercase_of};

verus! {

/// The levels of logging, from the least to the most verbose.
#[derive(Clone, Copy, Debug, PartialEq, Eq)]
pub enum LogLevel {
    Error,
    Warn,
    Info,
    Debug,
    Trace,
}

/// An ASCII letter in lower case; any other character as it is.
pub open spec fn ascii_lower(c: char) -> char {
    if 'A' <= c && c <= 'Z' {
        ((c as int) + 32) as char
    } else {
        c
    }
}

/// Whether two texts are the same but for the case of their ASCII letters.
pub open spec fn same_ignoring_ascii_case(left: Seq<char>, right: Seq<char>) -> bool {
    &&& left.len() == right.len()
    &&& forall|i: int| 0 <= i < left.len() ==> ascii_lower(left[i]) == ascii_lower(right[i])
}

/// The level that a text names, in whatever case.
pub open spec fn level_named(name: Seq<char>) -> Option<LogLevel> {
    if same_ignoring_ascii_case(name, "error"@) {
        Some(LogLevel::Error)
    } else if same_ignoring_ascii_case(name, "warn"@) {
        Some(LogLevel::Warn)
    } else if same_ignoring_ascii_case(name, "info"@) {
        Some(LogLevel::Info)
    } else if same_ignoring_ascii_case(name, "debug"@) {
        Some(LogLevel::Debug)
    } else if same_ignoring_ascii_case(name, "trace"@) {
        Some(LogLevel::Trace)
    } else {
        None
    }
}

/// `log::Level::from_str`: the level whose name the text is, compared without
/// regard to the case of ASCII letters; `off` names no level.
#[verifier::external_body]
fn parse_level(name: &str) -> (level: Option<LogLevel>)
    ensures
        level == level_named(name@),
{
    match log::Level::from_str(name) {
        Ok(log::Level::Error) => Some(LogLevel::Error),
        Ok(log::Level::Warn) => Some(LogLevel::Warn),
        Ok(log::Level::Info) => Some(LogLevel::Info),
        Ok(log::Level::Debug) => Some(LogLevel::Debug),
        Ok(log::Level::Trace) => Some(LogLevel::Trace),
        Err(_) => None,
    }
}

/// The level that a text asks for, `Info` where it names none.
pub open spec fn level_for(name: Seq<char>) -> LogLevel {
    match level_named(name) {
        Some(level) => level,
        None => LogLevel::Info,
    }
}

/// Reads a level from its name, in whatever case: `Info` where the text
/// names none.
pub fn level_of_name(name: &str) -> (level: LogLevel)
    ensures
        level == level_for(name@),
{
    match parse_level(name) {
        Some(level) => level,
        None => LogLevel::Info,
    }
}

/// What the process sets up before it serves.
#[derive(Clone, Copy, Debug, PartialEq, Eq)]
pub struct OtelSettings {
    /// Nothing more verbose than this is logged.
    pub max_level: LogLevel,
}

/// The settings that a configured level gives.
pub open spec fn settings_for(log_level: Option<Seq<char>>) -> OtelSettings {
    OtelSettings {
        max_level: match log_level {
            Some(name) => level_for(lowercase_of(name)),
            None => LogLevel::Info,
        },
    }
}

/// Settles the telemetry of the process from the level that is configured
/// for it, if one is.
pub fn init_otel(log_level: Option<&str>) -> (settings: OtelSettings)
    ensures
        settings == settings_for(
            match log_level {
                Some(name) => Some(name@),
                None => None,
            },
        ),
{
    let max_level = match log_level {
        Some(name) => level_of_name(lowercase(name).as_str()),
        None => LogLevel::Info,
    };
    OtelSettings { max_level }
}

} // verus!
