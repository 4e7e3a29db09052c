//! Which log messages are shown: the level named on the command line, or
//! debug output when verbose.
use vstd::prelude::*;

verus! {

/// The log levels, from silent to most detailed.
#[derive(Debug, Clone, Copy, PartialEq, Eq, Structural)]
pub enum LogLevel {
    Off,
    Error,
    Warn,
    Info,
    Debug,
    Trace,
}

/// ASCII lower case of one character; other characters are unchanged.
pub open spec fn ascii_lower(c: char) -> char {
    if 'A' <= c && c <= 'Z' {
        ((c as u32) + 32) as char
    } else {
        c
    }
}

/// Equality of two texts up to ASCII case (`eq_ignore_ascii_case`).
pub open spec fn eq_ignore_ascii_case(a: Seq<char>, b: Seq<char>) -> bool {
    a.len() == b.len() && forall|i: int| 0 <= i < a.len() ==> ascii_lower(#[trigger] a[i]) == ascii_lower(b[i])
}

/// The level a text names, as `log::LevelFilter` parses it: one of the
/// level names, in any ASCII case.
pub open spec fn level_named(s: Seq<char>) -> Option<LogLevel> {
    if eq_ignore_ascii_case("OFF"@, s) {
        Some(LogLevel::Off)
    } else if eq_ignore_ascii_case("ERROR"@, s) {
        Some(LogLevel::Error)
    } else if eq_ignore_ascii_case("WARN"@, s) {
        Some(LogLevel::Warn)
    } else if eq_ignore_ascii_case("INFO"@, s) {
        Some(LogLevel::Info)
    } else if eq_ignore_ascii_case("DEBUG"@, s) {
        Some(LogLevel::Debug)
    } else if eq_ignore_ascii_case("TRACE"@, s) {
        Some(LogLevel::Trace)
    } else {
        None
    }
}

/// `<log::LevelFilter as FromStr>::from_str`: the crate compares the text,
/// ignoring ASCII case, with "OFF", "ERROR", "WARN", "INFO", "DEBUG" and
/// "TRACE" in that order and answers the first level that matches, or an error.
#[verifier::external_body]
fn parse_level_filter(s: &str) -> (r: Option<LogLevel>)
    ensures
        r == level_named(s@),
{
    match s.parse::<log::LevelFilter>() {
        Ok(log::LevelFilter::Off) => Some(LogLevel::Off),
        Ok(log::LevelFilter::Error) => Some(LogLevel::Error),
        Ok(log::LevelFilter::Warn) => Some(LogLevel::Warn),
        Ok(log::LevelFilter::Info) => Some(LogLevel::Info),
        Ok(log::LevelFilter::Debug) => Some(LogLevel::Debug),
        Ok(log::LevelFilter::Trace) => Some(LogLevel::Trace),
        Err(_) => None,
    }
}

/// The level shown: debug when verbose, else the named level, else info.
pub open spec fn chosen_level(level: Seq<char>, verbose: bool) -> LogLevel {
    if verbose {
        LogLevel::Debug
    } else {
        match level_named(level) {
            Some(l) => l,
            None => LogLevel::Info,
        }
    }
}

pub fn log_level_filter(level: &str, verbose: bool) -> (r: LogLevel)
    ensures
        r == chosen_level(level@, verbose),
{
    if verbose {
        LogLevel::Debug
    } else {
        match parse_level_filter(level) {
            Some(l) => l,
            None => LogLevel::Info,
        }
    }
}

} // verus!
