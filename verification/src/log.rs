use vstd::prelude::*;

verus! {

/// The severity of a log line.
#[derive(Clone, Copy, Debug, PartialEq, Eq, Structural)]
pub enum LogLevel {
    Error,
    Warn,
    Info,
    Debug,
    Trace,
}

/// The colour a level is shown in.
pub open spec fn spec_level_color(level: LogLevel) -> (u8, u8, u8) {
    match level {
        LogLevel::Error => (196, 0, 0),
        LogLevel::Warn => (255, 145, 0),
        LogLevel::Info => (0, 196, 196),
        LogLevel::Trace => (128, 128, 128),
        LogLevel::Debug => (128, 196, 0),
    }
}

/// The red, green and blue parts of the colour a level is shown in.
pub fn level_color(level: LogLevel) -> (rgb: (u8, u8, u8))
    ensures
        rgb == spec_level_color(level),
{
    match level {
        LogLevel::Error => (196, 0, 0),
        LogLevel::Warn => (255, 145, 0),
        LogLevel::Info => (0, 196, 196),
        LogLevel::Trace => (128, 128, 128),
        LogLevel::Debug => (128, 196, 0),
    }
}

/// The name a level is shown with, padded with spaces to five characters.
pub open spec fn spec_level_label(level: LogLevel) -> Seq<char> {
    match level {
        LogLevel::Error => "ERROR"@,
        LogLevel::Warn => "WARN "@,
        LogLevel::Info => "INFO "@,
        LogLevel::Debug => "DEBUG"@,
        LogLevel::Trace => "TRACE"@,
    }
}

/// The label that starts a log line: the level's name, padded to five characters.
pub fn level_label(level: LogLevel) -> (label: String)
    ensures
        label@ == spec_level_label(level),
{
    match level {
        LogLevel::Error => String::from_str("ERROR"),
        LogLevel::Warn => String::from_str("WARN "),
        LogLevel::Info => String::from_str("INFO "),
        LogLevel::Debug => String::from_str("DEBUG"),
        LogLevel::Trace => String::from_str("TRACE"),
    }
}

} // verus!
