//! Log output mode and log level, as named in the configuration.
use vstd::prelude::*;
use vstd::string::*;
use crate::text::{ascii_lower, str_eq, str_trim, str_to_lowercase, concat3, trim_spec, trim_start_spec, trim_end_spec, unicode_lowercase};
use vstd::utf8::*;

verus! {

/// How log lines are written.
#[derive(Debug, Clone, Copy, PartialEq, Eq, Structural)]
pub enum LogMode {
    Human,
    Json,
}

/// The text a log mode is displayed as.
pub open spec fn log_mode_text(m: LogMode) -> Seq<char> {
    match m {
        LogMode::Human => "HUMAN"@,
        LogMode::Json => "JSON"@,
    }
}

/// The log mode that a trimmed, lower-cased name selects, if any.
pub open spec fn log_mode_named(lowered: Seq<char>) -> Option<LogMode> {
    if lowered == "human"@ {
        Some(LogMode::Human)
    } else if lowered == "json"@ {
        Some(LogMode::Json)
    } else {
        None
    }
}

/// A log mode name that is neither `human` nor `json`.
#[derive(Debug, Clone)]
pub struct LogModeError(pub String);

impl Default for LogMode {
    fn default() -> (r: Self)
        ensures
            r == LogMode::Human,
    {
        LogMode::Human
    }
}

impl LogMode {
    /// The upper-case name of the mode.
    pub fn to_display_string(&self) -> (r: String)
        ensures
            r@ == log_mode_text(*self),
    {
        proof {
            reveal_strlit("HUMAN");
            reveal_strlit("JSON");
        }
        match self {
            LogMode::Human => String::from_str("HUMAN"),
            LogMode::Json => String::from_str("JSON"),
        }
    }

    /// Selects the mode from a name that has already been trimmed and lower-cased;
    /// an unknown name is reported with `given`, the text as it was given.
    pub fn from_lowercased(lowered: &str, given: &str) -> (r: Result<LogMode, LogModeError>)
        ensures
            match log_mode_named(lowered@) {
                Some(m) => r == Ok::<LogMode, LogModeError>(m),
                None => r matches Err(e) && e.0@ == given@,
            },
    {
        proof {
            reveal_strlit("human");
            reveal_strlit("json");
        }
        if str_eq(lowered, "human") {
            Ok(LogMode::Human)
        } else if str_eq(lowered, "json") {
            Ok(LogMode::Json)
        } else {
            Err(LogModeError(given.to_owned()))
        }
    }

    /// Parses a mode name, ignoring surrounding white space and letter case.
    pub fn from_str(s: &str) -> (r: Result<LogMode, LogModeError>)
        ensures
            match log_mode_named(unicode_lowercase(trim_spec(s@))) {
                Some(m) => r == Ok::<LogMode, LogModeError>(m),
                None => r matches Err(e) && e.0@ == s@,
            },
            is_ascii_chars(trim_spec(s@)) ==> match log_mode_named(ascii_lower(trim_spec(s@))) {
                Some(m) => r == Ok::<LogMode, LogModeError>(m),
                None => r is Err,
            },
    {
        let trimmed = str_trim(s);
        let lowered = str_to_lowercase(trimmed);
        LogMode::from_lowercased(lowered.as_str(), s)
    }
}

impl core::str::FromStr for LogMode {
    type Err = LogModeError;

    fn from_str(s: &str) -> (r: Result<Self, Self::Err>)
        ensures
            match log_mode_named(unicode_lowercase(trim_spec(s@))) {
                Some(m) => r == Ok::<LogMode, LogModeError>(m),
                None => r matches Err(e) && e.0@ == s@,
            },
            is_ascii_chars(trim_spec(s@)) ==> match log_mode_named(ascii_lower(trim_spec(s@))) {
                Some(m) => r == Ok::<LogMode, LogModeError>(m),
                None => r is Err,
            },
    {
        LogMode::from_str(s)
    }
}

impl LogModeError {
    /// The message reported for the rejected name.
    pub fn message(&self) -> (r: String)
        ensures
            r@ == "Unsupported log mode level `"@ + self.0@
                + "`. Supported values are `HUMAN` and `JSON`."@,
    {
        concat3("Unsupported log mode level `", self.0.as_str(), "`. Supported values are `HUMAN` and `JSON`.")
    }
}

/// How much is logged, from nothing to everything.
#[derive(Debug, Clone, Copy, PartialEq, Eq, Structural)]
pub enum LogLevel {
    Off,
    Error,
    Warn,
    Info,
    Debug,
    Trace,
}

/// The text a log level is displayed as.
pub open spec fn log_level_text(l: LogLevel) -> Seq<char> {
    match l {
        LogLevel::Off => "OFF"@,
        LogLevel::Error => "ERROR"@,
        LogLevel::Warn => "WARN"@,
        LogLevel::Info => "INFO"@,
        LogLevel::Debug => "DEBUG"@,
        LogLevel::Trace => "TRACE"@,
    }
}

/// The log level that a trimmed, lower-cased name selects, if any.
pub open spec fn log_level_named(lowered: Seq<char>) -> Option<LogLevel> {
    if lowered == "off"@ {
        Some(LogLevel::Off)
    } else if lowered == "error"@ {
        Some(LogLevel::Error)
    } else if lowered == "warn"@ {
        Some(LogLevel::Warn)
    } else if lowered == "info"@ {
        Some(LogLevel::Info)
    } else if lowered == "debug"@ {
        Some(LogLevel::Debug)
    } else if lowered == "trace"@ {
        Some(LogLevel::Trace)
    } else {
        None
    }
}

/// A log level name that none of the levels has.
#[derive(Debug, Clone)]
pub struct LogLevelError {
    pub given_log_level: String,
}

impl Default for LogLevel {
    fn default() -> (r: Self)
        ensures
            r == LogLevel::Info,
    {
        LogLevel::Info
    }
}

impl LogLevel {
    /// The upper-case name of the level.
    pub fn to_display_string(&self) -> (r: String)
        ensures
            r@ == log_level_text(*self),
    {
        proof {
            reveal_strlit("OFF");
            reveal_strlit("ERROR");
            reveal_strlit("WARN");
            reveal_strlit("INFO");
            reveal_strlit("DEBUG");
            reveal_strlit("TRACE");
        }
        match self {
            LogLevel::Off => String::from_str("OFF"),
            LogLevel::Error => String::from_str("ERROR"),
            LogLevel::Warn => String::from_str("WARN"),
            LogLevel::Info => String::from_str("INFO"),
            LogLevel::Debug => String::from_str("DEBUG"),
            LogLevel::Trace => String::from_str("TRACE"),
        }
    }

    /// Selects the level from a name that has already been trimmed and lower-cased;
    /// an unknown name is reported with `given`, the text as it was given.
    pub fn from_lowercased(lowered: &str, given: &str) -> (r: Result<LogLevel, LogLevelError>)
        ensures
            match log_level_named(lowered@) {
                Some(l) => r == Ok::<LogLevel, LogLevelError>(l),
                None => r matches Err(e) && e.given_log_level@ == given@,
            },
    {
        proof {
            reveal_strlit("off");
            reveal_strlit("error");
            reveal_strlit("warn");
            reveal_strlit("info");
            reveal_strlit("debug");
            reveal_strlit("trace");
        }
        if str_eq(lowered, "off") {
            Ok(LogLevel::Off)
        } else if str_eq(lowered, "error") {
            Ok(LogLevel::Error)
        } else if str_eq(lowered, "warn") {
            Ok(LogLevel::Warn)
        } else if str_eq(lowered, "info") {
            Ok(LogLevel::Info)
        } else if str_eq(lowered, "debug") {
            Ok(LogLevel::Debug)
        } else if str_eq(lowered, "trace") {
            Ok(LogLevel::Trace)
        } else {
            Err(LogLevelError { given_log_level: given.to_owned() })
        }
    }

    /// Parses a level name, ignoring surrounding white space and letter case.
    pub fn from_str(s: &str) -> (r: Result<LogLevel, LogLevelError>)
        ensures
            match log_level_named(unicode_lowercase(trim_spec(s@))) {
                Some(l) => r == Ok::<LogLevel, LogLevelError>(l),
                None => r matches Err(e) && e.given_log_level@ == s@,
            },
            is_ascii_chars(trim_spec(s@)) ==> match log_level_named(ascii_lower(trim_spec(s@))) {
                Some(l) => r == Ok::<LogLevel, LogLevelError>(l),
                None => r is Err,
            },
    {
        let trimmed = str_trim(s);
        let lowered = str_to_lowercase(trimmed);
        LogLevel::from_lowercased(lowered.as_str(), s)
    }
}

impl core::str::FromStr for LogLevel {
    type Err = LogLevelError;

    fn from_str(s: &str) -> (r: Result<Self, Self::Err>)
        ensures
            match log_level_named(unicode_lowercase(trim_spec(s@))) {
                Some(l) => r == Ok::<LogLevel, LogLevelError>(l),
                None => r matches Err(e) && e.given_log_level@ == s@,
            },
            is_ascii_chars(trim_spec(s@)) ==> match log_level_named(ascii_lower(trim_spec(s@))) {
                Some(l) => r == Ok::<LogLevel, LogLevelError>(l),
                None => r is Err,
            },
    {
        LogLevel::from_str(s)
    }
}

impl LogLevelError {
    /// The message reported for the rejected name, ending in a line break.
    pub fn message(&self) -> (r: String)
        ensures
            r@ == "Log level '"@ + self.given_log_level@
                + "' is invalid. Accepted values are 'OFF', 'ERROR', 'WARN', 'INFO', 'DEBUG', and 'TRACE'.\n"@,
    {
        concat3(
            "Log level '",
            self.given_log_level.as_str(),
            "' is invalid. Accepted values are 'OFF', 'ERROR', 'WARN', 'INFO', 'DEBUG', and 'TRACE'.\n",
        )
    }
}

/// Text that starts and ends with a letter is its own trimmed form.
proof fn lemma_trim_letters(t: Seq<char>)
    requires
        t.len() > 0,
        'A' <= t[0] <= 'Z',
        'A' <= t.last() <= 'Z',
    ensures
        trim_spec(t) == t,
{
    assert(trim_start_spec(t) == t);
    assert(trim_end_spec(t) == t);
}

/// Law: the name a log mode is displayed as parses back to that mode.
pub proof fn law_log_mode_display_parses_back(m: LogMode)
    ensures
        is_ascii_chars(trim_spec(log_mode_text(m))),
        log_mode_named(ascii_lower(trim_spec(log_mode_text(m)))) == Some(m),
{
    reveal_strlit("HUMAN");
    reveal_strlit("JSON");
    reveal_strlit("human");
    reveal_strlit("json");
    let t = log_mode_text(m);
    lemma_trim_letters(t);
    assert(is_ascii_chars(t));
    match m {
        LogMode::Human => assert(ascii_lower(t) =~= "human"@),
        LogMode::Json => assert(ascii_lower(t) =~= "json"@),
    }
}

/// Law: the name a log level is displayed as parses back to that level.
pub proof fn law_log_level_display_parses_back(l: LogLevel)
    ensures
        is_ascii_chars(trim_spec(log_level_text(l))),
        log_level_named(ascii_lower(trim_spec(log_level_text(l)))) == Some(l),
{
    reveal_strlit("OFF");
    reveal_strlit("ERROR");
    reveal_strlit("WARN");
    reveal_strlit("INFO");
    reveal_strlit("DEBUG");
    reveal_strlit("TRACE");
    reveal_strlit("off");
    reveal_strlit("error");
    reveal_strlit("warn");
    reveal_strlit("info");
    reveal_strlit("debug");
    reveal_strlit("trace");
    let t = log_level_text(l);
    lemma_trim_letters(t);
    assert(is_ascii_chars(t));
    match l {
        LogLevel::Off => {
            assert(ascii_lower(t) =~= "off"@);
            assert(log_level_named("off"@) == Some(l));
        },
        LogLevel::Error => {
            assert(ascii_lower(t) =~= "error"@);
            assert(log_level_named("error"@) == Some(l));
        },
        LogLevel::Warn => {
            assert(ascii_lower(t) =~= "warn"@);
            assert(log_level_named("warn"@) == Some(l));
        },
        LogLevel::Info => {
            assert(ascii_lower(t) =~= "info"@);
            assert("info"@[0] != "warn"@[0]);
            assert(log_level_named("info"@) == Some(l));
        },
        LogLevel::Debug => {
            assert(ascii_lower(t) =~= "debug"@);
            assert("debug"@[0] != "error"@[0]);
            assert(log_level_named("debug"@) == Some(l));
        },
        LogLevel::Trace => {
            assert(ascii_lower(t) =~= "trace"@);
            assert("trace"@[0] != "error"@[0] && "trace"@[0] != "debug"@[0]);
            assert(log_level_named("trace"@) == Some(l));
        },
    }
}

/// Law: each log level name selects its own level, and each level is displayed
/// as its own name in capitals.
pub proof fn law_log_level_names()
    ensures
        log_level_named("off"@) == Some(LogLevel::Off),
        log_level_named("error"@) == Some(LogLevel::Error),
        log_level_named("warn"@) == Some(LogLevel::Warn),
        log_level_named("info"@) == Some(LogLevel::Info),
        log_level_named("debug"@) == Some(LogLevel::Debug),
        log_level_named("trace"@) == Some(LogLevel::Trace),
        log_level_text(LogLevel::Off) == "OFF"@,
        log_level_text(LogLevel::Error) == "ERROR"@,
        log_level_text(LogLevel::Warn) == "WARN"@,
        log_level_text(LogLevel::Info) == "INFO"@,
        log_level_text(LogLevel::Debug) == "DEBUG"@,
        log_level_text(LogLevel::Trace) == "TRACE"@,
{
    reveal_strlit("off");
    reveal_strlit("error");
    reveal_strlit("warn");
    reveal_strlit("info");
    reveal_strlit("debug");
    reveal_strlit("trace");
    assert("info"@[0] != "warn"@[0]);
    assert("trace"@[0] != "error"@[0] && "trace"@[0] != "debug"@[0]);
    assert("debug"@[0] != "error"@[0]);
}

/// Law: each log mode name selects its own mode, and each mode is displayed as
/// its own name in capitals.
pub proof fn law_log_mode_names()
    ensures
        log_mode_named("human"@) == Some(LogMode::Human),
        log_mode_named("json"@) == Some(LogMode::Json),
        log_mode_text(LogMode::Human) == "HUMAN"@,
        log_mode_text(LogMode::Json) == "JSON"@,
{
    reveal_strlit("human");
    reveal_strlit("json");
    assert("json"@.len() != "human"@.len());
}

} // verus!
