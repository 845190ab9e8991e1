//! How the application's log is configured.

use crate::text::{opt_view, owned, str_eq, to_lowercase, lowercase_of};
use vstd::prelude::*;

verus! {

/// How often a new log file is begun.
#[derive(Debug, Clone, Copy, PartialEq, Eq, Structural)]
pub enum LogRotation {
    Minutely,
    Hourly,
    Daily,
    Never,
}

/// How much is logged.
#[derive(Debug, Clone, Copy, PartialEq, Eq, Structural)]
pub enum LogLevel {
    Trace,
    Debug,
    Info,
    Warn,
    Error,
}

/// The configuration of the log.
#[derive(Debug, Clone)]
pub struct LogConfig {
    pub level: String,
    pub file_name: String,
    pub rotation: LogRotation,
    pub custom_path: Option<String>,
}

/// What a `LogConfig` holds.
pub struct LogConfigView {
    pub level: Seq<char>,
    pub file_name: Seq<char>,
    pub rotation: LogRotation,
    pub custom_path: Option<Seq<char>>,
}

impl View for LogConfig {
    type V = LogConfigView;

    open spec fn view(&self) -> LogConfigView {
        LogConfigView {
            level: self.level@,
            file_name: self.file_name@,
            rotation: self.rotation,
            custom_path: opt_view(self.custom_path),
        }
    }
}

/// The configuration that is used where none is stored: level `info`, file
/// `app.log`, a new file each day, the default directory.
pub open spec fn default_log_config() -> LogConfigView {
    LogConfigView {
        level: "info"@,
        file_name: "app.log"@,
        rotation: LogRotation::Daily,
        custom_path: None,
    }
}

impl Default for LogConfig {
    fn default() -> (config: Self)
        ensures
            config@ == default_log_config(),
    {
        LogConfig {
            level: owned("info"),
            file_name: owned("app.log"),
            rotation: LogRotation::Daily,
            custom_path: None,
        }
    }
}

/// The rotation that a stored word names; a new file each day where the
/// word names none.
pub open spec fn rotation_of(word: Seq<char>) -> LogRotation {
    if word == "minutely"@ {
        LogRotation::Minutely
    } else if word == "hourly"@ {
        LogRotation::Hourly
    } else if word == "daily"@ {
        LogRotation::Daily
    } else if word == "never"@ {
        LogRotation::Never
    } else {
        LogRotation::Daily
    }
}

/// The word under which a rotation is stored.
pub open spec fn rotation_word(rotation: LogRotation) -> Seq<char> {
    match rotation {
        LogRotation::Minutely => "minutely"@,
        LogRotation::Hourly => "hourly"@,
        LogRotation::Daily => "daily"@,
        LogRotation::Never => "never"@,
    }
}

/// The level that a word in lower case names; `Info` where it names none.
pub open spec fn level_of(lower: Seq<char>) -> LogLevel {
    if lower == "trace"@ {
        LogLevel::Trace
    } else if lower == "debug"@ {
        LogLevel::Debug
    } else if lower == "info"@ {
        LogLevel::Info
    } else if lower == "warn"@ {
        LogLevel::Warn
    } else if lower == "error"@ {
        LogLevel::Error
    } else {
        LogLevel::Info
    }
}

/// A rotation that is stored and read again is the same rotation.
pub proof fn stored_rotation_is_read_back(rotation: LogRotation)
    ensures
        rotation_of(rotation_word(rotation)) == rotation,
{
    reveal_strlit("minutely");
    reveal_strlit("hourly");
    reveal_strlit("daily");
    reveal_strlit("never");
    assert("minutely"@.len() == 8);
    assert("hourly"@.len() == 6);
    assert("daily"@.len() == 5);
    assert("never"@.len() == 5);
    assert("daily"@[0] == 'd' && "never"@[0] == 'n');
}

/// The rotation that a stored word names.
pub fn parse_rotation(word: &str) -> (rotation: LogRotation)
    ensures
        rotation == rotation_of(word@),
{
    if str_eq(word, "minutely") {
        LogRotation::Minutely
    } else if str_eq(word, "hourly") {
        LogRotation::Hourly
    } else if str_eq(word, "daily") {
        LogRotation::Daily
    } else if str_eq(word, "never") {
        LogRotation::Never
    } else {
        LogRotation::Daily
    }
}

/// The word under which a rotation is stored.
pub fn rotation_name(rotation: LogRotation) -> (word: String)
    ensures
        word@ == rotation_word(rotation),
{
    match rotation {
        LogRotation::Minutely => owned("minutely"),
        LogRotation::Hourly => owned("hourly"),
        LogRotation::Daily => owned("daily"),
        LogRotation::Never => owned("never"),
    }
}

/// The level that a word in lower case names.
pub fn level_from_lowercase(lower: &str) -> (level: LogLevel)
    ensures
        level == level_of(lower@),
{
    if str_eq(lower, "trace") {
        LogLevel::Trace
    } else if str_eq(lower, "debug") {
        LogLevel::Debug
    } else if str_eq(lower, "info") {
        LogLevel::Info
    } else if str_eq(lower, "warn") {
        LogLevel::Warn
    } else if str_eq(lower, "error") {
        LogLevel::Error
    } else {
        LogLevel::Info
    }
}

impl LogConfig {
    /// The level that the configuration asks for, whatever the case of its
    /// letters.
    pub fn parsed_level(&self) -> (level: LogLevel)
        ensures
            level == level_of(lowercase_of(self.level@)),
    {
        let lower = to_lowercase(self.level.as_str());
        level_from_lowercase(lower.as_str())
    }
}

} // verus!
