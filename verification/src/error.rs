//! The errors of this library.

use crate::text::{chars_of, string_of};
use vstd::prelude::*;

verus! {

/// What can go wrong while titles are found, checked or updated.
#[derive(Debug)]
pub enum Error {
    /// Reading or writing failed.
    Io(String),
    /// The platform registry could not be read.
    Registry(String),
    /// No installed title has the given identifier.
    GameNotFound(String),
    /// The update tool is neither at the configured place nor beside the
    /// application.
    SteamCmdNotFound,
    /// The Epic Games launcher is not installed.
    EpicLauncherNotFound,
    /// The update tool ran and reported a failure.
    UpdateFailed(String),
    /// The update tool could not be started, or ended badly.
    ProcessError(String),
    /// A progress event could not be delivered.
    EmitError(String),
    /// The settings store failed.
    Database(String),
    /// A file could not be read.
    FileError(String),
    /// A file did not have the expected form.
    ParseError(String),
    /// Anything else.
    Unknown(String),
}

impl Error {
    /// The words that introduce the detail in the error's message.
    pub open spec fn prefix(self) -> Seq<char> {
        match self {
            Error::Io(_) => "IO error: "@,
            Error::Registry(_) => "Registry error: "@,
            Error::GameNotFound(_) => "Game not found: "@,
            Error::SteamCmdNotFound => "Steam CMD not found"@,
            Error::EpicLauncherNotFound => "Epic Games Launcher not found"@,
            Error::UpdateFailed(_) => "Update failed: "@,
            Error::ProcessError(_) => "Process error: "@,
            Error::EmitError(_) => "Event emission error: "@,
            Error::Database(_) => "Database error: "@,
            Error::FileError(_) => "File error: "@,
            Error::ParseError(_) => "Parse error: "@,
            Error::Unknown(_) => "Unknown error: "@,
        }
    }

    /// The detail that the error carries; empty where it carries none.
    pub open spec fn detail(self) -> Seq<char> {
        match self {
            Error::Io(d) => d@,
            Error::Registry(d) => d@,
            Error::GameNotFound(d) => d@,
            Error::SteamCmdNotFound => Seq::empty(),
            Error::EpicLauncherNotFound => Seq::empty(),
            Error::UpdateFailed(d) => d@,
            Error::ProcessError(d) => d@,
            Error::EmitError(d) => d@,
            Error::Database(d) => d@,
            Error::FileError(d) => d@,
            Error::ParseError(d) => d@,
            Error::Unknown(d) => d@,
        }
    }

    /// The message shown for the error: its introduction, then its detail.
    pub open spec fn message_text(self) -> Seq<char> {
        self.prefix() + self.detail()
    }

    /// The message shown for the error.
    pub fn message(&self) -> (m: String)
        ensures
            m@ == self.message_text(),
    {
        let (prefix, detail): (&str, &str) = match self {
            Error::Io(d) => ("IO error: ", d.as_str()),
            Error::Registry(d) => ("Registry error: ", d.as_str()),
            Error::GameNotFound(d) => ("Game not found: ", d.as_str()),
            Error::SteamCmdNotFound => ("Steam CMD not found", ""),
            Error::EpicLauncherNotFound => ("Epic Games Launcher not found", ""),
            Error::UpdateFailed(d) => ("Update failed: ", d.as_str()),
            Error::ProcessError(d) => ("Process error: ", d.as_str()),
            Error::EmitError(d) => ("Event emission error: ", d.as_str()),
            Error::Database(d) => ("Database error: ", d.as_str()),
            Error::FileError(d) => ("File error: ", d.as_str()),
            Error::ParseError(d) => ("Parse error: ", d.as_str()),
            Error::Unknown(d) => ("Unknown error: ", d.as_str()),
        };
        proof {
            reveal_strlit("");
            assert(self.detail() =~= detail@);
        }
        let mut chars = chars_of(prefix);
        let mut rest = chars_of(detail);
        chars.append(&mut rest);
        string_of(&chars)
    }
}

} // verus!
