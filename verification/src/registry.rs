//! Where the platforms are installed, as the system's registry and the
//! platforms' own files say it.

use crate::error::Error;
use crate::text::{chars_of, string_of};
use vstd::prelude::*;

pub mod epic;
pub mod steam;

verus! {

/// A program that the system lists as installed.
#[derive(Debug)]
pub struct InstalledProgram {
    pub name: String,
    pub install_location: String,
    pub publisher: Option<String>,
    pub version: Option<String>,
    pub uninstall_string: Option<String>,
}

/// The words that introduce the cause when Steam is in neither part of the
/// registry.
pub open spec fn steam_missing_prefix() -> Seq<char> {
    "Steam не найден ни в 32-битном, ни в 64-битном реестре: "@
}

/// Where Steam is installed, given what the two parts of the registry
/// answered: the first answer where it is a path, and else the second. Where
/// neither is a path, the error says so and carries the message of the
/// second failure.
pub fn choose_install_path(
    primary: Result<String, Error>,
    fallback: Result<String, Error>,
) -> (path: Result<String, Error>)
    ensures
        match (primary, fallback) {
            (Ok(p), _) => path matches Ok(chosen) && chosen@ == p@,
            (Err(_), Ok(p)) => path matches Ok(chosen) && chosen@ == p@,
            (Err(_), Err(cause)) => path matches Err(Error::Registry(m)) && m@
                == steam_missing_prefix() + cause.message_text(),
        },
{
    match primary {
        Ok(p) => Ok(p),
        Err(_) => match fallback {
            Ok(p) => Ok(p),
            Err(cause) => {
                let mut text = chars_of(
                    "Steam не найден ни в 32-битном, ни в 64-битном реестре: ",
                );
                let mut detail = chars_of(cause.message().as_str());
                text.append(&mut detail);
                Err(Error::Registry(string_of(&text)))
            },
        },
    }
}

} // verus!
