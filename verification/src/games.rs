//! Installed titles of every platform, and the progress of their updates.

use crate::error::Error;
use crate::steam::Progress;
use crate::text::{chars_of, contains, contains_chars, opt_view, owned};
use vstd::prelude::*;

pub mod epic;
pub mod manager;
pub mod steam;

verus! {

/// The platform that a title was installed from.
#[derive(Debug, Clone, Copy, PartialEq, Eq, Structural)]
pub enum Platform {
    Steam,
    Epic,
}

/// Where the update of a title stands.
#[derive(Debug, Clone)]
pub struct UpdateStatus {
    pub is_updating: bool,
    pub progress: Option<Progress>,
    pub error: Option<String>,
}

/// What an `UpdateStatus` holds.
pub struct UpdateStatusView {
    pub is_updating: bool,
    pub progress: Option<Progress>,
    pub error: Option<Seq<char>>,
}

impl View for UpdateStatus {
    type V = UpdateStatusView;

    open spec fn view(&self) -> UpdateStatusView {
        UpdateStatusView {
            is_updating: self.is_updating,
            progress: self.progress,
            error: opt_view(self.error),
        }
    }
}

/// A progress event of the update of a title.
#[derive(Debug, Clone)]
pub struct UpdateProgress {
    pub game_id: String,
    pub progress: Progress,
    pub status: UpdateStatus,
    pub message: Option<String>,
}

/// What an `UpdateProgress` holds.
pub struct UpdateProgressView {
    pub game_id: Seq<char>,
    pub progress: Progress,
    pub status: UpdateStatusView,
    pub message: Option<Seq<char>>,
}

impl View for UpdateProgress {
    type V = UpdateProgressView;

    open spec fn view(&self) -> UpdateProgressView {
        UpdateProgressView {
            game_id: self.game_id@,
            progress: self.progress,
            status: self.status@,
            message: opt_view(self.message),
        }
    }
}

/// The event that opens the update of `game_id`.
pub open spec fn started_progress(game_id: Seq<char>) -> UpdateProgressView {
    UpdateProgressView {
        game_id,
        progress: Progress { current: 0, total: 0 },
        status: UpdateStatusView {
            is_updating: true,
            progress: Some(Progress { current: 0, total: 0 }),
            error: None,
        },
        message: Some("Начало обновления..."@),
    }
}

/// The event that reports that the update of `game_id` failed with `error`.
pub open spec fn failed_progress(game_id: Seq<char>, error: Seq<char>) -> UpdateProgressView {
    UpdateProgressView {
        game_id,
        progress: Progress { current: 0, total: 0 },
        status: UpdateStatusView { is_updating: false, progress: None, error: Some(error) },
        message: Some("Ошибка обновления"@),
    }
}

/// The event that reports that the update of `game_id` is done.
pub open spec fn completed_progress(game_id: Seq<char>) -> UpdateProgressView {
    UpdateProgressView {
        game_id,
        progress: Progress { current: 1, total: 1 },
        status: UpdateStatusView {
            is_updating: false,
            progress: Some(Progress { current: 1, total: 1 }),
            error: None,
        },
        message: Some("Обновление завершено"@),
    }
}

impl UpdateProgress {
    /// The event that opens the update of `game_id`.
    pub fn started(game_id: &str) -> (event: UpdateProgress)
        ensures
            event@ == started_progress(game_id@),
    {
        UpdateProgress {
            game_id: owned(game_id),
            progress: Progress::none(),
            status: UpdateStatus {
                is_updating: true,
                progress: Some(Progress::none()),
                error: None,
            },
            message: Some(owned("Начало обновления...")),
        }
    }

    /// The event that reports that the update of `game_id` failed.
    pub fn failed(game_id: &str, error: &str) -> (event: UpdateProgress)
        ensures
            event@ == failed_progress(game_id@, error@),
    {
        UpdateProgress {
            game_id: owned(game_id),
            progress: Progress::none(),
            status: UpdateStatus { is_updating: false, progress: None, error: Some(owned(error)) },
            message: Some(owned("Ошибка обновления")),
        }
    }

    /// The event that reports that the update of `game_id` is done.
    pub fn completed(game_id: &str) -> (event: UpdateProgress)
        ensures
            event@ == completed_progress(game_id@),
    {
        UpdateProgress {
            game_id: owned(game_id),
            progress: Progress::full(),
            status: UpdateStatus {
                is_updating: false,
                progress: Some(Progress::full()),
                error: None,
            },
            message: Some(owned("Обновление завершено")),
        }
    }
}

/// An installed title.
#[derive(Debug, Clone)]
pub struct Game {
    pub id: String,
    pub name: String,
    pub platform: Platform,
    pub install_path: String,
    /// The time of the last update, in milliseconds since the start of 1970.
    pub last_update: Option<i64>,
    pub update_status: Option<UpdateStatus>,
}

/// What a `Game` holds.
pub struct GameView {
    pub id: Seq<char>,
    pub name: Seq<char>,
    pub platform: Platform,
    pub install_path: Seq<char>,
    pub last_update: Option<i64>,
    pub update_status: Option<UpdateStatusView>,
}

impl View for Game {
    type V = GameView;

    open spec fn view(&self) -> GameView {
        GameView {
            id: self.id@,
            name: self.name@,
            platform: self.platform,
            install_path: self.install_path@,
            last_update: self.last_update,
            update_status: match self.update_status {
                Some(s) => Some(s@),
                None => None,
            },
        }
    }
}

/// What a list of titles holds.
pub open spec fn game_list(games: Seq<Game>) -> Seq<GameView> {
    Seq::new(games.len(), |i: int| games[i]@)
}

/// A title that was found installed under `path`, with nothing known of
/// its updates.
pub open spec fn found_game(
    id: Seq<char>,
    name: Seq<char>,
    platform: Platform,
    path: Seq<char>,
) -> GameView {
    GameView { id, name, platform, install_path: path, last_update: None, update_status: None }
}

/// Whether the tool or launcher says in its output that an update is
/// available.
pub open spec fn reports_update(output: Seq<char>) -> bool {
    contains(output, "update available"@)
}

/// Whether the tool or launcher says in its output that an update is
/// available.
pub fn output_reports_update(output: &str) -> (due: bool)
    ensures
        due == reports_update(output@),
{
    contains_chars(&chars_of(output), &chars_of("update available"))
}

/// How an update that ran to its end is reported: the last event, and the
/// result. An exit with failure is an error with what the error stream
/// said.
pub fn update_outcome(
    game_id: &str,
    exit_ok: bool,
    stderr: &str,
) -> (end: (UpdateProgress, Result<(), Error>))
    ensures
        exit_ok ==> end.0@ == completed_progress(game_id@) && end.1 is Ok,
        !exit_ok ==> end.0@ == failed_progress(game_id@, stderr@) && (end.1 matches Err(
            Error::UpdateFailed(text),
        ) && text@ == stderr@),
{
    if exit_ok {
        (UpdateProgress::completed(game_id), Ok(()))
    } else {
        (
            UpdateProgress::failed(game_id, stderr),
            Err(Error::UpdateFailed(owned(stderr))),
        )
    }
}

} // verus!
