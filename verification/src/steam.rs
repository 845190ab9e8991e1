//! The update tool: what it reports, and how its reports are read.

use vstd::prelude::*;

pub mod manager;
pub mod parser;
pub mod update;

verus! {

/// The stage that an update has reached.
#[derive(Debug, Clone, Copy, PartialEq, Eq, Structural)]
pub enum UpdateState {
    Unknown,
    Starting,
    Downloading,
    Verifying,
    Extracting,
    Installing,
    Complete,
    Error,
}

impl Default for UpdateState {
    fn default() -> (s: Self)
        ensures
            s == UpdateState::Unknown,
    {
        UpdateState::Unknown
    }
}

impl UpdateState {
    /// Whether no further event follows one in this state.
    pub open spec fn is_terminal(self) -> bool {
        self == UpdateState::Complete || self == UpdateState::Error
    }

    /// Whether no further event follows one in this state.
    pub fn terminal(&self) -> (b: bool)
        ensures
            b == self.is_terminal(),
    {
        match self {
            UpdateState::Complete => true,
            UpdateState::Error => true,
            _ => false,
        }
    }
}

/// How far a transfer has come: `current` units of `total`. As a share of
/// the whole it is `100 * current / total` percent, and nothing when `total`
/// is 0.
#[derive(Debug, Clone, Copy, PartialEq, Eq, Structural)]
pub struct Progress {
    pub current: u64,
    pub total: u64,
}

impl Progress {
    /// The whole percents reached; 0 when the total is 0.
    pub open spec fn percent(self) -> nat {
        if self.total == 0 {
            0
        } else {
            (100 * self.current / (self.total as int)) as nat
        }
    }

    /// No progress at all.
    pub fn none() -> (p: Progress)
        ensures
            p == (Progress { current: 0, total: 0 }),
            p.percent() == 0,
    {
        Progress { current: 0, total: 0 }
    }

    /// Everything done.
    pub fn full() -> (p: Progress)
        ensures
            p == (Progress { current: 1, total: 1 }),
            p.percent() == 100,
    {
        Progress { current: 1, total: 1 }
    }

    /// The whole percents reached; 0 when the total is 0.
    pub fn whole_percent(&self) -> (p: u128)
        ensures
            p == self.percent(),
    {
        if self.total == 0 {
            0
        } else {
            let done: u128 = 100 * (self.current as u128);
            done / (self.total as u128)
        }
    }
}

/// An installed title, as the update tool lists it.
#[derive(Debug, Clone)]
pub struct SteamGame {
    pub app_id: u32,
    pub name: String,
    pub install_dir: String,
}

/// What a `SteamGame` holds.
pub struct SteamGameView {
    pub app_id: u32,
    pub name: Seq<char>,
    pub install_dir: Seq<char>,
}

impl View for SteamGame {
    type V = SteamGameView;

    open spec fn view(&self) -> SteamGameView {
        SteamGameView { app_id: self.app_id, name: self.name@, install_dir: self.install_dir@ }
    }
}

/// One progress event of an update.
#[derive(Debug, Clone)]
pub struct UpdateStatus {
    pub progress: Progress,
    pub status: String,
    pub state: UpdateState,
    pub error: Option<String>,
}

/// What an `UpdateStatus` holds.
pub struct UpdateStatusView {
    pub progress: Progress,
    pub status: Seq<char>,
    pub state: UpdateState,
    pub error: Option<Seq<char>>,
}

impl View for UpdateStatus {
    type V = UpdateStatusView;

    open spec fn view(&self) -> UpdateStatusView {
        UpdateStatusView {
            progress: self.progress,
            status: self.status@,
            state: self.state,
            error: match self.error {
                Some(e) => Some(e@),
                None => None,
            },
        }
    }
}

impl Default for UpdateStatus {
    fn default() -> (s: Self)
        ensures
            s@ == (UpdateStatusView {
                progress: Progress { current: 0, total: 0 },
                status: Seq::empty(),
                state: UpdateState::Unknown,
                error: None,
            }),
    {
        UpdateStatus {
            progress: Progress::none(),
            status: String::new(),
            state: UpdateState::Unknown,
            error: None,
        }
    }
}

} // verus!
