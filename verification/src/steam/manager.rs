//! The manager of the update tool: where the tool is, how it is called, and
//! what is remembered of its answers.
//!
//! The manager never runs the tool itself. It says with which arguments to
//! run it, and it takes what the tool printed and how it exited.

use crate::cache::recency::{
    inserted, lemma_inserted, lookup, touched, well_formed, without, Entries,
};
use crate::cache::{expiry, unexpired, Cache, TimedCacheEntry};
use crate::clock::utc_now_millis;
use crate::error::Error;
use crate::lru_store::MAX_CAPACITY;
use crate::settings::Settings;
use crate::steam::parser::{
    check_update_needed, game_views, installed_from, parse_installed_games, update_verdict,
    Pending,
};
use crate::steam::update::{closing_event, completed_event, failure_text, succeeded, UpdateRun};
use crate::steam::{SteamGame, UpdateStatus};
use crate::text::number::{decimal_digits, u64_to_chars};
use crate::text::split::lines;
use crate::text::{opt_view, owned, string_of, string_views};
use vstd::prelude::*;

verus! {

/// What the tool is asked to do.
#[derive(Debug, Clone, Copy, PartialEq, Eq, Structural)]
pub enum Operation {
    /// List the installed titles.
    ListInstalled,
    /// Report whether a title needs an update.
    CheckStatus(u32),
    /// Update a title.
    Update(u32),
    /// Update a title and validate its files.
    UpdateValidated(u32),
}

/// What was found on disk when the tool was looked for.
#[derive(Debug, Clone)]
pub struct ToolProbe {
    /// Whether the path that the settings name for the tool exists.
    pub custom_exists: bool,
    /// The tool's path beside the application, if the tool is there.
    pub bundled: Option<String>,
}

/// The place of the tool beside the application, from directory to file.
pub open spec fn bundled_tool_parts() -> Seq<Seq<char>> {
    seq!["resources"@, "bin"@, "steamcmd"@, "steamcmd.exe"@]
}

/// Where the tool is taken from: the path that the settings name, if it
/// exists; else the place beside the application, if the tool is there.
pub open spec fn resolved_tool(
    custom: Option<Seq<char>>,
    custom_exists: bool,
    bundled: Option<Seq<char>>,
) -> Option<Seq<char>> {
    if custom is Some && custom_exists {
        custom
    } else {
        bundled
    }
}

/// The words that log in: with the user's name and password where both are
/// set, and without a name otherwise.
pub open spec fn login_words(
    username: Option<Seq<char>>,
    password: Option<Seq<char>>,
) -> Seq<Seq<char>> {
    match (username, password) {
        (Some(name), Some(secret)) => seq!["+login"@, name, secret],
        _ => seq!["+login"@, "anonymous"@],
    }
}

/// The words that ask for an operation.
pub open spec fn operation_words(op: Operation) -> Seq<Seq<char>> {
    match op {
        Operation::ListInstalled => seq!["+apps_installed"@],
        Operation::CheckStatus(app_id) => seq!["+app_status"@, decimal_digits(app_id as nat)],
        Operation::Update(app_id) => seq!["+app_update"@, decimal_digits(app_id as nat)],
        Operation::UpdateValidated(app_id) => seq![
            "+app_update"@,
            decimal_digits(app_id as nat),
            "validate"@,
        ],
    }
}

/// The arguments of one call of the tool: the login, then the operation,
/// then the word that makes the tool quit. The tool carries them out in
/// this order.
pub open spec fn command_words(
    username: Option<Seq<char>>,
    password: Option<Seq<char>>,
    op: Operation,
) -> Seq<Seq<char>> {
    login_words(username, password) + operation_words(op) + seq!["+quit"@]
}

/// The place of the tool beside the application, from directory to file.
pub fn bundled_tool_path() -> (parts: Vec<String>)
    ensures
        string_views(parts@) == bundled_tool_parts(),
{
    let mut parts: Vec<String> = Vec::new();
    parts.push(owned("resources"));
    parts.push(owned("bin"));
    parts.push(owned("steamcmd"));
    parts.push(owned("steamcmd.exe"));
    assert(string_views(parts@) =~= bundled_tool_parts());
    parts
}

/// The arguments of one call of the tool.
pub fn build_steam_args(
    username: &Option<String>,
    password: &Option<String>,
    op: Operation,
) -> (args: Vec<String>)
    ensures
        string_views(args@) == command_words(opt_view(*username), opt_view(*password), op),
{
    let mut args: Vec<String> = Vec::new();
    args.push(owned("+login"));
    match (username, password) {
        (Some(name), Some(secret)) => {
            args.push(name.clone());
            args.push(secret.clone());
        },
        _ => {
            args.push(owned("anonymous"));
        },
    }
    assert(string_views(args@) =~= login_words(opt_view(*username), opt_view(*password)));
    match op {
        Operation::ListInstalled => {
            args.push(owned("+apps_installed"));
        },
        Operation::CheckStatus(app_id) => {
            args.push(owned("+app_status"));
            args.push(string_of(&u64_to_chars(app_id as u64)));
        },
        Operation::Update(app_id) => {
            args.push(owned("+app_update"));
            args.push(string_of(&u64_to_chars(app_id as u64)));
        },
        Operation::UpdateValidated(app_id) => {
            args.push(owned("+app_update"));
            args.push(string_of(&u64_to_chars(app_id as u64)));
            args.push(owned("validate"));
        },
    }
    assert(string_views(args@) =~= login_words(opt_view(*username), opt_view(*password))
        + operation_words(op));
    args.push(owned("+quit"));
    assert(string_views(args@) =~= command_words(opt_view(*username), opt_view(*password), op));
    args
}

/// What to do about a check for updates.
#[derive(Debug)]
pub enum CheckStep {
    /// The answer is remembered: this is it, and the tool is not run.
    Cached(bool),
    /// The tool has to be run with these arguments.
    Probe(Vec<String>),
}

/// Whether `step` is what is due at `now` for a check of `app_id`: the
/// remembered answer where one is remembered and has not expired, and
/// otherwise a call of the tool for the status of the title.
pub open spec fn check_step(
    checks: Entries,
    username: Option<Seq<char>>,
    password: Option<Seq<char>>,
    app_id: u32,
    now: i64,
    step: CheckStep,
) -> bool {
    match unexpired(lookup(checks, app_id), now) {
        Some(slot) => step matches CheckStep::Cached(due) && due == slot.0,
        None => step matches CheckStep::Probe(args) && string_views(args@) == command_words(
            username,
            password,
            Operation::CheckStatus(app_id),
        ),
    }
}

/// The manager of the update tool.
pub struct SteamManager {
    steamcmd_path: String,
    update_cache: Cache,
    settings: Settings,
}

impl SteamManager {
    /// The path of the tool.
    pub closed spec fn tool_path(self) -> Seq<char> {
        self.steamcmd_path@
    }

    /// The user's name for the tool, if set.
    pub closed spec fn username(self) -> Option<Seq<char>> {
        opt_view(self.settings.steam_username)
    }

    /// The user's password for the tool, if set.
    pub closed spec fn password(self) -> Option<Seq<char>> {
        opt_view(self.settings.steam_password)
    }

    /// The minutes for which a check is remembered.
    pub closed spec fn ttl_minutes(self) -> i64 {
        self.settings.cache_ttl_minutes
    }

    /// The remembered checks, the most recently used first: for each title
    /// the verdict and the time at which it expires.
    pub closed spec fn checks(self) -> Entries {
        self.update_cache.entries()
    }

    /// The number of checks that are remembered at most.
    pub closed spec fn capacity(self) -> nat {
        self.update_cache.capacity()
    }

    /// Whether the remembered checks are within their bound, no title twice.
    pub open spec fn wf(self) -> bool {
        well_formed(self.checks(), self.capacity())
    }

    /// Whether two managers differ at most in what they remember.
    pub open spec fn same_setup(self, other: SteamManager) -> bool {
        &&& self.tool_path() == other.tool_path()
        &&& self.username() == other.username()
        &&& self.password() == other.password()
        &&& self.ttl_minutes() == other.ttl_minutes()
        &&& self.capacity() == other.capacity()
    }

    /// A manager for the tool found by `probe`, with nothing remembered. It
    /// fails exactly where the tool is at neither place.
    pub fn new(settings: Settings, probe: ToolProbe) -> (made: Result<SteamManager, Error>)
        requires
            0 < settings.cache_size <= MAX_CAPACITY,
        ensures
            match resolved_tool(
                opt_view(settings.custom_steamcmd_path),
                probe.custom_exists,
                opt_view(probe.bundled),
            ) {
                Some(path) => made matches Ok(m) && m.wf() && m.tool_path() == path && m.username()
                    == opt_view(settings.steam_username) && m.password() == opt_view(
                    settings.steam_password,
                ) && m.ttl_minutes() == settings.cache_ttl_minutes && m.capacity()
                    == settings.cache_size && m.checks() == Seq::<(u32, (bool, i64))>::empty(),
                None => made matches Err(Error::SteamCmdNotFound),
            },
    {
        let custom: Option<String> = if probe.custom_exists {
            settings.custom_steamcmd_path.clone()
        } else {
            None
        };
        let path: Option<String> = match custom {
            Some(p) => Some(p),
            None => probe.bundled,
        };
        match path {
            Some(steamcmd_path) => {
                let update_cache = Cache::new(settings.cache_size);
                Ok(SteamManager { steamcmd_path, update_cache, settings })
            },
            None => Err(Error::SteamCmdNotFound),
        }
    }

    /// The path of the tool.
    pub fn steamcmd_path(&self) -> (path: &String)
        ensures
            path@ == self.tool_path(),
    {
        &self.steamcmd_path
    }

    /// The arguments with which the tool carries out `op`.
    pub fn build_steam_command(&self, op: Operation) -> (args: Vec<String>)
        ensures
            string_views(args@) == command_words(self.username(), self.password(), op),
    {
        build_steam_args(&self.settings.steam_username, &self.settings.steam_password, op)
    }

    /// The installed titles, from the tool's answer to `ListInstalled`.
    pub fn get_installed_games(&self, output: &str) -> (games: Result<Vec<SteamGame>, Error>)
        ensures
            games is Ok,
            game_views(games->Ok_0@) == installed_from(
                lines(output@),
                Pending { app_id: None, name: None, install_dir: None },
            ),
    {
        parse_installed_games(output)
    }

    /// What to do at `now` about a check of `app_id`: where a check is
    /// remembered and has not expired, its answer stands; otherwise the tool
    /// is to be asked.
    pub fn check_for_updates_at(&mut self, app_id: u32, now: i64) -> (step: CheckStep)
        requires
            old(self).wf(),
        ensures
            final(self).wf(),
            final(self).same_setup(*old(self)),
            final(self).checks() == touched(old(self).checks(), app_id),
            check_step(
                old(self).checks(),
                old(self).username(),
                old(self).password(),
                app_id,
                now,
                step,
            ),
    {
        match self.update_cache.get_at(&app_id, now) {
            Some(entry) => CheckStep::Cached(entry.value),
            None => CheckStep::Probe(self.build_steam_command(Operation::CheckStatus(app_id))),
        }
    }

    /// What to do about a check of `app_id` at the time that the clock
    /// shows: whatever that time is, the step is the one that is due then.
    pub fn check_for_updates(&mut self, app_id: u32) -> (step: CheckStep)
        requires
            old(self).wf(),
        ensures
            final(self).wf(),
            final(self).same_setup(*old(self)),
            final(self).checks() == touched(old(self).checks(), app_id),
            exists|now: i64|
                check_step(
                    old(self).checks(),
                    old(self).username(),
                    old(self).password(),
                    app_id,
                    now,
                    step,
                ),
    {
        let now = utc_now_millis();
        self.check_for_updates_at(app_id, now)
    }

    /// Takes the tool's answer to a check of `app_id` that was made at
    /// `now`. A verdict is remembered for the configured minutes and
    /// returned. An answer without a verdict is an error, and nothing is
    /// remembered of it.
    pub fn finish_check_at(
        &mut self,
        app_id: u32,
        output: &str,
        now: i64,
    ) -> (answer: Result<bool, Error>)
        requires
            old(self).wf(),
        ensures
            final(self).wf(),
            final(self).same_setup(*old(self)),
            match update_verdict(lines(output@)) {
                Some(due) => answer == Ok::<bool, Error>(due) && final(self).checks() == inserted(
                    old(self).checks(),
                    old(self).capacity(),
                    app_id,
                    (due, expiry(now, old(self).ttl_minutes())),
                ),
                None => answer matches Err(Error::Unknown(m)) && m@ == no_verdict_text()
                    && final(self).checks() == old(self).checks(),
            },
    {
        match check_update_needed(output) {
            Ok(due) => {
                let entry = TimedCacheEntry::new_at(due, now, self.settings.cache_ttl_minutes);
                self.update_cache.set(app_id, entry);
                Ok(due)
            },
            Err(e) => Err(e),
        }
    }

    /// Takes the tool's answer to a check of `app_id` that was made just
    /// now, by the clock.
    pub fn finish_check(&mut self, app_id: u32, output: &str) -> (answer: Result<bool, Error>)
        requires
            old(self).wf(),
        ensures
            final(self).wf(),
            final(self).same_setup(*old(self)),
            match update_verdict(lines(output@)) {
                Some(due) => answer == Ok::<bool, Error>(due) && exists|now: i64|
                    final(self).checks() == inserted(
                        old(self).checks(),
                        old(self).capacity(),
                        app_id,
                        (due, #[trigger] expiry(now, old(self).ttl_minutes())),
                    ),
                None => answer matches Err(Error::Unknown(m)) && m@ == no_verdict_text()
                    && final(self).checks() == old(self).checks(),
            },
    {
        let now = utc_now_millis();
        self.finish_check_at(app_id, output, now)
    }

    /// Concludes an update once the tool has exited: the last event for the
    /// caller, and the result. After a success the check of the title is
    /// forgotten, so that the next check asks the tool again; after a
    /// failure everything remembered stays.
    pub fn finish_update(
        &mut self,
        run: UpdateRun,
        exit_ok: bool,
    ) -> (end: (UpdateStatus, Result<(), Error>))
        requires
            old(self).wf(),
        ensures
            final(self).wf(),
            final(self).same_setup(*old(self)),
            end.0@ == closing_event(run.observed@, exit_ok),
            end.1 is Ok <==> succeeded(run.observed@, exit_ok),
            end.1 matches Err(e) ==> e matches Error::ProcessError(text) && text@ == failure_text(
                run.observed@,
            ),
            final(self).checks() == if succeeded(run.observed@, exit_ok) {
                without(old(self).checks(), run.app_id)
            } else {
                old(self).checks()
            },
    {
        let app_id = run.app_id;
        let end = run.conclude(exit_ok);
        if end.1.is_ok() {
            self.update_cache.invalidate(&app_id);
        }
        end
    }

    /// Concludes an update of which only the transfer was followed: its
    /// success is the tool's exit with success. After a success the last
    /// event is returned and the check of the title is forgotten; after a
    /// failure everything remembered stays.
    pub fn finish_plain_update(
        &mut self,
        app_id: u32,
        exit_ok: bool,
    ) -> (end: Result<UpdateStatus, Error>)
        requires
            old(self).wf(),
        ensures
            final(self).wf(),
            final(self).same_setup(*old(self)),
            final(self).checks() == if exit_ok {
                without(old(self).checks(), app_id)
            } else {
                old(self).checks()
            },
            match end {
                Ok(last) => exit_ok && last@ == completed_event(),
                Err(Error::ProcessError(text)) => !exit_ok && text@ == plain_failure_text(),
                Err(_) => false,
            },
    {
        if exit_ok {
            self.update_cache.invalidate(&app_id);
            Ok(
                UpdateStatus {
                    progress: crate::steam::Progress::full(),
                    status: owned("Update completed"),
                    state: crate::steam::UpdateState::Complete,
                    error: None,
                },
            )
        } else {
            Err(Error::ProcessError(owned("Update failed")))
        }
    }
}

/// Every call of the tool logs in first and quits last, whatever it is
/// asked to do in between and whoever asks.
pub proof fn command_logs_in_first_and_quits_last(
    username: Option<Seq<char>>,
    password: Option<Seq<char>>,
    op: Operation,
)
    ensures
        command_words(username, password, op).len() >= 4,
        command_words(username, password, op).first() == "+login"@,
        command_words(username, password, op).last() == "+quit"@,
        login_words(username, password).is_prefix_of(command_words(username, password, op)),
{
    let login = login_words(username, password);
    let words = command_words(username, password, op);
    assert(login.len() >= 2);
    assert(operation_words(op).len() >= 1);
    assert(words[0] == login[0]);
    assert(login =~= words.subrange(0, login.len() as int));
}

/// The text of the error for an answer of the tool without a verdict.
pub open spec fn no_verdict_text() -> Seq<char> {
    "Could not determine update status"@
}

/// The text of the failure of an update whose events were not followed.
pub open spec fn plain_failure_text() -> Seq<char> {
    "Update failed"@
}

/// A verdict that was remembered at `now` is the answer to every check of
/// the title before the configured minutes have passed: the tool is not
/// asked again.
pub proof fn remembered_check_is_answered(
    checks: Entries,
    cap: nat,
    app_id: u32,
    due: bool,
    now: i64,
    ttl_minutes: i64,
    later: i64,
)
    requires
        well_formed(checks, cap),
        later < expiry(now, ttl_minutes),
    ensures
        unexpired(
            lookup(inserted(checks, cap, app_id, (due, expiry(now, ttl_minutes))), app_id),
            later,
        ) == Some((due, expiry(now, ttl_minutes))),
{
    lemma_inserted(checks, cap, app_id, (due, expiry(now, ttl_minutes)), app_id);
}

} // verus!
