//! Titles of Steam: their identifiers, and the tool's calls without a user.

use crate::cache::{expiry, expiry_at};
use crate::clock::utc_now_millis;
use crate::games::{found_game, game_list, Game, GameView, Platform};
use crate::text::number::{decimal_digits, u64_to_chars};
use crate::text::{lowercase_of, owned, str_eq, string_of, string_views, to_lowercase};
use vstd::prelude::*;

verus! {

/// The minutes for which the list of all titles is kept: a day.
pub const APP_LIST_TTL_MINUTES: i64 = 1440;

/// A title of the platform's catalogue.
#[derive(Debug, Clone)]
pub struct SteamApp {
    pub appid: u32,
    pub name: String,
}

/// The arguments that make the tool update a title and validate its files,
/// logged in without a name.
pub open spec fn update_words(game_id: Seq<char>) -> Seq<Seq<char>> {
    seq!["+login"@, "anonymous"@, "+app_update"@, game_id, "validate"@, "+quit"@]
}

/// The arguments that make the tool refresh what it knows and report the
/// status of a title, logged in without a name.
pub open spec fn check_words(game_id: Seq<char>) -> Seq<Seq<char>> {
    seq![
        "+login"@,
        "anonymous"@,
        "+app_info_update"@,
        "1"@,
        "+app_status"@,
        game_id,
        "+quit"@,
    ]
}

/// The arguments that make the tool update a title.
pub fn update_args(game_id: &str) -> (args: Vec<String>)
    ensures
        string_views(args@) == update_words(game_id@),
{
    let mut args: Vec<String> = Vec::new();
    args.push(owned("+login"));
    args.push(owned("anonymous"));
    args.push(owned("+app_update"));
    args.push(owned(game_id));
    args.push(owned("validate"));
    args.push(owned("+quit"));
    assert(string_views(args@) =~= update_words(game_id@));
    args
}

/// The arguments that make the tool report the status of a title.
pub fn check_args(game_id: &str) -> (args: Vec<String>)
    ensures
        string_views(args@) == check_words(game_id@),
{
    let mut args: Vec<String> = Vec::new();
    args.push(owned("+login"));
    args.push(owned("anonymous"));
    args.push(owned("+app_info_update"));
    args.push(owned("1"));
    args.push(owned("+app_status"));
    args.push(owned(game_id));
    args.push(owned("+quit"));
    assert(string_views(args@) =~= check_words(game_id@));
    args
}

/// The index of the first text that equals `target`.
pub open spec fn first_equal(texts: Seq<Seq<char>>, target: Seq<char>) -> Option<nat>
    decreases texts.len(),
{
    if texts.len() == 0 {
        None
    } else if texts[0] == target {
        Some(0)
    } else {
        match first_equal(texts.drop_first(), target) {
            Some(i) => Some(i + 1),
            None => None,
        }
    }
}

/// The names of the catalogue's titles in lower case, in order.
pub open spec fn lowered_names(apps: Seq<SteamApp>) -> Seq<Seq<char>> {
    Seq::new(apps.len(), |i: int| lowercase_of(apps[i].name@))
}

/// The number of the first title of the catalogue whose name, in lower
/// case, is `lower`.
pub open spec fn app_id_named(apps: Seq<SteamApp>, lower: Seq<char>) -> Option<u32> {
    match first_equal(lowered_names(apps), lower) {
        Some(i) => if i < apps.len() {
            Some(apps[i as int].appid)
        } else {
            None
        },
        None => None,
    }
}

/// The index of the first of `texts` that equals `target`.
pub fn position_of_text(texts: &Vec<String>, target: &str) -> (found: Option<usize>)
    ensures
        match first_equal(string_views(texts@), target@) {
            Some(i) => found == Some(i as usize) && i < texts.len(),
            None => found is None,
        },
{
    let mut i: usize = 0;
    assert(string_views(texts@).skip(0) =~= string_views(texts@));
    while i < texts.len()
        invariant
            i <= texts.len(),
            first_equal(string_views(texts@), target@) == match first_equal(
                string_views(texts@).skip(i as int),
                target@,
            ) {
                Some(k) => Some((k + i) as nat),
                None => None,
            },
        decreases texts.len() - i,
    {
        let ghost rest = string_views(texts@).skip(i as int);
        assert(rest[0] == texts@[i as int]@);
        assert(rest.drop_first() =~= string_views(texts@).skip(i + 1));
        if str_eq(texts[i].as_str(), target) {
            return Some(i);
        }
        i += 1;
    }
    None
}

/// The number of the first title of the catalogue that has the given name,
/// whatever the case of the letters.
pub fn find_app_id(apps: &Vec<SteamApp>, name: &str) -> (found: Option<u32>)
    ensures
        found == app_id_named(apps@, lowercase_of(name@)),
{
    let lower = to_lowercase(name);
    let mut names: Vec<String> = Vec::new();
    let mut i: usize = 0;
    while i < apps.len()
        invariant
            i <= apps.len(),
            string_views(names@) == lowered_names(apps@).take(i as int),
        decreases apps.len() - i,
    {
        let ghost before = string_views(names@);
        let lowered = to_lowercase(apps[i].name.as_str());
        names.push(lowered);
        i += 1;
        proof {
            assert(string_views(names@) =~= before.push(lowered@));
            assert(lowered_names(apps@).take(i as int) =~= lowered_names(apps@).take(i - 1).push(
                lowered_names(apps@)[i - 1],
            ));
        }
    }
    assert(lowered_names(apps@).take(i as int) =~= lowered_names(apps@));
    match position_of_text(&names, lower.as_str()) {
        Some(k) => Some(apps[k].appid),
        None => None,
    }
}

/// The Steam title with the given number in the catalogue, found installed
/// under `path`. Its identifier is the number in decimal notation.
pub fn steam_game(app_id: u32, name: String, path: String) -> (game: Game)
    ensures
        game@ == found_game(decimal_digits(app_id as nat), name@, Platform::Steam, path@),
{
    Game {
        id: string_of(&u64_to_chars(app_id as u64)),
        name,
        platform: Platform::Steam,
        install_path: path,
        last_update: None,
        update_status: None,
    }
}

/// The installed titles that the catalogue knows, in the order in which
/// they were found. A title's identifier is its number in the catalogue; a
/// title that the catalogue does not know is left out.
pub open spec fn steam_games(found: Seq<(String, String)>, apps: Seq<SteamApp>) -> Seq<GameView>
    decreases found.len(),
{
    if found.len() == 0 {
        Seq::empty()
    } else {
        let rest = steam_games(found.drop_first(), apps);
        match app_id_named(apps, lowercase_of(found[0].0@)) {
            Some(app_id) => seq![
                found_game(
                    decimal_digits(app_id as nat),
                    found[0].0@,
                    Platform::Steam,
                    found[0].1@,
                ),
            ] + rest,
            None => rest,
        }
    }
}

/// The installed titles that the catalogue knows.
pub fn get_installed_games(
    found: &Vec<(String, String)>,
    apps: &Vec<SteamApp>,
) -> (games: Vec<Game>)
    ensures
        game_list(games@) == steam_games(found@, apps@),
{
    let mut games: Vec<Game> = Vec::new();
    let mut i: usize = 0;
    assert(found@.skip(0) =~= found@);
    assert(game_list(games@) + steam_games(found@, apps@) =~= steam_games(found@, apps@));
    while i < found.len()
        invariant
            i <= found.len(),
            game_list(games@) + steam_games(found@.skip(i as int), apps@) == steam_games(
                found@,
                apps@,
            ),
        decreases found.len() - i,
    {
        let ghost before = game_list(games@);
        let ghost rest = found@.skip(i as int);
        assert(rest.drop_first() =~= found@.skip(i + 1));
        match find_app_id(apps, found[i].0.as_str()) {
            Some(app_id) => {
                let game = steam_game(app_id, found[i].0.clone(), found[i].1.clone());
                games.push(game);
                proof {
                    assert(game_list(games@) =~= before + seq![game@]);
                    assert(game_list(games@) + steam_games(rest.drop_first(), apps@) =~= before
                        + steam_games(rest, apps@));
                }
            },
            None => {},
        }
        i += 1;
    }
    assert(found@.skip(i as int).len() == 0);
    assert(game_list(games@) + steam_games(found@.skip(i as int), apps@) =~= game_list(games@));
    games
}

/// The catalogue of all titles, kept for a day after it was read.
pub struct AppListCache {
    pub entry: Option<(Vec<SteamApp>, i64)>,
}

/// What the kept catalogue says of a name.
#[derive(Debug, Clone, Copy, PartialEq, Eq, Structural)]
pub enum Lookup {
    /// The catalogue is there and not too old: this is the answer.
    Known(Option<u32>),
    /// No catalogue is kept, or it is too old: it has to be read again.
    Stale,
}

/// What a kept catalogue says of `name` at `now`: the answer of the
/// catalogue while it has not expired, and that it is stale from then on or
/// where none is kept.
pub open spec fn kept_answer(
    entry: Option<(Vec<SteamApp>, i64)>,
    name: Seq<char>,
    now: i64,
) -> Lookup {
    match entry {
        Some((apps, expires)) => if expires > now {
            Lookup::Known(app_id_named(apps@, lowercase_of(name)))
        } else {
            Lookup::Stale
        },
        None => Lookup::Stale,
    }
}

impl AppListCache {
    /// A cache that keeps nothing.
    pub fn new() -> (cache: Self)
        ensures
            cache.entry is None,
    {
        AppListCache { entry: None }
    }

    /// What the kept catalogue says of `name` at `now`.
    pub fn lookup_at(&self, name: &str, now: i64) -> (answer: Lookup)
        ensures
            answer == kept_answer(self.entry, name@, now),
    {
        match &self.entry {
            Some((apps, expires)) => {
                if *expires > now {
                    Lookup::Known(find_app_id(apps, name))
                } else {
                    Lookup::Stale
                }
            },
            None => Lookup::Stale,
        }
    }

    /// What the kept catalogue says of `name` at the time that the clock
    /// shows.
    pub fn lookup(&self, name: &str) -> (answer: Lookup)
        ensures
            exists|now: i64| answer == kept_answer(self.entry, name@, now),
    {
        let now = utc_now_millis();
        self.lookup_at(name, now)
    }

    /// Keeps `apps`, read at `now`, for a day.
    pub fn store_at(&mut self, apps: Vec<SteamApp>, now: i64)
        ensures
            final(self).entry == Some((apps, expiry(now, APP_LIST_TTL_MINUTES))),
    {
        self.entry = Some((apps, expiry_at(now, APP_LIST_TTL_MINUTES)));
    }

    /// Keeps `apps`, read just now by the clock, for a day.
    pub fn store(&mut self, apps: Vec<SteamApp>)
        ensures
            exists|now: i64|
                final(self).entry == Some((apps, #[trigger] expiry(now, APP_LIST_TTL_MINUTES))),
    {
        let now = utc_now_millis();
        self.store_at(apps, now)
    }
}

} // verus!
