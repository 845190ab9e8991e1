//! The answers that the application gives to its front end.

use crate::text::{owned, string_views};
use vstd::prelude::*;

verus! {

/// The answer to a question for one path.
#[derive(Debug)]
pub struct PathResponse {
    pub path: String,
}

/// The answer to a question for several paths.
#[derive(Debug)]
pub struct PathsResponse {
    pub paths: Vec<String>,
}

/// An installed title of one platform.
#[derive(Debug)]
pub struct GameInfo {
    pub id: String,
    pub path: String,
}

/// The installed titles of one platform.
#[derive(Debug)]
pub struct GamesResponse {
    pub games: Vec<GameInfo>,
}

/// An installed title with its platform.
#[derive(Debug)]
pub struct InstalledGame {
    pub id: String,
    pub path: String,
    pub platform: String,
}

/// The installed titles of all platforms.
#[derive(Debug)]
pub struct AllGamesResponse {
    pub games: Vec<InstalledGame>,
}

/// What a list of a platform's titles holds: for each its identifier and
/// its path.
pub open spec fn info_views(games: Seq<GameInfo>) -> Seq<(Seq<char>, Seq<char>)> {
    Seq::new(games.len(), |i: int| (games[i].id@, games[i].path@))
}

/// What a list of pairs of strings holds.
pub open spec fn pair_views(pairs: Seq<(String, String)>) -> Seq<(Seq<char>, Seq<char>)> {
    Seq::new(pairs.len(), |i: int| (pairs[i].0@, pairs[i].1@))
}

/// What a list of titles with their platforms holds: for each its
/// identifier, its path and its platform.
pub open spec fn installed_views(games: Seq<InstalledGame>) -> Seq<
    (Seq<char>, Seq<char>, Seq<char>),
> {
    Seq::new(games.len(), |i: int| (games[i].id@, games[i].path@, games[i].platform@))
}

/// The titles of one platform, each marked with the platform's name.
pub open spec fn marked(found: Option<Seq<(Seq<char>, Seq<char>)>>, platform: Seq<char>) -> Seq<
    (Seq<char>, Seq<char>, Seq<char>),
> {
    match found {
        Some(games) => Seq::new(games.len(), |i: int| (games[i].0, games[i].1, platform)),
        None => Seq::empty(),
    }
}

/// What an optional list of pairs of strings holds.
pub open spec fn found_views(found: Option<Vec<(String, String)>>) -> Option<
    Seq<(Seq<char>, Seq<char>)>,
> {
    match found {
        Some(games) => Some(pair_views(games@)),
        None => None,
    }
}

impl PathResponse {
    /// The answer with the given path.
    pub fn new(path: String) -> (response: Self)
        ensures
            response.path@ == path@,
    {
        PathResponse { path }
    }
}

impl PathsResponse {
    /// The answer with the given paths.
    pub fn new(paths: Vec<String>) -> (response: Self)
        ensures
            string_views(response.paths@) == string_views(paths@),
    {
        PathsResponse { paths }
    }
}

impl GamesResponse {
    /// The answer that lists the given titles, each with its identifier and
    /// its path, in their order.
    pub fn new(found: Vec<(String, String)>) -> (response: Self)
        ensures
            info_views(response.games@) == pair_views(found@),
    {
        let mut games: Vec<GameInfo> = Vec::new();
        let mut i: usize = 0;
        while i < found.len()
            invariant
                i <= found.len(),
                info_views(games@) == pair_views(found@).take(i as int),
            decreases found.len() - i,
        {
            let ghost before = info_views(games@);
            let info = GameInfo { id: found[i].0.clone(), path: found[i].1.clone() };
            games.push(info);
            i += 1;
            proof {
                assert(info_views(games@) =~= before.push((info.id@, info.path@)));
                assert(pair_views(found@).take(i as int) =~= pair_views(found@).take(i - 1).push(
                    pair_views(found@)[i - 1],
                ));
            }
        }
        assert(pair_views(found@).take(i as int) =~= pair_views(found@));
        GamesResponse { games }
    }
}

/// Appends the titles of one platform, each marked with the platform's
/// name.
fn push_marked(games: &mut Vec<InstalledGame>, found: &Vec<(String, String)>, platform: &str)
    ensures
        installed_views(final(games)@) == installed_views(old(games)@) + marked(
            Some(pair_views(found@)),
            platform@,
        ),
{
    let ghost start = installed_views(games@);
    let ghost all = marked(Some(pair_views(found@)), platform@);
    let mut i: usize = 0;
    assert(installed_views(games@) =~= start + all.take(0));
    while i < found.len()
        invariant
            i <= found.len(),
            all == marked(Some(pair_views(found@)), platform@),
            installed_views(games@) == start + all.take(i as int),
        decreases found.len() - i,
    {
        let ghost before = installed_views(games@);
        let game = InstalledGame {
            id: found[i].0.clone(),
            path: found[i].1.clone(),
            platform: owned(platform),
        };
        games.push(game);
        i += 1;
        proof {
            assert(installed_views(games@) =~= before.push((game.id@, game.path@, game.platform@)));
            assert(all.take(i as int) =~= all.take(i - 1).push(all[i - 1]));
            assert(installed_views(games@) =~= start + all.take(i as int));
        }
    }
    assert(all.take(i as int) =~= all);
}

impl AllGamesResponse {
    /// The answer that lists the titles of Steam, marked `steam`, and then
    /// those of Epic, marked `epic`. A platform whose titles could not be
    /// listed adds none.
    pub fn new(
        steam: Option<Vec<(String, String)>>,
        epic: Option<Vec<(String, String)>>,
    ) -> (response: Self)
        ensures
            installed_views(response.games@) == marked(found_views(steam), "steam"@) + marked(
                found_views(epic),
                "epic"@,
            ),
    {
        let mut games: Vec<InstalledGame> = Vec::new();
        assert(installed_views(games@) =~= Seq::empty());
        match &steam {
            Some(found) => {
                push_marked(&mut games, found, "steam");
            },
            None => {},
        }
        assert(installed_views(games@) =~= marked(found_views(steam), "steam"@));
        match &epic {
            Some(found) => {
                push_marked(&mut games, found, "epic");
            },
            None => {
                assert(installed_views(games@) =~= marked(found_views(steam), "steam"@) + marked(
                    found_views(epic),
                    "epic"@,
                ));
            },
        }
        AllGamesResponse { games }
    }
}

} // verus!
