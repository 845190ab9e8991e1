//! Titles of the Epic Games launcher.

use crate::games::{found_game, game_list, Game, GameView, Platform};
use crate::text::{owned, string_views};
use vstd::prelude::*;

verus! {

/// The place of the launcher below its installation directory.
pub open spec fn launcher_place() -> Seq<char> {
    "Launcher/Portal/Binaries/Win32/EpicGamesLauncher.exe"@
}

/// The place of the launcher below its installation directory.
pub fn launcher_relative_path() -> (place: String)
    ensures
        place@ == launcher_place(),
{
    owned("Launcher/Portal/Binaries/Win32/EpicGamesLauncher.exe")
}

/// The arguments that make the launcher update a title without showing
/// itself.
pub open spec fn update_words(game_id: Seq<char>) -> Seq<Seq<char>> {
    seq!["-opengl"@, "-silent"@, "-installupdate"@, game_id]
}

/// The arguments that make the launcher look for an update of a title.
pub open spec fn check_words(game_id: Seq<char>) -> Seq<Seq<char>> {
    seq!["-opengl"@, "-silent"@, "-checkforupdates"@, game_id]
}

/// The arguments that make the launcher update a title.
pub fn update_args(game_id: &str) -> (args: Vec<String>)
    ensures
        string_views(args@) == update_words(game_id@),
{
    let mut args: Vec<String> = Vec::new();
    args.push(owned("-opengl"));
    args.push(owned("-silent"));
    args.push(owned("-installupdate"));
    args.push(owned(game_id));
    assert(string_views(args@) =~= update_words(game_id@));
    args
}

/// The arguments that make the launcher look for an update of a title.
pub fn check_args(game_id: &str) -> (args: Vec<String>)
    ensures
        string_views(args@) == check_words(game_id@),
{
    let mut args: Vec<String> = Vec::new();
    args.push(owned("-opengl"));
    args.push(owned("-silent"));
    args.push(owned("-checkforupdates"));
    args.push(owned(game_id));
    assert(string_views(args@) =~= check_words(game_id@));
    args
}

/// The titles that the launcher's manifests name, each with the directory
/// it is installed in. A title's catalogue identifier serves as its name.
pub open spec fn epic_games(found: Seq<(String, String)>) -> Seq<GameView> {
    Seq::new(
        found.len(),
        |i: int| found_game(found[i].0@, found[i].0@, Platform::Epic, found[i].1@),
    )
}

/// The titles that the launcher's manifests name.
pub fn get_installed_games(found: &Vec<(String, String)>) -> (games: Vec<Game>)
    ensures
        game_list(games@) == epic_games(found@),
{
    let mut games: Vec<Game> = Vec::new();
    let mut i: usize = 0;
    while i < found.len()
        invariant
            i <= found.len(),
            game_list(games@) == epic_games(found@).take(i as int),
        decreases found.len() - i,
    {
        let ghost before = game_list(games@);
        games.push(
            Game {
                id: found[i].0.clone(),
                name: found[i].0.clone(),
                platform: Platform::Epic,
                install_path: found[i].1.clone(),
                last_update: None,
                update_status: None,
            },
        );
        i += 1;
        assert(games@.last()@ == epic_games(found@)[i - 1]);
        assert(game_list(games@) =~= before.push(games@.last()@));
        assert(epic_games(found@).take(i as int) =~= epic_games(found@).take(i - 1).push(
            epic_games(found@)[i - 1],
        ));
    }
    assert(epic_games(found@).take(i as int) =~= epic_games(found@));
    games
}

} // verus!
