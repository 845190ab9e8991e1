//! Finding a title among those installed.

use crate::error::Error;
use crate::games::{game_list, Game, GameView, Platform};
use crate::text::{owned, str_eq};
use vstd::prelude::*;

verus! {

/// The index of the first title with the given identifier.
pub open spec fn position_of(games: Seq<GameView>, id: Seq<char>) -> Option<nat>
    decreases games.len(),
{
    if games.len() == 0 {
        None
    } else if games[0].id == id {
        Some(0)
    } else {
        match position_of(games.drop_first(), id) {
            Some(i) => Some(i + 1),
            None => None,
        }
    }
}

/// The titles of both platforms: those of Steam, then those of Epic. A
/// platform whose titles were not listed adds none.
pub open spec fn merged(
    steam: Option<Seq<GameView>>,
    epic: Option<Seq<GameView>>,
) -> Seq<GameView> {
    (match steam {
        Some(games) => games,
        None => Seq::empty(),
    }) + (match epic {
        Some(games) => games,
        None => Seq::empty(),
    })
}

/// The titles of both platforms in one list.
pub fn merge_installed(steam: Option<Vec<Game>>, epic: Option<Vec<Game>>) -> (games: Vec<Game>)
    ensures
        game_list(games@) == merged(
            match steam {
                Some(s) => Some(game_list(s@)),
                None => None,
            },
            match epic {
                Some(e) => Some(game_list(e@)),
                None => None,
            },
        ),
{
    let mut games: Vec<Game> = match steam {
        Some(s) => s,
        None => Vec::new(),
    };
    let ghost first = game_list(games@);
    match epic {
        Some(mut e) => {
            let ghost second = game_list(e@);
            games.append(&mut e);
            assert(game_list(games@) =~= first + second);
        },
        None => {
            assert(game_list(games@) =~= first + Seq::<GameView>::empty());
        },
    }
    games
}

/// The index of the first title with the given identifier, or the error
/// that names the identifier where no title has it.
pub fn find_game(games: &Vec<Game>, game_id: &str) -> (found: Result<usize, Error>)
    ensures
        match position_of(game_list(games@), game_id@) {
            Some(i) => found == Ok::<usize, Error>(i as usize) && i < games.len(),
            None => found matches Err(Error::GameNotFound(id)) && id@ == game_id@,
        },
{
    let mut i: usize = 0;
    assert(game_list(games@).skip(0) =~= game_list(games@));
    while i < games.len()
        invariant
            i <= games.len(),
            position_of(game_list(games@), game_id@) == match position_of(
                game_list(games@).skip(i as int),
                game_id@,
            ) {
                Some(k) => Some((k + i) as nat),
                None => None,
            },
        decreases games.len() - i,
    {
        let ghost rest = game_list(games@).skip(i as int);
        assert(rest[0] == games@[i as int]@);
        assert(rest.drop_first() =~= game_list(games@).skip(i + 1));
        if str_eq(games[i].id.as_str(), game_id) {
            return Ok(i);
        }
        i += 1;
    }
    Err(Error::GameNotFound(owned(game_id)))
}

/// The platform of the first title with the given identifier.
pub fn platform_of(games: &Vec<Game>, game_id: &str) -> (found: Result<Platform, Error>)
    ensures
        match position_of(game_list(games@), game_id@) {
            Some(i) => found == Ok::<Platform, Error>(game_list(games@)[i as int].platform),
            None => found matches Err(Error::GameNotFound(id)) && id@ == game_id@,
        },
{
    match find_game(games, game_id) {
        Ok(i) => Ok(games[i].platform),
        Err(e) => Err(e),
    }
}

} // verus!
