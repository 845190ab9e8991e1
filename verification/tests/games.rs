use updateio::error::Error;
use updateio::games::manager::{find_game, merge_installed, platform_of};
use updateio::games::steam::{AppListCache, Lookup, SteamApp, APP_LIST_TTL_MINUTES};
use updateio::games::{output_reports_update, update_outcome, Game, Platform, UpdateProgress};
use updateio::steam::Progress;

fn pair(a: &str, b: &str) -> (String, String) {
    (a.to_string(), b.to_string())
}

fn words(args: &[&str]) -> Vec<String> {
    args.iter().map(|a| a.to_string()).collect()
}

fn game(id: &str, platform: Platform) -> Game {
    Game {
        id: id.to_string(),
        name: id.to_uppercase(),
        platform,
        install_path: "/g".to_string(),
        last_update: None,
        update_status: None,
    }
}

fn catalogue() -> Vec<SteamApp> {
    vec![
        SteamApp { appid: 10, name: "Counter-Strike".to_string() },
        SteamApp { appid: 70, name: "Half-Life".to_string() },
        SteamApp { appid: 71, name: "HALF-LIFE".to_string() },
        SteamApp { appid: 99, name: "ÉCOLE".to_string() },
    ]
}

#[test]
fn app_id_is_found_by_name_whatever_the_case() {
    let apps = catalogue();
    assert_eq!(updateio::games::steam::find_app_id(&apps, "half-life"), Some(70));
    assert_eq!(updateio::games::steam::find_app_id(&apps, "COUNTER-strike"), Some(10));
    assert_eq!(updateio::games::steam::find_app_id(&apps, "école"), Some(99));
    assert_eq!(updateio::games::steam::find_app_id(&apps, "Portal"), None);
    assert_eq!(updateio::games::steam::find_app_id(&Vec::new(), "Portal"), None);
}

#[test]
fn steam_games_are_those_that_the_catalogue_knows() {
    let found = vec![pair("half-life", "/lib/hl"), pair("Portal", "/lib/p"), pair("Counter-Strike", "/lib/cs")];
    let games = updateio::games::steam::get_installed_games(&found, &catalogue());
    assert_eq!(games.len(), 2);
    assert_eq!(games[0].id, "70");
    assert_eq!(games[0].name, "half-life");
    assert_eq!(games[0].platform, Platform::Steam);
    assert_eq!(games[0].install_path, "/lib/hl");
    assert_eq!(games[0].last_update, None);
    assert!(games[0].update_status.is_none());
    assert_eq!(games[1].id, "10");
    assert_eq!(games[1].install_path, "/lib/cs");
}

#[test]
fn epic_games_are_named_by_their_identifier() {
    let found = vec![pair("abc123", "/epic/a"), pair("def456", "/epic/d")];
    let games = updateio::games::epic::get_installed_games(&found);
    assert_eq!(games.len(), 2);
    assert_eq!(games[1].id, "def456");
    assert_eq!(games[1].name, "def456");
    assert_eq!(games[1].platform, Platform::Epic);
    assert_eq!(games[1].install_path, "/epic/d");
    assert!(updateio::games::epic::get_installed_games(&Vec::new()).is_empty());
}

#[test]
fn tool_and_launcher_arguments() {
    assert_eq!(
        updateio::games::steam::update_args("740"),
        words(&["+login", "anonymous", "+app_update", "740", "validate", "+quit"])
    );
    assert_eq!(
        updateio::games::steam::check_args("740"),
        words(&["+login", "anonymous", "+app_info_update", "1", "+app_status", "740", "+quit"])
    );
    assert_eq!(
        updateio::games::epic::update_args("abc"),
        words(&["-opengl", "-silent", "-installupdate", "abc"])
    );
    assert_eq!(
        updateio::games::epic::check_args("abc"),
        words(&["-opengl", "-silent", "-checkforupdates", "abc"])
    );
    assert_eq!(
        updateio::games::epic::launcher_relative_path(),
        "Launcher/Portal/Binaries/Win32/EpicGamesLauncher.exe"
    );
}

#[test]
fn output_reports_an_available_update() {
    assert!(output_reports_update("state: update available now"));
    assert!(!output_reports_update("state: Update Available"));
    assert!(!output_reports_update(""));
}

#[test]
fn catalogue_is_kept_for_a_day() {
    let mut cache = AppListCache::new();
    assert_eq!(cache.lookup_at("half-life", 0), Lookup::Stale);
    cache.store_at(catalogue(), 1_000);
    assert_eq!(APP_LIST_TTL_MINUTES, 24 * 60);
    assert_eq!(cache.lookup_at("half-life", 1_000), Lookup::Known(Some(70)));
    assert_eq!(cache.lookup_at("portal", 1_000), Lookup::Known(None));
    assert_eq!(cache.lookup_at("half-life", 1_000 + 86_400_000 - 1), Lookup::Known(Some(70)));
    assert_eq!(cache.lookup_at("half-life", 1_000 + 86_400_000), Lookup::Stale);
    let mut cache = AppListCache::new();
    assert_eq!(cache.lookup("half-life"), Lookup::Stale);
    cache.store(catalogue());
    assert_eq!(cache.lookup("half-life"), Lookup::Known(Some(70)));
}

#[test]
fn title_is_found_by_its_identifier() {
    let games = vec![game("a", Platform::Steam), game("b", Platform::Epic), game("a", Platform::Epic)];
    assert_eq!(find_game(&games, "a").ok(), Some(0));
    assert_eq!(find_game(&games, "b").ok(), Some(1));
    assert_eq!(platform_of(&games, "a").ok(), Some(Platform::Steam));
    assert_eq!(platform_of(&games, "b").ok(), Some(Platform::Epic));
    match platform_of(&games, "c") {
        Err(Error::GameNotFound(id)) => assert_eq!(id, "c"),
        _ => panic!("the title is not there"),
    }
    match find_game(&Vec::new(), "a") {
        Err(error) => assert_eq!(error.message(), "Game not found: a"),
        Ok(_) => panic!("the list is empty"),
    }
}

#[test]
fn titles_of_both_platforms_are_merged() {
    let ids = |games: Vec<Game>| games.iter().map(|g| g.id.clone()).collect::<Vec<String>>();
    let steam = vec![game("s1", Platform::Steam), game("s2", Platform::Steam)];
    let epic = vec![game("e1", Platform::Epic)];
    assert_eq!(ids(merge_installed(Some(steam.clone()), Some(epic.clone()))), words(&["s1", "s2", "e1"]));
    assert_eq!(ids(merge_installed(None, Some(epic))), words(&["e1"]));
    assert_eq!(ids(merge_installed(Some(steam), None)), words(&["s1", "s2"]));
    assert!(merge_installed(None, None).is_empty());
}

#[test]
fn progress_events_of_an_update() {
    let event = UpdateProgress::started("740");
    assert_eq!(event.game_id, "740");
    assert_eq!(event.progress, Progress { current: 0, total: 0 });
    assert!(event.status.is_updating);
    assert_eq!(event.status.progress, Some(Progress { current: 0, total: 0 }));
    assert_eq!(event.status.error, None);
    assert_eq!(event.message.as_deref(), Some("Начало обновления..."));

    let event = UpdateProgress::failed("740", "disk full");
    assert_eq!(event.game_id, "740");
    assert_eq!(event.progress.whole_percent(), 0);
    assert!(!event.status.is_updating);
    assert_eq!(event.status.progress, None);
    assert_eq!(event.status.error.as_deref(), Some("disk full"));
    assert_eq!(event.message.as_deref(), Some("Ошибка обновления"));

    let event = UpdateProgress::completed("740");
    assert_eq!(event.progress.whole_percent(), 100);
    assert!(!event.status.is_updating);
    assert_eq!(event.status.progress.map(|p| p.whole_percent()), Some(100));
    assert_eq!(event.status.error, None);
    assert_eq!(event.message.as_deref(), Some("Обновление завершено"));
}

#[test]
fn outcome_of_an_update_follows_the_exit() {
    let (event, result) = update_outcome("740", true, "ignored");
    assert!(result.is_ok());
    assert_eq!(event.message.as_deref(), Some("Обновление завершено"));
    let (event, result) = update_outcome("740", false, "disk full");
    match result {
        Err(Error::UpdateFailed(text)) => assert_eq!(text, "disk full"),
        _ => panic!("the update failed"),
    }
    assert_eq!(event.status.error.as_deref(), Some("disk full"));
}
