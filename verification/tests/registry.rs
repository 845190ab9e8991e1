use updateio::commands::{AllGamesResponse, GamesResponse, PathResponse, PathsResponse};
use updateio::error::Error;
use updateio::registry::choose_install_path;
use updateio::registry::epic::{manifest_entry_from, parse_manifest};
use updateio::registry::steam::{parse_acf_file, parse_vdf_file};
use updateio::registry::InstalledProgram;

fn pair(a: &str, b: &str) -> (String, String) {
    (a.to_string(), b.to_string())
}

#[test]
fn library_folders_are_the_path_lines() {
    let content = "\"libraryfolders\"\n{\n\t\"0\"\n\t{\n\t\t\"path\"\t\t\"C:\\\\Steam\"\n\t\t\"label\"\t\t\"\"\n\t}\n\
                   \t\"1\"\n\t{\n\t\t\"path\"\t\t\"D:\\\\Games\"\r\n\t}\n\"path\"\n\"pathx\" \"no\"\n}\n";
    assert_eq!(parse_vdf_file(content), vec!["C:\\\\Steam".to_string(), "D:\\\\Games".to_string()]);
    assert!(parse_vdf_file("").is_empty());
    assert_eq!(parse_vdf_file("\"path\" \"\""), vec![String::new()]);
    assert!(parse_vdf_file("path \"a\" \"b\"").is_empty());
}

#[test]
fn manifest_gives_name_and_directory() {
    let content = "\"AppState\"\n{\n\t\"appid\"\t\t\"740\"\n\t\"name\"\t\t\"Counter-Strike\"\n\
                   \t\"installdir\"\t\t\"cs\"\n}\n";
    assert_eq!(parse_acf_file(content), Some(pair("Counter-Strike", "cs")));
    assert_eq!(parse_acf_file("\"name\" \"a\"\n"), None);
    assert_eq!(parse_acf_file("\"installdir\" \"d\"\n"), None);
    assert_eq!(parse_acf_file(""), None);
    assert_eq!(
        parse_acf_file("\"name\" \"a\"\n\"installdir\" \"d\"\n\"name\" \"b\"\n\"name\"\n"),
        Some(pair("b", "d"))
    );
    assert_eq!(parse_acf_file("\"installdir\" \"d\"\n  \"name\" \"a\"  "), Some(pair("a", "d")));
}

#[test]
fn epic_manifest_names_identifier_and_location() {
    let content = "{\"CatalogItemId\": \"abc\\u0031\", \"InstallLocation\": \"C:\\\\Epic\\\\a\", \"Size\": 5}";
    assert_eq!(parse_manifest(content), Some(pair("abc1", "C:\\Epic\\a")));
    assert_eq!(parse_manifest("{\"CatalogItemId\": \"abc\"}"), None);
    assert_eq!(parse_manifest("{\"InstallLocation\": \"x\"}"), None);
    assert_eq!(parse_manifest("{\"CatalogItemId\": 5, \"InstallLocation\": \"x\"}"), None);
    assert_eq!(parse_manifest("[\"CatalogItemId\", \"InstallLocation\"]"), None);
    assert_eq!(parse_manifest("{\"CatalogItemId\": \"abc\", \"InstallLocation\": \"x\""), None);
    assert_eq!(parse_manifest("CatalogItemId"), None);
    assert_eq!(parse_manifest(""), None);
    assert_eq!(manifest_entry_from(Some("i".to_string()), Some("l".to_string())), Some(pair("i", "l")));
    assert_eq!(manifest_entry_from(None, Some("l".to_string())), None);
    assert_eq!(manifest_entry_from(Some("i".to_string()), None), None);
}

#[test]
fn install_path_is_the_first_answer_that_is_a_path() {
    let failure = |text: &str| -> Result<String, Error> { Err(Error::Registry(text.to_string())) };
    assert_eq!(choose_install_path(Ok("a".to_string()), Ok("b".to_string())).ok().as_deref(), Some("a"));
    assert_eq!(choose_install_path(Ok("a".to_string()), failure("x")).ok().as_deref(), Some("a"));
    assert_eq!(choose_install_path(failure("x"), Ok("b".to_string())).ok().as_deref(), Some("b"));
    match choose_install_path(failure("first"), failure("second")) {
        Err(Error::Registry(text)) => assert_eq!(
            text,
            "Steam не найден ни в 32-битном, ни в 64-битном реестре: Registry error: second"
        ),
        _ => panic!("neither answer is a path"),
    }
}

#[test]
fn installed_program_holds_what_the_system_lists() {
    let program = InstalledProgram {
        name: "Steam".to_string(),
        install_location: "C:\\Steam".to_string(),
        publisher: Some("Valve".to_string()),
        version: None,
        uninstall_string: None,
    };
    assert_eq!(program.name, "Steam");
    assert_eq!(program.publisher.as_deref(), Some("Valve"));
}

#[test]
fn responses_list_what_was_found() {
    assert_eq!(PathResponse::new("/p".to_string()).path, "/p");
    assert_eq!(PathsResponse::new(vec!["/a".to_string(), "/b".to_string()]).paths, vec!["/a", "/b"]);
    let response = GamesResponse::new(vec![pair("a", "/a"), pair("b", "/b")]);
    assert_eq!(response.games.len(), 2);
    assert_eq!(response.games[1].id, "b");
    assert_eq!(response.games[1].path, "/b");
    assert!(GamesResponse::new(Vec::new()).games.is_empty());
}

#[test]
fn all_games_are_marked_with_their_platform() {
    let response = AllGamesResponse::new(
        Some(vec![pair("s1", "/s1"), pair("s2", "/s2")]),
        Some(vec![pair("e1", "/e1")]),
    );
    let listed: Vec<(&str, &str, &str)> = response
        .games
        .iter()
        .map(|g| (g.id.as_str(), g.path.as_str(), g.platform.as_str()))
        .collect();
    assert_eq!(listed, vec![("s1", "/s1", "steam"), ("s2", "/s2", "steam"), ("e1", "/e1", "epic")]);
    assert_eq!(AllGamesResponse::new(None, Some(vec![pair("e1", "/e1")])).games.len(), 1);
    assert_eq!(AllGamesResponse::new(Some(vec![pair("s1", "/s1")]), None).games[0].platform, "steam");
    assert!(AllGamesResponse::new(None, None).games.is_empty());
}
