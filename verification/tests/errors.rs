use updateio::error::Error;

#[test]
fn every_error_has_its_message() {
    let d = || "detail".to_string();
    assert_eq!(Error::Io(d()).message(), "IO error: detail");
    assert_eq!(Error::Registry(d()).message(), "Registry error: detail");
    assert_eq!(Error::GameNotFound(d()).message(), "Game not found: detail");
    assert_eq!(Error::SteamCmdNotFound.message(), "Steam CMD not found");
    assert_eq!(Error::EpicLauncherNotFound.message(), "Epic Games Launcher not found");
    assert_eq!(Error::UpdateFailed(d()).message(), "Update failed: detail");
    assert_eq!(Error::ProcessError(d()).message(), "Process error: detail");
    assert_eq!(Error::EmitError(d()).message(), "Event emission error: detail");
    assert_eq!(Error::Database(d()).message(), "Database error: detail");
    assert_eq!(Error::FileError(d()).message(), "File error: detail");
    assert_eq!(Error::ParseError(d()).message(), "Parse error: detail");
    assert_eq!(Error::Unknown(d()).message(), "Unknown error: detail");
    assert_eq!(Error::Unknown(String::new()).message(), "Unknown error: ");
    assert_eq!(Error::Io("é→".to_string()).message(), "IO error: é→");
}
