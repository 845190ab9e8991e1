use updateio::lru_store::MAX_CAPACITY as MAX_ENTRIES;
use updateio::error::Error;
use updateio::settings::Settings;
use updateio::steam::manager::{
    build_steam_args, bundled_tool_path, CheckStep, Operation, SteamManager, ToolProbe,
};
use updateio::steam::update::{download_event, stderr_event, stdout_event, Observed, UpdateRun};
use updateio::steam::{Progress, UpdateState, UpdateStatus};

fn manager() -> SteamManager {
    let probe = ToolProbe { custom_exists: false, bundled: Some("/app/steamcmd".to_string()) };
    SteamManager::new(Settings::default(), probe).expect("the tool is beside the application")
}

fn words(args: &[&str]) -> Vec<String> {
    args.iter().map(|a| a.to_string()).collect()
}

fn cached(step: CheckStep) -> Option<bool> {
    match step {
        CheckStep::Cached(due) => Some(due),
        CheckStep::Probe(_) => None,
    }
}

fn message_of(result: Result<(), Error>) -> String {
    match result {
        Ok(()) => panic!("a failure was expected"),
        Err(Error::ProcessError(text)) => text,
        Err(other) => panic!("a process error was expected, not {}", other.message()),
    }
}

/// Runs one update as the consumer does: forwards events until the run says
/// stop, then concludes with the exit status.
fn run_update(
    manager: &mut SteamManager,
    app_id: u32,
    events: Vec<UpdateStatus>,
    exit_ok: bool,
) -> (Vec<UpdateStatus>, Result<(), Error>) {
    let (mut run, first) = UpdateRun::begin(app_id);
    let mut delivered = vec![first];
    for event in events {
        delivered.push(event.clone());
        if run.observe(&event) {
            break;
        }
    }
    let (last, result) = manager.finish_update(run, exit_ok);
    delivered.push(last);
    (delivered, result)
}

#[test]
fn update_succeeds_after_completion_and_clean_exit() {
    let mut manager = manager();
    assert_eq!(manager.finish_check_at(740, "Update needed", 0).ok(), Some(true));
    assert_eq!(cached(manager.check_for_updates_at(740, 1)), Some(true));
    let events = vec![
        stdout_event("Update: 512/1024 0x61 downloading\n"),
        stdout_event("Success 0x101\n"),
        stdout_event("never seen\n"),
    ];
    let (delivered, result) = run_update(&mut manager, 740, events, true);
    assert!(result.is_ok());
    let states: Vec<UpdateState> = delivered.iter().map(|e| e.state).collect();
    assert_eq!(
        states,
        vec![
            UpdateState::Starting,
            UpdateState::Downloading,
            UpdateState::Complete,
            UpdateState::Complete
        ]
    );
    assert_eq!(delivered[0].status, "Starting update...");
    assert_eq!(delivered[0].progress.whole_percent(), 0);
    assert_eq!(delivered[1].progress, Progress { current: 512, total: 1024 });
    let last = &delivered[3];
    assert_eq!(last.status, "Update completed");
    assert_eq!(last.progress.whole_percent(), 100);
    assert_eq!(last.error, None);
    assert_eq!(cached(manager.check_for_updates_at(740, 1)), None);
}

#[test]
fn error_line_fails_the_update_whatever_the_exit_code() {
    for exit_ok in [true, false] {
        let mut manager = manager();
        assert_eq!(manager.finish_check_at(740, "Update needed", 0).ok(), Some(true));
        let line = "ERROR! Failed to install app '740' (No subscription)\n";
        let events = vec![
            stdout_event("Update: 1/2 0x61 x\n"),
            stderr_event(line).expect("the line holds the marker"),
            stdout_event("Success 0x101\n"),
        ];
        let (delivered, result) = run_update(&mut manager, 740, events, exit_ok);
        assert_eq!(message_of(result), line);
        assert_eq!(delivered.len(), 4);
        assert_eq!(delivered[2].state, UpdateState::Error);
        assert_eq!(delivered[2].error.as_deref(), Some(line));
        assert_eq!(delivered[3].state, UpdateState::Error);
        assert_eq!(delivered[3].error.as_deref(), Some(line));
        assert_eq!(cached(manager.check_for_updates_at(740, 1)), Some(true));
    }
}

#[test]
fn failed_exit_without_terminal_event_is_a_generic_failure() {
    let mut manager = manager();
    let events = vec![stdout_event("Update: 1/2 0x61 x\n"), stdout_event("more\n")];
    let (delivered, result) = run_update(&mut manager, 740, events, false);
    assert_eq!(message_of(result), "Update process failed");
    assert_eq!(delivered.len(), 4);
    let last = &delivered[3];
    assert_eq!(last.state, UpdateState::Error);
    assert_eq!(last.error.as_deref(), Some("Update process failed"));
    assert_eq!(last.status, "");
    assert_eq!(last.progress.whole_percent(), 0);
}

#[test]
fn clean_exit_without_terminal_event_is_a_failure() {
    let mut manager = manager();
    let (delivered, result) = run_update(&mut manager, 740, Vec::new(), true);
    assert_eq!(message_of(result), "Update process failed");
    assert_eq!(delivered.len(), 2);
    assert_eq!(delivered[1].state, UpdateState::Error);
}

#[test]
fn completion_followed_by_failed_exit_is_a_failure() {
    let mut manager = manager();
    assert_eq!(manager.finish_check_at(740, "Up to date", 0).ok(), Some(false));
    let (delivered, result) =
        run_update(&mut manager, 740, vec![stdout_event("0x101\n")], false);
    assert_eq!(message_of(result), "Update process failed");
    assert_eq!(delivered[2].state, UpdateState::Error);
    assert_eq!(cached(manager.check_for_updates_at(740, 1)), Some(false));
}

#[test]
fn error_event_without_text_gives_the_generic_message() {
    let event =
        UpdateStatus { state: UpdateState::Error, error: None, ..UpdateStatus::default() };
    let (mut run, _) = UpdateRun::begin(1);
    assert!(run.observe(&event));
    let (last, result) = run.conclude(true);
    assert_eq!(message_of(result), "Update process failed");
    assert_eq!(last.error.as_deref(), Some("Update process failed"));
}

#[test]
fn run_conclusion_without_manager() {
    let (mut run, _) = UpdateRun::begin(5);
    assert_eq!(run.app_id, 5);
    assert!(!run.observe(&stdout_event("Update: 1/2 0x61 x")));
    assert!(run.observe(&stdout_event("0x101")));
    assert!(run.observe(&stderr_event("ERROR late").expect("marker")));
    assert!(matches!(run.observed, Observed::Completed));
    let (last, result) = run.conclude(true);
    assert!(result.is_ok());
    assert_eq!(last.state, UpdateState::Complete);
}

#[test]
fn consumer_forwards_up_to_the_first_terminal_event() {
    let events = vec![
        stdout_event("a"),
        stdout_event("0x61"),
        stderr_event("ERROR one").expect("marker"),
        stdout_event("0x101"),
    ];
    let (mut run, _) = UpdateRun::begin(1);
    assert_eq!(run.observe_all(&events), 3);
    assert!(matches!(&run.observed, Observed::Failed(Some(text)) if text == "ERROR one"));
    let (mut run, _) = UpdateRun::begin(1);
    assert_eq!(run.observe_all(&events[..2].to_vec()), 2);
    assert!(matches!(run.observed, Observed::Nothing));
    let (mut run, _) = UpdateRun::begin(1);
    assert_eq!(run.observe_all(&Vec::new()), 0);
}

#[test]
fn stream_lines_become_events() {
    let event = stdout_event("Update: 3/4 0x81 now");
    assert_eq!(event.state, UpdateState::Installing);
    assert_eq!(event.progress, Progress { current: 3, total: 4 });
    assert_eq!(event.status, "Update: 3/4 0x81 now");
    assert!(stderr_event("warning: slow").is_none());
    assert!(stderr_event("error: lower case").is_none());
    assert!(stderr_event("").is_none());
    let event = stderr_event("xERRORx").expect("marker");
    assert_eq!(event.state, UpdateState::Error);
    assert_eq!(event.error.as_deref(), Some("xERRORx"));
    assert_eq!(event.status, "");
    assert_eq!(event.progress, Progress { current: 0, total: 0 });
    let event = download_event("Update: 3/4 0x81 now").expect("counts");
    assert_eq!(event.state, UpdateState::Downloading);
    assert_eq!(event.progress, Progress { current: 3, total: 4 });
    assert_eq!(event.status, "Update: 3/4 0x81 now");
    assert!(download_event("0x61 but no counts").is_none());
}

/// Stands for the tool: counts how often it is run and answers that the
/// title is up to date.
struct Launcher {
    calls: u32,
}

impl Launcher {
    fn run(&mut self, args: &[String]) -> String {
        self.calls += 1;
        assert_eq!(args, words(&["+login", "anonymous", "+app_status", "740", "+quit"]));
        "AppID 740:\n - Up to date\n".to_string()
    }
}

fn check_for_updates(manager: &mut SteamManager, launcher: &mut Launcher, now: i64) -> bool {
    match manager.check_for_updates_at(740, now) {
        CheckStep::Cached(due) => due,
        CheckStep::Probe(args) => {
            let output = launcher.run(&args);
            manager.finish_check_at(740, &output, now).expect("the output holds a verdict")
        }
    }
}

#[test]
fn check_is_cached_and_the_tool_is_not_asked_again() {
    let mut manager = manager();
    let mut launcher = Launcher { calls: 0 };
    assert!(!check_for_updates(&mut manager, &mut launcher, 1_000));
    assert_eq!(launcher.calls, 1);
    assert!(!check_for_updates(&mut manager, &mut launcher, 1_001));
    assert!(!check_for_updates(&mut manager, &mut launcher, 1_000 + 30 * 60_000 - 1));
    assert_eq!(launcher.calls, 1);
    assert!(!check_for_updates(&mut manager, &mut launcher, 1_000 + 30 * 60_000));
    assert_eq!(launcher.calls, 2);
}

#[test]
fn check_with_the_clock_is_cached_too() {
    let mut manager = manager();
    assert!(cached(manager.check_for_updates(3)).is_none());
    assert_eq!(manager.finish_check(3, "Update needed").ok(), Some(true));
    assert_eq!(cached(manager.check_for_updates(3)), Some(true));
    assert!(cached(manager.check_for_updates(4)).is_none());
}

#[test]
fn check_without_verdict_is_an_error_and_is_not_cached() {
    let mut manager = manager();
    let error = manager.finish_check_at(740, "no idea", 0).expect_err("no verdict");
    assert_eq!(error.message(), "Unknown error: Could not determine update status");
    assert_eq!(cached(manager.check_for_updates_at(740, 0)), None);
}

#[test]
fn check_uses_the_configured_ttl_and_size() {
    let settings = Settings { cache_ttl_minutes: 1, cache_size: 1, ..Settings::default() };
    let probe = ToolProbe { custom_exists: false, bundled: Some("tool".to_string()) };
    let mut manager = SteamManager::new(settings, probe).expect("found");
    assert_eq!(manager.finish_check_at(1, "Update needed", 0).ok(), Some(true));
    assert_eq!(cached(manager.check_for_updates_at(1, 59_999)), Some(true));
    assert_eq!(cached(manager.check_for_updates_at(1, 60_000)), None);
    assert_eq!(manager.finish_check_at(2, "Up to date", 0).ok(), Some(false));
    assert_eq!(cached(manager.check_for_updates_at(1, 0)), None);
    assert_eq!(cached(manager.check_for_updates_at(2, 0)), Some(false));
    assert!(MAX_ENTRIES >= 1000);
}

#[test]
fn tool_is_taken_from_the_settings_first() {
    let settings =
        Settings { custom_steamcmd_path: Some("/custom".to_string()), ..Settings::default() };
    let probe = ToolProbe { custom_exists: true, bundled: Some("/bundled".to_string()) };
    let manager = SteamManager::new(settings.clone(), probe).expect("found");
    assert_eq!(manager.steamcmd_path(), "/custom");
    let probe = ToolProbe { custom_exists: false, bundled: Some("/bundled".to_string()) };
    let manager = SteamManager::new(settings.clone(), probe).expect("found");
    assert_eq!(manager.steamcmd_path(), "/bundled");
    let probe = ToolProbe { custom_exists: true, bundled: None };
    let manager = SteamManager::new(settings.clone(), probe).expect("found");
    assert_eq!(manager.steamcmd_path(), "/custom");
    let probe = ToolProbe { custom_exists: true, bundled: Some("/bundled".to_string()) };
    let manager = SteamManager::new(Settings::default(), probe).expect("found");
    assert_eq!(manager.steamcmd_path(), "/bundled");
}

#[test]
fn missing_tool_is_an_error() {
    let settings =
        Settings { custom_steamcmd_path: Some("/custom".to_string()), ..Settings::default() };
    let probe = ToolProbe { custom_exists: false, bundled: None };
    match SteamManager::new(settings, probe) {
        Err(Error::SteamCmdNotFound) => {}
        Err(other) => panic!("unexpected error {}", other.message()),
        Ok(_) => panic!("no tool, no manager"),
    }
    let probe = ToolProbe { custom_exists: true, bundled: None };
    assert!(SteamManager::new(Settings::default(), probe).is_err());
    assert_eq!(bundled_tool_path(), words(&["resources", "bin", "steamcmd", "steamcmd.exe"]));
}

#[test]
fn command_line_logs_in_then_acts_then_quits() {
    let none: Option<String> = None;
    let name = Some("gordon".to_string());
    let secret = Some("crowbar".to_string());
    assert_eq!(
        build_steam_args(&none, &none, Operation::ListInstalled),
        words(&["+login", "anonymous", "+apps_installed", "+quit"])
    );
    assert_eq!(
        build_steam_args(&name, &secret, Operation::CheckStatus(740)),
        words(&["+login", "gordon", "crowbar", "+app_status", "740", "+quit"])
    );
    assert_eq!(
        build_steam_args(&name, &none, Operation::Update(0)),
        words(&["+login", "anonymous", "+app_update", "0", "+quit"])
    );
    assert_eq!(
        build_steam_args(&none, &secret, Operation::UpdateValidated(u32::MAX)),
        words(&["+login", "anonymous", "+app_update", "4294967295", "validate", "+quit"])
    );
    let settings =
        Settings { steam_username: name, steam_password: secret, ..Settings::default() };
    let probe = ToolProbe { custom_exists: false, bundled: Some("tool".to_string()) };
    let manager = SteamManager::new(settings, probe).expect("found");
    assert_eq!(
        manager.build_steam_command(Operation::UpdateValidated(10)),
        words(&["+login", "gordon", "crowbar", "+app_update", "10", "validate", "+quit"])
    );
    let games = manager
        .get_installed_games("AppID: 1\nName: n\nInstallDir: d\n")
        .expect("the list is always read");
    assert_eq!(games.len(), 1);
}
