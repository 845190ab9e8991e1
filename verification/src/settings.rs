//! The user's settings, and how they are laid out as rows of a key and a
//! value when they are stored.

use crate::logging::{
    default_log_config, parse_rotation, rotation_name, rotation_of, rotation_word,
    stored_rotation_is_read_back, LogConfig, LogConfigView,
};
use crate::text::number::{
    bool_to_chars, decimal_digits, i64_to_chars, parse_bool, parse_i64, parse_signed, parse_truth,
    parse_unsigned, parse_usize, signed_digits, truth_text, u64_to_chars,
    written_number_is_read_back, written_signed_number_is_read_back, written_truth_is_read_back,
};
use crate::text::{chars_of, opt_view, owned, str_eq, string_of};
use vstd::prelude::*;

verus! {

/// Where the titles of each platform are installed.
#[derive(Debug, Clone)]
pub struct GamePaths {
    pub steam: Option<String>,
    pub epic: Option<String>,
}

/// What a `GamePaths` holds.
pub struct GamePathsView {
    pub steam: Option<Seq<char>>,
    pub epic: Option<Seq<char>>,
}

impl View for GamePaths {
    type V = GamePathsView;

    open spec fn view(&self) -> GamePathsView {
        GamePathsView { steam: opt_view(self.steam), epic: opt_view(self.epic) }
    }
}

/// The user's settings.
#[derive(Debug, Clone)]
pub struct Settings {
    pub steam_path: Option<String>,
    pub epic_path: Option<String>,
    pub auto_update: bool,
    /// In hours.
    pub update_interval: i64,
    pub notifications: bool,
    pub check_interval: i64,
    pub paths: GamePaths,
    pub steam_username: Option<String>,
    pub steam_password: Option<String>,
    pub cache_ttl_minutes: i64,
    pub cache_size: usize,
    pub logging: LogConfig,
    pub custom_steamcmd_path: Option<String>,
}

/// What a `Settings` holds.
pub struct SettingsView {
    pub steam_path: Option<Seq<char>>,
    pub epic_path: Option<Seq<char>>,
    pub auto_update: bool,
    pub update_interval: i64,
    pub notifications: bool,
    pub check_interval: i64,
    pub paths: GamePathsView,
    pub steam_username: Option<Seq<char>>,
    pub steam_password: Option<Seq<char>>,
    pub cache_ttl_minutes: i64,
    pub cache_size: usize,
    pub logging: LogConfigView,
    pub custom_steamcmd_path: Option<Seq<char>>,
}

impl View for Settings {
    type V = SettingsView;

    open spec fn view(&self) -> SettingsView {
        SettingsView {
            steam_path: opt_view(self.steam_path),
            epic_path: opt_view(self.epic_path),
            auto_update: self.auto_update,
            update_interval: self.update_interval,
            notifications: self.notifications,
            check_interval: self.check_interval,
            paths: self.paths@,
            steam_username: opt_view(self.steam_username),
            steam_password: opt_view(self.steam_password),
            cache_ttl_minutes: self.cache_ttl_minutes,
            cache_size: self.cache_size,
            logging: self.logging@,
            custom_steamcmd_path: opt_view(self.custom_steamcmd_path),
        }
    }
}

/// The settings of a fresh installation.
pub open spec fn default_settings() -> SettingsView {
    SettingsView {
        steam_path: None,
        epic_path: None,
        auto_update: false,
        update_interval: 24,
        notifications: true,
        check_interval: 30,
        paths: GamePathsView { steam: None, epic: None },
        steam_username: None,
        steam_password: None,
        cache_ttl_minutes: 30,
        cache_size: 1000,
        logging: default_log_config(),
        custom_steamcmd_path: None,
    }
}

impl Default for Settings {
    fn default() -> (settings: Self)
        ensures
            settings@ == default_settings(),
    {
        Settings {
            steam_path: None,
            epic_path: None,
            auto_update: false,
            update_interval: 24,
            notifications: true,
            check_interval: 30,
            paths: GamePaths { steam: None, epic: None },
            steam_username: None,
            steam_password: None,
            cache_ttl_minutes: 30,
            cache_size: 1000,
            logging: LogConfig::default(),
            custom_steamcmd_path: None,
        }
    }
}

/// The truth value that a stored value spells, or `fallback`.
pub open spec fn truth_or(value: Seq<char>, fallback: bool) -> bool {
    match parse_truth(value) {
        Some(b) => b,
        None => fallback,
    }
}

/// The signed number that a stored value spells, or `fallback`.
pub open spec fn i64_or(value: Seq<char>, fallback: i64) -> i64 {
    match parse_signed(value, i64::MIN as int, i64::MAX as int) {
        Some(n) => n as i64,
        None => fallback,
    }
}

/// The size that a stored value spells, or `fallback`.
pub open spec fn usize_or(value: Seq<char>, fallback: usize) -> usize {
    match parse_unsigned(value, usize::MAX as nat) {
        Some(n) => n as usize,
        None => fallback,
    }
}

/// The settings that are stored, each under a key of its own.
pub enum SettingKey {
    AutoUpdate,
    Notifications,
    CheckInterval,
    SteamPath,
    EpicPath,
    CacheTtlMinutes,
    CacheSize,
    LogLevel,
    LogFileName,
    LogRotation,
    LogCustomPath,
    CustomSteamcmdPath,
    SteamUsername,
    SteamPassword,
}

/// The key under which a setting is stored.
pub open spec fn key_text(key: SettingKey) -> Seq<char> {
    match key {
        SettingKey::AutoUpdate => "auto_update"@,
        SettingKey::Notifications => "notifications"@,
        SettingKey::CheckInterval => "check_interval"@,
        SettingKey::SteamPath => "steam_path"@,
        SettingKey::EpicPath => "epic_path"@,
        SettingKey::CacheTtlMinutes => "cache_ttl_minutes"@,
        SettingKey::CacheSize => "cache_size"@,
        SettingKey::LogLevel => "log_level"@,
        SettingKey::LogFileName => "log_file_name"@,
        SettingKey::LogRotation => "log_rotation"@,
        SettingKey::LogCustomPath => "log_custom_path"@,
        SettingKey::CustomSteamcmdPath => "custom_steamcmd_path"@,
        SettingKey::SteamUsername => "steam_username"@,
        SettingKey::SteamPassword => "steam_password"@,
    }
}

/// The setting that a key names, if it names one.
pub open spec fn key_of(text: Seq<char>) -> Option<SettingKey> {
    if text == "auto_update"@ {
        Some(SettingKey::AutoUpdate)
    } else if text == "notifications"@ {
        Some(SettingKey::Notifications)
    } else if text == "check_interval"@ {
        Some(SettingKey::CheckInterval)
    } else if text == "steam_path"@ {
        Some(SettingKey::SteamPath)
    } else if text == "epic_path"@ {
        Some(SettingKey::EpicPath)
    } else if text == "cache_ttl_minutes"@ {
        Some(SettingKey::CacheTtlMinutes)
    } else if text == "cache_size"@ {
        Some(SettingKey::CacheSize)
    } else if text == "log_level"@ {
        Some(SettingKey::LogLevel)
    } else if text == "log_file_name"@ {
        Some(SettingKey::LogFileName)
    } else if text == "log_rotation"@ {
        Some(SettingKey::LogRotation)
    } else if text == "log_custom_path"@ {
        Some(SettingKey::LogCustomPath)
    } else if text == "custom_steamcmd_path"@ {
        Some(SettingKey::CustomSteamcmdPath)
    } else if text == "steam_username"@ {
        Some(SettingKey::SteamUsername)
    } else if text == "steam_password"@ {
        Some(SettingKey::SteamPassword)
    } else {
        None
    }
}

/// The settings after `value` is read into the setting of `key`. A value
/// that does not spell what its setting holds gives the setting its
/// default.
pub open spec fn with_setting(s: SettingsView, key: SettingKey, value: Seq<char>) -> SettingsView {
    match key {
        SettingKey::AutoUpdate => SettingsView { auto_update: truth_or(value, false), ..s },
        SettingKey::Notifications => SettingsView { notifications: truth_or(value, true), ..s },
        SettingKey::CheckInterval => SettingsView { check_interval: i64_or(value, 30), ..s },
        SettingKey::SteamPath => SettingsView {
            paths: GamePathsView { steam: Some(value), ..s.paths },
            ..s
        },
        SettingKey::EpicPath => SettingsView {
            paths: GamePathsView { epic: Some(value), ..s.paths },
            ..s
        },
        SettingKey::CacheTtlMinutes => SettingsView { cache_ttl_minutes: i64_or(value, 30), ..s },
        SettingKey::CacheSize => SettingsView { cache_size: usize_or(value, 1000), ..s },
        SettingKey::LogLevel => SettingsView {
            logging: LogConfigView { level: value, ..s.logging },
            ..s
        },
        SettingKey::LogFileName => SettingsView {
            logging: LogConfigView { file_name: value, ..s.logging },
            ..s
        },
        SettingKey::LogRotation => SettingsView {
            logging: LogConfigView { rotation: rotation_of(value), ..s.logging },
            ..s
        },
        SettingKey::LogCustomPath => SettingsView {
            logging: LogConfigView { custom_path: Some(value), ..s.logging },
            ..s
        },
        SettingKey::CustomSteamcmdPath => SettingsView { custom_steamcmd_path: Some(value), ..s },
        SettingKey::SteamUsername => SettingsView { steam_username: Some(value), ..s },
        SettingKey::SteamPassword => SettingsView { steam_password: Some(value), ..s },
    }
}

/// The settings after one stored row is read into them. A row with a key
/// that names no setting changes nothing.
pub open spec fn applied(s: SettingsView, key: Seq<char>, value: Seq<char>) -> SettingsView {
    match key_of(key) {
        Some(k) => with_setting(s, k, value),
        None => s,
    }
}

/// A stored row: a key and a value.
pub type Row = (String, String);

/// What a list of rows holds.
pub open spec fn row_views(rows: Seq<(String, String)>) -> Seq<(Seq<char>, Seq<char>)> {
    Seq::new(rows.len(), |i: int| (rows[i].0@, rows[i].1@))
}

/// The settings after the rows are read into `s`, one after the other.
pub open spec fn applied_all(s: SettingsView, rows: Seq<(Seq<char>, Seq<char>)>) -> SettingsView
    decreases rows.len(),
{
    if rows.len() == 0 {
        s
    } else {
        applied_all(applied(s, rows[0].0, rows[0].1), rows.drop_first())
    }
}

/// One row if `value` is there, none if not.
pub open spec fn optional_row(key: Seq<char>, value: Option<Seq<char>>) -> Seq<
    (Seq<char>, Seq<char>),
> {
    match value {
        Some(v) => seq![(key, v)],
        None => Seq::empty(),
    }
}

/// The rows under which settings are stored: eight that are always there,
/// then one for each optional setting that is set.
pub open spec fn rows_of(s: SettingsView) -> Seq<(Seq<char>, Seq<char>)> {
    seq![
        (key_text(SettingKey::AutoUpdate), truth_text(s.auto_update)),
        (key_text(SettingKey::Notifications), truth_text(s.notifications)),
        (key_text(SettingKey::CheckInterval), signed_digits(s.check_interval as int)),
        (key_text(SettingKey::CacheTtlMinutes), signed_digits(s.cache_ttl_minutes as int)),
        (key_text(SettingKey::CacheSize), decimal_digits(s.cache_size as nat)),
        (key_text(SettingKey::LogLevel), s.logging.level),
        (key_text(SettingKey::LogFileName), s.logging.file_name),
        (key_text(SettingKey::LogRotation), rotation_word(s.logging.rotation)),
    ] + optional_row(key_text(SettingKey::SteamPath), s.paths.steam) + optional_row(
        key_text(SettingKey::EpicPath),
        s.paths.epic,
    ) + optional_row(key_text(SettingKey::LogCustomPath), s.logging.custom_path) + optional_row(
        key_text(SettingKey::SteamUsername),
        s.steam_username,
    ) + optional_row(key_text(SettingKey::SteamPassword), s.steam_password) + optional_row(
        key_text(SettingKey::CustomSteamcmdPath),
        s.custom_steamcmd_path,
    )
}

/// Reading rows one list after another is reading their concatenation.
pub proof fn lemma_read_concat(
    s: SettingsView,
    first: Seq<(Seq<char>, Seq<char>)>,
    second: Seq<(Seq<char>, Seq<char>)>,
)
    ensures
        applied_all(s, first + second) == applied_all(applied_all(s, first), second),
    decreases first.len(),
{
    if first.len() == 0 {
        assert(first + second =~= second);
    } else {
        assert((first + second)[0] == first[0]);
        assert((first + second).drop_first() =~= first.drop_first() + second);
        lemma_read_concat(applied(s, first[0].0, first[0].1), first.drop_first(), second);
    }
}

/// Every key names the setting that is stored under it: the fourteen keys
/// are fourteen different words.
pub proof fn key_names_its_setting(key: SettingKey)
    ensures
        key_of(key_text(key)) == Some(key),
{
    reveal_strlit("auto_update");
    reveal_strlit("notifications");
    reveal_strlit("check_interval");
    reveal_strlit("steam_path");
    reveal_strlit("epic_path");
    reveal_strlit("cache_ttl_minutes");
    reveal_strlit("cache_size");
    reveal_strlit("log_level");
    reveal_strlit("log_file_name");
    reveal_strlit("log_rotation");
    reveal_strlit("log_custom_path");
    reveal_strlit("custom_steamcmd_path");
    reveal_strlit("steam_username");
    reveal_strlit("steam_password");
    assert("auto_update"@.len() == 11);
    assert("notifications"@.len() == 13);
    assert("check_interval"@.len() == 14);
    assert("steam_path"@.len() == 10);
    assert("epic_path"@.len() == 9);
    assert("cache_ttl_minutes"@.len() == 17);
    assert("cache_size"@.len() == 10);
    assert("log_level"@.len() == 9);
    assert("log_file_name"@.len() == 13);
    assert("log_rotation"@.len() == 12);
    assert("log_custom_path"@.len() == 15);
    assert("custom_steamcmd_path"@.len() == 20);
    assert("steam_username"@.len() == 14);
    assert("steam_password"@.len() == 14);
    assert("steam_path"@[0] == 's' && "cache_size"@[0] == 'c');
    assert("epic_path"@[0] == 'e' && "log_level"@[0] == 'l');
    assert("notifications"@[0] == 'n' && "log_file_name"@[0] == 'l');
    assert("check_interval"@[0] == 'c' && "steam_username"@[0] == 's');
    assert("steam_password"@[0] == 's');
    assert("steam_username"@[6] == 'u' && "steam_password"@[6] == 'p');
}

/// What reading rows gives; the same as `applied_all`, kept apart so that
/// the steps below say no more than they need.
#[verifier::opaque]
spec fn read(s: SettingsView, rows: Seq<(Seq<char>, Seq<char>)>) -> SettingsView {
    applied_all(s, rows)
}

/// Reading one more row, under the key of a setting, after a list of rows.
proof fn lemma_read_push(
    s: SettingsView,
    rows: Seq<(Seq<char>, Seq<char>)>,
    key: SettingKey,
    value: Seq<char>,
)
    ensures
        read(s, rows + seq![(key_text(key), value)]) == with_setting(read(s, rows), key, value),
{
    reveal(read);
    let one = seq![(key_text(key), value)];
    lemma_read_concat(s, rows, one);
    assert(one[0] == (key_text(key), value));
    assert(one.drop_first().len() == 0);
    reveal_with_fuel(applied_all, 2);
    key_names_its_setting(key);
}

/// Reading the row of an optional setting after a list of rows.
proof fn lemma_read_push_optional(
    s: SettingsView,
    rows: Seq<(Seq<char>, Seq<char>)>,
    key: SettingKey,
    value: Option<Seq<char>>,
)
    ensures
        read(s, rows + optional_row(key_text(key), value)) == match value {
            Some(v) => with_setting(read(s, rows), key, v),
            None => read(s, rows),
        },
{
    match value {
        Some(v) => {
            lemma_read_push(s, rows, key, v);
        },
        None => {
            assert(rows + optional_row(key_text(key), value) =~= rows);
        },
    }
}

/// Reading no row changes nothing, and `read` is `applied_all`.
proof fn lemma_read(s: SettingsView, rows: Seq<(Seq<char>, Seq<char>)>)
    ensures
        read(s, rows) == applied_all(s, rows),
        read(s, Seq::empty()) == s,
{
    reveal(read);
}

/// Settings that are stored and read again are the same settings, but for
/// the three that are not stored: the two top-level paths and the interval
/// of updates come back as in a fresh installation.
pub proof fn stored_settings_are_read_back(s: SettingsView)
    ensures
        applied_all(default_settings(), rows_of(s)) == (SettingsView {
            steam_path: None,
            epic_path: None,
            update_interval: 24,
            ..s
        }),
{
    written_truth_is_read_back(s.auto_update);
    written_truth_is_read_back(s.notifications);
    written_signed_number_is_read_back(s.check_interval as int, i64::MIN as int, i64::MAX as int);
    written_signed_number_is_read_back(
        s.cache_ttl_minutes as int,
        i64::MIN as int,
        i64::MAX as int,
    );
    written_number_is_read_back(s.cache_size as nat, usize::MAX as nat);
    stored_rotation_is_read_back(s.logging.rotation);

    let d = default_settings();
    let p0 = Seq::<(Seq<char>, Seq<char>)>::empty();
    let p1 = p0 + seq![(key_text(SettingKey::AutoUpdate), truth_text(s.auto_update))];
    let p2 = p1 + seq![(key_text(SettingKey::Notifications), truth_text(s.notifications))];
    let p3 = p2 + seq![
        (key_text(SettingKey::CheckInterval), signed_digits(s.check_interval as int)),
    ];
    let p4 = p3 + seq![
        (key_text(SettingKey::CacheTtlMinutes), signed_digits(s.cache_ttl_minutes as int)),
    ];
    let p5 = p4 + seq![(key_text(SettingKey::CacheSize), decimal_digits(s.cache_size as nat))];
    let p6 = p5 + seq![(key_text(SettingKey::LogLevel), s.logging.level)];
    let p7 = p6 + seq![(key_text(SettingKey::LogFileName), s.logging.file_name)];
    let p8 = p7 + seq![(key_text(SettingKey::LogRotation), rotation_word(s.logging.rotation))];
    let q1 = p8 + optional_row(key_text(SettingKey::SteamPath), s.paths.steam);
    let q2 = q1 + optional_row(key_text(SettingKey::EpicPath), s.paths.epic);
    let q3 = q2 + optional_row(key_text(SettingKey::LogCustomPath), s.logging.custom_path);
    let q4 = q3 + optional_row(key_text(SettingKey::SteamUsername), s.steam_username);
    let q5 = q4 + optional_row(key_text(SettingKey::SteamPassword), s.steam_password);
    let q6 = q5 + optional_row(key_text(SettingKey::CustomSteamcmdPath), s.custom_steamcmd_path);
    lemma_read(d, q6);
    lemma_read_push(d, p0, SettingKey::AutoUpdate, truth_text(s.auto_update));
    lemma_read_push(d, p1, SettingKey::Notifications, truth_text(s.notifications));
    lemma_read_push(d, p2, SettingKey::CheckInterval, signed_digits(s.check_interval as int));
    lemma_read_push(d, p3, SettingKey::CacheTtlMinutes, signed_digits(s.cache_ttl_minutes as int));
    lemma_read_push(d, p4, SettingKey::CacheSize, decimal_digits(s.cache_size as nat));
    lemma_read_push(d, p5, SettingKey::LogLevel, s.logging.level);
    lemma_read_push(d, p6, SettingKey::LogFileName, s.logging.file_name);
    lemma_read_push(d, p7, SettingKey::LogRotation, rotation_word(s.logging.rotation));
    lemma_read_push_optional(d, p8, SettingKey::SteamPath, s.paths.steam);
    lemma_read_push_optional(d, q1, SettingKey::EpicPath, s.paths.epic);
    lemma_read_push_optional(d, q2, SettingKey::LogCustomPath, s.logging.custom_path);
    lemma_read_push_optional(d, q3, SettingKey::SteamUsername, s.steam_username);
    lemma_read_push_optional(d, q4, SettingKey::SteamPassword, s.steam_password);
    lemma_read_push_optional(d, q5, SettingKey::CustomSteamcmdPath, s.custom_steamcmd_path);
    assert(q6 =~= rows_of(s));
    let end = read(d, q6);
    assert(end.paths == s.paths);
    assert(end.logging == s.logging);
}

impl Settings {
    /// Reads one stored row into the settings.
    pub fn apply(&mut self, key: &str, value: String)
        ensures
            final(self)@ == applied(old(self)@, key@, value@),
    {
        if str_eq(key, "auto_update") {
            self.auto_update = match parse_bool(&chars_of(value.as_str())) {
                Some(b) => b,
                None => false,
            };
        } else if str_eq(key, "notifications") {
            self.notifications = match parse_bool(&chars_of(value.as_str())) {
                Some(b) => b,
                None => true,
            };
        } else if str_eq(key, "check_interval") {
            self.check_interval = match parse_i64(&chars_of(value.as_str())) {
                Some(n) => n,
                None => 30,
            };
        } else if str_eq(key, "steam_path") {
            self.paths.steam = Some(value);
        } else if str_eq(key, "epic_path") {
            self.paths.epic = Some(value);
        } else if str_eq(key, "cache_ttl_minutes") {
            self.cache_ttl_minutes = match parse_i64(&chars_of(value.as_str())) {
                Some(n) => n,
                None => 30,
            };
        } else if str_eq(key, "cache_size") {
            self.cache_size = match parse_usize(&chars_of(value.as_str())) {
                Some(n) => n,
                None => 1000,
            };
        } else if str_eq(key, "log_level") {
            self.logging.level = value;
        } else if str_eq(key, "log_file_name") {
            self.logging.file_name = value;
        } else if str_eq(key, "log_rotation") {
            self.logging.rotation = parse_rotation(value.as_str());
        } else if str_eq(key, "log_custom_path") {
            self.logging.custom_path = Some(value);
        } else if str_eq(key, "custom_steamcmd_path") {
            self.custom_steamcmd_path = Some(value);
        } else if str_eq(key, "steam_username") {
            self.steam_username = Some(value);
        } else if str_eq(key, "steam_password") {
            self.steam_password = Some(value);
        }
    }

    /// The settings that the stored rows give: the defaults, with each row
    /// read into them in turn.
    pub fn from_rows(rows: Vec<(String, String)>) -> (settings: Settings)
        ensures
            settings@ == applied_all(default_settings(), row_views(rows@)),
    {
        let mut settings = Settings::default();
        let mut i: usize = 0;
        assert(row_views(rows@).skip(0) =~= row_views(rows@));
        while i < rows.len()
            invariant
                i <= rows.len(),
                applied_all(settings@, row_views(rows@).skip(i as int)) == applied_all(
                    default_settings(),
                    row_views(rows@),
                ),
            decreases rows.len() - i,
        {
            let ghost rest = row_views(rows@).skip(i as int);
            assert(rest[0] == (rows@[i as int].0@, rows@[i as int].1@));
            assert(rest.drop_first() =~= row_views(rows@).skip(i + 1));
            let key = rows[i].0.as_str();
            let value = rows[i].1.clone();
            settings.apply(key, value);
            i += 1;
        }
        settings
    }

    /// The rows under which the settings are stored.
    pub fn to_rows(&self) -> (rows: Vec<(String, String)>)
        ensures
            row_views(rows@) == rows_of(self@),
    {
        let mut rows: Vec<(String, String)> = Vec::new();
        rows.push((owned("auto_update"), string_of(&bool_to_chars(self.auto_update))));
        rows.push((owned("notifications"), string_of(&bool_to_chars(self.notifications))));
        rows.push((owned("check_interval"), string_of(&i64_to_chars(self.check_interval))));
        rows.push((owned("cache_ttl_minutes"), string_of(&i64_to_chars(self.cache_ttl_minutes))));
        rows.push((owned("cache_size"), string_of(&u64_to_chars(self.cache_size as u64))));
        rows.push((owned("log_level"), self.logging.level.clone()));
        rows.push((owned("log_file_name"), self.logging.file_name.clone()));
        rows.push((owned("log_rotation"), rotation_name(self.logging.rotation)));
        assert(row_views(rows@) =~= rows_of(self@).take(8));
        push_optional(&mut rows, "steam_path", &self.paths.steam);
        push_optional(&mut rows, "epic_path", &self.paths.epic);
        push_optional(&mut rows, "log_custom_path", &self.logging.custom_path);
        push_optional(&mut rows, "steam_username", &self.steam_username);
        push_optional(&mut rows, "steam_password", &self.steam_password);
        push_optional(&mut rows, "custom_steamcmd_path", &self.custom_steamcmd_path);
        assert(row_views(rows@) =~= rows_of(self@));
        rows
    }
}

/// Appends the row of an optional setting, if it is set.
fn push_optional(rows: &mut Vec<(String, String)>, key: &str, value: &Option<String>)
    ensures
        row_views(final(rows)@) == row_views(old(rows)@) + optional_row(key@, opt_view(*value)),
{
    match value {
        Some(v) => {
            rows.push((owned(key), v.clone()));
            assert(row_views(rows@) =~= row_views(old(rows)@) + optional_row(
                key@,
                opt_view(*value),
            ));
        },
        None => {
            assert(row_views(rows@) =~= row_views(old(rows)@) + optional_row(
                key@,
                opt_view(*value),
            ));
        },
    }
}

} // verus!
