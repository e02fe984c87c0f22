use cliptype::{
    load_backup, load_primary, parse_settings, serialize_settings, AutoClipboardThreshold,
    FileRead, HotkeyPreset, InjectionMode, LoadStep, ProductSettings, SettingsError,
    SettingsSource, SettingsStore, SpeedPreset,
};

#[test]
fn round_trip_is_deterministic_and_content_free() {
    let settings = ProductSettings {
        enabled: false,
        mode: InjectionMode::Clipboard,
        auto_clipboard_threshold: AutoClipboardThreshold::new(513).expect("threshold"),
        speed: SpeedPreset::Fast,
        notifications: false,
        start_at_login: true,
        hotkey: HotkeyPreset::CtrlAltFunction,
        ..ProductSettings::default()
    };
    let serialized = serialize_settings(settings);
    assert_eq!(parse_settings(&serialized), Ok(settings));
    assert_eq!(serialize_settings(settings), serialized);
    assert!(!serialized.contains("clipboard_text"));
    assert!(!serialized.contains("history"));
}

#[test]
fn unknown_duplicate_missing_and_invalid_values_fail_closed() {
    let valid = serialize_settings(ProductSettings::default());
    assert!(matches!(
        parse_settings(&(valid.clone() + "unknown = true\n")),
        Err(SettingsError::UnknownKey { .. })
    ));
    assert!(matches!(
        parse_settings(&(valid.clone() + "enabled = false\n")),
        Err(SettingsError::DuplicateKey { .. })
    ));
    assert!(matches!(
        parse_settings(&valid.replace("mode = \"auto\"\n", "")),
        Err(SettingsError::MissingKey("mode"))
    ));
    assert!(matches!(
        parse_settings(&valid.replace("speed = \"normal\"", "speed = \"warp\"")),
        Err(SettingsError::InvalidValue { .. })
    ));
}

#[test]
fn parser_errors_do_not_echo_untrusted_values() {
    let marker = "SETTINGS_PRIVATE_SENTINEL";
    let error = parse_settings(&format!("mode = \"{marker}\"\n"))
        .expect_err("invalid settings should fail");
    let diagnostic = format!("{error:?} {}", error.message());
    assert!(!diagnostic.contains(marker));
}

#[test]
fn default_settings_serialize_to_the_documented_lines() {
    let serialized = serialize_settings(ProductSettings::default());
    assert!(serialized.contains("mode = \"auto\"\n"));
    assert!(serialized.contains("speed = \"normal\"\n"));
    assert!(serialized.contains("enabled = true\n"));
    assert_eq!(parse_settings(&serialized), Ok(ProductSettings::default()));
}

#[test]
fn settings_file_holds_exactly_eight_keys_in_order() {
    let serialized = serialize_settings(ProductSettings::default());
    assert_eq!(
        serialized,
        "version = 1\nenabled = true\nmode = \"auto\"\nauto_clipboard_threshold = 256\nspeed = \"normal\"\nnotifications = true\nstart_at_login = false\nhotkey = \"ctrl-alt-shift-function\"\n"
    );
    assert_eq!(serialized.lines().count(), 8);
}

#[test]
fn rate_jitter_and_typo_keys_are_not_part_of_the_file() {
    let valid = serialize_settings(ProductSettings::default());
    assert_eq!(
        parse_settings(&(valid.clone() + "characters_per_second = 40\n")),
        Err(SettingsError::UnknownKey { line: 9 })
    );
    assert_eq!(
        parse_settings(&(valid + "jitter_percent = 0\n")),
        Err(SettingsError::UnknownKey { line: 9 })
    );
    let custom = ProductSettings {
        speed: SpeedPreset::Custom,
        characters_per_second: 77,
        jitter_percent: 20,
        typo_probability_percent: 5,
        ..ProductSettings::default()
    };
    assert_eq!(
        parse_settings(&serialize_settings(custom)),
        Ok(ProductSettings {
            characters_per_second: 40,
            jitter_percent: 0,
            typo_probability_percent: 0,
            ..custom
        })
    );
}

#[test]
fn syntax_errors_report_their_line() {
    assert_eq!(
        parse_settings("version = 1\nnot a setting\n"),
        Err(SettingsError::Syntax { line: 2 })
    );
    assert_eq!(
        parse_settings("mode = \"auto\" # comment\n"),
        Err(SettingsError::Syntax { line: 1 })
    );
}

#[test]
fn missing_primary_and_backup_give_defaults() {
    let step = load_primary(FileRead::NotFound);
    let primary_error = match step {
        LoadStep::ReadBackup { primary_error } => primary_error,
        LoadStep::Done(_) => panic!("a missing primary reads the backup"),
    };
    assert_eq!(primary_error, None);
    let loaded = load_backup(primary_error, FileRead::NotFound).expect("defaults");
    assert_eq!(loaded.source, SettingsSource::Defaults);
    assert_eq!(loaded.settings, ProductSettings::default());
}

#[test]
fn valid_primary_is_used_and_corrupt_primary_recovers_from_backup() {
    let changed = ProductSettings { mode: InjectionMode::Keyboard, ..ProductSettings::default() };
    match load_primary(FileRead::Contents(serialize_settings(changed))) {
        LoadStep::Done(Ok(load)) => {
            assert_eq!(load.source, SettingsSource::Primary);
            assert_eq!(load.settings, changed);
        }
        _ => panic!("a valid primary is used directly"),
    }

    let primary_error = match load_primary(FileRead::Contents("corrupt".to_owned())) {
        LoadStep::ReadBackup { primary_error } => primary_error,
        LoadStep::Done(_) => panic!("a corrupt primary reads the backup"),
    };
    assert_eq!(primary_error, Some(SettingsError::Syntax { line: 1 }));
    let recovered = load_backup(
        primary_error,
        FileRead::Contents(serialize_settings(ProductSettings::default())),
    )
    .expect("recover backup");
    assert_eq!(recovered.source, SettingsSource::Backup);
    assert_eq!(recovered.settings, ProductSettings::default());

    let failed = load_backup(primary_error, FileRead::NotFound);
    assert_eq!(failed, Err(SettingsError::Syntax { line: 1 }));
}

#[test]
fn unreadable_files_report_their_io_kind() {
    match load_primary(FileRead::Failed(std::io::ErrorKind::PermissionDenied)) {
        LoadStep::Done(result) => {
            assert_eq!(result, Err(SettingsError::Io(std::io::ErrorKind::PermissionDenied)))
        }
        LoadStep::ReadBackup { .. } => panic!("an unreadable primary is reported"),
    }
    let message = SettingsError::Io(std::io::ErrorKind::PermissionDenied).message();
    assert_eq!(message, "settings I/O failure: PermissionDenied");
}

#[test]
fn store_paths_sit_beside_the_settings_file() {
    let store = SettingsStore::new("/tmp/cliptype/config.toml".to_owned());
    assert_eq!(store.path(), "/tmp/cliptype/config.toml");
    assert_eq!(store.backup_path(), "/tmp/cliptype/config.toml.bak");
    assert_eq!(store.temporary_path(), "/tmp/cliptype/config.toml.tmp");
}
