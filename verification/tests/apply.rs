use cliptype::{
    begin_apply, bridge_hotkey_text, command_for_executable, completion_message,
    completion_notice, found_check, host_options, parse_hotkeys, preset_pair, startup_status,
    string_value_units, strip_terminator, terminated_copy, trigger_notice, validate_hotkeys_code,
    value_byte_len, ApplyCall, ApplyProblem, ApplyReply, ApplyStep, HotkeyApplyResult,
    HotkeyAvailability, HotkeyPair, HotkeyPreset, parse_hotkey, InjectionBackend, InjectionMode, PreparationFailure,
    ProductSettings, SessionCompletion, SettingsUiPlatform, StartupStatus, TerminalOutcome,
    TrayNotice, TriggerResult, CT_HOTKEY_AVAILABLE, CT_HOTKEY_RESERVED, CT_INVALID,
    ERROR_FILE_NOT_FOUND, ERROR_SUCCESS, REG_SZ,
};

fn units(text: &str) -> Vec<u16> {
    text.encode_utf16().collect()
}

#[test]
fn executable_command_is_quoted_and_has_background_flag() {
    let command = command_for_executable(&units(r"C:\Program Files\ClipType\cliptype.exe"));
    assert_eq!(command.last(), Some(&0));
    let text = String::from_utf16(&command[..command.len() - 1]).expect("valid command");
    assert_eq!(text, r#""C:\Program Files\ClipType\cliptype.exe" --background"#);
}

#[test]
fn written_startup_value_reads_back_as_enabled_for_the_same_executable() {
    let executable = units(r"C:\ClipType-Test\cliptype.exe");
    let mut stored = command_for_executable(&executable);
    strip_terminator(&mut stored);
    assert_eq!(startup_status(Some(&stored), &executable), StartupStatus::EnabledMatching);
    assert_eq!(
        startup_status(Some(&stored), &units(r"C:\Other\cliptype.exe")),
        StartupStatus::EnabledDifferent
    );
    assert_eq!(startup_status(None, &executable), StartupStatus::Disabled);
}

#[test]
fn registry_statuses_and_sizes_are_checked() {
    assert_eq!(found_check(ERROR_FILE_NOT_FOUND), Ok(false));
    assert_eq!(found_check(ERROR_SUCCESS), Ok(true));
    let error = found_check(5).expect_err("access denied is a failure");
    assert_eq!(error.code(), 5);
    assert_eq!(error.message(), "Windows startup registry operation failed: 5");
    assert_eq!(string_value_units(REG_SZ, 8), Some(4));
    assert_eq!(string_value_units(REG_SZ, 7), None);
    assert_eq!(string_value_units(REG_SZ + 1, 8), None);
    assert_eq!(value_byte_len(4), Ok(8));
}

fn other_pair() -> HotkeyPair {
    HotkeyPair::new(
        parse_hotkey("ctrl+alt+shift+b").expect("trigger"),
        parse_hotkey("ctrl+alt+shift+n").expect("cancel"),
    )
}

fn apply_with(
    current: ProductSettings,
    proposed: ProductSettings,
    proposed_pair: HotkeyPair,
    reply_for: impl Fn(ApplyCall) -> ApplyReply,
) -> (ApplyStep, Vec<ApplyCall>) {
    let current_pair = HotkeyPair::default();
    let mut step = begin_apply(
        current,
        proposed,
        current_pair,
        proposed_pair,
        SettingsUiPlatform::Windows,
    );
    let mut calls = Vec::new();
    loop {
        match step {
            ApplyStep::Call(apply, call) => {
                calls.push(call);
                step = apply.resume(reply_for(call));
            }
            other => return (other, calls),
        }
    }
}

#[test]
fn applying_settings_changes_hotkeys_startup_config_then_saves() {
    let current = ProductSettings::default();
    let proposed = ProductSettings {
        mode: InjectionMode::Keyboard,
        start_at_login: !current.start_at_login,
        ..current
    };
    let (step, calls) = apply_with(current, proposed, other_pair(), |call| match call {
        ApplyCall::ReplaceHotkeys(_) => ApplyReply::Hotkeys(HotkeyApplyResult::Applied),
        _ => ApplyReply::Done(true),
    });
    match step {
        ApplyStep::Applied(settings) => assert_eq!(settings, proposed),
        _ => panic!("every step succeeded"),
    }
    assert_eq!(calls.len(), 4);
    assert!(matches!(calls[0], ApplyCall::ReplaceHotkeys(_)));
    assert_eq!(calls[1], ApplyCall::SetStartup(proposed.start_at_login));
    assert!(matches!(calls[2], ApplyCall::UpdateConfig(_)));
    assert_eq!(calls[3], ApplyCall::Save(proposed));
}

#[test]
fn failed_save_restores_every_earlier_change() {
    let current = ProductSettings::default();
    let proposed = ProductSettings {
        start_at_login: !current.start_at_login,
        ..current
    };
    let (step, calls) = apply_with(current, proposed, other_pair(), |call| match call {
        ApplyCall::ReplaceHotkeys(_) => ApplyReply::Hotkeys(HotkeyApplyResult::Applied),
        ApplyCall::Save(_) => ApplyReply::Done(false),
        _ => ApplyReply::Done(true),
    });
    match step {
        ApplyStep::Failed(failure) => assert_eq!(failure.problem, ApplyProblem::SaveFailed),
        _ => panic!("the save failed"),
    }
    let current_pair = HotkeyPair::default();
    let undo = &calls[4..];
    assert!(matches!(undo[0], ApplyCall::UpdateConfig(_)));
    assert_eq!(undo[1], ApplyCall::SetStartup(current.start_at_login));
    assert_eq!(undo[2], ApplyCall::ReplaceHotkeys(current_pair));
    assert_eq!(undo.len(), 3);
}

#[test]
fn refused_hotkeys_stop_before_any_other_change() {
    let current = ProductSettings::default();
    let proposed = ProductSettings { mode: InjectionMode::Clipboard, ..current };
    let (step, calls) = apply_with(current, proposed, other_pair(), |_| {
        ApplyReply::Hotkeys(HotkeyApplyResult::Rejected(HotkeyAvailability::Conflict))
    });
    match step {
        ApplyStep::Failed(failure) => {
            assert_eq!(failure.problem, ApplyProblem::HotkeysRefused);
            assert_eq!(failure.probe, Some(HotkeyAvailability::Conflict));
        }
        _ => panic!("the hotkeys were refused"),
    }
    assert_eq!(calls.len(), 1);
}

#[test]
fn invalid_proposal_is_refused_without_calls() {
    let current = ProductSettings::default();
    let proposed = ProductSettings { characters_per_second: 0, ..current };
    let (step, calls) =
        apply_with(current, proposed, HotkeyPair::default(), |_| ApplyReply::Done(true));
    match step {
        ApplyStep::Failed(failure) => assert_eq!(failure.problem, ApplyProblem::InvalidSettings),
        _ => panic!("invalid settings are refused"),
    }
    assert!(calls.is_empty());
    assert_eq!(
        ApplyProblem::SaveFailed.message(SettingsUiPlatform::Windows),
        "Settings could not be saved; the previous configuration was restored."
    );
}

#[test]
fn host_options_read_flags_and_environment() {
    let arguments = vec!["--background".to_owned(), "--settings".to_owned()];
    let options = host_options(&arguments, false);
    assert!(options.background);
    assert!(options.show_settings);
    assert!(!options.headless);
    assert!(host_options(&Vec::new(), true).headless);
    assert!(host_options(&vec!["--headless".to_owned()], false).headless);
}

#[test]
fn notices_follow_trigger_and_completion_results() {
    assert_eq!(trigger_notice(TriggerResult::Busy), Some(TrayNotice::Busy));
    assert_eq!(trigger_notice(TriggerResult::Started { generation: 3 }), None);
    assert_eq!(
        completion_notice(
            Some(InjectionBackend::Clipboard),
            SessionCompletion::Finished(TerminalOutcome::Completed)
        ),
        Some(TrayNotice::Completed(InjectionBackend::Clipboard))
    );
    assert_eq!(
        completion_notice(None, SessionCompletion::PreparationFailed(PreparationFailure::ClipboardEmpty)),
        Some(TrayNotice::ClipboardUnavailable)
    );
    assert_eq!(
        completion_message(SessionCompletion::Finished(TerminalOutcome::ClipboardChanged)),
        "Clipboard changed before paste; nothing further was sent."
    );
}

#[test]
fn bridge_hotkey_texts_are_checked_for_macos() {
    assert_eq!(validate_hotkeys_code("cmd+alt+shift+v", "cmd+alt+shift+x"), CT_HOTKEY_AVAILABLE);
    assert_eq!(validate_hotkeys_code("cmd+q", "cmd+alt+shift+x"), CT_HOTKEY_RESERVED);
    assert_eq!(validate_hotkeys_code("not a key", "cmd+alt+shift+x"), CT_INVALID);
    assert!(parse_hotkeys("cmd+alt+shift+v", "cmd+alt+shift+v").is_err());
    let text = bridge_hotkey_text(HotkeyPreset::CtrlAltShiftFunction, true).expect("label");
    assert!(!text.is_empty());
    assert_eq!(terminated_copy(b"abc", 4), Ok(vec![b'a', b'b', b'c', 0]));
    assert_eq!(terminated_copy(b"abc", 3), Err(CT_INVALID));
}

#[test]
fn windows_presets_name_shortcuts_that_windows_reserves() {
    let pair = preset_pair(HotkeyPreset::CtrlAltShiftFunction).expect("preset labels parse");
    let (step, calls) = apply_with(
        ProductSettings::default(),
        ProductSettings::default(),
        pair,
        |_| ApplyReply::Done(true),
    );
    match step {
        ApplyStep::Failed(failure) => assert_eq!(failure.problem, ApplyProblem::InvalidPair),
        _ => panic!("F12 is reserved on Windows"),
    }
    assert!(calls.is_empty());
}
