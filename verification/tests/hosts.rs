use cliptype::{
    key_from_character, shortcut_from_event, HotkeyKey, HotkeyModifiers, SettingsUiPlatform,
    availability_from_status, compare_mac_tokens, completion_code, mac_capture, native_hotkey,
    parse_hotkey, EvidenceStrength, HotkeyAvailability, HotkeyPlatform, HotkeySpec,
    MacTargetToken, PreparationFailure, SessionCompletion, TargetCaptureError, TargetComparison,
    TerminalOutcome,
};

#[test]
fn mac_keycodes_cover_reviewed_defaults() {
    for value in ["cmd+alt+shift+v", "cmd+alt+shift+x"] {
        let spec: HotkeySpec = parse_hotkey(value).expect("reviewed shortcut");
        assert!(spec.validate_for(HotkeyPlatform::MacOS).is_ok());
        assert!(native_hotkey(spec).is_ok());
    }
}

#[test]
fn native_hotkey_status_is_content_free() {
    assert_eq!(availability_from_status(0), HotkeyAvailability::Available);
    assert_eq!(availability_from_status(1), HotkeyAvailability::Conflict);
    assert_eq!(availability_from_status(99), HotkeyAvailability::Unknown);
}

#[test]
fn target_token_contains_only_identity_evidence() {
    let token = MacTargetToken {
        process_id: 42,
        window_hash: Some(5),
        focus_hash: Some(7),
        render_host_limited: true,
    };
    assert_eq!(token.process_id, 42);
    assert_eq!(token.window_hash, Some(5));
    assert_eq!(token.focus_hash, Some(7));
    assert!(token.render_host_limited);
}

fn target(
    process_id: u32,
    window_hash: Option<u64>,
    focus_hash: Option<u64>,
    render_host_limited: bool,
) -> MacTargetToken {
    MacTargetToken { process_id, window_hash, focus_hash, render_host_limited }
}

#[test]
fn render_host_uses_stable_window_identity_when_focus_node_is_rebuilt() {
    let expected = target(42, Some(5), Some(7), true);
    let rebuilt_focus = target(42, Some(5), Some(8), true);
    let transiently_reclassified = target(42, Some(5), Some(9), false);
    let other_window = target(42, Some(6), Some(8), false);
    let other_process = target(43, Some(5), Some(8), false);

    assert_eq!(compare_mac_tokens(&expected, &rebuilt_focus), TargetComparison::Same);
    assert_eq!(compare_mac_tokens(&expected, &transiently_reclassified), TargetComparison::Same);
    assert_eq!(compare_mac_tokens(&expected, &other_window), TargetComparison::Changed);
    assert_eq!(compare_mac_tokens(&expected, &other_process), TargetComparison::Changed);
}

#[test]
fn native_control_still_requires_exact_focus_identity() {
    let expected = target(42, Some(5), Some(7), false);
    let other_control = target(42, Some(5), Some(8), false);
    let other_process = target(43, Some(5), Some(7), false);

    assert_eq!(compare_mac_tokens(&expected, &other_control), TargetComparison::Changed);
    assert_eq!(compare_mac_tokens(&expected, &other_process), TargetComparison::Changed);
}

#[test]
fn mac_capture_reports_render_host_strength() {
    let (token, metadata, strength) =
        mac_capture(1, 42, 5, 1, 7, 1, 1).expect("a captured target");
    assert_eq!(token, target(42, Some(5), Some(7), true));
    assert_eq!(metadata.process_id, Some(42));
    assert_eq!(strength, EvidenceStrength::RenderHostLimited);
    assert_eq!(mac_capture(0, 42, 5, 1, 7, 1, 1).err(), Some(TargetCaptureError::Unavailable));
}

#[test]
fn preserves_every_terminal_outcome_without_generic_failure() {
    let cases = [
        (TerminalOutcome::Completed, 1),
        (TerminalOutcome::Cancelled, 2),
        (TerminalOutcome::TargetChanged, 3),
        (TerminalOutcome::ClipboardChanged, 4),
        (TerminalOutcome::KnownSecurityRestriction, 5),
        (TerminalOutcome::ModifierConflict, 7),
        (TerminalOutcome::TargetEvidenceUnavailable, 8),
        (TerminalOutcome::TargetDisappeared, 9),
        (TerminalOutcome::PartialInput, 10),
        (TerminalOutcome::ProgressUnknown, 11),
        (TerminalOutcome::BlockedCauseUnknown, 12),
        (TerminalOutcome::NativeFailure, 13),
        (TerminalOutcome::InternalInvariant, 14),
        (TerminalOutcome::ModifierSettleTimeout, 15),
    ];
    let mut seen = std::collections::BTreeSet::new();
    assert_eq!(completion_code(None), 0);
    for (outcome, expected) in cases {
        let code = completion_code(Some(SessionCompletion::Finished(outcome)));
        assert_eq!(code, expected);
        assert!(seen.insert(code), "terminal reasons must not collapse");
    }
}

#[test]
fn modifier_timeout_survives_both_preparation_and_execution() {
    assert_eq!(
        completion_code(Some(SessionCompletion::PreparationFailed(
            PreparationFailure::ModifierSettleTimeout,
        ))),
        15
    );
    assert_eq!(
        completion_code(Some(SessionCompletion::PreparationFailed(PreparationFailure::Cancelled))),
        2
    );
}

#[test]
fn printable_and_function_keys_map_to_native_neutral_keys() {
    assert_eq!(key_from_character("v"), Some(HotkeyKey::V));
    assert_eq!(cliptype::parse_key("F8"), Ok(HotkeyKey::F8));
}

#[test]
fn windows_recorder_preserves_control_and_meta_meaning() {
    let spec = shortcut_from_event(
        key_from_character("v"),
        true,
        true,
        true,
        false,
        SettingsUiPlatform::Windows,
    )
    .expect("valid Windows shortcut");
    assert!(spec.modifiers.contains(HotkeyModifiers::of_control()));
    assert!(spec.modifiers.contains(HotkeyModifiers::of_alt()));
    assert!(spec.modifiers.contains(HotkeyModifiers::of_shift()));
    assert!(!spec.modifiers.contains(HotkeyModifiers::of_meta()));
}

#[test]
fn macos_recorder_reverses_slint_command_control_mapping() {
    let spec = shortcut_from_event(
        key_from_character("v"),
        true,
        true,
        false,
        false,
        SettingsUiPlatform::MacOS,
    )
    .expect("valid macOS shortcut");
    assert!(spec.modifiers.contains(HotkeyModifiers::of_meta()));
    assert!(spec.modifiers.contains(HotkeyModifiers::of_alt()));
    assert!(!spec.modifiers.contains(HotkeyModifiers::of_control()));
}

#[test]
fn recorder_refuses_a_key_without_a_primary_modifier() {
    assert!(shortcut_from_event(
        key_from_character("v"),
        false,
        false,
        true,
        false,
        SettingsUiPlatform::Windows,
    )
    .is_err());
    assert!(shortcut_from_event(None, true, true, false, false, SettingsUiPlatform::Windows)
        .is_err());
}
