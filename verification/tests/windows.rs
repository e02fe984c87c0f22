use cliptype::{
    classify_keyboard_acceptance, classify_paste_acceptance, compare_tokens, decode_utf16_units,
    encode_backspace, encode_batch, is_cross_swap, paste_inputs, translate_hotkey,
    tray_command_event, adjust_speed, validate_allocation_size, ClipboardError, CommandEvent,
    DispatchBatchLimit, DispatchResult, EvidenceStrength, HotkeyApplyResult, HotkeyAvailability,
    HotkeyKey, HotkeyPair, HotkeyPlatform, InjectionMode, KeyboardError, NativeByteLimit,
    NativeEventCount, NativeReply, ProductSettings, SpeedPreset, TargetComparison, TaskStep,
    TextAtom, TextBatch, TrayEvent, WindowsCommandSource, WindowsTargetToken, CANCEL_PRIMARY_ID,
    CMD_ENABLED, CMD_HOTKEY, CMD_MODE_CLIPBOARD, CMD_SPEED_FAST, CMD_SPEED_PLUS_ONE,
    ERROR_HOTKEY_ALREADY_REGISTERED, KEYEVENTF_KEYUP, MOD_ALT, MOD_CONTROL, MOD_NOREPEAT,
    MOD_SHIFT, PASTE_EVENT_COUNT, TRIGGER_PRIMARY_ID, VK_CONTROL, VK_V, WM_CLIPTYPE_SHUTDOWN,
    WM_HOTKEY,
};

fn nul_terminated(value: &str) -> Vec<u16> {
    value.encode_utf16().chain([0]).collect()
}

#[test]
fn decodes_ascii_cjk_supplementary_and_combining_text() {
    let source = "A中😀e\u{301}";
    let units = nul_terminated(source);
    let text = decode_utf16_units(&units).expect("valid UTF-16 fixture");

    assert_eq!(text.expose(), source);
}

#[test]
fn rejects_empty_missing_terminator_and_invalid_surrogate_data() {
    assert!(matches!(decode_utf16_units(&[0]), Err(ClipboardError::Empty)));
    assert!(matches!(decode_utf16_units(&[b'a' as u16]), Err(ClipboardError::Malformed)));
    assert!(matches!(decode_utf16_units(&[0xD800, 0]), Err(ClipboardError::Malformed)));
}

#[test]
fn allocation_validation_is_bounded_and_aligned() {
    let limit = NativeByteLimit::new(8).expect("test limit");

    assert_eq!(validate_allocation_size(8, limit), Ok(4));
    assert!(matches!(validate_allocation_size(1, limit), Err(ClipboardError::Malformed)));
    assert!(matches!(validate_allocation_size(3, limit), Err(ClipboardError::Malformed)));
    assert!(matches!(
        validate_allocation_size(10, limit),
        Err(ClipboardError::TooLarge { .. })
    ));
}

#[test]
fn diagnostics_do_not_expose_fixture_content() {
    let marker = "CLIPBOARD_PRIVATE_SENTINEL_29";
    let units = nul_terminated(marker);
    let text = decode_utf16_units(&units).expect("valid fixture");

    assert!(!text.debug_text().contains(marker));
}

#[test]
fn text_after_the_first_terminator_is_ignored() {
    let units = [b'o' as u16, b'k' as u16, 0, b'x' as u16, 0];
    let text = decode_utf16_units(&units).expect("terminated text");
    assert_eq!(text.expose(), "ok");
}

#[test]
fn maps_only_owned_messages_to_typed_commands() {
    let source = WindowsCommandSource::new();
    assert_eq!(
        source.decode_message(WM_HOTKEY, TRIGGER_PRIMARY_ID as usize),
        Some(CommandEvent::Trigger)
    );
    assert_eq!(
        source.decode_message(WM_HOTKEY, CANCEL_PRIMARY_ID as usize),
        Some(CommandEvent::Cancel)
    );
    assert_eq!(source.decode_message(WM_CLIPTYPE_SHUTDOWN, 0), Some(CommandEvent::Shutdown));
    assert_eq!(source.decode_message(WM_HOTKEY, 999), None);
}

#[test]
fn default_pair_maps_to_explicit_no_repeat_modifiers_and_vk() {
    let pair = HotkeyPair::default();
    assert_eq!(
        translate_hotkey(pair.trigger).expect("trigger translation"),
        (MOD_CONTROL | MOD_ALT | MOD_SHIFT | MOD_NOREPEAT, 0x56)
    );
    assert_eq!(pair.trigger.key, HotkeyKey::V);
    assert_eq!(pair.cancel.label(HotkeyPlatform::Windows), "Ctrl+Alt+Shift+X");
}

#[test]
fn direct_trigger_cancel_swap_is_rejected_without_churn() {
    let current = HotkeyPair::default();
    let swapped = HotkeyPair::new(current.cancel, current.trigger);
    assert!(is_cross_swap(current, swapped));
}

/// Drives a registration task, answering every native call with `reply`,
/// and returns the final step with the number of calls made.
fn drive(mut step: TaskStep, reply: NativeReply) -> (TaskStep, usize) {
    let mut calls = 0;
    loop {
        match step {
            TaskStep::Call(task, _call) => {
                calls += 1;
                step = task.resume(reply);
            }
            other => return (other, calls),
        }
    }
}

const SUCCESS: NativeReply = NativeReply { succeeded: true, last_error: 0 };

fn pair(trigger: &str, cancel: &str) -> HotkeyPair {
    HotkeyPair::new(
        cliptype::parse_hotkey(trigger).expect("trigger"),
        cliptype::parse_hotkey(cancel).expect("cancel"),
    )
}

#[test]
fn owner_queue_registers_probes_and_replaces_in_order() {
    let (step, calls) = drive(WindowsCommandSource::new().begin_register(), SUCCESS);
    let source = match step {
        TaskStep::Registered(source, Ok(())) => source,
        _ => panic!("default hotkeys register"),
    };
    assert_eq!(calls, 2);
    assert!(source.is_registered());

    let replacement = pair("ctrl+alt+shift+b", "ctrl+alt+shift+n");
    match drive(source.begin_probe(replacement), SUCCESS).0 {
        TaskStep::Probed(result) => assert_eq!(result, Ok(HotkeyAvailability::Available)),
        _ => panic!("probe reports availability"),
    }

    let source = match drive(source.begin_replace(replacement), SUCCESS).0 {
        TaskStep::Replaced(source, result) => {
            assert_eq!(result, Ok(HotkeyApplyResult::Applied));
            source
        }
        _ => panic!("replacement finishes"),
    };
    assert_eq!(source.pair(), replacement);
    assert!(source.is_registered());
    assert_eq!(
        source.decode_message(WM_HOTKEY, TRIGGER_PRIMARY_ID as usize),
        None,
        "the old id is released after a replacement"
    );

    let source = match drive(source.begin_unregister(), SUCCESS).0 {
        TaskStep::Unregistered(source, result) => {
            assert_eq!(result, Ok(()));
            source
        }
        _ => panic!("unregistering finishes"),
    };
    assert!(!source.is_registered());
    assert_eq!(source.pair(), replacement);
}

#[test]
fn refused_replacement_keeps_the_old_pair() {
    let source = match drive(WindowsCommandSource::new().begin_register(), SUCCESS).0 {
        TaskStep::Registered(source, Ok(())) => source,
        _ => panic!("default hotkeys register"),
    };
    let replacement = pair("ctrl+alt+shift+b", "ctrl+alt+shift+n");
    let taken = NativeReply { succeeded: false, last_error: ERROR_HOTKEY_ALREADY_REGISTERED };
    match drive(source.begin_replace(replacement), taken).0 {
        TaskStep::Replaced(after, result) => {
            assert_eq!(result, Ok(HotkeyApplyResult::RolledBack(HotkeyAvailability::Conflict)));
            assert_eq!(after, source);
        }
        _ => panic!("replacement finishes"),
    }
}

#[test]
fn direct_swap_is_refused_before_any_native_call() {
    let source = match drive(WindowsCommandSource::new().begin_register(), SUCCESS).0 {
        TaskStep::Registered(source, Ok(())) => source,
        _ => panic!("default hotkeys register"),
    };
    let current = source.pair();
    let swapped = HotkeyPair::new(current.cancel, current.trigger);
    let (step, calls) = drive(source.begin_replace(swapped), SUCCESS);
    assert_eq!(calls, 0);
    match step {
        TaskStep::Replaced(after, result) => {
            assert_eq!(result, Ok(HotkeyApplyResult::Rejected(HotkeyAvailability::Unsupported)));
            assert_eq!(after, source);
        }
        _ => panic!("swap is refused"),
    }
}

fn batch(atoms: &[TextAtom]) -> TextBatch<'_> {
    TextBatch::new(atoms, DispatchBatchLimit::new(atoms.len()).expect("non-empty fixture"))
        .expect("bounded fixture")
}

#[test]
fn scalar_encoding_tracks_supplementary_boundaries() {
    let atoms = [TextAtom::scalar('A'), TextAtom::scalar('😀')];
    let encoded = encode_batch(batch(&atoms)).expect("supported batch");

    assert_eq!(encoded.inputs.len(), 6);
    assert_eq!(encoded.semantic_boundaries, vec![2, 6]);
}

#[test]
fn cjk_scalar_is_one_complete_unicode_action() {
    let atoms = [TextAtom::scalar('你')];
    let encoded = encode_batch(batch(&atoms)).expect("supported batch");

    assert_eq!(encoded.inputs.len(), 2);
    assert_eq!(encoded.semantic_boundaries, vec![2]);
}

#[test]
fn corrective_backspace_is_one_complete_key_pair() {
    let encoded = encode_backspace();

    assert_eq!(encoded.inputs.len(), 2);
    assert_eq!(encoded.semantic_boundaries, vec![2]);
}

#[test]
fn line_break_and_tab_are_complete_key_pairs() {
    let atoms = [TextAtom::LineBreak, TextAtom::Tab];
    let encoded = encode_batch(batch(&atoms)).expect("supported batch");

    assert_eq!(encoded.inputs.len(), 4);
    assert_eq!(encoded.semantic_boundaries, vec![2, 4]);
}

#[test]
fn native_acceptance_is_conservative_at_partial_boundaries() {
    let requested = NativeEventCount::new(6);
    let boundaries = [2, 6];

    assert!(matches!(
        classify_keyboard_acceptance(requested, 6, &boundaries, None),
        Ok(DispatchResult::Complete { .. })
    ));
    assert!(matches!(
        classify_keyboard_acceptance(requested, 2, &boundaries, None),
        Ok(DispatchResult::Partial { .. })
    ));
    assert!(matches!(
        classify_keyboard_acceptance(requested, 3, &boundaries, None),
        Ok(DispatchResult::ProgressUnknown { .. })
    ));
    assert!(matches!(
        classify_keyboard_acceptance(requested, 0, &boundaries, None),
        Ok(DispatchResult::NoneAccepted { .. })
    ));
}

#[test]
fn impossible_native_count_fails_closed() {
    let result = classify_keyboard_acceptance(NativeEventCount::new(2), 3, &[2], None);

    assert!(matches!(result, Err(KeyboardError::Native(_))));
}

#[test]
fn paste_chord_is_one_balanced_ctrl_v_sequence() {
    let inputs = paste_inputs();
    assert_eq!(inputs.len(), PASTE_EVENT_COUNT as usize);
    let keys: Vec<(u16, u32)> =
        inputs.iter().map(|input| (input.virtual_key, input.flags)).collect();
    assert_eq!(
        keys,
        vec![(VK_CONTROL, 0), (VK_V, 0), (VK_V, KEYEVENTF_KEYUP), (VK_CONTROL, KEYEVENTF_KEYUP)]
    );
}

#[test]
fn native_acceptance_is_conservative() {
    assert!(matches!(classify_paste_acceptance(4, None), Ok(DispatchResult::Complete { .. })));
    assert!(matches!(
        classify_paste_acceptance(0, None),
        Ok(DispatchResult::NoneAccepted { .. })
    ));
    for accepted in 1..4 {
        assert!(matches!(
            classify_paste_acceptance(accepted, None),
            Ok(DispatchResult::ProgressUnknown { .. })
        ));
    }
    assert!(classify_paste_acceptance(5, None).is_err());
}

fn token(top_level: usize, focus: usize) -> WindowsTargetToken {
    WindowsTargetToken {
        top_level,
        process_id: 41,
        thread_id: 42,
        active: top_level,
        focus,
        capture: 0,
        menu_owner: 0,
        move_size: 0,
        caret: focus,
    }
}

#[test]
fn exact_tokens_detect_native_focus_changes() {
    let exact = EvidenceStrength::NativeFocusedControl;
    let original = token(10, 11);
    assert_eq!(compare_tokens(&original, exact, &original, exact), TargetComparison::Same);
    assert_eq!(compare_tokens(&original, exact, &token(10, 12), exact), TargetComparison::Changed);
    assert_eq!(compare_tokens(&original, exact, &token(20, 11), exact), TargetComparison::Changed);
}

#[test]
fn degraded_tokens_compare_only_stable_top_level_identity() {
    let original = token(10, 11);
    assert_eq!(
        compare_tokens(
            &original,
            EvidenceStrength::Degraded,
            &token(10, 99),
            EvidenceStrength::NativeFocusedControl,
        ),
        TargetComparison::Same
    );
}

#[test]
fn settings_commands_are_content_free_enum_transitions() {
    let settings = ProductSettings {
        enabled: true,
        mode: InjectionMode::Auto,
        speed: SpeedPreset::Normal,
        ..ProductSettings::default()
    };

    let mut enabled = settings;
    enabled.enabled = false;
    let mut clipboard = settings;
    clipboard.mode = InjectionMode::Clipboard;
    let mut fast = settings;
    fast.speed = SpeedPreset::Fast;
    fast.characters_per_second = SpeedPreset::Fast.default_characters_per_second();
    let mut faster = settings;
    adjust_speed(&mut faster, 1);

    for (command, expected) in [
        (CMD_ENABLED, TrayEvent::SettingsChanged(enabled)),
        (CMD_MODE_CLIPBOARD, TrayEvent::SettingsChanged(clipboard)),
        (CMD_SPEED_FAST, TrayEvent::SettingsChanged(fast)),
        (CMD_SPEED_PLUS_ONE, TrayEvent::SettingsChanged(faster)),
    ] {
        assert_eq!(tray_command_event(command, settings), Some(expected));
    }
    assert_eq!(tray_command_event(CMD_HOTKEY, settings), None);
}

#[test]
fn speed_steps_stay_within_the_supported_range() {
    let mut settings = ProductSettings::default();
    settings.characters_per_second = cliptype::MAX_CHARACTERS_PER_SECOND;
    adjust_speed(&mut settings, 10);
    assert_eq!(settings.characters_per_second, cliptype::MAX_CHARACTERS_PER_SECOND);
    settings.characters_per_second = cliptype::MIN_CHARACTERS_PER_SECOND;
    adjust_speed(&mut settings, -10);
    assert_eq!(settings.characters_per_second, cliptype::MIN_CHARACTERS_PER_SECOND);
}
