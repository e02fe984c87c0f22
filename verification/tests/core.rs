use std::time::Duration;

use cliptype::{
    build_keyboard_plan, classify_dispatch, decide_trigger, normalize_text, transition,
    BoundError, BoundKind, ByteCount, CapabilityRequirement, CapabilityState, ConfigError,
    ConfigField, DispatchBatchLimit, DispatchDecision, DispatchObservation, FlowEvent, FlowState,
    HotkeyKey, HotkeyModifiers, HotkeyPair, HotkeyParseError, HotkeyPlatform, HotkeyPreset,
    HotkeySpec, HotkeyValidationError, InjectionMode, NativeByteLimit, NativeEventCount,
    NoInputReason, NormalizationError, P1Config, PlanCapabilities, PlanError, PreparationStage,
    ProductSettings, RetryDisposition, SemanticElementCount, SemanticElementLimit, SensitiveText,
    SettingsValidationError, SpeedPreset, TabPolicy, TerminalOutcome, TextAtom, TextBatch,
    TextBatchError, TriggerDecision, MAX_CHARACTERS_PER_SECOND, MAX_JITTER_PERCENT,
    MAX_TYPO_PROBABILITY_PERCENT, SETTINGS_SCHEMA_VERSION,
};

// --- configuration -----------------------------------------------------------

#[test]
fn default_configuration_is_valid() {
    assert!(P1Config::default().validate().is_ok());
}

#[test]
fn batch_cannot_exceed_total_payload() {
    let config = P1Config {
        total_payload_limit: SemanticElementLimit::new(4).expect("test value"),
        dispatch_batch_limit: DispatchBatchLimit::new(5).expect("test value"),
        ..P1Config::default()
    };
    assert_eq!(config.validate(), Err(ConfigError::BatchExceedsPayload));
}

#[test]
fn modifier_poll_must_be_bounded() {
    let config = P1Config {
        modifier_poll_interval: Duration::ZERO,
        ..P1Config::default()
    };
    assert_eq!(
        config.validate(),
        Err(ConfigError::ZeroDuration(ConfigField::ModifierPollInterval))
    );
}

// --- limits --------------------------------------------------------------------

#[test]
fn zero_bounds_fail_closed() {
    assert_eq!(
        NativeByteLimit::new(0),
        Err(BoundError::Zero(BoundKind::NativeClipboardBytes))
    );
    assert_eq!(
        DispatchBatchLimit::new(0),
        Err(BoundError::Zero(BoundKind::DispatchElements))
    );
}

#[test]
fn native_event_conversion_is_checked() {
    assert_eq!(NativeEventCount::try_from(3_usize).map(NativeEventCount::get), Ok(3));
    if usize::BITS > u32::BITS {
        let too_large = (u32::MAX as usize) + 1;
        assert_eq!(
            NativeEventCount::try_from(too_large),
            Err(BoundError::ExceedsPlatformU32 { kind: BoundKind::NativeEvents, value: too_large })
        );
    }
}

#[test]
fn limits_compare_only_matching_units() {
    let byte_limit = NativeByteLimit::new(8).expect("test constant is non-zero");
    let batch_limit = DispatchBatchLimit::new(2).expect("test constant is non-zero");
    assert!(byte_limit.allows(ByteCount::new(8)));
    assert!(!byte_limit.allows(ByteCount::new(9)));
    assert!(batch_limit.allows(SemanticElementCount::new(2)));
    assert!(!batch_limit.allows(SemanticElementCount::new(3)));
}

// --- outcomes and sensitive text -------------------------------------------------

#[test]
fn partial_and_unknown_input_are_never_retryable() {
    assert_eq!(TerminalOutcome::PartialInput.retry_disposition(), RetryDisposition::Never);
    assert_eq!(TerminalOutcome::ProgressUnknown.retry_disposition(), RetryDisposition::Never);
    assert_eq!(TerminalOutcome::ClipboardChanged.retry_disposition(), RetryDisposition::Never);
}

#[test]
fn debug_is_content_free() {
    let marker = "CLIPTYPE_PRIVATE_SENTINEL_7d4a";
    let text = SensitiveText::new(marker.to_owned());
    let debug = text.debug_text();
    assert!(!debug.contains(marker));
    assert!(debug.contains("[REDACTED]"));
    assert_eq!(text.expose(), marker);
}

#[test]
fn sensitive_debug_reports_only_the_byte_count() {
    let text = SensitiveText::new("héllo".to_owned());
    assert_eq!(text.len_bytes(), 6);
    assert_eq!(text.debug_text(), "SensitiveText { utf8_bytes: 6, content: \"[REDACTED]\" }");
}

// --- text atoms and batches ----------------------------------------------------

#[test]
fn atom_debug_does_not_expose_scalar() {
    let marker = '密';
    let debug = TextAtom::scalar(marker).debug_text();
    assert!(!debug.contains(marker));
    assert_eq!(TextAtom::scalar(marker).exposed_scalar(), Some(marker));
}

#[test]
fn batch_is_non_empty_and_bounded() {
    let limit = DispatchBatchLimit::new(2).expect("test limit");
    let atoms = [TextAtom::scalar('a'), TextAtom::LineBreak];
    assert!(TextBatch::new(&[], limit) == Err(TextBatchError::Empty));
    assert_eq!(TextBatch::new(&atoms, limit).map(TextBatch::len), Ok(2));
    let oversized = [TextAtom::scalar('a'), TextAtom::scalar('b'), TextAtom::Tab];
    assert!(matches!(
        TextBatch::new(&oversized, limit),
        Err(TextBatchError::ExceedsDispatchLimit { .. })
    ));
}

#[test]
fn batch_debug_is_content_free() {
    let marker = "PRIVATE_BATCH_MARKER";
    let atoms: Vec<TextAtom> = marker.chars().map(TextAtom::scalar).collect();
    let limit = DispatchBatchLimit::new(atoms.len()).expect("test limit");
    let batch = TextBatch::new(&atoms, limit).expect("valid batch");
    let debug = batch.debug_text();
    assert!(!debug.contains(marker));
    assert!(debug.contains("[REDACTED]"));
}

// --- normalization ---------------------------------------------------------------

fn normalize(value: &str) -> Result<Vec<TextAtom>, NormalizationError> {
    normalize_text(SensitiveText::new(value.to_owned()), P1Config::default())
        .map(|text| text.atoms().to_vec())
}

#[test]
fn preserves_ascii_cjk_supplementary_and_combining_order() {
    let source = "A中😀e\u{301}";
    let atoms = normalize(source).expect("fixture is supported");
    let exposed: String = atoms.iter().filter_map(|atom| atom.exposed_scalar()).collect();
    assert_eq!(exposed, source);
    assert_eq!(atoms.len(), source.chars().count());
}

#[test]
fn normalizes_all_line_endings_to_one_semantic_atom() {
    assert!(
        normalize("a\r\nb\rc\nd")
            == Ok(vec![
                TextAtom::scalar('a'),
                TextAtom::LineBreak,
                TextAtom::scalar('b'),
                TextAtom::LineBreak,
                TextAtom::scalar('c'),
                TextAtom::LineBreak,
                TextAtom::scalar('d'),
            ])
    );
}

#[test]
fn tab_policy_is_explicit() {
    assert!(
        normalize("a\tb") == Ok(vec![TextAtom::scalar('a'), TextAtom::Tab, TextAtom::scalar('b')])
    );
    let config = P1Config { tab_policy: TabPolicy::Reject, ..P1Config::default() };
    assert!(
        normalize_text(SensitiveText::new("a\tb".to_owned()), config).map(|t| t.len())
            == Err(NormalizationError::TabRejected { scalar_index: 1 })
    );
}

#[test]
fn unsupported_controls_fail_without_exposing_the_character() {
    let marker = "private\u{0000}marker";
    let error = normalize(marker).err().expect("NUL is unsupported");
    let debug = format!("{error:?}");
    assert_eq!(error, NormalizationError::UnsupportedControl { scalar_index: 7 });
    assert!(!debug.contains(marker));
}

#[test]
fn total_payload_limit_is_enforced_after_line_normalization() {
    let config = P1Config {
        total_payload_limit: SemanticElementLimit::new(2).expect("test limit"),
        ..P1Config::default()
    };
    assert!(
        normalize_text(SensitiveText::new("a\r\nb".to_owned()), config).map(|t| t.len())
            == Err(NormalizationError::PayloadTooLarge { limit: config.total_payload_limit })
    );
}

// --- keyboard plans -----------------------------------------------------------------

fn available() -> PlanCapabilities {
    PlanCapabilities {
        unicode_text: CapabilityState::Available,
        line_break: CapabilityState::Available,
        tab: CapabilityState::Available,
        cursor_right: CapabilityState::Available,
        modifier_observation: CapabilityState::Available,
    }
}

#[test]
fn creates_immutable_bounded_plan() {
    let plan = build_keyboard_plan(
        SensitiveText::new("abcdefghij".to_owned()),
        P1Config::default(),
        available(),
    )
    .ok()
    .expect("capabilities support fixture");
    let lengths: Vec<usize> = plan.batch_slices().iter().map(|b| b.len()).collect();
    assert_eq!(lengths, vec![8, 2]);
    assert_eq!(plan.text().len(), 10);
}

#[test]
fn rejects_unavailable_and_degraded_capabilities() {
    let unavailable = PlanCapabilities { unicode_text: CapabilityState::Unavailable, ..available() };
    assert_eq!(
        build_keyboard_plan(SensitiveText::new("a".to_owned()), P1Config::default(), unavailable)
            .err()
            .expect("Unicode capability is required"),
        PlanError::CapabilityUnavailable(CapabilityRequirement::UnicodeText)
    );
    let degraded =
        PlanCapabilities { modifier_observation: CapabilityState::Degraded, ..available() };
    assert_eq!(
        build_keyboard_plan(SensitiveText::new("a".to_owned()), P1Config::default(), degraded)
            .err()
            .expect("strict P1 policy rejects degradation"),
        PlanError::CapabilityDegraded(CapabilityRequirement::ModifierObservation)
    );
}

#[test]
fn plan_plan_debug_is_content_free() {
    let marker = "PLAN_PRIVATE_SENTINEL";
    let plan = build_keyboard_plan(
        SensitiveText::new(marker.to_owned()),
        P1Config::default(),
        available(),
    )
    .ok()
    .expect("fixture is supported");
    assert!(!plan.debug_text().contains(marker));
}

// --- settings -----------------------------------------------------------------------

#[test]
fn defaults_are_versioned_and_runtime_valid() {
    let settings = ProductSettings::default();
    assert_eq!(settings.version, SETTINGS_SCHEMA_VERSION);
    assert!(settings.validate().is_ok());
    let runtime = settings.runtime_config().expect("runtime config");
    assert_eq!(runtime.enabled, settings.enabled);
    assert_eq!(runtime.mode, settings.mode);
    assert_eq!(runtime.auto_clipboard_threshold, settings.auto_clipboard_threshold);
    assert_eq!(runtime.jitter_percent, settings.jitter_percent);
    assert_eq!(runtime.typo_probability_percent, settings.typo_probability_percent);
    assert_eq!(
        runtime.safety.keyboard_interval,
        Duration::from_nanos(1_000_000_000_u64 / u64::from(settings.characters_per_second))
    );
}

#[test]
fn speed_preset_and_custom_rate_map_to_future_session_config() {
    let settings = ProductSettings {
        mode: InjectionMode::Keyboard,
        speed: SpeedPreset::Custom,
        characters_per_second: 37,
        jitter_percent: 21,
        typo_probability_percent: 3,
        ..ProductSettings::default()
    };
    let runtime = settings.runtime_config().expect("runtime config");
    assert_eq!(runtime.safety.keyboard_interval, Duration::from_nanos(1_000_000_000_u64 / 37));
    assert_eq!(runtime.jitter_percent, 21);
    assert_eq!(runtime.typo_probability_percent, 3);
}

#[test]
fn typing_bounds_fail_closed() {
    assert_eq!(
        ProductSettings { characters_per_second: MAX_CHARACTERS_PER_SECOND + 1, ..ProductSettings::default() }
            .validate(),
        Err(SettingsValidationError::CharactersPerSecondOutOfRange)
    );
    assert_eq!(
        ProductSettings { jitter_percent: MAX_JITTER_PERCENT + 1, ..ProductSettings::default() }
            .validate(),
        Err(SettingsValidationError::JitterOutOfRange)
    );
    assert_eq!(
        ProductSettings {
            typo_probability_percent: MAX_TYPO_PROBABILITY_PERCENT + 1,
            ..ProductSettings::default()
        }
        .validate(),
        Err(SettingsValidationError::TypoProbabilityOutOfRange)
    );
}

#[test]
fn unknown_versions_fail_closed() {
    let settings = ProductSettings { version: SETTINGS_SCHEMA_VERSION + 1, ..ProductSettings::default() };
    assert_eq!(
        settings.validate(),
        Err(SettingsValidationError::UnsupportedVersion(SETTINGS_SCHEMA_VERSION + 1))
    );
}

#[test]
fn hotkey_presets_expose_only_reviewed_pairs() {
    assert_eq!(HotkeyPreset::CtrlAltFunction.trigger_label(), "Ctrl+Alt+F12");
    assert_eq!(HotkeyPreset::CtrlShiftFunction.cancel_label(), "Ctrl+Shift+F11");
}

#[test]
fn zero_rate_has_no_runtime_but_the_minimum_does() {
    let slowest = ProductSettings { characters_per_second: 1, ..ProductSettings::default() };
    assert_eq!(
        slowest.runtime_config().expect("runtime config").safety.keyboard_interval,
        Duration::from_secs(1)
    );
    assert_eq!(
        ProductSettings { characters_per_second: 0, ..ProductSettings::default() }.validate(),
        Err(SettingsValidationError::CharactersPerSecondOutOfRange)
    );
}

// --- session flow ---------------------------------------------------------------------

#[test]
fn follows_the_valid_happy_path() {
    let mut state = FlowState::Idle;
    for event in [
        FlowEvent::TriggerAccepted,
        FlowEvent::TargetCaptured,
        FlowEvent::ModifiersSettled,
        FlowEvent::ClipboardAcquired,
        FlowEvent::PlanReady,
        FlowEvent::BatchAccepted,
        FlowEvent::AllBatchesComplete,
        FlowEvent::Finalized,
    ] {
        state = transition(state, event).expect("valid transition");
    }
    assert_eq!(state, FlowState::Idle);
}

#[test]
fn non_idle_trigger_is_busy() {
    assert_eq!(decide_trigger(FlowState::Idle), TriggerDecision::Accept);
    assert_eq!(
        decide_trigger(FlowState::Preparing(PreparationStage::CaptureTarget)),
        TriggerDecision::Busy
    );
    assert_eq!(decide_trigger(FlowState::Injecting), TriggerDecision::Busy);
}

#[test]
fn cancellation_and_abort_finalize_before_idle() {
    let cancelling = transition(FlowState::Injecting, FlowEvent::CancelRequested)
        .expect("cancel request is valid");
    let finalizing = transition(cancelling, FlowEvent::CancellationObserved)
        .expect("cancellation observation is valid");
    assert_eq!(finalizing, FlowState::Finalizing(TerminalOutcome::Cancelled));
    assert_eq!(transition(finalizing, FlowEvent::Finalized), Ok(FlowState::Idle));
    assert_eq!(
        transition(FlowState::Injecting, FlowEvent::Abort(TerminalOutcome::TargetChanged)),
        Ok(FlowState::Finalizing(TerminalOutcome::TargetChanged))
    );
}

#[test]
fn clipboard_is_never_acquired_before_the_target_is_captured() {
    for stage in [PreparationStage::CaptureTarget, PreparationStage::BuildPlan] {
        assert!(transition(FlowState::Preparing(stage), FlowEvent::ClipboardAcquired).is_err());
    }
    assert!(transition(
        FlowState::Preparing(PreparationStage::CaptureTarget),
        FlowEvent::ModifiersSettled,
    )
    .is_err());
    assert_eq!(
        transition(
            FlowState::Preparing(PreparationStage::WaitForModifiers),
            FlowEvent::ModifiersSettled,
        ),
        Ok(FlowState::Preparing(PreparationStage::AcquireClipboard))
    );
}

#[test]
fn invalid_sequences_are_rejected() {
    assert!(transition(FlowState::Idle, FlowEvent::PlanReady).is_err());
    assert!(transition(
        FlowState::Preparing(PreparationStage::CaptureTarget),
        FlowEvent::AllBatchesComplete,
    )
    .is_err());
}

#[test]
fn partial_and_unknown_dispatch_stop_without_retry() {
    for (observation, outcome) in [
        (DispatchObservation::Partial, TerminalOutcome::PartialInput),
        (DispatchObservation::ProgressUnknown, TerminalOutcome::ProgressUnknown),
        (
            DispatchObservation::NoEvents(NoInputReason::BlockedCauseUnknown),
            TerminalOutcome::BlockedCauseUnknown,
        ),
    ] {
        assert_eq!(classify_dispatch(observation), DispatchDecision::Stop(outcome));
        assert_eq!(outcome.retry_disposition(), RetryDisposition::Never);
    }
}

// --- shortcuts ------------------------------------------------------------------------

#[test]
fn canonical_round_trip_is_deterministic() {
    let spec: HotkeySpec = "shift+ctrl+alt+v".parse().expect("valid shortcut");
    assert_eq!(spec.canonical(), "ctrl+alt+shift+v");
    assert_eq!(spec.canonical().parse(), Ok(spec));
    assert_eq!(spec.label(HotkeyPlatform::Windows), "Ctrl+Alt+Shift+V");
    assert_eq!(spec.label(HotkeyPlatform::MacOS), "⌃⌥⇧V");
}

#[test]
fn canonical_text_reads_back_for_every_modifier_set() {
    let keys = [HotkeyKey::V, HotkeyKey::F12, HotkeyKey::PageUp, HotkeyKey::Slash, HotkeyKey::Digit0];
    for bits in 0u8..16 {
        let modifiers = HotkeyModifiers::from_members(
            bits & 1 != 0,
            bits & 2 != 0,
            bits & 4 != 0,
            bits & 8 != 0,
        );
        if !modifiers.has_primary() {
            continue;
        }
        for key in keys {
            let spec = HotkeySpec { modifiers, key };
            assert_eq!(spec.canonical().parse::<HotkeySpec>(), Ok(spec));
        }
    }
}

#[test]
fn modifier_order_does_not_change_a_shortcut() {
    let reordered: Result<HotkeySpec, HotkeyParseError> = "shift+ctrl+alt+v".parse();
    let canonical: Result<HotkeySpec, HotkeyParseError> = "ctrl+alt+shift+v".parse();
    assert_eq!(reordered, canonical);
    let with_key_first: Result<HotkeySpec, HotkeyParseError> = "v+alt+ctrl".parse();
    let key_last: Result<HotkeySpec, HotkeyParseError> = "v+ctrl+alt".parse();
    assert_eq!(with_key_first, key_last);
    let duplicated: Result<HotkeySpec, HotkeyParseError> = "ctrl+shift+ctrl+v".parse();
    assert_eq!(duplicated, Err(HotkeyParseError::DuplicateModifier));
}

#[test]
fn key_names_read_back_ignoring_case_and_surrounding_space() {
    let keys = [
        HotkeyKey::V,
        HotkeyKey::F12,
        HotkeyKey::PageUp,
        HotkeyKey::BracketLeft,
        HotkeyKey::ArrowLeft,
        HotkeyKey::Digit0,
        HotkeyKey::Backquote,
    ];
    for key in keys {
        let name = key.canonical_name();
        assert_eq!(name.parse::<HotkeyKey>(), Ok(key));
        assert_eq!(format!("  {}\t", name.to_uppercase()).parse::<HotkeyKey>(), Ok(key));
        for other in keys {
            if other != key {
                assert_ne!(other.canonical_name(), name);
            }
        }
    }
}

#[test]
fn bare_and_shift_only_shortcuts_fail_closed() {
    assert!(matches!(
        "v".parse::<HotkeySpec>(),
        Err(HotkeyParseError::Validation(HotkeyValidationError::MissingPrimaryModifier))
    ));
    assert!(matches!(
        "shift+v".parse::<HotkeySpec>(),
        Err(HotkeyParseError::Validation(HotkeyValidationError::MissingPrimaryModifier))
    ));
}

#[test]
fn trigger_and_cancel_must_differ() {
    let spec: HotkeySpec = "ctrl+alt+v".parse().expect("valid shortcut");
    assert_eq!(HotkeyPair::new(spec, spec).validate(), Err(HotkeyValidationError::DuplicatePair));
}

#[test]
fn platform_reservations_are_explicit() {
    let windows_f12: HotkeySpec = "ctrl+alt+f12".parse().expect("structurally valid");
    assert_eq!(
        windows_f12.validate_for(HotkeyPlatform::Windows),
        Err(HotkeyValidationError::Reserved)
    );
    let mac_spotlight: HotkeySpec = "cmd+space".parse().expect("structurally valid");
    assert_eq!(
        mac_spotlight.validate_for(HotkeyPlatform::MacOS),
        Err(HotkeyValidationError::Reserved)
    );
}

#[test]
fn default_pair_is_non_f12_and_platform_valid() {
    let pair = HotkeyPair::default();
    assert_eq!(pair.trigger.key, HotkeyKey::V);
    assert_eq!(pair.cancel.key, HotkeyKey::X);
    assert!(pair.validate_for(HotkeyPlatform::Windows).is_ok());
    assert!(pair.validate_for(HotkeyPlatform::MacOS).is_ok());
}

#[test]
fn parser_rejects_duplicates_and_multiple_keys() {
    assert_eq!("ctrl+ctrl+v".parse::<HotkeySpec>(), Err(HotkeyParseError::DuplicateModifier));
    assert_eq!("ctrl+v+x".parse::<HotkeySpec>(), Err(HotkeyParseError::MultipleKeys));
}

#[test]
fn modifiers_are_native_neutral_bits() {
    let modifiers = HotkeyModifiers::of_control()
        .with(HotkeyModifiers::of_alt())
        .with(HotkeyModifiers::of_shift());
    assert!(modifiers.control());
    assert!(modifiers.alt());
    assert!(modifiers.shift());
    assert!(!modifiers.meta());
}

#[test]
fn parsed_shortcuts_always_hold_a_primary_modifier() {
    for text in ["ctrl+a", "alt+f4", "meta+space", "ctrl+shift+pageup"] {
        let spec: HotkeySpec = text.parse().expect("valid shortcut");
        assert!(spec.modifiers.has_primary());
    }
    assert_eq!("".parse::<HotkeySpec>(), Err(HotkeyParseError::Empty));
    assert_eq!("ctrl+nope".parse::<HotkeySpec>(), Err(HotkeyParseError::UnknownToken));
    assert_eq!("ctrl+alt".parse::<HotkeySpec>(), Err(HotkeyParseError::MissingKey));
}
