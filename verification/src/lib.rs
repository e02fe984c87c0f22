//! Platform-independent policy, planning and decision logic for ClipType.
//!
//! Clipboard text is sensitive by default, native work is bounded, and
//! uncertain platform evidence is represented explicitly rather than collapsed
//! into booleans.
mod limits;

pub use limits::{
    BoundError, BoundKind, ByteCount, DispatchBatchLimit, NativeByteLimit, NativeEventCount,
    RetryAttemptLimit, SemanticElementCount, SemanticElementLimit, Utf16UnitCount,
};
mod textual;
mod duration;
mod outcome;
mod sensitive;
mod text;

pub use duration::{duration_is_zero, duration_nanos};
pub use outcome::{
    CapabilityState, EvidenceStrength, IntegrityRelation, PreparationFailure, RetryDisposition,
    SessionPhase, TerminalOutcome,
};
pub use sensitive::SensitiveText;
pub use text::{TextAtom, TextBatch, TextBatchError};
mod config;

pub use config::{
    ConfigError, ConfigField, FocusPolicy, NewlinePolicy, P1Config, RetryBudget, TabPolicy,
};
mod normalization;

pub use normalization::{NormalizationError, NormalizedText, normalize_text};
mod plan;

pub use plan::{
    build_keyboard_plan, CapabilityRequirement, KeyboardPlan, PlanCapabilities, PlanError,
};
mod code_plan;

pub use code_plan::{build_code_actions, CodeAction};
mod product;

pub use product::{
    build_injection_plan, AutoClipboardThreshold, ClipboardPlan, CodePlan, InjectionBackend,
    InjectionMode, InjectionPlan, ProductCapabilities, ProductConfig, ProductConfigError,
    ProductPlanError,
};
mod settings;

pub use settings::{
    HotkeyPreset, ProductSettings, SettingsValidationError, SpeedPreset, MAX_CHARACTERS_PER_SECOND,
    MAX_JITTER_PERCENT, MAX_TYPO_PROBABILITY_PERCENT, MIN_CHARACTERS_PER_SECOND,
    SETTINGS_SCHEMA_VERSION,
};
mod state;

pub use state::{
    classify_dispatch, decide_trigger, transition, DispatchDecision, DispatchObservation, FlowEvent,
    FlowState, NoInputReason, PreparationStage, TransitionError, TriggerDecision,
};
mod settings_file;

pub use settings_file::{
    load_backup, load_primary, FILE_CHARACTERS_PER_SECOND, parse_settings, serialize_settings, FileRead, LoadStep,
    SettingsError, SettingsLoad, SettingsSource, SettingsStore,
};
mod hotkey;

pub use hotkey::{
    parse_hotkey, parse_key, HotkeyApplyResult, HotkeyAvailability, HotkeyKey, HotkeyModifiers,
    HotkeyPair, HotkeyParseError, HotkeyPlatform, HotkeySpec, HotkeyValidationError,
};
mod platform;

pub use platform::{
    settle_snapshot, AccessibilityPermissionPort, AccessibilityPermissionState, ClipboardError,
    ClipboardPort, ClipboardRevision, ClipboardSnapshot, CommandEvent, CommandEventSource,
    CommandSourceError, CommandSourceErrorKind, DispatchResult, HotkeyControlError,
    HotkeyControlErrorKind, HotkeyControlPort, KeyboardCapabilities, KeyboardError, KeyboardPort,
    ModifierMask, ModifierObservation, ModifierPort, NativeDispatchCount, NativeError,
    NativeErrorKind, PasteCapabilities, PasteError, PastePort, PermissionActionResult,
    PermissionError, PermissionErrorKind, TargetCaptureError, TargetComparison, TargetMetadata,
};
mod session;

pub use session::{
    adjacent_typo, after_clipboard_error, clipboard_error_is_retryable, dispatch_observation,
    jittered_delay, map_clipboard_error, map_keyboard_error, map_paste_error, map_plan_error,
    map_product_plan_error, modifier_capability_failure, product_capabilities, target_verdict,
    CancelResult, ClipboardAttempt, SessionCompletion, ShutdownResult, StatusSnapshot,
    TriggerResult, TypingRandom, WaitResult,
};
mod windows;

pub use windows::{
    capture_target_evidence, classify_keyboard_acceptance, classify_paste_acceptance,
    compare_after_capture, compare_tokens, decode_utf16, decode_utf16_units, encode_backspace,
    encode_batch, integrity_from_levels, paste_inputs, paste_revision_check,
    validate_allocation_size, EncodedBatch, GuiThreadFocus, KeyEvent, WindowsTargetToken,
    KEYEVENTF_KEYUP, KEYEVENTF_UNICODE, PASTE_EVENT_COUNT, VK_BACK, VK_CONTROL, VK_RETURN,
    VK_TAB, VK_V,
};
mod windows_command;

pub use windows_command::{
    alternate_cancel_id, alternate_trigger_id, availability_to_command_error,
    command_error_from_control, control_error_from_command, invalid_binding, is_cross_swap,
    native_error_from_last, registration_outcome, translate_hotkey, validate_candidate,
    virtual_key, NativeReply, RegistrationCall, RegistrationTask, TaskStage, TaskStep,
    WindowsCommandSource, CANCEL_HOTKEY, CANCEL_PRIMARY_ID, CANCEL_SECONDARY_ID,
    ERROR_HOTKEY_ALREADY_REGISTERED, MOD_ALT, MOD_CONTROL, MOD_NOREPEAT, MOD_SHIFT, MOD_WIN,
    PROBE_CANCEL_ID, PROBE_TRIGGER_ID, TRIGGER_HOTKEY, TRIGGER_PRIMARY_ID, TRIGGER_SECONDARY_ID,
    WM_APP, WM_CLIPTYPE_CONTROL, WM_CLIPTYPE_SHUTDOWN, WM_HOTKEY, WM_QUIT,
};
mod windows_startup;

pub use windows_startup::{
    check, command_for_executable, found_check, startup_status, string_value_units,
    strip_terminator, value_byte_len, StartupError, StartupStatus, ERROR_FILE_NOT_FOUND,
    ERROR_SUCCESS, REG_SZ,
};
mod windows_tray;

pub use windows_tray::{
    adjust_speed, command_after_menu, notice_is_shown, notice_text, tray_command_event,
    TrayError, TrayEvent, TrayNotice, CMD_CANCEL, CMD_ENABLED, CMD_HOTKEY, CMD_JITTER_HEADER,
    CMD_JITTER_MINUS_FIVE, CMD_JITTER_PLUS_FIVE, CMD_MODE_AUTO, CMD_MODE_CLIPBOARD,
    CMD_MODE_KEYBOARD, CMD_NOTIFICATIONS, CMD_OPEN_SETTINGS, CMD_QUIT, CMD_SPEED_FAST,
    CMD_SPEED_HEADER, CMD_SPEED_MINUS_ONE, CMD_SPEED_MINUS_TEN, CMD_SPEED_NORMAL,
    CMD_SPEED_PLUS_ONE, CMD_SPEED_PLUS_TEN, CMD_SPEED_SLOW, CMD_STARTUP, CMD_TRIGGER,
    CMD_TYPO_HEADER, CMD_TYPO_MINUS_ONE, CMD_TYPO_PLUS_ONE, NIIF_ERROR, NIIF_INFO, NIIF_WARNING,
};
mod macos;

pub use macos::{
    availability_from_status, command_from_native, compare_mac_tokens, mac_capture,
    mac_clipboard_status, mac_clipboard_text, mac_initial_result, mac_interrupted_result,
    mac_key_sequence_result, mac_keyboard_capabilities, mac_mode_code, mac_pair_arguments,
    mac_paste_capabilities, mac_paste_result, mac_paste_revision, mac_permission_code,
    mac_permission_request, mac_permission_state, mac_post_for, mac_replace_gate,
    mac_replace_result, mac_requested_events, mac_settings_opened, mac_startup_change,
    mac_startup_status, mac_validate_pair, native_hotkey, observation_from_flags,
    revision_from_change_count, MacMenuEvent, MacPost, MacStartupStatus, MacTargetToken,
    CLIPBOARD_CHANGED, CLIPBOARD_EMPTY, CLIPBOARD_MALFORMED, CLIPBOARD_NON_TEXT, CLIPBOARD_OK,
    FLAG_COMMAND, FLAG_CONTROL, FLAG_OPTION, FLAG_SHIFT, HOTKEY_CONFLICT, HOTKEY_OK,
    HOTKEY_UNSUPPORTED,
};
mod ui;

pub use ui::{
    availability_label, capability_status, hotkeys_from_text, key_from_character, mode_index,
    parse_display_shortcut, permission_label, settings_from_form, shortcut_from_event,
    SettingsForm, SettingsUiError, SettingsUiEvent, SettingsUiPlatform, ShortcutField,
};
mod bridge;

pub use bridge::{
    backend_code, bridge_hotkey_text, bridge_state, cancel_code, completion_code, hotkey_code,
    hotkey_text, parse_hotkeys, phase_code, settings_from_args, shutdown_code, terminated_copy,
    trigger_code, validate_hotkeys_code, CtBridgeState, SettingsArgs, CT_BUSY, CT_HOTKEY_AVAILABLE,
    CT_HOTKEY_RESERVED, CT_HOTKEY_UNKNOWN, CT_HOTKEY_UNSUPPORTED, CT_INVALID, CT_NATIVE_FAILURE,
    CT_OK, CT_REJECTED, CT_SHUTTING_DOWN, MAX_HOTKEY_BYTES,
};
mod host;

pub use host::{
    availability_message, begin_apply, completion_message, completion_notice, host_options,
    preset_pair, probe_status_message, startup_enabled, trigger_message, trigger_notice,
    ApplyCall, ApplyFailure, ApplyProblem, ApplyReply, ApplyStage, ApplyStep, HostError,
    HostOptions, MacHostError, SettingsApply,
};
mod messages;
mod session_run;

pub use session_run::{
    captured_flow, trigger_refusal, CancellationProbe, KeyAction, KeyPart, RunStage, SessionAction, SessionEvent,
    SessionRun, SessionStep, CODE_ACTION_SETTLE_NANOS, CODE_NAVIGATION_SETTLE_NANOS,
};
