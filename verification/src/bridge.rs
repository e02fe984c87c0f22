//! The numeric, content-free interface a desktop shell uses: status codes,
//! the settings it may save, and the snapshot it reads. Pointers, threads and
//! the runtime behind the interface belong to the host.
use vstd::prelude::*;

use vstd::string::StringSliceAdditionalSpecFns;
use vstd::utf8::valid_utf8;

use crate::hotkey::{
    parse_hotkey, shortcut_from_text, HotkeyPair, HotkeyParseError, HotkeyPlatform,
    HotkeyValidationError,
};
use crate::outcome::{PreparationFailure, SessionPhase, TerminalOutcome};
use crate::product::{AutoClipboardThreshold, InjectionBackend, InjectionMode};
use crate::session::{CancelResult, SessionCompletion, ShutdownResult, StatusSnapshot, TriggerResult};
use crate::settings::{HotkeyPreset, ProductSettings, SpeedPreset, SETTINGS_SCHEMA_VERSION};

verus! {

pub const CT_OK: i32 = 0;
pub const CT_INVALID: i32 = 1;
pub const CT_NATIVE_FAILURE: i32 = 2;
pub const CT_BUSY: i32 = 3;
pub const CT_SHUTTING_DOWN: i32 = 4;
pub const CT_REJECTED: i32 = 5;

pub const CT_HOTKEY_AVAILABLE: i32 = 0;
pub const CT_HOTKEY_RESERVED: i32 = 2;
pub const CT_HOTKEY_UNSUPPORTED: i32 = 3;
pub const CT_HOTKEY_UNKNOWN: i32 = 4;

/// The longest shortcut text accepted, in bytes before the terminator.
pub const MAX_HOTKEY_BYTES: usize = 63;

/// Numeric snapshot handed to the shell. All fields are bounded and
/// content-free.
#[derive(Debug, Clone, Copy, PartialEq, Eq, Structural)]
pub struct CtBridgeState {
    pub enabled: i32,
    pub notifications: i32,
    pub start_at_login: i32,
    pub mode: i32,
    pub characters_per_second: u16,
    pub jitter_percent: u8,
    pub typo_probability_percent: u8,
    pub auto_clipboard_threshold: u32,
    pub generation: u64,
    pub phase: i32,
    pub backend: i32,
    pub completion: i32,
    pub batches_completed: u32,
}

pub open spec fn spec_hotkey_code(error: HotkeyValidationError) -> i32 {
    match error {
        HotkeyValidationError::Reserved => CT_HOTKEY_RESERVED,
        HotkeyValidationError::Unsupported => CT_HOTKEY_UNSUPPORTED,
        _ => CT_INVALID,
    }
}

pub fn hotkey_code(error: HotkeyValidationError) -> (r: i32)
    ensures
        r == spec_hotkey_code(error),
{
    match error {
        HotkeyValidationError::Reserved => CT_HOTKEY_RESERVED,
        HotkeyValidationError::Unsupported => CT_HOTKEY_UNSUPPORTED,
        HotkeyValidationError::MissingPrimaryModifier => CT_INVALID,
        HotkeyValidationError::DuplicatePair => CT_INVALID,
    }
}

/// The text of a terminated shortcut string: its bytes before the first zero,
/// which must come within the bound, and which must be UTF-8.
pub fn hotkey_text(scanned: &[u8]) -> (r: Result<&str, i32>)
    ensures
        match r {
            Ok(s) => exists|i: int|
                0 <= i <= MAX_HOTKEY_BYTES && i < scanned@.len() && scanned@[i] == 0 && (forall|
                    j: int,
                | 0 <= j < i ==> scanned@[j] != 0) && s.spec_bytes() == scanned@.take(i),
            Err(code) => code == CT_INVALID && !(exists|i: int|
                0 <= i <= MAX_HOTKEY_BYTES && i < scanned@.len() && scanned@[i] == 0 && (forall|
                    j: int,
                | 0 <= j < i ==> scanned@[j] != 0) && valid_utf8(scanned@.take(i))),
        },
{
    let n = scanned.len();
    let mut i: usize = 0;
    while i < n && i <= MAX_HOTKEY_BYTES
        invariant
            n == scanned@.len(),
            i <= n,
            i <= MAX_HOTKEY_BYTES + 1,
            forall|j: int| 0 <= j < i ==> scanned@[j] != 0,
        decreases n - i,
    {
        if scanned[i] == 0 {
            let (prefix, _) = scanned.split_at(i);
            assert(prefix@ =~= scanned@.take(i as int));
            return match crate::macos::utf8_text(prefix) {
                Some(s) => Ok(s),
                None => {
                    assert forall|k: int|
                        0 <= k <= MAX_HOTKEY_BYTES && k < scanned@.len() && scanned@[k] == 0 && (
                        forall|j: int| 0 <= j < k ==> scanned@[j] != 0) implies !valid_utf8(
                        scanned@.take(k),
                    ) by {
                        if k < i {
                            assert(scanned@[k] != 0);
                        } else if k > i {
                            assert(scanned@[i as int] != 0);
                        }
                    }
                    Err(CT_INVALID)
                },
            };
        }
        i = i + 1;
    }
    Err(CT_INVALID)
}

pub open spec fn parse_code(error: HotkeyParseError) -> i32 {
    match error {
        HotkeyParseError::Validation(v) => spec_hotkey_code(v),
        _ => CT_INVALID,
    }
}

pub open spec fn bridge_pair(trigger: Seq<char>, cancel: Seq<char>) -> Result<HotkeyPair, i32> {
    match shortcut_from_text(trigger) {
        Err(e) => Err(parse_code(e)),
        Ok(t) => match shortcut_from_text(cancel) {
            Err(e) => Err(parse_code(e)),
            Ok(c) => {
                let pair = HotkeyPair { trigger: t, cancel: c };
                match pair.platform_violation(HotkeyPlatform::MacOS) {
                    Some(e) => Err(spec_hotkey_code(e)),
                    None => Ok(pair),
                }
            },
        },
    }
}

fn parse_error_code(error: HotkeyParseError) -> (r: i32)
    ensures
        r == parse_code(error),
{
    match error {
        HotkeyParseError::Validation(v) => hotkey_code(v),
        _ => CT_INVALID,
    }
}

/// Reads and checks a shortcut pair for macOS, as a status code on failure.
pub fn parse_hotkeys(trigger: &str, cancel: &str) -> (r: Result<HotkeyPair, i32>)
    ensures
        r == bridge_pair(trigger@, cancel@),
{
    let t = match parse_hotkey(trigger) {
        Ok(t) => t,
        Err(e) => return Err(parse_error_code(e)),
    };
    let c = match parse_hotkey(cancel) {
        Ok(c) => c,
        Err(e) => return Err(parse_error_code(e)),
    };
    match HotkeyPair::new(t, c).validate_for(HotkeyPlatform::MacOS) {
        Ok(p) => Ok(p),
        Err(e) => Err(hotkey_code(e)),
    }
}

/// The availability code a pair check answers with.
pub fn validate_hotkeys_code(trigger: &str, cancel: &str) -> (r: i32)
    ensures
        r == match bridge_pair(trigger@, cancel@) {
            Ok(_) => CT_HOTKEY_AVAILABLE,
            Err(code) => code,
        },
{
    match parse_hotkeys(trigger, cancel) {
        Ok(_) => CT_HOTKEY_AVAILABLE,
        Err(code) => code,
    }
}

/// The values a settings save carries, besides the shortcut texts.
#[derive(Debug, Clone, Copy, PartialEq, Eq, Structural)]
pub struct SettingsArgs {
    pub enabled: i32,
    pub notifications: i32,
    pub start_at_login: i32,
    pub mode: i32,
    pub characters_per_second: u16,
    pub jitter_percent: u8,
    pub typo_probability_percent: u8,
    pub auto_clipboard_threshold: u32,
}

pub open spec fn mode_of_code(code: i32) -> Option<InjectionMode> {
    if code == 0 {
        Some(InjectionMode::Keyboard)
    } else if code == 1 {
        Some(InjectionMode::Clipboard)
    } else if code == 2 {
        Some(InjectionMode::Auto)
    } else if code == 3 {
        Some(InjectionMode::Code)
    } else {
        None
    }
}

/// The settings a save describes: a known mode, a threshold above zero, a
/// valid shortcut pair, and values that validate; the speed becomes custom.
/// The shortcut preset is kept from `hotkey`.
pub open spec fn args_settings(
    args: SettingsArgs,
    trigger: Seq<char>,
    cancel: Seq<char>,
    hotkey: HotkeyPreset,
) -> Result<ProductSettings, i32> {
    match mode_of_code(args.mode) {
        None => Err(CT_INVALID),
        Some(mode) => if args.auto_clipboard_threshold == 0 {
            Err(CT_INVALID)
        } else {
            match bridge_pair(trigger, cancel) {
                Err(code) => Err(code),
                Ok(_) => {
                    let settings = ProductSettings {
                        version: SETTINGS_SCHEMA_VERSION,
                        enabled: args.enabled != 0,
                        mode,
                        auto_clipboard_threshold: AutoClipboardThreshold::spec_new(
                            args.auto_clipboard_threshold as usize,
                        ),
                        speed: SpeedPreset::Custom,
                        characters_per_second: args.characters_per_second,
                        jitter_percent: args.jitter_percent,
                        typo_probability_percent: args.typo_probability_percent,
                        notifications: args.notifications != 0,
                        start_at_login: args.start_at_login != 0,
                        hotkey,
                    };
                    if settings.violation() is Some {
                        Err(CT_INVALID)
                    } else {
                        Ok(settings)
                    }
                },
            }
        },
    }
}

pub fn settings_from_args(
    args: SettingsArgs,
    trigger: &str,
    cancel: &str,
    hotkey: HotkeyPreset,
) -> (r: Result<ProductSettings, i32>)
    ensures
        r == args_settings(args, trigger@, cancel@, hotkey),
{
    let mode = if args.mode == 0 {
        InjectionMode::Keyboard
    } else if args.mode == 1 {
        InjectionMode::Clipboard
    } else if args.mode == 2 {
        InjectionMode::Auto
    } else if args.mode == 3 {
        InjectionMode::Code
    } else {
        return Err(CT_INVALID);
    };
    let threshold = match AutoClipboardThreshold::new(args.auto_clipboard_threshold as usize) {
        Ok(t) => t,
        Err(_) => return Err(CT_INVALID),
    };
    match parse_hotkeys(trigger, cancel) {
        Ok(_) => {},
        Err(code) => return Err(code),
    }
    let settings = ProductSettings {
        version: SETTINGS_SCHEMA_VERSION,
        enabled: args.enabled != 0,
        mode,
        auto_clipboard_threshold: threshold,
        speed: SpeedPreset::Custom,
        characters_per_second: args.characters_per_second,
        jitter_percent: args.jitter_percent,
        typo_probability_percent: args.typo_probability_percent,
        notifications: args.notifications != 0,
        start_at_login: args.start_at_login != 0,
        hotkey,
    };
    match settings.validate() {
        Ok(s) => Ok(s),
        Err(_) => Err(CT_INVALID),
    }
}

// ---------------------------------------------------------------------------
// Status codes.
// ---------------------------------------------------------------------------

pub open spec fn spec_phase_code(phase: SessionPhase) -> i32 {
    match phase {
        SessionPhase::Idle => 0,
        SessionPhase::Preparing => 1,
        SessionPhase::Injecting => 2,
        SessionPhase::Cancelling => 3,
    }
}

pub fn phase_code(phase: SessionPhase) -> (r: i32)
    ensures
        r == spec_phase_code(phase),
{
    match phase {
        SessionPhase::Idle => 0,
        SessionPhase::Preparing => 1,
        SessionPhase::Injecting => 2,
        SessionPhase::Cancelling => 3,
    }
}

pub open spec fn spec_backend_code(backend: Option<InjectionBackend>) -> i32 {
    match backend {
        Some(InjectionBackend::Keyboard) => 0,
        Some(InjectionBackend::Clipboard) => 1,
        Some(InjectionBackend::Code) => 2,
        None => -1i32,
    }
}

pub fn backend_code(backend: Option<InjectionBackend>) -> (r: i32)
    ensures
        r == spec_backend_code(backend),
{
    match backend {
        Some(InjectionBackend::Keyboard) => 0,
        Some(InjectionBackend::Clipboard) => 1,
        Some(InjectionBackend::Code) => 2,
        None => -1,
    }
}

pub open spec fn outcome_code(outcome: TerminalOutcome) -> i32 {
    match outcome {
        TerminalOutcome::Completed => 1,
        TerminalOutcome::Cancelled => 2,
        TerminalOutcome::TargetChanged => 3,
        TerminalOutcome::ClipboardChanged => 4,
        TerminalOutcome::KnownSecurityRestriction => 5,
        TerminalOutcome::ModifierConflict => 7,
        TerminalOutcome::TargetEvidenceUnavailable => 8,
        TerminalOutcome::TargetDisappeared => 9,
        TerminalOutcome::PartialInput => 10,
        TerminalOutcome::ProgressUnknown => 11,
        TerminalOutcome::BlockedCauseUnknown => 12,
        TerminalOutcome::NativeFailure => 13,
        TerminalOutcome::InternalInvariant => 14,
        TerminalOutcome::ModifierSettleTimeout => 15,
    }
}

/// The shell's number for how the last session ended: 0 for none, one number
/// per terminal outcome, and for failures before input the number of the
/// outcome they share (cancelled, known restriction, modifier timeout) or 6.
pub open spec fn spec_completion_code(completion: Option<SessionCompletion>) -> i32 {
    match completion {
        None => 0,
        Some(SessionCompletion::Finished(o)) => outcome_code(o),
        Some(SessionCompletion::PreparationFailed(PreparationFailure::Cancelled)) => 2,
        Some(SessionCompletion::PreparationFailed(PreparationFailure::KnownSecurityRestriction)) => 5,
        Some(SessionCompletion::PreparationFailed(PreparationFailure::ModifierSettleTimeout)) => 15,
        Some(SessionCompletion::PreparationFailed(_)) => 6,
    }
}

pub fn completion_code(completion: Option<SessionCompletion>) -> (r: i32)
    ensures
        r == spec_completion_code(completion),
{
    match completion {
        None => 0,
        Some(SessionCompletion::Finished(o)) => match o {
            TerminalOutcome::Completed => 1,
            TerminalOutcome::Cancelled => 2,
            TerminalOutcome::TargetChanged => 3,
            TerminalOutcome::ClipboardChanged => 4,
            TerminalOutcome::KnownSecurityRestriction => 5,
            TerminalOutcome::ModifierConflict => 7,
            TerminalOutcome::TargetEvidenceUnavailable => 8,
            TerminalOutcome::TargetDisappeared => 9,
            TerminalOutcome::PartialInput => 10,
            TerminalOutcome::ProgressUnknown => 11,
            TerminalOutcome::BlockedCauseUnknown => 12,
            TerminalOutcome::NativeFailure => 13,
            TerminalOutcome::InternalInvariant => 14,
            TerminalOutcome::ModifierSettleTimeout => 15,
        },
        Some(SessionCompletion::PreparationFailed(f)) => match f {
            PreparationFailure::Cancelled => 2,
            PreparationFailure::KnownSecurityRestriction => 5,
            PreparationFailure::ModifierSettleTimeout => 15,
            _ => 6,
        },
    }
}

/// No two terminal outcomes share a number, and none is reported as "no
/// session" or as the generic preparation failure.
pub proof fn law_completion_codes_keep_outcomes_apart(a: TerminalOutcome, b: TerminalOutcome)
    ensures
        a != b ==> outcome_code(a) != outcome_code(b),
        outcome_code(a) != 0,
        outcome_code(a) != 6,
{
}

pub open spec fn spec_mode_code(mode: InjectionMode) -> i32 {
    match mode {
        InjectionMode::Keyboard => 0,
        InjectionMode::Clipboard => 1,
        InjectionMode::Auto => 2,
        InjectionMode::Code => 3,
    }
}

/// A saved mode's code reads back as the same mode.
pub proof fn law_mode_codes_round_trip(mode: InjectionMode)
    ensures
        mode_of_code(spec_mode_code(mode)) == Some(mode),
{
}

/// The numbers the shell reads, as its interface documents them: phases
/// Idle 0, Preparing 1, Injecting 2, Cancelling 3; backends Keyboard 0,
/// Clipboard 1, Code 2 and -1 for none; modes Keyboard 0, Clipboard 1,
/// Auto 2, Code 3 both ways; a reserved shortcut 2 and an unsupported one 3;
/// a completed session 1 and a cancelled one 2.
pub proof fn law_bridge_codes_are_documented()
    ensures
        spec_phase_code(SessionPhase::Idle) == 0,
        spec_phase_code(SessionPhase::Preparing) == 1,
        spec_phase_code(SessionPhase::Injecting) == 2,
        spec_phase_code(SessionPhase::Cancelling) == 3,
        spec_backend_code(Some(InjectionBackend::Keyboard)) == 0,
        spec_backend_code(Some(InjectionBackend::Clipboard)) == 1,
        spec_backend_code(Some(InjectionBackend::Code)) == 2,
        spec_backend_code(None) == -1,
        spec_mode_code(InjectionMode::Keyboard) == 0,
        spec_mode_code(InjectionMode::Clipboard) == 1,
        spec_mode_code(InjectionMode::Auto) == 2,
        spec_mode_code(InjectionMode::Code) == 3,
        mode_of_code(0) == Some(InjectionMode::Keyboard),
        mode_of_code(1) == Some(InjectionMode::Clipboard),
        mode_of_code(2) == Some(InjectionMode::Auto),
        mode_of_code(3) == Some(InjectionMode::Code),
        spec_hotkey_code(HotkeyValidationError::Reserved) == 2,
        spec_hotkey_code(HotkeyValidationError::Unsupported) == 3,
        spec_completion_code(None) == 0,
        spec_completion_code(Some(SessionCompletion::Finished(TerminalOutcome::Completed))) == 1,
        spec_completion_code(Some(SessionCompletion::Finished(TerminalOutcome::Cancelled))) == 2,
{
}

/// The snapshot the shell reads; a threshold beyond `u32` cannot be shown.
pub fn bridge_state(settings: ProductSettings, status: StatusSnapshot) -> (r: Result<CtBridgeState, i32>)
    ensures
        settings.auto_clipboard_threshold.spec_get() > u32::MAX ==> r == Err::<CtBridgeState, i32>(
            CT_NATIVE_FAILURE,
        ),
        settings.auto_clipboard_threshold.spec_get() <= u32::MAX ==> r == Ok::<CtBridgeState, i32>(
            CtBridgeState {
                enabled: if settings.enabled {
                    1
                } else {
                    0
                },
                notifications: if settings.notifications {
                    1
                } else {
                    0
                },
                start_at_login: if settings.start_at_login {
                    1
                } else {
                    0
                },
                mode: spec_mode_code(settings.mode),
                characters_per_second: settings.characters_per_second,
                jitter_percent: settings.jitter_percent,
                typo_probability_percent: settings.typo_probability_percent,
                auto_clipboard_threshold: settings.auto_clipboard_threshold.spec_get() as u32,
                generation: status.generation,
                phase: spec_phase_code(status.phase),
                backend: spec_backend_code(status.backend),
                completion: spec_completion_code(status.completion),
                batches_completed: status.batches_completed,
            },
        ),
{
    let threshold = settings.auto_clipboard_threshold.get();
    if threshold > 0xFFFF_FFFF {
        return Err(CT_NATIVE_FAILURE);
    }
    let mode: i32 = match settings.mode {
        InjectionMode::Keyboard => 0,
        InjectionMode::Clipboard => 1,
        InjectionMode::Auto => 2,
        InjectionMode::Code => 3,
    };
    Ok(
        CtBridgeState {
            enabled: if settings.enabled {
                1
            } else {
                0
            },
            notifications: if settings.notifications {
                1
            } else {
                0
            },
            start_at_login: if settings.start_at_login {
                1
            } else {
                0
            },
            mode,
            characters_per_second: settings.characters_per_second,
            jitter_percent: settings.jitter_percent,
            typo_probability_percent: settings.typo_probability_percent,
            auto_clipboard_threshold: threshold as u32,
            generation: status.generation,
            phase: phase_code(status.phase),
            backend: backend_code(status.backend),
            completion: completion_code(status.completion),
            batches_completed: status.batches_completed,
        },
    )
}

/// The answer to a trigger request.
pub fn trigger_code(shutting_down: bool, result: TriggerResult) -> (r: i32)
    ensures
        shutting_down ==> r == CT_SHUTTING_DOWN,
        !shutting_down ==> r == match result {
            TriggerResult::Started { .. } => CT_OK,
            TriggerResult::Busy => CT_BUSY,
            TriggerResult::ShuttingDown => CT_SHUTTING_DOWN,
            TriggerResult::Rejected(_) => CT_REJECTED,
            TriggerResult::StartFailed => CT_NATIVE_FAILURE,
        },
{
    if shutting_down {
        return CT_SHUTTING_DOWN;
    }
    match result {
        TriggerResult::Started { .. } => CT_OK,
        TriggerResult::Busy => CT_BUSY,
        TriggerResult::ShuttingDown => CT_SHUTTING_DOWN,
        TriggerResult::Rejected(_) => CT_REJECTED,
        TriggerResult::StartFailed => CT_NATIVE_FAILURE,
    }
}

pub fn cancel_code(result: CancelResult) -> (r: i32)
    ensures
        r == match result {
            CancelResult::Requested => CT_OK,
            CancelResult::Idle => CT_REJECTED,
        },
{
    match result {
        CancelResult::Requested => CT_OK,
        CancelResult::Idle => CT_REJECTED,
    }
}

pub fn shutdown_code(result: ShutdownResult) -> (r: i32)
    ensures
        r == match result {
            ShutdownResult::Complete => CT_OK,
            ShutdownResult::TimedOut => CT_NATIVE_FAILURE,
        },
{
    match result {
        ShutdownResult::Complete => CT_OK,
        ShutdownResult::TimedOut => CT_NATIVE_FAILURE,
    }
}

/// A value copied into the shell's buffer of `capacity` bytes: the bytes and
/// a terminating zero, when both fit.
pub fn terminated_copy(value: &[u8], capacity: usize) -> (r: Result<Vec<u8>, i32>)
    ensures
        value@.len() + 1 > capacity ==> r == Err::<Vec<u8>, i32>(CT_INVALID),
        value@.len() + 1 <= capacity ==> (r matches Ok(v) && v@ == value@.push(0)),
{
    let n = value.len();
    if n >= capacity {
        return Err(CT_INVALID);
    }
    let mut out: Vec<u8> = Vec::new();
    let mut i: usize = 0;
    while i < n
        invariant
            n == value@.len(),
            i <= n,
            out@ == value@.take(i as int),
        decreases n - i,
    {
        out.push(value[i]);
        i = i + 1;
        assert(out@ =~= value@.take(i as int));
    }
    out.push(0);
    assert(value@.take(n as int) =~= value@);
    Ok(out)
}

/// The canonical text of the preset's trigger or cancel shortcut, as the
/// shell stores it.
pub fn bridge_hotkey_text(hotkey: HotkeyPreset, trigger: bool) -> (r: Result<String, i32>)
    ensures
        ({
            let label = if trigger {
                hotkey.spec_trigger_label()
            } else {
                hotkey.spec_cancel_label()
            };
            match shortcut_from_text(label) {
                Ok(spec) => r is Ok && r->Ok_0@ == spec.canonical_text(),
                Err(_) => r == Err::<String, i32>(CT_NATIVE_FAILURE),
            }
        }),
{
    let label = if trigger {
        hotkey.trigger_label()
    } else {
        hotkey.cancel_label()
    };
    match parse_hotkey(label) {
        Ok(spec) => Ok(spec.canonical()),
        Err(_) => Err(CT_NATIVE_FAILURE),
    }
}

} // verus!
