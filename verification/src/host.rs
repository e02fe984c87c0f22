//! The desktop hosts' decisions: what a trigger or a finished session is
//! reported as, the command-line options, and the transaction that applies
//! new settings across the shortcut owner, start-at-login, the running
//! configuration and the settings file, undoing what was done when a later
//! step fails.
use vstd::prelude::*;

use crate::hotkey::{
    parse_hotkey, shortcut_from_text, HotkeyApplyResult, HotkeyAvailability, HotkeyPair,
};
use crate::macos::MacStartupStatus;
use crate::outcome::{PreparationFailure, TerminalOutcome};
use crate::product::{InjectionBackend, ProductConfig};
use crate::session::{SessionCompletion, TriggerResult};
use crate::settings::{HotkeyPreset, ProductSettings};
use crate::ui::SettingsUiPlatform;
use crate::windows_tray::TrayNotice;

verus! {

#[derive(Debug, Clone, Copy, PartialEq, Eq, Structural)]
pub enum HostError {
    SettingsPath,
    SettingsLoad,
    SettingsSave,
    InvalidConfiguration,
    CommandRegistration,
    CommandLoop,
    InputThreadStart,
    StatusThreadStart,
    TrayStart,
    SettingsUiStart,
    ProductHandlerStart,
    WorkerShutdownTimeout,
    CommandTeardown,
}

impl HostError {
    /// The category a fatal error is logged with.
    pub fn label(self) -> (r: &'static str)
        ensures
            r@ == match self {
                HostError::SettingsPath => "settings_path"@,
                HostError::SettingsLoad => "settings_load"@,
                HostError::SettingsSave => "settings_save"@,
                HostError::InvalidConfiguration => "invalid_configuration"@,
                HostError::CommandRegistration => "command_registration"@,
                HostError::CommandLoop => "command_loop"@,
                HostError::InputThreadStart => "input_thread_start"@,
                HostError::StatusThreadStart => "status_thread_start"@,
                HostError::TrayStart => "tray_start"@,
                HostError::SettingsUiStart => "settings_ui_start"@,
                HostError::ProductHandlerStart => "product_handler_start"@,
                HostError::WorkerShutdownTimeout => "worker_shutdown_timeout"@,
                HostError::CommandTeardown => "command_teardown"@,
            },
    {
        match self {
            HostError::SettingsPath => "settings_path",
            HostError::SettingsLoad => "settings_load",
            HostError::SettingsSave => "settings_save",
            HostError::InvalidConfiguration => "invalid_configuration",
            HostError::CommandRegistration => "command_registration",
            HostError::CommandLoop => "command_loop",
            HostError::InputThreadStart => "input_thread_start",
            HostError::StatusThreadStart => "status_thread_start",
            HostError::TrayStart => "tray_start",
            HostError::SettingsUiStart => "settings_ui_start",
            HostError::ProductHandlerStart => "product_handler_start",
            HostError::WorkerShutdownTimeout => "worker_shutdown_timeout",
            HostError::CommandTeardown => "command_teardown",
        }
    }
}

#[derive(Debug, Clone, Copy, PartialEq, Eq, Structural)]
pub enum MacHostError {
    SettingsPath,
    SettingsLoad,
    SettingsSave,
    InvalidConfiguration,
    HotkeyRegistration,
    StatusItem,
    SettingsUi,
    EventLoop,
    WorkerShutdownTimeout,
}

impl MacHostError {
    pub fn label(self) -> (r: &'static str)
        ensures
            r@ == match self {
                MacHostError::SettingsPath => "settings_path"@,
                MacHostError::SettingsLoad => "settings_load"@,
                MacHostError::SettingsSave => "settings_save"@,
                MacHostError::InvalidConfiguration => "invalid_configuration"@,
                MacHostError::HotkeyRegistration => "hotkey_registration"@,
                MacHostError::StatusItem => "status_item"@,
                MacHostError::SettingsUi => "settings_ui"@,
                MacHostError::EventLoop => "event_loop"@,
                MacHostError::WorkerShutdownTimeout => "worker_shutdown_timeout"@,
            },
    {
        match self {
            MacHostError::SettingsPath => "settings_path",
            MacHostError::SettingsLoad => "settings_load",
            MacHostError::SettingsSave => "settings_save",
            MacHostError::InvalidConfiguration => "invalid_configuration",
            MacHostError::HotkeyRegistration => "hotkey_registration",
            MacHostError::StatusItem => "status_item",
            MacHostError::SettingsUi => "settings_ui",
            MacHostError::EventLoop => "event_loop",
            MacHostError::WorkerShutdownTimeout => "worker_shutdown_timeout",
        }
    }
}

// ---------------------------------------------------------------------------
// Notices and messages.
// ---------------------------------------------------------------------------

/// The notice a trigger result shows: a busy session, clipboard text that
/// cannot be read, or a worker that did not start; nothing otherwise.
pub fn trigger_notice(result: TriggerResult) -> (r: Option<TrayNotice>)
    ensures
        r == match result {
            TriggerResult::Busy => Some(TrayNotice::Busy),
            TriggerResult::Rejected(PreparationFailure::ClipboardUnavailable) => Some(
                TrayNotice::ClipboardUnavailable,
            ),
            TriggerResult::Rejected(PreparationFailure::ClipboardEmpty) => Some(
                TrayNotice::ClipboardUnavailable,
            ),
            TriggerResult::Rejected(PreparationFailure::ClipboardNonText) => Some(
                TrayNotice::ClipboardUnavailable,
            ),
            TriggerResult::Rejected(PreparationFailure::ClipboardMalformed) => Some(
                TrayNotice::ClipboardUnavailable,
            ),
            TriggerResult::StartFailed => Some(TrayNotice::NativeFailure),
            _ => None,
        },
{
    match result {
        TriggerResult::Busy => Some(TrayNotice::Busy),
        TriggerResult::Rejected(PreparationFailure::ClipboardUnavailable) => Some(
            TrayNotice::ClipboardUnavailable,
        ),
        TriggerResult::Rejected(PreparationFailure::ClipboardEmpty) => Some(
            TrayNotice::ClipboardUnavailable,
        ),
        TriggerResult::Rejected(PreparationFailure::ClipboardNonText) => Some(
            TrayNotice::ClipboardUnavailable,
        ),
        TriggerResult::Rejected(PreparationFailure::ClipboardMalformed) => Some(
            TrayNotice::ClipboardUnavailable,
        ),
        TriggerResult::StartFailed => Some(TrayNotice::NativeFailure),
        _ => None,
    }
}

pub open spec fn completion_notice_of(
    backend: Option<InjectionBackend>,
    completion: SessionCompletion,
) -> Option<TrayNotice> {
    match completion {
        SessionCompletion::Finished(o) => match o {
            TerminalOutcome::Completed => match backend {
                Some(b) => Some(TrayNotice::Completed(b)),
                None => None,
            },
            TerminalOutcome::Cancelled => Some(TrayNotice::Cancelled),
            TerminalOutcome::ClipboardChanged => Some(TrayNotice::ClipboardChanged),
            TerminalOutcome::TargetChanged => Some(TrayNotice::TargetChanged),
            TerminalOutcome::TargetDisappeared => Some(TrayNotice::TargetChanged),
            TerminalOutcome::TargetEvidenceUnavailable => Some(TrayNotice::TargetChanged),
            TerminalOutcome::ModifierConflict => Some(TrayNotice::ModifierConflict),
            TerminalOutcome::ModifierSettleTimeout => Some(TrayNotice::ModifierConflict),
            TerminalOutcome::KnownSecurityRestriction => Some(TrayNotice::SecurityRestriction),
            _ => Some(TrayNotice::NativeFailure),
        },
        SessionCompletion::PreparationFailed(f) => match f {
            PreparationFailure::Cancelled => Some(TrayNotice::Cancelled),
            PreparationFailure::ModifierSettleTimeout => Some(TrayNotice::ModifierConflict),
            PreparationFailure::KnownSecurityRestriction => Some(TrayNotice::SecurityRestriction),
            PreparationFailure::ClipboardUnavailable => Some(TrayNotice::ClipboardUnavailable),
            PreparationFailure::ClipboardRevisionUnavailable => Some(
                TrayNotice::ClipboardUnavailable,
            ),
            PreparationFailure::ClipboardEmpty => Some(TrayNotice::ClipboardUnavailable),
            PreparationFailure::ClipboardNonText => Some(TrayNotice::ClipboardUnavailable),
            PreparationFailure::ClipboardMalformed => Some(TrayNotice::ClipboardUnavailable),
            _ => Some(TrayNotice::NativeFailure),
        },
    }
}

/// The notice a finished session shows.
pub fn completion_notice(backend: Option<InjectionBackend>, completion: SessionCompletion) -> (r:
    Option<TrayNotice>)
    ensures
        r == completion_notice_of(backend, completion),
{
    match completion {
        SessionCompletion::Finished(o) => match o {
            TerminalOutcome::Completed => match backend {
                Some(b) => Some(TrayNotice::Completed(b)),
                None => None,
            },
            TerminalOutcome::Cancelled => Some(TrayNotice::Cancelled),
            TerminalOutcome::ClipboardChanged => Some(TrayNotice::ClipboardChanged),
            TerminalOutcome::TargetChanged => Some(TrayNotice::TargetChanged),
            TerminalOutcome::TargetDisappeared => Some(TrayNotice::TargetChanged),
            TerminalOutcome::TargetEvidenceUnavailable => Some(TrayNotice::TargetChanged),
            TerminalOutcome::ModifierConflict => Some(TrayNotice::ModifierConflict),
            TerminalOutcome::ModifierSettleTimeout => Some(TrayNotice::ModifierConflict),
            TerminalOutcome::KnownSecurityRestriction => Some(TrayNotice::SecurityRestriction),
            _ => Some(TrayNotice::NativeFailure),
        },
        SessionCompletion::PreparationFailed(f) => match f {
            PreparationFailure::Cancelled => Some(TrayNotice::Cancelled),
            PreparationFailure::ModifierSettleTimeout => Some(TrayNotice::ModifierConflict),
            PreparationFailure::KnownSecurityRestriction => Some(TrayNotice::SecurityRestriction),
            PreparationFailure::ClipboardUnavailable => Some(TrayNotice::ClipboardUnavailable),
            PreparationFailure::ClipboardRevisionUnavailable => Some(
                TrayNotice::ClipboardUnavailable,
            ),
            PreparationFailure::ClipboardEmpty => Some(TrayNotice::ClipboardUnavailable),
            PreparationFailure::ClipboardNonText => Some(TrayNotice::ClipboardUnavailable),
            PreparationFailure::ClipboardMalformed => Some(TrayNotice::ClipboardUnavailable),
            _ => Some(TrayNotice::NativeFailure),
        },
    }
}

/// The Windows status line after probing a pair.
pub fn probe_status_message(availability: HotkeyAvailability) -> (r: &'static str)
    ensures
        r@ == match availability {
            HotkeyAvailability::Available => "The operating system accepted both temporary registrations."@,
            HotkeyAvailability::Conflict => "One or both shortcuts are already in use."@,
            HotkeyAvailability::Reserved => "One or both shortcuts are reserved."@,
            HotkeyAvailability::Unsupported => "One or both shortcuts are unsupported."@,
            HotkeyAvailability::Unknown => "The operating system could not fully verify this pair."@,
        },
{
    match availability {
        HotkeyAvailability::Available => "The operating system accepted both temporary registrations.",
        HotkeyAvailability::Conflict => "One or both shortcuts are already in use.",
        HotkeyAvailability::Reserved => "One or both shortcuts are reserved.",
        HotkeyAvailability::Unsupported => "One or both shortcuts are unsupported.",
        HotkeyAvailability::Unknown => "The operating system could not fully verify this pair.",
    }
}

/// The macOS status line after probing a pair.
pub fn availability_message(availability: HotkeyAvailability) -> (r: &'static str)
    ensures
        r@ == match availability {
            HotkeyAvailability::Available => "The operating system accepted both shortcuts. App-local conflicts cannot be fully verified."@,
            HotkeyAvailability::Conflict => "One or both shortcuts are already registered globally."@,
            HotkeyAvailability::Reserved => "One or both shortcuts are reserved by macOS."@,
            HotkeyAvailability::Unsupported => "One or both shortcuts are unsupported on macOS."@,
            HotkeyAvailability::Unknown => "Shortcut availability cannot be fully verified."@,
        },
{
    match availability {
        HotkeyAvailability::Available => "The operating system accepted both shortcuts. App-local conflicts cannot be fully verified.",
        HotkeyAvailability::Conflict => "One or both shortcuts are already registered globally.",
        HotkeyAvailability::Reserved => "One or both shortcuts are reserved by macOS.",
        HotkeyAvailability::Unsupported => "One or both shortcuts are unsupported on macOS.",
        HotkeyAvailability::Unknown => "Shortcut availability cannot be fully verified.",
    }
}

/// The macOS status line after a trigger.
pub fn trigger_message(result: TriggerResult) -> (r: &'static str)
    ensures
        r@ == match result {
            TriggerResult::Started { .. } => "Typing session started."@,
            TriggerResult::Busy => "Another typing session is already active."@,
            TriggerResult::ShuttingDown => "ClipType is shutting down."@,
            TriggerResult::StartFailed => "The typing worker could not be started."@,
            TriggerResult::Rejected(PreparationFailure::Disabled) => "ClipType is disabled."@,
            TriggerResult::Rejected(PreparationFailure::KnownSecurityRestriction) => "macOS blocked the destination or Accessibility permission is missing."@,
            TriggerResult::Rejected(_) => "The typing session could not be prepared safely."@,
        },
{
    match result {
        TriggerResult::Started { .. } => "Typing session started.",
        TriggerResult::Busy => "Another typing session is already active.",
        TriggerResult::ShuttingDown => "ClipType is shutting down.",
        TriggerResult::StartFailed => "The typing worker could not be started.",
        TriggerResult::Rejected(PreparationFailure::Disabled) => "ClipType is disabled.",
        TriggerResult::Rejected(PreparationFailure::KnownSecurityRestriction) => "macOS blocked the destination or Accessibility permission is missing.",
        TriggerResult::Rejected(_) => "The typing session could not be prepared safely.",
    }
}

/// The macOS status line for how the last session ended.
pub fn completion_message(completion: SessionCompletion) -> (r: &'static str)
    ensures
        r@ == match completion {
            SessionCompletion::Finished(TerminalOutcome::Completed) => "Typing completed."@,
            SessionCompletion::Finished(TerminalOutcome::Cancelled) => "Typing cancelled."@,
            SessionCompletion::PreparationFailed(PreparationFailure::Cancelled) => "Typing cancelled."@,
            SessionCompletion::Finished(TerminalOutcome::TargetChanged) => "Destination changed; remaining input was stopped."@,
            SessionCompletion::Finished(TerminalOutcome::TargetDisappeared) => "Destination changed; remaining input was stopped."@,
            SessionCompletion::Finished(TerminalOutcome::TargetEvidenceUnavailable) => "Destination changed; remaining input was stopped."@,
            SessionCompletion::Finished(TerminalOutcome::ClipboardChanged) => "Clipboard changed before paste; nothing further was sent."@,
            SessionCompletion::Finished(TerminalOutcome::ModifierConflict) => "Modifier keys prevented safe input."@,
            SessionCompletion::Finished(TerminalOutcome::ModifierSettleTimeout) => "Modifier keys prevented safe input."@,
            SessionCompletion::PreparationFailed(PreparationFailure::ModifierSettleTimeout) => "Modifier keys prevented safe input."@,
            SessionCompletion::Finished(TerminalOutcome::KnownSecurityRestriction) => "macOS denied the input operation. Check Accessibility permission."@,
            SessionCompletion::PreparationFailed(PreparationFailure::KnownSecurityRestriction) => "macOS denied the input operation. Check Accessibility permission."@,
            _ => "The input operation stopped safely."@,
        },
{
    match completion {
        SessionCompletion::Finished(TerminalOutcome::Completed) => "Typing completed.",
        SessionCompletion::Finished(TerminalOutcome::Cancelled) => "Typing cancelled.",
        SessionCompletion::PreparationFailed(PreparationFailure::Cancelled) => "Typing cancelled.",
        SessionCompletion::Finished(TerminalOutcome::TargetChanged) => "Destination changed; remaining input was stopped.",
        SessionCompletion::Finished(TerminalOutcome::TargetDisappeared) => "Destination changed; remaining input was stopped.",
        SessionCompletion::Finished(TerminalOutcome::TargetEvidenceUnavailable) => "Destination changed; remaining input was stopped.",
        SessionCompletion::Finished(TerminalOutcome::ClipboardChanged) => "Clipboard changed before paste; nothing further was sent.",
        SessionCompletion::Finished(TerminalOutcome::ModifierConflict) => "Modifier keys prevented safe input.",
        SessionCompletion::Finished(TerminalOutcome::ModifierSettleTimeout) => "Modifier keys prevented safe input.",
        SessionCompletion::PreparationFailed(PreparationFailure::ModifierSettleTimeout) => "Modifier keys prevented safe input.",
        SessionCompletion::Finished(TerminalOutcome::KnownSecurityRestriction) => "macOS denied the input operation. Check Accessibility permission.",
        SessionCompletion::PreparationFailed(PreparationFailure::KnownSecurityRestriction) => "macOS denied the input operation. Check Accessibility permission.",
        _ => "The input operation stopped safely.",
    }
}

/// Start at login counts as on when it is enabled or awaiting approval.
pub fn startup_enabled(status: MacStartupStatus) -> (r: bool)
    ensures
        r == (status == MacStartupStatus::Enabled || status == MacStartupStatus::RequiresApproval),
{
    match status {
        MacStartupStatus::Enabled => true,
        MacStartupStatus::RequiresApproval => true,
        _ => false,
    }
}

// ---------------------------------------------------------------------------
// Options.
// ---------------------------------------------------------------------------

#[derive(Debug, Clone, Copy, PartialEq, Eq, Structural)]
pub struct HostOptions {
    pub background: bool,
    pub headless: bool,
    pub show_settings: bool,
}

/// The options from the arguments after the program name: `--background`,
/// `--headless` and `--settings`; headless also when the environment asks.
pub fn host_options(arguments: &Vec<String>, headless_environment: bool) -> (r: HostOptions)
    ensures
        r.background == exists|i: int| 0 <= i < arguments@.len() && arguments@[i]@ == "--background"@,
        r.headless == (headless_environment || exists|i: int|
            0 <= i < arguments@.len() && arguments@[i]@ == "--headless"@),
        r.show_settings == exists|i: int| 0 <= i < arguments@.len() && arguments@[i]@ == "--settings"@,
{
    let mut options = HostOptions { background: false, headless: headless_environment, show_settings: false };
    let n = arguments.len();
    let mut i: usize = 0;
    while i < n
        invariant
            n == arguments@.len(),
            i <= n,
            options.background == exists|k: int| 0 <= k < i && arguments@[k]@ == "--background"@,
            options.headless == (headless_environment || exists|k: int|
                0 <= k < i && arguments@[k]@ == "--headless"@),
            options.show_settings == exists|k: int| 0 <= k < i && arguments@[k]@ == "--settings"@,
        decreases n - i,
    {
        let argument = arguments[i].as_str();
        if crate::textual::str_equal(argument, "--background") {
            options.background = true;
        } else if crate::textual::str_equal(argument, "--headless") {
            options.headless = true;
        } else if crate::textual::str_equal(argument, "--settings") {
            options.show_settings = true;
        }
        proof {
            reveal_strlit("--background");
            reveal_strlit("--headless");
            reveal_strlit("--settings");
            assert("--background"@[2] != "--headless"@[2]);
            assert("--background"@[2] != "--settings"@[2]);
            assert("--headless"@[2] != "--settings"@[2]);
            assert("--background"@ != "--headless"@);
            assert("--background"@ != "--settings"@);
            assert("--headless"@ != "--settings"@);
        }
        i = i + 1;
    }
    options
}

// ---------------------------------------------------------------------------
// Applying settings.
// ---------------------------------------------------------------------------

/// The shortcut pair a preset stands for, read from its labels.
pub fn preset_pair(preset: HotkeyPreset) -> (r: Option<HotkeyPair>)
    ensures
        r == match (
            shortcut_from_text(preset.spec_trigger_label()),
            shortcut_from_text(preset.spec_cancel_label()),
        ) {
            (Ok(t), Ok(c)) => Some(HotkeyPair { trigger: t, cancel: c }),
            _ => None,
        },
{
    let t = match parse_hotkey(preset.trigger_label()) {
        Ok(t) => t,
        Err(_) => return None,
    };
    let c = match parse_hotkey(preset.cancel_label()) {
        Ok(c) => c,
        Err(_) => return None,
    };
    Some(HotkeyPair { trigger: t, cancel: c })
}

/// One outside step of applying settings.
#[derive(Debug, Clone, Copy, PartialEq, Eq)]
pub enum ApplyCall {
    /// Replace the registered shortcut pair.
    ReplaceHotkeys(HotkeyPair),
    /// Turn start at login on or off.
    SetStartup(bool),
    /// Give new sessions this configuration.
    UpdateConfig(ProductConfig),
    /// Write the settings file.
    Save(ProductSettings),
}

/// How the last step went.
#[derive(Debug, Clone, Copy, PartialEq, Eq, Structural)]
pub enum ApplyReply {
    /// The shortcut owner answered a replacement.
    Hotkeys(HotkeyApplyResult),
    /// The shortcut owner could not be reached.
    HotkeysUnreachable,
    /// Any other step succeeded or failed.
    Done(bool),
}

/// Why applying stopped.
#[derive(Debug, Clone, Copy, PartialEq, Eq, Structural)]
pub enum ApplyProblem {
    InvalidSettings,
    InvalidPair,
    InvalidRuntime,
    InvalidCurrentRuntime,
    HotkeysRefused,
    HotkeyOwnerUnreachable,
    StartupFailed,
    ConfigUpdateFailed,
    SaveFailed,
}

impl ApplyProblem {
    pub open spec fn text(self, platform: SettingsUiPlatform) -> Seq<char> {
        match (self, platform) {
            (ApplyProblem::InvalidSettings, SettingsUiPlatform::Windows) => "One or more settings are invalid."@,
            (ApplyProblem::InvalidSettings, SettingsUiPlatform::MacOS) => "The proposed settings are invalid."@,
            (ApplyProblem::InvalidPair, SettingsUiPlatform::Windows) => "The shortcut pair is reserved or unsupported."@,
            (ApplyProblem::InvalidPair, SettingsUiPlatform::MacOS) => "The shortcut pair is reserved or unsupported on macOS."@,
            (ApplyProblem::InvalidRuntime, _) => "The runtime settings are invalid."@,
            (ApplyProblem::InvalidCurrentRuntime, _) => "The current runtime settings are invalid."@,
            (ApplyProblem::HotkeysRefused, SettingsUiPlatform::Windows) => "The new shortcuts could not be applied; the old pair remains active."@,
            (ApplyProblem::HotkeysRefused, SettingsUiPlatform::MacOS) => "The new shortcuts could not be registered; the old pair remains active."@,
            (ApplyProblem::HotkeyOwnerUnreachable, _) => "The shortcut owner did not accept the update."@,
            (ApplyProblem::StartupFailed, SettingsUiPlatform::Windows) => "Start at login could not be changed."@,
            (ApplyProblem::StartupFailed, SettingsUiPlatform::MacOS) => "Start at Login could not be changed."@,
            (ApplyProblem::ConfigUpdateFailed, _) => "The running configuration could not be updated."@,
            (ApplyProblem::SaveFailed, _) => "Settings could not be saved; the previous configuration was restored."@,
        }
    }

    /// The status line the settings window shows for the problem.
    pub fn message(self, platform: SettingsUiPlatform) -> (r: &'static str)
        ensures
            r@ == self.text(platform),
    {
        match (self, platform) {
            (ApplyProblem::InvalidSettings, SettingsUiPlatform::Windows) => "One or more settings are invalid.",
            (ApplyProblem::InvalidSettings, SettingsUiPlatform::MacOS) => "The proposed settings are invalid.",
            (ApplyProblem::InvalidPair, SettingsUiPlatform::Windows) => "The shortcut pair is reserved or unsupported.",
            (ApplyProblem::InvalidPair, SettingsUiPlatform::MacOS) => "The shortcut pair is reserved or unsupported on macOS.",
            (ApplyProblem::InvalidRuntime, _) => "The runtime settings are invalid.",
            (ApplyProblem::InvalidCurrentRuntime, _) => "The current runtime settings are invalid.",
            (ApplyProblem::HotkeysRefused, SettingsUiPlatform::Windows) => "The new shortcuts could not be applied; the old pair remains active.",
            (ApplyProblem::HotkeysRefused, SettingsUiPlatform::MacOS) => "The new shortcuts could not be registered; the old pair remains active.",
            (ApplyProblem::HotkeyOwnerUnreachable, _) => "The shortcut owner did not accept the update.",
            (ApplyProblem::StartupFailed, SettingsUiPlatform::Windows) => "Start at login could not be changed.",
            (ApplyProblem::StartupFailed, SettingsUiPlatform::MacOS) => "Start at Login could not be changed.",
            (ApplyProblem::ConfigUpdateFailed, _) => "The running configuration could not be updated.",
            (ApplyProblem::SaveFailed, _) => "Settings could not be saved; the previous configuration was restored.",
        }
    }
}

/// Why applying stopped, and the availability to show for the shortcuts.
#[derive(Debug, Clone, Copy, PartialEq, Eq, Structural)]
pub struct ApplyFailure {
    pub problem: ApplyProblem,
    pub probe: Option<HotkeyAvailability>,
}

#[derive(Debug, Clone, Copy, PartialEq, Eq, Structural)]
pub enum ApplyStage {
    Hotkeys,
    Startup,
    Config,
    Save,
    Reverting,
}

/// Applying settings in progress: what was and what is proposed, the steps
/// made so far, and, once a step failed, why.
#[derive(Debug, Clone, Copy, PartialEq, Eq)]
pub struct SettingsApply {
    pub current: ProductSettings,
    pub proposed: ProductSettings,
    pub current_pair: HotkeyPair,
    pub proposed_pair: HotkeyPair,
    pub new_runtime: ProductConfig,
    pub old_runtime: ProductConfig,
    pub stage: ApplyStage,
    pub hotkeys_done: bool,
    pub startup_done: bool,
    pub config_done: bool,
    pub failure: ApplyFailure,
}

#[derive(Debug, Clone, Copy)]
pub enum ApplyStep {
    Call(SettingsApply, ApplyCall),
    Applied(ProductSettings),
    Failed(ApplyFailure),
}

/// Undo the latest change still made, or stop with the failure once none is
/// left.
pub open spec fn revert_next(a: SettingsApply) -> ApplyStep {
    if a.config_done {
        ApplyStep::Call(
            SettingsApply { config_done: false, stage: ApplyStage::Reverting, ..a },
            ApplyCall::UpdateConfig(a.old_runtime),
        )
    } else if a.startup_done {
        ApplyStep::Call(
            SettingsApply { startup_done: false, stage: ApplyStage::Reverting, ..a },
            ApplyCall::SetStartup(a.current.start_at_login),
        )
    } else if a.hotkeys_done {
        ApplyStep::Call(
            SettingsApply { hotkeys_done: false, stage: ApplyStage::Reverting, ..a },
            ApplyCall::ReplaceHotkeys(a.current_pair),
        )
    } else {
        ApplyStep::Failed(a.failure)
    }
}

fn revert_next_exec(a: SettingsApply) -> (r: ApplyStep)
    ensures
        r == revert_next(a),
{
    if a.config_done {
        ApplyStep::Call(
            SettingsApply { config_done: false, stage: ApplyStage::Reverting, ..a },
            ApplyCall::UpdateConfig(a.old_runtime),
        )
    } else if a.startup_done {
        ApplyStep::Call(
            SettingsApply { startup_done: false, stage: ApplyStage::Reverting, ..a },
            ApplyCall::SetStartup(a.current.start_at_login),
        )
    } else if a.hotkeys_done {
        ApplyStep::Call(
            SettingsApply { hotkeys_done: false, stage: ApplyStage::Reverting, ..a },
            ApplyCall::ReplaceHotkeys(a.current_pair),
        )
    } else {
        ApplyStep::Failed(a.failure)
    }
}

pub open spec fn failure_of(problem: ApplyProblem) -> ApplyFailure {
    ApplyFailure { problem, probe: None }
}

pub open spec fn to_config(a: SettingsApply) -> ApplyStep {
    ApplyStep::Call(
        SettingsApply { stage: ApplyStage::Config, ..a },
        ApplyCall::UpdateConfig(a.new_runtime),
    )
}

pub open spec fn to_startup(a: SettingsApply) -> ApplyStep {
    if a.proposed.start_at_login != a.current.start_at_login {
        ApplyStep::Call(
            SettingsApply { stage: ApplyStage::Startup, ..a },
            ApplyCall::SetStartup(a.proposed.start_at_login),
        )
    } else {
        to_config(a)
    }
}

fn to_startup_exec(a: SettingsApply) -> (r: ApplyStep)
    ensures
        r == to_startup(a),
{
    if a.proposed.start_at_login != a.current.start_at_login {
        ApplyStep::Call(
            SettingsApply { stage: ApplyStage::Startup, ..a },
            ApplyCall::SetStartup(a.proposed.start_at_login),
        )
    } else {
        ApplyStep::Call(
            SettingsApply { stage: ApplyStage::Config, ..a },
            ApplyCall::UpdateConfig(a.new_runtime),
        )
    }
}

/// Why a proposal is refused before any step: invalid settings, a pair the
/// platform refuses, or a configuration that cannot be derived.
pub open spec fn apply_refusal(
    current: ProductSettings,
    proposed: ProductSettings,
    proposed_pair: HotkeyPair,
    platform: SettingsUiPlatform,
) -> Option<ApplyFailure> {
    if proposed.violation() is Some {
        Some(failure_of(ApplyProblem::InvalidSettings))
    } else if proposed_pair.platform_violation(platform.spec_hotkey_platform()) is Some {
        Some(failure_of(ApplyProblem::InvalidPair))
    } else if proposed.runtime_violation() is Some {
        Some(failure_of(ApplyProblem::InvalidRuntime))
    } else if current.runtime_violation() is Some {
        Some(failure_of(ApplyProblem::InvalidCurrentRuntime))
    } else {
        None
    }
}

/// The first step once both configurations are derived: a changed pair is
/// replaced first, a changed start-at-login setting second, the running
/// configuration third and the file last.
pub open spec fn apply_started(
    current: ProductSettings,
    proposed: ProductSettings,
    current_pair: HotkeyPair,
    proposed_pair: HotkeyPair,
    new_runtime: ProductConfig,
    old_runtime: ProductConfig,
) -> ApplyStep {
    let a = SettingsApply {
        current,
        proposed,
        current_pair,
        proposed_pair,
        new_runtime,
        old_runtime,
        stage: ApplyStage::Hotkeys,
        hotkeys_done: false,
        startup_done: false,
        config_done: false,
        failure: failure_of(ApplyProblem::SaveFailed),
    };
    if proposed_pair != current_pair {
        ApplyStep::Call(a, ApplyCall::ReplaceHotkeys(proposed_pair))
    } else {
        to_startup(a)
    }
}

/// The step after a reply: success moves on; a refused or unreachable
/// shortcut owner stops at once, since nothing was changed yet; any later
/// failure first undoes what was made, newest first.
pub open spec fn apply_resume(a: SettingsApply, reply: ApplyReply) -> ApplyStep {
    match a.stage {
        ApplyStage::Hotkeys => match reply {
            ApplyReply::Hotkeys(HotkeyApplyResult::Applied) => to_startup(
                SettingsApply { hotkeys_done: true, ..a },
            ),
            ApplyReply::Hotkeys(HotkeyApplyResult::Rejected(v)) => ApplyStep::Failed(
                ApplyFailure { problem: ApplyProblem::HotkeysRefused, probe: Some(v) },
            ),
            ApplyReply::Hotkeys(HotkeyApplyResult::RolledBack(v)) => ApplyStep::Failed(
                ApplyFailure { problem: ApplyProblem::HotkeysRefused, probe: Some(v) },
            ),
            _ => ApplyStep::Failed(
                ApplyFailure {
                    problem: ApplyProblem::HotkeyOwnerUnreachable,
                    probe: Some(HotkeyAvailability::Unknown),
                },
            ),
        },
        ApplyStage::Startup => if reply == ApplyReply::Done(true) {
            to_config(SettingsApply { startup_done: true, ..a })
        } else {
            revert_next(SettingsApply { failure: failure_of(ApplyProblem::StartupFailed), ..a })
        },
        ApplyStage::Config => if reply == ApplyReply::Done(true) {
            ApplyStep::Call(
                SettingsApply { config_done: true, stage: ApplyStage::Save, ..a },
                ApplyCall::Save(a.proposed),
            )
        } else {
            revert_next(SettingsApply { failure: failure_of(ApplyProblem::ConfigUpdateFailed), ..a })
        },
        ApplyStage::Save => if reply == ApplyReply::Done(true) {
            ApplyStep::Applied(a.proposed)
        } else {
            revert_next(SettingsApply { failure: failure_of(ApplyProblem::SaveFailed), ..a })
        },
        ApplyStage::Reverting => revert_next(a),
    }
}

/// Starts applying `proposed` over `current`, whose shortcut pairs are given.
pub fn begin_apply(
    current: ProductSettings,
    proposed: ProductSettings,
    current_pair: HotkeyPair,
    proposed_pair: HotkeyPair,
    platform: SettingsUiPlatform,
) -> (r: ApplyStep)
    requires
        proposed.violation() is None ==> current.characters_per_second > 0,
    ensures
        apply_refusal(current, proposed, proposed_pair, platform) matches Some(f) ==> r
            == ApplyStep::Failed(f),
        apply_refusal(current, proposed, proposed_pair, platform) is None ==> (r matches ApplyStep::Call(
            a,
            _,
        ) && proposed.describes_runtime(a.new_runtime) && current.describes_runtime(a.old_runtime)
            && r == apply_started(
            current,
            proposed,
            current_pair,
            proposed_pair,
            a.new_runtime,
            a.old_runtime,
        )),
{
    let proposed = match proposed.validate() {
        Ok(p) => p,
        Err(_) => return ApplyStep::Failed(ApplyFailure { problem: ApplyProblem::InvalidSettings, probe: None }),
    };
    match proposed_pair.validate_for(platform.hotkey_platform()) {
        Ok(_) => {},
        Err(_) => return ApplyStep::Failed(ApplyFailure { problem: ApplyProblem::InvalidPair, probe: None }),
    }
    let new_runtime = match proposed.runtime_config() {
        Ok(c) => c,
        Err(_) => return ApplyStep::Failed(ApplyFailure { problem: ApplyProblem::InvalidRuntime, probe: None }),
    };
    let old_runtime = match current.runtime_config() {
        Ok(c) => c,
        Err(_) => return ApplyStep::Failed(
            ApplyFailure { problem: ApplyProblem::InvalidCurrentRuntime, probe: None },
        ),
    };
    let a = SettingsApply {
        current,
        proposed,
        current_pair,
        proposed_pair,
        new_runtime,
        old_runtime,
        stage: ApplyStage::Hotkeys,
        hotkeys_done: false,
        startup_done: false,
        config_done: false,
        failure: ApplyFailure { problem: ApplyProblem::SaveFailed, probe: None },
    };
    if proposed_pair != current_pair {
        ApplyStep::Call(a, ApplyCall::ReplaceHotkeys(proposed_pair))
    } else {
        to_startup_exec(a)
    }
}

impl SettingsApply {
    /// Continues with the result of the step it asked for.
    pub fn resume(self, reply: ApplyReply) -> (r: ApplyStep)
        ensures
            r == apply_resume(self, reply),
    {
        let a = self;
        match a.stage {
            ApplyStage::Hotkeys => match reply {
                ApplyReply::Hotkeys(HotkeyApplyResult::Applied) => to_startup_exec(
                    SettingsApply { hotkeys_done: true, ..a },
                ),
                ApplyReply::Hotkeys(HotkeyApplyResult::Rejected(v)) => ApplyStep::Failed(
                    ApplyFailure { problem: ApplyProblem::HotkeysRefused, probe: Some(v) },
                ),
                ApplyReply::Hotkeys(HotkeyApplyResult::RolledBack(v)) => ApplyStep::Failed(
                    ApplyFailure { problem: ApplyProblem::HotkeysRefused, probe: Some(v) },
                ),
                _ => ApplyStep::Failed(
                    ApplyFailure {
                        problem: ApplyProblem::HotkeyOwnerUnreachable,
                        probe: Some(HotkeyAvailability::Unknown),
                    },
                ),
            },
            ApplyStage::Startup => if reply == ApplyReply::Done(true) {
                ApplyStep::Call(
                    SettingsApply { startup_done: true, stage: ApplyStage::Config, ..a },
                    ApplyCall::UpdateConfig(a.new_runtime),
                )
            } else {
                revert_next_exec(
                    SettingsApply {
                        failure: ApplyFailure { problem: ApplyProblem::StartupFailed, probe: None },
                        ..a
                    },
                )
            },
            ApplyStage::Config => if reply == ApplyReply::Done(true) {
                ApplyStep::Call(
                    SettingsApply { config_done: true, stage: ApplyStage::Save, ..a },
                    ApplyCall::Save(a.proposed),
                )
            } else {
                revert_next_exec(
                    SettingsApply {
                        failure: ApplyFailure { problem: ApplyProblem::ConfigUpdateFailed, probe: None },
                        ..a
                    },
                )
            },
            ApplyStage::Save => if reply == ApplyReply::Done(true) {
                ApplyStep::Applied(a.proposed)
            } else {
                revert_next_exec(
                    SettingsApply {
                        failure: ApplyFailure { problem: ApplyProblem::SaveFailed, probe: None },
                        ..a
                    },
                )
            },
            ApplyStage::Reverting => revert_next_exec(a),
        }
    }
}

/// What holds of a transaction at each stage: nothing is made before the
/// shortcut step; a changed pair is made before start at login, and a
/// changed start-at-login setting before the running configuration; the
/// configuration is made before the file is written.
pub open spec fn apply_wf(a: SettingsApply) -> bool {
    let pair_changed = a.proposed_pair != a.current_pair;
    let startup_changed = a.proposed.start_at_login != a.current.start_at_login;
    match a.stage {
        ApplyStage::Hotkeys => !a.hotkeys_done && !a.startup_done && !a.config_done,
        ApplyStage::Startup => !a.startup_done && !a.config_done && (pair_changed ==> a.hotkeys_done),
        ApplyStage::Config => !a.config_done && (pair_changed ==> a.hotkeys_done) && (startup_changed
            ==> a.startup_done),
        ApplyStage::Save => a.config_done && (pair_changed ==> a.hotkeys_done) && (startup_changed
            ==> a.startup_done),
        ApplyStage::Reverting => true,
    }
}

/// Applying settings is all or nothing: a failed step is followed by undoing
/// every change made before it, newest first (the running configuration,
/// then start at login, then the shortcut pair), and the failure is reported
/// only once nothing made is left; success is reported only after the file
/// is written, with every needed change made.
pub proof fn law_failed_apply_undoes_every_change(a: SettingsApply, reply: ApplyReply)
    requires
        apply_wf(a),
    ensures
        match apply_resume(a, reply) {
            ApplyStep::Failed(_) => !a.config_done && !a.startup_done && !a.hotkeys_done,
            ApplyStep::Applied(s) => s == a.proposed && a.config_done && (a.proposed_pair
                != a.current_pair ==> a.hotkeys_done) && (a.proposed.start_at_login
                != a.current.start_at_login ==> a.startup_done),
            ApplyStep::Call(b, call) => apply_wf(b) && b.current == a.current && b.proposed
                == a.proposed && b.current_pair == a.current_pair && b.proposed_pair
                == a.proposed_pair && (b.stage == ApplyStage::Reverting ==> match call {
                ApplyCall::UpdateConfig(c) => a.config_done && !b.config_done && c == a.old_runtime,
                ApplyCall::SetStartup(v) => !a.config_done && a.startup_done && !b.startup_done && v
                    == a.current.start_at_login,
                ApplyCall::ReplaceHotkeys(p) => !a.config_done && !a.startup_done && a.hotkeys_done
                    && !b.hotkeys_done && p == a.current_pair,
                ApplyCall::Save(_) => false,
            }),
        },
{
}

/// The first step of applying settings starts a well-formed transaction.
pub proof fn law_apply_starts_well_formed(
    current: ProductSettings,
    proposed: ProductSettings,
    current_pair: HotkeyPair,
    proposed_pair: HotkeyPair,
    new_runtime: ProductConfig,
    old_runtime: ProductConfig,
)
    ensures
        apply_started(current, proposed, current_pair, proposed_pair, new_runtime, old_runtime) matches ApplyStep::Call(
            a,
            _,
        ) && apply_wf(a),
{
}

} // verus!
