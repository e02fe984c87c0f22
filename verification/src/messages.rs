//! The human-readable text of each error and of the flow's states and events.
//! None of it holds clipboard or target content.
use vstd::prelude::*;

use crate::config::{ConfigError, ConfigField};
use crate::limits::{BoundError, BoundKind};
use crate::normalization::NormalizationError;
use crate::outcome::TerminalOutcome;
use crate::plan::{CapabilityRequirement, PlanError};
use crate::product::{ProductConfigError, ProductPlanError};
use crate::settings::SettingsValidationError;
use crate::settings_file::SettingsError;
use crate::state::{FlowEvent, FlowState, PreparationStage, TransitionError};
use crate::textual::{decimal, push_decimal, push_str};

verus! {

pub open spec fn bound_kind_name(k: BoundKind) -> Seq<char> {
    match k {
        BoundKind::NativeClipboardBytes => "NativeClipboardBytes"@,
        BoundKind::SemanticElements => "SemanticElements"@,
        BoundKind::DispatchElements => "DispatchElements"@,
        BoundKind::RetryAttempts => "RetryAttempts"@,
        BoundKind::NativeEvents => "NativeEvents"@,
    }
}

fn bound_kind_str(k: BoundKind) -> (r: &'static str)
    ensures
        r@ == bound_kind_name(k),
{
    match k {
        BoundKind::NativeClipboardBytes => "NativeClipboardBytes",
        BoundKind::SemanticElements => "SemanticElements",
        BoundKind::DispatchElements => "DispatchElements",
        BoundKind::RetryAttempts => "RetryAttempts",
        BoundKind::NativeEvents => "NativeEvents",
    }
}

impl BoundError {
    pub open spec fn message_text(self) -> Seq<char> {
        match self {
            BoundError::Zero(k) => bound_kind_name(k) + " must be non-zero"@,
            BoundError::ExceedsPlatformU32 { kind, value } => bound_kind_name(kind) + " value "@
                + decimal(value as nat) + " exceeds u32"@,
        }
    }

    pub fn message(self) -> (r: String)
        ensures
            r@ == self.message_text(),
    {
        let mut out = String::new();
        match self {
            BoundError::Zero(k) => {
                push_str(&mut out, bound_kind_str(k));
                push_str(&mut out, " must be non-zero");
            },
            BoundError::ExceedsPlatformU32 { kind, value } => {
                push_str(&mut out, bound_kind_str(kind));
                push_str(&mut out, " value ");
                push_decimal(&mut out, value as u64);
                push_str(&mut out, " exceeds u32");
            },
        }
        out
    }
}

pub open spec fn config_field_name(f: ConfigField) -> Seq<char> {
    match f {
        ConfigField::DispatchBatchLimit => "DispatchBatchLimit"@,
        ConfigField::ModifierSettleTimeout => "ModifierSettleTimeout"@,
        ConfigField::ModifierPollInterval => "ModifierPollInterval"@,
        ConfigField::ClipboardRetryWindow => "ClipboardRetryWindow"@,
        ConfigField::WorkerShutdownGrace => "WorkerShutdownGrace"@,
    }
}

fn config_field_str(f: ConfigField) -> (r: &'static str)
    ensures
        r@ == config_field_name(f),
{
    match f {
        ConfigField::DispatchBatchLimit => "DispatchBatchLimit",
        ConfigField::ModifierSettleTimeout => "ModifierSettleTimeout",
        ConfigField::ModifierPollInterval => "ModifierPollInterval",
        ConfigField::ClipboardRetryWindow => "ClipboardRetryWindow",
        ConfigField::WorkerShutdownGrace => "WorkerShutdownGrace",
    }
}

impl ConfigError {
    pub open spec fn message_text(self) -> Seq<char> {
        match self {
            ConfigError::ZeroDuration(f) => config_field_name(f) + " must be non-zero"@,
            ConfigError::BatchExceedsPayload => "dispatch batch limit exceeds total payload limit"@,
            ConfigError::ModifierPollExceedsSettle => "modifier poll interval exceeds settle timeout"@,
        }
    }

    pub fn message(self) -> (r: String)
        ensures
            r@ == self.message_text(),
    {
        let mut out = String::new();
        match self {
            ConfigError::ZeroDuration(f) => {
                push_str(&mut out, config_field_str(f));
                push_str(&mut out, " must be non-zero");
            },
            ConfigError::BatchExceedsPayload => push_str(
                &mut out,
                "dispatch batch limit exceeds total payload limit",
            ),
            ConfigError::ModifierPollExceedsSettle => push_str(
                &mut out,
                "modifier poll interval exceeds settle timeout",
            ),
        }
        out
    }
}

impl NormalizationError {
    pub open spec fn message_text(self) -> Seq<char> {
        match self {
            NormalizationError::Empty => "clipboard text is empty"@,
            NormalizationError::UnsupportedControl { scalar_index } => "unsupported control at scalar index "@
                + decimal(scalar_index as nat),
            NormalizationError::TabRejected { scalar_index } => "tab rejected at scalar index "@
                + decimal(scalar_index as nat),
            NormalizationError::PayloadTooLarge { limit } => "semantic payload exceeds limit "@
                + decimal(limit.spec_get() as nat),
        }
    }

    pub fn message(self) -> (r: String)
        ensures
            r@ == self.message_text(),
    {
        let mut out = String::new();
        match self {
            NormalizationError::Empty => push_str(&mut out, "clipboard text is empty"),
            NormalizationError::UnsupportedControl { scalar_index } => {
                push_str(&mut out, "unsupported control at scalar index ");
                push_decimal(&mut out, scalar_index as u64);
            },
            NormalizationError::TabRejected { scalar_index } => {
                push_str(&mut out, "tab rejected at scalar index ");
                push_decimal(&mut out, scalar_index as u64);
            },
            NormalizationError::PayloadTooLarge { limit } => {
                push_str(&mut out, "semantic payload exceeds limit ");
                push_decimal(&mut out, limit.get() as u64);
            },
        }
        out
    }
}

pub open spec fn requirement_name(r: CapabilityRequirement) -> Seq<char> {
    match r {
        CapabilityRequirement::UnicodeText => "UnicodeText"@,
        CapabilityRequirement::LineBreak => "LineBreak"@,
        CapabilityRequirement::Tab => "Tab"@,
        CapabilityRequirement::CursorRight => "CursorRight"@,
        CapabilityRequirement::ModifierObservation => "ModifierObservation"@,
    }
}

fn requirement_str(r: CapabilityRequirement) -> (s: &'static str)
    ensures
        s@ == requirement_name(r),
{
    match r {
        CapabilityRequirement::UnicodeText => "UnicodeText",
        CapabilityRequirement::LineBreak => "LineBreak",
        CapabilityRequirement::Tab => "Tab",
        CapabilityRequirement::CursorRight => "CursorRight",
        CapabilityRequirement::ModifierObservation => "ModifierObservation",
    }
}

impl PlanError {
    pub open spec fn message_text(self) -> Seq<char> {
        match self {
            PlanError::InvalidConfiguration(e) => "invalid P1 configuration: "@ + e.message_text(),
            PlanError::Normalization(e) => "text normalization failed: "@ + e.message_text(),
            PlanError::CapabilityUnavailable(r) => "required capability unavailable: "@
                + requirement_name(r),
            PlanError::CapabilityDegraded(r) => "degraded capability rejected: "@ + requirement_name(r),
        }
    }

    pub fn message(self) -> (r: String)
        ensures
            r@ == self.message_text(),
    {
        let mut out = String::new();
        match self {
            PlanError::InvalidConfiguration(e) => {
                push_str(&mut out, "invalid P1 configuration: ");
                let inner = e.message();
                push_str(&mut out, inner.as_str());
            },
            PlanError::Normalization(e) => {
                push_str(&mut out, "text normalization failed: ");
                let inner = e.message();
                push_str(&mut out, inner.as_str());
            },
            PlanError::CapabilityUnavailable(r) => {
                push_str(&mut out, "required capability unavailable: ");
                push_str(&mut out, requirement_str(r));
            },
            PlanError::CapabilityDegraded(r) => {
                push_str(&mut out, "degraded capability rejected: ");
                push_str(&mut out, requirement_str(r));
            },
        }
        out
    }
}

impl ProductConfigError {
    pub open spec fn message_text(self) -> Seq<char> {
        match self {
            ProductConfigError::ZeroAutoClipboardThreshold => "auto clipboard threshold must be non-zero"@,
            ProductConfigError::JitterOutOfRange => "jitter percent is out of range"@,
            ProductConfigError::TypoProbabilityOutOfRange => "typo probability percent is out of range"@,
            ProductConfigError::InvalidSafety(e) => "invalid safety configuration: "@ + e.message_text(),
        }
    }

    pub fn message(self) -> (r: String)
        ensures
            r@ == self.message_text(),
    {
        let mut out = String::new();
        match self {
            ProductConfigError::ZeroAutoClipboardThreshold => push_str(
                &mut out,
                "auto clipboard threshold must be non-zero",
            ),
            ProductConfigError::JitterOutOfRange => push_str(&mut out, "jitter percent is out of range"),
            ProductConfigError::TypoProbabilityOutOfRange => push_str(
                &mut out,
                "typo probability percent is out of range",
            ),
            ProductConfigError::InvalidSafety(e) => {
                push_str(&mut out, "invalid safety configuration: ");
                let inner = e.message();
                push_str(&mut out, inner.as_str());
            },
        }
        out
    }
}

impl ProductPlanError {
    pub open spec fn message_text(self) -> Seq<char> {
        match self {
            ProductPlanError::Disabled => "ClipType is disabled"@,
            ProductPlanError::InvalidConfiguration(e) => "invalid configuration: "@ + e.message_text(),
            ProductPlanError::Empty => "clipboard text is empty"@,
            ProductPlanError::PayloadTooLarge { limit } => "semantic payload exceeds limit "@
                + decimal(limit.spec_get() as nat),
            ProductPlanError::Keyboard(e) => "keyboard plan unavailable: "@ + e.message_text(),
            ProductPlanError::ClipboardCapabilityUnavailable => "clipboard paste capability unavailable"@,
            ProductPlanError::ClipboardCapabilityDegraded => "degraded clipboard paste capability rejected"@,
            ProductPlanError::ClipboardRevisionUnavailable => "clipboard revision evidence unavailable"@,
        }
    }

    pub fn message(self) -> (r: String)
        ensures
            r@ == self.message_text(),
    {
        let mut out = String::new();
        match self {
            ProductPlanError::Disabled => push_str(&mut out, "ClipType is disabled"),
            ProductPlanError::InvalidConfiguration(e) => {
                push_str(&mut out, "invalid configuration: ");
                let inner = e.message();
                push_str(&mut out, inner.as_str());
            },
            ProductPlanError::Empty => push_str(&mut out, "clipboard text is empty"),
            ProductPlanError::PayloadTooLarge { limit } => {
                push_str(&mut out, "semantic payload exceeds limit ");
                push_decimal(&mut out, limit.get() as u64);
            },
            ProductPlanError::Keyboard(e) => {
                push_str(&mut out, "keyboard plan unavailable: ");
                let inner = e.message();
                push_str(&mut out, inner.as_str());
            },
            ProductPlanError::ClipboardCapabilityUnavailable => push_str(
                &mut out,
                "clipboard paste capability unavailable",
            ),
            ProductPlanError::ClipboardCapabilityDegraded => push_str(
                &mut out,
                "degraded clipboard paste capability rejected",
            ),
            ProductPlanError::ClipboardRevisionUnavailable => push_str(
                &mut out,
                "clipboard revision evidence unavailable",
            ),
        }
        out
    }
}

impl SettingsValidationError {
    pub open spec fn message_text(self) -> Seq<char> {
        match self {
            SettingsValidationError::UnsupportedVersion(v) => "unsupported settings version "@
                + decimal(v as nat),
            SettingsValidationError::CharactersPerSecondOutOfRange => "characters per second must be between 1 and 250"@,
            SettingsValidationError::JitterOutOfRange => "jitter percent must not exceed 95"@,
            SettingsValidationError::TypoProbabilityOutOfRange => "typo probability percent must not exceed 25"@,
            SettingsValidationError::InvalidRuntime(e) => "invalid runtime settings: "@ + e.message_text(),
        }
    }

    pub fn message(self) -> (r: String)
        ensures
            r@ == self.message_text(),
    {
        let mut out = String::new();
        match self {
            SettingsValidationError::UnsupportedVersion(v) => {
                push_str(&mut out, "unsupported settings version ");
                push_decimal(&mut out, v as u64);
            },
            SettingsValidationError::CharactersPerSecondOutOfRange => push_str(
                &mut out,
                "characters per second must be between 1 and 250",
            ),
            SettingsValidationError::JitterOutOfRange => push_str(
                &mut out,
                "jitter percent must not exceed 95",
            ),
            SettingsValidationError::TypoProbabilityOutOfRange => push_str(
                &mut out,
                "typo probability percent must not exceed 25",
            ),
            SettingsValidationError::InvalidRuntime(e) => {
                push_str(&mut out, "invalid runtime settings: ");
                let inner = e.message();
                push_str(&mut out, inner.as_str());
            },
        }
        out
    }
}

pub open spec fn outcome_name(o: TerminalOutcome) -> Seq<char> {
    match o {
        TerminalOutcome::Completed => "Completed"@,
        TerminalOutcome::Cancelled => "Cancelled"@,
        TerminalOutcome::ClipboardChanged => "ClipboardChanged"@,
        TerminalOutcome::TargetChanged => "TargetChanged"@,
        TerminalOutcome::TargetDisappeared => "TargetDisappeared"@,
        TerminalOutcome::TargetEvidenceUnavailable => "TargetEvidenceUnavailable"@,
        TerminalOutcome::ModifierConflict => "ModifierConflict"@,
        TerminalOutcome::ModifierSettleTimeout => "ModifierSettleTimeout"@,
        TerminalOutcome::KnownSecurityRestriction => "KnownSecurityRestriction"@,
        TerminalOutcome::BlockedCauseUnknown => "BlockedCauseUnknown"@,
        TerminalOutcome::PartialInput => "PartialInput"@,
        TerminalOutcome::ProgressUnknown => "ProgressUnknown"@,
        TerminalOutcome::NativeFailure => "NativeFailure"@,
        TerminalOutcome::InternalInvariant => "InternalInvariant"@,
    }
}

fn outcome_str(o: TerminalOutcome) -> (r: &'static str)
    ensures
        r@ == outcome_name(o),
{
    match o {
        TerminalOutcome::Completed => "Completed",
        TerminalOutcome::Cancelled => "Cancelled",
        TerminalOutcome::ClipboardChanged => "ClipboardChanged",
        TerminalOutcome::TargetChanged => "TargetChanged",
        TerminalOutcome::TargetDisappeared => "TargetDisappeared",
        TerminalOutcome::TargetEvidenceUnavailable => "TargetEvidenceUnavailable",
        TerminalOutcome::ModifierConflict => "ModifierConflict",
        TerminalOutcome::ModifierSettleTimeout => "ModifierSettleTimeout",
        TerminalOutcome::KnownSecurityRestriction => "KnownSecurityRestriction",
        TerminalOutcome::BlockedCauseUnknown => "BlockedCauseUnknown",
        TerminalOutcome::PartialInput => "PartialInput",
        TerminalOutcome::ProgressUnknown => "ProgressUnknown",
        TerminalOutcome::NativeFailure => "NativeFailure",
        TerminalOutcome::InternalInvariant => "InternalInvariant",
    }
}

pub open spec fn stage_name(s: PreparationStage) -> Seq<char> {
    match s {
        PreparationStage::CaptureTarget => "CaptureTarget"@,
        PreparationStage::WaitForModifiers => "WaitForModifiers"@,
        PreparationStage::AcquireClipboard => "AcquireClipboard"@,
        PreparationStage::BuildPlan => "BuildPlan"@,
    }
}

fn stage_str(s: PreparationStage) -> (r: &'static str)
    ensures
        r@ == stage_name(s),
{
    match s {
        PreparationStage::CaptureTarget => "CaptureTarget",
        PreparationStage::WaitForModifiers => "WaitForModifiers",
        PreparationStage::AcquireClipboard => "AcquireClipboard",
        PreparationStage::BuildPlan => "BuildPlan",
    }
}

pub open spec fn state_text(s: FlowState) -> Seq<char> {
    match s {
        FlowState::Idle => "Idle"@,
        FlowState::Preparing(stage) => "Preparing("@ + stage_name(stage) + ")"@,
        FlowState::Injecting => "Injecting"@,
        FlowState::Cancelling => "Cancelling"@,
        FlowState::Finalizing(o) => "Finalizing("@ + outcome_name(o) + ")"@,
    }
}

fn push_state(out: &mut String, s: FlowState)
    ensures
        final(out)@ == old(out)@ + state_text(s),
{
    match s {
        FlowState::Idle => push_str(out, "Idle"),
        FlowState::Preparing(stage) => {
            push_str(out, "Preparing(");
            push_str(out, stage_str(stage));
            push_str(out, ")");
        },
        FlowState::Injecting => push_str(out, "Injecting"),
        FlowState::Cancelling => push_str(out, "Cancelling"),
        FlowState::Finalizing(o) => {
            push_str(out, "Finalizing(");
            push_str(out, outcome_str(o));
            push_str(out, ")");
        },
    }
    assert(final(out)@ =~= old(out)@ + state_text(s));
}

pub open spec fn event_text(e: FlowEvent) -> Seq<char> {
    match e {
        FlowEvent::TriggerAccepted => "TriggerAccepted"@,
        FlowEvent::TargetCaptured => "TargetCaptured"@,
        FlowEvent::ModifiersSettled => "ModifiersSettled"@,
        FlowEvent::ClipboardAcquired => "ClipboardAcquired"@,
        FlowEvent::PlanReady => "PlanReady"@,
        FlowEvent::BatchAccepted => "BatchAccepted"@,
        FlowEvent::AllBatchesComplete => "AllBatchesComplete"@,
        FlowEvent::CancelRequested => "CancelRequested"@,
        FlowEvent::CancellationObserved => "CancellationObserved"@,
        FlowEvent::Abort(o) => "Abort("@ + outcome_name(o) + ")"@,
        FlowEvent::Finalized => "Finalized"@,
    }
}

fn push_event(out: &mut String, e: FlowEvent)
    ensures
        final(out)@ == old(out)@ + event_text(e),
{
    match e {
        FlowEvent::TriggerAccepted => push_str(out, "TriggerAccepted"),
        FlowEvent::TargetCaptured => push_str(out, "TargetCaptured"),
        FlowEvent::ModifiersSettled => push_str(out, "ModifiersSettled"),
        FlowEvent::ClipboardAcquired => push_str(out, "ClipboardAcquired"),
        FlowEvent::PlanReady => push_str(out, "PlanReady"),
        FlowEvent::BatchAccepted => push_str(out, "BatchAccepted"),
        FlowEvent::AllBatchesComplete => push_str(out, "AllBatchesComplete"),
        FlowEvent::CancelRequested => push_str(out, "CancelRequested"),
        FlowEvent::CancellationObserved => push_str(out, "CancellationObserved"),
        FlowEvent::Abort(o) => {
            push_str(out, "Abort(");
            push_str(out, outcome_str(o));
            push_str(out, ")");
        },
        FlowEvent::Finalized => push_str(out, "Finalized"),
    }
    assert(final(out)@ =~= old(out)@ + event_text(e));
}

impl TransitionError {
    pub open spec fn message_text(self) -> Seq<char> {
        "invalid transition from "@ + state_text(self.state) + " on "@ + event_text(self.event)
    }

    pub fn message(self) -> (r: String)
        ensures
            r@ == self.message_text(),
    {
        let mut out = String::new();
        push_str(&mut out, "invalid transition from ");
        push_state(&mut out, self.state);
        push_str(&mut out, " on ");
        push_event(&mut out, self.event);
        assert(out@ =~= self.message_text());
        out
    }
}

/// How `std::io::ErrorKind` formats itself for debugging, such as `NotFound`.
pub uninterp spec fn io_kind_name(kind: std::io::ErrorKind) -> Seq<char>;

/// `<std::io::ErrorKind as Debug>::fmt`: the kind's debugging name, which
/// depends on the kind alone.
#[verifier::external_body]
fn io_kind_text(kind: std::io::ErrorKind) -> (r: String)
    ensures
        r@ == io_kind_name(kind),
{
    format!("{kind:?}")
}

impl SettingsError {
    pub open spec fn message_text(self) -> Seq<char> {
        match self {
            SettingsError::Io(kind) => "settings I/O failure: "@ + io_kind_name(kind),
            SettingsError::Syntax { line } => "settings syntax error at line "@ + decimal(line as nat),
            SettingsError::DuplicateKey { line } => "duplicate settings key at line "@ + decimal(line as nat),
            SettingsError::UnknownKey { line } => "unknown settings key at line "@ + decimal(line as nat),
            SettingsError::MissingKey(key) => "missing settings key "@ + key@,
            SettingsError::InvalidValue { line } => "invalid settings value at line "@ + decimal(line as nat),
            SettingsError::Validation(e) => "settings validation failed: "@ + e.message_text(),
        }
    }

    /// The text a settings failure is reported with; values read from the file
    /// never appear in it.
    pub fn message(self) -> (r: String)
        ensures
            r@ == self.message_text(),
    {
        let mut out = String::new();
        match self {
            SettingsError::Io(kind) => {
                push_str(&mut out, "settings I/O failure: ");
                let name = io_kind_text(kind);
                push_str(&mut out, name.as_str());
            },
            SettingsError::Syntax { line } => {
                push_str(&mut out, "settings syntax error at line ");
                push_decimal(&mut out, line as u64);
            },
            SettingsError::DuplicateKey { line } => {
                push_str(&mut out, "duplicate settings key at line ");
                push_decimal(&mut out, line as u64);
            },
            SettingsError::UnknownKey { line } => {
                push_str(&mut out, "unknown settings key at line ");
                push_decimal(&mut out, line as u64);
            },
            SettingsError::MissingKey(key) => {
                push_str(&mut out, "missing settings key ");
                push_str(&mut out, key);
            },
            SettingsError::InvalidValue { line } => {
                push_str(&mut out, "invalid settings value at line ");
                push_decimal(&mut out, line as u64);
            },
            SettingsError::Validation(e) => {
                push_str(&mut out, "settings validation failed: ");
                let inner = e.message();
                push_str(&mut out, inner.as_str());
            },
        }
        out
    }
}

} // verus!
