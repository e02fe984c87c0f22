//! Capability, evidence, and session outcome vocabulary.
use vstd::prelude::*;

verus! {

/// Availability of a platform capability.
#[derive(Debug, Clone, Copy, PartialEq, Eq, Structural)]
pub enum CapabilityState {
    Available,
    Degraded,
    Unavailable,
}

/// Strength of non-content target evidence exposed by an adapter.
#[derive(Debug, Clone, Copy, PartialEq, Eq, Structural)]
pub enum EvidenceStrength {
    TopLevelTarget,
    NativeFocusedControl,
    RenderHostLimited,
    Degraded,
}

/// Evidence-based relationship between ClipType and a target's integrity.
#[derive(Debug, Clone, Copy, PartialEq, Eq, Structural)]
pub enum IntegrityRelation {
    KnownRestricted,
    KnownNotRestricted,
    Unknown,
}

/// Live session phase exposed to a content-free status surface.
#[derive(Debug, Clone, Copy, PartialEq, Eq, Structural)]
pub enum SessionPhase {
    Idle,
    Preparing,
    Injecting,
    Cancelling,
}

/// Content-free failures that can occur before native dispatch begins.
#[derive(Debug, Clone, Copy, PartialEq, Eq, Structural)]
pub enum PreparationFailure {
    Disabled,
    Busy,
    ClipboardUnavailable,
    ClipboardRevisionUnavailable,
    ClipboardEmpty,
    ClipboardNonText,
    ClipboardMalformed,
    PayloadTooLarge,
    UnsupportedCapability,
    DegradedCapabilityRejected,
    TargetUnavailable,
    ModifierSettleTimeout,
    KnownSecurityRestriction,
    Cancelled,
    InternalInvariant,
}

/// Terminal result of one bounded injection attempt.
#[derive(Debug, Clone, Copy, PartialEq, Eq, Structural)]
pub enum TerminalOutcome {
    Completed,
    Cancelled,
    ClipboardChanged,
    TargetChanged,
    TargetDisappeared,
    TargetEvidenceUnavailable,
    ModifierConflict,
    ModifierSettleTimeout,
    KnownSecurityRestriction,
    BlockedCauseUnknown,
    PartialInput,
    ProgressUnknown,
    NativeFailure,
    InternalInvariant,
}

/// ClipType never retries synthetic input after an observed native result.
#[derive(Debug, Clone, Copy, PartialEq, Eq, Structural)]
pub enum RetryDisposition {
    Never,
}

impl TerminalOutcome {
    /// Every terminal outcome, including partial and unknown progress, is final.
    pub fn retry_disposition(self) -> (r: RetryDisposition)
        ensures
            r == RetryDisposition::Never,
    {
        RetryDisposition::Never
    }
}

} // verus!
