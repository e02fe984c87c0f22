//! Native-neutral ports and capability contracts.
//!
//! Platform adapters implement these traits without leaking operating-system
//! handles, callbacks, or content-bearing diagnostics into application policy.
use vstd::prelude::*;

use crate::hotkey::{HotkeyApplyResult, HotkeyAvailability, HotkeyPair};
use crate::limits::{ByteCount, NativeByteLimit, NativeEventCount};
use crate::outcome::{CapabilityState, RetryDisposition};
use crate::sensitive::SensitiveText;
use crate::text::TextBatch;

verus! {

// ---------------------------------------------------------------------------
// Native errors.
// ---------------------------------------------------------------------------

/// Broad native failure category suitable for policy and diagnostics.
#[derive(Debug, Clone, Copy, PartialEq, Eq, Structural)]
pub enum NativeErrorKind {
    PermissionDenied,
    TemporarilyUnavailable,
    InvalidData,
    ResourceExhausted,
    Unsupported,
    BlockedCauseUnknown,
    Unknown,
}

/// Native error category plus an optional numeric operating-system code.
///
/// Human messages from platform APIs are deliberately not stored here because
/// they can accidentally contain target or user data on some integration paths.
#[derive(Debug, Clone, Copy, PartialEq, Eq, Structural)]
pub struct NativeError {
    kind: NativeErrorKind,
    code: Option<u32>,
}

impl NativeError {
    pub closed spec fn spec_kind(self) -> NativeErrorKind {
        self.kind
    }

    pub closed spec fn spec_code(self) -> Option<u32> {
        self.code
    }

    /// The error with the given kind and code.
    pub closed spec fn spec_of(kind: NativeErrorKind, code: Option<u32>) -> Self {
        NativeError { kind, code }
    }

    pub proof fn lemma_of(kind: NativeErrorKind, code: Option<u32>)
        ensures
            Self::spec_of(kind, code).spec_kind() == kind,
            Self::spec_of(kind, code).spec_code() == code,
    {
    }

    pub fn new(kind: NativeErrorKind, code: Option<u32>) -> (r: Self)
        ensures
            r == Self::spec_of(kind, code),
            r.spec_kind() == kind,
            r.spec_code() == code,
    {
        NativeError { kind, code }
    }

    #[verifier::when_used_as_spec(spec_kind)]
    pub fn kind(self) -> (r: NativeErrorKind)
        ensures
            r == self.spec_kind(),
    {
        self.kind
    }

    #[verifier::when_used_as_spec(spec_code)]
    pub fn code(self) -> (r: Option<u32>)
        ensures
            r == self.spec_code(),
    {
        self.code
    }
}

// ---------------------------------------------------------------------------
// Clipboard.
// ---------------------------------------------------------------------------

/// Monotonic platform witness for the current clipboard contents.
///
/// The type has no `Debug` implementation; `debug_text` redacts the value.
#[derive(Clone, Copy, PartialEq, Eq, Hash, Structural)]
pub enum ClipboardRevision {
    Known(u64),
    Unavailable,
}

impl ClipboardRevision {
    #[verifier::when_used_as_spec(spec_is_known)]
    pub fn is_known(self) -> (r: bool)
        ensures
            r == self.spec_is_known(),
    {
        match self {
            ClipboardRevision::Known(_) => true,
            ClipboardRevision::Unavailable => false,
        }
    }

    pub open spec fn spec_is_known(self) -> bool {
        self is Known
    }

    /// Both revisions are known and equal; an unavailable revision never
    /// matches anything.
    pub fn matches(self, observed: Self) -> (r: bool)
        ensures
            r == (self is Known && observed is Known && self->Known_0 == observed->Known_0),
    {
        match (self, observed) {
            (ClipboardRevision::Known(expected), ClipboardRevision::Known(actual)) => expected
                == actual,
            _ => false,
        }
    }

    /// Content-free diagnostic text.
    pub fn debug_text(self) -> (r: String)
        ensures
            r@ == match self {
                ClipboardRevision::Known(_) => "ClipboardRevision::Known([REDACTED])"@,
                ClipboardRevision::Unavailable => "ClipboardRevision::Unavailable"@,
            },
    {
        match self {
            ClipboardRevision::Known(_) => "ClipboardRevision::Known([REDACTED])".to_owned(),
            ClipboardRevision::Unavailable => "ClipboardRevision::Unavailable".to_owned(),
        }
    }
}

/// Owned current text plus the content-blind revision observed around its read.
pub struct ClipboardSnapshot {
    text: SensitiveText,
    revision: ClipboardRevision,
}

impl ClipboardSnapshot {
    pub closed spec fn spec_text(&self) -> Seq<char> {
        self.text@
    }

    pub closed spec fn spec_revision(&self) -> ClipboardRevision {
        self.revision
    }

    pub fn new(text: SensitiveText, revision: ClipboardRevision) -> (r: Self)
        ensures
            r.spec_text() == text@,
            r.spec_revision() == revision,
    {
        ClipboardSnapshot { text, revision }
    }

    pub fn revision(&self) -> (r: ClipboardRevision)
        ensures
            r == self.spec_revision(),
    {
        self.revision
    }

    pub fn text(&self) -> (r: &SensitiveText)
        ensures
            r@ == self.spec_text(),
    {
        &self.text
    }

    pub fn into_parts(self) -> (r: (SensitiveText, ClipboardRevision))
        ensures
            r.0@ == self.spec_text(),
            r.1 == self.spec_revision(),
    {
        (self.text, self.revision)
    }

    /// Content-free diagnostic text.
    pub fn debug_text(&self) -> (r: String)
        ensures
            r@ == "ClipboardSnapshot { text: SensitiveText([REDACTED]), revision: "@ + match self.spec_revision() {
                ClipboardRevision::Known(_) => "ClipboardRevision::Known([REDACTED])"@,
                ClipboardRevision::Unavailable => "ClipboardRevision::Unavailable"@,
            } + " }"@,
    {
        let mut s = "ClipboardSnapshot { text: SensitiveText([REDACTED]), revision: ".to_owned();
        let revision = self.revision.debug_text();
        s.append(revision.as_str());
        s.append(" }");
        s
    }
}

/// Content-free result categories for one bounded clipboard acquisition attempt.
#[derive(Debug, Clone, Copy, PartialEq, Eq, Structural)]
pub enum ClipboardError {
    Busy,
    ChangedDuringRead,
    Empty,
    NonText,
    Malformed,
    TooLarge { observed: Option<ByteCount>, limit: NativeByteLimit },
    Native(NativeError),
}

/// The revision a snapshot keeps: the one observed after the read when it was
/// known both before and after and did not change; a known change fails the
/// read.
pub open spec fn settled_revision(before: ClipboardRevision, after: ClipboardRevision) -> Result<ClipboardRevision, ClipboardError> {
    match (before, after) {
        (ClipboardRevision::Known(expected), ClipboardRevision::Known(observed)) => if expected
            != observed {
            Err(ClipboardError::ChangedDuringRead)
        } else {
            Ok(ClipboardRevision::Known(observed))
        },
        _ => Ok(ClipboardRevision::Unavailable),
    }
}

/// Builds a snapshot from the revisions observed around one text read.
pub fn settle_snapshot(before: ClipboardRevision, text: SensitiveText, after: ClipboardRevision) -> (r: Result<ClipboardSnapshot, ClipboardError>)
    ensures
        match (r, settled_revision(before, after)) {
            (Ok(snapshot), Ok(revision)) => snapshot.spec_text() == text@ && snapshot.spec_revision()
                == revision,
            (Err(e1), Err(e2)) => e1 == e2,
            _ => false,
        },
{
    let revision = match (before, after) {
        (ClipboardRevision::Known(expected), ClipboardRevision::Known(observed)) => {
            if expected != observed {
                return Err(ClipboardError::ChangedDuringRead);
            }
            ClipboardRevision::Known(observed)
        },
        _ => ClipboardRevision::Unavailable,
    };
    Ok(ClipboardSnapshot::new(text, revision))
}

/// Reads the current text once without history, caching, or hidden retries.
pub trait ClipboardPort: Send + Sync {
    /// Performs one bounded acquisition attempt.
    ///
    /// The adapter must copy native data into owned memory before releasing
    /// native ownership or locks. The application coordinator owns retry timing.
    fn read_current_text(&self, hard_limit: NativeByteLimit) -> Result<SensitiveText, ClipboardError>;

    /// Returns a content-blind revision witness when the platform exposes one.
    fn current_revision(&self) -> (r: ClipboardRevision)
        default_ensures
            r == ClipboardRevision::Unavailable,
    {
        ClipboardRevision::Unavailable
    }

    /// Reads one snapshot and rejects a known revision change around the read.
    fn read_current_snapshot(&self, hard_limit: NativeByteLimit) -> Result<ClipboardSnapshot, ClipboardError> {
        let before = self.current_revision();
        let text = match self.read_current_text(hard_limit) {
            Ok(text) => text,
            Err(e) => return Err(e),
        };
        let after = self.current_revision();
        settle_snapshot(before, text, after)
    }
}

// ---------------------------------------------------------------------------
// Commands, shortcuts and permissions.
// ---------------------------------------------------------------------------

#[derive(Debug, Clone, Copy, PartialEq, Eq, Structural)]
pub enum CommandEvent {
    Trigger,
    Cancel,
    Shutdown,
}

#[derive(Debug, Clone, Copy, PartialEq, Eq, Structural)]
pub enum CommandSourceErrorKind {
    RegistrationConflict,
    InvalidBinding,
    NotRegistered,
    EventLoopStopped,
    NativeFailure,
}

#[derive(Debug, Clone, Copy, PartialEq, Eq, Structural)]
pub struct CommandSourceError {
    pub kind: CommandSourceErrorKind,
    pub native: Option<NativeError>,
}

impl CommandSourceError {
    pub fn new(kind: CommandSourceErrorKind, native: Option<NativeError>) -> (r: Self)
        ensures
            r == (CommandSourceError { kind, native }),
    {
        CommandSourceError { kind, native }
    }
}

/// A command event source owned and pumped by one platform-required thread.
///
/// This trait intentionally has no `Send` or `Sync` supertrait. Registration,
/// event retrieval, and teardown must occur on the owning thread.
pub trait CommandEventSource {
    fn register(&mut self) -> Result<(), CommandSourceError>;

    fn next_event(&mut self) -> Result<CommandEvent, CommandSourceError>;

    fn unregister(&mut self) -> Result<(), CommandSourceError>;
}

/// Content-free failure category for the platform shortcut control plane.
#[derive(Debug, Clone, Copy, PartialEq, Eq, Structural)]
pub enum HotkeyControlErrorKind {
    EventLoopStopped,
    Timeout,
    NativeFailure,
}

#[derive(Debug, Clone, Copy, PartialEq, Eq, Structural)]
pub struct HotkeyControlError {
    pub kind: HotkeyControlErrorKind,
    pub native: Option<NativeError>,
}

impl HotkeyControlError {
    pub fn new(kind: HotkeyControlErrorKind, native: Option<NativeError>) -> (r: Self)
        ensures
            r == (HotkeyControlError { kind, native }),
    {
        HotkeyControlError { kind, native }
    }
}

/// Thread-safe handle to the native global-shortcut owner.
///
/// A successful probe proves only that the OS accepted a temporary global
/// registration; it cannot prove that an application-local shortcut or
/// low-level hook will not also react.
pub trait HotkeyControlPort: Send + Sync {
    fn current_pair(&self) -> HotkeyPair;

    fn probe_pair(&self, candidate: HotkeyPair) -> Result<HotkeyAvailability, HotkeyControlError>;

    fn replace_pair(&self, candidate: HotkeyPair) -> Result<HotkeyApplyResult, HotkeyControlError>;
}

#[derive(Debug, Clone, Copy, PartialEq, Eq, Structural)]
pub enum AccessibilityPermissionState {
    NotRequired,
    NotRequested,
    NotGranted,
    Granted,
    Revoked,
    Unknown,
}

#[derive(Debug, Clone, Copy, PartialEq, Eq, Structural)]
pub enum PermissionActionResult {
    PromptRequested,
    SettingsOpened,
    AlreadyGranted,
    Unsupported,
}

#[derive(Debug, Clone, Copy, PartialEq, Eq, Structural)]
pub enum PermissionErrorKind {
    NativeFailure,
    Unsupported,
}

#[derive(Debug, Clone, Copy, PartialEq, Eq, Structural)]
pub struct PermissionError {
    pub kind: PermissionErrorKind,
    pub native: Option<NativeError>,
}

impl PermissionError {
    pub fn new(kind: PermissionErrorKind, native: Option<NativeError>) -> (r: Self)
        ensures
            r == (PermissionError { kind, native }),
    {
        PermissionError { kind, native }
    }
}

/// Platform permission surface. The UI may ask for current state and may invoke
/// explicit system-approved onboarding actions; it never bypasses consent.
pub trait AccessibilityPermissionPort: Send + Sync {
    fn state(&self) -> AccessibilityPermissionState;

    fn request(&self) -> Result<PermissionActionResult, PermissionError>;

    fn open_system_settings(&self) -> Result<PermissionActionResult, PermissionError>;
}

// ---------------------------------------------------------------------------
// Keyboard and paste.
// ---------------------------------------------------------------------------

/// Modifier keys relevant to safe synthetic input dispatch: Shift 1,
/// Control 2, Alt 4, Windows 8.
#[derive(Debug, Clone, Copy, PartialEq, Eq, Hash, Structural)]
pub struct ModifierMask {
    bits: u8,
}

impl ModifierMask {
    pub closed spec fn spec_bits(self) -> u8 {
        self.bits
    }

    /// The mask with the given bits.
    pub closed spec fn spec_from_bits(bits: u8) -> Self {
        ModifierMask { bits }
    }

    pub proof fn lemma_bits(bits: u8, m: Self)
        ensures
            Self::spec_from_bits(bits).spec_bits() == bits,
            Self::spec_from_bits(m.spec_bits()) == m,
    {
    }

    pub fn none() -> (r: Self)
        ensures
            r.spec_bits() == 0,
    {
        ModifierMask { bits: 0 }
    }

    pub fn of_shift() -> (r: Self)
        ensures
            r.spec_bits() == 1,
    {
        ModifierMask { bits: 1 }
    }

    pub fn of_control() -> (r: Self)
        ensures
            r.spec_bits() == 2,
    {
        ModifierMask { bits: 2 }
    }

    pub fn of_alt() -> (r: Self)
        ensures
            r.spec_bits() == 4,
    {
        ModifierMask { bits: 4 }
    }

    pub fn of_windows() -> (r: Self)
        ensures
            r.spec_bits() == 8,
    {
        ModifierMask { bits: 8 }
    }

    /// A mask with exactly the given bits.
    pub fn from_bits(bits: u8) -> (r: Self)
        ensures
            r.spec_bits() == bits,
    {
        ModifierMask { bits }
    }

    pub fn bits(self) -> (r: u8)
        ensures
            r == self.spec_bits(),
    {
        self.bits
    }

    pub fn contains(self, other: Self) -> (r: bool)
        ensures
            r == (self.spec_bits() & other.spec_bits() == other.spec_bits()),
    {
        (self.bits & other.bits) == other.bits
    }

    pub fn is_empty(self) -> (r: bool)
        ensures
            r == (self.spec_bits() == 0),
    {
        self.bits == 0
    }

    /// Every modifier held in either mask.
    pub fn union(self, other: Self) -> (r: Self)
        ensures
            r.spec_bits() == self.spec_bits() | other.spec_bits(),
    {
        ModifierMask { bits: self.bits | other.bits }
    }
}

impl std::ops::BitOr for ModifierMask {
    type Output = ModifierMask;

    fn bitor(self, rhs: ModifierMask) -> ModifierMask {
        self.union(rhs)
    }
}

impl vstd::std_specs::ops::BitOrSpecImpl for ModifierMask {
    open spec fn obeys_bitor_spec() -> bool {
        true
    }

    open spec fn bitor_req(self, rhs: ModifierMask) -> bool {
        true
    }

    open spec fn bitor_spec(self, rhs: ModifierMask) -> ModifierMask {
        ModifierMask::spec_from_bits(self.spec_bits() | rhs.spec_bits())
    }
}

impl Default for ModifierMask {
    fn default() -> (r: Self)
        ensures
            r.spec_bits() == 0,
    {
        ModifierMask::none()
    }
}

#[derive(Debug, Clone, Copy, PartialEq, Eq, Structural)]
pub enum ModifierObservation {
    Clear,
    Held(ModifierMask),
    Unknown,
}

#[derive(Debug, Clone, Copy, PartialEq, Eq, Structural)]
pub struct KeyboardCapabilities {
    pub unicode_text: CapabilityState,
    pub line_break: CapabilityState,
    pub tab: CapabilityState,
    pub cursor_right: CapabilityState,
    pub modifier_observation: CapabilityState,
}

/// Native requested and accepted event counts, never clipboard content.
#[derive(Debug, Clone, Copy, PartialEq, Eq, Structural)]
pub struct NativeDispatchCount {
    pub requested: NativeEventCount,
    pub accepted: NativeEventCount,
}

/// Result of exactly one bounded native dispatch call.
#[derive(Debug, Clone, Copy, PartialEq, Eq, Structural)]
pub enum DispatchResult {
    Complete { events: NativeEventCount },
    NoneAccepted { requested: NativeEventCount, native: Option<NativeError> },
    Partial { counts: NativeDispatchCount },
    ProgressUnknown { counts: NativeDispatchCount },
}

impl DispatchResult {
    /// A native text dispatch is never retried, including a zero result.
    pub fn retry_disposition(self) -> (r: RetryDisposition)
        ensures
            r == RetryDisposition::Never,
    {
        RetryDisposition::Never
    }
}

#[derive(Debug, Clone, Copy, PartialEq, Eq, Structural)]
pub enum KeyboardError {
    UnsupportedSemanticElement,
    InvalidBatch,
    ModifierStateUnavailable,
    Native(NativeError),
}

/// Bounded modifier observation used by the coordinator's settle/check loop.
pub trait ModifierPort: Send + Sync {
    fn observe_modifiers(&self) -> ModifierObservation;
}

/// Dispatches already-validated, already-bounded keyboard work.
pub trait KeyboardPort: Send + Sync {
    fn capabilities(&self) -> KeyboardCapabilities;

    fn dispatch(&self, batch: TextBatch<'_>) -> Result<DispatchResult, KeyboardError>;

    /// Deletes the character before the caret.
    fn dispatch_backspace(&self) -> Result<DispatchResult, KeyboardError>;

    /// Moves the caret one position to the right.
    fn dispatch_cursor_right(&self) -> Result<DispatchResult, KeyboardError>;

    /// Crosses the current line boundary, then moves to the end of the line.
    fn dispatch_cursor_right_to_line_end(&self) -> Result<DispatchResult, KeyboardError>;
}

#[derive(Debug, Clone, Copy, PartialEq, Eq, Structural)]
pub struct PasteCapabilities {
    pub paste_chord: CapabilityState,
    pub clipboard_revision_guard: CapabilityState,
}

#[derive(Debug, Clone, Copy, PartialEq, Eq, Structural)]
pub enum PasteError {
    Unsupported,
    ClipboardChanged,
    InvalidRequest,
    Native(NativeError),
}

impl PasteError {
    /// A failed paste is never retried as if it were idempotent.
    pub fn retry_disposition(self) -> (r: RetryDisposition)
        ensures
            r == RetryDisposition::Never,
    {
        RetryDisposition::Never
    }
}

/// Emits one bounded paste command for the already-current clipboard.
///
/// Implementations must not overwrite the clipboard. The expected revision is
/// checked immediately before dispatch when the capability is available.
pub trait PastePort: Send + Sync {
    fn capabilities(&self) -> PasteCapabilities;

    fn dispatch_paste(&self, expected_revision: ClipboardRevision) -> Result<DispatchResult, PasteError>;
}

// ---------------------------------------------------------------------------
// Target evidence.
// ---------------------------------------------------------------------------

/// Safe target metadata that excludes titles and focused-field content.
#[derive(Debug, Clone, Copy, PartialEq, Eq, Structural)]
pub struct TargetMetadata {
    pub process_id: Option<u32>,
    pub gui_thread_id: Option<u32>,
}

impl Default for TargetMetadata {
    fn default() -> (r: Self)
        ensures
            r == (TargetMetadata { process_id: None, gui_thread_id: None }),
    {
        TargetMetadata { process_id: None, gui_thread_id: None }
    }
}

#[derive(Debug, Clone, Copy, PartialEq, Eq, Structural)]
pub enum TargetCaptureError {
    Unavailable,
    Disappeared,
    Native(NativeError),
}

/// Comparison result under the strongest evidence the adapter can provide.
#[derive(Debug, Clone, Copy, PartialEq, Eq, Structural)]
pub enum TargetComparison {
    Same,
    Changed,
    Disappeared,
    UnavailableOrAmbiguous,
}

} // verus!
