//! macOS adapter policy: pasteboard status codes and text, modifier flags,
//! event-posting results, target identity, Accessibility trust, start-at-login
//! status, status-menu commands, and hotkey key codes and registration
//! results. The AppKit and Carbon calls belong to the host.
use vstd::prelude::*;

use vstd::string::StringSliceAdditionalSpecFns;
use vstd::utf8::{encode_utf8, valid_utf8};

use crate::hotkey::{
    HotkeyApplyResult, HotkeyAvailability, HotkeyKey, HotkeyPair, HotkeyPlatform, HotkeySpec,
    HotkeyValidationError,
};
use crate::limits::{ByteCount, NativeByteLimit, NativeEventCount};
use crate::outcome::{CapabilityState, EvidenceStrength};
use crate::platform::{
    AccessibilityPermissionState, ClipboardError, ClipboardRevision, DispatchResult,
    KeyboardCapabilities, KeyboardError, ModifierMask, ModifierObservation, NativeDispatchCount,
    NativeError, NativeErrorKind, PasteCapabilities, PasteError, PermissionActionResult,
    PermissionError, PermissionErrorKind, TargetCaptureError, TargetComparison, TargetMetadata,
};
use crate::product::InjectionMode;
use crate::sensitive::SensitiveText;
use crate::text::TextAtom;
use crate::windows::{scalar_utf16, utf16_of};

verus! {

pub const CLIPBOARD_OK: i32 = 0;
pub const CLIPBOARD_EMPTY: i32 = 1;
pub const CLIPBOARD_NON_TEXT: i32 = 2;
pub const CLIPBOARD_MALFORMED: i32 = 3;
pub const CLIPBOARD_CHANGED: i32 = 4;

pub const HOTKEY_OK: i32 = 0;
pub const HOTKEY_CONFLICT: i32 = 1;
pub const HOTKEY_UNSUPPORTED: i32 = 2;

pub const FLAG_SHIFT: u64 = 0x20000;
pub const FLAG_CONTROL: u64 = 0x40000;
pub const FLAG_OPTION: u64 = 0x80000;
pub const FLAG_COMMAND: u64 = 0x100000;

// ---------------------------------------------------------------------------
// Pasteboard.
// ---------------------------------------------------------------------------

pub open spec fn clipboard_status_check(status: i32) -> Result<(), ClipboardError> {
    if status == CLIPBOARD_OK {
        Ok(())
    } else if status == CLIPBOARD_EMPTY {
        Err(ClipboardError::Empty)
    } else if status == CLIPBOARD_NON_TEXT {
        Err(ClipboardError::NonText)
    } else if status == CLIPBOARD_MALFORMED {
        Err(ClipboardError::Malformed)
    } else if status == CLIPBOARD_CHANGED {
        Err(ClipboardError::ChangedDuringRead)
    } else {
        Err(ClipboardError::Native(NativeError::spec_of(NativeErrorKind::ResourceExhausted, None)))
    }
}

/// What the pasteboard helper's status code reports.
pub fn mac_clipboard_status(status: i32) -> (r: Result<(), ClipboardError>)
    ensures
        r == clipboard_status_check(status),
{
    if status == CLIPBOARD_OK {
        Ok(())
    } else if status == CLIPBOARD_EMPTY {
        Err(ClipboardError::Empty)
    } else if status == CLIPBOARD_NON_TEXT {
        Err(ClipboardError::NonText)
    } else if status == CLIPBOARD_MALFORMED {
        Err(ClipboardError::Malformed)
    } else if status == CLIPBOARD_CHANGED {
        Err(ClipboardError::ChangedDuringRead)
    } else {
        Err(ClipboardError::Native(NativeError::new(NativeErrorKind::ResourceExhausted, None)))
    }
}

/// `std::str::from_utf8`: the bytes as text exactly when they are valid
/// UTF-8, and then a text whose UTF-8 encoding is those bytes.
#[verifier::external_body]
pub(crate) fn utf8_text(bytes: &[u8]) -> (r: Option<&str>)
    ensures
        r is Some <==> valid_utf8(bytes@),
        r matches Some(s) ==> s.spec_bytes() == bytes@,
{
    std::str::from_utf8(bytes).ok()
}

/// The text of the helper's UTF-8 copy: no buffer is malformed data, a copy
/// over the limit is refused with its size, and only valid UTF-8 is text.
pub fn mac_clipboard_text(bytes: Option<&[u8]>, hard_limit: NativeByteLimit) -> (r: Result<
    SensitiveText,
    ClipboardError,
>)
    ensures
        match bytes {
            None => r == Err::<SensitiveText, ClipboardError>(ClipboardError::Malformed),
            Some(b) => if b@.len() > hard_limit.spec_get() {
                r == Err::<SensitiveText, ClipboardError>(
                    ClipboardError::TooLarge {
                        observed: Some(ByteCount::spec_new(b@.len() as usize)),
                        limit: hard_limit,
                    },
                )
            } else if !valid_utf8(b@) {
                r == Err::<SensitiveText, ClipboardError>(ClipboardError::Malformed)
            } else {
                &&& r is Ok
                &&& encode_utf8(r->Ok_0@) == b@
            },
        },
{
    let b = match bytes {
        None => return Err(ClipboardError::Malformed),
        Some(b) => b,
    };
    let measured = ByteCount::new(b.len());
    if !hard_limit.allows(measured) {
        return Err(ClipboardError::TooLarge { observed: Some(measured), limit: hard_limit });
    }
    match utf8_text(b) {
        Some(s) => Ok(SensitiveText::new(s.to_owned())),
        None => Err(ClipboardError::Malformed),
    }
}

/// The pasteboard change count as a revision; a negative count is no
/// revision.
pub fn revision_from_change_count(count: i64) -> (r: ClipboardRevision)
    ensures
        count >= 0 ==> r == ClipboardRevision::Known(count as u64),
        count < 0 ==> r == ClipboardRevision::Unavailable,
{
    if count >= 0 {
        ClipboardRevision::Known(count as u64)
    } else {
        ClipboardRevision::Unavailable
    }
}

// ---------------------------------------------------------------------------
// Modifiers and input posting.
// ---------------------------------------------------------------------------

/// Shift 1, Control 2, Option 4 and Command 8, from the session flags.
pub open spec fn flag_bits(flags: u64) -> u8 {
    ((if flags & FLAG_SHIFT != 0 { 1u8 } else { 0u8 }) + (if flags & FLAG_CONTROL != 0 {
        2u8
    } else {
        0u8
    }) + (if flags & FLAG_OPTION != 0 { 4u8 } else { 0u8 }) + (if flags & FLAG_COMMAND != 0 {
        8u8
    } else {
        0u8
    })) as u8
}

pub fn observation_from_flags(flags: u64) -> (r: ModifierObservation)
    ensures
        flag_bits(flags) == 0 ==> r == ModifierObservation::Clear,
        flag_bits(flags) != 0 ==> r == ModifierObservation::Held(
            ModifierMask::spec_from_bits(flag_bits(flags)),
        ),
{
    let mut bits: u8 = 0;
    if flags & FLAG_SHIFT != 0 {
        bits = bits + 1;
    }
    if flags & FLAG_CONTROL != 0 {
        bits = bits + 2;
    }
    if flags & FLAG_OPTION != 0 {
        bits = bits + 4;
    }
    if flags & FLAG_COMMAND != 0 {
        bits = bits + 8;
    }
    let mask = ModifierMask::from_bits(bits);
    proof {
        ModifierMask::lemma_bits(bits, mask);
    }
    if mask.is_empty() {
        ModifierObservation::Clear
    } else {
        ModifierObservation::Held(mask)
    }
}

pub open spec fn availability(ready: bool) -> CapabilityState {
    if ready {
        CapabilityState::Available
    } else {
        CapabilityState::Unavailable
    }
}

/// Posting needs Accessibility trust and no secure input; modifiers can
/// always be observed.
pub fn mac_keyboard_capabilities(ready: bool) -> (r: KeyboardCapabilities)
    ensures
        r == (KeyboardCapabilities {
            unicode_text: availability(ready),
            line_break: availability(ready),
            tab: availability(ready),
            cursor_right: availability(ready),
            modifier_observation: CapabilityState::Available,
        }),
{
    let state = if ready {
        CapabilityState::Available
    } else {
        CapabilityState::Unavailable
    };
    KeyboardCapabilities {
        unicode_text: state,
        line_break: state,
        tab: state,
        cursor_right: state,
        modifier_observation: CapabilityState::Available,
    }
}

pub fn mac_paste_capabilities(ready: bool) -> (r: PasteCapabilities)
    ensures
        r == (PasteCapabilities {
            paste_chord: availability(ready),
            clipboard_revision_guard: CapabilityState::Available,
        }),
{
    PasteCapabilities {
        paste_chord: if ready {
            CapabilityState::Available
        } else {
            CapabilityState::Unavailable
        },
        clipboard_revision_guard: CapabilityState::Available,
    }
}

/// Why nothing was accepted: permission is missing, or the cause is unknown.
pub open spec fn blocked_error(ready: bool) -> NativeError {
    NativeError::spec_of(
        if ready {
            NativeErrorKind::BlockedCauseUnknown
        } else {
            NativeErrorKind::PermissionDenied
        },
        None,
    )
}

fn blocked_native(ready: bool) -> (r: NativeError)
    ensures
        r == blocked_error(ready),
{
    NativeError::new(
        if ready {
            NativeErrorKind::BlockedCauseUnknown
        } else {
            NativeErrorKind::PermissionDenied
        },
        None,
    )
}

/// Each atom is posted as a key-down and key-up: two events per atom.
pub fn mac_requested_events(atom_count: usize) -> (r: Result<NativeEventCount, KeyboardError>)
    ensures
        atom_count == 0 ==> r == Err::<NativeEventCount, KeyboardError>(KeyboardError::InvalidBatch),
        atom_count > 0 && atom_count * 2 > u32::MAX ==> r == Err::<NativeEventCount, KeyboardError>(
            KeyboardError::InvalidBatch,
        ),
        atom_count > 0 && atom_count * 2 <= u32::MAX ==> r == Ok::<NativeEventCount, KeyboardError>(
            NativeEventCount::spec_new((atom_count * 2) as u32),
        ),
{
    if atom_count == 0 {
        return Err(KeyboardError::InvalidBatch);
    }
    if atom_count > 0x7FFF_FFFF {
        return Err(KeyboardError::InvalidBatch);
    }
    Ok(NativeEventCount::new((atom_count * 2) as u32))
}

/// How one atom is posted.
#[derive(Debug, Clone, PartialEq, Eq)]
pub enum MacPost {
    Unicode(Vec<u16>),
    Return,
    Tab,
}

pub fn mac_post_for(atom: TextAtom) -> (r: MacPost)
    ensures
        match atom {
            TextAtom::Scalar(c) => r matches MacPost::Unicode(u) && u@ == utf16_of(c),
            TextAtom::LineBreak => r == MacPost::Return,
            TextAtom::Tab => r == MacPost::Tab,
        },
{
    match atom {
        TextAtom::Scalar(c) => MacPost::Unicode(scalar_utf16(c)),
        TextAtom::LineBreak => MacPost::Return,
        TextAtom::Tab => MacPost::Tab,
    }
}

/// The result once posting stopped after `accepted_atoms` atoms went out:
/// none is a refusal with its likely cause, some leaves progress unknown.
pub open spec fn interrupted_result(
    requested: NativeEventCount,
    accepted_atoms: usize,
    ready: bool,
) -> DispatchResult {
    if accepted_atoms == 0 {
        DispatchResult::NoneAccepted { requested, native: Some(blocked_error(ready)) }
    } else {
        DispatchResult::ProgressUnknown {
            counts: NativeDispatchCount {
                requested,
                accepted: NativeEventCount::spec_new(
                    if accepted_atoms * 2 <= u32::MAX {
                        (accepted_atoms * 2) as u32
                    } else {
                        0
                    },
                ),
            },
        }
    }
}

pub fn mac_interrupted_result(requested: NativeEventCount, accepted_atoms: usize, ready: bool) -> (r:
    DispatchResult)
    ensures
        r == interrupted_result(requested, accepted_atoms, ready),
{
    if accepted_atoms == 0 {
        return DispatchResult::NoneAccepted { requested, native: Some(blocked_native(ready)) };
    }
    let accepted: u32 = if accepted_atoms <= 0x7FFF_FFFF {
        (accepted_atoms * 2) as u32
    } else {
        0
    };
    DispatchResult::ProgressUnknown {
        counts: NativeDispatchCount { requested, accepted: NativeEventCount::new(accepted) },
    }
}

/// One fixed key sequence of `events` events: posted is complete, otherwise
/// nothing was accepted.
pub fn mac_key_sequence_result(posted: bool, events: u32, ready: bool) -> (r: DispatchResult)
    ensures
        posted ==> r == (DispatchResult::Complete { events: NativeEventCount::spec_new(events) }),
        !posted ==> r == (DispatchResult::NoneAccepted {
            requested: NativeEventCount::spec_new(events),
            native: Some(blocked_error(ready)),
        }),
{
    if posted {
        DispatchResult::Complete { events: NativeEventCount::new(events) }
    } else {
        DispatchResult::NoneAccepted {
            requested: NativeEventCount::new(events),
            native: Some(blocked_native(ready)),
        }
    }
}

/// The revision the paste helper compares against, which it takes as `i64`.
pub fn mac_paste_revision(expected: ClipboardRevision) -> (r: Result<i64, PasteError>)
    ensures
        r == match expected {
            ClipboardRevision::Known(v) => if v <= i64::MAX {
                Ok::<i64, PasteError>(v as i64)
            } else {
                Err(PasteError::InvalidRequest)
            },
            ClipboardRevision::Unavailable => Err(PasteError::InvalidRequest),
        },
{
    match expected {
        ClipboardRevision::Known(v) => if v <= 0x7FFF_FFFF_FFFF_FFFF {
            Ok(v as i64)
        } else {
            Err(PasteError::InvalidRequest)
        },
        ClipboardRevision::Unavailable => Err(PasteError::InvalidRequest),
    }
}

/// The paste helper's answer: -1 a changed pasteboard, 1 a posted chord,
/// anything else nothing accepted.
pub fn mac_paste_result(status: i32, ready: bool) -> (r: Result<DispatchResult, PasteError>)
    ensures
        status == -1 ==> r == Err::<DispatchResult, PasteError>(PasteError::ClipboardChanged),
        status == 1 ==> r == Ok::<DispatchResult, PasteError>(
            DispatchResult::Complete { events: NativeEventCount::spec_new(2) },
        ),
        status != -1 && status != 1 ==> r == Ok::<DispatchResult, PasteError>(
            DispatchResult::NoneAccepted {
                requested: NativeEventCount::spec_new(2),
                native: Some(blocked_error(ready)),
            },
        ),
{
    if status == -1 {
        Err(PasteError::ClipboardChanged)
    } else if status == 1 {
        Ok(DispatchResult::Complete { events: NativeEventCount::new(2) })
    } else {
        Ok(
            DispatchResult::NoneAccepted {
                requested: NativeEventCount::new(2),
                native: Some(blocked_native(ready)),
            },
        )
    }
}

// ---------------------------------------------------------------------------
// Target identity.
// ---------------------------------------------------------------------------

/// Identity evidence for a target: its process, hashed window and focused
/// element identities, and whether the focus sits in a render host whose
/// nodes are rebuilt.
#[derive(Debug, Clone, Copy, PartialEq, Eq)]
pub struct MacTargetToken {
    pub process_id: u32,
    pub window_hash: Option<u64>,
    pub focus_hash: Option<u64>,
    pub render_host_limited: bool,
}

pub open spec fn mac_capture_result(
    captured: i32,
    process_id: i32,
    window_hash: u64,
    window_available: i32,
    focus_hash: u64,
    focus_available: i32,
    render_host_limited: i32,
) -> Result<(MacTargetToken, TargetMetadata, EvidenceStrength), TargetCaptureError> {
    if captured == 0 || process_id <= 0 {
        Err(TargetCaptureError::Unavailable)
    } else {
        let window = if window_available != 0 {
            Some(window_hash)
        } else {
            None
        };
        let focus = if focus_available != 0 {
            Some(focus_hash)
        } else {
            None
        };
        let limited = render_host_limited != 0 && window is Some;
        Ok(
            (
                MacTargetToken {
                    process_id: process_id as u32,
                    window_hash: window,
                    focus_hash: focus,
                    render_host_limited: limited,
                },
                TargetMetadata { process_id: Some(process_id as u32), gui_thread_id: None },
                if limited {
                    EvidenceStrength::RenderHostLimited
                } else if focus is Some {
                    EvidenceStrength::NativeFocusedControl
                } else {
                    EvidenceStrength::TopLevelTarget
                },
            ),
        )
    }
}

/// Builds target evidence from the capture helper's outputs.
pub fn mac_capture(
    captured: i32,
    process_id: i32,
    window_hash: u64,
    window_available: i32,
    focus_hash: u64,
    focus_available: i32,
    render_host_limited: i32,
) -> (r: Result<(MacTargetToken, TargetMetadata, EvidenceStrength), TargetCaptureError>)
    ensures
        r == mac_capture_result(
            captured,
            process_id,
            window_hash,
            window_available,
            focus_hash,
            focus_available,
            render_host_limited,
        ),
{
    if captured == 0 || process_id <= 0 {
        return Err(TargetCaptureError::Unavailable);
    }
    let pid = process_id as u32;
    let window = if window_available != 0 {
        Some(window_hash)
    } else {
        None
    };
    let focus = if focus_available != 0 {
        Some(focus_hash)
    } else {
        None
    };
    let limited = render_host_limited != 0 && window.is_some();
    let strength = if limited {
        EvidenceStrength::RenderHostLimited
    } else if focus.is_some() {
        EvidenceStrength::NativeFocusedControl
    } else {
        EvidenceStrength::TopLevelTarget
    };
    Ok(
        (
            MacTargetToken {
                process_id: pid,
                window_hash: window,
                focus_hash: focus,
                render_host_limited: limited,
            },
            TargetMetadata { process_id: Some(pid), gui_thread_id: None },
            strength,
        ),
    )
}

/// Another process or window is a change; a window known on one side only is
/// ambiguous. A session that began in a render host compares by window alone,
/// since its focus nodes are rebuilt; a native-control session needs the same
/// focused element and never settles for a later render-host reading.
pub open spec fn mac_comparison(expected: MacTargetToken, observed: MacTargetToken) -> TargetComparison {
    if expected.process_id != observed.process_id {
        TargetComparison::Changed
    } else if expected.window_hash is Some != observed.window_hash is Some {
        TargetComparison::UnavailableOrAmbiguous
    } else if expected.window_hash is Some && expected.window_hash != observed.window_hash {
        TargetComparison::Changed
    } else if expected.render_host_limited {
        if expected.window_hash is Some {
            TargetComparison::Same
        } else {
            TargetComparison::UnavailableOrAmbiguous
        }
    } else if observed.render_host_limited {
        TargetComparison::UnavailableOrAmbiguous
    } else if expected.focus_hash is Some != observed.focus_hash is Some {
        TargetComparison::UnavailableOrAmbiguous
    } else if expected.focus_hash == observed.focus_hash {
        TargetComparison::Same
    } else {
        TargetComparison::Changed
    }
}

pub fn compare_mac_tokens(expected: &MacTargetToken, observed: &MacTargetToken) -> (r: TargetComparison)
    ensures
        r == mac_comparison(*expected, *observed),
{
    if expected.process_id != observed.process_id {
        return TargetComparison::Changed;
    }
    match (expected.window_hash, observed.window_hash) {
        (Some(left), Some(right)) => if left != right {
            return TargetComparison::Changed;
        },
        (None, None) => {},
        _ => return TargetComparison::UnavailableOrAmbiguous,
    }
    if expected.render_host_limited {
        return if expected.window_hash.is_some() {
            TargetComparison::Same
        } else {
            TargetComparison::UnavailableOrAmbiguous
        };
    }
    if observed.render_host_limited {
        return TargetComparison::UnavailableOrAmbiguous;
    }
    match (expected.focus_hash, observed.focus_hash) {
        (Some(left), Some(right)) => if left == right {
            TargetComparison::Same
        } else {
            TargetComparison::Changed
        },
        (None, None) => TargetComparison::Same,
        _ => TargetComparison::UnavailableOrAmbiguous,
    }
}

// ---------------------------------------------------------------------------
// Accessibility trust.
// ---------------------------------------------------------------------------

/// The trust state from the current query and whether trust was seen before:
/// trust lost after being seen is revoked. The second value is whether trust
/// has now been seen.
pub fn mac_permission_state(trusted: bool, seen_granted: bool) -> (r: (AccessibilityPermissionState, bool))
    ensures
        trusted ==> r == (AccessibilityPermissionState::Granted, true),
        !trusted && seen_granted ==> r == (AccessibilityPermissionState::Revoked, true),
        !trusted && !seen_granted ==> r == (AccessibilityPermissionState::NotGranted, false),
{
    if trusted {
        (AccessibilityPermissionState::Granted, true)
    } else if seen_granted {
        (AccessibilityPermissionState::Revoked, true)
    } else {
        (AccessibilityPermissionState::NotGranted, false)
    }
}

/// A trust request: already granted asks nothing; otherwise the system prompt
/// is requested. The first value is whether to show the prompt.
pub fn mac_permission_request(state: AccessibilityPermissionState) -> (r: (bool, PermissionActionResult))
    ensures
        state == AccessibilityPermissionState::Granted ==> r == (
            false,
            PermissionActionResult::AlreadyGranted,
        ),
        state != AccessibilityPermissionState::Granted ==> r == (
            true,
            PermissionActionResult::PromptRequested,
        ),
{
    match state {
        AccessibilityPermissionState::Granted => (false, PermissionActionResult::AlreadyGranted),
        _ => (true, PermissionActionResult::PromptRequested),
    }
}

pub fn mac_settings_opened(opened: bool) -> (r: Result<PermissionActionResult, PermissionError>)
    ensures
        opened ==> r == Ok::<PermissionActionResult, PermissionError>(
            PermissionActionResult::SettingsOpened,
        ),
        !opened ==> r == Err::<PermissionActionResult, PermissionError>(
            PermissionError {
                kind: PermissionErrorKind::NativeFailure,
                native: Some(NativeError::spec_of(NativeErrorKind::Unknown, None)),
            },
        ),
{
    if opened {
        Ok(PermissionActionResult::SettingsOpened)
    } else {
        Err(
            PermissionError::new(
                PermissionErrorKind::NativeFailure,
                Some(NativeError::new(NativeErrorKind::Unknown, None)),
            ),
        )
    }
}

// ---------------------------------------------------------------------------
// Start at login, status menu.
// ---------------------------------------------------------------------------

#[derive(Debug, Clone, Copy, PartialEq, Eq, Structural)]
pub enum MacStartupStatus {
    NotRegistered,
    Enabled,
    RequiresApproval,
    NotFound,
    Unsupported,
    Unknown,
}

pub open spec fn startup_status_of(code: i32) -> MacStartupStatus {
    if code == 0 {
        MacStartupStatus::NotRegistered
    } else if code == 1 {
        MacStartupStatus::Enabled
    } else if code == 2 {
        MacStartupStatus::RequiresApproval
    } else if code == 3 {
        MacStartupStatus::NotFound
    } else if code == 4 {
        MacStartupStatus::Unsupported
    } else {
        MacStartupStatus::Unknown
    }
}

/// The app service status from its numeric code.
pub fn mac_startup_status(code: i32) -> (r: MacStartupStatus)
    ensures
        r == startup_status_of(code),
{
    if code == 0 {
        MacStartupStatus::NotRegistered
    } else if code == 1 {
        MacStartupStatus::Enabled
    } else if code == 2 {
        MacStartupStatus::RequiresApproval
    } else if code == 3 {
        MacStartupStatus::NotFound
    } else if code == 4 {
        MacStartupStatus::Unsupported
    } else {
        MacStartupStatus::Unknown
    }
}

/// A start-at-login change: a refused change is a native failure, an
/// accepted one reports the status read afterwards.
pub fn mac_startup_change(accepted: bool, status_after: i32) -> (r: Result<MacStartupStatus, NativeError>)
    ensures
        accepted ==> r == Ok::<MacStartupStatus, NativeError>(startup_status_of(status_after)),
        !accepted ==> r == Err::<MacStartupStatus, NativeError>(
            NativeError::spec_of(NativeErrorKind::Unknown, None),
        ),
{
    if !accepted {
        return Err(NativeError::new(NativeErrorKind::Unknown, None));
    }
    Ok(mac_startup_status(status_after))
}

#[derive(Debug, Clone, Copy, PartialEq, Eq, Structural)]
pub enum MacMenuEvent {
    Trigger,
    Cancel,
    OpenSettings,
    ToggleEnabled,
    ToggleStartup,
    Permission,
    About,
    Quit,
}

pub open spec fn menu_event_of(command: i32) -> Option<MacMenuEvent> {
    if command == 1 {
        Some(MacMenuEvent::Trigger)
    } else if command == 2 {
        Some(MacMenuEvent::Cancel)
    } else if command == 3 {
        Some(MacMenuEvent::OpenSettings)
    } else if command == 4 {
        Some(MacMenuEvent::ToggleEnabled)
    } else if command == 5 {
        Some(MacMenuEvent::ToggleStartup)
    } else if command == 6 {
        Some(MacMenuEvent::Permission)
    } else if command == 7 {
        Some(MacMenuEvent::About)
    } else if command == 8 {
        Some(MacMenuEvent::Quit)
    } else {
        None
    }
}

/// The menu or hotkey event behind a native command number.
pub fn command_from_native(command: i32) -> (r: Option<MacMenuEvent>)
    ensures
        r == menu_event_of(command),
{
    if command == 1 {
        Some(MacMenuEvent::Trigger)
    } else if command == 2 {
        Some(MacMenuEvent::Cancel)
    } else if command == 3 {
        Some(MacMenuEvent::OpenSettings)
    } else if command == 4 {
        Some(MacMenuEvent::ToggleEnabled)
    } else if command == 5 {
        Some(MacMenuEvent::ToggleStartup)
    } else if command == 6 {
        Some(MacMenuEvent::Permission)
    } else if command == 7 {
        Some(MacMenuEvent::About)
    } else if command == 8 {
        Some(MacMenuEvent::Quit)
    } else {
        None
    }
}

/// The status item's mode number.
pub fn mac_mode_code(mode: InjectionMode) -> (r: i32)
    ensures
        r == match mode {
            InjectionMode::Keyboard => 0i32,
            InjectionMode::Clipboard => 1i32,
            InjectionMode::Auto => 2i32,
            InjectionMode::Code => 3i32,
        },
{
    match mode {
        InjectionMode::Keyboard => 0,
        InjectionMode::Clipboard => 1,
        InjectionMode::Auto => 2,
        InjectionMode::Code => 3,
    }
}

/// The status item's permission number.
pub fn mac_permission_code(state: AccessibilityPermissionState) -> (r: i32)
    ensures
        r == match state {
            AccessibilityPermissionState::NotRequired => 0i32,
            AccessibilityPermissionState::NotRequested => 1i32,
            AccessibilityPermissionState::NotGranted => 2i32,
            AccessibilityPermissionState::Granted => 3i32,
            AccessibilityPermissionState::Revoked => 4i32,
            AccessibilityPermissionState::Unknown => 5i32,
        },
{
    match state {
        AccessibilityPermissionState::NotRequired => 0,
        AccessibilityPermissionState::NotRequested => 1,
        AccessibilityPermissionState::NotGranted => 2,
        AccessibilityPermissionState::Granted => 3,
        AccessibilityPermissionState::Revoked => 4,
        AccessibilityPermissionState::Unknown => 5,
    }
}

// ---------------------------------------------------------------------------
// Hotkeys.
// ---------------------------------------------------------------------------

pub open spec fn status_availability(status: i32) -> HotkeyAvailability {
    if status == HOTKEY_OK {
        HotkeyAvailability::Available
    } else if status == HOTKEY_CONFLICT {
        HotkeyAvailability::Conflict
    } else if status == HOTKEY_UNSUPPORTED {
        HotkeyAvailability::Unsupported
    } else {
        HotkeyAvailability::Unknown
    }
}

/// What the hotkey helper's status code reports.
pub fn availability_from_status(status: i32) -> (r: HotkeyAvailability)
    ensures
        r == status_availability(status),
{
    if status == HOTKEY_OK {
        HotkeyAvailability::Available
    } else if status == HOTKEY_CONFLICT {
        HotkeyAvailability::Conflict
    } else if status == HOTKEY_UNSUPPORTED {
        HotkeyAvailability::Unsupported
    } else {
        HotkeyAvailability::Unknown
    }
}

/// The virtual key code of a key on macOS; F21 to F24 have none.
pub open spec fn mac_key_code(key: HotkeyKey) -> Option<u16> {
    match key {
        HotkeyKey::A => Some(0u16),
        HotkeyKey::S => Some(1u16),
        HotkeyKey::D => Some(2u16),
        HotkeyKey::F => Some(3u16),
        HotkeyKey::H => Some(4u16),
        HotkeyKey::G => Some(5u16),
        HotkeyKey::Z => Some(6u16),
        HotkeyKey::X => Some(7u16),
        HotkeyKey::C => Some(8u16),
        HotkeyKey::V => Some(9u16),
        HotkeyKey::B => Some(11u16),
        HotkeyKey::Q => Some(12u16),
        HotkeyKey::W => Some(13u16),
        HotkeyKey::E => Some(14u16),
        HotkeyKey::R => Some(15u16),
        HotkeyKey::Y => Some(16u16),
        HotkeyKey::T => Some(17u16),
        HotkeyKey::Digit1 => Some(18u16),
        HotkeyKey::Digit2 => Some(19u16),
        HotkeyKey::Digit3 => Some(20u16),
        HotkeyKey::Digit4 => Some(21u16),
        HotkeyKey::Digit6 => Some(22u16),
        HotkeyKey::Digit5 => Some(23u16),
        HotkeyKey::Equal => Some(24u16),
        HotkeyKey::Digit9 => Some(25u16),
        HotkeyKey::Digit7 => Some(26u16),
        HotkeyKey::Minus => Some(27u16),
        HotkeyKey::Digit8 => Some(28u16),
        HotkeyKey::Digit0 => Some(29u16),
        HotkeyKey::BracketRight => Some(30u16),
        HotkeyKey::O => Some(31u16),
        HotkeyKey::U => Some(32u16),
        HotkeyKey::BracketLeft => Some(33u16),
        HotkeyKey::I => Some(34u16),
        HotkeyKey::P => Some(35u16),
        HotkeyKey::Enter => Some(36u16),
        HotkeyKey::L => Some(37u16),
        HotkeyKey::J => Some(38u16),
        HotkeyKey::Quote => Some(39u16),
        HotkeyKey::K => Some(40u16),
        HotkeyKey::Semicolon => Some(41u16),
        HotkeyKey::Backslash => Some(42u16),
        HotkeyKey::Comma => Some(43u16),
        HotkeyKey::Slash => Some(44u16),
        HotkeyKey::N => Some(45u16),
        HotkeyKey::M => Some(46u16),
        HotkeyKey::Period => Some(47u16),
        HotkeyKey::Tab => Some(48u16),
        HotkeyKey::Space => Some(49u16),
        HotkeyKey::Backquote => Some(50u16),
        HotkeyKey::Backspace => Some(51u16),
        HotkeyKey::Escape => Some(53u16),
        HotkeyKey::F17 => Some(64u16),
        HotkeyKey::F18 => Some(79u16),
        HotkeyKey::F19 => Some(80u16),
        HotkeyKey::F20 => Some(90u16),
        HotkeyKey::F5 => Some(96u16),
        HotkeyKey::F6 => Some(97u16),
        HotkeyKey::F7 => Some(98u16),
        HotkeyKey::F3 => Some(99u16),
        HotkeyKey::F8 => Some(100u16),
        HotkeyKey::F9 => Some(101u16),
        HotkeyKey::F11 => Some(103u16),
        HotkeyKey::F13 => Some(105u16),
        HotkeyKey::F16 => Some(106u16),
        HotkeyKey::F14 => Some(107u16),
        HotkeyKey::F10 => Some(109u16),
        HotkeyKey::F12 => Some(111u16),
        HotkeyKey::F15 => Some(113u16),
        HotkeyKey::Insert => Some(114u16),
        HotkeyKey::Home => Some(115u16),
        HotkeyKey::PageUp => Some(116u16),
        HotkeyKey::Delete => Some(117u16),
        HotkeyKey::F4 => Some(118u16),
        HotkeyKey::End => Some(119u16),
        HotkeyKey::F2 => Some(120u16),
        HotkeyKey::PageDown => Some(121u16),
        HotkeyKey::F1 => Some(122u16),
        HotkeyKey::ArrowLeft => Some(123u16),
        HotkeyKey::ArrowRight => Some(124u16),
        HotkeyKey::ArrowDown => Some(125u16),
        HotkeyKey::ArrowUp => Some(126u16),
        _ => None,
    }
}

/// Every key is registered on macOS under its virtual key code from the
/// ANSI keyboard layout (`kVK_ANSI_A` is 0, `kVK_ANSI_V` 9, `kVK_ANSI_X` 7,
/// `kVK_Return` 36, `kVK_F12` 111, ...); F21 to F24 have none.
pub proof fn law_mac_key_codes_follow_the_ansi_layout()
    ensures
        mac_key_code(HotkeyKey::A) == Some(0u16),
        mac_key_code(HotkeyKey::S) == Some(1u16),
        mac_key_code(HotkeyKey::D) == Some(2u16),
        mac_key_code(HotkeyKey::F) == Some(3u16),
        mac_key_code(HotkeyKey::H) == Some(4u16),
        mac_key_code(HotkeyKey::G) == Some(5u16),
        mac_key_code(HotkeyKey::Z) == Some(6u16),
        mac_key_code(HotkeyKey::X) == Some(7u16),
        mac_key_code(HotkeyKey::C) == Some(8u16),
        mac_key_code(HotkeyKey::V) == Some(9u16),
        mac_key_code(HotkeyKey::B) == Some(11u16),
        mac_key_code(HotkeyKey::Q) == Some(12u16),
        mac_key_code(HotkeyKey::W) == Some(13u16),
        mac_key_code(HotkeyKey::E) == Some(14u16),
        mac_key_code(HotkeyKey::R) == Some(15u16),
        mac_key_code(HotkeyKey::Y) == Some(16u16),
        mac_key_code(HotkeyKey::T) == Some(17u16),
        mac_key_code(HotkeyKey::Digit1) == Some(18u16),
        mac_key_code(HotkeyKey::Digit2) == Some(19u16),
        mac_key_code(HotkeyKey::Digit3) == Some(20u16),
        mac_key_code(HotkeyKey::Digit4) == Some(21u16),
        mac_key_code(HotkeyKey::Digit6) == Some(22u16),
        mac_key_code(HotkeyKey::Digit5) == Some(23u16),
        mac_key_code(HotkeyKey::Equal) == Some(24u16),
        mac_key_code(HotkeyKey::Digit9) == Some(25u16),
        mac_key_code(HotkeyKey::Digit7) == Some(26u16),
        mac_key_code(HotkeyKey::Minus) == Some(27u16),
        mac_key_code(HotkeyKey::Digit8) == Some(28u16),
        mac_key_code(HotkeyKey::Digit0) == Some(29u16),
        mac_key_code(HotkeyKey::BracketRight) == Some(30u16),
        mac_key_code(HotkeyKey::O) == Some(31u16),
        mac_key_code(HotkeyKey::U) == Some(32u16),
        mac_key_code(HotkeyKey::BracketLeft) == Some(33u16),
        mac_key_code(HotkeyKey::I) == Some(34u16),
        mac_key_code(HotkeyKey::P) == Some(35u16),
        mac_key_code(HotkeyKey::Enter) == Some(36u16),
        mac_key_code(HotkeyKey::L) == Some(37u16),
        mac_key_code(HotkeyKey::J) == Some(38u16),
        mac_key_code(HotkeyKey::Quote) == Some(39u16),
        mac_key_code(HotkeyKey::K) == Some(40u16),
        mac_key_code(HotkeyKey::Semicolon) == Some(41u16),
        mac_key_code(HotkeyKey::Backslash) == Some(42u16),
        mac_key_code(HotkeyKey::Comma) == Some(43u16),
        mac_key_code(HotkeyKey::Slash) == Some(44u16),
        mac_key_code(HotkeyKey::N) == Some(45u16),
        mac_key_code(HotkeyKey::M) == Some(46u16),
        mac_key_code(HotkeyKey::Period) == Some(47u16),
        mac_key_code(HotkeyKey::Tab) == Some(48u16),
        mac_key_code(HotkeyKey::Space) == Some(49u16),
        mac_key_code(HotkeyKey::Backquote) == Some(50u16),
        mac_key_code(HotkeyKey::Backspace) == Some(51u16),
        mac_key_code(HotkeyKey::Escape) == Some(53u16),
        mac_key_code(HotkeyKey::F17) == Some(64u16),
        mac_key_code(HotkeyKey::F18) == Some(79u16),
        mac_key_code(HotkeyKey::F19) == Some(80u16),
        mac_key_code(HotkeyKey::F20) == Some(90u16),
        mac_key_code(HotkeyKey::F5) == Some(96u16),
        mac_key_code(HotkeyKey::F6) == Some(97u16),
        mac_key_code(HotkeyKey::F7) == Some(98u16),
        mac_key_code(HotkeyKey::F3) == Some(99u16),
        mac_key_code(HotkeyKey::F8) == Some(100u16),
        mac_key_code(HotkeyKey::F9) == Some(101u16),
        mac_key_code(HotkeyKey::F11) == Some(103u16),
        mac_key_code(HotkeyKey::F13) == Some(105u16),
        mac_key_code(HotkeyKey::F16) == Some(106u16),
        mac_key_code(HotkeyKey::F14) == Some(107u16),
        mac_key_code(HotkeyKey::F10) == Some(109u16),
        mac_key_code(HotkeyKey::F12) == Some(111u16),
        mac_key_code(HotkeyKey::F15) == Some(113u16),
        mac_key_code(HotkeyKey::Insert) == Some(114u16),
        mac_key_code(HotkeyKey::Home) == Some(115u16),
        mac_key_code(HotkeyKey::PageUp) == Some(116u16),
        mac_key_code(HotkeyKey::Delete) == Some(117u16),
        mac_key_code(HotkeyKey::F4) == Some(118u16),
        mac_key_code(HotkeyKey::End) == Some(119u16),
        mac_key_code(HotkeyKey::F2) == Some(120u16),
        mac_key_code(HotkeyKey::PageDown) == Some(121u16),
        mac_key_code(HotkeyKey::F1) == Some(122u16),
        mac_key_code(HotkeyKey::ArrowLeft) == Some(123u16),
        mac_key_code(HotkeyKey::ArrowRight) == Some(124u16),
        mac_key_code(HotkeyKey::ArrowDown) == Some(125u16),
        mac_key_code(HotkeyKey::ArrowUp) == Some(126u16),
        mac_key_code(HotkeyKey::F21) is None,
        mac_key_code(HotkeyKey::F22) is None,
        mac_key_code(HotkeyKey::F23) is None,
        mac_key_code(HotkeyKey::F24) is None,
{
}

proof fn lemma_modifier_bit_values(c: bool, a: bool, sh: bool, w: bool, v: u8)
    by (bit_vector)
    requires
        v == (if c { 1u8 } else { 0u8 }) + (if a { 2u8 } else { 0u8 }) + (if sh { 4u8 } else { 0u8 })
            + (if w { 8u8 } else { 0u8 }),
    ensures
        (v & 1u8 != 0) == c,
        (v & 2u8 != 0) == a,
        (v & 4u8 != 0) == sh,
        (v & 8u8 != 0) == w,
        v < 16,
{
}

/// A shortcut registered on macOS carries the modifier bits Control 1,
/// Option 2, Shift 4 and Command 8, exactly for the modifiers it holds, and
/// the key code of its key: Ctrl+Alt+Shift+V goes out as key code 9 with
/// bits 7.
pub proof fn law_mac_registration_carries_key_and_modifiers(spec: HotkeySpec)
    ensures
        ({
            let bits = spec.modifiers.spec_bits();
            &&& (bits & 1u8 != 0) == spec.modifiers.spec_control()
            &&& (bits & 2u8 != 0) == spec.modifiers.spec_alt()
            &&& (bits & 4u8 != 0) == spec.modifiers.spec_shift()
            &&& (bits & 8u8 != 0) == spec.modifiers.spec_meta()
            &&& bits < 16
        }),
        spec.key == HotkeyKey::V ==> mac_key_code(spec.key) == Some(9u16),
        spec.key == HotkeyKey::X ==> mac_key_code(spec.key) == Some(7u16),
{
    let m = spec.modifiers;
    lemma_modifier_bit_values(m.spec_control(), m.spec_alt(), m.spec_shift(), m.spec_meta(), m.spec_bits());
}

/// The key code and modifier bits registered for a shortcut.
pub fn native_hotkey(spec: HotkeySpec) -> (r: Result<(u16, u8), HotkeyAvailability>)
    ensures
        r == match mac_key_code(spec.key) {
            Some(code) => Ok::<(u16, u8), HotkeyAvailability>((code, spec.modifiers.spec_bits())),
            None => Err(HotkeyAvailability::Unsupported),
        },
{
    let code: u16 = match spec.key {
        HotkeyKey::A => 0u16,
        HotkeyKey::S => 1u16,
        HotkeyKey::D => 2u16,
        HotkeyKey::F => 3u16,
        HotkeyKey::H => 4u16,
        HotkeyKey::G => 5u16,
        HotkeyKey::Z => 6u16,
        HotkeyKey::X => 7u16,
        HotkeyKey::C => 8u16,
        HotkeyKey::V => 9u16,
        HotkeyKey::B => 11u16,
        HotkeyKey::Q => 12u16,
        HotkeyKey::W => 13u16,
        HotkeyKey::E => 14u16,
        HotkeyKey::R => 15u16,
        HotkeyKey::Y => 16u16,
        HotkeyKey::T => 17u16,
        HotkeyKey::Digit1 => 18u16,
        HotkeyKey::Digit2 => 19u16,
        HotkeyKey::Digit3 => 20u16,
        HotkeyKey::Digit4 => 21u16,
        HotkeyKey::Digit6 => 22u16,
        HotkeyKey::Digit5 => 23u16,
        HotkeyKey::Equal => 24u16,
        HotkeyKey::Digit9 => 25u16,
        HotkeyKey::Digit7 => 26u16,
        HotkeyKey::Minus => 27u16,
        HotkeyKey::Digit8 => 28u16,
        HotkeyKey::Digit0 => 29u16,
        HotkeyKey::BracketRight => 30u16,
        HotkeyKey::O => 31u16,
        HotkeyKey::U => 32u16,
        HotkeyKey::BracketLeft => 33u16,
        HotkeyKey::I => 34u16,
        HotkeyKey::P => 35u16,
        HotkeyKey::Enter => 36u16,
        HotkeyKey::L => 37u16,
        HotkeyKey::J => 38u16,
        HotkeyKey::Quote => 39u16,
        HotkeyKey::K => 40u16,
        HotkeyKey::Semicolon => 41u16,
        HotkeyKey::Backslash => 42u16,
        HotkeyKey::Comma => 43u16,
        HotkeyKey::Slash => 44u16,
        HotkeyKey::N => 45u16,
        HotkeyKey::M => 46u16,
        HotkeyKey::Period => 47u16,
        HotkeyKey::Tab => 48u16,
        HotkeyKey::Space => 49u16,
        HotkeyKey::Backquote => 50u16,
        HotkeyKey::Backspace => 51u16,
        HotkeyKey::Escape => 53u16,
        HotkeyKey::F17 => 64u16,
        HotkeyKey::F18 => 79u16,
        HotkeyKey::F19 => 80u16,
        HotkeyKey::F20 => 90u16,
        HotkeyKey::F5 => 96u16,
        HotkeyKey::F6 => 97u16,
        HotkeyKey::F7 => 98u16,
        HotkeyKey::F3 => 99u16,
        HotkeyKey::F8 => 100u16,
        HotkeyKey::F9 => 101u16,
        HotkeyKey::F11 => 103u16,
        HotkeyKey::F13 => 105u16,
        HotkeyKey::F16 => 106u16,
        HotkeyKey::F14 => 107u16,
        HotkeyKey::F10 => 109u16,
        HotkeyKey::F12 => 111u16,
        HotkeyKey::F15 => 113u16,
        HotkeyKey::Insert => 114u16,
        HotkeyKey::Home => 115u16,
        HotkeyKey::PageUp => 116u16,
        HotkeyKey::Delete => 117u16,
        HotkeyKey::F4 => 118u16,
        HotkeyKey::End => 119u16,
        HotkeyKey::F2 => 120u16,
        HotkeyKey::PageDown => 121u16,
        HotkeyKey::F1 => 122u16,
        HotkeyKey::ArrowLeft => 123u16,
        HotkeyKey::ArrowRight => 124u16,
        HotkeyKey::ArrowDown => 125u16,
        HotkeyKey::ArrowUp => 126u16,
        _ => return Err(HotkeyAvailability::Unsupported),
    };
    Ok((code, spec.modifiers.bits()))
}

pub open spec fn mac_pair_check(pair: HotkeyPair) -> Result<HotkeyPair, HotkeyAvailability> {
    match pair.platform_violation(HotkeyPlatform::MacOS) {
        Some(HotkeyValidationError::Reserved) => Err(HotkeyAvailability::Reserved),
        Some(_) => Err(HotkeyAvailability::Unsupported),
        None => Ok(pair),
    }
}

/// A pair valid on macOS, or how it is reported.
pub fn mac_validate_pair(pair: HotkeyPair) -> (r: Result<HotkeyPair, HotkeyAvailability>)
    ensures
        r == mac_pair_check(pair),
{
    match pair.validate_for(HotkeyPlatform::MacOS) {
        Ok(p) => Ok(p),
        Err(HotkeyValidationError::Reserved) => Err(HotkeyAvailability::Reserved),
        Err(_) => Err(HotkeyAvailability::Unsupported),
    }
}

/// The helper's arguments for a pair: both shortcuts valid on macOS and with a
/// key code.
pub fn mac_pair_arguments(pair: HotkeyPair) -> (r: Result<((u16, u8), (u16, u8)), HotkeyAvailability>)
    ensures
        r == match mac_pair_check(pair) {
            Err(a) => Err(a),
            Ok(p) => match (mac_key_code(p.trigger.key), mac_key_code(p.cancel.key)) {
                (Some(t), Some(c)) => Ok::<((u16, u8), (u16, u8)), HotkeyAvailability>(
                    ((t, p.trigger.modifiers.spec_bits()), (c, p.cancel.modifiers.spec_bits())),
                ),
                _ => Err(HotkeyAvailability::Unsupported),
            },
        },
{
    let p = match mac_validate_pair(pair) {
        Ok(p) => p,
        Err(a) => return Err(a),
    };
    let t = match native_hotkey(p.trigger) {
        Ok(t) => t,
        Err(a) => return Err(a),
    };
    let c = match native_hotkey(p.cancel) {
        Ok(c) => c,
        Err(a) => return Err(a),
    };
    Ok((t, c))
}

/// Whether a replacement may go ahead after its probe: only an available
/// pair is registered; anything else is rejected as it was reported.
pub fn mac_replace_gate(probe: HotkeyAvailability) -> (r: Result<(), HotkeyApplyResult>)
    ensures
        probe == HotkeyAvailability::Available ==> r == Ok::<(), HotkeyApplyResult>(()),
        probe != HotkeyAvailability::Available ==> r == Err::<(), HotkeyApplyResult>(
            HotkeyApplyResult::Rejected(probe),
        ),
{
    match probe {
        HotkeyAvailability::Available => Ok(()),
        _ => Err(HotkeyApplyResult::Rejected(probe)),
    }
}

/// The active pair and result after the helper's replacement: the candidate
/// only on success; otherwise the helper rolled back to the current pair.
pub fn mac_replace_result(current: HotkeyPair, candidate: HotkeyPair, status: i32) -> (r: (
    HotkeyPair,
    HotkeyApplyResult,
))
    ensures
        status == HOTKEY_OK ==> r == (candidate, HotkeyApplyResult::Applied),
        status != HOTKEY_OK ==> r == (
            current,
            HotkeyApplyResult::RolledBack(status_availability(status)),
        ),
{
    if status == HOTKEY_OK {
        (candidate, HotkeyApplyResult::Applied)
    } else {
        (current, HotkeyApplyResult::RolledBack(availability_from_status(status)))
    }
}

/// The initial registration's result.
pub fn mac_initial_result(status: i32) -> (r: Result<(), HotkeyAvailability>)
    ensures
        status == HOTKEY_OK ==> r == Ok::<(), HotkeyAvailability>(()),
        status != HOTKEY_OK ==> r == Err::<(), HotkeyAvailability>(status_availability(status)),
{
    if status == HOTKEY_OK {
        Ok(())
    } else {
        Err(availability_from_status(status))
    }
}

} // verus!
