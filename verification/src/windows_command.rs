//! The Windows shortcut owner: message decoding, hotkey translation, and the
//! registration transactions that probe or replace the active pair without a
//! gap. The owner thread performs each native call that a transaction asks
//! for and hands its result back.
use vstd::prelude::*;

use crate::hotkey::{
    HotkeyApplyResult, HotkeyAvailability, HotkeyKey, HotkeyPair, HotkeyPlatform, HotkeySpec,
    HotkeyValidationError,
};
use crate::platform::{
    CommandEvent, CommandSourceError, CommandSourceErrorKind, HotkeyControlError,
    HotkeyControlErrorKind, NativeError, NativeErrorKind,
};

verus! {

// Application hotkey identifiers stay in 0x0000..=0xBFFF. Separate primary and
// secondary ids let a changed binding be secured before its old one is released.
pub const TRIGGER_PRIMARY_ID: i32 = 0x4351;
pub const TRIGGER_SECONDARY_ID: i32 = 0x4352;
pub const CANCEL_PRIMARY_ID: i32 = 0x4353;
pub const CANCEL_SECONDARY_ID: i32 = 0x4354;
pub const PROBE_TRIGGER_ID: i32 = 0x4355;
pub const PROBE_CANCEL_ID: i32 = 0x4356;

pub const MOD_ALT: u32 = 0x0001;
pub const MOD_CONTROL: u32 = 0x0002;
pub const MOD_SHIFT: u32 = 0x0004;
pub const MOD_WIN: u32 = 0x0008;
pub const MOD_NOREPEAT: u32 = 0x4000;

pub const WM_QUIT: u32 = 0x0012;
pub const WM_HOTKEY: u32 = 0x0312;
pub const WM_APP: u32 = 0x8000;
pub const WM_CLIPTYPE_SHUTDOWN: u32 = WM_APP + 0x4354;
pub const WM_CLIPTYPE_CONTROL: u32 = WM_APP + 0x4355;
pub const ERROR_HOTKEY_ALREADY_REGISTERED: u32 = 1409;

/// Human-readable default trigger binding.
pub const TRIGGER_HOTKEY: &'static str = "Ctrl+Alt+Shift+V";
/// Human-readable default cancel binding.
pub const CANCEL_HOTKEY: &'static str = "Ctrl+Alt+Shift+X";

// ---------------------------------------------------------------------------
// Translation to RegisterHotKey arguments.
// ---------------------------------------------------------------------------

pub open spec fn spec_virtual_key(key: HotkeyKey) -> u32 {
    match key {
        HotkeyKey::A => 0x41,
        HotkeyKey::B => 0x42,
        HotkeyKey::C => 0x43,
        HotkeyKey::D => 0x44,
        HotkeyKey::E => 0x45,
        HotkeyKey::F => 0x46,
        HotkeyKey::G => 0x47,
        HotkeyKey::H => 0x48,
        HotkeyKey::I => 0x49,
        HotkeyKey::J => 0x4A,
        HotkeyKey::K => 0x4B,
        HotkeyKey::L => 0x4C,
        HotkeyKey::M => 0x4D,
        HotkeyKey::N => 0x4E,
        HotkeyKey::O => 0x4F,
        HotkeyKey::P => 0x50,
        HotkeyKey::Q => 0x51,
        HotkeyKey::R => 0x52,
        HotkeyKey::S => 0x53,
        HotkeyKey::T => 0x54,
        HotkeyKey::U => 0x55,
        HotkeyKey::V => 0x56,
        HotkeyKey::W => 0x57,
        HotkeyKey::X => 0x58,
        HotkeyKey::Y => 0x59,
        HotkeyKey::Z => 0x5A,
        HotkeyKey::Digit0 => 0x30,
        HotkeyKey::Digit1 => 0x31,
        HotkeyKey::Digit2 => 0x32,
        HotkeyKey::Digit3 => 0x33,
        HotkeyKey::Digit4 => 0x34,
        HotkeyKey::Digit5 => 0x35,
        HotkeyKey::Digit6 => 0x36,
        HotkeyKey::Digit7 => 0x37,
        HotkeyKey::Digit8 => 0x38,
        HotkeyKey::Digit9 => 0x39,
        HotkeyKey::F1 => 0x70,
        HotkeyKey::F2 => 0x71,
        HotkeyKey::F3 => 0x72,
        HotkeyKey::F4 => 0x73,
        HotkeyKey::F5 => 0x74,
        HotkeyKey::F6 => 0x75,
        HotkeyKey::F7 => 0x76,
        HotkeyKey::F8 => 0x77,
        HotkeyKey::F9 => 0x78,
        HotkeyKey::F10 => 0x79,
        HotkeyKey::F11 => 0x7A,
        HotkeyKey::F12 => 0x7B,
        HotkeyKey::F13 => 0x7C,
        HotkeyKey::F14 => 0x7D,
        HotkeyKey::F15 => 0x7E,
        HotkeyKey::F16 => 0x7F,
        HotkeyKey::F17 => 0x80,
        HotkeyKey::F18 => 0x81,
        HotkeyKey::F19 => 0x82,
        HotkeyKey::F20 => 0x83,
        HotkeyKey::F21 => 0x84,
        HotkeyKey::F22 => 0x85,
        HotkeyKey::F23 => 0x86,
        HotkeyKey::F24 => 0x87,
        HotkeyKey::Space => 0x20,
        HotkeyKey::Tab => 0x09,
        HotkeyKey::Enter => 0x0D,
        HotkeyKey::Escape => 0x1B,
        HotkeyKey::Backspace => 0x08,
        HotkeyKey::Insert => 0x2D,
        HotkeyKey::Delete => 0x2E,
        HotkeyKey::Home => 0x24,
        HotkeyKey::End => 0x23,
        HotkeyKey::PageUp => 0x21,
        HotkeyKey::PageDown => 0x22,
        HotkeyKey::ArrowLeft => 0x25,
        HotkeyKey::ArrowUp => 0x26,
        HotkeyKey::ArrowRight => 0x27,
        HotkeyKey::ArrowDown => 0x28,
        HotkeyKey::Minus => 0xBD,
        HotkeyKey::Equal => 0xBB,
        HotkeyKey::BracketLeft => 0xDB,
        HotkeyKey::BracketRight => 0xDD,
        HotkeyKey::Backslash => 0xDC,
        HotkeyKey::Semicolon => 0xBA,
        HotkeyKey::Quote => 0xDE,
        HotkeyKey::Comma => 0xBC,
        HotkeyKey::Period => 0xBE,
        HotkeyKey::Slash => 0xBF,
        HotkeyKey::Backquote => 0xC0,
    }
}

/// The Windows virtual-key code of a key.
pub fn virtual_key(key: HotkeyKey) -> (r: u32)
    ensures
        r == spec_virtual_key(key),
{
    match key {
        HotkeyKey::A => 0x41,
        HotkeyKey::B => 0x42,
        HotkeyKey::C => 0x43,
        HotkeyKey::D => 0x44,
        HotkeyKey::E => 0x45,
        HotkeyKey::F => 0x46,
        HotkeyKey::G => 0x47,
        HotkeyKey::H => 0x48,
        HotkeyKey::I => 0x49,
        HotkeyKey::J => 0x4A,
        HotkeyKey::K => 0x4B,
        HotkeyKey::L => 0x4C,
        HotkeyKey::M => 0x4D,
        HotkeyKey::N => 0x4E,
        HotkeyKey::O => 0x4F,
        HotkeyKey::P => 0x50,
        HotkeyKey::Q => 0x51,
        HotkeyKey::R => 0x52,
        HotkeyKey::S => 0x53,
        HotkeyKey::T => 0x54,
        HotkeyKey::U => 0x55,
        HotkeyKey::V => 0x56,
        HotkeyKey::W => 0x57,
        HotkeyKey::X => 0x58,
        HotkeyKey::Y => 0x59,
        HotkeyKey::Z => 0x5A,
        HotkeyKey::Digit0 => 0x30,
        HotkeyKey::Digit1 => 0x31,
        HotkeyKey::Digit2 => 0x32,
        HotkeyKey::Digit3 => 0x33,
        HotkeyKey::Digit4 => 0x34,
        HotkeyKey::Digit5 => 0x35,
        HotkeyKey::Digit6 => 0x36,
        HotkeyKey::Digit7 => 0x37,
        HotkeyKey::Digit8 => 0x38,
        HotkeyKey::Digit9 => 0x39,
        HotkeyKey::F1 => 0x70,
        HotkeyKey::F2 => 0x71,
        HotkeyKey::F3 => 0x72,
        HotkeyKey::F4 => 0x73,
        HotkeyKey::F5 => 0x74,
        HotkeyKey::F6 => 0x75,
        HotkeyKey::F7 => 0x76,
        HotkeyKey::F8 => 0x77,
        HotkeyKey::F9 => 0x78,
        HotkeyKey::F10 => 0x79,
        HotkeyKey::F11 => 0x7A,
        HotkeyKey::F12 => 0x7B,
        HotkeyKey::F13 => 0x7C,
        HotkeyKey::F14 => 0x7D,
        HotkeyKey::F15 => 0x7E,
        HotkeyKey::F16 => 0x7F,
        HotkeyKey::F17 => 0x80,
        HotkeyKey::F18 => 0x81,
        HotkeyKey::F19 => 0x82,
        HotkeyKey::F20 => 0x83,
        HotkeyKey::F21 => 0x84,
        HotkeyKey::F22 => 0x85,
        HotkeyKey::F23 => 0x86,
        HotkeyKey::F24 => 0x87,
        HotkeyKey::Space => 0x20,
        HotkeyKey::Tab => 0x09,
        HotkeyKey::Enter => 0x0D,
        HotkeyKey::Escape => 0x1B,
        HotkeyKey::Backspace => 0x08,
        HotkeyKey::Insert => 0x2D,
        HotkeyKey::Delete => 0x2E,
        HotkeyKey::Home => 0x24,
        HotkeyKey::End => 0x23,
        HotkeyKey::PageUp => 0x21,
        HotkeyKey::PageDown => 0x22,
        HotkeyKey::ArrowLeft => 0x25,
        HotkeyKey::ArrowUp => 0x26,
        HotkeyKey::ArrowRight => 0x27,
        HotkeyKey::ArrowDown => 0x28,
        HotkeyKey::Minus => 0xBD,
        HotkeyKey::Equal => 0xBB,
        HotkeyKey::BracketLeft => 0xDB,
        HotkeyKey::BracketRight => 0xDD,
        HotkeyKey::Backslash => 0xDC,
        HotkeyKey::Semicolon => 0xBA,
        HotkeyKey::Quote => 0xDE,
        HotkeyKey::Comma => 0xBC,
        HotkeyKey::Period => 0xBE,
        HotkeyKey::Slash => 0xBF,
        HotkeyKey::Backquote => 0xC0,
    }
}

/// `MOD_NOREPEAT` plus one distinct bit per held modifier.
pub open spec fn modifier_flags(spec: HotkeySpec) -> u32 {
    let m = spec.modifiers;
    (MOD_NOREPEAT + (if m.spec_control() { MOD_CONTROL } else { 0 }) + (if m.spec_alt() {
        MOD_ALT
    } else {
        0
    }) + (if m.spec_shift() { MOD_SHIFT } else { 0 }) + (if m.spec_meta() {
        MOD_WIN
    } else {
        0
    })) as u32
}

pub open spec fn invalid_binding_error() -> CommandSourceError {
    CommandSourceError { kind: CommandSourceErrorKind::InvalidBinding, native: None }
}

pub fn invalid_binding() -> (r: CommandSourceError)
    ensures
        r == invalid_binding_error(),
{
    CommandSourceError::new(CommandSourceErrorKind::InvalidBinding, None)
}

/// The `(modifiers, virtual key)` arguments for a shortcut valid on Windows.
pub open spec fn chord_of(spec: HotkeySpec) -> Result<(u32, u32), CommandSourceError> {
    match spec.platform_violation(HotkeyPlatform::Windows) {
        Some(_) => Err(invalid_binding_error()),
        None => Ok((modifier_flags(spec), spec_virtual_key(spec.key))),
    }
}

pub fn translate_hotkey(spec: HotkeySpec) -> (r: Result<(u32, u32), CommandSourceError>)
    ensures
        r == chord_of(spec),
{
    match spec.validate_for(HotkeyPlatform::Windows) {
        Ok(_) => {},
        Err(_) => return Err(invalid_binding()),
    }
    let mut modifiers: u32 = MOD_NOREPEAT;
    if spec.modifiers.control() {
        modifiers = modifiers + MOD_CONTROL;
    }
    if spec.modifiers.alt() {
        modifiers = modifiers + MOD_ALT;
    }
    if spec.modifiers.shift() {
        modifiers = modifiers + MOD_SHIFT;
    }
    if spec.modifiers.meta() {
        modifiers = modifiers + MOD_WIN;
    }
    Ok((modifiers, virtual_key(spec.key)))
}

/// Every key is registered on Windows under its documented virtual-key
/// code: letters and digits under their uppercase ASCII codes (`V` 0x56,
/// `K` 0x4B, `0` 0x30), F1 to F24 under 0x70 to 0x87, and the named keys
/// under their `VK_*` values.
pub proof fn law_windows_virtual_keys_are_documented()
    ensures
        spec_virtual_key(HotkeyKey::A) == 0x41u32,
        spec_virtual_key(HotkeyKey::B) == 0x42u32,
        spec_virtual_key(HotkeyKey::C) == 0x43u32,
        spec_virtual_key(HotkeyKey::D) == 0x44u32,
        spec_virtual_key(HotkeyKey::E) == 0x45u32,
        spec_virtual_key(HotkeyKey::F) == 0x46u32,
        spec_virtual_key(HotkeyKey::G) == 0x47u32,
        spec_virtual_key(HotkeyKey::H) == 0x48u32,
        spec_virtual_key(HotkeyKey::I) == 0x49u32,
        spec_virtual_key(HotkeyKey::J) == 0x4Au32,
        spec_virtual_key(HotkeyKey::K) == 0x4Bu32,
        spec_virtual_key(HotkeyKey::L) == 0x4Cu32,
        spec_virtual_key(HotkeyKey::M) == 0x4Du32,
        spec_virtual_key(HotkeyKey::N) == 0x4Eu32,
        spec_virtual_key(HotkeyKey::O) == 0x4Fu32,
        spec_virtual_key(HotkeyKey::P) == 0x50u32,
        spec_virtual_key(HotkeyKey::Q) == 0x51u32,
        spec_virtual_key(HotkeyKey::R) == 0x52u32,
        spec_virtual_key(HotkeyKey::S) == 0x53u32,
        spec_virtual_key(HotkeyKey::T) == 0x54u32,
        spec_virtual_key(HotkeyKey::U) == 0x55u32,
        spec_virtual_key(HotkeyKey::V) == 0x56u32,
        spec_virtual_key(HotkeyKey::W) == 0x57u32,
        spec_virtual_key(HotkeyKey::X) == 0x58u32,
        spec_virtual_key(HotkeyKey::Y) == 0x59u32,
        spec_virtual_key(HotkeyKey::Z) == 0x5Au32,
        spec_virtual_key(HotkeyKey::Digit0) == 0x30u32,
        spec_virtual_key(HotkeyKey::Digit1) == 0x31u32,
        spec_virtual_key(HotkeyKey::Digit2) == 0x32u32,
        spec_virtual_key(HotkeyKey::Digit3) == 0x33u32,
        spec_virtual_key(HotkeyKey::Digit4) == 0x34u32,
        spec_virtual_key(HotkeyKey::Digit5) == 0x35u32,
        spec_virtual_key(HotkeyKey::Digit6) == 0x36u32,
        spec_virtual_key(HotkeyKey::Digit7) == 0x37u32,
        spec_virtual_key(HotkeyKey::Digit8) == 0x38u32,
        spec_virtual_key(HotkeyKey::Digit9) == 0x39u32,
        spec_virtual_key(HotkeyKey::F1) == 0x70u32,
        spec_virtual_key(HotkeyKey::F2) == 0x71u32,
        spec_virtual_key(HotkeyKey::F3) == 0x72u32,
        spec_virtual_key(HotkeyKey::F4) == 0x73u32,
        spec_virtual_key(HotkeyKey::F5) == 0x74u32,
        spec_virtual_key(HotkeyKey::F6) == 0x75u32,
        spec_virtual_key(HotkeyKey::F7) == 0x76u32,
        spec_virtual_key(HotkeyKey::F8) == 0x77u32,
        spec_virtual_key(HotkeyKey::F9) == 0x78u32,
        spec_virtual_key(HotkeyKey::F10) == 0x79u32,
        spec_virtual_key(HotkeyKey::F11) == 0x7Au32,
        spec_virtual_key(HotkeyKey::F12) == 0x7Bu32,
        spec_virtual_key(HotkeyKey::F13) == 0x7Cu32,
        spec_virtual_key(HotkeyKey::F14) == 0x7Du32,
        spec_virtual_key(HotkeyKey::F15) == 0x7Eu32,
        spec_virtual_key(HotkeyKey::F16) == 0x7Fu32,
        spec_virtual_key(HotkeyKey::F17) == 0x80u32,
        spec_virtual_key(HotkeyKey::F18) == 0x81u32,
        spec_virtual_key(HotkeyKey::F19) == 0x82u32,
        spec_virtual_key(HotkeyKey::F20) == 0x83u32,
        spec_virtual_key(HotkeyKey::F21) == 0x84u32,
        spec_virtual_key(HotkeyKey::F22) == 0x85u32,
        spec_virtual_key(HotkeyKey::F23) == 0x86u32,
        spec_virtual_key(HotkeyKey::F24) == 0x87u32,
        spec_virtual_key(HotkeyKey::Space) == 0x20u32,
        spec_virtual_key(HotkeyKey::Tab) == 0x09u32,
        spec_virtual_key(HotkeyKey::Enter) == 0x0Du32,
        spec_virtual_key(HotkeyKey::Escape) == 0x1Bu32,
        spec_virtual_key(HotkeyKey::Backspace) == 0x08u32,
        spec_virtual_key(HotkeyKey::Insert) == 0x2Du32,
        spec_virtual_key(HotkeyKey::Delete) == 0x2Eu32,
        spec_virtual_key(HotkeyKey::Home) == 0x24u32,
        spec_virtual_key(HotkeyKey::End) == 0x23u32,
        spec_virtual_key(HotkeyKey::PageUp) == 0x21u32,
        spec_virtual_key(HotkeyKey::PageDown) == 0x22u32,
        spec_virtual_key(HotkeyKey::ArrowLeft) == 0x25u32,
        spec_virtual_key(HotkeyKey::ArrowUp) == 0x26u32,
        spec_virtual_key(HotkeyKey::ArrowRight) == 0x27u32,
        spec_virtual_key(HotkeyKey::ArrowDown) == 0x28u32,
        spec_virtual_key(HotkeyKey::Minus) == 0xBDu32,
        spec_virtual_key(HotkeyKey::Equal) == 0xBBu32,
        spec_virtual_key(HotkeyKey::BracketLeft) == 0xDBu32,
        spec_virtual_key(HotkeyKey::BracketRight) == 0xDDu32,
        spec_virtual_key(HotkeyKey::Backslash) == 0xDCu32,
        spec_virtual_key(HotkeyKey::Semicolon) == 0xBAu32,
        spec_virtual_key(HotkeyKey::Quote) == 0xDEu32,
        spec_virtual_key(HotkeyKey::Comma) == 0xBCu32,
        spec_virtual_key(HotkeyKey::Period) == 0xBEu32,
        spec_virtual_key(HotkeyKey::Slash) == 0xBFu32,
        spec_virtual_key(HotkeyKey::Backquote) == 0xC0u32,
{
}

proof fn lemma_flag_bits(c: bool, a: bool, sh: bool, w: bool, v: u32)
    by (bit_vector)
    requires
        v == 0x4000u32 + (if c { 2u32 } else { 0u32 }) + (if a { 1u32 } else { 0u32 }) + (if sh {
            4u32
        } else {
            0u32
        }) + (if w { 8u32 } else { 0u32 }),
    ensures
        (v & 0x0002u32 != 0) == c,
        (v & 0x0001u32 != 0) == a,
        (v & 0x0004u32 != 0) == sh,
        (v & 0x0008u32 != 0) == w,
        v & 0x4000u32 != 0,
        v & !0x400Fu32 == 0,
{
}

/// The modifier flags handed to `RegisterHotKey` hold MOD_CONTROL (2)
/// exactly when the shortcut holds Control, MOD_ALT (1) exactly for Alt,
/// MOD_SHIFT (4) for Shift and MOD_WIN (8) for Meta, always MOD_NOREPEAT
/// (0x4000), and nothing else; a shortcut is translated exactly when it is
/// valid on Windows.
pub proof fn law_translated_flags_follow_modifiers(spec: HotkeySpec)
    ensures
        chord_of(spec) is Ok <==> spec.platform_violation(HotkeyPlatform::Windows) is None,
        chord_of(spec) matches Ok((flags, _)) ==> {
            &&& (flags & 0x0002u32 != 0) == spec.modifiers.spec_control()
            &&& (flags & 0x0001u32 != 0) == spec.modifiers.spec_alt()
            &&& (flags & 0x0004u32 != 0) == spec.modifiers.spec_shift()
            &&& (flags & 0x0008u32 != 0) == spec.modifiers.spec_meta()
            &&& flags & 0x4000u32 != 0
            &&& flags & !0x400Fu32 == 0
        },
{
    let m = spec.modifiers;
    let v = modifier_flags(spec);
    lemma_flag_bits(m.spec_control(), m.spec_alt(), m.spec_shift(), m.spec_meta(), v);
}

// ---------------------------------------------------------------------------
// Error mappings.
// ---------------------------------------------------------------------------

pub open spec fn validation_availability(error: HotkeyValidationError) -> HotkeyAvailability {
    match error {
        HotkeyValidationError::Reserved => HotkeyAvailability::Reserved,
        _ => HotkeyAvailability::Unsupported,
    }
}

/// A pair valid for Windows, or what it would be reported as.
pub open spec fn candidate_check(pair: HotkeyPair) -> Result<HotkeyPair, HotkeyAvailability> {
    match pair.platform_violation(HotkeyPlatform::Windows) {
        Some(e) => Err(validation_availability(e)),
        None => Ok(pair),
    }
}

pub fn validate_candidate(pair: HotkeyPair) -> (r: Result<HotkeyPair, HotkeyAvailability>)
    ensures
        r == candidate_check(pair),
{
    match pair.validate_for(HotkeyPlatform::Windows) {
        Ok(p) => Ok(p),
        Err(error) => Err(
            match error {
                HotkeyValidationError::Reserved => HotkeyAvailability::Reserved,
                HotkeyValidationError::Unsupported => HotkeyAvailability::Unsupported,
                HotkeyValidationError::MissingPrimaryModifier => HotkeyAvailability::Unsupported,
                HotkeyValidationError::DuplicatePair => HotkeyAvailability::Unsupported,
            },
        ),
    }
}

/// A candidate that moves one active chord to the other role: `RegisterHotKey`
/// cannot hold one chord under two ids, so such a change cannot be made
/// without a gap.
pub open spec fn spec_is_cross_swap(current: HotkeyPair, candidate: HotkeyPair) -> bool {
    (candidate.trigger == current.cancel && candidate.trigger != current.trigger) || (
    candidate.cancel == current.trigger && candidate.cancel != current.cancel)
}

pub fn is_cross_swap(current: HotkeyPair, candidate: HotkeyPair) -> (r: bool)
    ensures
        r == spec_is_cross_swap(current, candidate),
{
    (candidate.trigger == current.cancel && candidate.trigger != current.trigger) || (
    candidate.cancel == current.trigger && candidate.cancel != current.cancel)
}

pub open spec fn spec_alternate_trigger_id(current: i32) -> i32 {
    if current == TRIGGER_PRIMARY_ID {
        TRIGGER_SECONDARY_ID
    } else {
        TRIGGER_PRIMARY_ID
    }
}

pub fn alternate_trigger_id(current: i32) -> (r: i32)
    ensures
        r == spec_alternate_trigger_id(current),
{
    if current == TRIGGER_PRIMARY_ID {
        TRIGGER_SECONDARY_ID
    } else {
        TRIGGER_PRIMARY_ID
    }
}

pub open spec fn spec_alternate_cancel_id(current: i32) -> i32 {
    if current == CANCEL_PRIMARY_ID {
        CANCEL_SECONDARY_ID
    } else {
        CANCEL_PRIMARY_ID
    }
}

pub fn alternate_cancel_id(current: i32) -> (r: i32)
    ensures
        r == spec_alternate_cancel_id(current),
{
    if current == CANCEL_PRIMARY_ID {
        CANCEL_SECONDARY_ID
    } else {
        CANCEL_PRIMARY_ID
    }
}

pub open spec fn availability_command_error(availability: HotkeyAvailability) -> CommandSourceError {
    CommandSourceError {
        kind: match availability {
            HotkeyAvailability::Conflict => CommandSourceErrorKind::RegistrationConflict,
            HotkeyAvailability::Reserved => CommandSourceErrorKind::RegistrationConflict,
            HotkeyAvailability::Unsupported => CommandSourceErrorKind::InvalidBinding,
            _ => CommandSourceErrorKind::NativeFailure,
        },
        native: None,
    }
}

pub fn availability_to_command_error(availability: HotkeyAvailability) -> (r: CommandSourceError)
    ensures
        r == availability_command_error(availability),
{
    let kind = match availability {
        HotkeyAvailability::Conflict => CommandSourceErrorKind::RegistrationConflict,
        HotkeyAvailability::Reserved => CommandSourceErrorKind::RegistrationConflict,
        HotkeyAvailability::Unsupported => CommandSourceErrorKind::InvalidBinding,
        HotkeyAvailability::Available => CommandSourceErrorKind::NativeFailure,
        HotkeyAvailability::Unknown => CommandSourceErrorKind::NativeFailure,
    };
    CommandSourceError::new(kind, None)
}

pub open spec fn control_error_of_command(error: CommandSourceError) -> HotkeyControlError {
    HotkeyControlError {
        kind: match error.kind {
            CommandSourceErrorKind::EventLoopStopped => HotkeyControlErrorKind::EventLoopStopped,
            CommandSourceErrorKind::NotRegistered => HotkeyControlErrorKind::EventLoopStopped,
            _ => HotkeyControlErrorKind::NativeFailure,
        },
        native: error.native,
    }
}

pub fn control_error_from_command(error: CommandSourceError) -> (r: HotkeyControlError)
    ensures
        r == control_error_of_command(error),
{
    let kind = match error.kind {
        CommandSourceErrorKind::EventLoopStopped => HotkeyControlErrorKind::EventLoopStopped,
        CommandSourceErrorKind::NotRegistered => HotkeyControlErrorKind::EventLoopStopped,
        CommandSourceErrorKind::RegistrationConflict => HotkeyControlErrorKind::NativeFailure,
        CommandSourceErrorKind::InvalidBinding => HotkeyControlErrorKind::NativeFailure,
        CommandSourceErrorKind::NativeFailure => HotkeyControlErrorKind::NativeFailure,
    };
    HotkeyControlError::new(kind, error.native)
}

pub open spec fn command_error_of_control(
    error: HotkeyControlError,
    fallback: CommandSourceErrorKind,
) -> CommandSourceError {
    CommandSourceError {
        kind: match error.kind {
            HotkeyControlErrorKind::NativeFailure => CommandSourceErrorKind::NativeFailure,
            _ => fallback,
        },
        native: error.native,
    }
}

pub fn command_error_from_control(
    error: HotkeyControlError,
    fallback: CommandSourceErrorKind,
) -> (r: CommandSourceError)
    ensures
        r == command_error_of_control(error, fallback),
{
    let kind = match error.kind {
        HotkeyControlErrorKind::EventLoopStopped => fallback,
        HotkeyControlErrorKind::Timeout => fallback,
        HotkeyControlErrorKind::NativeFailure => CommandSourceErrorKind::NativeFailure,
    };
    CommandSourceError::new(kind, error.native)
}

/// A native error of unknown kind carrying the thread's last error code when
/// there is one.
pub open spec fn last_native_error(code: u32) -> NativeError {
    NativeError::spec_of(NativeErrorKind::Unknown, if code != 0 { Some(code) } else { None })
}

pub fn native_error_from_last(code: u32) -> (r: NativeError)
    ensures
        r == last_native_error(code),
{
    NativeError::new(NativeErrorKind::Unknown, if code != 0 { Some(code) } else { None })
}

/// What a `RegisterHotKey` call reports: success, a chord that another
/// application holds, or a failure of unknown cause.
pub open spec fn register_outcome(held: bool, last_error: u32) -> Result<(), HotkeyAvailability> {
    if held {
        Ok(())
    } else if last_error == ERROR_HOTKEY_ALREADY_REGISTERED {
        Err(HotkeyAvailability::Conflict)
    } else {
        Err(HotkeyAvailability::Unknown)
    }
}

pub fn registration_outcome(held: bool, last_error: u32) -> (r: Result<(), HotkeyAvailability>)
    ensures
        r == register_outcome(held, last_error),
{
    if held {
        Ok(())
    } else if last_error == ERROR_HOTKEY_ALREADY_REGISTERED {
        Err(HotkeyAvailability::Conflict)
    } else {
        Err(HotkeyAvailability::Unknown)
    }
}


// ---------------------------------------------------------------------------
// The owner's state and its registration tasks.
// ---------------------------------------------------------------------------

/// What the thread that owns the hotkey registrations decides by: the active
/// pair, whether it is registered, and the ids it is registered under.
#[derive(Debug, Clone, Copy, PartialEq, Eq, Structural)]
pub struct WindowsCommandSource {
    pub pair: HotkeyPair,
    pub registered: bool,
    pub trigger_id: i32,
    pub cancel_id: i32,
}

/// One native call that a registration task asks the owner thread to make.
#[derive(Debug, Clone, Copy, PartialEq, Eq)]
pub enum RegistrationCall {
    /// `RegisterHotKey(null, id, chord.0, chord.1)`.
    Register { id: i32, chord: (u32, u32) },
    /// `UnregisterHotKey(null, id)`, whose result the task uses.
    Unregister { id: i32 },
    /// `UnregisterHotKey(null, id)` as cleanup; its result is not used.
    Release { id: i32 },
}

/// The result of the last native call: whether it returned non-zero, and the
/// thread's last error code read right after it.
#[derive(Debug, Clone, Copy, PartialEq, Eq, Structural)]
pub struct NativeReply {
    pub succeeded: bool,
    pub last_error: u32,
}

#[derive(Debug, Clone, Copy, PartialEq, Eq)]
pub enum TaskStage {
    RegisterTrigger { cancel_chord: (u32, u32) },
    RegisterCancel,
    ReleaseTriggerAfterCancel { error: CommandSourceError },
    UnregisterTrigger,
    UnregisterCancel { trigger_removed: bool },
    ProbeTrigger,
    ProbeCancel { trigger_held: bool },
    ProbeReleaseTrigger { outcome: HotkeyAvailability },
    ProbeReleaseCancel,
    NewTrigger,
    NewCancel,
    DropNewTrigger { availability: HotkeyAvailability },
    OldTrigger,
    OldCancel,
    ReleaseNewTrigger,
    ReleaseNewCancel,
    RestoreTrigger,
    RestoreCancel,
}

/// A registration task in progress: the owner's state when it began, the
/// pair it works towards, where it stands, and what the calls so far showed.
#[derive(Debug, Clone, Copy, PartialEq, Eq)]
pub struct RegistrationTask {
    pub source: WindowsCommandSource,
    pub candidate: HotkeyPair,
    pub stage: TaskStage,
    pub trigger_old_removed: bool,
    pub cancel_old_removed: bool,
    pub rollback_ok: bool,
}

/// The next step of a task: a native call to make and report back, or the
/// task's end with the owner's new state and its result.
#[derive(Debug, Clone, Copy)]
pub enum TaskStep {
    Call(RegistrationTask, RegistrationCall),
    Registered(WindowsCommandSource, Result<(), CommandSourceError>),
    Unregistered(WindowsCommandSource, Result<(), CommandSourceError>),
    Probed(Result<HotkeyAvailability, HotkeyControlError>),
    Replaced(WindowsCommandSource, Result<HotkeyApplyResult, HotkeyControlError>),
}

pub open spec fn trigger_changed(task: RegistrationTask) -> bool {
    task.candidate.trigger != task.source.pair.trigger
}

pub open spec fn cancel_changed(task: RegistrationTask) -> bool {
    task.candidate.cancel != task.source.pair.cancel
}

pub open spec fn start_task(source: WindowsCommandSource, candidate: HotkeyPair, stage: TaskStage) -> RegistrationTask {
    RegistrationTask {
        source,
        candidate,
        stage,
        trigger_old_removed: false,
        cancel_old_removed: false,
        rollback_ok: true,
    }
}

pub open spec fn with_stage(task: RegistrationTask, stage: TaskStage) -> RegistrationTask {
    RegistrationTask { stage, ..task }
}

fn set_stage(task: RegistrationTask, stage: TaskStage) -> (r: RegistrationTask)
    ensures
        r == with_stage(task, stage),
{
    RegistrationTask { stage, ..task }
}

// --- registering the pair ---------------------------------------------------

pub open spec fn register_start(source: WindowsCommandSource) -> TaskStep {
    if source.registered {
        TaskStep::Registered(
            source,
            Err(CommandSourceError { kind: CommandSourceErrorKind::RegistrationConflict, native: None }),
        )
    } else if source.pair.platform_violation(HotkeyPlatform::Windows) is Some {
        TaskStep::Registered(source, Err(invalid_binding_error()))
    } else {
        match chord_of(source.pair.trigger) {
            Err(e) => TaskStep::Registered(source, Err(e)),
            Ok(t) => match chord_of(source.pair.cancel) {
                Err(e) => TaskStep::Registered(source, Err(e)),
                Ok(c) => TaskStep::Call(
                    start_task(source, source.pair, TaskStage::RegisterTrigger { cancel_chord: c }),
                    RegistrationCall::Register { id: source.trigger_id, chord: t },
                ),
            },
        }
    }
}

// --- unregistering ----------------------------------------------------------

pub open spec fn unregister_start(source: WindowsCommandSource) -> TaskStep {
    if !source.registered {
        TaskStep::Unregistered(
            source,
            Err(CommandSourceError { kind: CommandSourceErrorKind::NotRegistered, native: None }),
        )
    } else {
        TaskStep::Call(
            start_task(source, source.pair, TaskStage::UnregisterTrigger),
            RegistrationCall::Unregister { id: source.trigger_id },
        )
    }
}

// --- probing a candidate ----------------------------------------------------

pub open spec fn probe_cleanup(task: RegistrationTask, trigger_held: bool) -> TaskStep {
    if trigger_held {
        TaskStep::Call(
            with_stage(task, TaskStage::ProbeReleaseTrigger { outcome: HotkeyAvailability::Available }),
            RegistrationCall::Release { id: PROBE_TRIGGER_ID },
        )
    } else if cancel_changed(task) {
        TaskStep::Call(
            with_stage(task, TaskStage::ProbeReleaseCancel),
            RegistrationCall::Release { id: PROBE_CANCEL_ID },
        )
    } else {
        TaskStep::Probed(Ok(HotkeyAvailability::Available))
    }
}

pub open spec fn probe_cancel_step(task: RegistrationTask, trigger_held: bool) -> TaskStep {
    if cancel_changed(task) {
        match chord_of(task.candidate.cancel) {
            Err(e) => TaskStep::Probed(Err(control_error_of_command(e))),
            Ok(ch) => TaskStep::Call(
                with_stage(task, TaskStage::ProbeCancel { trigger_held }),
                RegistrationCall::Register { id: PROBE_CANCEL_ID, chord: ch },
            ),
        }
    } else {
        probe_cleanup(task, trigger_held)
    }
}

pub open spec fn probe_start(source: WindowsCommandSource, candidate: HotkeyPair) -> TaskStep {
    match candidate_check(candidate) {
        Err(a) => TaskStep::Probed(Ok(a)),
        Ok(c) => if !source.registered {
            TaskStep::Probed(Ok(HotkeyAvailability::Unknown))
        } else if c == source.pair {
            TaskStep::Probed(Ok(HotkeyAvailability::Available))
        } else if spec_is_cross_swap(source.pair, c) {
            TaskStep::Probed(Ok(HotkeyAvailability::Unsupported))
        } else {
            let task = start_task(source, c, TaskStage::ProbeTrigger);
            if trigger_changed(task) {
                match chord_of(c.trigger) {
                    Err(e) => TaskStep::Probed(Err(control_error_of_command(e))),
                    Ok(ch) => TaskStep::Call(task, RegistrationCall::Register { id: PROBE_TRIGGER_ID, chord: ch }),
                }
            } else {
                probe_cancel_step(task, false)
            }
        },
    }
}

// --- replacing the pair -----------------------------------------------------

pub open spec fn replace_conclude(task: RegistrationTask, last_error: u32) -> TaskStep {
    if task.rollback_ok {
        TaskStep::Replaced(task.source, Ok(HotkeyApplyResult::RolledBack(HotkeyAvailability::Unknown)))
    } else {
        TaskStep::Replaced(
            WindowsCommandSource { registered: false, ..task.source },
            Err(
                HotkeyControlError {
                    kind: HotkeyControlErrorKind::NativeFailure,
                    native: Some(last_native_error(last_error)),
                },
            ),
        )
    }
}

pub open spec fn replace_restore_cancel(task: RegistrationTask, last_error: u32) -> TaskStep {
    if task.cancel_old_removed {
        match chord_of(task.source.pair.cancel) {
            Err(e) => TaskStep::Replaced(task.source, Err(control_error_of_command(e))),
            Ok(ch) => TaskStep::Call(
                with_stage(task, TaskStage::RestoreCancel),
                RegistrationCall::Register { id: task.source.cancel_id, chord: ch },
            ),
        }
    } else {
        replace_conclude(task, last_error)
    }
}

pub open spec fn replace_restore_trigger(task: RegistrationTask, last_error: u32) -> TaskStep {
    let task = RegistrationTask { rollback_ok: true, ..task };
    if task.trigger_old_removed {
        match chord_of(task.source.pair.trigger) {
            Err(e) => TaskStep::Replaced(task.source, Err(control_error_of_command(e))),
            Ok(ch) => TaskStep::Call(
                with_stage(task, TaskStage::RestoreTrigger),
                RegistrationCall::Register { id: task.source.trigger_id, chord: ch },
            ),
        }
    } else {
        replace_restore_cancel(task, last_error)
    }
}

/// The pair once both halves are secured: changed halves move to their
/// alternate ids, unchanged halves keep theirs.
pub open spec fn applied_source(task: RegistrationTask) -> WindowsCommandSource {
    WindowsCommandSource {
        pair: task.candidate,
        registered: task.source.registered,
        trigger_id: if trigger_changed(task) {
            spec_alternate_trigger_id(task.source.trigger_id)
        } else {
            task.source.trigger_id
        },
        cancel_id: if cancel_changed(task) {
            spec_alternate_cancel_id(task.source.cancel_id)
        } else {
            task.source.cancel_id
        },
    }
}

pub open spec fn replace_evaluate(task: RegistrationTask, last_error: u32) -> TaskStep {
    if !((trigger_changed(task) && !task.trigger_old_removed) || (cancel_changed(task)
        && !task.cancel_old_removed)) {
        TaskStep::Replaced(applied_source(task), Ok(HotkeyApplyResult::Applied))
    } else if trigger_changed(task) {
        TaskStep::Call(
            with_stage(task, TaskStage::ReleaseNewTrigger),
            RegistrationCall::Release { id: spec_alternate_trigger_id(task.source.trigger_id) },
        )
    } else {
        TaskStep::Call(
            with_stage(task, TaskStage::ReleaseNewCancel),
            RegistrationCall::Release { id: spec_alternate_cancel_id(task.source.cancel_id) },
        )
    }
}

pub open spec fn replace_remove_old(task: RegistrationTask) -> TaskStep {
    if trigger_changed(task) {
        TaskStep::Call(
            with_stage(task, TaskStage::OldTrigger),
            RegistrationCall::Unregister { id: task.source.trigger_id },
        )
    } else if cancel_changed(task) {
        TaskStep::Call(
            with_stage(task, TaskStage::OldCancel),
            RegistrationCall::Unregister { id: task.source.cancel_id },
        )
    } else {
        replace_evaluate(task, 0)
    }
}

pub open spec fn replace_cancel_step(task: RegistrationTask) -> TaskStep {
    if cancel_changed(task) {
        match chord_of(task.candidate.cancel) {
            Err(e) => TaskStep::Replaced(task.source, Err(control_error_of_command(e))),
            Ok(ch) => TaskStep::Call(
                with_stage(task, TaskStage::NewCancel),
                RegistrationCall::Register {
                    id: spec_alternate_cancel_id(task.source.cancel_id),
                    chord: ch,
                },
            ),
        }
    } else {
        replace_remove_old(task)
    }
}

pub open spec fn replace_start(source: WindowsCommandSource, candidate: HotkeyPair) -> TaskStep {
    match candidate_check(candidate) {
        Err(a) => TaskStep::Replaced(source, Ok(HotkeyApplyResult::Rejected(a))),
        Ok(c) => if !source.registered {
            TaskStep::Replaced(
                source,
                Err(HotkeyControlError { kind: HotkeyControlErrorKind::EventLoopStopped, native: None }),
            )
        } else if c == source.pair {
            TaskStep::Replaced(source, Ok(HotkeyApplyResult::Applied))
        } else if spec_is_cross_swap(source.pair, c) {
            TaskStep::Replaced(source, Ok(HotkeyApplyResult::Rejected(HotkeyAvailability::Unsupported)))
        } else {
            let task = start_task(source, c, TaskStage::NewTrigger);
            if trigger_changed(task) {
                match chord_of(c.trigger) {
                    Err(e) => TaskStep::Replaced(source, Err(control_error_of_command(e))),
                    Ok(ch) => TaskStep::Call(
                        task,
                        RegistrationCall::Register {
                            id: spec_alternate_trigger_id(source.trigger_id),
                            chord: ch,
                        },
                    ),
                }
            } else {
                replace_cancel_step(task)
            }
        },
    }
}

// --- replies ----------------------------------------------------------------

pub open spec fn task_resume(task: RegistrationTask, reply: NativeReply) -> TaskStep {
    let outcome = register_outcome(reply.succeeded, reply.last_error);
    let le = reply.last_error;
    match task.stage {
        TaskStage::RegisterTrigger { cancel_chord } => match outcome {
            Err(a) => TaskStep::Registered(task.source, Err(availability_command_error(a))),
            Ok(_) => TaskStep::Call(
                with_stage(task, TaskStage::RegisterCancel),
                RegistrationCall::Register { id: task.source.cancel_id, chord: cancel_chord },
            ),
        },
        TaskStage::RegisterCancel => match outcome {
            Err(a) => TaskStep::Call(
                with_stage(
                    task,
                    TaskStage::ReleaseTriggerAfterCancel { error: availability_command_error(a) },
                ),
                RegistrationCall::Release { id: task.source.trigger_id },
            ),
            Ok(_) => TaskStep::Registered(
                WindowsCommandSource { registered: true, ..task.source },
                Ok(()),
            ),
        },
        TaskStage::ReleaseTriggerAfterCancel { error } => TaskStep::Registered(task.source, Err(error)),
        TaskStage::UnregisterTrigger => TaskStep::Call(
            with_stage(task, TaskStage::UnregisterCancel { trigger_removed: reply.succeeded }),
            RegistrationCall::Unregister { id: task.source.cancel_id },
        ),
        TaskStage::UnregisterCancel { trigger_removed } => TaskStep::Unregistered(
            WindowsCommandSource { registered: false, ..task.source },
            if trigger_removed && reply.succeeded {
                Ok(())
            } else {
                Err(
                    CommandSourceError {
                        kind: CommandSourceErrorKind::NativeFailure,
                        native: Some(last_native_error(le)),
                    },
                )
            },
        ),
        TaskStage::ProbeTrigger => match outcome {
            Err(a) => TaskStep::Probed(Ok(a)),
            Ok(_) => probe_cancel_step(task, true),
        },
        TaskStage::ProbeCancel { trigger_held } => match outcome {
            Err(a) => if trigger_held {
                TaskStep::Call(
                    with_stage(task, TaskStage::ProbeReleaseTrigger { outcome: a }),
                    RegistrationCall::Release { id: PROBE_TRIGGER_ID },
                )
            } else {
                TaskStep::Probed(Ok(a))
            },
            Ok(_) => probe_cleanup(task, trigger_held),
        },
        TaskStage::ProbeReleaseTrigger { outcome } => if outcome == HotkeyAvailability::Available
            && cancel_changed(task) {
            TaskStep::Call(
                with_stage(task, TaskStage::ProbeReleaseCancel),
                RegistrationCall::Release { id: PROBE_CANCEL_ID },
            )
        } else {
            TaskStep::Probed(Ok(outcome))
        },
        TaskStage::ProbeReleaseCancel => TaskStep::Probed(Ok(HotkeyAvailability::Available)),
        TaskStage::NewTrigger => match outcome {
            Err(a) => TaskStep::Replaced(task.source, Ok(HotkeyApplyResult::RolledBack(a))),
            Ok(_) => replace_cancel_step(task),
        },
        TaskStage::NewCancel => match outcome {
            Err(a) => if trigger_changed(task) {
                TaskStep::Call(
                    with_stage(task, TaskStage::DropNewTrigger { availability: a }),
                    RegistrationCall::Release { id: spec_alternate_trigger_id(task.source.trigger_id) },
                )
            } else {
                TaskStep::Replaced(task.source, Ok(HotkeyApplyResult::RolledBack(a)))
            },
            Ok(_) => replace_remove_old(task),
        },
        TaskStage::DropNewTrigger { availability } => TaskStep::Replaced(
            task.source,
            Ok(HotkeyApplyResult::RolledBack(availability)),
        ),
        TaskStage::OldTrigger => {
            let t = RegistrationTask { trigger_old_removed: reply.succeeded, ..task };
            if cancel_changed(t) {
                TaskStep::Call(
                    with_stage(t, TaskStage::OldCancel),
                    RegistrationCall::Unregister { id: t.source.cancel_id },
                )
            } else {
                replace_evaluate(t, le)
            }
        },
        TaskStage::OldCancel => replace_evaluate(
            RegistrationTask { cancel_old_removed: reply.succeeded, ..task },
            le,
        ),
        TaskStage::ReleaseNewTrigger => if cancel_changed(task) {
            TaskStep::Call(
                with_stage(task, TaskStage::ReleaseNewCancel),
                RegistrationCall::Release { id: spec_alternate_cancel_id(task.source.cancel_id) },
            )
        } else {
            replace_restore_trigger(task, le)
        },
        TaskStage::ReleaseNewCancel => replace_restore_trigger(task, le),
        TaskStage::RestoreTrigger => replace_restore_cancel(
            RegistrationTask { rollback_ok: task.rollback_ok && outcome is Ok, ..task },
            le,
        ),
        TaskStage::RestoreCancel => replace_conclude(
            RegistrationTask { rollback_ok: task.rollback_ok && outcome is Ok, ..task },
            le,
        ),
    }
}

fn probe_cleanup_exec(task: RegistrationTask, trigger_held: bool) -> (r: TaskStep)
    ensures
        r == probe_cleanup(task, trigger_held),
{
    if trigger_held {
        TaskStep::Call(
            set_stage(task, TaskStage::ProbeReleaseTrigger { outcome: HotkeyAvailability::Available }),
            RegistrationCall::Release { id: PROBE_TRIGGER_ID },
        )
    } else if task.candidate.cancel != task.source.pair.cancel {
        TaskStep::Call(
            set_stage(task, TaskStage::ProbeReleaseCancel),
            RegistrationCall::Release { id: PROBE_CANCEL_ID },
        )
    } else {
        TaskStep::Probed(Ok(HotkeyAvailability::Available))
    }
}

fn probe_cancel_step_exec(task: RegistrationTask, trigger_held: bool) -> (r: TaskStep)
    ensures
        r == probe_cancel_step(task, trigger_held),
{
    if task.candidate.cancel != task.source.pair.cancel {
        match translate_hotkey(task.candidate.cancel) {
            Err(e) => TaskStep::Probed(Err(control_error_from_command(e))),
            Ok(ch) => TaskStep::Call(
                set_stage(task, TaskStage::ProbeCancel { trigger_held }),
                RegistrationCall::Register { id: PROBE_CANCEL_ID, chord: ch },
            ),
        }
    } else {
        probe_cleanup_exec(task, trigger_held)
    }
}

fn replace_conclude_exec(task: RegistrationTask, last_error: u32) -> (r: TaskStep)
    ensures
        r == replace_conclude(task, last_error),
{
    if task.rollback_ok {
        TaskStep::Replaced(task.source, Ok(HotkeyApplyResult::RolledBack(HotkeyAvailability::Unknown)))
    } else {
        TaskStep::Replaced(
            WindowsCommandSource { registered: false, ..task.source },
            Err(
                HotkeyControlError::new(
                    HotkeyControlErrorKind::NativeFailure,
                    Some(native_error_from_last(last_error)),
                ),
            ),
        )
    }
}

fn replace_restore_cancel_exec(task: RegistrationTask, last_error: u32) -> (r: TaskStep)
    ensures
        r == replace_restore_cancel(task, last_error),
{
    if task.cancel_old_removed {
        match translate_hotkey(task.source.pair.cancel) {
            Err(e) => TaskStep::Replaced(task.source, Err(control_error_from_command(e))),
            Ok(ch) => TaskStep::Call(
                set_stage(task, TaskStage::RestoreCancel),
                RegistrationCall::Register { id: task.source.cancel_id, chord: ch },
            ),
        }
    } else {
        replace_conclude_exec(task, last_error)
    }
}

fn replace_restore_trigger_exec(task: RegistrationTask, last_error: u32) -> (r: TaskStep)
    ensures
        r == replace_restore_trigger(task, last_error),
{
    let task = RegistrationTask { rollback_ok: true, ..task };
    if task.trigger_old_removed {
        match translate_hotkey(task.source.pair.trigger) {
            Err(e) => TaskStep::Replaced(task.source, Err(control_error_from_command(e))),
            Ok(ch) => TaskStep::Call(
                set_stage(task, TaskStage::RestoreTrigger),
                RegistrationCall::Register { id: task.source.trigger_id, chord: ch },
            ),
        }
    } else {
        replace_restore_cancel_exec(task, last_error)
    }
}

fn replace_evaluate_exec(task: RegistrationTask, last_error: u32) -> (r: TaskStep)
    ensures
        r == replace_evaluate(task, last_error),
{
    let tc = task.candidate.trigger != task.source.pair.trigger;
    let cc = task.candidate.cancel != task.source.pair.cancel;
    if !((tc && !task.trigger_old_removed) || (cc && !task.cancel_old_removed)) {
        let trigger_id = if tc {
            alternate_trigger_id(task.source.trigger_id)
        } else {
            task.source.trigger_id
        };
        let cancel_id = if cc {
            alternate_cancel_id(task.source.cancel_id)
        } else {
            task.source.cancel_id
        };
        TaskStep::Replaced(
            WindowsCommandSource {
                pair: task.candidate,
                registered: task.source.registered,
                trigger_id,
                cancel_id,
            },
            Ok(HotkeyApplyResult::Applied),
        )
    } else if tc {
        TaskStep::Call(
            set_stage(task, TaskStage::ReleaseNewTrigger),
            RegistrationCall::Release { id: alternate_trigger_id(task.source.trigger_id) },
        )
    } else {
        TaskStep::Call(
            set_stage(task, TaskStage::ReleaseNewCancel),
            RegistrationCall::Release { id: alternate_cancel_id(task.source.cancel_id) },
        )
    }
}

fn replace_remove_old_exec(task: RegistrationTask) -> (r: TaskStep)
    ensures
        r == replace_remove_old(task),
{
    if task.candidate.trigger != task.source.pair.trigger {
        TaskStep::Call(
            set_stage(task, TaskStage::OldTrigger),
            RegistrationCall::Unregister { id: task.source.trigger_id },
        )
    } else if task.candidate.cancel != task.source.pair.cancel {
        TaskStep::Call(
            set_stage(task, TaskStage::OldCancel),
            RegistrationCall::Unregister { id: task.source.cancel_id },
        )
    } else {
        replace_evaluate_exec(task, 0)
    }
}

fn replace_cancel_step_exec(task: RegistrationTask) -> (r: TaskStep)
    ensures
        r == replace_cancel_step(task),
{
    if task.candidate.cancel != task.source.pair.cancel {
        match translate_hotkey(task.candidate.cancel) {
            Err(e) => TaskStep::Replaced(task.source, Err(control_error_from_command(e))),
            Ok(ch) => TaskStep::Call(
                set_stage(task, TaskStage::NewCancel),
                RegistrationCall::Register { id: alternate_cancel_id(task.source.cancel_id), chord: ch },
            ),
        }
    } else {
        replace_remove_old_exec(task)
    }
}

impl WindowsCommandSource {
    /// The default pair, not yet registered, under the primary ids.
    pub fn new() -> (r: Self)
        ensures
            !r.registered,
            r.trigger_id == TRIGGER_PRIMARY_ID,
            r.cancel_id == CANCEL_PRIMARY_ID,
            r.pair.trigger.key == HotkeyKey::V,
            r.pair.cancel.key == HotkeyKey::X,
            r.pair.trigger.modifiers == crate::hotkey::HotkeyModifiers::spec_of(true, true, true, false),
            r.pair.cancel.modifiers == crate::hotkey::HotkeyModifiers::spec_of(true, true, true, false),
    {
        Self::with_pair(HotkeyPair::default())
    }

    pub fn with_pair(pair: HotkeyPair) -> (r: Self)
        ensures
            r == (WindowsCommandSource {
                pair,
                registered: false,
                trigger_id: TRIGGER_PRIMARY_ID,
                cancel_id: CANCEL_PRIMARY_ID,
            }),
    {
        WindowsCommandSource {
            pair,
            registered: false,
            trigger_id: TRIGGER_PRIMARY_ID,
            cancel_id: CANCEL_PRIMARY_ID,
        }
    }

    pub fn is_registered(&self) -> (r: bool)
        ensures
            r == self.registered,
    {
        self.registered
    }

    pub fn pair(&self) -> (r: HotkeyPair)
        ensures
            r == self.pair,
    {
        self.pair
    }

    pub fn trigger_hotkey(&self) -> (r: String)
        ensures
            r@ == self.pair.trigger.label_text(HotkeyPlatform::Windows),
    {
        self.pair.trigger.label(HotkeyPlatform::Windows)
    }

    pub fn cancel_hotkey(&self) -> (r: String)
        ensures
            r@ == self.pair.cancel.label_text(HotkeyPlatform::Windows),
    {
        self.pair.cancel.label(HotkeyPlatform::Windows)
    }

    /// Changes the pair only while no native registration exists.
    pub fn set_pair(&mut self, pair: HotkeyPair) -> (r: Result<(), CommandSourceError>)
        ensures
            old(self).registered ==> r == Err::<(), CommandSourceError>(
                CommandSourceError { kind: CommandSourceErrorKind::RegistrationConflict, native: None },
            ) && *final(self) == *old(self),
            !old(self).registered && pair.platform_violation(HotkeyPlatform::Windows) is Some ==> r
                == Err::<(), CommandSourceError>(invalid_binding_error()) && *final(self) == *old(self),
            !old(self).registered && pair.platform_violation(HotkeyPlatform::Windows) is None ==> r
                == Ok::<(), CommandSourceError>(()) && *final(self) == (WindowsCommandSource {
                pair,
                ..*old(self)
            }),
    {
        if self.registered {
            return Err(CommandSourceError::new(CommandSourceErrorKind::RegistrationConflict, None));
        }
        match pair.validate_for(HotkeyPlatform::Windows) {
            Ok(_) => {},
            Err(_) => return Err(invalid_binding()),
        }
        self.pair = pair;
        Ok(())
    }

    pub open spec fn message_event(self, message: u32, wparam: usize) -> Option<CommandEvent> {
        if message == WM_CLIPTYPE_SHUTDOWN {
            Some(CommandEvent::Shutdown)
        } else if message != WM_HOTKEY {
            None
        } else if wparam as i32 == self.trigger_id {
            Some(CommandEvent::Trigger)
        } else if wparam as i32 == self.cancel_id {
            Some(CommandEvent::Cancel)
        } else {
            None
        }
    }

    /// Maps a thread message to a command: the private shutdown message, or
    /// a hotkey message for one of the active ids; anything else is ignored.
    pub fn decode_message(&self, message: u32, wparam: usize) -> (r: Option<CommandEvent>)
        ensures
            r == self.message_event(message, wparam),
    {
        if message == WM_CLIPTYPE_SHUTDOWN {
            return Some(CommandEvent::Shutdown);
        }
        if message != WM_HOTKEY {
            return None;
        }
        let id = wparam as i32;
        if id == self.trigger_id {
            Some(CommandEvent::Trigger)
        } else if id == self.cancel_id {
            Some(CommandEvent::Cancel)
        } else {
            None
        }
    }

    /// Starts registering the active pair.
    pub fn begin_register(self) -> (r: TaskStep)
        ensures
            r == register_start(self),
    {
        if self.registered {
            return TaskStep::Registered(
                self,
                Err(CommandSourceError::new(CommandSourceErrorKind::RegistrationConflict, None)),
            );
        }
        match self.pair.validate_for(HotkeyPlatform::Windows) {
            Ok(_) => {},
            Err(_) => return TaskStep::Registered(self, Err(invalid_binding())),
        }
        let t = match translate_hotkey(self.pair.trigger) {
            Ok(t) => t,
            Err(e) => return TaskStep::Registered(self, Err(e)),
        };
        let c = match translate_hotkey(self.pair.cancel) {
            Ok(c) => c,
            Err(e) => return TaskStep::Registered(self, Err(e)),
        };
        TaskStep::Call(
            RegistrationTask {
                source: self,
                candidate: self.pair,
                stage: TaskStage::RegisterTrigger { cancel_chord: c },
                trigger_old_removed: false,
                cancel_old_removed: false,
                rollback_ok: true,
            },
            RegistrationCall::Register { id: self.trigger_id, chord: t },
        )
    }

    /// Starts releasing both registrations.
    pub fn begin_unregister(self) -> (r: TaskStep)
        ensures
            r == unregister_start(self),
    {
        if !self.registered {
            return TaskStep::Unregistered(
                self,
                Err(CommandSourceError::new(CommandSourceErrorKind::NotRegistered, None)),
            );
        }
        TaskStep::Call(
            RegistrationTask {
                source: self,
                candidate: self.pair,
                stage: TaskStage::UnregisterTrigger,
                trigger_old_removed: false,
                cancel_old_removed: false,
                rollback_ok: true,
            },
            RegistrationCall::Unregister { id: self.trigger_id },
        )
    }

    /// Starts checking whether a candidate pair could be registered, by
    /// holding each changed chord briefly under a probe id.
    pub fn begin_probe(self, candidate: HotkeyPair) -> (r: TaskStep)
        ensures
            r == probe_start(self, candidate),
    {
        let c = match validate_candidate(candidate) {
            Ok(c) => c,
            Err(a) => return TaskStep::Probed(Ok(a)),
        };
        if !self.registered {
            return TaskStep::Probed(Ok(HotkeyAvailability::Unknown));
        }
        if c == self.pair {
            return TaskStep::Probed(Ok(HotkeyAvailability::Available));
        }
        if is_cross_swap(self.pair, c) {
            return TaskStep::Probed(Ok(HotkeyAvailability::Unsupported));
        }
        let task = RegistrationTask {
            source: self,
            candidate: c,
            stage: TaskStage::ProbeTrigger,
            trigger_old_removed: false,
            cancel_old_removed: false,
            rollback_ok: true,
        };
        if c.trigger != self.pair.trigger {
            match translate_hotkey(c.trigger) {
                Err(e) => TaskStep::Probed(Err(control_error_from_command(e))),
                Ok(ch) => TaskStep::Call(task, RegistrationCall::Register { id: PROBE_TRIGGER_ID, chord: ch }),
            }
        } else {
            probe_cancel_step_exec(task, false)
        }
    }

    /// Starts replacing the active pair: each changed chord is registered
    /// under its alternate id before the old one is released, and a failure
    /// restores the old registrations.
    pub fn begin_replace(self, candidate: HotkeyPair) -> (r: TaskStep)
        ensures
            r == replace_start(self, candidate),
    {
        let c = match validate_candidate(candidate) {
            Ok(c) => c,
            Err(a) => return TaskStep::Replaced(self, Ok(HotkeyApplyResult::Rejected(a))),
        };
        if !self.registered {
            return TaskStep::Replaced(
                self,
                Err(HotkeyControlError::new(HotkeyControlErrorKind::EventLoopStopped, None)),
            );
        }
        if c == self.pair {
            return TaskStep::Replaced(self, Ok(HotkeyApplyResult::Applied));
        }
        if is_cross_swap(self.pair, c) {
            return TaskStep::Replaced(
                self,
                Ok(HotkeyApplyResult::Rejected(HotkeyAvailability::Unsupported)),
            );
        }
        let task = RegistrationTask {
            source: self,
            candidate: c,
            stage: TaskStage::NewTrigger,
            trigger_old_removed: false,
            cancel_old_removed: false,
            rollback_ok: true,
        };
        if c.trigger != self.pair.trigger {
            match translate_hotkey(c.trigger) {
                Err(e) => TaskStep::Replaced(self, Err(control_error_from_command(e))),
                Ok(ch) => TaskStep::Call(
                    task,
                    RegistrationCall::Register { id: alternate_trigger_id(self.trigger_id), chord: ch },
                ),
            }
        } else {
            replace_cancel_step_exec(task)
        }
    }
}

impl RegistrationTask {
    /// Continues the task with the result of the call it asked for.
    pub fn resume(self, reply: NativeReply) -> (r: TaskStep)
        ensures
            r == task_resume(self, reply),
    {
        let task = self;
        let outcome = registration_outcome(reply.succeeded, reply.last_error);
        let le = reply.last_error;
        match task.stage {
            TaskStage::RegisterTrigger { cancel_chord } => match outcome {
                Err(a) => TaskStep::Registered(task.source, Err(availability_to_command_error(a))),
                Ok(_) => TaskStep::Call(
                    set_stage(task, TaskStage::RegisterCancel),
                    RegistrationCall::Register { id: task.source.cancel_id, chord: cancel_chord },
                ),
            },
            TaskStage::RegisterCancel => match outcome {
                Err(a) => TaskStep::Call(
                    set_stage(
                        task,
                        TaskStage::ReleaseTriggerAfterCancel { error: availability_to_command_error(a) },
                    ),
                    RegistrationCall::Release { id: task.source.trigger_id },
                ),
                Ok(_) => TaskStep::Registered(
                    WindowsCommandSource { registered: true, ..task.source },
                    Ok(()),
                ),
            },
            TaskStage::ReleaseTriggerAfterCancel { error } => TaskStep::Registered(task.source, Err(error)),
            TaskStage::UnregisterTrigger => TaskStep::Call(
                set_stage(task, TaskStage::UnregisterCancel { trigger_removed: reply.succeeded }),
                RegistrationCall::Unregister { id: task.source.cancel_id },
            ),
            TaskStage::UnregisterCancel { trigger_removed } => {
                let result = if trigger_removed && reply.succeeded {
                    Ok(())
                } else {
                    Err(
                        CommandSourceError::new(
                            CommandSourceErrorKind::NativeFailure,
                            Some(native_error_from_last(le)),
                        ),
                    )
                };
                TaskStep::Unregistered(WindowsCommandSource { registered: false, ..task.source }, result)
            },
            TaskStage::ProbeTrigger => match outcome {
                Err(a) => TaskStep::Probed(Ok(a)),
                Ok(_) => probe_cancel_step_exec(task, true),
            },
            TaskStage::ProbeCancel { trigger_held } => match outcome {
                Err(a) => if trigger_held {
                    TaskStep::Call(
                        set_stage(task, TaskStage::ProbeReleaseTrigger { outcome: a }),
                        RegistrationCall::Release { id: PROBE_TRIGGER_ID },
                    )
                } else {
                    TaskStep::Probed(Ok(a))
                },
                Ok(_) => probe_cleanup_exec(task, trigger_held),
            },
            TaskStage::ProbeReleaseTrigger { outcome } => if outcome == HotkeyAvailability::Available
                && task.candidate.cancel != task.source.pair.cancel {
                TaskStep::Call(
                    set_stage(task, TaskStage::ProbeReleaseCancel),
                    RegistrationCall::Release { id: PROBE_CANCEL_ID },
                )
            } else {
                TaskStep::Probed(Ok(outcome))
            },
            TaskStage::ProbeReleaseCancel => TaskStep::Probed(Ok(HotkeyAvailability::Available)),
            TaskStage::NewTrigger => match outcome {
                Err(a) => TaskStep::Replaced(task.source, Ok(HotkeyApplyResult::RolledBack(a))),
                Ok(_) => replace_cancel_step_exec(task),
            },
            TaskStage::NewCancel => match outcome {
                Err(a) => if task.candidate.trigger != task.source.pair.trigger {
                    TaskStep::Call(
                        set_stage(task, TaskStage::DropNewTrigger { availability: a }),
                        RegistrationCall::Release { id: alternate_trigger_id(task.source.trigger_id) },
                    )
                } else {
                    TaskStep::Replaced(task.source, Ok(HotkeyApplyResult::RolledBack(a)))
                },
                Ok(_) => replace_remove_old_exec(task),
            },
            TaskStage::DropNewTrigger { availability } => TaskStep::Replaced(
                task.source,
                Ok(HotkeyApplyResult::RolledBack(availability)),
            ),
            TaskStage::OldTrigger => {
                let t = RegistrationTask { trigger_old_removed: reply.succeeded, ..task };
                if t.candidate.cancel != t.source.pair.cancel {
                    TaskStep::Call(
                        set_stage(t, TaskStage::OldCancel),
                        RegistrationCall::Unregister { id: t.source.cancel_id },
                    )
                } else {
                    replace_evaluate_exec(t, le)
                }
            },
            TaskStage::OldCancel => replace_evaluate_exec(
                RegistrationTask { cancel_old_removed: reply.succeeded, ..task },
                le,
            ),
            TaskStage::ReleaseNewTrigger => if task.candidate.cancel != task.source.pair.cancel {
                TaskStep::Call(
                    set_stage(task, TaskStage::ReleaseNewCancel),
                    RegistrationCall::Release { id: alternate_cancel_id(task.source.cancel_id) },
                )
            } else {
                replace_restore_trigger_exec(task, le)
            },
            TaskStage::ReleaseNewCancel => replace_restore_trigger_exec(task, le),
            TaskStage::RestoreTrigger => {
                let ok = task.rollback_ok && outcome.is_ok();
                replace_restore_cancel_exec(RegistrationTask { rollback_ok: ok, ..task }, le)
            },
            TaskStage::RestoreCancel => {
                let ok = task.rollback_ok && outcome.is_ok();
                replace_conclude_exec(RegistrationTask { rollback_ok: ok, ..task }, le)
            },
        }
    }
}


// ---------------------------------------------------------------------------
// Laws of the registration tasks.
// ---------------------------------------------------------------------------

pub open spec fn is_register_stage(stage: TaskStage) -> bool {
    ||| stage is RegisterTrigger
    ||| stage is RegisterCancel
    ||| stage is ReleaseTriggerAfterCancel
}

pub open spec fn is_unregister_stage(stage: TaskStage) -> bool {
    stage is UnregisterTrigger || stage is UnregisterCancel
}

pub open spec fn is_probe_stage(stage: TaskStage) -> bool {
    ||| stage is ProbeTrigger
    ||| stage is ProbeCancel
    ||| stage is ProbeReleaseTrigger
    ||| stage is ProbeReleaseCancel
}

pub open spec fn is_replace_stage(stage: TaskStage) -> bool {
    ||| stage is NewTrigger
    ||| stage is NewCancel
    ||| stage is DropNewTrigger
    ||| stage is OldTrigger
    ||| stage is OldCancel
    ||| stage is ReleaseNewTrigger
    ||| stage is ReleaseNewCancel
    ||| stage is RestoreTrigger
    ||| stage is RestoreCancel
}

/// A replacement step keeps the task's starting state and candidate while it
/// runs; it ends with the candidate, under the alternate ids of the changed
/// halves, only as `Applied`, and every other ending leaves the active pair
/// and its ids as they were.
pub open spec fn replace_step_keeps_pair(task: RegistrationTask, step: TaskStep) -> bool {
    match step {
        TaskStep::Call(t, _) => t.source == task.source && t.candidate == task.candidate
            && is_replace_stage(t.stage),
        TaskStep::Replaced(s, r) => if r == Ok::<HotkeyApplyResult, HotkeyControlError>(
            HotkeyApplyResult::Applied,
        ) {
            s == applied_source(task)
        } else {
            s.pair == task.source.pair && s.trigger_id == task.source.trigger_id && s.cancel_id
                == task.source.cancel_id
        },
        _ => false,
    }
}

/// Replacing the shortcut pair is all or nothing: while a replacement runs
/// the active pair stays registered under its ids, the new pair becomes
/// active only once both changed chords are held, and any failure leaves the
/// previous pair and ids in place.
pub proof fn law_replacement_is_all_or_nothing(task: RegistrationTask, reply: NativeReply)
    requires
        is_replace_stage(task.stage),
    ensures
        replace_step_keeps_pair(task, task_resume(task, reply)),
{
}

/// The first step of a replacement: a native call for the candidate, or an
/// immediate ending that applies the candidate only when it is already the
/// active pair, and otherwise leaves the owner's state as it was.
pub proof fn law_replacement_start_keeps_pair(source: WindowsCommandSource, candidate: HotkeyPair)
    ensures
        match replace_start(source, candidate) {
            TaskStep::Call(t, _) => t.source == source && t.candidate == candidate
                && is_replace_stage(t.stage),
            TaskStep::Replaced(s, r) => if r == Ok::<HotkeyApplyResult, HotkeyControlError>(
                HotkeyApplyResult::Applied,
            ) {
                s.pair == candidate && s.registered == source.registered
            } else {
                s == source
            },
            _ => false,
        },
{
}

/// A candidate that swaps the trigger and cancel chords is refused as
/// unsupported before any native call, by a probe and by a replacement alike.
pub proof fn law_direct_swap_is_refused_without_calls(
    source: WindowsCommandSource,
    candidate: HotkeyPair,
)
    requires
        source.registered,
        candidate.platform_violation(HotkeyPlatform::Windows) is None,
        candidate != source.pair,
        spec_is_cross_swap(source.pair, candidate),
    ensures
        replace_start(source, candidate) == TaskStep::Replaced(
            source,
            Ok(HotkeyApplyResult::Rejected(HotkeyAvailability::Unsupported)),
        ),
        probe_start(source, candidate) == TaskStep::Probed(
            Ok(HotkeyAvailability::Unsupported),
        ),
{
}

/// A probe never changes the owner's state: it only asks for calls under the
/// probe ids and ends with an availability.
pub proof fn law_probe_leaves_registration_alone(
    source: WindowsCommandSource,
    candidate: HotkeyPair,
    task: RegistrationTask,
    reply: NativeReply,
)
    requires
        is_probe_stage(task.stage),
    ensures
        match probe_start(source, candidate) {
            TaskStep::Call(t, call) => t.source == source && is_probe_stage(t.stage) && (call
                == RegistrationCall::Register { id: PROBE_TRIGGER_ID, chord: call->chord } || call
                == RegistrationCall::Register { id: PROBE_CANCEL_ID, chord: call->chord }),
            TaskStep::Probed(_) => true,
            _ => false,
        },
        match task_resume(task, reply) {
            TaskStep::Call(t, call) => t.source == task.source && is_probe_stage(t.stage) && (
            call == RegistrationCall::Register { id: PROBE_CANCEL_ID, chord: call->chord } || call
                == RegistrationCall::Release { id: PROBE_TRIGGER_ID } || call
                == RegistrationCall::Release { id: PROBE_CANCEL_ID }),
            TaskStep::Probed(_) => true,
            _ => false,
        },
{
}

/// Registration marks the owner registered only when both chords are held;
/// a failure leaves it unregistered, with the trigger released again when
/// only the cancel chord failed.
pub proof fn law_registration_marks_only_success(task: RegistrationTask, reply: NativeReply)
    requires
        is_register_stage(task.stage),
    ensures
        match task_resume(task, reply) {
            TaskStep::Call(t, _) => t.source == task.source && is_register_stage(t.stage),
            TaskStep::Registered(s, r) => if r is Ok {
                s == (WindowsCommandSource { registered: true, ..task.source })
            } else {
                s == task.source
            },
            _ => false,
        },
{
}

/// Unregistering always ends with the owner unregistered, whatever the
/// native calls reported.
pub proof fn law_unregistering_always_clears(task: RegistrationTask, reply: NativeReply)
    requires
        is_unregister_stage(task.stage),
    ensures
        match task_resume(task, reply) {
            TaskStep::Call(t, _) => t.source == task.source && is_unregister_stage(t.stage),
            TaskStep::Unregistered(s, _) => !s.registered && s.pair == task.source.pair,
            _ => false,
        },
{
}

} // verus!
