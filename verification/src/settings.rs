//! Versioned, content-free user settings vocabulary.
use std::time::Duration;

use vstd::prelude::*;

use crate::config::P1Config;
use crate::duration::{duration_from_nanos, duration_nanos};
use crate::product::{AutoClipboardThreshold, InjectionMode, ProductConfig, ProductConfigError};

verus! {

pub const SETTINGS_SCHEMA_VERSION: u32 = 1;

pub const MIN_CHARACTERS_PER_SECOND: u16 = 1;

pub const MAX_CHARACTERS_PER_SECOND: u16 = 250;

pub const MAX_JITTER_PERCENT: u8 = 95;

pub const MAX_TYPO_PROBABILITY_PERCENT: u8 = 25;

#[derive(Debug, Clone, Copy, PartialEq, Eq, Structural)]
pub enum SpeedPreset {
    Slow,
    Normal,
    Fast,
    Custom,
}

impl Default for SpeedPreset {
    fn default() -> (r: Self)
        ensures
            r == SpeedPreset::Normal,
    {
        SpeedPreset::Normal
    }
}

/// The nanoseconds between keystrokes at a typing rate.
pub open spec fn interval_nanos(characters_per_second: u16) -> nat
    recommends
        characters_per_second > 0,
{
    (1_000_000_000nat / characters_per_second as nat) as nat
}

impl SpeedPreset {
    pub open spec fn spec_default_characters_per_second(self) -> u16 {
        match self {
            SpeedPreset::Slow => 8,
            SpeedPreset::Normal => 40,
            SpeedPreset::Fast => 120,
            SpeedPreset::Custom => 40,
        }
    }

    #[verifier::when_used_as_spec(spec_default_characters_per_second)]
    pub fn default_characters_per_second(self) -> (r: u16)
        ensures
            r == self.spec_default_characters_per_second(),
    {
        match self {
            SpeedPreset::Slow => 8,
            SpeedPreset::Normal => 40,
            SpeedPreset::Fast => 120,
            SpeedPreset::Custom => 40,
        }
    }

    /// The keystroke interval of the preset's default rate.
    pub fn keyboard_interval(self) -> (r: Duration)
        ensures
            duration_nanos(r) == interval_nanos(self.spec_default_characters_per_second()),
    {
        interval_for_characters_per_second(self.default_characters_per_second())
    }
}

/// The speed presets type 8, 40 and 120 characters a second (slow, normal,
/// fast; a custom speed starts at 40), and a rate of `n` characters a second
/// leaves one second divided by `n` between keystrokes.
pub proof fn law_speed_presets_are_documented(n: u16)
    ensures
        SpeedPreset::Slow.spec_default_characters_per_second() == 8,
        SpeedPreset::Normal.spec_default_characters_per_second() == 40,
        SpeedPreset::Fast.spec_default_characters_per_second() == 120,
        SpeedPreset::Custom.spec_default_characters_per_second() == 40,
        n > 0 ==> interval_nanos(n) * n <= 1_000_000_000 < (interval_nanos(n) + 1) * n,
{
    if n > 0 {
        let q = interval_nanos(n);
        assert(q == 1_000_000_000nat / (n as nat));
        assert(q * n <= 1_000_000_000 < (q + 1) * n) by (nonlinear_arith)
            requires
                q == 1_000_000_000nat / (n as nat),
                n > 0,
        ;
    }
}

/// The shortcut presets start with F12 and cancel with F11, under Ctrl+Alt+Shift,
/// Ctrl+Alt or Ctrl+Shift.
pub proof fn law_hotkey_preset_labels_are_documented()
    ensures
        HotkeyPreset::CtrlAltShiftFunction.spec_trigger_label() == "Ctrl+Alt+Shift+F12"@,
        HotkeyPreset::CtrlAltFunction.spec_trigger_label() == "Ctrl+Alt+F12"@,
        HotkeyPreset::CtrlShiftFunction.spec_trigger_label() == "Ctrl+Shift+F12"@,
        HotkeyPreset::CtrlAltShiftFunction.spec_cancel_label() == "Ctrl+Alt+Shift+F11"@,
        HotkeyPreset::CtrlAltFunction.spec_cancel_label() == "Ctrl+Alt+F11"@,
        HotkeyPreset::CtrlShiftFunction.spec_cancel_label() == "Ctrl+Shift+F11"@,
{
}

fn interval_for_characters_per_second(characters_per_second: u16) -> (r: Duration)
    requires
        characters_per_second > 0,
    ensures
        duration_nanos(r) == interval_nanos(characters_per_second),
{
    duration_from_nanos(1_000_000_000u64 / (characters_per_second as u64))
}

/// Reviewed Windows global-hotkey pairs. Arbitrary user strings are not parsed.
#[derive(Debug, Clone, Copy, PartialEq, Eq, Structural)]
pub enum HotkeyPreset {
    CtrlAltShiftFunction,
    CtrlAltFunction,
    CtrlShiftFunction,
}

impl Default for HotkeyPreset {
    fn default() -> (r: Self)
        ensures
            r == HotkeyPreset::CtrlAltShiftFunction,
    {
        HotkeyPreset::CtrlAltShiftFunction
    }
}

impl HotkeyPreset {
    pub open spec fn spec_trigger_label(self) -> Seq<char> {
        match self {
            HotkeyPreset::CtrlAltShiftFunction => "Ctrl+Alt+Shift+F12"@,
            HotkeyPreset::CtrlAltFunction => "Ctrl+Alt+F12"@,
            HotkeyPreset::CtrlShiftFunction => "Ctrl+Shift+F12"@,
        }
    }

    pub open spec fn spec_cancel_label(self) -> Seq<char> {
        match self {
            HotkeyPreset::CtrlAltShiftFunction => "Ctrl+Alt+Shift+F11"@,
            HotkeyPreset::CtrlAltFunction => "Ctrl+Alt+F11"@,
            HotkeyPreset::CtrlShiftFunction => "Ctrl+Shift+F11"@,
        }
    }

    pub fn trigger_label(self) -> (r: &'static str)
        ensures
            r@ == self.spec_trigger_label(),
            r@ == match self {
                HotkeyPreset::CtrlAltShiftFunction => "Ctrl+Alt+Shift+F12"@,
                HotkeyPreset::CtrlAltFunction => "Ctrl+Alt+F12"@,
                HotkeyPreset::CtrlShiftFunction => "Ctrl+Shift+F12"@,
            },
    {
        match self {
            HotkeyPreset::CtrlAltShiftFunction => "Ctrl+Alt+Shift+F12",
            HotkeyPreset::CtrlAltFunction => "Ctrl+Alt+F12",
            HotkeyPreset::CtrlShiftFunction => "Ctrl+Shift+F12",
        }
    }

    pub fn cancel_label(self) -> (r: &'static str)
        ensures
            r@ == self.spec_cancel_label(),
            r@ == match self {
                HotkeyPreset::CtrlAltShiftFunction => "Ctrl+Alt+Shift+F11"@,
                HotkeyPreset::CtrlAltFunction => "Ctrl+Alt+F11"@,
                HotkeyPreset::CtrlShiftFunction => "Ctrl+Shift+F11"@,
            },
    {
        match self {
            HotkeyPreset::CtrlAltShiftFunction => "Ctrl+Alt+Shift+F11",
            HotkeyPreset::CtrlAltFunction => "Ctrl+Alt+F11",
            HotkeyPreset::CtrlShiftFunction => "Ctrl+Shift+F11",
        }
    }
}

#[derive(Debug, Clone, Copy, PartialEq, Eq, Structural)]
pub struct ProductSettings {
    pub version: u32,
    pub enabled: bool,
    pub mode: InjectionMode,
    pub auto_clipboard_threshold: AutoClipboardThreshold,
    pub speed: SpeedPreset,
    pub characters_per_second: u16,
    pub jitter_percent: u8,
    pub typo_probability_percent: u8,
    pub notifications: bool,
    pub start_at_login: bool,
    pub hotkey: HotkeyPreset,
}

#[derive(Debug, Clone, Copy, PartialEq, Eq, Structural)]
pub enum SettingsValidationError {
    UnsupportedVersion(u32),
    CharactersPerSecondOutOfRange,
    JitterOutOfRange,
    TypoProbabilityOutOfRange,
    InvalidRuntime(ProductConfigError),
}

impl ProductSettings {
    /// The runtime configuration these settings describe: the P1 defaults with
    /// the keystroke interval of the chosen rate.
    pub open spec fn describes_runtime(self, c: ProductConfig) -> bool {
        &&& c.enabled == self.enabled
        &&& c.mode == self.mode
        &&& c.auto_clipboard_threshold == self.auto_clipboard_threshold
        &&& c.jitter_percent == self.jitter_percent
        &&& c.typo_probability_percent == self.typo_probability_percent
        &&& c.safety.is_default_apart_from_interval()
        &&& duration_nanos(c.safety.keyboard_interval) == interval_nanos(self.characters_per_second)
    }

    /// Why the runtime configuration is refused, if it is.
    pub open spec fn runtime_violation(self) -> Option<ProductConfigError> {
        if self.jitter_percent > MAX_JITTER_PERCENT {
            Some(ProductConfigError::JitterOutOfRange)
        } else if self.typo_probability_percent > MAX_TYPO_PROBABILITY_PERCENT {
            Some(ProductConfigError::TypoProbabilityOutOfRange)
        } else {
            None
        }
    }

    /// The first rule, in checking order, that the settings break.
    pub open spec fn violation(self) -> Option<SettingsValidationError> {
        if self.version != SETTINGS_SCHEMA_VERSION {
            Some(SettingsValidationError::UnsupportedVersion(self.version))
        } else if !(MIN_CHARACTERS_PER_SECOND <= self.characters_per_second
            <= MAX_CHARACTERS_PER_SECOND) {
            Some(SettingsValidationError::CharactersPerSecondOutOfRange)
        } else if self.jitter_percent > MAX_JITTER_PERCENT {
            Some(SettingsValidationError::JitterOutOfRange)
        } else if self.typo_probability_percent > MAX_TYPO_PROBABILITY_PERCENT {
            Some(SettingsValidationError::TypoProbabilityOutOfRange)
        } else {
            match self.runtime_violation() {
                Some(e) => Some(SettingsValidationError::InvalidRuntime(e)),
                None => None,
            }
        }
    }

    pub fn validate(self) -> (r: Result<Self, SettingsValidationError>)
        ensures
            r == match self.violation() {
                Some(e) => Err(e),
                None => Ok::<Self, SettingsValidationError>(self),
            },
    {
        if self.version != SETTINGS_SCHEMA_VERSION {
            return Err(SettingsValidationError::UnsupportedVersion(self.version));
        }
        if !(MIN_CHARACTERS_PER_SECOND <= self.characters_per_second
            && self.characters_per_second <= MAX_CHARACTERS_PER_SECOND) {
            return Err(SettingsValidationError::CharactersPerSecondOutOfRange);
        }
        if self.jitter_percent > MAX_JITTER_PERCENT {
            return Err(SettingsValidationError::JitterOutOfRange);
        }
        if self.typo_probability_percent > MAX_TYPO_PROBABILITY_PERCENT {
            return Err(SettingsValidationError::TypoProbabilityOutOfRange);
        }
        match self.runtime_config() {
            Ok(_) => Ok(self),
            Err(e) => Err(SettingsValidationError::InvalidRuntime(e)),
        }
    }

    /// The configuration a new session takes from these settings.
    pub fn runtime_config(self) -> (r: Result<ProductConfig, ProductConfigError>)
        requires
            self.characters_per_second > 0,
        ensures
            match (r, self.runtime_violation()) {
                (Ok(c), None) => self.describes_runtime(c),
                (Err(e1), Some(e2)) => e1 == e2,
                _ => false,
            },
    {
        let mut safety = P1Config::p1_default();
        safety.keyboard_interval = interval_for_characters_per_second(self.characters_per_second);
        let config = ProductConfig {
            enabled: self.enabled,
            mode: self.mode,
            auto_clipboard_threshold: self.auto_clipboard_threshold,
            jitter_percent: self.jitter_percent,
            typo_probability_percent: self.typo_probability_percent,
            safety,
        };
        config.validate()
    }

    /// The shipped settings: version 1, enabled, Auto mode with a clipboard
    /// threshold of 256 elements, the Normal rate of 40 characters per second,
    /// no jitter or typos, notifications on, no start at login, and the
    /// Ctrl+Alt+Shift function-key pair.
    pub open spec fn is_default(self) -> bool {
        &&& self.version == SETTINGS_SCHEMA_VERSION
        &&& self.enabled
        &&& self.mode == InjectionMode::Auto
        &&& self.auto_clipboard_threshold.spec_get() == 256
        &&& self.speed == SpeedPreset::Normal
        &&& self.characters_per_second == 40
        &&& self.jitter_percent == 0
        &&& self.typo_probability_percent == 0
        &&& self.notifications
        &&& !self.start_at_login
        &&& self.hotkey == HotkeyPreset::CtrlAltShiftFunction
    }
}

impl Default for ProductSettings {
    fn default() -> (r: Self)
        ensures
            r.is_default(),
    {
        ProductSettings {
            version: SETTINGS_SCHEMA_VERSION,
            enabled: true,
            mode: InjectionMode::Auto,
            auto_clipboard_threshold: AutoClipboardThreshold::default_threshold(),
            speed: SpeedPreset::Normal,
            characters_per_second: SpeedPreset::Normal.default_characters_per_second(),
            jitter_percent: 0,
            typo_probability_percent: 0,
            notifications: true,
            start_at_login: false,
            hotkey: HotkeyPreset::CtrlAltShiftFunction,
        }
    }
}

/// Settings accepted by `validate` yield a runtime configuration, and it is
/// the one they describe.
pub proof fn law_valid_settings_have_runtime_config(s: ProductSettings)
    requires
        s.violation() is None,
    ensures
        s.characters_per_second > 0,
        s.runtime_violation() is None,
{
}

} // verus!
