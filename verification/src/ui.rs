//! The settings window's logic: reading a recorded or displayed shortcut,
//! turning the form's values into settings, and the labels it shows. The
//! window itself belongs to the host.
use vstd::prelude::*;

use crate::hotkey::{
    ascii_lower_char, parse_hotkey, parse_key, shortcut_from_text, token_key, HotkeyAvailability,
    HotkeyKey, HotkeyModifiers, HotkeyPair, HotkeyPlatform, HotkeySpec,
};
use crate::platform::AccessibilityPermissionState;
use crate::product::{AutoClipboardThreshold, InjectionMode};
use crate::settings::{HotkeyPreset, ProductSettings, SpeedPreset, SETTINGS_SCHEMA_VERSION};
use crate::textual::{chars_of, string_from_chars};

verus! {

#[derive(Debug, Clone, Copy, PartialEq, Eq, Structural)]
pub enum SettingsUiPlatform {
    Windows,
    MacOS,
}

impl SettingsUiPlatform {
    pub open spec fn spec_hotkey_platform(self) -> HotkeyPlatform {
        match self {
            SettingsUiPlatform::Windows => HotkeyPlatform::Windows,
            SettingsUiPlatform::MacOS => HotkeyPlatform::MacOS,
        }
    }

    pub fn hotkey_platform(self) -> (r: HotkeyPlatform)
        ensures
            r == self.spec_hotkey_platform(),
    {
        match self {
            SettingsUiPlatform::Windows => HotkeyPlatform::Windows,
            SettingsUiPlatform::MacOS => HotkeyPlatform::MacOS,
        }
    }

    pub fn name(self) -> (r: &'static str)
        ensures
            r@ == match self {
                SettingsUiPlatform::Windows => "Windows"@,
                SettingsUiPlatform::MacOS => "macOS"@,
            },
    {
        match self {
            SettingsUiPlatform::Windows => "Windows",
            SettingsUiPlatform::MacOS => "macOS",
        }
    }
}

#[derive(Debug, Clone, Copy, PartialEq, Eq, Structural)]
pub enum ShortcutField {
    Trigger,
    Cancel,
}

#[derive(Debug, Clone, Copy, PartialEq, Eq)]
pub enum SettingsUiEvent {
    Apply(ProductSettings),
    Probe(HotkeyPair),
    Reset(ProductSettings),
    RequestPermission,
    OpenPermissionSettings,
}

#[derive(Debug, Clone, Copy, PartialEq, Eq, Structural)]
pub enum SettingsUiError {
    Creation,
    ThreadStart,
    InitializationTimeout,
    EventLoop,
}

impl SettingsUiError {
    pub open spec fn name(self) -> Seq<char> {
        match self {
            SettingsUiError::Creation => "Creation"@,
            SettingsUiError::ThreadStart => "ThreadStart"@,
            SettingsUiError::InitializationTimeout => "InitializationTimeout"@,
            SettingsUiError::EventLoop => "EventLoop"@,
        }
    }

    /// The text that a failure is reported with.
    pub fn message(self) -> (r: String)
        ensures
            r@ == "settings UI failure: "@ + self.name(),
    {
        let mut out = String::new();
        crate::textual::push_str(&mut out, "settings UI failure: ");
        let name = match self {
            SettingsUiError::Creation => "Creation",
            SettingsUiError::ThreadStart => "ThreadStart",
            SettingsUiError::InitializationTimeout => "InitializationTimeout",
            SettingsUiError::EventLoop => "EventLoop",
        };
        crate::textual::push_str(&mut out, name);
        out
    }
}

// ---------------------------------------------------------------------------
// Recorded shortcuts.
// ---------------------------------------------------------------------------

/// The key that a single typed character names, read case-insensitively.
pub fn key_from_character(text: &str) -> (r: Option<HotkeyKey>)
    ensures
        text@.len() == 1 ==> r == token_key(text@),
        text@.len() != 1 ==> r is None,
{
    let chars = chars_of(text);
    if chars.len() != 1 {
        return None;
    }
    match parse_key(text) {
        Ok(k) => Some(k),
        Err(_) => None,
    }
}

/// The modifiers of a recorded key press. On macOS the window toolkit reports
/// Command as `control` and the physical Control key as `meta`, so the two
/// are swapped back.
pub open spec fn recorded_modifiers(
    control: bool,
    alt: bool,
    shift: bool,
    meta: bool,
    platform: SettingsUiPlatform,
) -> HotkeyModifiers {
    match platform {
        SettingsUiPlatform::Windows => HotkeyModifiers::spec_of(control, alt, shift, meta),
        SettingsUiPlatform::MacOS => HotkeyModifiers::spec_of(meta, alt, shift, control),
    }
}

pub open spec fn recorded_shortcut(
    key: Option<HotkeyKey>,
    control: bool,
    alt: bool,
    shift: bool,
    meta: bool,
    platform: SettingsUiPlatform,
) -> Result<HotkeySpec, Seq<char>> {
    match key {
        None => Err("That key is not supported as a global shortcut."@),
        Some(k) => {
            let spec = HotkeySpec { modifiers: recorded_modifiers(control, alt, shift, meta, platform), key: k };
            if spec.platform_violation(platform.spec_hotkey_platform()) is Some {
                Err("Shortcut requires a primary modifier and must not be reserved."@)
            } else {
                Ok(spec)
            }
        },
    }
}

/// The shortcut recorded from a key press, valid for the platform.
pub fn shortcut_from_event(
    key: Option<HotkeyKey>,
    control: bool,
    alt: bool,
    shift: bool,
    meta: bool,
    platform: SettingsUiPlatform,
) -> (r: Result<HotkeySpec, &'static str>)
    ensures
        match recorded_shortcut(key, control, alt, shift, meta, platform) {
            Ok(s) => r == Ok::<HotkeySpec, &'static str>(s),
            Err(m) => r is Err && r->Err_0@ == m,
        },
{
    let k = match key {
        None => return Err("That key is not supported as a global shortcut."),
        Some(k) => k,
    };
    let (primary_control, primary_meta) = match platform {
        SettingsUiPlatform::Windows => (control, meta),
        SettingsUiPlatform::MacOS => (meta, control),
    };
    let modifiers = HotkeyModifiers::from_members(primary_control, alt, shift, primary_meta);
    match HotkeySpec::new(modifiers, k).validate_for(platform.hotkey_platform()) {
        Ok(s) => Ok(s),
        Err(_) => Err("Shortcut requires a primary modifier and must not be reserved."),
    }
}

// ---------------------------------------------------------------------------
// Displayed shortcuts.
// ---------------------------------------------------------------------------

/// macOS modifier symbols spelled out as tokens.
pub open spec fn symbol_expansion(c: char) -> Seq<char> {
    if c == '\u{2303}' {
        "ctrl+"@
    } else if c == '\u{2325}' {
        "alt+"@
    } else if c == '\u{21E7}' {
        "shift+"@
    } else if c == '\u{2318}' {
        "meta+"@
    } else {
        seq![c]
    }
}

pub open spec fn expand_symbols(s: Seq<char>) -> Seq<char>
    decreases s.len(),
{
    if s.len() == 0 {
        seq![]
    } else {
        symbol_expansion(s[0]) + expand_symbols(s.skip(1))
    }
}

/// Every `Win+` becomes `meta+`, left to right.
pub open spec fn replace_win(s: Seq<char>) -> Seq<char>
    decreases s.len(),
{
    if s.len() == 0 {
        seq![]
    } else if s.len() >= 4 && s.take(4) == "Win+"@ {
        "meta+"@ + replace_win(s.skip(4))
    } else {
        seq![s[0]] + replace_win(s.skip(1))
    }
}

/// Spaces dropped and ASCII letters lowered.
pub open spec fn squeeze_lower(s: Seq<char>) -> Seq<char>
    decreases s.len(),
{
    if s.len() == 0 {
        seq![]
    } else if s[0] == ' ' {
        squeeze_lower(s.skip(1))
    } else {
        seq![ascii_lower_char(s[0])] + squeeze_lower(s.skip(1))
    }
}

/// A displayed label in the parser's spelling: symbols and `Win+` become
/// tokens, spaces go, and letters are lowered.
pub open spec fn display_canonical(s: Seq<char>) -> Seq<char> {
    squeeze_lower(replace_win(expand_symbols(s)))
}

fn expand_symbols_exec(s: &Vec<char>) -> (r: Vec<char>)
    ensures
        r@ == expand_symbols(s@),
{
    let mut out: Vec<char> = Vec::new();
    let n = s.len();
    let mut i: usize = 0;
    assert(s@.skip(0) =~= s@);
    assert(out@ + expand_symbols(s@) =~= expand_symbols(s@));
    while i < n
        invariant
            n == s@.len(),
            i <= n,
            out@ + expand_symbols(s@.skip(i as int)) == expand_symbols(s@),
        decreases n - i,
    {
        let c = s[i];
        let ghost before = out@;
        assert(s@.skip(i as int).skip(1) =~= s@.skip(i + 1));
        if c == '\u{2303}' {
            out.push('c');
            out.push('t');
            out.push('r');
            out.push('l');
            out.push('+');
            proof {
                reveal_strlit("ctrl+");
            }
        } else if c == '\u{2325}' {
            out.push('a');
            out.push('l');
            out.push('t');
            out.push('+');
            proof {
                reveal_strlit("alt+");
            }
        } else if c == '\u{21E7}' {
            out.push('s');
            out.push('h');
            out.push('i');
            out.push('f');
            out.push('t');
            out.push('+');
            proof {
                reveal_strlit("shift+");
            }
        } else if c == '\u{2318}' {
            out.push('m');
            out.push('e');
            out.push('t');
            out.push('a');
            out.push('+');
            proof {
                reveal_strlit("meta+");
            }
        } else {
            out.push(c);
        }
        assert(out@ =~= before + symbol_expansion(c));
        assert(before + expand_symbols(s@.skip(i as int)) =~= out@ + expand_symbols(s@.skip(i + 1)));
        i = i + 1;
    }
    assert(s@.skip(n as int) =~= Seq::<char>::empty());
    assert(out@ =~= out@ + expand_symbols(s@.skip(n as int)));
    out
}

fn replace_win_exec(s: &Vec<char>) -> (r: Vec<char>)
    ensures
        r@ == replace_win(s@),
{
    proof {
        reveal_strlit("Win+");
        reveal_strlit("meta+");
    }
    let mut out: Vec<char> = Vec::new();
    let n = s.len();
    let mut i: usize = 0;
    assert(s@.skip(0) =~= s@);
    assert(out@ + replace_win(s@) =~= replace_win(s@));
    while i < n
        invariant
            n == s@.len(),
            i <= n,
            out@ + replace_win(s@.skip(i as int)) == replace_win(s@),
            "Win+"@ == seq!['W', 'i', 'n', '+'],
            "meta+"@ == seq!['m', 'e', 't', 'a', '+'],
        decreases n - i,
    {
        let ghost before = out@;
        let ghost rest = s@.skip(i as int);
        if n - i >= 4 && s[i] == 'W' && s[i + 1] == 'i' && s[i + 2] == 'n' && s[i + 3] == '+' {
            assert(rest.take(4) =~= "Win+"@);
            assert(rest.skip(4) =~= s@.skip(i + 4));
            out.push('m');
            out.push('e');
            out.push('t');
            out.push('a');
            out.push('+');
            assert(out@ =~= before + "meta+"@);
            assert(before + replace_win(rest) =~= out@ + replace_win(s@.skip(i + 4)));
            i = i + 4;
        } else {
            assert(!(rest.len() >= 4 && rest.take(4) == "Win+"@)) by {
                if rest.len() >= 4 && rest.take(4) == "Win+"@ {
                    assert(rest.take(4)[0] == 'W');
                    assert(rest.take(4)[1] == 'i');
                    assert(rest.take(4)[2] == 'n');
                    assert(rest.take(4)[3] == '+');
                }
            }
            assert(rest.skip(1) =~= s@.skip(i + 1));
            out.push(s[i]);
            assert(before + replace_win(rest) =~= out@ + replace_win(s@.skip(i + 1)));
            i = i + 1;
        }
    }
    assert(s@.skip(n as int) =~= Seq::<char>::empty());
    assert(out@ =~= out@ + replace_win(s@.skip(n as int)));
    out
}

fn squeeze_lower_exec(s: &Vec<char>) -> (r: Vec<char>)
    ensures
        r@ == squeeze_lower(s@),
{
    let mut out: Vec<char> = Vec::new();
    let n = s.len();
    let mut i: usize = 0;
    assert(s@.skip(0) =~= s@);
    assert(out@ + squeeze_lower(s@) =~= squeeze_lower(s@));
    while i < n
        invariant
            n == s@.len(),
            i <= n,
            out@ + squeeze_lower(s@.skip(i as int)) == squeeze_lower(s@),
        decreases n - i,
    {
        let ghost before = out@;
        assert(s@.skip(i as int).skip(1) =~= s@.skip(i + 1));
        let c = s[i];
        if c != ' ' {
            out.push(crate::hotkey::lower_char(c));
        }
        assert(before + squeeze_lower(s@.skip(i as int)) =~= out@ + squeeze_lower(s@.skip(i + 1)));
        i = i + 1;
    }
    assert(s@.skip(n as int) =~= Seq::<char>::empty());
    assert(out@ =~= out@ + squeeze_lower(s@.skip(n as int)));
    out
}

pub open spec fn display_shortcut(s: Seq<char>) -> Result<HotkeySpec, Seq<char>> {
    match shortcut_from_text(display_canonical(s)) {
        Ok(spec) => Ok(spec),
        Err(_) => Err("Shortcut text is invalid."@),
    }
}

/// Reads a shortcut as the window shows it, in either platform's style.
pub fn parse_display_shortcut(value: &str) -> (r: Result<HotkeySpec, &'static str>)
    ensures
        match display_shortcut(value@) {
            Ok(s) => r == Ok::<HotkeySpec, &'static str>(s),
            Err(m) => r is Err && r->Err_0@ == m,
        },
{
    let chars = chars_of(value);
    let a = expand_symbols_exec(&chars);
    let b = replace_win_exec(&a);
    let c = squeeze_lower_exec(&b);
    let text = string_from_chars(c.as_slice());
    match parse_hotkey(text.as_str()) {
        Ok(spec) => Ok(spec),
        Err(_) => Err("Shortcut text is invalid."),
    }
}

pub open spec fn displayed_pair(
    trigger: Seq<char>,
    cancel: Seq<char>,
    platform: SettingsUiPlatform,
) -> Result<HotkeyPair, Seq<char>> {
    match display_shortcut(trigger) {
        Err(m) => Err(m),
        Ok(t) => match display_shortcut(cancel) {
            Err(m) => Err(m),
            Ok(c) => {
                let pair = HotkeyPair { trigger: t, cancel: c };
                if pair.platform_violation(platform.spec_hotkey_platform()) is Some {
                    Err("The shortcut pair is invalid, duplicate, reserved, or unsupported."@)
                } else {
                    Ok(pair)
                }
            },
        },
    }
}

/// The pair shown in the window's two shortcut fields, valid for the platform.
pub fn hotkeys_from_text(trigger: &str, cancel: &str, platform: SettingsUiPlatform) -> (r: Result<
    HotkeyPair,
    &'static str,
>)
    ensures
        match displayed_pair(trigger@, cancel@, platform) {
            Ok(p) => r == Ok::<HotkeyPair, &'static str>(p),
            Err(m) => r is Err && r->Err_0@ == m,
        },
{
    let t = match parse_display_shortcut(trigger) {
        Ok(t) => t,
        Err(m) => return Err(m),
    };
    let c = match parse_display_shortcut(cancel) {
        Ok(c) => c,
        Err(m) => return Err(m),
    };
    match HotkeyPair::new(t, c).validate_for(platform.hotkey_platform()) {
        Ok(p) => Ok(p),
        Err(_) => Err("The shortcut pair is invalid, duplicate, reserved, or unsupported."),
    }
}

// ---------------------------------------------------------------------------
// The form.
// ---------------------------------------------------------------------------

/// The values the settings form holds.
#[derive(Debug, Clone, PartialEq, Eq)]
pub struct SettingsForm {
    pub enabled: bool,
    pub notifications: bool,
    pub start_at_login: bool,
    pub mode_index: i32,
    pub auto_threshold: i32,
    pub characters_per_second: i32,
    pub jitter_percent: i32,
    pub typo_percent: i32,
    pub trigger_hotkey: String,
    pub cancel_hotkey: String,
}

pub open spec fn mode_of_index(index: i32) -> Option<InjectionMode> {
    if index == 0 {
        Some(InjectionMode::Keyboard)
    } else if index == 1 {
        Some(InjectionMode::Clipboard)
    } else if index == 2 {
        Some(InjectionMode::Auto)
    } else if index == 3 {
        Some(InjectionMode::Code)
    } else {
        None
    }
}

/// The form's index of a mode.
pub fn mode_index(mode: InjectionMode) -> (r: i32)
    ensures
        mode_of_index(r) == Some(mode),
{
    match mode {
        InjectionMode::Keyboard => 0,
        InjectionMode::Clipboard => 1,
        InjectionMode::Auto => 2,
        InjectionMode::Code => 3,
    }
}

/// The settings the form describes: the shortcut pair must be valid, each
/// number in its type's range and the threshold above zero, and the whole
/// must validate; the speed becomes custom and the schema version current.
pub open spec fn form_settings(
    form: SettingsForm,
    platform: SettingsUiPlatform,
    hotkey: HotkeyPreset,
) -> Result<ProductSettings, Seq<char>> {
    match displayed_pair(form.trigger_hotkey@, form.cancel_hotkey@, platform) {
        Err(m) => Err(m),
        Ok(_) => match mode_of_index(form.mode_index) {
            None => Err("Invalid injection mode."@),
            Some(mode) => if form.auto_threshold <= 0 {
                Err("Auto threshold is out of range."@)
            } else if !(0 <= form.characters_per_second <= u16::MAX) {
                Err("Characters per second is out of range."@)
            } else if !(0 <= form.jitter_percent <= u8::MAX) {
                Err("Jitter is out of range."@)
            } else if !(0 <= form.typo_percent <= u8::MAX) {
                Err("Typo probability is out of range."@)
            } else {
                let settings = ProductSettings {
                    version: SETTINGS_SCHEMA_VERSION,
                    enabled: form.enabled,
                    mode,
                    auto_clipboard_threshold: AutoClipboardThreshold::spec_new(
                        form.auto_threshold as usize,
                    ),
                    speed: SpeedPreset::Custom,
                    characters_per_second: form.characters_per_second as u16,
                    jitter_percent: form.jitter_percent as u8,
                    typo_probability_percent: form.typo_percent as u8,
                    notifications: form.notifications,
                    start_at_login: form.start_at_login,
                    hotkey,
                };
                if settings.violation() is Some {
                    Err("One or more settings are invalid."@)
                } else {
                    Ok(settings)
                }
            },
        },
    }
}

/// Reads the form into settings; `hotkey` is the shortcut preset kept with
/// them.
pub fn settings_from_form(
    form: &SettingsForm,
    platform: SettingsUiPlatform,
    hotkey: HotkeyPreset,
) -> (r: Result<ProductSettings, &'static str>)
    ensures
        match form_settings(*form, platform, hotkey) {
            Ok(s) => r == Ok::<ProductSettings, &'static str>(s),
            Err(m) => r is Err && r->Err_0@ == m,
        },
{
    match hotkeys_from_text(form.trigger_hotkey.as_str(), form.cancel_hotkey.as_str(), platform) {
        Ok(_) => {},
        Err(m) => return Err(m),
    }
    let mode = if form.mode_index == 0 {
        InjectionMode::Keyboard
    } else if form.mode_index == 1 {
        InjectionMode::Clipboard
    } else if form.mode_index == 2 {
        InjectionMode::Auto
    } else if form.mode_index == 3 {
        InjectionMode::Code
    } else {
        return Err("Invalid injection mode.");
    };
    if form.auto_threshold <= 0 {
        return Err("Auto threshold is out of range.");
    }
    let threshold = match AutoClipboardThreshold::new(form.auto_threshold as usize) {
        Ok(t) => t,
        Err(_) => return Err("Auto threshold is out of range."),
    };
    if form.characters_per_second < 0 || form.characters_per_second > 0xFFFF {
        return Err("Characters per second is out of range.");
    }
    if form.jitter_percent < 0 || form.jitter_percent > 0xFF {
        return Err("Jitter is out of range.");
    }
    if form.typo_percent < 0 || form.typo_percent > 0xFF {
        return Err("Typo probability is out of range.");
    }
    let settings = ProductSettings {
        version: SETTINGS_SCHEMA_VERSION,
        enabled: form.enabled,
        mode,
        auto_clipboard_threshold: threshold,
        speed: SpeedPreset::Custom,
        characters_per_second: form.characters_per_second as u16,
        jitter_percent: form.jitter_percent as u8,
        typo_probability_percent: form.typo_percent as u8,
        notifications: form.notifications,
        start_at_login: form.start_at_login,
        hotkey,
    };
    match settings.validate() {
        Ok(s) => Ok(s),
        Err(_) => Err("One or more settings are invalid."),
    }
}

// ---------------------------------------------------------------------------
// Labels.
// ---------------------------------------------------------------------------

pub fn permission_label(permission: AccessibilityPermissionState) -> (r: &'static str)
    ensures
        r@ == match permission {
            AccessibilityPermissionState::NotRequired => "Not required"@,
            AccessibilityPermissionState::NotRequested => "Not requested"@,
            AccessibilityPermissionState::NotGranted => "Not granted"@,
            AccessibilityPermissionState::Granted => "Granted"@,
            AccessibilityPermissionState::Revoked => "Revoked while running"@,
            AccessibilityPermissionState::Unknown => "Unknown"@,
        },
{
    match permission {
        AccessibilityPermissionState::NotRequired => "Not required",
        AccessibilityPermissionState::NotRequested => "Not requested",
        AccessibilityPermissionState::NotGranted => "Not granted",
        AccessibilityPermissionState::Granted => "Granted",
        AccessibilityPermissionState::Revoked => "Revoked while running",
        AccessibilityPermissionState::Unknown => "Unknown",
    }
}

pub fn availability_label(availability: HotkeyAvailability) -> (r: &'static str)
    ensures
        r@ == match availability {
            HotkeyAvailability::Available => "Available"@,
            HotkeyAvailability::Conflict => "In use"@,
            HotkeyAvailability::Reserved => "Reserved"@,
            HotkeyAvailability::Unsupported => "Unsupported"@,
            HotkeyAvailability::Unknown => "Cannot fully verify"@,
        },
{
    match availability {
        HotkeyAvailability::Available => "Available",
        HotkeyAvailability::Conflict => "In use",
        HotkeyAvailability::Reserved => "Reserved",
        HotkeyAvailability::Unsupported => "Unsupported",
        HotkeyAvailability::Unknown => "Cannot fully verify",
    }
}

/// The capability note for a platform, and whether the permission actions
/// are offered (only where Accessibility trust exists).
pub fn capability_status(platform: SettingsUiPlatform) -> (r: (&'static str, bool))
    ensures
        r.1 == (platform == SettingsUiPlatform::MacOS),
        r.0@ == match platform {
            SettingsUiPlatform::Windows => "Windows global shortcuts and input use normal-user Win32 APIs. Elevated targets remain blocked."@,
            SettingsUiPlatform::MacOS => "Accessibility permission is required for cross-application synthetic input and detailed destination evidence."@,
        },
{
    match platform {
        SettingsUiPlatform::Windows => (
            "Windows global shortcuts and input use normal-user Win32 APIs. Elevated targets remain blocked.",
            false,
        ),
        SettingsUiPlatform::MacOS => (
            "Accessibility permission is required for cross-application synthetic input and detailed destination evidence.",
            true,
        ),
    }
}

/// A recorded shortcut is always one the platform accepts.
pub proof fn law_recorded_shortcuts_are_valid(
    key: Option<HotkeyKey>,
    control: bool,
    alt: bool,
    shift: bool,
    meta: bool,
    platform: SettingsUiPlatform,
)
    ensures
        recorded_shortcut(key, control, alt, shift, meta, platform) matches Ok(s) ==> s.platform_violation(
            platform.spec_hotkey_platform(),
        ) is None,
{
}

/// Settings read from the form always validate.
pub proof fn law_form_settings_validate(
    form: SettingsForm,
    platform: SettingsUiPlatform,
    hotkey: HotkeyPreset,
)
    ensures
        form_settings(form, platform, hotkey) matches Ok(s) ==> s.violation() is None && s.speed
            == SpeedPreset::Custom,
{
}

} // verus!
