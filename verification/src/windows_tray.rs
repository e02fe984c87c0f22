//! The notification-area menu: what each menu command does to the settings,
//! which event it raises, and the text of each notice. Menus, icons and the
//! message loop belong to the host.
use vstd::prelude::*;

use crate::product::{InjectionBackend, InjectionMode};
use crate::settings::{
    ProductSettings, SpeedPreset, MAX_CHARACTERS_PER_SECOND, MAX_JITTER_PERCENT,
    MAX_TYPO_PROBABILITY_PERCENT, MIN_CHARACTERS_PER_SECOND,
};

verus! {

pub const CMD_TRIGGER: usize = 1001;
pub const CMD_CANCEL: usize = 1002;
pub const CMD_ENABLED: usize = 1100;
pub const CMD_NOTIFICATIONS: usize = 1101;
pub const CMD_MODE_AUTO: usize = 1200;
pub const CMD_MODE_KEYBOARD: usize = 1201;
pub const CMD_MODE_CLIPBOARD: usize = 1202;
pub const CMD_SPEED_SLOW: usize = 1300;
pub const CMD_SPEED_NORMAL: usize = 1301;
pub const CMD_SPEED_FAST: usize = 1302;
pub const CMD_SPEED_MINUS_TEN: usize = 1303;
pub const CMD_SPEED_MINUS_ONE: usize = 1304;
pub const CMD_SPEED_PLUS_ONE: usize = 1305;
pub const CMD_SPEED_PLUS_TEN: usize = 1306;
pub const CMD_SPEED_HEADER: usize = 1307;
pub const CMD_JITTER_MINUS_FIVE: usize = 1310;
pub const CMD_JITTER_PLUS_FIVE: usize = 1311;
pub const CMD_JITTER_HEADER: usize = 1312;
pub const CMD_TYPO_MINUS_ONE: usize = 1320;
pub const CMD_TYPO_PLUS_ONE: usize = 1321;
pub const CMD_TYPO_HEADER: usize = 1322;
pub const CMD_OPEN_SETTINGS: usize = 1390;
pub const CMD_STARTUP: usize = 1400;
pub const CMD_HOTKEY: usize = 1500;
pub const CMD_QUIT: usize = 1999;

pub const NIIF_INFO: u32 = 0x0001;
pub const NIIF_WARNING: u32 = 0x0002;
pub const NIIF_ERROR: u32 = 0x0003;

#[derive(Debug, Clone, Copy, PartialEq, Eq)]
pub enum TrayEvent {
    Trigger,
    Cancel,
    OpenSettings,
    SettingsChanged(ProductSettings),
    Quit,
}

#[derive(Debug, Clone, Copy, PartialEq, Eq, Structural)]
pub enum TrayNotice {
    Ready,
    Completed(InjectionBackend),
    Busy,
    Cancelled,
    ClipboardUnavailable,
    ClipboardChanged,
    TargetChanged,
    ModifierConflict,
    SecurityRestriction,
    SettingsSaved,
    SettingsFailed,
    StartupFailed,
    NativeFailure,
}

#[derive(Debug, Clone, Copy, PartialEq, Eq, Structural)]
pub enum TrayError {
    ThreadStart,
    InitializationTimeout,
    WindowClass,
    WindowCreation,
    IconUnavailable,
    IconRegistration,
    EventLoop,
}

impl TrayError {
    pub open spec fn name(self) -> Seq<char> {
        match self {
            TrayError::ThreadStart => "ThreadStart"@,
            TrayError::InitializationTimeout => "InitializationTimeout"@,
            TrayError::WindowClass => "WindowClass"@,
            TrayError::WindowCreation => "WindowCreation"@,
            TrayError::IconUnavailable => "IconUnavailable"@,
            TrayError::IconRegistration => "IconRegistration"@,
            TrayError::EventLoop => "EventLoop"@,
        }
    }

    /// The text that a failure is reported with.
    pub fn message(self) -> (r: String)
        ensures
            r@ == "Windows tray failure: "@ + self.name(),
    {
        let mut out = String::new();
        crate::textual::push_str(&mut out, "Windows tray failure: ");
        let name = match self {
            TrayError::ThreadStart => "ThreadStart",
            TrayError::InitializationTimeout => "InitializationTimeout",
            TrayError::WindowClass => "WindowClass",
            TrayError::WindowCreation => "WindowCreation",
            TrayError::IconUnavailable => "IconUnavailable",
            TrayError::IconRegistration => "IconRegistration",
            TrayError::EventLoop => "EventLoop",
        };
        crate::textual::push_str(&mut out, name);
        out
    }
}

/// A step of the typing speed: the rate moves by `delta` and stays within
/// the allowed range, and the preset becomes custom.
pub open spec fn speed_adjusted(settings: ProductSettings, delta: i16) -> ProductSettings {
    let next = settings.characters_per_second + delta;
    ProductSettings {
        characters_per_second: if next < MIN_CHARACTERS_PER_SECOND {
            MIN_CHARACTERS_PER_SECOND
        } else if next > MAX_CHARACTERS_PER_SECOND {
            MAX_CHARACTERS_PER_SECOND
        } else {
            next as u16
        },
        speed: SpeedPreset::Custom,
        ..settings
    }
}

pub fn adjust_speed(settings: &mut ProductSettings, delta: i16)
    ensures
        *final(settings) == speed_adjusted(*old(settings), delta),
{
    let next: i32 = settings.characters_per_second as i32 + delta as i32;
    let clamped: u16 = if next < MIN_CHARACTERS_PER_SECOND as i32 {
        MIN_CHARACTERS_PER_SECOND
    } else if next > MAX_CHARACTERS_PER_SECOND as i32 {
        MAX_CHARACTERS_PER_SECOND
    } else {
        next as u16
    };
    settings.characters_per_second = clamped;
    settings.speed = SpeedPreset::Custom;
}

pub open spec fn with_preset(settings: ProductSettings, preset: SpeedPreset) -> ProductSettings {
    ProductSettings {
        speed: preset,
        characters_per_second: preset.spec_default_characters_per_second(),
        ..settings
    }
}

/// What a menu command raises: trigger, cancel, open settings and quit pass
/// through; toggles, modes, presets and steps change a copy of the settings;
/// headers, the shortcut line and unknown ids raise nothing.
pub open spec fn command_event(command: usize, settings: ProductSettings) -> Option<TrayEvent> {
    if command == CMD_TRIGGER {
        Some(TrayEvent::Trigger)
    } else if command == CMD_CANCEL {
        Some(TrayEvent::Cancel)
    } else if command == CMD_ENABLED {
        Some(TrayEvent::SettingsChanged(ProductSettings { enabled: !settings.enabled, ..settings }))
    } else if command == CMD_NOTIFICATIONS {
        Some(
            TrayEvent::SettingsChanged(
                ProductSettings { notifications: !settings.notifications, ..settings },
            ),
        )
    } else if command == CMD_MODE_AUTO {
        Some(TrayEvent::SettingsChanged(ProductSettings { mode: InjectionMode::Auto, ..settings }))
    } else if command == CMD_MODE_KEYBOARD {
        Some(TrayEvent::SettingsChanged(ProductSettings { mode: InjectionMode::Keyboard, ..settings }))
    } else if command == CMD_MODE_CLIPBOARD {
        Some(TrayEvent::SettingsChanged(ProductSettings { mode: InjectionMode::Clipboard, ..settings }))
    } else if command == CMD_SPEED_SLOW {
        Some(TrayEvent::SettingsChanged(with_preset(settings, SpeedPreset::Slow)))
    } else if command == CMD_SPEED_NORMAL {
        Some(TrayEvent::SettingsChanged(with_preset(settings, SpeedPreset::Normal)))
    } else if command == CMD_SPEED_FAST {
        Some(TrayEvent::SettingsChanged(with_preset(settings, SpeedPreset::Fast)))
    } else if command == CMD_SPEED_MINUS_TEN {
        Some(TrayEvent::SettingsChanged(speed_adjusted(settings, -10i16)))
    } else if command == CMD_SPEED_MINUS_ONE {
        Some(TrayEvent::SettingsChanged(speed_adjusted(settings, -1i16)))
    } else if command == CMD_SPEED_PLUS_ONE {
        Some(TrayEvent::SettingsChanged(speed_adjusted(settings, 1i16)))
    } else if command == CMD_SPEED_PLUS_TEN {
        Some(TrayEvent::SettingsChanged(speed_adjusted(settings, 10i16)))
    } else if command == CMD_JITTER_MINUS_FIVE {
        Some(
            TrayEvent::SettingsChanged(
                ProductSettings {
                    jitter_percent: if settings.jitter_percent < 5 {
                        0
                    } else {
                        (settings.jitter_percent - 5) as u8
                    },
                    ..settings
                },
            ),
        )
    } else if command == CMD_JITTER_PLUS_FIVE {
        Some(
            TrayEvent::SettingsChanged(
                ProductSettings {
                    jitter_percent: if settings.jitter_percent + 5 > MAX_JITTER_PERCENT {
                        MAX_JITTER_PERCENT
                    } else {
                        (settings.jitter_percent + 5) as u8
                    },
                    ..settings
                },
            ),
        )
    } else if command == CMD_TYPO_MINUS_ONE {
        Some(
            TrayEvent::SettingsChanged(
                ProductSettings {
                    typo_probability_percent: if settings.typo_probability_percent < 1 {
                        0
                    } else {
                        (settings.typo_probability_percent - 1) as u8
                    },
                    ..settings
                },
            ),
        )
    } else if command == CMD_TYPO_PLUS_ONE {
        Some(
            TrayEvent::SettingsChanged(
                ProductSettings {
                    typo_probability_percent: if settings.typo_probability_percent + 1
                        > MAX_TYPO_PROBABILITY_PERCENT {
                        MAX_TYPO_PROBABILITY_PERCENT
                    } else {
                        (settings.typo_probability_percent + 1) as u8
                    },
                    ..settings
                },
            ),
        )
    } else if command == CMD_OPEN_SETTINGS {
        Some(TrayEvent::OpenSettings)
    } else if command == CMD_STARTUP {
        Some(
            TrayEvent::SettingsChanged(
                ProductSettings { start_at_login: !settings.start_at_login, ..settings },
            ),
        )
    } else if command == CMD_QUIT {
        Some(TrayEvent::Quit)
    } else {
        None
    }
}

fn preset_settings(settings: ProductSettings, preset: SpeedPreset) -> (r: ProductSettings)
    ensures
        r == with_preset(settings, preset),
{
    ProductSettings {
        speed: preset,
        characters_per_second: preset.default_characters_per_second(),
        ..settings
    }
}

/// The event that a menu command raises, if any.
pub fn tray_command_event(command: usize, settings: ProductSettings) -> (r: Option<TrayEvent>)
    ensures
        r == command_event(command, settings),
{
    let mut s = settings;
    if command == CMD_TRIGGER {
        Some(TrayEvent::Trigger)
    } else if command == CMD_CANCEL {
        Some(TrayEvent::Cancel)
    } else if command == CMD_ENABLED {
        s.enabled = !s.enabled;
        Some(TrayEvent::SettingsChanged(s))
    } else if command == CMD_NOTIFICATIONS {
        s.notifications = !s.notifications;
        Some(TrayEvent::SettingsChanged(s))
    } else if command == CMD_MODE_AUTO {
        s.mode = InjectionMode::Auto;
        Some(TrayEvent::SettingsChanged(s))
    } else if command == CMD_MODE_KEYBOARD {
        s.mode = InjectionMode::Keyboard;
        Some(TrayEvent::SettingsChanged(s))
    } else if command == CMD_MODE_CLIPBOARD {
        s.mode = InjectionMode::Clipboard;
        Some(TrayEvent::SettingsChanged(s))
    } else if command == CMD_SPEED_SLOW {
        Some(TrayEvent::SettingsChanged(preset_settings(s, SpeedPreset::Slow)))
    } else if command == CMD_SPEED_NORMAL {
        Some(TrayEvent::SettingsChanged(preset_settings(s, SpeedPreset::Normal)))
    } else if command == CMD_SPEED_FAST {
        Some(TrayEvent::SettingsChanged(preset_settings(s, SpeedPreset::Fast)))
    } else if command == CMD_SPEED_MINUS_TEN {
        adjust_speed(&mut s, -10);
        Some(TrayEvent::SettingsChanged(s))
    } else if command == CMD_SPEED_MINUS_ONE {
        adjust_speed(&mut s, -1);
        Some(TrayEvent::SettingsChanged(s))
    } else if command == CMD_SPEED_PLUS_ONE {
        adjust_speed(&mut s, 1);
        Some(TrayEvent::SettingsChanged(s))
    } else if command == CMD_SPEED_PLUS_TEN {
        adjust_speed(&mut s, 10);
        Some(TrayEvent::SettingsChanged(s))
    } else if command == CMD_JITTER_MINUS_FIVE {
        s.jitter_percent = s.jitter_percent.saturating_sub(5);
        Some(TrayEvent::SettingsChanged(s))
    } else if command == CMD_JITTER_PLUS_FIVE {
        let raised = s.jitter_percent.saturating_add(5);
        s.jitter_percent = if raised > MAX_JITTER_PERCENT {
            MAX_JITTER_PERCENT
        } else {
            raised
        };
        Some(TrayEvent::SettingsChanged(s))
    } else if command == CMD_TYPO_MINUS_ONE {
        s.typo_probability_percent = s.typo_probability_percent.saturating_sub(1);
        Some(TrayEvent::SettingsChanged(s))
    } else if command == CMD_TYPO_PLUS_ONE {
        let raised = s.typo_probability_percent.saturating_add(1);
        s.typo_probability_percent = if raised > MAX_TYPO_PROBABILITY_PERCENT {
            MAX_TYPO_PROBABILITY_PERCENT
        } else {
            raised
        };
        Some(TrayEvent::SettingsChanged(s))
    } else if command == CMD_OPEN_SETTINGS {
        Some(TrayEvent::OpenSettings)
    } else if command == CMD_STARTUP {
        s.start_at_login = !s.start_at_login;
        Some(TrayEvent::SettingsChanged(s))
    } else if command == CMD_QUIT {
        Some(TrayEvent::Quit)
    } else {
        None
    }
}

/// The command that the menu's choice stands for once the previous foreground
/// window is restored: a trigger is dropped when the tray's hidden window
/// would otherwise stay the destination.
pub fn command_after_menu(
    command: usize,
    previous_foreground: usize,
    tray_window: usize,
    restored: bool,
) -> (r: usize)
    ensures
        r == (if command == CMD_TRIGGER && previous_foreground != 0 && previous_foreground
            != tray_window && !restored {
            0
        } else {
            command
        }),
{
    if command == CMD_TRIGGER && previous_foreground != 0 && previous_foreground != tray_window
        && !restored {
        0
    } else {
        command
    }
}

pub open spec fn notice_content(notice: TrayNotice) -> (Seq<char>, Seq<char>, u32) {
    match notice {
        TrayNotice::Ready => ("ClipType"@, "ClipType is ready."@, NIIF_INFO),
        TrayNotice::Completed(InjectionBackend::Clipboard) => (
            "ClipType"@,
            "Clipboard paste command completed."@,
            NIIF_INFO,
        ),
        TrayNotice::Completed(_) => ("ClipType"@, "Keyboard injection completed."@, NIIF_INFO),
        TrayNotice::Busy => ("ClipType"@, "Another session is active."@, NIIF_WARNING),
        TrayNotice::Cancelled => ("ClipType"@, "The active session was cancelled."@, NIIF_INFO),
        TrayNotice::ClipboardUnavailable => (
            "ClipType"@,
            "Clipboard text is unavailable."@,
            NIIF_WARNING,
        ),
        TrayNotice::ClipboardChanged => (
            "ClipType"@,
            "Clipboard changed before paste; nothing was sent."@,
            NIIF_WARNING,
        ),
        TrayNotice::TargetChanged => (
            "ClipType"@,
            "Destination changed; remaining input was stopped."@,
            NIIF_WARNING,
        ),
        TrayNotice::ModifierConflict => (
            "ClipType"@,
            "Modifier keys prevented safe input."@,
            NIIF_WARNING,
        ),
        TrayNotice::SecurityRestriction => (
            "ClipType"@,
            "The destination has a higher security boundary."@,
            NIIF_WARNING,
        ),
        TrayNotice::SettingsSaved => ("ClipType"@, "Settings saved."@, NIIF_INFO),
        TrayNotice::SettingsFailed => ("ClipType"@, "Settings could not be saved."@, NIIF_ERROR),
        TrayNotice::StartupFailed => (
            "ClipType"@,
            "Start-at-login could not be updated."@,
            NIIF_ERROR,
        ),
        TrayNotice::NativeFailure => (
            "ClipType"@,
            "Windows rejected the input operation."@,
            NIIF_ERROR,
        ),
    }
}

/// The balloon title, message and icon flags of a notice. Code-mode input is
/// keyboard input and is reported as such.
pub fn notice_text(notice: TrayNotice) -> (r: (&'static str, &'static str, u32))
    ensures
        (r.0@, r.1@, r.2) == notice_content(notice),
{
    match notice {
        TrayNotice::Ready => ("ClipType", "ClipType is ready.", NIIF_INFO),
        TrayNotice::Completed(InjectionBackend::Clipboard) => (
            "ClipType",
            "Clipboard paste command completed.",
            NIIF_INFO,
        ),
        TrayNotice::Completed(_) => ("ClipType", "Keyboard injection completed.", NIIF_INFO),
        TrayNotice::Busy => ("ClipType", "Another session is active.", NIIF_WARNING),
        TrayNotice::Cancelled => ("ClipType", "The active session was cancelled.", NIIF_INFO),
        TrayNotice::ClipboardUnavailable => (
            "ClipType",
            "Clipboard text is unavailable.",
            NIIF_WARNING,
        ),
        TrayNotice::ClipboardChanged => (
            "ClipType",
            "Clipboard changed before paste; nothing was sent.",
            NIIF_WARNING,
        ),
        TrayNotice::TargetChanged => (
            "ClipType",
            "Destination changed; remaining input was stopped.",
            NIIF_WARNING,
        ),
        TrayNotice::ModifierConflict => ("ClipType", "Modifier keys prevented safe input.", NIIF_WARNING),
        TrayNotice::SecurityRestriction => (
            "ClipType",
            "The destination has a higher security boundary.",
            NIIF_WARNING,
        ),
        TrayNotice::SettingsSaved => ("ClipType", "Settings saved.", NIIF_INFO),
        TrayNotice::SettingsFailed => ("ClipType", "Settings could not be saved.", NIIF_ERROR),
        TrayNotice::StartupFailed => ("ClipType", "Start-at-login could not be updated.", NIIF_ERROR),
        TrayNotice::NativeFailure => ("ClipType", "Windows rejected the input operation.", NIIF_ERROR),
    }
}

/// Whether a notice is shown: only while notifications are on.
pub fn notice_is_shown(settings: ProductSettings) -> (r: bool)
    ensures
        r == settings.notifications,
{
    settings.notifications
}

/// Every menu step keeps the settings within their bounds: a rate, jitter or
/// typo chance that was in range stays in range.
pub proof fn law_menu_steps_stay_in_bounds(command: usize, settings: ProductSettings)
    requires
        MIN_CHARACTERS_PER_SECOND <= settings.characters_per_second <= MAX_CHARACTERS_PER_SECOND,
        settings.jitter_percent <= MAX_JITTER_PERCENT,
        settings.typo_probability_percent <= MAX_TYPO_PROBABILITY_PERCENT,
    ensures
        match command_event(command, settings) {
            Some(TrayEvent::SettingsChanged(s)) => MIN_CHARACTERS_PER_SECOND
                <= s.characters_per_second <= MAX_CHARACTERS_PER_SECOND && s.jitter_percent
                <= MAX_JITTER_PERCENT && s.typo_probability_percent <= MAX_TYPO_PROBABILITY_PERCENT
                && s.version == settings.version && s.hotkey == settings.hotkey,
            _ => true,
        },
{
}

} // verus!
