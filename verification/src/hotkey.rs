//! Native-neutral custom shortcut values, parsing, labels and validation.
use vstd::prelude::*;

use crate::textual::{
    chars_of, find_char_in, is_white_space, push_char, push_str, range_is, trim, trim_range,
    trim_end, trim_start,
};

verus! {

/// Platform vocabulary used only for labels and known-reserved policy.
#[derive(Debug, Clone, Copy, PartialEq, Eq, Structural)]
pub enum HotkeyPlatform {
    Windows,
    MacOS,
}

/// Modifier set stored independently of native virtual-key values.
#[derive(Debug, Clone, Copy, PartialEq, Eq, Hash, Structural)]
pub struct HotkeyModifiers {
    control: bool,
    alt: bool,
    shift: bool,
    meta: bool,
}

impl HotkeyModifiers {
    /// The set holding Control alone.
    pub fn of_control() -> (r: Self)
        ensures
            r == Self::spec_of(true, false, false, false),
    {
        HotkeyModifiers { control: true, alt: false, shift: false, meta: false }
    }

    /// The set holding Alt/Option alone.
    pub fn of_alt() -> (r: Self)
        ensures
            r == Self::spec_of(false, true, false, false),
    {
        HotkeyModifiers { control: false, alt: true, shift: false, meta: false }
    }

    /// The set holding Shift alone.
    pub fn of_shift() -> (r: Self)
        ensures
            r == Self::spec_of(false, false, true, false),
    {
        HotkeyModifiers { control: false, alt: false, shift: true, meta: false }
    }

    /// The set holding Meta/Command/Windows alone.
    pub fn of_meta() -> (r: Self)
        ensures
            r == Self::spec_of(false, false, false, true),
    {
        HotkeyModifiers { control: false, alt: false, shift: false, meta: true }
    }

    pub closed spec fn spec_control(self) -> bool {
        self.control
    }

    pub closed spec fn spec_alt(self) -> bool {
        self.alt
    }

    pub closed spec fn spec_shift(self) -> bool {
        self.shift
    }

    pub closed spec fn spec_meta(self) -> bool {
        self.meta
    }

    /// The set with the given members.
    pub closed spec fn spec_of(control: bool, alt: bool, shift: bool, meta: bool) -> Self {
        HotkeyModifiers { control, alt, shift, meta }
    }

    /// The members of a built set.
    pub proof fn lemma_of(control: bool, alt: bool, shift: bool, meta: bool)
        ensures
            Self::spec_of(control, alt, shift, meta).spec_control() == control,
            Self::spec_of(control, alt, shift, meta).spec_alt() == alt,
            Self::spec_of(control, alt, shift, meta).spec_shift() == shift,
            Self::spec_of(control, alt, shift, meta).spec_meta() == meta,
    {
    }

    /// The set with exactly the given members.
    pub fn from_members(control: bool, alt: bool, shift: bool, meta: bool) -> (r: Self)
        ensures
            r == Self::spec_of(control, alt, shift, meta),
    {
        HotkeyModifiers { control, alt, shift, meta }
    }

    pub fn empty() -> (r: Self)
        ensures
            r == Self::spec_of(false, false, false, false),
    {
        HotkeyModifiers { control: false, alt: false, shift: false, meta: false }
    }

    pub open spec fn spec_contains(self, other: Self) -> bool {
        &&& other.spec_control() ==> self.spec_control()
        &&& other.spec_alt() ==> self.spec_alt()
        &&& other.spec_shift() ==> self.spec_shift()
        &&& other.spec_meta() ==> self.spec_meta()
    }

    /// Every member of `other` is a member of `self`.
    #[verifier::when_used_as_spec(spec_contains)]
    pub fn contains(self, other: Self) -> (r: bool)
        ensures
            r == self.spec_contains(other),
    {
        (!other.control || self.control) && (!other.alt || self.alt) && (!other.shift
            || self.shift) && (!other.meta || self.meta)
    }

    pub open spec fn spec_with(self, other: Self) -> Self {
        Self::spec_of(
            self.spec_control() || other.spec_control(),
            self.spec_alt() || other.spec_alt(),
            self.spec_shift() || other.spec_shift(),
            self.spec_meta() || other.spec_meta(),
        )
    }

    /// The union of both sets.
    #[verifier::when_used_as_spec(spec_with)]
    pub fn with(self, other: Self) -> (r: Self)
        ensures
            r == self.spec_with(other),
    {
        HotkeyModifiers {
            control: self.control || other.control,
            alt: self.alt || other.alt,
            shift: self.shift || other.shift,
            meta: self.meta || other.meta,
        }
    }

    #[verifier::when_used_as_spec(spec_control)]
    pub fn control(self) -> (r: bool)
        ensures
            r == self.spec_control(),
    {
        self.control
    }

    #[verifier::when_used_as_spec(spec_alt)]
    pub fn alt(self) -> (r: bool)
        ensures
            r == self.spec_alt(),
    {
        self.alt
    }

    #[verifier::when_used_as_spec(spec_shift)]
    pub fn shift(self) -> (r: bool)
        ensures
            r == self.spec_shift(),
    {
        self.shift
    }

    #[verifier::when_used_as_spec(spec_meta)]
    pub fn meta(self) -> (r: bool)
        ensures
            r == self.spec_meta(),
    {
        self.meta
    }

    pub open spec fn spec_has_primary(self) -> bool {
        self.spec_control() || self.spec_alt() || self.spec_meta()
    }

    /// Control, Alt/Option or Meta/Command is held; Shift alone is not enough.
    #[verifier::when_used_as_spec(spec_has_primary)]
    pub fn has_primary(self) -> (r: bool)
        ensures
            r == self.spec_has_primary(),
    {
        self.control || self.alt || self.meta
    }

    pub open spec fn spec_bits(self) -> u8 {
        ((if self.spec_control() { 1int } else { 0 }) + (if self.spec_alt() { 2int } else { 0 })
            + (if self.spec_shift() { 4int } else { 0 }) + (if self.spec_meta() { 8int } else { 0 })) as u8
    }

    /// The native-neutral bit set: Control 1, Alt 2, Shift 4, Meta 8.
    pub fn bits(self) -> (r: u8)
        ensures
            r == self.spec_bits(),
    {
        let mut bits: u8 = 0;
        if self.control {
            bits = bits + 1;
        }
        if self.alt {
            bits = bits + 2;
        }
        if self.shift {
            bits = bits + 4;
        }
        if self.meta {
            bits = bits + 8;
        }
        bits
    }
}

impl Default for HotkeyModifiers {
    fn default() -> (r: Self)
        ensures
            r == Self::spec_of(false, false, false, false),
    {
        HotkeyModifiers::empty()
    }
}

/// Bounded keyboard key vocabulary supported by settings and adapters.
#[derive(Debug, Clone, Copy, PartialEq, Eq, Hash, Structural)]
pub enum HotkeyKey {
    A,
    B,
    C,
    D,
    E,
    F,
    G,
    H,
    I,
    J,
    K,
    L,
    M,
    N,
    O,
    P,
    Q,
    R,
    S,
    T,
    U,
    V,
    W,
    X,
    Y,
    Z,
    Digit0,
    Digit1,
    Digit2,
    Digit3,
    Digit4,
    Digit5,
    Digit6,
    Digit7,
    Digit8,
    Digit9,
    F1,
    F2,
    F3,
    F4,
    F5,
    F6,
    F7,
    F8,
    F9,
    F10,
    F11,
    F12,
    F13,
    F14,
    F15,
    F16,
    F17,
    F18,
    F19,
    F20,
    F21,
    F22,
    F23,
    F24,
    Space,
    Tab,
    Enter,
    Escape,
    Backspace,
    Insert,
    Delete,
    Home,
    End,
    PageUp,
    PageDown,
    ArrowLeft,
    ArrowRight,
    ArrowUp,
    ArrowDown,
    Minus,
    Equal,
    BracketLeft,
    BracketRight,
    Backslash,
    Semicolon,
    Quote,
    Comma,
    Period,
    Slash,
    Backquote,
}

impl HotkeyKey {
    pub open spec fn spec_canonical_name(self) -> Seq<char> {
        match self {
            HotkeyKey::A => "a"@,
            HotkeyKey::B => "b"@,
            HotkeyKey::C => "c"@,
            HotkeyKey::D => "d"@,
            HotkeyKey::E => "e"@,
            HotkeyKey::F => "f"@,
            HotkeyKey::G => "g"@,
            HotkeyKey::H => "h"@,
            HotkeyKey::I => "i"@,
            HotkeyKey::J => "j"@,
            HotkeyKey::K => "k"@,
            HotkeyKey::L => "l"@,
            HotkeyKey::M => "m"@,
            HotkeyKey::N => "n"@,
            HotkeyKey::O => "o"@,
            HotkeyKey::P => "p"@,
            HotkeyKey::Q => "q"@,
            HotkeyKey::R => "r"@,
            HotkeyKey::S => "s"@,
            HotkeyKey::T => "t"@,
            HotkeyKey::U => "u"@,
            HotkeyKey::V => "v"@,
            HotkeyKey::W => "w"@,
            HotkeyKey::X => "x"@,
            HotkeyKey::Y => "y"@,
            HotkeyKey::Z => "z"@,
            HotkeyKey::Digit0 => "0"@,
            HotkeyKey::Digit1 => "1"@,
            HotkeyKey::Digit2 => "2"@,
            HotkeyKey::Digit3 => "3"@,
            HotkeyKey::Digit4 => "4"@,
            HotkeyKey::Digit5 => "5"@,
            HotkeyKey::Digit6 => "6"@,
            HotkeyKey::Digit7 => "7"@,
            HotkeyKey::Digit8 => "8"@,
            HotkeyKey::Digit9 => "9"@,
            HotkeyKey::F1 => "f1"@,
            HotkeyKey::F2 => "f2"@,
            HotkeyKey::F3 => "f3"@,
            HotkeyKey::F4 => "f4"@,
            HotkeyKey::F5 => "f5"@,
            HotkeyKey::F6 => "f6"@,
            HotkeyKey::F7 => "f7"@,
            HotkeyKey::F8 => "f8"@,
            HotkeyKey::F9 => "f9"@,
            HotkeyKey::F10 => "f10"@,
            HotkeyKey::F11 => "f11"@,
            HotkeyKey::F12 => "f12"@,
            HotkeyKey::F13 => "f13"@,
            HotkeyKey::F14 => "f14"@,
            HotkeyKey::F15 => "f15"@,
            HotkeyKey::F16 => "f16"@,
            HotkeyKey::F17 => "f17"@,
            HotkeyKey::F18 => "f18"@,
            HotkeyKey::F19 => "f19"@,
            HotkeyKey::F20 => "f20"@,
            HotkeyKey::F21 => "f21"@,
            HotkeyKey::F22 => "f22"@,
            HotkeyKey::F23 => "f23"@,
            HotkeyKey::F24 => "f24"@,
            HotkeyKey::Space => "space"@,
            HotkeyKey::Tab => "tab"@,
            HotkeyKey::Enter => "enter"@,
            HotkeyKey::Escape => "escape"@,
            HotkeyKey::Backspace => "backspace"@,
            HotkeyKey::Insert => "insert"@,
            HotkeyKey::Delete => "delete"@,
            HotkeyKey::Home => "home"@,
            HotkeyKey::End => "end"@,
            HotkeyKey::PageUp => "pageup"@,
            HotkeyKey::PageDown => "pagedown"@,
            HotkeyKey::ArrowLeft => "left"@,
            HotkeyKey::ArrowRight => "right"@,
            HotkeyKey::ArrowUp => "up"@,
            HotkeyKey::ArrowDown => "down"@,
            HotkeyKey::Minus => "minus"@,
            HotkeyKey::Equal => "equal"@,
            HotkeyKey::BracketLeft => "bracket-left"@,
            HotkeyKey::BracketRight => "bracket-right"@,
            HotkeyKey::Backslash => "backslash"@,
            HotkeyKey::Semicolon => "semicolon"@,
            HotkeyKey::Quote => "quote"@,
            HotkeyKey::Comma => "comma"@,
            HotkeyKey::Period => "period"@,
            HotkeyKey::Slash => "slash"@,
            HotkeyKey::Backquote => "backquote"@,
        }
    }

    /// The lowercase name used in canonical shortcut strings.
    pub fn canonical_name(self) -> (r: &'static str)
        ensures
            r@ == self.spec_canonical_name(),
    {
        match self {
            HotkeyKey::A => "a",
            HotkeyKey::B => "b",
            HotkeyKey::C => "c",
            HotkeyKey::D => "d",
            HotkeyKey::E => "e",
            HotkeyKey::F => "f",
            HotkeyKey::G => "g",
            HotkeyKey::H => "h",
            HotkeyKey::I => "i",
            HotkeyKey::J => "j",
            HotkeyKey::K => "k",
            HotkeyKey::L => "l",
            HotkeyKey::M => "m",
            HotkeyKey::N => "n",
            HotkeyKey::O => "o",
            HotkeyKey::P => "p",
            HotkeyKey::Q => "q",
            HotkeyKey::R => "r",
            HotkeyKey::S => "s",
            HotkeyKey::T => "t",
            HotkeyKey::U => "u",
            HotkeyKey::V => "v",
            HotkeyKey::W => "w",
            HotkeyKey::X => "x",
            HotkeyKey::Y => "y",
            HotkeyKey::Z => "z",
            HotkeyKey::Digit0 => "0",
            HotkeyKey::Digit1 => "1",
            HotkeyKey::Digit2 => "2",
            HotkeyKey::Digit3 => "3",
            HotkeyKey::Digit4 => "4",
            HotkeyKey::Digit5 => "5",
            HotkeyKey::Digit6 => "6",
            HotkeyKey::Digit7 => "7",
            HotkeyKey::Digit8 => "8",
            HotkeyKey::Digit9 => "9",
            HotkeyKey::F1 => "f1",
            HotkeyKey::F2 => "f2",
            HotkeyKey::F3 => "f3",
            HotkeyKey::F4 => "f4",
            HotkeyKey::F5 => "f5",
            HotkeyKey::F6 => "f6",
            HotkeyKey::F7 => "f7",
            HotkeyKey::F8 => "f8",
            HotkeyKey::F9 => "f9",
            HotkeyKey::F10 => "f10",
            HotkeyKey::F11 => "f11",
            HotkeyKey::F12 => "f12",
            HotkeyKey::F13 => "f13",
            HotkeyKey::F14 => "f14",
            HotkeyKey::F15 => "f15",
            HotkeyKey::F16 => "f16",
            HotkeyKey::F17 => "f17",
            HotkeyKey::F18 => "f18",
            HotkeyKey::F19 => "f19",
            HotkeyKey::F20 => "f20",
            HotkeyKey::F21 => "f21",
            HotkeyKey::F22 => "f22",
            HotkeyKey::F23 => "f23",
            HotkeyKey::F24 => "f24",
            HotkeyKey::Space => "space",
            HotkeyKey::Tab => "tab",
            HotkeyKey::Enter => "enter",
            HotkeyKey::Escape => "escape",
            HotkeyKey::Backspace => "backspace",
            HotkeyKey::Insert => "insert",
            HotkeyKey::Delete => "delete",
            HotkeyKey::Home => "home",
            HotkeyKey::End => "end",
            HotkeyKey::PageUp => "pageup",
            HotkeyKey::PageDown => "pagedown",
            HotkeyKey::ArrowLeft => "left",
            HotkeyKey::ArrowRight => "right",
            HotkeyKey::ArrowUp => "up",
            HotkeyKey::ArrowDown => "down",
            HotkeyKey::Minus => "minus",
            HotkeyKey::Equal => "equal",
            HotkeyKey::BracketLeft => "bracket-left",
            HotkeyKey::BracketRight => "bracket-right",
            HotkeyKey::Backslash => "backslash",
            HotkeyKey::Semicolon => "semicolon",
            HotkeyKey::Quote => "quote",
            HotkeyKey::Comma => "comma",
            HotkeyKey::Period => "period",
            HotkeyKey::Slash => "slash",
            HotkeyKey::Backquote => "backquote",
        }
    }

    pub open spec fn spec_display_name(self) -> Seq<char> {
        match self {
            HotkeyKey::A => "A"@,
            HotkeyKey::B => "B"@,
            HotkeyKey::C => "C"@,
            HotkeyKey::D => "D"@,
            HotkeyKey::E => "E"@,
            HotkeyKey::F => "F"@,
            HotkeyKey::G => "G"@,
            HotkeyKey::H => "H"@,
            HotkeyKey::I => "I"@,
            HotkeyKey::J => "J"@,
            HotkeyKey::K => "K"@,
            HotkeyKey::L => "L"@,
            HotkeyKey::M => "M"@,
            HotkeyKey::N => "N"@,
            HotkeyKey::O => "O"@,
            HotkeyKey::P => "P"@,
            HotkeyKey::Q => "Q"@,
            HotkeyKey::R => "R"@,
            HotkeyKey::S => "S"@,
            HotkeyKey::T => "T"@,
            HotkeyKey::U => "U"@,
            HotkeyKey::V => "V"@,
            HotkeyKey::W => "W"@,
            HotkeyKey::X => "X"@,
            HotkeyKey::Y => "Y"@,
            HotkeyKey::Z => "Z"@,
            HotkeyKey::Digit0 => "0"@,
            HotkeyKey::Digit1 => "1"@,
            HotkeyKey::Digit2 => "2"@,
            HotkeyKey::Digit3 => "3"@,
            HotkeyKey::Digit4 => "4"@,
            HotkeyKey::Digit5 => "5"@,
            HotkeyKey::Digit6 => "6"@,
            HotkeyKey::Digit7 => "7"@,
            HotkeyKey::Digit8 => "8"@,
            HotkeyKey::Digit9 => "9"@,
            HotkeyKey::F1 => "F1"@,
            HotkeyKey::F2 => "F2"@,
            HotkeyKey::F3 => "F3"@,
            HotkeyKey::F4 => "F4"@,
            HotkeyKey::F5 => "F5"@,
            HotkeyKey::F6 => "F6"@,
            HotkeyKey::F7 => "F7"@,
            HotkeyKey::F8 => "F8"@,
            HotkeyKey::F9 => "F9"@,
            HotkeyKey::F10 => "F10"@,
            HotkeyKey::F11 => "F11"@,
            HotkeyKey::F12 => "F12"@,
            HotkeyKey::F13 => "F13"@,
            HotkeyKey::F14 => "F14"@,
            HotkeyKey::F15 => "F15"@,
            HotkeyKey::F16 => "F16"@,
            HotkeyKey::F17 => "F17"@,
            HotkeyKey::F18 => "F18"@,
            HotkeyKey::F19 => "F19"@,
            HotkeyKey::F20 => "F20"@,
            HotkeyKey::F21 => "F21"@,
            HotkeyKey::F22 => "F22"@,
            HotkeyKey::F23 => "F23"@,
            HotkeyKey::F24 => "F24"@,
            HotkeyKey::Space => "Space"@,
            HotkeyKey::Tab => "Tab"@,
            HotkeyKey::Enter => "Enter"@,
            HotkeyKey::Escape => "Esc"@,
            HotkeyKey::Backspace => "Backspace"@,
            HotkeyKey::Insert => "Insert"@,
            HotkeyKey::Delete => "Delete"@,
            HotkeyKey::Home => "Home"@,
            HotkeyKey::End => "End"@,
            HotkeyKey::PageUp => "Page Up"@,
            HotkeyKey::PageDown => "Page Down"@,
            HotkeyKey::ArrowLeft => "Left"@,
            HotkeyKey::ArrowRight => "Right"@,
            HotkeyKey::ArrowUp => "Up"@,
            HotkeyKey::ArrowDown => "Down"@,
            HotkeyKey::Minus => "-"@,
            HotkeyKey::Equal => "="@,
            HotkeyKey::BracketLeft => "["@,
            HotkeyKey::BracketRight => "]"@,
            HotkeyKey::Backslash => "\\"@,
            HotkeyKey::Semicolon => ";"@,
            HotkeyKey::Quote => "'"@,
            HotkeyKey::Comma => ","@,
            HotkeyKey::Period => "."@,
            HotkeyKey::Slash => "/"@,
            HotkeyKey::Backquote => "`"@,
        }
    }

    /// The name shown to users.
    pub fn display_name(self) -> (r: &'static str)
        ensures
            r@ == self.spec_display_name(),
    {
        match self {
            HotkeyKey::A => "A",
            HotkeyKey::B => "B",
            HotkeyKey::C => "C",
            HotkeyKey::D => "D",
            HotkeyKey::E => "E",
            HotkeyKey::F => "F",
            HotkeyKey::G => "G",
            HotkeyKey::H => "H",
            HotkeyKey::I => "I",
            HotkeyKey::J => "J",
            HotkeyKey::K => "K",
            HotkeyKey::L => "L",
            HotkeyKey::M => "M",
            HotkeyKey::N => "N",
            HotkeyKey::O => "O",
            HotkeyKey::P => "P",
            HotkeyKey::Q => "Q",
            HotkeyKey::R => "R",
            HotkeyKey::S => "S",
            HotkeyKey::T => "T",
            HotkeyKey::U => "U",
            HotkeyKey::V => "V",
            HotkeyKey::W => "W",
            HotkeyKey::X => "X",
            HotkeyKey::Y => "Y",
            HotkeyKey::Z => "Z",
            HotkeyKey::Digit0 => "0",
            HotkeyKey::Digit1 => "1",
            HotkeyKey::Digit2 => "2",
            HotkeyKey::Digit3 => "3",
            HotkeyKey::Digit4 => "4",
            HotkeyKey::Digit5 => "5",
            HotkeyKey::Digit6 => "6",
            HotkeyKey::Digit7 => "7",
            HotkeyKey::Digit8 => "8",
            HotkeyKey::Digit9 => "9",
            HotkeyKey::F1 => "F1",
            HotkeyKey::F2 => "F2",
            HotkeyKey::F3 => "F3",
            HotkeyKey::F4 => "F4",
            HotkeyKey::F5 => "F5",
            HotkeyKey::F6 => "F6",
            HotkeyKey::F7 => "F7",
            HotkeyKey::F8 => "F8",
            HotkeyKey::F9 => "F9",
            HotkeyKey::F10 => "F10",
            HotkeyKey::F11 => "F11",
            HotkeyKey::F12 => "F12",
            HotkeyKey::F13 => "F13",
            HotkeyKey::F14 => "F14",
            HotkeyKey::F15 => "F15",
            HotkeyKey::F16 => "F16",
            HotkeyKey::F17 => "F17",
            HotkeyKey::F18 => "F18",
            HotkeyKey::F19 => "F19",
            HotkeyKey::F20 => "F20",
            HotkeyKey::F21 => "F21",
            HotkeyKey::F22 => "F22",
            HotkeyKey::F23 => "F23",
            HotkeyKey::F24 => "F24",
            HotkeyKey::Space => "Space",
            HotkeyKey::Tab => "Tab",
            HotkeyKey::Enter => "Enter",
            HotkeyKey::Escape => "Esc",
            HotkeyKey::Backspace => "Backspace",
            HotkeyKey::Insert => "Insert",
            HotkeyKey::Delete => "Delete",
            HotkeyKey::Home => "Home",
            HotkeyKey::End => "End",
            HotkeyKey::PageUp => "Page Up",
            HotkeyKey::PageDown => "Page Down",
            HotkeyKey::ArrowLeft => "Left",
            HotkeyKey::ArrowRight => "Right",
            HotkeyKey::ArrowUp => "Up",
            HotkeyKey::ArrowDown => "Down",
            HotkeyKey::Minus => "-",
            HotkeyKey::Equal => "=",
            HotkeyKey::BracketLeft => "[",
            HotkeyKey::BracketRight => "]",
            HotkeyKey::Backslash => "\\",
            HotkeyKey::Semicolon => ";",
            HotkeyKey::Quote => "'",
            HotkeyKey::Comma => ",",
            HotkeyKey::Period => ".",
            HotkeyKey::Slash => "/",
            HotkeyKey::Backquote => "`",
        }
    }
}

/// The key a lowercase token names, with the accepted aliases.
pub open spec fn key_named(t: Seq<char>) -> Option<HotkeyKey> {
    if t == "a"@ {
        Some(HotkeyKey::A)
    } else if t == "b"@ {
        Some(HotkeyKey::B)
    } else if t == "c"@ {
        Some(HotkeyKey::C)
    } else if t == "d"@ {
        Some(HotkeyKey::D)
    } else if t == "e"@ {
        Some(HotkeyKey::E)
    } else if t == "f"@ {
        Some(HotkeyKey::F)
    } else if t == "g"@ {
        Some(HotkeyKey::G)
    } else if t == "h"@ {
        Some(HotkeyKey::H)
    } else if t == "i"@ {
        Some(HotkeyKey::I)
    } else if t == "j"@ {
        Some(HotkeyKey::J)
    } else if t == "k"@ {
        Some(HotkeyKey::K)
    } else if t == "l"@ {
        Some(HotkeyKey::L)
    } else if t == "m"@ {
        Some(HotkeyKey::M)
    } else if t == "n"@ {
        Some(HotkeyKey::N)
    } else if t == "o"@ {
        Some(HotkeyKey::O)
    } else if t == "p"@ {
        Some(HotkeyKey::P)
    } else if t == "q"@ {
        Some(HotkeyKey::Q)
    } else if t == "r"@ {
        Some(HotkeyKey::R)
    } else if t == "s"@ {
        Some(HotkeyKey::S)
    } else if t == "t"@ {
        Some(HotkeyKey::T)
    } else if t == "u"@ {
        Some(HotkeyKey::U)
    } else if t == "v"@ {
        Some(HotkeyKey::V)
    } else if t == "w"@ {
        Some(HotkeyKey::W)
    } else if t == "x"@ {
        Some(HotkeyKey::X)
    } else if t == "y"@ {
        Some(HotkeyKey::Y)
    } else if t == "z"@ {
        Some(HotkeyKey::Z)
    } else if t == "0"@ {
        Some(HotkeyKey::Digit0)
    } else if t == "1"@ {
        Some(HotkeyKey::Digit1)
    } else if t == "2"@ {
        Some(HotkeyKey::Digit2)
    } else if t == "3"@ {
        Some(HotkeyKey::Digit3)
    } else if t == "4"@ {
        Some(HotkeyKey::Digit4)
    } else if t == "5"@ {
        Some(HotkeyKey::Digit5)
    } else if t == "6"@ {
        Some(HotkeyKey::Digit6)
    } else if t == "7"@ {
        Some(HotkeyKey::Digit7)
    } else if t == "8"@ {
        Some(HotkeyKey::Digit8)
    } else if t == "9"@ {
        Some(HotkeyKey::Digit9)
    } else if t == "f1"@ {
        Some(HotkeyKey::F1)
    } else if t == "f2"@ {
        Some(HotkeyKey::F2)
    } else if t == "f3"@ {
        Some(HotkeyKey::F3)
    } else if t == "f4"@ {
        Some(HotkeyKey::F4)
    } else if t == "f5"@ {
        Some(HotkeyKey::F5)
    } else if t == "f6"@ {
        Some(HotkeyKey::F6)
    } else if t == "f7"@ {
        Some(HotkeyKey::F7)
    } else if t == "f8"@ {
        Some(HotkeyKey::F8)
    } else if t == "f9"@ {
        Some(HotkeyKey::F9)
    } else if t == "f10"@ {
        Some(HotkeyKey::F10)
    } else if t == "f11"@ {
        Some(HotkeyKey::F11)
    } else if t == "f12"@ {
        Some(HotkeyKey::F12)
    } else if t == "f13"@ {
        Some(HotkeyKey::F13)
    } else if t == "f14"@ {
        Some(HotkeyKey::F14)
    } else if t == "f15"@ {
        Some(HotkeyKey::F15)
    } else if t == "f16"@ {
        Some(HotkeyKey::F16)
    } else if t == "f17"@ {
        Some(HotkeyKey::F17)
    } else if t == "f18"@ {
        Some(HotkeyKey::F18)
    } else if t == "f19"@ {
        Some(HotkeyKey::F19)
    } else if t == "f20"@ {
        Some(HotkeyKey::F20)
    } else if t == "f21"@ {
        Some(HotkeyKey::F21)
    } else if t == "f22"@ {
        Some(HotkeyKey::F22)
    } else if t == "f23"@ {
        Some(HotkeyKey::F23)
    } else if t == "f24"@ {
        Some(HotkeyKey::F24)
    } else if t == "space"@ {
        Some(HotkeyKey::Space)
    } else if t == "tab"@ {
        Some(HotkeyKey::Tab)
    } else if t == "enter"@ || t == "return"@ {
        Some(HotkeyKey::Enter)
    } else if t == "escape"@ || t == "esc"@ {
        Some(HotkeyKey::Escape)
    } else if t == "backspace"@ {
        Some(HotkeyKey::Backspace)
    } else if t == "insert"@ {
        Some(HotkeyKey::Insert)
    } else if t == "delete"@ || t == "del"@ {
        Some(HotkeyKey::Delete)
    } else if t == "home"@ {
        Some(HotkeyKey::Home)
    } else if t == "end"@ {
        Some(HotkeyKey::End)
    } else if t == "pageup"@ || t == "page-up"@ {
        Some(HotkeyKey::PageUp)
    } else if t == "pagedown"@ || t == "page-down"@ {
        Some(HotkeyKey::PageDown)
    } else if t == "left"@ || t == "arrow-left"@ {
        Some(HotkeyKey::ArrowLeft)
    } else if t == "right"@ || t == "arrow-right"@ {
        Some(HotkeyKey::ArrowRight)
    } else if t == "up"@ || t == "arrow-up"@ {
        Some(HotkeyKey::ArrowUp)
    } else if t == "down"@ || t == "arrow-down"@ {
        Some(HotkeyKey::ArrowDown)
    } else if t == "minus"@ || t == "-"@ {
        Some(HotkeyKey::Minus)
    } else if t == "equal"@ || t == "="@ {
        Some(HotkeyKey::Equal)
    } else if t == "bracket-left"@ || t == "["@ {
        Some(HotkeyKey::BracketLeft)
    } else if t == "bracket-right"@ || t == "]"@ {
        Some(HotkeyKey::BracketRight)
    } else if t == "backslash"@ || t == "\\"@ {
        Some(HotkeyKey::Backslash)
    } else if t == "semicolon"@ || t == ";"@ {
        Some(HotkeyKey::Semicolon)
    } else if t == "quote"@ || t == "'"@ {
        Some(HotkeyKey::Quote)
    } else if t == "comma"@ || t == ","@ {
        Some(HotkeyKey::Comma)
    } else if t == "period"@ || t == "."@ {
        Some(HotkeyKey::Period)
    } else if t == "slash"@ || t == "/"@ {
        Some(HotkeyKey::Slash)
    } else if t == "backquote"@ || t == "`"@ {
        Some(HotkeyKey::Backquote)
    } else {
        None
    }
}

/// The key that the characters `[a, b)` name.
#[verifier::rlimit(80)]
fn key_in(chars: &Vec<char>, a: usize, b: usize) -> (r: Option<HotkeyKey>)
    requires
        a <= b <= chars@.len(),
    ensures
        r == key_named(chars@.subrange(a as int, b as int)),
{
    if range_is(chars, a, b, "a") {
        Some(HotkeyKey::A)
    } else if range_is(chars, a, b, "b") {
        Some(HotkeyKey::B)
    } else if range_is(chars, a, b, "c") {
        Some(HotkeyKey::C)
    } else if range_is(chars, a, b, "d") {
        Some(HotkeyKey::D)
    } else if range_is(chars, a, b, "e") {
        Some(HotkeyKey::E)
    } else if range_is(chars, a, b, "f") {
        Some(HotkeyKey::F)
    } else if range_is(chars, a, b, "g") {
        Some(HotkeyKey::G)
    } else if range_is(chars, a, b, "h") {
        Some(HotkeyKey::H)
    } else if range_is(chars, a, b, "i") {
        Some(HotkeyKey::I)
    } else if range_is(chars, a, b, "j") {
        Some(HotkeyKey::J)
    } else if range_is(chars, a, b, "k") {
        Some(HotkeyKey::K)
    } else if range_is(chars, a, b, "l") {
        Some(HotkeyKey::L)
    } else if range_is(chars, a, b, "m") {
        Some(HotkeyKey::M)
    } else if range_is(chars, a, b, "n") {
        Some(HotkeyKey::N)
    } else if range_is(chars, a, b, "o") {
        Some(HotkeyKey::O)
    } else if range_is(chars, a, b, "p") {
        Some(HotkeyKey::P)
    } else if range_is(chars, a, b, "q") {
        Some(HotkeyKey::Q)
    } else if range_is(chars, a, b, "r") {
        Some(HotkeyKey::R)
    } else if range_is(chars, a, b, "s") {
        Some(HotkeyKey::S)
    } else if range_is(chars, a, b, "t") {
        Some(HotkeyKey::T)
    } else if range_is(chars, a, b, "u") {
        Some(HotkeyKey::U)
    } else if range_is(chars, a, b, "v") {
        Some(HotkeyKey::V)
    } else if range_is(chars, a, b, "w") {
        Some(HotkeyKey::W)
    } else if range_is(chars, a, b, "x") {
        Some(HotkeyKey::X)
    } else if range_is(chars, a, b, "y") {
        Some(HotkeyKey::Y)
    } else if range_is(chars, a, b, "z") {
        Some(HotkeyKey::Z)
    } else if range_is(chars, a, b, "0") {
        Some(HotkeyKey::Digit0)
    } else if range_is(chars, a, b, "1") {
        Some(HotkeyKey::Digit1)
    } else if range_is(chars, a, b, "2") {
        Some(HotkeyKey::Digit2)
    } else if range_is(chars, a, b, "3") {
        Some(HotkeyKey::Digit3)
    } else if range_is(chars, a, b, "4") {
        Some(HotkeyKey::Digit4)
    } else if range_is(chars, a, b, "5") {
        Some(HotkeyKey::Digit5)
    } else if range_is(chars, a, b, "6") {
        Some(HotkeyKey::Digit6)
    } else if range_is(chars, a, b, "7") {
        Some(HotkeyKey::Digit7)
    } else if range_is(chars, a, b, "8") {
        Some(HotkeyKey::Digit8)
    } else if range_is(chars, a, b, "9") {
        Some(HotkeyKey::Digit9)
    } else if range_is(chars, a, b, "f1") {
        Some(HotkeyKey::F1)
    } else if range_is(chars, a, b, "f2") {
        Some(HotkeyKey::F2)
    } else if range_is(chars, a, b, "f3") {
        Some(HotkeyKey::F3)
    } else if range_is(chars, a, b, "f4") {
        Some(HotkeyKey::F4)
    } else if range_is(chars, a, b, "f5") {
        Some(HotkeyKey::F5)
    } else if range_is(chars, a, b, "f6") {
        Some(HotkeyKey::F6)
    } else if range_is(chars, a, b, "f7") {
        Some(HotkeyKey::F7)
    } else if range_is(chars, a, b, "f8") {
        Some(HotkeyKey::F8)
    } else if range_is(chars, a, b, "f9") {
        Some(HotkeyKey::F9)
    } else if range_is(chars, a, b, "f10") {
        Some(HotkeyKey::F10)
    } else if range_is(chars, a, b, "f11") {
        Some(HotkeyKey::F11)
    } else if range_is(chars, a, b, "f12") {
        Some(HotkeyKey::F12)
    } else if range_is(chars, a, b, "f13") {
        Some(HotkeyKey::F13)
    } else if range_is(chars, a, b, "f14") {
        Some(HotkeyKey::F14)
    } else if range_is(chars, a, b, "f15") {
        Some(HotkeyKey::F15)
    } else if range_is(chars, a, b, "f16") {
        Some(HotkeyKey::F16)
    } else if range_is(chars, a, b, "f17") {
        Some(HotkeyKey::F17)
    } else if range_is(chars, a, b, "f18") {
        Some(HotkeyKey::F18)
    } else if range_is(chars, a, b, "f19") {
        Some(HotkeyKey::F19)
    } else if range_is(chars, a, b, "f20") {
        Some(HotkeyKey::F20)
    } else if range_is(chars, a, b, "f21") {
        Some(HotkeyKey::F21)
    } else if range_is(chars, a, b, "f22") {
        Some(HotkeyKey::F22)
    } else if range_is(chars, a, b, "f23") {
        Some(HotkeyKey::F23)
    } else if range_is(chars, a, b, "f24") {
        Some(HotkeyKey::F24)
    } else if range_is(chars, a, b, "space") {
        Some(HotkeyKey::Space)
    } else if range_is(chars, a, b, "tab") {
        Some(HotkeyKey::Tab)
    } else if range_is(chars, a, b, "enter") || range_is(chars, a, b, "return") {
        Some(HotkeyKey::Enter)
    } else if range_is(chars, a, b, "escape") || range_is(chars, a, b, "esc") {
        Some(HotkeyKey::Escape)
    } else if range_is(chars, a, b, "backspace") {
        Some(HotkeyKey::Backspace)
    } else if range_is(chars, a, b, "insert") {
        Some(HotkeyKey::Insert)
    } else if range_is(chars, a, b, "delete") || range_is(chars, a, b, "del") {
        Some(HotkeyKey::Delete)
    } else if range_is(chars, a, b, "home") {
        Some(HotkeyKey::Home)
    } else if range_is(chars, a, b, "end") {
        Some(HotkeyKey::End)
    } else if range_is(chars, a, b, "pageup") || range_is(chars, a, b, "page-up") {
        Some(HotkeyKey::PageUp)
    } else if range_is(chars, a, b, "pagedown") || range_is(chars, a, b, "page-down") {
        Some(HotkeyKey::PageDown)
    } else if range_is(chars, a, b, "left") || range_is(chars, a, b, "arrow-left") {
        Some(HotkeyKey::ArrowLeft)
    } else if range_is(chars, a, b, "right") || range_is(chars, a, b, "arrow-right") {
        Some(HotkeyKey::ArrowRight)
    } else if range_is(chars, a, b, "up") || range_is(chars, a, b, "arrow-up") {
        Some(HotkeyKey::ArrowUp)
    } else if range_is(chars, a, b, "down") || range_is(chars, a, b, "arrow-down") {
        Some(HotkeyKey::ArrowDown)
    } else if range_is(chars, a, b, "minus") || range_is(chars, a, b, "-") {
        Some(HotkeyKey::Minus)
    } else if range_is(chars, a, b, "equal") || range_is(chars, a, b, "=") {
        Some(HotkeyKey::Equal)
    } else if range_is(chars, a, b, "bracket-left") || range_is(chars, a, b, "[") {
        Some(HotkeyKey::BracketLeft)
    } else if range_is(chars, a, b, "bracket-right") || range_is(chars, a, b, "]") {
        Some(HotkeyKey::BracketRight)
    } else if range_is(chars, a, b, "backslash") || range_is(chars, a, b, "\\") {
        Some(HotkeyKey::Backslash)
    } else if range_is(chars, a, b, "semicolon") || range_is(chars, a, b, ";") {
        Some(HotkeyKey::Semicolon)
    } else if range_is(chars, a, b, "quote") || range_is(chars, a, b, "'") {
        Some(HotkeyKey::Quote)
    } else if range_is(chars, a, b, "comma") || range_is(chars, a, b, ",") {
        Some(HotkeyKey::Comma)
    } else if range_is(chars, a, b, "period") || range_is(chars, a, b, ".") {
        Some(HotkeyKey::Period)
    } else if range_is(chars, a, b, "slash") || range_is(chars, a, b, "/") {
        Some(HotkeyKey::Slash)
    } else if range_is(chars, a, b, "backquote") || range_is(chars, a, b, "`") {
        Some(HotkeyKey::Backquote)
    } else {
        None
    }
}

/// ASCII letters lowered; every other character kept.
pub open spec fn ascii_lower_char(c: char) -> char {
    if 'A' <= c && c <= 'Z' {
        ((c as u32) + 32) as char
    } else {
        c
    }
}

pub open spec fn ascii_lower(s: Seq<char>) -> Seq<char> {
    s.map_values(|c: char| ascii_lower_char(c))
}

pub(crate) fn lower_char(c: char) -> (r: char)
    ensures
        r == ascii_lower_char(c),
{
    if 'A' <= c && c <= 'Z' {
        ((c as u8) + 32) as char
    } else {
        c
    }
}

/// The characters `[a, b)` with ASCII letters lowered.
fn lower_range(chars: &Vec<char>, a: usize, b: usize) -> (r: Vec<char>)
    requires
        a <= b <= chars@.len(),
    ensures
        r@ == ascii_lower(chars@.subrange(a as int, b as int)),
{
    let mut out: Vec<char> = Vec::new();
    let mut k = a;
    while k < b
        invariant
            a <= k <= b,
            b <= chars@.len(),
            out@ == ascii_lower(chars@.subrange(a as int, k as int)),
        decreases b - k,
    {
        out.push(lower_char(chars[k]));
        k = k + 1;
        assert(out@ =~= ascii_lower(chars@.subrange(a as int, k as int)));
    }
    out
}

/// The key a token names: the token is trimmed and ASCII-lowered first.
pub open spec fn token_key(t: Seq<char>) -> Option<HotkeyKey> {
    key_named(ascii_lower(trim(t)))
}

/// Reads a key name such as `F12`, `pageup` or `[`.
pub fn parse_key(value: &str) -> (r: Result<HotkeyKey, HotkeyParseError>)
    ensures
        r == match token_key(value@) {
            Some(k) => Ok(k),
            None => Err::<HotkeyKey, HotkeyParseError>(HotkeyParseError::UnknownToken),
        },
{
    let chars = chars_of(value);
    let (a, b) = trim_range(&chars, 0, chars.len());
    assert(chars@.subrange(0, chars@.len() as int) =~= value@);
    let low = lower_range(&chars, a, b);
    assert(low@.subrange(0, low@.len() as int) =~= low@);
    match key_in(&low, 0, low.len()) {
        Some(k) => Ok(k),
        None => Err(HotkeyParseError::UnknownToken),
    }
}

impl std::str::FromStr for HotkeyKey {
    type Err = HotkeyParseError;

    fn from_str(value: &str) -> (r: Result<Self, Self::Err>)
        ensures
            r == match token_key(value@) {
                Some(k) => Ok(k),
                None => Err::<HotkeyKey, HotkeyParseError>(HotkeyParseError::UnknownToken),
            },
    {
        parse_key(value)
    }
}

/// The modifier a lowercase token names.
pub open spec fn modifier_named(t: Seq<char>) -> Option<HotkeyModifiers> {
    if t == "ctrl"@ || t == "control"@ {
        Some(HotkeyModifiers::spec_of(true, false, false, false))
    } else if t == "alt"@ || t == "option"@ {
        Some(HotkeyModifiers::spec_of(false, true, false, false))
    } else if t == "shift"@ {
        Some(HotkeyModifiers::spec_of(false, false, true, false))
    } else if t == "meta"@ || t == "win"@ || t == "windows"@ || t == "cmd"@ || t == "command"@ {
        Some(HotkeyModifiers::spec_of(false, false, false, true))
    } else {
        None
    }
}

fn modifier_in(chars: &Vec<char>) -> (r: Option<HotkeyModifiers>)
    ensures
        r == modifier_named(chars@),
{
    let n = chars.len();
    assert(chars@.subrange(0, n as int) =~= chars@);
    if range_is(chars, 0, n, "ctrl") || range_is(chars, 0, n, "control") {
        Some(HotkeyModifiers::of_control())
    } else if range_is(chars, 0, n, "alt") || range_is(chars, 0, n, "option") {
        Some(HotkeyModifiers::of_alt())
    } else if range_is(chars, 0, n, "shift") {
        Some(HotkeyModifiers::of_shift())
    } else if range_is(chars, 0, n, "meta") || range_is(chars, 0, n, "win") || range_is(
        chars,
        0,
        n,
        "windows",
    ) || range_is(chars, 0, n, "cmd") || range_is(chars, 0, n, "command") {
        Some(HotkeyModifiers::of_meta())
    } else {
        None
    }
}

/// Native-neutral shortcut specification.
#[derive(Debug, Clone, Copy, PartialEq, Eq, Hash, Structural)]
pub struct HotkeySpec {
    pub modifiers: HotkeyModifiers,
    pub key: HotkeyKey,
}

#[derive(Debug, Clone, Copy, PartialEq, Eq, Structural)]
pub enum HotkeyValidationError {
    MissingPrimaryModifier,
    DuplicatePair,
    Reserved,
    Unsupported,
}

impl HotkeyValidationError {
    /// User-facing explanation.
    pub fn message(self) -> (r: &'static str)
        ensures
            r@ == match self {
                HotkeyValidationError::MissingPrimaryModifier => "shortcut requires Control, Alt/Option, or Meta/Command"@,
                HotkeyValidationError::DuplicatePair => "trigger and cancel shortcuts must differ"@,
                HotkeyValidationError::Reserved => "shortcut is reserved or unsafe on this platform"@,
                HotkeyValidationError::Unsupported => "shortcut is unsupported on this platform"@,
            },
    {
        match self {
            HotkeyValidationError::MissingPrimaryModifier => "shortcut requires Control, Alt/Option, or Meta/Command",
            HotkeyValidationError::DuplicatePair => "trigger and cancel shortcuts must differ",
            HotkeyValidationError::Reserved => "shortcut is reserved or unsafe on this platform",
            HotkeyValidationError::Unsupported => "shortcut is unsupported on this platform",
        }
    }
}

#[derive(Debug, Clone, Copy, PartialEq, Eq, Structural)]
pub enum HotkeyParseError {
    Empty,
    UnknownToken,
    DuplicateModifier,
    MultipleKeys,
    MissingKey,
    Validation(HotkeyValidationError),
}

impl HotkeyParseError {
    /// User-facing explanation.
    pub fn message(self) -> (r: &'static str)
        ensures
            r@ == match self {
                HotkeyParseError::Empty => "shortcut is empty"@,
                HotkeyParseError::UnknownToken => "shortcut contains an unknown token"@,
                HotkeyParseError::DuplicateModifier => "shortcut repeats a modifier"@,
                HotkeyParseError::MultipleKeys => "shortcut contains multiple non-modifier keys"@,
                HotkeyParseError::MissingKey => "shortcut is missing a non-modifier key"@,
                HotkeyParseError::Validation(HotkeyValidationError::MissingPrimaryModifier) => "shortcut requires Control, Alt/Option, or Meta/Command"@,
                HotkeyParseError::Validation(HotkeyValidationError::DuplicatePair) => "trigger and cancel shortcuts must differ"@,
                HotkeyParseError::Validation(HotkeyValidationError::Reserved) => "shortcut is reserved or unsafe on this platform"@,
                HotkeyParseError::Validation(HotkeyValidationError::Unsupported) => "shortcut is unsupported on this platform"@,
            },
    {
        match self {
            HotkeyParseError::Empty => "shortcut is empty",
            HotkeyParseError::UnknownToken => "shortcut contains an unknown token",
            HotkeyParseError::DuplicateModifier => "shortcut repeats a modifier",
            HotkeyParseError::MultipleKeys => "shortcut contains multiple non-modifier keys",
            HotkeyParseError::MissingKey => "shortcut is missing a non-modifier key",
            HotkeyParseError::Validation(error) => error.message(),
        }
    }
}

/// Parser state: the modifiers seen and the key, if one was seen.
pub open spec fn apply_token(raw: Seq<char>, st: (HotkeyModifiers, Option<HotkeyKey>)) -> Result<
    (HotkeyModifiers, Option<HotkeyKey>),
    HotkeyParseError,
> {
    let token = trim(raw);
    if token.len() == 0 {
        Err(HotkeyParseError::UnknownToken)
    } else {
        match modifier_named(ascii_lower(token)) {
            Some(m) => if st.0.spec_contains(m) {
                Err(HotkeyParseError::DuplicateModifier)
            } else {
                Ok((st.0.spec_with(m), st.1))
            },
            None => if st.1 is Some {
                Err(HotkeyParseError::MultipleKeys)
            } else {
                match token_key(token) {
                    Some(k) => Ok((st.0, Some(k))),
                    None => Err(HotkeyParseError::UnknownToken),
                }
            },
        }
    }
}

/// The index of the first `+` at or after `i`, or the end of `s`.
pub open spec fn token_end(s: Seq<char>, i: int) -> int
    decreases s.len() - i,
{
    if i >= s.len() || i < 0 {
        s.len() as int
    } else if s[i] == '+' {
        i
    } else {
        token_end(s, i + 1)
    }
}

pub proof fn lemma_token_end_bounds(s: Seq<char>, i: int)
    requires
        0 <= i <= s.len(),
    ensures
        i <= token_end(s, i) <= s.len(),
    decreases s.len() - i,
{
    if i < s.len() && s[i] != '+' {
        lemma_token_end_bounds(s, i + 1);
    }
}

/// The `+`-separated tokens from position `i` on, applied in order.
pub open spec fn apply_tokens(s: Seq<char>, i: int, st: (HotkeyModifiers, Option<HotkeyKey>)) -> Result<
    (HotkeyModifiers, Option<HotkeyKey>),
    HotkeyParseError,
>
    decreases s.len() - i,
{
    if i < 0 || i > s.len() {
        Ok(st)
    } else {
        let e = token_end(s, i);
        proof {
            lemma_token_end_bounds(s, i);
        }
        match apply_token(s.subrange(i, e), st) {
            Err(x) => Err(x),
            Ok(next) => if e >= s.len() {
                Ok(next)
            } else {
                apply_tokens(s, e + 1, next)
            },
        }
    }
}

/// What reading a shortcut such as `ctrl+alt+v` gives.
pub open spec fn shortcut_from_text(s: Seq<char>) -> Result<HotkeySpec, HotkeyParseError> {
    if trim(s).len() == 0 {
        Err(HotkeyParseError::Empty)
    } else {
        match apply_tokens(s, 0, (HotkeyModifiers::spec_of(false, false, false, false), None)) {
            Err(e) => Err(e),
            Ok((m, None)) => Err(HotkeyParseError::MissingKey),
            Ok((m, Some(k))) => if m.spec_has_primary() {
                Ok(HotkeySpec { modifiers: m, key: k })
            } else {
                Err(HotkeyParseError::Validation(HotkeyValidationError::MissingPrimaryModifier))
            },
        }
    }
}

fn find_token_end(chars: &Vec<char>, i: usize) -> (e: usize)
    requires
        i <= chars@.len(),
    ensures
        e == token_end(chars@, i as int),
        i <= e <= chars@.len(),
{
    let mut k = i;
    while k < chars.len() && chars[k] != '+'
        invariant
            i <= k <= chars@.len(),
            token_end(chars@, i as int) == token_end(chars@, k as int),
        decreases chars@.len() - k,
    {
        k = k + 1;
    }
    k
}

fn apply_token_range(chars: &Vec<char>, a: usize, b: usize, modifiers: HotkeyModifiers, key: Option<HotkeyKey>) -> (r: Result<
    (HotkeyModifiers, Option<HotkeyKey>),
    HotkeyParseError,
>)
    requires
        a <= b <= chars@.len(),
    ensures
        r == apply_token(chars@.subrange(a as int, b as int), (modifiers, key)),
{
    let (ta, tb) = trim_range(chars, a, b);
    if ta == tb {
        return Err(HotkeyParseError::UnknownToken);
    }
    let lower = lower_range(chars, ta, tb);
    match modifier_in(&lower) {
        Some(m) => {
            if modifiers.contains(m) {
                Err(HotkeyParseError::DuplicateModifier)
            } else {
                Ok((modifiers.with(m), key))
            }
        },
        None => {
            if key.is_some() {
                return Err(HotkeyParseError::MultipleKeys);
            }
            let (xa, xb) = trim_range(chars, ta, tb);
            assert(chars@.subrange(xa as int, xb as int) =~= trim(
                chars@.subrange(ta as int, tb as int),
            ));
            let key_lower = lower_range(chars, xa, xb);
            assert(key_lower@.subrange(0, key_lower@.len() as int) =~= key_lower@);
            match key_in(&key_lower, 0, key_lower.len()) {
                Some(k) => Ok((modifiers, Some(k))),
                None => Err(HotkeyParseError::UnknownToken),
            }
        },
    }
}

impl HotkeySpec {
    pub fn new(modifiers: HotkeyModifiers, key: HotkeyKey) -> (r: Self)
        ensures
            r == (HotkeySpec { modifiers, key }),
    {
        HotkeySpec { modifiers, key }
    }

    /// Every shortcut needs Control, Alt/Option or Meta/Command.
    pub fn validate(self) -> (r: Result<Self, HotkeyValidationError>)
        ensures
            r == if self.modifiers.spec_has_primary() {
                Ok::<Self, HotkeyValidationError>(self)
            } else {
                Err(HotkeyValidationError::MissingPrimaryModifier)
            },
    {
        if !self.modifiers.has_primary() {
            return Err(HotkeyValidationError::MissingPrimaryModifier);
        }
        Ok(self)
    }

    pub open spec fn spec_is_supported_on(self, platform: HotkeyPlatform) -> bool {
        match platform {
            HotkeyPlatform::Windows => true,
            HotkeyPlatform::MacOS => !(self.key == HotkeyKey::F21 || self.key == HotkeyKey::F22
                || self.key == HotkeyKey::F23 || self.key == HotkeyKey::F24),
        }
    }

    /// macOS has no F21 to F24.
    #[verifier::when_used_as_spec(spec_is_supported_on)]
    pub fn is_supported_on(self, platform: HotkeyPlatform) -> (r: bool)
        ensures
            r == self.spec_is_supported_on(platform),
    {
        match platform {
            HotkeyPlatform::Windows => true,
            HotkeyPlatform::MacOS => !(self.key == HotkeyKey::F21 || self.key == HotkeyKey::F22
                || self.key == HotkeyKey::F23 || self.key == HotkeyKey::F24),
        }
    }

    pub open spec fn spec_is_reserved_on(self, platform: HotkeyPlatform) -> bool {
        let m = self.modifiers;
        let k = self.key;
        match platform {
            HotkeyPlatform::Windows => {
                ||| k == HotkeyKey::F12
                ||| m.spec_alt() && (k == HotkeyKey::F4 || k == HotkeyKey::Tab)
                ||| m.spec_control() && m.spec_alt() && k == HotkeyKey::Delete
                ||| m.spec_control() && m.spec_shift() && k == HotkeyKey::Escape
                ||| m.spec_meta() && (k == HotkeyKey::L || k == HotkeyKey::D || k == HotkeyKey::R
                    || k == HotkeyKey::E || k == HotkeyKey::Tab)
            },
            HotkeyPlatform::MacOS => {
                ||| m.spec_meta() && (k == HotkeyKey::Space || k == HotkeyKey::Tab || k
                    == HotkeyKey::Q)
                ||| m.spec_meta() && m.spec_alt() && k == HotkeyKey::Escape
                ||| m.spec_control() && m.spec_meta() && k == HotkeyKey::Q
                ||| m.spec_meta() && m.spec_shift() && (k == HotkeyKey::Digit3 || k
                    == HotkeyKey::Digit4 || k == HotkeyKey::Digit5)
            },
        }
    }

    /// Known system shortcuts that ClipType must not take over.
    #[verifier::when_used_as_spec(spec_is_reserved_on)]
    pub fn is_reserved_on(self, platform: HotkeyPlatform) -> (r: bool)
        ensures
            r == self.spec_is_reserved_on(platform),
    {
        let m = self.modifiers;
        let k = self.key;
        match platform {
            HotkeyPlatform::Windows => {
                if k == HotkeyKey::F12 {
                    return true;
                }
                if m.alt() && (k == HotkeyKey::F4 || k == HotkeyKey::Tab) {
                    return true;
                }
                if m.control() && m.alt() && k == HotkeyKey::Delete {
                    return true;
                }
                if m.control() && m.shift() && k == HotkeyKey::Escape {
                    return true;
                }
                m.meta() && (k == HotkeyKey::L || k == HotkeyKey::D || k == HotkeyKey::R || k
                    == HotkeyKey::E || k == HotkeyKey::Tab)
            },
            HotkeyPlatform::MacOS => {
                if m.meta() && (k == HotkeyKey::Space || k == HotkeyKey::Tab || k == HotkeyKey::Q) {
                    return true;
                }
                if m.meta() && m.alt() && k == HotkeyKey::Escape {
                    return true;
                }
                if m.control() && m.meta() && k == HotkeyKey::Q {
                    return true;
                }
                m.meta() && m.shift() && (k == HotkeyKey::Digit3 || k == HotkeyKey::Digit4 || k
                    == HotkeyKey::Digit5)
            },
        }
    }

    /// Why the shortcut cannot be used on `platform`, in checking order.
    pub open spec fn platform_violation(self, platform: HotkeyPlatform) -> Option<HotkeyValidationError> {
        if !self.modifiers.spec_has_primary() {
            Some(HotkeyValidationError::MissingPrimaryModifier)
        } else if self.spec_is_reserved_on(platform) {
            Some(HotkeyValidationError::Reserved)
        } else if !self.spec_is_supported_on(platform) {
            Some(HotkeyValidationError::Unsupported)
        } else {
            None
        }
    }

    pub fn validate_for(self, platform: HotkeyPlatform) -> (r: Result<Self, HotkeyValidationError>)
        ensures
            r == match self.platform_violation(platform) {
                Some(e) => Err(e),
                None => Ok::<Self, HotkeyValidationError>(self),
            },
    {
        match self.validate() {
            Ok(_) => {},
            Err(e) => return Err(e),
        }
        if self.is_reserved_on(platform) {
            return Err(HotkeyValidationError::Reserved);
        }
        if !self.is_supported_on(platform) {
            return Err(HotkeyValidationError::Unsupported);
        }
        Ok(self)
    }

    /// The canonical text: `ctrl`, `alt`, `shift` and `meta` as held, in that
    /// order, then the key's canonical name, joined by `+`.
    pub open spec fn canonical_text(self) -> Seq<char> {
        let m = self.modifiers;
        (if m.spec_control() { "ctrl"@ + "+"@ } else { Seq::empty() }) + (if m.spec_alt() {
            "alt"@ + "+"@
        } else {
            Seq::empty()
        }) + (if m.spec_shift() { "shift"@ + "+"@ } else { Seq::empty() }) + (if m.spec_meta() {
            "meta"@ + "+"@
        } else {
            Seq::empty()
        }) + self.key.spec_canonical_name()
    }

    pub fn canonical(self) -> (r: String)
        ensures
            r@ == self.canonical_text(),
    {
        let mut out = String::new();
        if self.modifiers.control() {
            push_str(&mut out, "ctrl");
            push_str(&mut out, "+");
        }
        let ghost after_control = out@;
        if self.modifiers.alt() {
            push_str(&mut out, "alt");
            push_str(&mut out, "+");
        }
        let ghost after_alt = out@;
        if self.modifiers.shift() {
            push_str(&mut out, "shift");
            push_str(&mut out, "+");
        }
        let ghost after_shift = out@;
        if self.modifiers.meta() {
            push_str(&mut out, "meta");
            push_str(&mut out, "+");
        }
        push_str(&mut out, self.key.canonical_name());
        assert(out@ =~= self.canonical_text());
        out
    }

    /// The user-facing label: `Ctrl+Alt+Shift+Win+` names on Windows, the
    /// `⌃⌥⇧⌘` symbols on macOS, then the key's display name.
    pub open spec fn label_text(self, platform: HotkeyPlatform) -> Seq<char> {
        let m = self.modifiers;
        match platform {
            HotkeyPlatform::Windows => (if m.spec_control() { "Ctrl"@ + "+"@ } else { Seq::empty() })
                + (if m.spec_alt() { "Alt"@ + "+"@ } else { Seq::empty() }) + (if m.spec_shift() {
                "Shift"@ + "+"@
            } else {
                Seq::empty()
            }) + (if m.spec_meta() { "Win"@ + "+"@ } else { Seq::empty() })
                + self.key.spec_display_name(),
            HotkeyPlatform::MacOS => (if m.spec_control() { seq!['\u{2303}'] } else { Seq::empty() })
                + (if m.spec_alt() { seq!['\u{2325}'] } else { Seq::empty() }) + (if m.spec_shift() {
                seq!['\u{21E7}']
            } else {
                Seq::empty()
            }) + (if m.spec_meta() { seq!['\u{2318}'] } else { Seq::empty() })
                + self.key.spec_display_name(),
        }
    }

    pub fn label(self, platform: HotkeyPlatform) -> (r: String)
        ensures
            r@ == self.label_text(platform),
    {
        let mut out = String::new();
        match platform {
            HotkeyPlatform::Windows => {
                if self.modifiers.control() {
                    push_str(&mut out, "Ctrl");
                    push_str(&mut out, "+");
                }
                let ghost a = out@;
                if self.modifiers.alt() {
                    push_str(&mut out, "Alt");
                    push_str(&mut out, "+");
                }
                let ghost b = out@;
                if self.modifiers.shift() {
                    push_str(&mut out, "Shift");
                    push_str(&mut out, "+");
                }
                let ghost c = out@;
                if self.modifiers.meta() {
                    push_str(&mut out, "Win");
                    push_str(&mut out, "+");
                }
            },
            HotkeyPlatform::MacOS => {
                if self.modifiers.control() {
                    push_char(&mut out, '\u{2303}');
                }
                let ghost a = out@;
                if self.modifiers.alt() {
                    push_char(&mut out, '\u{2325}');
                }
                let ghost b = out@;
                if self.modifiers.shift() {
                    push_char(&mut out, '\u{21E7}');
                }
                let ghost c = out@;
                if self.modifiers.meta() {
                    push_char(&mut out, '\u{2318}');
                }
            },
        }
        push_str(&mut out, self.key.display_name());
        assert(out@ =~= self.label_text(platform));
        out
    }
}

/// Reads a shortcut such as `Ctrl+Alt+V`: `+`-separated tokens, each trimmed
/// and read case-insensitively; modifiers once each, exactly one key, and a
/// primary modifier.
pub fn parse_hotkey(value: &str) -> (r: Result<HotkeySpec, HotkeyParseError>)
    ensures
        r == shortcut_from_text(value@),
{
    let chars = chars_of(value);
    let ghost s = chars@;
    let n = chars.len();
    let (a, b) = trim_range(&chars, 0, n);
    assert(chars@.subrange(0, n as int) =~= s);
    if a == b {
        return Err(HotkeyParseError::Empty);
    }
    let mut modifiers = HotkeyModifiers::empty();
    let mut key: Option<HotkeyKey> = None;
    let mut i: usize = 0;
    loop
        invariant_except_break
            apply_tokens(s, 0, (HotkeyModifiers::spec_of(false, false, false, false), None))
                == apply_tokens(s, i as int, (modifiers, key)),
        invariant
            s == chars@,
            s == value@,
            n == s.len(),
            i <= n,
            trim(s).len() > 0,
        ensures
            apply_tokens(s, 0, (HotkeyModifiers::spec_of(false, false, false, false), None))
                == Ok::<(HotkeyModifiers, Option<HotkeyKey>), HotkeyParseError>((modifiers, key)),
        decreases n - i,
    {
        let e = find_token_end(&chars, i);
        proof {
            lemma_token_end_bounds(s, i as int);
        }
        match apply_token_range(&chars, i, e, modifiers, key) {
            Err(x) => return Err(x),
            Ok((m, k)) => {
                modifiers = m;
                key = k;
            },
        }
        if e >= n {
            break ;
        }
        i = e + 1;
    }
    match key {
        None => Err(HotkeyParseError::MissingKey),
        Some(k) => {
            if modifiers.has_primary() {
                Ok(HotkeySpec { modifiers, key: k })
            } else {
                Err(HotkeyParseError::Validation(HotkeyValidationError::MissingPrimaryModifier))
            }
        },
    }
}

impl std::str::FromStr for HotkeySpec {
    type Err = HotkeyParseError;

    fn from_str(value: &str) -> (r: Result<Self, Self::Err>)
        ensures
            r == shortcut_from_text(value@),
    {
        parse_hotkey(value)
    }
}

/// Trigger and cancel shortcuts are applied as one transaction.
#[derive(Debug, Clone, Copy, PartialEq, Eq, Hash, Structural)]
pub struct HotkeyPair {
    pub trigger: HotkeySpec,
    pub cancel: HotkeySpec,
}

impl HotkeyPair {
    pub fn new(trigger: HotkeySpec, cancel: HotkeySpec) -> (r: Self)
        ensures
            r == (HotkeyPair { trigger, cancel }),
    {
        HotkeyPair { trigger, cancel }
    }

    /// Why the pair is refused, in checking order.
    pub open spec fn violation(self) -> Option<HotkeyValidationError> {
        if !self.trigger.modifiers.spec_has_primary() || !self.cancel.modifiers.spec_has_primary() {
            Some(HotkeyValidationError::MissingPrimaryModifier)
        } else if self.trigger == self.cancel {
            Some(HotkeyValidationError::DuplicatePair)
        } else {
            None
        }
    }

    pub fn validate(self) -> (r: Result<Self, HotkeyValidationError>)
        ensures
            r == match self.violation() {
                Some(e) => Err(e),
                None => Ok::<Self, HotkeyValidationError>(self),
            },
    {
        match self.trigger.validate() {
            Ok(_) => {},
            Err(e) => return Err(e),
        }
        match self.cancel.validate() {
            Ok(_) => {},
            Err(e) => return Err(e),
        }
        if self.trigger == self.cancel {
            return Err(HotkeyValidationError::DuplicatePair);
        }
        Ok(self)
    }

    /// Why the pair cannot be used on `platform`, in checking order.
    pub open spec fn platform_violation(self, platform: HotkeyPlatform) -> Option<HotkeyValidationError> {
        match self.violation() {
            Some(e) => Some(e),
            None => match self.trigger.platform_violation(platform) {
                Some(e) => Some(e),
                None => self.cancel.platform_violation(platform),
            },
        }
    }

    pub fn validate_for(self, platform: HotkeyPlatform) -> (r: Result<Self, HotkeyValidationError>)
        ensures
            r == match self.platform_violation(platform) {
                Some(e) => Err(e),
                None => Ok::<Self, HotkeyValidationError>(self),
            },
    {
        match self.validate() {
            Ok(_) => {},
            Err(e) => return Err(e),
        }
        match self.trigger.validate_for(platform) {
            Ok(_) => {},
            Err(e) => return Err(e),
        }
        match self.cancel.validate_for(platform) {
            Ok(_) => {},
            Err(e) => return Err(e),
        }
        Ok(self)
    }
}

impl Default for HotkeyPair {
    /// Ctrl+Alt+Shift+V to trigger and Ctrl+Alt+Shift+X to cancel.
    fn default() -> (r: Self)
        ensures
            r.trigger.modifiers == HotkeyModifiers::spec_of(true, true, true, false),
            r.trigger.key == HotkeyKey::V,
            r.cancel.modifiers == HotkeyModifiers::spec_of(true, true, true, false),
            r.cancel.key == HotkeyKey::X,
    {
        let modifiers = HotkeyModifiers::of_control().with(HotkeyModifiers::of_alt()).with(
            HotkeyModifiers::of_shift(),
        );
        HotkeyPair {
            trigger: HotkeySpec::new(modifiers, HotkeyKey::V),
            cancel: HotkeySpec::new(modifiers, HotkeyKey::X),
        }
    }
}

#[derive(Debug, Clone, Copy, PartialEq, Eq, Structural)]
pub enum HotkeyAvailability {
    Available,
    Conflict,
    Reserved,
    Unsupported,
    Unknown,
}

#[derive(Debug, Clone, Copy, PartialEq, Eq, Structural)]
pub enum HotkeyApplyResult {
    Applied,
    Rejected(HotkeyAvailability),
    RolledBack(HotkeyAvailability),
}

/// Every shortcut that parses holds a primary modifier and exactly the key
/// that its text names.
pub proof fn law_parsed_shortcuts_have_primary(s: Seq<char>)
    requires
        shortcut_from_text(s) is Ok,
    ensures
        shortcut_from_text(s)->Ok_0.modifiers.spec_has_primary(),
{
}

/// A pair accepted for a platform is two distinct shortcuts, neither of them
/// reserved and both supported there.
pub proof fn law_accepted_pairs_are_safe(pair: HotkeyPair, platform: HotkeyPlatform)
    requires
        pair.platform_violation(platform) is None,
    ensures
        pair.trigger != pair.cancel,
        !pair.trigger.spec_is_reserved_on(platform),
        !pair.cancel.spec_is_reserved_on(platform),
        pair.trigger.spec_is_supported_on(platform),
        pair.cancel.spec_is_supported_on(platform),
        pair.trigger.modifiers.spec_has_primary(),
        pair.cancel.modifiers.spec_has_primary(),
{
}



/// Every key's canonical name reads back as that key.
#[verifier::rlimit(100)]
proof fn lemma_key_name_reads_back(k: HotkeyKey)
    ensures
        key_named(k.spec_canonical_name()) == Some(k),
        modifier_named(k.spec_canonical_name()) is None,
        plain_token(k.spec_canonical_name()),
{
    reveal_strlit("a");
    reveal_strlit("b");
    reveal_strlit("c");
    reveal_strlit("d");
    reveal_strlit("e");
    reveal_strlit("f");
    reveal_strlit("g");
    reveal_strlit("h");
    reveal_strlit("i");
    reveal_strlit("j");
    reveal_strlit("k");
    reveal_strlit("l");
    reveal_strlit("m");
    reveal_strlit("n");
    reveal_strlit("o");
    reveal_strlit("p");
    reveal_strlit("q");
    reveal_strlit("r");
    reveal_strlit("s");
    reveal_strlit("t");
    reveal_strlit("u");
    reveal_strlit("v");
    reveal_strlit("w");
    reveal_strlit("x");
    reveal_strlit("y");
    reveal_strlit("z");
    reveal_strlit("0");
    reveal_strlit("1");
    reveal_strlit("2");
    reveal_strlit("3");
    reveal_strlit("4");
    reveal_strlit("5");
    reveal_strlit("6");
    reveal_strlit("7");
    reveal_strlit("8");
    reveal_strlit("9");
    reveal_strlit("f1");
    reveal_strlit("f2");
    reveal_strlit("f3");
    reveal_strlit("f4");
    reveal_strlit("f5");
    reveal_strlit("f6");
    reveal_strlit("f7");
    reveal_strlit("f8");
    reveal_strlit("f9");
    reveal_strlit("f10");
    reveal_strlit("f11");
    reveal_strlit("f12");
    reveal_strlit("f13");
    reveal_strlit("f14");
    reveal_strlit("f15");
    reveal_strlit("f16");
    reveal_strlit("f17");
    reveal_strlit("f18");
    reveal_strlit("f19");
    reveal_strlit("f20");
    reveal_strlit("f21");
    reveal_strlit("f22");
    reveal_strlit("f23");
    reveal_strlit("f24");
    reveal_strlit("space");
    reveal_strlit("tab");
    reveal_strlit("enter");
    reveal_strlit("return");
    reveal_strlit("escape");
    reveal_strlit("esc");
    reveal_strlit("backspace");
    reveal_strlit("insert");
    reveal_strlit("delete");
    reveal_strlit("del");
    reveal_strlit("home");
    reveal_strlit("end");
    reveal_strlit("pageup");
    reveal_strlit("page-up");
    reveal_strlit("pagedown");
    reveal_strlit("page-down");
    reveal_strlit("left");
    reveal_strlit("arrow-left");
    reveal_strlit("right");
    reveal_strlit("arrow-right");
    reveal_strlit("up");
    reveal_strlit("arrow-up");
    reveal_strlit("down");
    reveal_strlit("arrow-down");
    reveal_strlit("minus");
    reveal_strlit("-");
    reveal_strlit("equal");
    reveal_strlit("=");
    reveal_strlit("bracket-left");
    reveal_strlit("[");
    reveal_strlit("bracket-right");
    reveal_strlit("]");
    reveal_strlit("backslash");
    reveal_strlit("\\");
    reveal_strlit("semicolon");
    reveal_strlit(";");
    reveal_strlit("quote");
    reveal_strlit("'");
    reveal_strlit("comma");
    reveal_strlit(",");
    reveal_strlit("period");
    reveal_strlit(".");
    reveal_strlit("slash");
    reveal_strlit("/");
    reveal_strlit("backquote");
    reveal_strlit("`");
    assert("a"@.len() == 1);
    assert("a"@[0] == 'a');
    assert("b"@.len() == 1);
    assert("b"@[0] == 'b');
    assert("c"@.len() == 1);
    assert("c"@[0] == 'c');
    assert("d"@.len() == 1);
    assert("d"@[0] == 'd');
    assert("e"@.len() == 1);
    assert("e"@[0] == 'e');
    assert("f"@.len() == 1);
    assert("f"@[0] == 'f');
    assert("g"@.len() == 1);
    assert("g"@[0] == 'g');
    assert("h"@.len() == 1);
    assert("h"@[0] == 'h');
    assert("i"@.len() == 1);
    assert("i"@[0] == 'i');
    assert("j"@.len() == 1);
    assert("j"@[0] == 'j');
    assert("k"@.len() == 1);
    assert("k"@[0] == 'k');
    assert("l"@.len() == 1);
    assert("l"@[0] == 'l');
    assert("m"@.len() == 1);
    assert("m"@[0] == 'm');
    assert("n"@.len() == 1);
    assert("n"@[0] == 'n');
    assert("o"@.len() == 1);
    assert("o"@[0] == 'o');
    assert("p"@.len() == 1);
    assert("p"@[0] == 'p');
    assert("q"@.len() == 1);
    assert("q"@[0] == 'q');
    assert("r"@.len() == 1);
    assert("r"@[0] == 'r');
    assert("s"@.len() == 1);
    assert("s"@[0] == 's');
    assert("t"@.len() == 1);
    assert("t"@[0] == 't');
    assert("u"@.len() == 1);
    assert("u"@[0] == 'u');
    assert("v"@.len() == 1);
    assert("v"@[0] == 'v');
    assert("w"@.len() == 1);
    assert("w"@[0] == 'w');
    assert("x"@.len() == 1);
    assert("x"@[0] == 'x');
    assert("y"@.len() == 1);
    assert("y"@[0] == 'y');
    assert("z"@.len() == 1);
    assert("z"@[0] == 'z');
    assert("0"@.len() == 1);
    assert("0"@[0] == '0');
    assert("1"@.len() == 1);
    assert("1"@[0] == '1');
    assert("2"@.len() == 1);
    assert("2"@[0] == '2');
    assert("3"@.len() == 1);
    assert("3"@[0] == '3');
    assert("4"@.len() == 1);
    assert("4"@[0] == '4');
    assert("5"@.len() == 1);
    assert("5"@[0] == '5');
    assert("6"@.len() == 1);
    assert("6"@[0] == '6');
    assert("7"@.len() == 1);
    assert("7"@[0] == '7');
    assert("8"@.len() == 1);
    assert("8"@[0] == '8');
    assert("9"@.len() == 1);
    assert("9"@[0] == '9');
    assert("f1"@.len() == 2);
    assert("f1"@[0] == 'f');
    assert("f1"@[1] == '1');
    assert("f2"@.len() == 2);
    assert("f2"@[0] == 'f');
    assert("f2"@[1] == '2');
    assert("f3"@.len() == 2);
    assert("f3"@[0] == 'f');
    assert("f3"@[1] == '3');
    assert("f4"@.len() == 2);
    assert("f4"@[0] == 'f');
    assert("f4"@[1] == '4');
    assert("f5"@.len() == 2);
    assert("f5"@[0] == 'f');
    assert("f5"@[1] == '5');
    assert("f6"@.len() == 2);
    assert("f6"@[0] == 'f');
    assert("f6"@[1] == '6');
    assert("f7"@.len() == 2);
    assert("f7"@[0] == 'f');
    assert("f7"@[1] == '7');
    assert("f8"@.len() == 2);
    assert("f8"@[0] == 'f');
    assert("f8"@[1] == '8');
    assert("f9"@.len() == 2);
    assert("f9"@[0] == 'f');
    assert("f9"@[1] == '9');
    assert("f10"@.len() == 3);
    assert("f10"@[0] == 'f');
    assert("f10"@[1] == '1');
    assert("f10"@[2] == '0');
    assert("f11"@.len() == 3);
    assert("f11"@[0] == 'f');
    assert("f11"@[1] == '1');
    assert("f11"@[2] == '1');
    assert("f12"@.len() == 3);
    assert("f12"@[0] == 'f');
    assert("f12"@[1] == '1');
    assert("f12"@[2] == '2');
    assert("f13"@.len() == 3);
    assert("f13"@[0] == 'f');
    assert("f13"@[1] == '1');
    assert("f13"@[2] == '3');
    assert("f14"@.len() == 3);
    assert("f14"@[0] == 'f');
    assert("f14"@[1] == '1');
    assert("f14"@[2] == '4');
    assert("f15"@.len() == 3);
    assert("f15"@[0] == 'f');
    assert("f15"@[1] == '1');
    assert("f15"@[2] == '5');
    assert("f16"@.len() == 3);
    assert("f16"@[0] == 'f');
    assert("f16"@[1] == '1');
    assert("f16"@[2] == '6');
    assert("f17"@.len() == 3);
    assert("f17"@[0] == 'f');
    assert("f17"@[1] == '1');
    assert("f17"@[2] == '7');
    assert("f18"@.len() == 3);
    assert("f18"@[0] == 'f');
    assert("f18"@[1] == '1');
    assert("f18"@[2] == '8');
    assert("f19"@.len() == 3);
    assert("f19"@[0] == 'f');
    assert("f19"@[1] == '1');
    assert("f19"@[2] == '9');
    assert("f20"@.len() == 3);
    assert("f20"@[0] == 'f');
    assert("f20"@[1] == '2');
    assert("f20"@[2] == '0');
    assert("f21"@.len() == 3);
    assert("f21"@[0] == 'f');
    assert("f21"@[1] == '2');
    assert("f21"@[2] == '1');
    assert("f22"@.len() == 3);
    assert("f22"@[0] == 'f');
    assert("f22"@[1] == '2');
    assert("f22"@[2] == '2');
    assert("f23"@.len() == 3);
    assert("f23"@[0] == 'f');
    assert("f23"@[1] == '2');
    assert("f23"@[2] == '3');
    assert("f24"@.len() == 3);
    assert("f24"@[0] == 'f');
    assert("f24"@[1] == '2');
    assert("f24"@[2] == '4');
    assert("space"@.len() == 5);
    assert("space"@[0] == 's');
    assert("space"@[1] == 'p');
    assert("space"@[2] == 'a');
    assert("space"@[3] == 'c');
    assert("space"@[4] == 'e');
    assert("tab"@.len() == 3);
    assert("tab"@[0] == 't');
    assert("tab"@[1] == 'a');
    assert("tab"@[2] == 'b');
    assert("enter"@.len() == 5);
    assert("enter"@[0] == 'e');
    assert("enter"@[1] == 'n');
    assert("enter"@[2] == 't');
    assert("enter"@[3] == 'e');
    assert("enter"@[4] == 'r');
    assert("return"@.len() == 6);
    assert("return"@[0] == 'r');
    assert("return"@[1] == 'e');
    assert("return"@[2] == 't');
    assert("return"@[3] == 'u');
    assert("return"@[4] == 'r');
    assert("return"@[5] == 'n');
    assert("escape"@.len() == 6);
    assert("escape"@[0] == 'e');
    assert("escape"@[1] == 's');
    assert("escape"@[2] == 'c');
    assert("escape"@[3] == 'a');
    assert("escape"@[4] == 'p');
    assert("escape"@[5] == 'e');
    assert("esc"@.len() == 3);
    assert("esc"@[0] == 'e');
    assert("esc"@[1] == 's');
    assert("esc"@[2] == 'c');
    assert("backspace"@.len() == 9);
    assert("backspace"@[0] == 'b');
    assert("backspace"@[1] == 'a');
    assert("backspace"@[2] == 'c');
    assert("backspace"@[3] == 'k');
    assert("backspace"@[4] == 's');
    assert("backspace"@[5] == 'p');
    assert("backspace"@[6] == 'a');
    assert("backspace"@[7] == 'c');
    assert("backspace"@[8] == 'e');
    assert("insert"@.len() == 6);
    assert("insert"@[0] == 'i');
    assert("insert"@[1] == 'n');
    assert("insert"@[2] == 's');
    assert("insert"@[3] == 'e');
    assert("insert"@[4] == 'r');
    assert("insert"@[5] == 't');
    assert("delete"@.len() == 6);
    assert("delete"@[0] == 'd');
    assert("delete"@[1] == 'e');
    assert("delete"@[2] == 'l');
    assert("delete"@[3] == 'e');
    assert("delete"@[4] == 't');
    assert("delete"@[5] == 'e');
    assert("del"@.len() == 3);
    assert("del"@[0] == 'd');
    assert("del"@[1] == 'e');
    assert("del"@[2] == 'l');
    assert("home"@.len() == 4);
    assert("home"@[0] == 'h');
    assert("home"@[1] == 'o');
    assert("home"@[2] == 'm');
    assert("home"@[3] == 'e');
    assert("end"@.len() == 3);
    assert("end"@[0] == 'e');
    assert("end"@[1] == 'n');
    assert("end"@[2] == 'd');
    assert("pageup"@.len() == 6);
    assert("pageup"@[0] == 'p');
    assert("pageup"@[1] == 'a');
    assert("pageup"@[2] == 'g');
    assert("pageup"@[3] == 'e');
    assert("pageup"@[4] == 'u');
    assert("pageup"@[5] == 'p');
    assert("page-up"@.len() == 7);
    assert("page-up"@[0] == 'p');
    assert("page-up"@[1] == 'a');
    assert("page-up"@[2] == 'g');
    assert("page-up"@[3] == 'e');
    assert("page-up"@[4] == '-');
    assert("page-up"@[5] == 'u');
    assert("page-up"@[6] == 'p');
    assert("pagedown"@.len() == 8);
    assert("pagedown"@[0] == 'p');
    assert("pagedown"@[1] == 'a');
    assert("pagedown"@[2] == 'g');
    assert("pagedown"@[3] == 'e');
    assert("pagedown"@[4] == 'd');
    assert("pagedown"@[5] == 'o');
    assert("pagedown"@[6] == 'w');
    assert("pagedown"@[7] == 'n');
    assert("page-down"@.len() == 9);
    assert("page-down"@[0] == 'p');
    assert("page-down"@[1] == 'a');
    assert("page-down"@[2] == 'g');
    assert("page-down"@[3] == 'e');
    assert("page-down"@[4] == '-');
    assert("page-down"@[5] == 'd');
    assert("page-down"@[6] == 'o');
    assert("page-down"@[7] == 'w');
    assert("page-down"@[8] == 'n');
    assert("left"@.len() == 4);
    assert("left"@[0] == 'l');
    assert("left"@[1] == 'e');
    assert("left"@[2] == 'f');
    assert("left"@[3] == 't');
    assert("arrow-left"@.len() == 10);
    assert("arrow-left"@[0] == 'a');
    assert("arrow-left"@[1] == 'r');
    assert("arrow-left"@[2] == 'r');
    assert("arrow-left"@[3] == 'o');
    assert("arrow-left"@[4] == 'w');
    assert("arrow-left"@[5] == '-');
    assert("arrow-left"@[6] == 'l');
    assert("arrow-left"@[7] == 'e');
    assert("arrow-left"@[8] == 'f');
    assert("arrow-left"@[9] == 't');
    assert("right"@.len() == 5);
    assert("right"@[0] == 'r');
    assert("right"@[1] == 'i');
    assert("right"@[2] == 'g');
    assert("right"@[3] == 'h');
    assert("right"@[4] == 't');
    assert("arrow-right"@.len() == 11);
    assert("arrow-right"@[0] == 'a');
    assert("arrow-right"@[1] == 'r');
    assert("arrow-right"@[2] == 'r');
    assert("arrow-right"@[3] == 'o');
    assert("arrow-right"@[4] == 'w');
    assert("arrow-right"@[5] == '-');
    assert("arrow-right"@[6] == 'r');
    assert("arrow-right"@[7] == 'i');
    assert("arrow-right"@[8] == 'g');
    assert("arrow-right"@[9] == 'h');
    assert("arrow-right"@[10] == 't');
    assert("up"@.len() == 2);
    assert("up"@[0] == 'u');
    assert("up"@[1] == 'p');
    assert("arrow-up"@.len() == 8);
    assert("arrow-up"@[0] == 'a');
    assert("arrow-up"@[1] == 'r');
    assert("arrow-up"@[2] == 'r');
    assert("arrow-up"@[3] == 'o');
    assert("arrow-up"@[4] == 'w');
    assert("arrow-up"@[5] == '-');
    assert("arrow-up"@[6] == 'u');
    assert("arrow-up"@[7] == 'p');
    assert("down"@.len() == 4);
    assert("down"@[0] == 'd');
    assert("down"@[1] == 'o');
    assert("down"@[2] == 'w');
    assert("down"@[3] == 'n');
    assert("arrow-down"@.len() == 10);
    assert("arrow-down"@[0] == 'a');
    assert("arrow-down"@[1] == 'r');
    assert("arrow-down"@[2] == 'r');
    assert("arrow-down"@[3] == 'o');
    assert("arrow-down"@[4] == 'w');
    assert("arrow-down"@[5] == '-');
    assert("arrow-down"@[6] == 'd');
    assert("arrow-down"@[7] == 'o');
    assert("arrow-down"@[8] == 'w');
    assert("arrow-down"@[9] == 'n');
    assert("minus"@.len() == 5);
    assert("minus"@[0] == 'm');
    assert("minus"@[1] == 'i');
    assert("minus"@[2] == 'n');
    assert("minus"@[3] == 'u');
    assert("minus"@[4] == 's');
    assert("-"@.len() == 1);
    assert("-"@[0] == '-');
    assert("equal"@.len() == 5);
    assert("equal"@[0] == 'e');
    assert("equal"@[1] == 'q');
    assert("equal"@[2] == 'u');
    assert("equal"@[3] == 'a');
    assert("equal"@[4] == 'l');
    assert("="@.len() == 1);
    assert("="@[0] == '=');
    assert("bracket-left"@.len() == 12);
    assert("bracket-left"@[0] == 'b');
    assert("bracket-left"@[1] == 'r');
    assert("bracket-left"@[2] == 'a');
    assert("bracket-left"@[3] == 'c');
    assert("bracket-left"@[4] == 'k');
    assert("bracket-left"@[5] == 'e');
    assert("bracket-left"@[6] == 't');
    assert("bracket-left"@[7] == '-');
    assert("bracket-left"@[8] == 'l');
    assert("bracket-left"@[9] == 'e');
    assert("bracket-left"@[10] == 'f');
    assert("bracket-left"@[11] == 't');
    assert("["@.len() == 1);
    assert("["@[0] == '[');
    assert("bracket-right"@.len() == 13);
    assert("bracket-right"@[0] == 'b');
    assert("bracket-right"@[1] == 'r');
    assert("bracket-right"@[2] == 'a');
    assert("bracket-right"@[3] == 'c');
    assert("bracket-right"@[4] == 'k');
    assert("bracket-right"@[5] == 'e');
    assert("bracket-right"@[6] == 't');
    assert("bracket-right"@[7] == '-');
    assert("bracket-right"@[8] == 'r');
    assert("bracket-right"@[9] == 'i');
    assert("bracket-right"@[10] == 'g');
    assert("bracket-right"@[11] == 'h');
    assert("bracket-right"@[12] == 't');
    assert("]"@.len() == 1);
    assert("]"@[0] == ']');
    assert("backslash"@.len() == 9);
    assert("backslash"@[0] == 'b');
    assert("backslash"@[1] == 'a');
    assert("backslash"@[2] == 'c');
    assert("backslash"@[3] == 'k');
    assert("backslash"@[4] == 's');
    assert("backslash"@[5] == 'l');
    assert("backslash"@[6] == 'a');
    assert("backslash"@[7] == 's');
    assert("backslash"@[8] == 'h');
    assert("\\"@.len() == 1);
    assert("\\"@[0] == '\\');
    assert("semicolon"@.len() == 9);
    assert("semicolon"@[0] == 's');
    assert("semicolon"@[1] == 'e');
    assert("semicolon"@[2] == 'm');
    assert("semicolon"@[3] == 'i');
    assert("semicolon"@[4] == 'c');
    assert("semicolon"@[5] == 'o');
    assert("semicolon"@[6] == 'l');
    assert("semicolon"@[7] == 'o');
    assert("semicolon"@[8] == 'n');
    assert(";"@.len() == 1);
    assert(";"@[0] == ';');
    assert("quote"@.len() == 5);
    assert("quote"@[0] == 'q');
    assert("quote"@[1] == 'u');
    assert("quote"@[2] == 'o');
    assert("quote"@[3] == 't');
    assert("quote"@[4] == 'e');
    assert("'"@.len() == 1);
    assert("'"@[0] == '\'');
    assert("comma"@.len() == 5);
    assert("comma"@[0] == 'c');
    assert("comma"@[1] == 'o');
    assert("comma"@[2] == 'm');
    assert("comma"@[3] == 'm');
    assert("comma"@[4] == 'a');
    assert(","@.len() == 1);
    assert(","@[0] == ',');
    assert("period"@.len() == 6);
    assert("period"@[0] == 'p');
    assert("period"@[1] == 'e');
    assert("period"@[2] == 'r');
    assert("period"@[3] == 'i');
    assert("period"@[4] == 'o');
    assert("period"@[5] == 'd');
    assert("."@.len() == 1);
    assert("."@[0] == '.');
    assert("slash"@.len() == 5);
    assert("slash"@[0] == 's');
    assert("slash"@[1] == 'l');
    assert("slash"@[2] == 'a');
    assert("slash"@[3] == 's');
    assert("slash"@[4] == 'h');
    assert("/"@.len() == 1);
    assert("/"@[0] == '/');
    assert("backquote"@.len() == 9);
    assert("backquote"@[0] == 'b');
    assert("backquote"@[1] == 'a');
    assert("backquote"@[2] == 'c');
    assert("backquote"@[3] == 'k');
    assert("backquote"@[4] == 'q');
    assert("backquote"@[5] == 'u');
    assert("backquote"@[6] == 'o');
    assert("backquote"@[7] == 't');
    assert("backquote"@[8] == 'e');
    assert("`"@.len() == 1);
    assert("`"@[0] == '`');
    reveal_strlit("ctrl");
    reveal_strlit("control");
    reveal_strlit("alt");
    reveal_strlit("option");
    reveal_strlit("shift");
    reveal_strlit("meta");
    reveal_strlit("win");
    reveal_strlit("windows");
    reveal_strlit("cmd");
    reveal_strlit("command");
    reveal_strlit("+");
    assert("ctrl"@.len() == 4);
    assert("ctrl"@[0] == 'c');
    assert("ctrl"@[1] == 't');
    assert("ctrl"@[2] == 'r');
    assert("ctrl"@[3] == 'l');
    assert("control"@.len() == 7);
    assert("control"@[0] == 'c');
    assert("control"@[1] == 'o');
    assert("control"@[2] == 'n');
    assert("control"@[3] == 't');
    assert("control"@[4] == 'r');
    assert("control"@[5] == 'o');
    assert("control"@[6] == 'l');
    assert("alt"@.len() == 3);
    assert("alt"@[0] == 'a');
    assert("alt"@[1] == 'l');
    assert("alt"@[2] == 't');
    assert("option"@.len() == 6);
    assert("option"@[0] == 'o');
    assert("option"@[1] == 'p');
    assert("option"@[2] == 't');
    assert("option"@[3] == 'i');
    assert("option"@[4] == 'o');
    assert("option"@[5] == 'n');
    assert("shift"@.len() == 5);
    assert("shift"@[0] == 's');
    assert("shift"@[1] == 'h');
    assert("shift"@[2] == 'i');
    assert("shift"@[3] == 'f');
    assert("shift"@[4] == 't');
    assert("meta"@.len() == 4);
    assert("meta"@[0] == 'm');
    assert("meta"@[1] == 'e');
    assert("meta"@[2] == 't');
    assert("meta"@[3] == 'a');
    assert("win"@.len() == 3);
    assert("win"@[0] == 'w');
    assert("win"@[1] == 'i');
    assert("win"@[2] == 'n');
    assert("windows"@.len() == 7);
    assert("windows"@[0] == 'w');
    assert("windows"@[1] == 'i');
    assert("windows"@[2] == 'n');
    assert("windows"@[3] == 'd');
    assert("windows"@[4] == 'o');
    assert("windows"@[5] == 'w');
    assert("windows"@[6] == 's');
    assert("cmd"@.len() == 3);
    assert("cmd"@[0] == 'c');
    assert("cmd"@[1] == 'm');
    assert("cmd"@[2] == 'd');
    assert("command"@.len() == 7);
    assert("command"@[0] == 'c');
    assert("command"@[1] == 'o');
    assert("command"@[2] == 'm');
    assert("command"@[3] == 'm');
    assert("command"@[4] == 'a');
    assert("command"@[5] == 'n');
    assert("command"@[6] == 'd');
    assert("+"@.len() == 1);
    assert("+"@[0] == '+');
    match k {
        HotkeyKey::A => {},
        HotkeyKey::B => {},
        HotkeyKey::C => {},
        HotkeyKey::D => {},
        HotkeyKey::E => {},
        HotkeyKey::F => {},
        HotkeyKey::G => {},
        HotkeyKey::H => {},
        HotkeyKey::I => {},
        HotkeyKey::J => {},
        HotkeyKey::K => {},
        HotkeyKey::L => {},
        HotkeyKey::M => {},
        HotkeyKey::N => {},
        HotkeyKey::O => {},
        HotkeyKey::P => {},
        HotkeyKey::Q => {},
        HotkeyKey::R => {},
        HotkeyKey::S => {},
        HotkeyKey::T => {},
        HotkeyKey::U => {},
        HotkeyKey::V => {},
        HotkeyKey::W => {},
        HotkeyKey::X => {},
        HotkeyKey::Y => {},
        HotkeyKey::Z => {},
        HotkeyKey::Digit0 => {},
        HotkeyKey::Digit1 => {},
        HotkeyKey::Digit2 => {},
        HotkeyKey::Digit3 => {},
        HotkeyKey::Digit4 => {},
        HotkeyKey::Digit5 => {},
        HotkeyKey::Digit6 => {},
        HotkeyKey::Digit7 => {},
        HotkeyKey::Digit8 => {},
        HotkeyKey::Digit9 => {},
        HotkeyKey::F1 => {},
        HotkeyKey::F2 => {},
        HotkeyKey::F3 => {},
        HotkeyKey::F4 => {},
        HotkeyKey::F5 => {},
        HotkeyKey::F6 => {},
        HotkeyKey::F7 => {},
        HotkeyKey::F8 => {},
        HotkeyKey::F9 => {},
        HotkeyKey::F10 => {},
        HotkeyKey::F11 => {},
        HotkeyKey::F12 => {},
        HotkeyKey::F13 => {},
        HotkeyKey::F14 => {},
        HotkeyKey::F15 => {},
        HotkeyKey::F16 => {},
        HotkeyKey::F17 => {},
        HotkeyKey::F18 => {},
        HotkeyKey::F19 => {},
        HotkeyKey::F20 => {},
        HotkeyKey::F21 => {},
        HotkeyKey::F22 => {},
        HotkeyKey::F23 => {},
        HotkeyKey::F24 => {},
        HotkeyKey::Space => {},
        HotkeyKey::Tab => {},
        HotkeyKey::Enter => {},
        HotkeyKey::Escape => {},
        HotkeyKey::Backspace => {},
        HotkeyKey::Insert => {},
        HotkeyKey::Delete => {},
        HotkeyKey::Home => {},
        HotkeyKey::End => {},
        HotkeyKey::PageUp => {},
        HotkeyKey::PageDown => {},
        HotkeyKey::ArrowLeft => {},
        HotkeyKey::ArrowRight => {},
        HotkeyKey::ArrowUp => {},
        HotkeyKey::ArrowDown => {},
        HotkeyKey::Minus => {},
        HotkeyKey::Equal => {},
        HotkeyKey::BracketLeft => {},
        HotkeyKey::BracketRight => {},
        HotkeyKey::Backslash => {},
        HotkeyKey::Semicolon => {},
        HotkeyKey::Quote => {},
        HotkeyKey::Comma => {},
        HotkeyKey::Period => {},
        HotkeyKey::Slash => {},
        HotkeyKey::Backquote => {},
    }
}


/// A token as canonical text writes it: non-empty, without `+`, whitespace
/// or uppercase letters.
pub open spec fn plain_token(t: Seq<char>) -> bool {
    &&& t.len() > 0
    &&& forall|i: int|
        0 <= i < t.len() ==> #[trigger] t[i] != '+' && !is_white_space(t[i]) && !('A' <= t[i] && t[i] <= 'Z')
}

proof fn lemma_plain_token_reads_itself(t: Seq<char>)
    requires
        plain_token(t),
    ensures
        trim(t) == t,
        ascii_lower(t) == t,
{
    assert(ascii_lower(t) =~= t);
    assert(!is_white_space(t[0]));
    assert(!is_white_space(t[t.len() - 1]));
}

proof fn lemma_plain_prefix_ends_at_plus(s: Seq<char>, w: Seq<char>, j: int)
    requires
        plain_token(w),
        w.len() <= s.len(),
        s.subrange(0, w.len() as int) == w,
        0 <= j <= w.len(),
        w.len() < s.len() ==> s[w.len() as int] == '+',
    ensures
        token_end(s, j) == w.len(),
    decreases w.len() - j,
{
    if j < w.len() {
        assert(s[j] == w[j]);
        lemma_plain_prefix_ends_at_plus(s, w, j + 1);
    }
}

proof fn lemma_token_end_shift(s: Seq<char>, i: int, j: int)
    requires
        0 <= i <= j <= s.len(),
    ensures
        token_end(s, j) == i + token_end(s.skip(i), j - i),
    decreases s.len() - j,
{
    if j < s.len() {
        assert(s.skip(i)[j - i] == s[j]);
        if s[j] != '+' {
            lemma_token_end_shift(s, i, j + 1);
        }
    }
}

/// Reading tokens from position `i` reads the text that starts there.
proof fn lemma_tokens_shift(s: Seq<char>, i: int, st: (HotkeyModifiers, Option<HotkeyKey>))
    requires
        0 <= i <= s.len(),
    ensures
        apply_tokens(s, i, st) == apply_tokens(s.skip(i), 0, st),
    decreases s.len() - i,
{
    let t = s.skip(i);
    lemma_token_end_shift(s, i, i);
    lemma_token_end_bounds(s, i);
    lemma_token_end_bounds(t, 0);
    let e = token_end(s, i);
    assert(s.subrange(i, e) =~= t.subrange(0, e - i));
    if e < s.len() {
        assert(t.skip(e - i + 1) =~= s.skip(e + 1));
        match apply_token(s.subrange(i, e), st) {
            Ok(next) => {
                lemma_tokens_shift(s, e + 1, next);
                lemma_tokens_shift(t, e - i + 1, next);
            },
            Err(_) => {},
        }
    }
}

/// A plain token followed by `+` is read first, then the rest.
proof fn lemma_token_then(w: Seq<char>, rest: Seq<char>, st: (HotkeyModifiers, Option<HotkeyKey>))
    requires
        plain_token(w),
    ensures
        apply_tokens(w + seq!['+'] + rest, 0, st) == match apply_token(w, st) {
            Err(x) => Err(x),
            Ok(next) => apply_tokens(rest, 0, next),
        },
{
    let s = w + seq!['+'] + rest;
    assert(s.subrange(0, w.len() as int) =~= w);
    lemma_plain_prefix_ends_at_plus(s, w, 0);
    if let Ok(next) = apply_token(w, st) {
        lemma_tokens_shift(s, w.len() + 1int, next);
        assert(s.skip(w.len() + 1int) =~= rest);
    }
}

/// A last plain token is read alone.
proof fn lemma_token_last(w: Seq<char>, st: (HotkeyModifiers, Option<HotkeyKey>))
    requires
        plain_token(w),
    ensures
        apply_tokens(w, 0, st) == apply_token(w, st),
{
    assert(w.subrange(0, w.len() as int) =~= w);
    lemma_plain_prefix_ends_at_plus(w, w, 0);
}

/// The modifier token, if present, and what follows it.
pub open spec fn with_prefix(present: bool, name: Seq<char>, rest: Seq<char>) -> Seq<char> {
    if present {
        name + seq!['+'] + rest
    } else {
        rest
    }
}

proof fn lemma_modifier_step(
    present: bool,
    name: Seq<char>,
    m: HotkeyModifiers,
    rest: Seq<char>,
    st: (HotkeyModifiers, Option<HotkeyKey>),
)
    requires
        plain_token(name),
        modifier_named(name) == Some(m),
        present ==> !st.0.spec_contains(m),
    ensures
        apply_tokens(with_prefix(present, name, rest), 0, st) == apply_tokens(
            rest,
            0,
            if present {
                (st.0.spec_with(m), st.1)
            } else {
                st
            },
        ),
{
    if present {
        lemma_plain_token_reads_itself(name);
        lemma_token_then(name, rest, st);
    }
}

proof fn lemma_modifier_words()
    ensures
        plain_token("ctrl"@),
        plain_token("alt"@),
        plain_token("shift"@),
        plain_token("meta"@),
        modifier_named("ctrl"@) == Some(HotkeyModifiers::spec_of(true, false, false, false)),
        modifier_named("alt"@) == Some(HotkeyModifiers::spec_of(false, true, false, false)),
        modifier_named("shift"@) == Some(HotkeyModifiers::spec_of(false, false, true, false)),
        modifier_named("meta"@) == Some(HotkeyModifiers::spec_of(false, false, false, true)),
{
    reveal_strlit("ctrl");
    reveal_strlit("alt");
    reveal_strlit("shift");
    reveal_strlit("meta");
    reveal_strlit("control");
    reveal_strlit("option");
    assert("ctrl"@.len() == 4 && "ctrl"@[0] == 'c');
    assert("alt"@.len() == 3 && "alt"@[0] == 'a');
    assert("shift"@.len() == 5 && "shift"@[0] == 's');
    assert("meta"@.len() == 4 && "meta"@[0] == 'm');
    assert("control"@.len() == 7);
    assert("option"@.len() == 6 && "option"@[0] == 'o');
    assert(plain_token("ctrl"@));
    assert(plain_token("alt"@));
    assert(plain_token("shift"@));
    assert(plain_token("meta"@));
}

proof fn lemma_canonical_shape(spec: HotkeySpec)
    ensures
        spec.canonical_text() == with_prefix(
            spec.modifiers.spec_control(),
            "ctrl"@,
            with_prefix(
                spec.modifiers.spec_alt(),
                "alt"@,
                with_prefix(
                    spec.modifiers.spec_shift(),
                    "shift"@,
                    with_prefix(spec.modifiers.spec_meta(), "meta"@, spec.key.spec_canonical_name()),
                ),
            ),
        ),
{
    reveal_strlit("+");
    assert("+"@ =~= seq!['+']);
    let m = spec.modifiers;
    let name = spec.key.spec_canonical_name();
    let tail_m = with_prefix(m.spec_meta(), "meta"@, name);
    let tail_s = with_prefix(m.spec_shift(), "shift"@, tail_m);
    let tail_a = with_prefix(m.spec_alt(), "alt"@, tail_s);
    let text = with_prefix(m.spec_control(), "ctrl"@, tail_a);
    assert(spec.canonical_text() =~= text);
}

proof fn lemma_trim_start_keeps_last(s: Seq<char>)
    requires
        s.len() > 0,
        !is_white_space(s.last()),
    ensures
        trim_start(s).len() > 0,
        trim_start(s).last() == s.last(),
    decreases s.len(),
{
    if is_white_space(s[0]) {
        assert(s.len() > 1);
        assert(s.drop_first().last() == s.last());
        lemma_trim_start_keeps_last(s.drop_first());
    }
}

proof fn lemma_trim_keeps_last(s: Seq<char>)
    requires
        s.len() > 0,
        !is_white_space(s.last()),
    ensures
        trim(s).len() > 0,
{
    lemma_trim_start_keeps_last(s);
}

proof fn lemma_not_blank(text: Seq<char>, name: Seq<char>)
    requires
        plain_token(name),
        name.len() <= text.len(),
        text.subrange(text.len() - name.len(), text.len() as int) == name,
    ensures
        trim(text).len() != 0,
{
    assert(text[text.len() - 1] == name[name.len() - 1]);
    assert(!is_white_space(text[text.len() - 1]));
    lemma_trim_keeps_last(text);
}

proof fn lemma_suffix_kept(present: bool, word: Seq<char>, rest: Seq<char>, name: Seq<char>)
    requires
        name.len() <= rest.len(),
        rest.subrange(rest.len() - name.len(), rest.len() as int) == name,
    ensures
        name.len() <= with_prefix(present, word, rest).len(),
        with_prefix(present, word, rest).subrange(
            with_prefix(present, word, rest).len() - name.len(),
            with_prefix(present, word, rest).len() as int,
        ) == name,
{
    if present {
        let t = word + seq!['+'] + rest;
        assert(t.subrange(t.len() - name.len(), t.len() as int) =~= rest.subrange(
            rest.len() - name.len(),
            rest.len() as int,
        ));
    }
}

proof fn lemma_members(m: HotkeyModifiers)
    ensures
        m == HotkeyModifiers::spec_of(m.spec_control(), m.spec_alt(), m.spec_shift(), m.spec_meta()),
{
}

proof fn lemma_key_token_step(k: HotkeyKey, st: (HotkeyModifiers, Option<HotkeyKey>))
    requires
        st.1 is None,
    ensures
        plain_token(k.spec_canonical_name()),
        apply_tokens(k.spec_canonical_name(), 0, st) == Ok::<
            (HotkeyModifiers, Option<HotkeyKey>),
            HotkeyParseError,
        >((st.0, Some(k))),
{
    let name = k.spec_canonical_name();
    lemma_key_name_reads_back(k);
    lemma_plain_token_reads_itself(name);
    lemma_token_last(name, st);
}

proof fn lemma_canonical_tokens(spec: HotkeySpec)
    ensures
        apply_tokens(
            spec.canonical_text(),
            0,
            (HotkeyModifiers::spec_of(false, false, false, false), None::<HotkeyKey>),
        ) == Ok::<(HotkeyModifiers, Option<HotkeyKey>), HotkeyParseError>(
            (spec.modifiers, Some(spec.key)),
        ),
        trim(spec.canonical_text()).len() != 0,
{
    let m = spec.modifiers;
    let name = spec.key.spec_canonical_name();
    lemma_modifier_words();
    lemma_canonical_shape(spec);
    let c = HotkeyModifiers::spec_of(true, false, false, false);
    let a = HotkeyModifiers::spec_of(false, true, false, false);
    let sh = HotkeyModifiers::spec_of(false, false, true, false);
    let me = HotkeyModifiers::spec_of(false, false, false, true);
    let tail_m = with_prefix(m.spec_meta(), "meta"@, name);
    let tail_s = with_prefix(m.spec_shift(), "shift"@, tail_m);
    let tail_a = with_prefix(m.spec_alt(), "alt"@, tail_s);
    let text = with_prefix(m.spec_control(), "ctrl"@, tail_a);
    let s0 = (HotkeyModifiers::spec_of(false, false, false, false), None::<HotkeyKey>);
    let s1 = (HotkeyModifiers::spec_of(m.spec_control(), false, false, false), None::<HotkeyKey>);
    let s2 = (HotkeyModifiers::spec_of(m.spec_control(), m.spec_alt(), false, false), None::<HotkeyKey>);
    let s3 = (HotkeyModifiers::spec_of(m.spec_control(), m.spec_alt(), m.spec_shift(), false), None::<HotkeyKey>);
    let s4 = (HotkeyModifiers::spec_of(m.spec_control(), m.spec_alt(), m.spec_shift(), m.spec_meta()), None::<HotkeyKey>);
    lemma_modifier_step(m.spec_control(), "ctrl"@, c, tail_a, s0);
    lemma_modifier_step(m.spec_alt(), "alt"@, a, tail_s, s1);
    lemma_modifier_step(m.spec_shift(), "shift"@, sh, tail_m, s2);
    lemma_modifier_step(m.spec_meta(), "meta"@, me, name, s3);
    lemma_key_token_step(spec.key, s4);
    lemma_members(m);
    assert(name.subrange(0, name.len() as int) =~= name);
    lemma_suffix_kept(m.spec_meta(), "meta"@, name, name);
    lemma_suffix_kept(m.spec_shift(), "shift"@, tail_m, name);
    lemma_suffix_kept(m.spec_alt(), "alt"@, tail_s, name);
    lemma_suffix_kept(m.spec_control(), "ctrl"@, tail_a, name);
    lemma_not_blank(text, name);
}

/// The canonical text of a shortcut reads back as that shortcut.
pub proof fn law_canonical_text_reads_back(spec: HotkeySpec)
    requires
        spec.modifiers.spec_has_primary(),
    ensures
        shortcut_from_text(spec.canonical_text()) == Ok::<HotkeySpec, HotkeyParseError>(spec),
{
    lemma_canonical_tokens(spec);
}

/// Canonical key names are distinct, non-empty, lowercase and free of `+`
/// and whitespace, and each reads back as its key: a token whose trimmed,
/// lowercased text is the name of `k` is the key `k`.
pub proof fn law_key_names_read_back(k: HotkeyKey, other: HotkeyKey, token: Seq<char>)
    ensures
        key_named(k.spec_canonical_name()) == Some(k),
        plain_token(k.spec_canonical_name()),
        k != other ==> k.spec_canonical_name() != other.spec_canonical_name(),
        ascii_lower(trim(token)) == k.spec_canonical_name() ==> token_key(token) == Some(k),
{
    lemma_key_name_reads_back(k);
    lemma_key_name_reads_back(other);
}

/// A token without `+`.
pub open spec fn plus_free(t: Seq<char>) -> bool {
    forall|i: int| 0 <= i < t.len() ==> #[trigger] t[i] != '+'
}

/// A token that names a modifier once trimmed and lowercased.
pub open spec fn modifier_token(t: Seq<char>) -> bool {
    plus_free(t) && modifier_named(ascii_lower(trim(t))) is Some
}

proof fn lemma_free_prefix_end(s: Seq<char>, w: Seq<char>, j: int)
    requires
        plus_free(w),
        w.len() <= s.len(),
        s.subrange(0, w.len() as int) == w,
        0 <= j <= w.len(),
        w.len() < s.len() ==> s[w.len() as int] == '+',
    ensures
        token_end(s, j) == w.len(),
    decreases w.len() - j,
{
    if j < w.len() {
        assert(s[j] == w[j]);
        lemma_free_prefix_end(s, w, j + 1);
    }
}

/// What follows a token: nothing, or `+` and more tokens.
pub open spec fn after_token(tail: Seq<char>, st: (HotkeyModifiers, Option<HotkeyKey>)) -> Result<
    (HotkeyModifiers, Option<HotkeyKey>),
    HotkeyParseError,
> {
    if tail.len() == 0 {
        Ok(st)
    } else {
        apply_tokens(tail.skip(1), 0, st)
    }
}

proof fn lemma_token_before(w: Seq<char>, tail: Seq<char>, st: (HotkeyModifiers, Option<HotkeyKey>))
    requires
        plus_free(w),
        tail.len() == 0 || tail[0] == '+',
    ensures
        apply_tokens(w + tail, 0, st) == match apply_token(w, st) {
            Err(x) => Err(x),
            Ok(next) => after_token(tail, next),
        },
{
    let s = w + tail;
    assert(s.subrange(0, w.len() as int) =~= w);
    lemma_free_prefix_end(s, w, 0);
    if tail.len() > 0 {
        if let Ok(next) = apply_token(w, st) {
            lemma_tokens_shift(s, w.len() + 1int, next);
            assert(s.skip(w.len() + 1int) =~= tail.skip(1));
        }
    }
}

proof fn lemma_no_empty_modifier()
    ensures
        modifier_named(Seq::<char>::empty()) is None,
{
    reveal_strlit("ctrl");
    reveal_strlit("control");
    reveal_strlit("alt");
    reveal_strlit("option");
    reveal_strlit("shift");
    reveal_strlit("meta");
    reveal_strlit("win");
    reveal_strlit("windows");
    reveal_strlit("cmd");
    reveal_strlit("command");
    assert("ctrl"@.len() > 0 && "control"@.len() > 0 && "alt"@.len() > 0 && "option"@.len() > 0);
    assert("shift"@.len() > 0 && "meta"@.len() > 0 && "win"@.len() > 0 && "windows"@.len() > 0);
    assert("cmd"@.len() > 0 && "command"@.len() > 0);
}

proof fn lemma_modifier_pair(a: Seq<char>, b: Seq<char>, st: (HotkeyModifiers, Option<HotkeyKey>))
    requires
        modifier_token(a),
        modifier_token(b),
    ensures
        match apply_token(a, st) {
            Err(x) => Err(x),
            Ok(n) => apply_token(b, n),
        } == match apply_token(b, st) {
            Err(x) => Err(x),
            Ok(n) => apply_token(a, n),
        },
{
    let ma = modifier_named(ascii_lower(trim(a)))->0;
    let mb = modifier_named(ascii_lower(trim(b)))->0;
    lemma_no_empty_modifier();
    assert(trim(a).len() != 0) by {
        if trim(a).len() == 0 {
            assert(ascii_lower(trim(a)) =~= Seq::<char>::empty());
        }
    }
    assert(trim(b).len() != 0) by {
        if trim(b).len() == 0 {
            assert(ascii_lower(trim(b)) =~= Seq::<char>::empty());
        }
    }
    HotkeyModifiers::lemma_of(true, false, false, false);
    HotkeyModifiers::lemma_of(false, true, false, false);
    HotkeyModifiers::lemma_of(false, false, true, false);
    HotkeyModifiers::lemma_of(false, false, false, true);
    let x = st.0;
    let xa = x.spec_with(ma);
    let xb = x.spec_with(mb);
    HotkeyModifiers::lemma_of(
        x.spec_control() || ma.spec_control(),
        x.spec_alt() || ma.spec_alt(),
        x.spec_shift() || ma.spec_shift(),
        x.spec_meta() || ma.spec_meta(),
    );
    HotkeyModifiers::lemma_of(
        x.spec_control() || mb.spec_control(),
        x.spec_alt() || mb.spec_alt(),
        x.spec_shift() || mb.spec_shift(),
        x.spec_meta() || mb.spec_meta(),
    );
    HotkeyModifiers::lemma_of(
        xa.spec_control() || mb.spec_control(),
        xa.spec_alt() || mb.spec_alt(),
        xa.spec_shift() || mb.spec_shift(),
        xa.spec_meta() || mb.spec_meta(),
    );
    HotkeyModifiers::lemma_of(
        xb.spec_control() || ma.spec_control(),
        xb.spec_alt() || ma.spec_alt(),
        xb.spec_shift() || ma.spec_shift(),
        xb.spec_meta() || ma.spec_meta(),
    );
}

proof fn lemma_swap_here(
    a: Seq<char>,
    b: Seq<char>,
    tail: Seq<char>,
    st: (HotkeyModifiers, Option<HotkeyKey>),
)
    requires
        modifier_token(a),
        modifier_token(b),
        tail.len() == 0 || tail[0] == '+',
    ensures
        apply_tokens(a + seq!['+'] + b + tail, 0, st) == apply_tokens(b + seq!['+'] + a + tail, 0, st),
{
    let bt = seq!['+'] + b + tail;
    let at = seq!['+'] + a + tail;
    assert(a + seq!['+'] + b + tail =~= a + bt);
    assert(b + seq!['+'] + a + tail =~= b + at);
    lemma_token_before(a, bt, st);
    lemma_token_before(b, at, st);
    assert(bt.skip(1) =~= b + tail);
    assert(at.skip(1) =~= a + tail);
    if let Ok(n) = apply_token(a, st) {
        lemma_token_before(b, tail, n);
    }
    if let Ok(n) = apply_token(b, st) {
        lemma_token_before(a, tail, n);
    }
    lemma_modifier_pair(a, b, st);
    if let Ok(n) = apply_token(a, st) {
        if let Ok(m) = apply_token(b, n) {
            if let Ok(n2) = apply_token(b, st) {
                assert(apply_token(a, n2) == Ok::<(HotkeyModifiers, Option<HotkeyKey>), HotkeyParseError>(m));
            }
        }
    }
}

proof fn lemma_plus_bound(s: Seq<char>, j: int, idx: int)
    requires
        0 <= j <= idx < s.len(),
        s[idx] == '+',
    ensures
        token_end(s, j) <= idx,
    decreases idx - j,
{
    if s[j] != '+' {
        lemma_plus_bound(s, j + 1, idx);
    }
}

proof fn lemma_end_in_prefix(p: Seq<char>, x: Seq<char>, j: int)
    requires
        0 <= j <= p.len(),
        token_end(p, j) < p.len(),
    ensures
        token_end(p + x, j) == token_end(p, j),
    decreases p.len() - j,
{
    if j < p.len() {
        assert((p + x)[j] == p[j]);
        if p[j] != '+' {
            lemma_end_in_prefix(p, x, j + 1);
        }
    }
}

/// Tokens before a `+` are read the same way whatever follows them.
proof fn lemma_same_after_prefix(
    p: Seq<char>,
    x: Seq<char>,
    y: Seq<char>,
    st: (HotkeyModifiers, Option<HotkeyKey>),
)
    requires
        p.len() == 0 || p.last() == '+',
        forall|t: (HotkeyModifiers, Option<HotkeyKey>)| #[trigger] apply_tokens(x, 0, t) == apply_tokens(y, 0, t),
    ensures
        apply_tokens(p + x, 0, st) == apply_tokens(p + y, 0, st),
    decreases p.len(),
{
    if p.len() == 0 {
        assert(p + x =~= x);
        assert(p + y =~= y);
    } else {
        lemma_plus_bound(p, 0, p.len() - 1);
        lemma_token_end_bounds(p, 0);
        let e = token_end(p, 0);
        lemma_end_in_prefix(p, x, 0);
        lemma_end_in_prefix(p, y, 0);
        let sx = p + x;
        let sy = p + y;
        assert(sx.subrange(0, e) =~= p.subrange(0, e));
        assert(sy.subrange(0, e) =~= p.subrange(0, e));
        let q = p.skip(e + 1);
        assert(q.len() == 0 || q.last() == '+');
        if let Ok(n) = apply_token(p.subrange(0, e), st) {
            lemma_tokens_shift(sx, e + 1, n);
            lemma_tokens_shift(sy, e + 1, n);
            assert(sx.skip(e + 1) =~= q + x);
            assert(sy.skip(e + 1) =~= q + y);
            lemma_same_after_prefix(q, x, y, n);
        }
    }
}

proof fn lemma_nonblank_trim_start(s: Seq<char>, i: int)
    requires
        0 <= i < s.len(),
        !is_white_space(s[i]),
    ensures
        exists|k: int| 0 <= k <= i && trim_start(s) == s.skip(k),
    decreases s.len(),
{
    if is_white_space(s[0]) {
        assert(s.drop_first()[i - 1] == s[i]);
        lemma_nonblank_trim_start(s.drop_first(), i - 1);
        let k = choose|k: int| 0 <= k <= i - 1 && trim_start(s.drop_first()) == s.drop_first().skip(k);
        assert(s.drop_first().skip(k) =~= s.skip(k + 1));
    } else {
        assert(s.skip(0) =~= s);
    }
}

proof fn lemma_nonblank_trim_end(t: Seq<char>, i: int)
    requires
        0 <= i < t.len(),
        !is_white_space(t[i]),
    ensures
        trim_end(t).len() > 0,
    decreases t.len(),
{
    if is_white_space(t.last()) {
        assert(t.drop_last()[i] == t[i]);
        lemma_nonblank_trim_end(t.drop_last(), i);
    }
}

proof fn lemma_nonblank_trim(s: Seq<char>, i: int)
    requires
        0 <= i < s.len(),
        !is_white_space(s[i]),
    ensures
        trim(s).len() > 0,
{
    lemma_nonblank_trim_start(s, i);
    let k = choose|k: int| 0 <= k <= i && trim_start(s) == s.skip(k);
    assert(s.skip(k)[i - k] == s[i]);
    lemma_nonblank_trim_end(s.skip(k), i - k);
}

proof fn lemma_modifier_token_nonblank(a: Seq<char>)
    requires
        modifier_token(a),
    ensures
        exists|i: int| 0 <= i < a.len() && !is_white_space(a[i]),
{
    if forall|i: int| 0 <= i < a.len() ==> is_white_space(#[trigger] a[i]) {
        lemma_blank_trims_away(a);
        lemma_no_empty_modifier();
        assert(ascii_lower(trim(a)) =~= Seq::<char>::empty());
    }
}

proof fn lemma_blank_trims_away(a: Seq<char>)
    requires
        forall|i: int| 0 <= i < a.len() ==> is_white_space(#[trigger] a[i]),
    ensures
        trim(a).len() == 0,
    decreases a.len(),
{
    if a.len() > 0 {
        assert forall|i: int| 0 <= i < a.drop_first().len() implies is_white_space(
            #[trigger] a.drop_first()[i],
        ) by {
            assert(a.drop_first()[i] == a[i + 1]);
        }
        lemma_blank_trims_away(a.drop_first());
        assert(trim_start(a) == trim_start(a.drop_first()));
    }
}

/// The order of modifier words does not matter: swapping two neighbouring
/// modifier tokens anywhere in a shortcut text gives the same result, so
/// `shift+ctrl+alt+v` reads as `ctrl+alt+shift+v`.
pub proof fn law_modifier_order_does_not_matter(
    p: Seq<char>,
    a: Seq<char>,
    b: Seq<char>,
    tail: Seq<char>,
)
    requires
        p.len() == 0 || p.last() == '+',
        modifier_token(a),
        modifier_token(b),
        tail.len() == 0 || tail[0] == '+',
    ensures
        shortcut_from_text(p + a + seq!['+'] + b + tail) == shortcut_from_text(
            p + b + seq!['+'] + a + tail,
        ),
{
    let x = a + seq!['+'] + b + tail;
    let y = b + seq!['+'] + a + tail;
    assert forall|t: (HotkeyModifiers, Option<HotkeyKey>)| #[trigger] apply_tokens(x, 0, t)
        == apply_tokens(y, 0, t) by {
        lemma_swap_here(a, b, tail, t);
    }
    lemma_same_after_prefix(p, x, y, (HotkeyModifiers::spec_of(false, false, false, false), None));
    assert(p + a + seq!['+'] + b + tail =~= p + x);
    assert(p + b + seq!['+'] + a + tail =~= p + y);
    lemma_modifier_token_nonblank(a);
    let i = choose|i: int| 0 <= i < a.len() && !is_white_space(a[i]);
    assert((p + x)[p.len() + i] == a[i]);
    assert((p + y)[p.len() + b.len() + 1 + i] == a[i]);
    lemma_nonblank_trim(p + x, p.len() + i);
    lemma_nonblank_trim(p + y, p.len() + b.len() + 1 + i);
}

/// Letter and digit keys.
pub open spec fn is_letter_or_digit(k: HotkeyKey) -> bool {
    matches!(k,
        HotkeyKey::A | HotkeyKey::B | HotkeyKey::C | HotkeyKey::D | HotkeyKey::E | HotkeyKey::F
        | HotkeyKey::G | HotkeyKey::H | HotkeyKey::I | HotkeyKey::J | HotkeyKey::K | HotkeyKey::L
        | HotkeyKey::M | HotkeyKey::N | HotkeyKey::O | HotkeyKey::P | HotkeyKey::Q | HotkeyKey::R
        | HotkeyKey::S | HotkeyKey::T | HotkeyKey::U | HotkeyKey::V | HotkeyKey::W | HotkeyKey::X
        | HotkeyKey::Y | HotkeyKey::Z | HotkeyKey::Digit0 | HotkeyKey::Digit1 | HotkeyKey::Digit2
        | HotkeyKey::Digit3 | HotkeyKey::Digit4 | HotkeyKey::Digit5 | HotkeyKey::Digit6
        | HotkeyKey::Digit7 | HotkeyKey::Digit8 | HotkeyKey::Digit9)
}

/// Windows keeps its own system shortcuts: Alt+F4 and Alt+Tab (whatever
/// else is held), F12 with any modifiers, Ctrl+Alt+Delete, Ctrl+Shift+Escape
/// and the Windows key with L, D, R, E or Tab are refused as reserved.
pub proof fn law_windows_system_shortcuts_are_reserved(spec: HotkeySpec)
    ensures
        spec.modifiers.spec_alt() && (spec.key == HotkeyKey::F4 || spec.key == HotkeyKey::Tab)
            ==> spec.platform_violation(HotkeyPlatform::Windows) == Some(HotkeyValidationError::Reserved),
        spec.modifiers.spec_has_primary() && spec.key == HotkeyKey::F12 ==> spec.platform_violation(
            HotkeyPlatform::Windows,
        ) == Some(HotkeyValidationError::Reserved),
        spec.modifiers.spec_control() && spec.modifiers.spec_alt() && spec.key == HotkeyKey::Delete
            ==> spec.platform_violation(HotkeyPlatform::Windows) == Some(HotkeyValidationError::Reserved),
        spec.modifiers.spec_control() && spec.modifiers.spec_shift() && spec.key == HotkeyKey::Escape
            ==> spec.platform_violation(HotkeyPlatform::Windows) == Some(HotkeyValidationError::Reserved),
        spec.modifiers.spec_meta() && (spec.key == HotkeyKey::L || spec.key == HotkeyKey::D || spec.key
            == HotkeyKey::R || spec.key == HotkeyKey::E || spec.key == HotkeyKey::Tab)
            ==> spec.platform_violation(HotkeyPlatform::Windows) == Some(HotkeyValidationError::Reserved),
        spec.modifiers.spec_has_primary() && !spec.modifiers.spec_meta() && is_letter_or_digit(spec.key)
            ==> spec.platform_violation(HotkeyPlatform::Windows) is None,
{
}

/// macOS keeps its own system shortcuts: Command with Space, Tab or Q,
/// Command+Option+Escape, Control+Command+Q and Command+Shift with 3, 4 or 5
/// are refused as reserved; F21 to F24 do not exist there.
pub proof fn law_macos_system_shortcuts_are_reserved(spec: HotkeySpec)
    ensures
        spec.modifiers.spec_meta() && (spec.key == HotkeyKey::Space || spec.key == HotkeyKey::Tab
            || spec.key == HotkeyKey::Q) ==> spec.platform_violation(HotkeyPlatform::MacOS) == Some(
            HotkeyValidationError::Reserved,
        ),
        spec.modifiers.spec_meta() && spec.modifiers.spec_alt() && spec.key == HotkeyKey::Escape
            ==> spec.platform_violation(HotkeyPlatform::MacOS) == Some(HotkeyValidationError::Reserved),
        spec.modifiers.spec_meta() && spec.modifiers.spec_shift() && (spec.key == HotkeyKey::Digit3
            || spec.key == HotkeyKey::Digit4 || spec.key == HotkeyKey::Digit5)
            ==> spec.platform_violation(HotkeyPlatform::MacOS) == Some(HotkeyValidationError::Reserved),
        spec.modifiers.spec_has_primary() && !spec.modifiers.spec_meta() && (spec.key == HotkeyKey::F21
            || spec.key == HotkeyKey::F24) ==> spec.platform_violation(HotkeyPlatform::MacOS) == Some(
            HotkeyValidationError::Unsupported,
        ),
        spec.modifiers.spec_has_primary() && !spec.modifiers.spec_meta() && is_letter_or_digit(spec.key)
            ==> spec.platform_violation(HotkeyPlatform::MacOS) is None,
{
}

/// A pair whose trigger is Alt+F4 or Alt+Tab is refused on Windows as
/// reserved, once the pair itself is well formed.
pub proof fn law_pairs_with_reserved_triggers_are_refused(pair: HotkeyPair)
    ensures
        pair.violation() is None && pair.trigger.modifiers.spec_alt() && (pair.trigger.key
            == HotkeyKey::F4 || pair.trigger.key == HotkeyKey::Tab) ==> pair.platform_violation(
            HotkeyPlatform::Windows,
        ) == Some(HotkeyValidationError::Reserved),
{
}

/// Each key's canonical name as written in shortcut text (`v`, `f12`,
/// `pageup`, `bracket-left`, ...).
pub proof fn law_canonical_key_names_are_documented()
    ensures
        HotkeyKey::A.spec_canonical_name() == "a"@,
        HotkeyKey::B.spec_canonical_name() == "b"@,
        HotkeyKey::C.spec_canonical_name() == "c"@,
        HotkeyKey::D.spec_canonical_name() == "d"@,
        HotkeyKey::E.spec_canonical_name() == "e"@,
        HotkeyKey::F.spec_canonical_name() == "f"@,
        HotkeyKey::G.spec_canonical_name() == "g"@,
        HotkeyKey::H.spec_canonical_name() == "h"@,
        HotkeyKey::I.spec_canonical_name() == "i"@,
        HotkeyKey::J.spec_canonical_name() == "j"@,
        HotkeyKey::K.spec_canonical_name() == "k"@,
        HotkeyKey::L.spec_canonical_name() == "l"@,
        HotkeyKey::M.spec_canonical_name() == "m"@,
        HotkeyKey::N.spec_canonical_name() == "n"@,
        HotkeyKey::O.spec_canonical_name() == "o"@,
        HotkeyKey::P.spec_canonical_name() == "p"@,
        HotkeyKey::Q.spec_canonical_name() == "q"@,
        HotkeyKey::R.spec_canonical_name() == "r"@,
        HotkeyKey::S.spec_canonical_name() == "s"@,
        HotkeyKey::T.spec_canonical_name() == "t"@,
        HotkeyKey::U.spec_canonical_name() == "u"@,
        HotkeyKey::V.spec_canonical_name() == "v"@,
        HotkeyKey::W.spec_canonical_name() == "w"@,
        HotkeyKey::X.spec_canonical_name() == "x"@,
        HotkeyKey::Y.spec_canonical_name() == "y"@,
        HotkeyKey::Z.spec_canonical_name() == "z"@,
        HotkeyKey::Digit0.spec_canonical_name() == "0"@,
        HotkeyKey::Digit1.spec_canonical_name() == "1"@,
        HotkeyKey::Digit2.spec_canonical_name() == "2"@,
        HotkeyKey::Digit3.spec_canonical_name() == "3"@,
        HotkeyKey::Digit4.spec_canonical_name() == "4"@,
        HotkeyKey::Digit5.spec_canonical_name() == "5"@,
        HotkeyKey::Digit6.spec_canonical_name() == "6"@,
        HotkeyKey::Digit7.spec_canonical_name() == "7"@,
        HotkeyKey::Digit8.spec_canonical_name() == "8"@,
        HotkeyKey::Digit9.spec_canonical_name() == "9"@,
        HotkeyKey::F1.spec_canonical_name() == "f1"@,
        HotkeyKey::F2.spec_canonical_name() == "f2"@,
        HotkeyKey::F3.spec_canonical_name() == "f3"@,
        HotkeyKey::F4.spec_canonical_name() == "f4"@,
        HotkeyKey::F5.spec_canonical_name() == "f5"@,
        HotkeyKey::F6.spec_canonical_name() == "f6"@,
        HotkeyKey::F7.spec_canonical_name() == "f7"@,
        HotkeyKey::F8.spec_canonical_name() == "f8"@,
        HotkeyKey::F9.spec_canonical_name() == "f9"@,
        HotkeyKey::F10.spec_canonical_name() == "f10"@,
        HotkeyKey::F11.spec_canonical_name() == "f11"@,
        HotkeyKey::F12.spec_canonical_name() == "f12"@,
        HotkeyKey::F13.spec_canonical_name() == "f13"@,
        HotkeyKey::F14.spec_canonical_name() == "f14"@,
        HotkeyKey::F15.spec_canonical_name() == "f15"@,
        HotkeyKey::F16.spec_canonical_name() == "f16"@,
        HotkeyKey::F17.spec_canonical_name() == "f17"@,
        HotkeyKey::F18.spec_canonical_name() == "f18"@,
        HotkeyKey::F19.spec_canonical_name() == "f19"@,
        HotkeyKey::F20.spec_canonical_name() == "f20"@,
        HotkeyKey::F21.spec_canonical_name() == "f21"@,
        HotkeyKey::F22.spec_canonical_name() == "f22"@,
        HotkeyKey::F23.spec_canonical_name() == "f23"@,
        HotkeyKey::F24.spec_canonical_name() == "f24"@,
        HotkeyKey::Space.spec_canonical_name() == "space"@,
        HotkeyKey::Tab.spec_canonical_name() == "tab"@,
        HotkeyKey::Enter.spec_canonical_name() == "enter"@,
        HotkeyKey::Escape.spec_canonical_name() == "escape"@,
        HotkeyKey::Backspace.spec_canonical_name() == "backspace"@,
        HotkeyKey::Insert.spec_canonical_name() == "insert"@,
        HotkeyKey::Delete.spec_canonical_name() == "delete"@,
        HotkeyKey::Home.spec_canonical_name() == "home"@,
        HotkeyKey::End.spec_canonical_name() == "end"@,
        HotkeyKey::PageUp.spec_canonical_name() == "pageup"@,
        HotkeyKey::PageDown.spec_canonical_name() == "pagedown"@,
        HotkeyKey::ArrowLeft.spec_canonical_name() == "left"@,
        HotkeyKey::ArrowRight.spec_canonical_name() == "right"@,
        HotkeyKey::ArrowUp.spec_canonical_name() == "up"@,
        HotkeyKey::ArrowDown.spec_canonical_name() == "down"@,
        HotkeyKey::Minus.spec_canonical_name() == "minus"@,
        HotkeyKey::Equal.spec_canonical_name() == "equal"@,
        HotkeyKey::BracketLeft.spec_canonical_name() == "bracket-left"@,
        HotkeyKey::BracketRight.spec_canonical_name() == "bracket-right"@,
        HotkeyKey::Backslash.spec_canonical_name() == "backslash"@,
        HotkeyKey::Semicolon.spec_canonical_name() == "semicolon"@,
        HotkeyKey::Quote.spec_canonical_name() == "quote"@,
        HotkeyKey::Comma.spec_canonical_name() == "comma"@,
        HotkeyKey::Period.spec_canonical_name() == "period"@,
        HotkeyKey::Slash.spec_canonical_name() == "slash"@,
        HotkeyKey::Backquote.spec_canonical_name() == "backquote"@,
{
}

/// Each key's name as shown to people (`V`, `F12`, `Page Up`, ...).
pub proof fn law_display_key_names_are_documented()
    ensures
        HotkeyKey::A.spec_display_name() == "A"@,
        HotkeyKey::B.spec_display_name() == "B"@,
        HotkeyKey::C.spec_display_name() == "C"@,
        HotkeyKey::D.spec_display_name() == "D"@,
        HotkeyKey::E.spec_display_name() == "E"@,
        HotkeyKey::F.spec_display_name() == "F"@,
        HotkeyKey::G.spec_display_name() == "G"@,
        HotkeyKey::H.spec_display_name() == "H"@,
        HotkeyKey::I.spec_display_name() == "I"@,
        HotkeyKey::J.spec_display_name() == "J"@,
        HotkeyKey::K.spec_display_name() == "K"@,
        HotkeyKey::L.spec_display_name() == "L"@,
        HotkeyKey::M.spec_display_name() == "M"@,
        HotkeyKey::N.spec_display_name() == "N"@,
        HotkeyKey::O.spec_display_name() == "O"@,
        HotkeyKey::P.spec_display_name() == "P"@,
        HotkeyKey::Q.spec_display_name() == "Q"@,
        HotkeyKey::R.spec_display_name() == "R"@,
        HotkeyKey::S.spec_display_name() == "S"@,
        HotkeyKey::T.spec_display_name() == "T"@,
        HotkeyKey::U.spec_display_name() == "U"@,
        HotkeyKey::V.spec_display_name() == "V"@,
        HotkeyKey::W.spec_display_name() == "W"@,
        HotkeyKey::X.spec_display_name() == "X"@,
        HotkeyKey::Y.spec_display_name() == "Y"@,
        HotkeyKey::Z.spec_display_name() == "Z"@,
        HotkeyKey::Digit0.spec_display_name() == "0"@,
        HotkeyKey::Digit1.spec_display_name() == "1"@,
        HotkeyKey::Digit2.spec_display_name() == "2"@,
        HotkeyKey::Digit3.spec_display_name() == "3"@,
        HotkeyKey::Digit4.spec_display_name() == "4"@,
        HotkeyKey::Digit5.spec_display_name() == "5"@,
        HotkeyKey::Digit6.spec_display_name() == "6"@,
        HotkeyKey::Digit7.spec_display_name() == "7"@,
        HotkeyKey::Digit8.spec_display_name() == "8"@,
        HotkeyKey::Digit9.spec_display_name() == "9"@,
        HotkeyKey::F1.spec_display_name() == "F1"@,
        HotkeyKey::F2.spec_display_name() == "F2"@,
        HotkeyKey::F3.spec_display_name() == "F3"@,
        HotkeyKey::F4.spec_display_name() == "F4"@,
        HotkeyKey::F5.spec_display_name() == "F5"@,
        HotkeyKey::F6.spec_display_name() == "F6"@,
        HotkeyKey::F7.spec_display_name() == "F7"@,
        HotkeyKey::F8.spec_display_name() == "F8"@,
        HotkeyKey::F9.spec_display_name() == "F9"@,
        HotkeyKey::F10.spec_display_name() == "F10"@,
        HotkeyKey::F11.spec_display_name() == "F11"@,
        HotkeyKey::F12.spec_display_name() == "F12"@,
        HotkeyKey::F13.spec_display_name() == "F13"@,
        HotkeyKey::F14.spec_display_name() == "F14"@,
        HotkeyKey::F15.spec_display_name() == "F15"@,
        HotkeyKey::F16.spec_display_name() == "F16"@,
        HotkeyKey::F17.spec_display_name() == "F17"@,
        HotkeyKey::F18.spec_display_name() == "F18"@,
        HotkeyKey::F19.spec_display_name() == "F19"@,
        HotkeyKey::F20.spec_display_name() == "F20"@,
        HotkeyKey::F21.spec_display_name() == "F21"@,
        HotkeyKey::F22.spec_display_name() == "F22"@,
        HotkeyKey::F23.spec_display_name() == "F23"@,
        HotkeyKey::F24.spec_display_name() == "F24"@,
        HotkeyKey::Space.spec_display_name() == "Space"@,
        HotkeyKey::Tab.spec_display_name() == "Tab"@,
        HotkeyKey::Enter.spec_display_name() == "Enter"@,
        HotkeyKey::Escape.spec_display_name() == "Esc"@,
        HotkeyKey::Backspace.spec_display_name() == "Backspace"@,
        HotkeyKey::Insert.spec_display_name() == "Insert"@,
        HotkeyKey::Delete.spec_display_name() == "Delete"@,
        HotkeyKey::Home.spec_display_name() == "Home"@,
        HotkeyKey::End.spec_display_name() == "End"@,
        HotkeyKey::PageUp.spec_display_name() == "Page Up"@,
        HotkeyKey::PageDown.spec_display_name() == "Page Down"@,
        HotkeyKey::ArrowLeft.spec_display_name() == "Left"@,
        HotkeyKey::ArrowRight.spec_display_name() == "Right"@,
        HotkeyKey::ArrowUp.spec_display_name() == "Up"@,
        HotkeyKey::ArrowDown.spec_display_name() == "Down"@,
        HotkeyKey::Minus.spec_display_name() == "-"@,
        HotkeyKey::Equal.spec_display_name() == "="@,
        HotkeyKey::BracketLeft.spec_display_name() == "["@,
        HotkeyKey::BracketRight.spec_display_name() == "]"@,
        HotkeyKey::Backslash.spec_display_name() == "\\"@,
        HotkeyKey::Semicolon.spec_display_name() == ";"@,
        HotkeyKey::Quote.spec_display_name() == "'"@,
        HotkeyKey::Comma.spec_display_name() == ","@,
        HotkeyKey::Period.spec_display_name() == "."@,
        HotkeyKey::Slash.spec_display_name() == "/"@,
        HotkeyKey::Backquote.spec_display_name() == "`"@,
{
}

} // verus!
