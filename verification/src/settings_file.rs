//! The strict, versioned settings file format.
//!
//! A settings file is a sequence of `key = value` lines. Blank lines and lines
//! starting with `#` are ignored; every known key must appear exactly once;
//! unknown keys, malformed lines and malformed values are refused with the
//! line number, never with the offending text.
//!
//! The file holds eight keys, in this order: `version`, `enabled`, `mode`,
//! `auto_clipboard_threshold`, `speed`, `notifications`, `start_at_login` and
//! `hotkey`. The typing rate, jitter and typo chance are not part of the file:
//! settings read from it carry the default rate and no jitter or typos.
use vstd::prelude::*;

use crate::product::{AutoClipboardThreshold, InjectionMode};
use crate::settings::{HotkeyPreset, ProductSettings, SettingsValidationError, SpeedPreset};
use crate::textual::{
    chars_of, decimal, digit_char, find_char_in, first_index, is_white_space, lemma_first_index,
    push_decimal, push_str, range_contains, range_is, trim, trim_end, trim_range, trim_start,
};

verus! {

#[derive(Debug, Clone, Copy, PartialEq, Eq, Structural)]
pub enum SettingsSource {
    Primary,
    Backup,
    Defaults,
}

#[derive(Debug, Clone, Copy, PartialEq, Eq, Structural)]
pub struct SettingsLoad {
    pub settings: ProductSettings,
    pub source: SettingsSource,
}

#[verifier::external_type_specification]
#[verifier::external_body]
pub struct ExIoErrorKind(std::io::ErrorKind);

/// Content-free settings failure. I/O failures carry the platform's error kind.
#[derive(Debug, Clone, Copy, PartialEq, Eq)]
pub enum SettingsError {
    Io(std::io::ErrorKind),
    Syntax { line: usize },
    DuplicateKey { line: usize },
    UnknownKey { line: usize },
    MissingKey(&'static str),
    InvalidValue { line: usize },
    Validation(SettingsValidationError),
}

/// The typing rate of settings read from a file: the default settings' rate.
pub const FILE_CHARACTERS_PER_SECOND: u16 = 40;

// ---------------------------------------------------------------------------
// Characters and values.
// ---------------------------------------------------------------------------








pub open spec fn is_digit(c: char) -> bool {
    '0' <= c && c <= '9'
}

pub open spec fn digit_value(c: char) -> nat {
    ((c as u32) - ('0' as u32)) as nat
}

/// The number written by decimal digits, most significant first.
pub open spec fn digits_value(s: Seq<char>) -> nat
    decreases s.len(),
{
    if s.len() == 0 {
        0
    } else {
        digits_value(s.drop_last()) * 10 + digit_value(s.last())
    }
}

/// The digits of an unsigned decimal: the text after an optional `+`.
pub open spec fn unsigned_digits(s: Seq<char>) -> Seq<char> {
    if s.len() > 0 && s[0] == '+' {
        s.drop_first()
    } else {
        s
    }
}

pub open spec fn all_digits(d: Seq<char>) -> bool {
    forall|k: int| 0 <= k < d.len() ==> is_digit(#[trigger] d[k])
}

/// An unsigned decimal as Rust's integer parsing reads it: an optional `+`
/// followed by one or more ASCII digits.
pub open spec fn parse_unsigned(s: Seq<char>) -> Option<nat> {
    let digits = unsigned_digits(s);
    if digits.len() > 0 && all_digits(digits) {
        Some(digits_value(digits))
    } else {
        None
    }
}

/// An unsigned decimal no greater than `max`.
pub open spec fn parse_bounded(s: Seq<char>, max: nat) -> Option<nat> {
    match parse_unsigned(s) {
        Some(n) => if n <= max {
            Some(n)
        } else {
            None
        },
        None => None,
    }
}

pub open spec fn parse_bool(s: Seq<char>) -> Option<bool> {
    if s == "true"@ {
        Some(true)
    } else if s == "false"@ {
        Some(false)
    } else {
        None
    }
}

/// The text between double quotes, which must not hold a quote, a backslash
/// or a line ending.
pub open spec fn unquote(s: Seq<char>) -> Option<Seq<char>> {
    if s.len() >= 2 && s[0] == '"' && s.last() == '"' {
        let inner = s.subrange(1, s.len() - 1);
        if inner.contains('"') || inner.contains('\\') || inner.contains('\n') || inner.contains(
            '\r',
        ) {
            None
        } else {
            Some(inner)
        }
    } else {
        None
    }
}

pub open spec fn mode_name(mode: InjectionMode) -> Seq<char> {
    match mode {
        InjectionMode::Keyboard => "keyboard"@,
        InjectionMode::Clipboard => "clipboard"@,
        InjectionMode::Auto => "auto"@,
        InjectionMode::Code => "code"@,
    }
}

pub open spec fn mode_named(s: Seq<char>) -> Option<InjectionMode> {
    if s == "keyboard"@ {
        Some(InjectionMode::Keyboard)
    } else if s == "clipboard"@ {
        Some(InjectionMode::Clipboard)
    } else if s == "auto"@ {
        Some(InjectionMode::Auto)
    } else if s == "code"@ {
        Some(InjectionMode::Code)
    } else {
        None
    }
}

pub open spec fn speed_name(speed: SpeedPreset) -> Seq<char> {
    match speed {
        SpeedPreset::Slow => "slow"@,
        SpeedPreset::Normal => "normal"@,
        SpeedPreset::Fast => "fast"@,
        SpeedPreset::Custom => "custom"@,
    }
}

pub open spec fn speed_named(s: Seq<char>) -> Option<SpeedPreset> {
    if s == "slow"@ {
        Some(SpeedPreset::Slow)
    } else if s == "normal"@ {
        Some(SpeedPreset::Normal)
    } else if s == "fast"@ {
        Some(SpeedPreset::Fast)
    } else if s == "custom"@ {
        Some(SpeedPreset::Custom)
    } else {
        None
    }
}

pub open spec fn hotkey_name(hotkey: HotkeyPreset) -> Seq<char> {
    match hotkey {
        HotkeyPreset::CtrlAltShiftFunction => "ctrl-alt-shift-function"@,
        HotkeyPreset::CtrlAltFunction => "ctrl-alt-function"@,
        HotkeyPreset::CtrlShiftFunction => "ctrl-shift-function"@,
    }
}

pub open spec fn hotkey_named(s: Seq<char>) -> Option<HotkeyPreset> {
    if s == "ctrl-alt-shift-function"@ {
        Some(HotkeyPreset::CtrlAltShiftFunction)
    } else if s == "ctrl-alt-function"@ {
        Some(HotkeyPreset::CtrlAltFunction)
    } else if s == "ctrl-shift-function"@ {
        Some(HotkeyPreset::CtrlShiftFunction)
    } else {
        None
    }
}

pub open spec fn bool_text(b: bool) -> Seq<char> {
    if b {
        "true"@
    } else {
        "false"@
    }
}

// ---------------------------------------------------------------------------
// The file model.
// ---------------------------------------------------------------------------

/// The values read so far, one slot per key.
#[derive(Clone, Copy, PartialEq, Eq, Structural)]
pub struct SettingsFields {
    pub version: Option<u32>,
    pub enabled: Option<bool>,
    pub mode: Option<InjectionMode>,
    pub threshold: Option<AutoClipboardThreshold>,
    pub speed: Option<SpeedPreset>,
    pub notifications: Option<bool>,
    pub start_at_login: Option<bool>,
    pub hotkey: Option<HotkeyPreset>,
}

pub open spec fn no_fields() -> SettingsFields {
    SettingsFields {
        version: None,
        enabled: None,
        mode: None,
        threshold: None,
        speed: None,
        notifications: None,
        start_at_login: None,
        hotkey: None,
    }
}

/// One `key = value` entry applied to the values read so far.
pub open spec fn apply_entry(key: Seq<char>, value: Seq<char>, line: usize, f: SettingsFields) -> Result<SettingsFields, SettingsError> {
    let dup = Err(SettingsError::DuplicateKey { line });
    let bad = Err(SettingsError::InvalidValue { line });
    if key == "version"@ {
        if f.version is Some { dup } else {
            match parse_bounded(value, u32::MAX as nat) {
                Some(n) => Ok(SettingsFields { version: Some(n as u32), ..f }),
                None => bad,
            }
        }
    } else if key == "enabled"@ {
        if f.enabled is Some { dup } else {
            match parse_bool(value) {
                Some(b) => Ok(SettingsFields { enabled: Some(b), ..f }),
                None => bad,
            }
        }
    } else if key == "mode"@ {
        if f.mode is Some { dup } else {
            match unquote(value) {
                Some(name) => match mode_named(name) {
                    Some(m) => Ok(SettingsFields { mode: Some(m), ..f }),
                    None => bad,
                },
                None => bad,
            }
        }
    } else if key == "auto_clipboard_threshold"@ {
        if f.threshold is Some { dup } else {
            match parse_bounded(value, usize::MAX as nat) {
                Some(n) => if n == 0 {
                    bad
                } else {
                    Ok(SettingsFields { threshold: Some(AutoClipboardThreshold::spec_new(n as usize)), ..f })
                },
                None => bad,
            }
        }
    } else if key == "speed"@ {
        if f.speed is Some { dup } else {
            match unquote(value) {
                Some(name) => match speed_named(name) {
                    Some(p) => Ok(SettingsFields { speed: Some(p), ..f }),
                    None => bad,
                },
                None => bad,
            }
        }
    } else if key == "notifications"@ {
        if f.notifications is Some { dup } else {
            match parse_bool(value) {
                Some(b) => Ok(SettingsFields { notifications: Some(b), ..f }),
                None => bad,
            }
        }
    } else if key == "start_at_login"@ {
        if f.start_at_login is Some { dup } else {
            match parse_bool(value) {
                Some(b) => Ok(SettingsFields { start_at_login: Some(b), ..f }),
                None => bad,
            }
        }
    } else if key == "hotkey"@ {
        if f.hotkey is Some { dup } else {
            match unquote(value) {
                Some(name) => match hotkey_named(name) {
                    Some(h) => Ok(SettingsFields { hotkey: Some(h), ..f }),
                    None => bad,
                },
                None => bad,
            }
        }
    } else {
        Err(SettingsError::UnknownKey { line })
    }
}

/// One raw line (without its line break) applied to the values read so far.
pub open spec fn apply_line(raw: Seq<char>, line: usize, f: SettingsFields) -> Result<SettingsFields, SettingsError> {
    let t = trim(raw);
    if t.len() == 0 || t[0] == '#' {
        Ok(f)
    } else {
        match first_index(t, '=') {
            None => Err(SettingsError::Syntax { line }),
            Some(k) => {
                let key = trim(t.take(k));
                let value = trim(t.skip(k + 1));
                if key.len() == 0 || value.len() == 0 || value.contains('#') {
                    Err(SettingsError::Syntax { line })
                } else {
                    apply_entry(key, value, line, f)
                }
            },
        }
    }
}

/// The index of the first line break at or after `i`, or the end of `s`.
pub open spec fn line_end(s: Seq<char>, i: int) -> int
    decreases s.len() - i,
{
    if i >= s.len() || i < 0 {
        s.len() as int
    } else if s[i] == '\n' {
        i
    } else {
        line_end(s, i + 1)
    }
}

pub proof fn lemma_line_end_bounds(s: Seq<char>, i: int)
    requires
        0 <= i <= s.len(),
    ensures
        i <= line_end(s, i) <= s.len(),
        line_end(s, i) < s.len() ==> s[line_end(s, i)] == '\n',
        forall|k: int| i <= k < line_end(s, i) ==> s[k] != '\n',
    decreases s.len() - i,
{
    if i < s.len() && s[i] != '\n' {
        lemma_line_end_bounds(s, i + 1);
    }
}

/// The lines from position `i` on, numbered from `line`, applied in order.
pub open spec fn apply_lines(s: Seq<char>, i: int, line: nat, f: SettingsFields) -> Result<SettingsFields, SettingsError>
    decreases s.len() - i,
{
    if i < 0 || i > s.len() {
        Ok(f)
    } else {
        let e = line_end(s, i);
        proof {
            lemma_line_end_bounds(s, i);
        }
        match apply_line(s.subrange(i, e), line as usize, f) {
            Err(x) => Err(x),
            Ok(g) => if e >= s.len() {
                Ok(g)
            } else {
                apply_lines(s, e + 1, line + 1, g)
            },
        }
    }
}

/// The settings once every line is read: each key must be present, in
/// declaration order, and the settings must validate. The typing rate is the
/// default one and there is no jitter or typo chance, as the file holds none.
pub open spec fn finish(f: SettingsFields) -> Result<ProductSettings, SettingsError> {
    if f.version is None {
        Err(SettingsError::MissingKey("version"))
    } else if f.enabled is None {
        Err(SettingsError::MissingKey("enabled"))
    } else if f.mode is None {
        Err(SettingsError::MissingKey("mode"))
    } else if f.threshold is None {
        Err(SettingsError::MissingKey("auto_clipboard_threshold"))
    } else if f.speed is None {
        Err(SettingsError::MissingKey("speed"))
    } else if f.notifications is None {
        Err(SettingsError::MissingKey("notifications"))
    } else if f.start_at_login is None {
        Err(SettingsError::MissingKey("start_at_login"))
    } else if f.hotkey is None {
        Err(SettingsError::MissingKey("hotkey"))
    } else {
        let s = ProductSettings {
            version: f.version->0,
            enabled: f.enabled->0,
            mode: f.mode->0,
            auto_clipboard_threshold: f.threshold->0,
            speed: f.speed->0,
            characters_per_second: FILE_CHARACTERS_PER_SECOND,
            jitter_percent: 0,
            typo_probability_percent: 0,
            notifications: f.notifications->0,
            start_at_login: f.start_at_login->0,
            hotkey: f.hotkey->0,
        };
        match s.violation() {
            Some(e) => Err(SettingsError::Validation(e)),
            None => Ok(s),
        }
    }
}

/// What reading a whole settings text gives.
pub open spec fn settings_from_text(s: Seq<char>) -> Result<ProductSettings, SettingsError> {
    match apply_lines(s, 0, 1, no_fields()) {
        Err(e) => Err(e),
        Ok(f) => finish(f),
    }
}

/// One `key = value` line.
pub open spec fn entry(key: Seq<char>, value: Seq<char>) -> Seq<char> {
    key + " = "@ + value + "\n"@
}

pub open spec fn quoted(s: Seq<char>) -> Seq<char> {
    "\""@ + s + "\""@
}

/// The key of the `k`-th line of a settings file.
pub open spec fn key_at(k: int) -> Seq<char> {
    if k == 0 {
        "version"@
    } else if k == 1 {
        "enabled"@
    } else if k == 2 {
        "mode"@
    } else if k == 3 {
        "auto_clipboard_threshold"@
    } else if k == 4 {
        "speed"@
    } else if k == 5 {
        "notifications"@
    } else if k == 6 {
        "start_at_login"@
    } else {
        "hotkey"@
    }
}

/// The value written on the `k`-th line for `s`.
pub open spec fn value_at(s: ProductSettings, k: int) -> Seq<char> {
    if k == 0 {
        decimal(s.version as nat)
    } else if k == 1 {
        bool_text(s.enabled)
    } else if k == 2 {
        quoted(mode_name(s.mode))
    } else if k == 3 {
        decimal(s.auto_clipboard_threshold.spec_get() as nat)
    } else if k == 4 {
        quoted(speed_name(s.speed))
    } else if k == 5 {
        bool_text(s.notifications)
    } else if k == 6 {
        bool_text(s.start_at_login)
    } else {
        quoted(hotkey_name(s.hotkey))
    }
}

/// The number of lines of a settings file.
pub open spec fn settings_lines() -> int {
    8
}

/// The lines from the `k`-th on.
pub open spec fn text_from(s: ProductSettings, k: int) -> Seq<char>
    decreases settings_lines() - k,
{
    if k < 0 || k >= settings_lines() {
        seq![]
    } else {
        entry(key_at(k), value_at(s, k)) + text_from(s, k + 1)
    }
}

/// The settings text written for `s`: every key once, in declaration order.
pub open spec fn settings_text(s: ProductSettings) -> Seq<char> {
    text_from(s, 0)
}

// ---------------------------------------------------------------------------
// Writing.
// ---------------------------------------------------------------------------

fn bool_literal(b: bool) -> (r: &'static str)
    ensures
        r@ == bool_text(b),
{
    if b {
        "true"
    } else {
        "false"
    }
}

fn mode_literal(mode: InjectionMode) -> (r: &'static str)
    ensures
        r@ == mode_name(mode),
{
    match mode {
        InjectionMode::Keyboard => "keyboard",
        InjectionMode::Clipboard => "clipboard",
        InjectionMode::Auto => "auto",
        InjectionMode::Code => "code",
    }
}

fn speed_literal(speed: SpeedPreset) -> (r: &'static str)
    ensures
        r@ == speed_name(speed),
{
    match speed {
        SpeedPreset::Slow => "slow",
        SpeedPreset::Normal => "normal",
        SpeedPreset::Fast => "fast",
        SpeedPreset::Custom => "custom",
    }
}

fn hotkey_literal(hotkey: HotkeyPreset) -> (r: &'static str)
    ensures
        r@ == hotkey_name(hotkey),
{
    match hotkey {
        HotkeyPreset::CtrlAltShiftFunction => "ctrl-alt-shift-function",
        HotkeyPreset::CtrlAltFunction => "ctrl-alt-function",
        HotkeyPreset::CtrlShiftFunction => "ctrl-shift-function",
    }
}

fn push_number_entry(out: &mut String, key: &str, n: u64)
    ensures
        final(out)@ == old(out)@ + entry(key@, decimal(n as nat)),
{
    push_str(out, key);
    push_str(out, " = ");
    push_decimal(out, n);
    push_str(out, "\n");
    assert(final(out)@ =~= old(out)@ + entry(key@, decimal(n as nat)));
}

fn push_text_entry(out: &mut String, key: &str, value: &str)
    ensures
        final(out)@ == old(out)@ + entry(key@, value@),
{
    push_str(out, key);
    push_str(out, " = ");
    push_str(out, value);
    push_str(out, "\n");
    assert(final(out)@ =~= old(out)@ + entry(key@, value@));
}

fn push_quoted_entry(out: &mut String, key: &str, value: &str)
    ensures
        final(out)@ == old(out)@ + entry(key@, quoted(value@)),
{
    push_str(out, key);
    push_str(out, " = ");
    push_str(out, "\"");
    push_str(out, value);
    push_str(out, "\"");
    push_str(out, "\n");
    assert(final(out)@ =~= old(out)@ + entry(key@, quoted(value@)));
}

fn push_entry_at(out: &mut String, settings: ProductSettings, k: usize)
    requires
        k < settings_lines(),
    ensures
        final(out)@ == old(out)@ + entry(key_at(k as int), value_at(settings, k as int)),
{
    if k == 0 {
        push_number_entry(out, "version", settings.version as u64);
    } else if k == 1 {
        push_text_entry(out, "enabled", bool_literal(settings.enabled));
    } else if k == 2 {
        push_quoted_entry(out, "mode", mode_literal(settings.mode));
    } else if k == 3 {
        push_number_entry(
            out,
            "auto_clipboard_threshold",
            settings.auto_clipboard_threshold.get() as u64,
        );
    } else if k == 4 {
        push_quoted_entry(out, "speed", speed_literal(settings.speed));
    } else if k == 5 {
        push_text_entry(out, "notifications", bool_literal(settings.notifications));
    } else if k == 6 {
        push_text_entry(out, "start_at_login", bool_literal(settings.start_at_login));
    } else {
        push_quoted_entry(out, "hotkey", hotkey_literal(settings.hotkey));
    }
}

/// The settings file text for `settings`: one `key = value` line per key.
pub fn serialize_settings(settings: ProductSettings) -> (r: String)
    ensures
        r@ == settings_text(settings),
{
    let mut out = String::new();
    let mut k: usize = 0;
    while k < 8
        invariant
            k <= settings_lines(),
            out@ + text_from(settings, k as int) == settings_text(settings),
        decreases settings_lines() - k,
    {
        let ghost before = out@;
        push_entry_at(&mut out, settings, k);
        assert(out@ + text_from(settings, k + 1) =~= before + text_from(settings, k as int));
        k = k + 1;
    }
    assert(out@ + text_from(settings, k as int) =~= out@);
    out
}

// ---------------------------------------------------------------------------
// Reading.
// ---------------------------------------------------------------------------

fn find_line_end(chars: &Vec<char>, i: usize) -> (e: usize)
    requires
        i <= chars@.len(),
    ensures
        e == line_end(chars@, i as int),
        i <= e <= chars@.len(),
{
    let mut k = i;
    while k < chars.len() && chars[k] != '\n'
        invariant
            i <= k <= chars@.len(),
            line_end(chars@, i as int) == line_end(chars@, k as int),
        decreases chars@.len() - k,
    {
        k = k + 1;
    }
    k
}





proof fn lemma_digits_step(s: Seq<char>, k: int)
    requires
        0 <= k < s.len(),
    ensures
        digits_value(s.take(k + 1)) == digits_value(s.take(k)) * 10 + digit_value(s[k]),
{
    assert(s.take(k + 1).drop_last() =~= s.take(k));
}

proof fn lemma_digits_monotone(s: Seq<char>, j: int)
    requires
        0 <= j <= s.len(),
    ensures
        digits_value(s.take(j)) <= digits_value(s),
    decreases s.len(),
{
    if j == s.len() {
        assert(s.take(j) =~= s);
    } else {
        assert(s.take(j) =~= s.drop_last().take(j));
        lemma_digits_monotone(s.drop_last(), j);
    }
}

/// An unsigned decimal no greater than `max` in `[a, b)`.
fn parse_bounded_range(chars: &Vec<char>, a: usize, b: usize, max: u64) -> (r: Option<u64>)
    requires
        a <= b <= chars@.len(),
    ensures
        match parse_bounded(chars@.subrange(a as int, b as int), max as nat) {
            Some(n) => r == Some(n as u64),
            None => r is None,
        },
{
    let ghost s = chars@.subrange(a as int, b as int);
    let mut start = a;
    if a < b && chars[a] == '+' {
        start = a + 1;
    }
    let ghost digits = chars@.subrange(start as int, b as int);
    assert(digits =~= unsigned_digits(s));
    if start >= b {
        return None;
    }
    let mut value: u64 = 0;
    let mut k = start;
    while k < b
        invariant
            a <= start <= k <= b,
            b <= chars@.len(),
            digits == chars@.subrange(start as int, b as int),
            digits == unsigned_digits(s),
            s == chars@.subrange(a as int, b as int),
            forall|j: int| 0 <= j < k - start ==> is_digit(#[trigger] digits[j]),
            value as nat == digits_value(digits.take(k - start)),
            value <= max,
        decreases b - k,
    {
        let c = chars[k];
        assert(digits[k - start] == c);
        if !('0' <= c && c <= '9') {
            assert(!is_digit(digits[k - start]));
            return None;
        }
        let d: u64 = ((c as u32) - ('0' as u32)) as u64;
        proof {
            lemma_digits_step(digits, k - start);
        }
        let next: u128 = (value as u128) * 10 + (d as u128);
        if next > max as u128 {
            assert(next == digits_value(digits.take(k - start + 1)));
            assert(parse_bounded(s, max as nat) is None) by {
                if parse_unsigned(s) is Some {
                    lemma_digits_monotone(digits, k - start + 1);
                }
            }
            return None;
        }
        value = next as u64;
        k = k + 1;
    }
    assert(digits.take(k - start) =~= digits);
    Some(value)
}

fn parse_bool_range(chars: &Vec<char>, a: usize, b: usize) -> (r: Option<bool>)
    requires
        a <= b <= chars@.len(),
    ensures
        r == parse_bool(chars@.subrange(a as int, b as int)),
{
    if range_is(chars, a, b, "true") {
        Some(true)
    } else if range_is(chars, a, b, "false") {
        Some(false)
    } else {
        None
    }
}

/// The inner range of a quoted value.
fn unquote_range(chars: &Vec<char>, a: usize, b: usize) -> (r: Option<(usize, usize)>)
    requires
        a <= b <= chars@.len(),
    ensures
        match unquote(chars@.subrange(a as int, b as int)) {
            Some(inner) => r matches Some(p) && a <= p.0 <= p.1 <= b && chars@.subrange(
                p.0 as int,
                p.1 as int,
            ) == inner,
            None => r is None,
        },
{
    let ghost s = chars@.subrange(a as int, b as int);
    if b - a < 2 || chars[a] != '"' || chars[b - 1] != '"' {
        return None;
    }
    assert(s.subrange(1, s.len() - 1) =~= chars@.subrange(a + 1, b - 1));
    if range_contains(chars, a + 1, b - 1, '"') || range_contains(chars, a + 1, b - 1, '\\')
        || range_contains(chars, a + 1, b - 1, '\n') || range_contains(
        chars,
        a + 1,
        b - 1,
        '\r',
    ) {
        return None;
    }
    Some((a + 1, b - 1))
}

fn mode_in(chars: &Vec<char>, a: usize, b: usize) -> (r: Option<InjectionMode>)
    requires
        a <= b <= chars@.len(),
    ensures
        r == mode_named(chars@.subrange(a as int, b as int)),
{
    if range_is(chars, a, b, "keyboard") {
        Some(InjectionMode::Keyboard)
    } else if range_is(chars, a, b, "clipboard") {
        Some(InjectionMode::Clipboard)
    } else if range_is(chars, a, b, "auto") {
        Some(InjectionMode::Auto)
    } else if range_is(chars, a, b, "code") {
        Some(InjectionMode::Code)
    } else {
        None
    }
}

fn speed_in(chars: &Vec<char>, a: usize, b: usize) -> (r: Option<SpeedPreset>)
    requires
        a <= b <= chars@.len(),
    ensures
        r == speed_named(chars@.subrange(a as int, b as int)),
{
    if range_is(chars, a, b, "slow") {
        Some(SpeedPreset::Slow)
    } else if range_is(chars, a, b, "normal") {
        Some(SpeedPreset::Normal)
    } else if range_is(chars, a, b, "fast") {
        Some(SpeedPreset::Fast)
    } else if range_is(chars, a, b, "custom") {
        Some(SpeedPreset::Custom)
    } else {
        None
    }
}

fn hotkey_in(chars: &Vec<char>, a: usize, b: usize) -> (r: Option<HotkeyPreset>)
    requires
        a <= b <= chars@.len(),
    ensures
        r == hotkey_named(chars@.subrange(a as int, b as int)),
{
    if range_is(chars, a, b, "ctrl-alt-shift-function") {
        Some(HotkeyPreset::CtrlAltShiftFunction)
    } else if range_is(chars, a, b, "ctrl-alt-function") {
        Some(HotkeyPreset::CtrlAltFunction)
    } else if range_is(chars, a, b, "ctrl-shift-function") {
        Some(HotkeyPreset::CtrlShiftFunction)
    } else {
        None
    }
}

fn quoted_mode(chars: &Vec<char>, a: usize, b: usize) -> (r: Option<InjectionMode>)
    requires
        a <= b <= chars@.len(),
    ensures
        r == match unquote(chars@.subrange(a as int, b as int)) {
            Some(name) => mode_named(name),
            None => None,
        },
{
    match unquote_range(chars, a, b) {
        Some((x, y)) => mode_in(chars, x, y),
        None => None,
    }
}

fn quoted_speed(chars: &Vec<char>, a: usize, b: usize) -> (r: Option<SpeedPreset>)
    requires
        a <= b <= chars@.len(),
    ensures
        r == match unquote(chars@.subrange(a as int, b as int)) {
            Some(name) => speed_named(name),
            None => None,
        },
{
    match unquote_range(chars, a, b) {
        Some((x, y)) => speed_in(chars, x, y),
        None => None,
    }
}

fn quoted_hotkey(chars: &Vec<char>, a: usize, b: usize) -> (r: Option<HotkeyPreset>)
    requires
        a <= b <= chars@.len(),
    ensures
        r == match unquote(chars@.subrange(a as int, b as int)) {
            Some(name) => hotkey_named(name),
            None => None,
        },
{
    match unquote_range(chars, a, b) {
        Some((x, y)) => hotkey_in(chars, x, y),
        None => None,
    }
}

/// Applies the entry with key `[ka, kb)` and value `[va, vb)`.
#[verifier::rlimit(40)]
fn apply_entry_range(
    chars: &Vec<char>,
    ka: usize,
    kb: usize,
    va: usize,
    vb: usize,
    line: usize,
    f: SettingsFields,
) -> (r: Result<SettingsFields, SettingsError>)
    requires
        ka <= kb <= chars@.len(),
        va <= vb <= chars@.len(),
    ensures
        r == apply_entry(
            chars@.subrange(ka as int, kb as int),
            chars@.subrange(va as int, vb as int),
            line,
            f,
        ),
{
    let dup = Err(SettingsError::DuplicateKey { line });
    let bad = Err(SettingsError::InvalidValue { line });
    if range_is(chars, ka, kb, "version") {
        if f.version.is_some() {
            return dup;
        }
        match parse_bounded_range(chars, va, vb, 0xFFFF_FFFFu64) {
            Some(n) => Ok(SettingsFields { version: Some(n as u32), ..f }),
            None => bad,
        }
    } else if range_is(chars, ka, kb, "enabled") {
        if f.enabled.is_some() {
            return dup;
        }
        match parse_bool_range(chars, va, vb) {
            Some(b) => Ok(SettingsFields { enabled: Some(b), ..f }),
            None => bad,
        }
    } else if range_is(chars, ka, kb, "mode") {
        if f.mode.is_some() {
            return dup;
        }
        match quoted_mode(chars, va, vb) {
            Some(m) => Ok(SettingsFields { mode: Some(m), ..f }),
            None => bad,
        }
    } else if range_is(chars, ka, kb, "auto_clipboard_threshold") {
        if f.threshold.is_some() {
            return dup;
        }
        match parse_bounded_range(chars, va, vb, usize::MAX as u64) {
            Some(n) => match AutoClipboardThreshold::new(n as usize) {
                Ok(t) => Ok(SettingsFields { threshold: Some(t), ..f }),
                Err(_) => bad,
            },
            None => bad,
        }
    } else if range_is(chars, ka, kb, "speed") {
        if f.speed.is_some() {
            return dup;
        }
        match quoted_speed(chars, va, vb) {
            Some(p) => Ok(SettingsFields { speed: Some(p), ..f }),
            None => bad,
        }
    } else if range_is(chars, ka, kb, "notifications") {
        if f.notifications.is_some() {
            return dup;
        }
        match parse_bool_range(chars, va, vb) {
            Some(b) => Ok(SettingsFields { notifications: Some(b), ..f }),
            None => bad,
        }
    } else if range_is(chars, ka, kb, "start_at_login") {
        if f.start_at_login.is_some() {
            return dup;
        }
        match parse_bool_range(chars, va, vb) {
            Some(b) => Ok(SettingsFields { start_at_login: Some(b), ..f }),
            None => bad,
        }
    } else if range_is(chars, ka, kb, "hotkey") {
        if f.hotkey.is_some() {
            return dup;
        }
        match quoted_hotkey(chars, va, vb) {
            Some(h) => Ok(SettingsFields { hotkey: Some(h), ..f }),
            None => bad,
        }
    } else {
        Err(SettingsError::UnknownKey { line })
    }
}

/// Applies the raw line `[a, b)`.
fn apply_line_range(chars: &Vec<char>, a: usize, b: usize, line: usize, f: SettingsFields) -> (r: Result<SettingsFields, SettingsError>)
    requires
        a <= b <= chars@.len(),
    ensures
        r == apply_line(chars@.subrange(a as int, b as int), line, f),
{
    let (ta, tb) = trim_range(chars, a, b);
    let ghost t = chars@.subrange(ta as int, tb as int);
    if ta == tb || chars[ta] == '#' {
        return Ok(f);
    }
    assert(t[0] == chars@[ta as int]);
    match find_char_in(chars, ta, tb, '=') {
        None => Err(SettingsError::Syntax { line }),
        Some(k) => {
            proof {
                lemma_first_index(t, '=');
            }
            let ghost kk = first_index(t, '=')->0;
            assert(kk == k - ta);
            assert(t.take(kk) =~= chars@.subrange(ta as int, k as int));
            assert(t.skip(kk + 1) =~= chars@.subrange(k + 1, tb as int));
            let (ka, kb) = trim_range(chars, ta, k);
            let (va, vb) = trim_range(chars, k + 1, tb);
            if ka == kb || va == vb || range_contains(chars, va, vb, '#') {
                return Err(SettingsError::Syntax { line });
            }
            apply_entry_range(chars, ka, kb, va, vb, line, f)
        },
    }
}

fn finish_fields(f: SettingsFields) -> (r: Result<ProductSettings, SettingsError>)
    ensures
        r == finish(f),
{
    let version = match f.version {
        Some(v) => v,
        None => return Err(SettingsError::MissingKey("version")),
    };
    let enabled = match f.enabled {
        Some(v) => v,
        None => return Err(SettingsError::MissingKey("enabled")),
    };
    let mode = match f.mode {
        Some(v) => v,
        None => return Err(SettingsError::MissingKey("mode")),
    };
    let auto_clipboard_threshold = match f.threshold {
        Some(v) => v,
        None => return Err(SettingsError::MissingKey("auto_clipboard_threshold")),
    };
    let speed = match f.speed {
        Some(v) => v,
        None => return Err(SettingsError::MissingKey("speed")),
    };
    let notifications = match f.notifications {
        Some(v) => v,
        None => return Err(SettingsError::MissingKey("notifications")),
    };
    let start_at_login = match f.start_at_login {
        Some(v) => v,
        None => return Err(SettingsError::MissingKey("start_at_login")),
    };
    let hotkey = match f.hotkey {
        Some(v) => v,
        None => return Err(SettingsError::MissingKey("hotkey")),
    };
    let settings = ProductSettings {
        version,
        enabled,
        mode,
        auto_clipboard_threshold,
        speed,
        characters_per_second: FILE_CHARACTERS_PER_SECOND,
        jitter_percent: 0,
        typo_probability_percent: 0,
        notifications,
        start_at_login,
        hotkey,
    };
    match settings.validate() {
        Ok(s) => Ok(s),
        Err(e) => Err(SettingsError::Validation(e)),
    }
}

/// Reads a settings text strictly: see the module documentation.
pub fn parse_settings(contents: &str) -> (r: Result<ProductSettings, SettingsError>)
    ensures
        r == settings_from_text(contents@),
{
    let chars = chars_of(contents);
    let ghost s = chars@;
    let mut fields = SettingsFields {
        version: None,
        enabled: None,
        mode: None,
        threshold: None,
        speed: None,
        notifications: None,
        start_at_login: None,
        hotkey: None,
    };
    let mut i: usize = 0;
    let mut breaks: usize = 0;
    loop
        invariant_except_break
            apply_lines(s, 0, 1, no_fields()) == apply_lines(s, i as int, (breaks + 1) as nat, fields),
        invariant
            s == chars@,
            s == contents@,
            i <= s.len(),
            breaks <= i,
        ensures
            apply_lines(s, 0, 1, no_fields()) == Ok::<SettingsFields, SettingsError>(fields),
        decreases s.len() - i,
    {
        let e = find_line_end(&chars, i);
        proof {
            lemma_line_end_bounds(s, i as int);
        }
        // A line that is not blank holds a character before its end, so its
        // number is at most the text length.
        let line: usize = if breaks < e {
            breaks + 1
        } else {
            0
        };
        let ghost numbered = (breaks + 1) as usize;
        let applied = if breaks < e {
            apply_line_range(&chars, i, e, line, fields)
        } else {
            assert(chars@.subrange(i as int, e as int) =~= Seq::<char>::empty());
            assert(trim_start(Seq::<char>::empty()) =~= Seq::<char>::empty());
            Ok(fields)
        };
        assert(applied == apply_line(s.subrange(i as int, e as int), numbered, fields));
        match applied {
            Err(x) => return Err(x),
            Ok(g) => {
                fields = g;
            },
        }
        if e >= chars.len() {
            break ;
        }
        i = e + 1;
        breaks = breaks + 1;
    }
    finish_fields(fields)
}

// ---------------------------------------------------------------------------
// Reading back what was written.
// ---------------------------------------------------------------------------

/// Characters of keys and value names: lowercase ASCII letters, `_` and `-`.
pub open spec fn is_plain(c: char) -> bool {
    ('a' <= c && c <= 'z') || c == '_' || c == '-'
}

pub open spec fn all_plain(s: Seq<char>) -> bool
    decreases s.len(),
{
    s.len() == 0 || (is_plain(s[0]) && all_plain(s.drop_first()))
}

/// A value that one settings line carries unchanged through trimming.
pub open spec fn clean_value(v: Seq<char>) -> bool {
    &&& v.len() > 0
    &&& !is_white_space(v[0])
    &&& !is_white_space(v.last())
    &&& forall|i: int| 0 <= i < v.len() ==> #[trigger] v[i] != '\n' && v[i] != '#'
}

/// A key that one settings line carries unchanged.
pub open spec fn clean_key(k: Seq<char>) -> bool {
    k.len() > 0 && forall|i: int| 0 <= i < k.len() ==> is_plain(#[trigger] k[i])
}

proof fn lemma_all_plain(s: Seq<char>)
    requires
        all_plain(s),
    ensures
        forall|i: int| 0 <= i < s.len() ==> is_plain(#[trigger] s[i]),
    decreases s.len(),
{
    if s.len() > 0 {
        lemma_all_plain(s.drop_first());
        assert forall|i: int| 0 <= i < s.len() implies is_plain(#[trigger] s[i]) by {
            if i > 0 {
                assert(s[i] == s.drop_first()[i - 1]);
            }
        }
    }
}

proof fn lemma_line_end_at(s: Seq<char>, i: int, j: int)
    requires
        0 <= i <= j < s.len(),
        s[j] == '\n',
        forall|k: int| i <= k < j ==> s[k] != '\n',
    ensures
        line_end(s, i) == j,
    decreases j - i,
{
    if i < j {
        lemma_line_end_at(s, i + 1, j);
    }
}

proof fn lemma_first_index_at(s: Seq<char>, c: char, j: int)
    requires
        0 <= j < s.len(),
        s[j] == c,
        forall|k: int| 0 <= k < j ==> s[k] != c,
    ensures
        first_index(s, c) == Some(j),
    decreases j,
{
    if j > 0 {
        assert forall|k: int| 0 <= k < j - 1 implies s.drop_first()[k] != c by {
            assert(s.drop_first()[k] == s[k + 1]);
        }
        lemma_first_index_at(s.drop_first(), c, j - 1);
    }
}

proof fn lemma_line_end_shift(s: Seq<char>, i: int, j: int)
    requires
        0 <= i <= j <= s.len(),
    ensures
        line_end(s, j) == i + line_end(s.skip(i), j - i),
    decreases s.len() - j,
{
    if j < s.len() {
        assert(s.skip(i)[j - i] == s[j]);
        if s[j] != '\n' {
            lemma_line_end_shift(s, i, j + 1);
        }
    }
}

/// Reading from position `i` reads the text that starts there.
proof fn lemma_lines_shift(s: Seq<char>, i: int, n: nat, f: SettingsFields)
    requires
        0 <= i <= s.len(),
    ensures
        apply_lines(s, i, n, f) == apply_lines(s.skip(i), 0, n, f),
    decreases s.len() - i,
{
    let t = s.skip(i);
    lemma_line_end_shift(s, i, i);
    lemma_line_end_bounds(s, i);
    lemma_line_end_bounds(t, 0);
    let e = line_end(s, i);
    assert(line_end(t, 0) == e - i);
    assert(s.subrange(i, e) =~= t.subrange(0, e - i));
    if e < s.len() {
        lemma_lines_shift(s, e + 1, n + 1, f);
        lemma_lines_shift(t, e - i + 1, n + 1, f);
        assert(t.skip(e - i + 1) =~= s.skip(e + 1));
        match apply_line(s.subrange(i, e), n as usize, f) {
            Ok(g) => {
                lemma_lines_shift(s, e + 1, n + 1, g);
                lemma_lines_shift(t, e - i + 1, n + 1, g);
            },
            Err(_) => {},
        }
    }
}

proof fn lemma_trim_unchanged(s: Seq<char>)
    requires
        s.len() > 0,
        !is_white_space(s[0]),
        !is_white_space(s.last()),
    ensures
        trim(s) == s,
{
}

/// One written `key = value` line reads back as that entry.
proof fn lemma_entry_then(key: Seq<char>, value: Seq<char>, rest: Seq<char>, n: nat, f: SettingsFields)
    requires
        clean_key(key),
        clean_value(value),
    ensures
        apply_lines(entry(key, value) + rest, 0, n, f) == match apply_entry(
            key,
            value,
            n as usize,
            f,
        ) {
            Err(x) => Err(x),
            Ok(g) => apply_lines(rest, 0, n + 1, g),
        },
{
    reveal_strlit(" = ");
    reveal_strlit("\n");
    let kl = key.len() as int;
    let line = key + " = "@ + value;
    let s = entry(key, value) + rest;
    let e = line.len() as int;
    assert(line.len() == kl + 3 + value.len());
    assert forall|k: int| 0 <= k < e implies #[trigger] s[k] != '\n' && s[k] == line[k] by {
        if k < kl {
            assert(line[k] == key[k]);
            assert(is_plain(key[k]));
        } else if k >= kl + 3 {
            assert(line[k] == value[k - kl - 3]);
        }
    }
    assert(s[e] == '\n');
    lemma_line_end_at(s, 0, e);
    assert(s.subrange(0, e) =~= line);
    assert(line[0] == key[0]);
    assert(is_plain(key[0]));
    assert(line.last() == value.last());
    lemma_trim_unchanged(line);
    assert forall|k: int| 0 <= k < kl + 1 implies #[trigger] line[k] != '=' by {
        if k < kl {
            assert(line[k] == key[k]);
            assert(is_plain(key[k]));
        }
    }
    lemma_first_index_at(line, '=', kl + 1);
    let raw_key = line.take(kl + 1);
    assert(raw_key.drop_last() =~= key);
    assert(raw_key[0] == key[0]);
    assert(key.last() == key[kl - 1]);
    assert(is_plain(key[kl - 1]));
    assert(trim_start(raw_key) == raw_key);
    assert(trim_end(raw_key) == trim_end(key));
    assert(trim_end(key) == key);
    let raw_value = line.skip(kl + 2);
    assert(raw_value.drop_first() =~= value);
    assert(trim_start(raw_value) == trim_start(value));
    lemma_trim_unchanged(value);
    assert(!value.contains('#'));
    assert(apply_line(s.subrange(0, e), n as usize, f) == apply_entry(key, value, n as usize, f));
    match apply_entry(key, value, n as usize, f) {
        Ok(g) => {
            lemma_lines_shift(s, e + 1, n + 1, g);
            assert(s.skip(e + 1) =~= rest);
        },
        Err(_) => {},
    }
}

proof fn lemma_digit_char(d: int)
    requires
        0 <= d < 10,
    ensures
        is_digit(digit_char(d)),
        digit_value(digit_char(d)) == d,
{
    if d == 0 {
        assert(digit_char(d) == '0');
    } else if d == 1 {
        assert(digit_char(d) == '1');
    } else if d == 2 {
        assert(digit_char(d) == '2');
    } else if d == 3 {
        assert(digit_char(d) == '3');
    } else if d == 4 {
        assert(digit_char(d) == '4');
    } else if d == 5 {
        assert(digit_char(d) == '5');
    } else if d == 6 {
        assert(digit_char(d) == '6');
    } else if d == 7 {
        assert(digit_char(d) == '7');
    } else if d == 8 {
        assert(digit_char(d) == '8');
    } else {
        assert(digit_char(d) == '9');
    }
}

proof fn lemma_decimal(n: nat)
    ensures
        decimal(n).len() > 0,
        all_digits(decimal(n)),
        digits_value(decimal(n)) == n,
    decreases n,
{
    if n < 10 {
        lemma_digit_char(n as int);
        assert(decimal(n).drop_last() =~= Seq::<char>::empty());
        assert(digits_value(Seq::<char>::empty()) == 0);
    } else {
        lemma_digit_char((n % 10) as int);
        lemma_decimal(n / 10);
        assert(decimal(n).drop_last() =~= decimal(n / 10));
        assert forall|k: int| 0 <= k < decimal(n).len() implies is_digit(#[trigger] decimal(n)[k]) by {
            if k < decimal(n).len() - 1 {
                assert(decimal(n)[k] == decimal(n / 10)[k]);
            }
        }
    }
}

proof fn lemma_decimal_value(n: nat, max: nat)
    requires
        n <= max,
    ensures
        clean_value(decimal(n)),
        parse_bounded(decimal(n), max) == Some(n),
{
    lemma_decimal(n);
    let d = decimal(n);
    assert(is_digit(d[0]));
    assert(is_digit(d[d.len() - 1]));
    assert(unsigned_digits(d) == d);
    assert forall|i: int| 0 <= i < d.len() implies #[trigger] d[i] != '\n' && d[i] != '#' by {
        assert(is_digit(d[i]));
    }
}

proof fn lemma_plain_clean(v: Seq<char>)
    requires
        v.len() > 0,
        all_plain(v),
    ensures
        clean_value(v),
        clean_key(v),
        !v.contains('"'),
        !v.contains('\\'),
        !v.contains('\n'),
        !v.contains('\r'),
{
    lemma_all_plain(v);
    assert(is_plain(v[0]));
    assert(is_plain(v[v.len() - 1]));
}

proof fn lemma_bool_value(b: bool)
    ensures
        clean_value(bool_text(b)),
        parse_bool(bool_text(b)) == Some(b),
{
    reveal_strlit("true");
    reveal_strlit("false");
    reveal_with_fuel(all_plain, 6);
    lemma_plain_clean(bool_text(b));
}

proof fn lemma_quoted_value(name: Seq<char>)
    requires
        name.len() > 0,
        all_plain(name),
    ensures
        clean_value(quoted(name)),
        unquote(quoted(name)) == Some(name),
{
    reveal_strlit("\"");
    lemma_plain_clean(name);
    let q = quoted(name);
    assert(q.subrange(1, q.len() - 1) =~= name);
    assert forall|i: int| 0 <= i < q.len() implies #[trigger] q[i] != '\n' && q[i] != '#' by {
        if 0 < i < q.len() - 1 {
            assert(q[i] == name[i - 1]);
            assert(is_plain(name[i - 1]));
        }
    }
}

proof fn lemma_mode_name(m: InjectionMode)
    ensures
        mode_name(m).len() > 0,
        all_plain(mode_name(m)),
        mode_named(mode_name(m)) == Some(m),
{
    reveal_strlit("keyboard");
    reveal_strlit("clipboard");
    reveal_strlit("auto");
    reveal_strlit("code");
    reveal_with_fuel(all_plain, 10);
    assert("auto"@[0] != "code"@[0]);
}

proof fn lemma_speed_name(p: SpeedPreset)
    ensures
        speed_name(p).len() > 0,
        all_plain(speed_name(p)),
        speed_named(speed_name(p)) == Some(p),
{
    reveal_strlit("slow");
    reveal_strlit("normal");
    reveal_strlit("fast");
    reveal_strlit("custom");
    reveal_with_fuel(all_plain, 7);
    assert("slow"@[0] != "fast"@[0]);
    assert("normal"@[0] != "custom"@[0]);
}

proof fn lemma_hotkey_name(h: HotkeyPreset)
    ensures
        hotkey_name(h).len() > 0,
        all_plain(hotkey_name(h)),
        hotkey_named(hotkey_name(h)) == Some(h),
{
    reveal_strlit("ctrl-alt-shift-function");
    reveal_strlit("ctrl-alt-function");
    reveal_strlit("ctrl-shift-function");
    assert("ctrl-alt-shift-function"@[9] != "ctrl-alt-function"@[9]);
    assert("ctrl-alt-shift-function"@[5] != "ctrl-shift-function"@[5]);
    assert("ctrl-alt-function"@[5] != "ctrl-shift-function"@[5]);
    reveal_with_fuel(all_plain, 24);
}

/// The slots that the first `k` lines of the text written for `s` fill.
pub open spec fn fields_upto(s: ProductSettings, k: int) -> SettingsFields {
    SettingsFields {
        version: if k > 0 { Some(s.version) } else { None },
        enabled: if k > 1 { Some(s.enabled) } else { None },
        mode: if k > 2 { Some(s.mode) } else { None },
        threshold: if k > 3 { Some(s.auto_clipboard_threshold) } else { None },
        speed: if k > 4 { Some(s.speed) } else { None },
        notifications: if k > 5 { Some(s.notifications) } else { None },
        start_at_login: if k > 6 { Some(s.start_at_login) } else { None },
        hotkey: if k > 7 { Some(s.hotkey) } else { None },
    }
}

proof fn lemma_keys_plain(k: int)
    requires
        0 <= k < settings_lines(),
    ensures
        clean_key(key_at(k)),
{
    reveal_strlit("version");
    reveal_strlit("enabled");
    reveal_strlit("mode");
    reveal_strlit("auto_clipboard_threshold");
    reveal_strlit("speed");
    reveal_strlit("notifications");
    reveal_strlit("start_at_login");
    reveal_strlit("hotkey");
    reveal_with_fuel(all_plain, 25);
    lemma_plain_clean(key_at(k));
}

/// The `k`-th written line fills the `k`-th slot.
#[verifier::rlimit(60)]
proof fn lemma_line_k(s: ProductSettings, k: int)
    requires
        0 <= k < settings_lines(),
        s.auto_clipboard_threshold.spec_get() > 0,
    ensures
        clean_key(key_at(k)),
        clean_value(value_at(s, k)),
        apply_entry(key_at(k), value_at(s, k), (k + 1) as usize, fields_upto(s, k)) == Ok::<
            SettingsFields,
            SettingsError,
        >(fields_upto(s, k + 1)),
{
    lemma_keys_plain(k);
    reveal_strlit("version");
    reveal_strlit("enabled");
    reveal_strlit("mode");
    reveal_strlit("auto_clipboard_threshold");
    reveal_strlit("speed");
    reveal_strlit("notifications");
    reveal_strlit("start_at_login");
    reveal_strlit("hotkey");
    // Keys of equal length differ in their first character.
    assert("enabled"@[0] != "version"@[0]);
    let goal = Ok::<SettingsFields, SettingsError>(fields_upto(s, k + 1));
    if k == 0 {
        lemma_decimal_value(s.version as nat, u32::MAX as nat);
        assert(apply_entry(key_at(k), value_at(s, k), (k + 1) as usize, fields_upto(s, k)) == goal);
    } else if k == 1 {
        lemma_bool_value(s.enabled);
        assert(apply_entry(key_at(k), value_at(s, k), (k + 1) as usize, fields_upto(s, k)) == goal);
    } else if k == 2 {
        lemma_mode_name(s.mode);
        lemma_quoted_value(mode_name(s.mode));
        assert(apply_entry(key_at(k), value_at(s, k), (k + 1) as usize, fields_upto(s, k)) == goal);
    } else if k == 3 {
        lemma_decimal_value(s.auto_clipboard_threshold.spec_get() as nat, usize::MAX as nat);
        AutoClipboardThreshold::lemma_rebuilt(s.auto_clipboard_threshold);
        assert(apply_entry(key_at(k), value_at(s, k), (k + 1) as usize, fields_upto(s, k)) == goal);
    } else if k == 4 {
        lemma_speed_name(s.speed);
        lemma_quoted_value(speed_name(s.speed));
        assert(apply_entry(key_at(k), value_at(s, k), (k + 1) as usize, fields_upto(s, k)) == goal);
    } else if k == 5 {
        lemma_bool_value(s.notifications);
        assert(apply_entry(key_at(k), value_at(s, k), (k + 1) as usize, fields_upto(s, k)) == goal);
    } else if k == 6 {
        lemma_bool_value(s.start_at_login);
        assert(apply_entry(key_at(k), value_at(s, k), (k + 1) as usize, fields_upto(s, k)) == goal);
    } else {
        lemma_hotkey_name(s.hotkey);
        lemma_quoted_value(hotkey_name(s.hotkey));
        assert(apply_entry(key_at(k), value_at(s, k), (k + 1) as usize, fields_upto(s, k)) == goal);
    }
}

proof fn lemma_lines_from(s: ProductSettings, k: int)
    requires
        0 <= k <= settings_lines(),
        s.auto_clipboard_threshold.spec_get() > 0,
    ensures
        apply_lines(text_from(s, k), 0, (k + 1) as nat, fields_upto(s, k)) == Ok::<
            SettingsFields,
            SettingsError,
        >(fields_upto(s, settings_lines())),
    decreases settings_lines() - k,
{
    if k == settings_lines() {
        assert(text_from(s, k).subrange(0, 0) =~= Seq::<char>::empty());
    } else {
        lemma_line_k(s, k);
        lemma_entry_then(
            key_at(k),
            value_at(s, k),
            text_from(s, k + 1),
            (k + 1) as nat,
            fields_upto(s, k),
        );
        lemma_lines_from(s, k + 1);
    }
}

proof fn lemma_key_literals()
    ensures
        "mode"@ != "version"@,
        "mode"@ != "enabled"@,
        "speed"@ != "version"@,
        "speed"@ != "enabled"@,
        "speed"@ != "mode"@,
        "speed"@ != "auto_clipboard_threshold"@,
        "hotkey"@ != "version"@,
        "hotkey"@ != "enabled"@,
        "hotkey"@ != "mode"@,
        "hotkey"@ != "auto_clipboard_threshold"@,
        "hotkey"@ != "speed"@,
        "hotkey"@ != "notifications"@,
        "hotkey"@ != "start_at_login"@,
{
    reveal_strlit("version");
    reveal_strlit("enabled");
    reveal_strlit("mode");
    reveal_strlit("auto_clipboard_threshold");
    reveal_strlit("speed");
    reveal_strlit("notifications");
    reveal_strlit("start_at_login");
    reveal_strlit("hotkey");
    assert("version"@.len() == 7 && "enabled"@.len() == 7 && "mode"@.len() == 4);
    assert("speed"@.len() == 5 && "hotkey"@.len() == 6 && "notifications"@.len() == 13);
    assert("start_at_login"@.len() == 14 && "auto_clipboard_threshold"@.len() == 24);
}

/// The settings file writes each value under its documented name, one line
/// per key in the documented order: the modes as `keyboard`, `clipboard`,
/// `auto` and `code`, the speeds as `slow`, `normal`, `fast` and `custom`,
/// the shortcut presets as `ctrl-alt-shift-function`, `ctrl-alt-function`
/// and `ctrl-shift-function`, and flags as `true` or `false`.
pub proof fn law_settings_text_uses_documented_names(s: ProductSettings)
    ensures
        settings_text(s) == text_from(s, 0),
        text_from(s, 0) == entry("version"@, decimal(s.version as nat)) + text_from(s, 1),
        text_from(s, 1) == entry("enabled"@, if s.enabled { "true"@ } else { "false"@ }) + text_from(
            s,
            2,
        ),
        text_from(s, 2) == entry(
            "mode"@,
            "\""@ + match s.mode {
                InjectionMode::Keyboard => "keyboard"@,
                InjectionMode::Clipboard => "clipboard"@,
                InjectionMode::Auto => "auto"@,
                InjectionMode::Code => "code"@,
            } + "\""@,
        ) + text_from(s, 3),
        text_from(s, 3) == entry(
            "auto_clipboard_threshold"@,
            decimal(s.auto_clipboard_threshold.spec_get() as nat),
        ) + text_from(s, 4),
        text_from(s, 4) == entry(
            "speed"@,
            "\""@ + match s.speed {
                SpeedPreset::Slow => "slow"@,
                SpeedPreset::Normal => "normal"@,
                SpeedPreset::Fast => "fast"@,
                SpeedPreset::Custom => "custom"@,
            } + "\""@,
        ) + text_from(s, 5),
        text_from(s, 5) == entry("notifications"@, if s.notifications { "true"@ } else { "false"@ })
            + text_from(s, 6),
        text_from(s, 6) == entry("start_at_login"@, if s.start_at_login { "true"@ } else { "false"@ })
            + text_from(s, 7),
        text_from(s, 7) == entry(
            "hotkey"@,
            "\""@ + match s.hotkey {
                HotkeyPreset::CtrlAltShiftFunction => "ctrl-alt-shift-function"@,
                HotkeyPreset::CtrlAltFunction => "ctrl-alt-function"@,
                HotkeyPreset::CtrlShiftFunction => "ctrl-shift-function"@,
            } + "\""@,
        ),
{
    assert(text_from(s, 8) == Seq::<char>::empty());
    assert(text_from(s, 7) =~= entry(key_at(7), value_at(s, 7)));
}

/// A `mode` line names its mode: `"keyboard"` reads as Keyboard,
/// `"clipboard"` as Clipboard, `"auto"` as Auto and `"code"` as Code.
pub proof fn law_mode_line_reads_its_mode(f: SettingsFields, line: usize)
    requires
        f.mode is None,
    ensures
        apply_entry("mode"@, "\""@ + "keyboard"@ + "\""@, line, f) == Ok::<SettingsFields, SettingsError>(
            SettingsFields { mode: Some(InjectionMode::Keyboard), ..f },
        ),
        apply_entry("mode"@, "\""@ + "clipboard"@ + "\""@, line, f) == Ok::<SettingsFields, SettingsError>(
            SettingsFields { mode: Some(InjectionMode::Clipboard), ..f },
        ),
        apply_entry("mode"@, "\""@ + "auto"@ + "\""@, line, f) == Ok::<SettingsFields, SettingsError>(
            SettingsFields { mode: Some(InjectionMode::Auto), ..f },
        ),
        apply_entry("mode"@, "\""@ + "code"@ + "\""@, line, f) == Ok::<SettingsFields, SettingsError>(
            SettingsFields { mode: Some(InjectionMode::Code), ..f },
        ),
{
    lemma_key_literals();
    lemma_mode_name(InjectionMode::Keyboard);
    lemma_mode_name(InjectionMode::Clipboard);
    lemma_mode_name(InjectionMode::Auto);
    lemma_mode_name(InjectionMode::Code);
    lemma_quoted_value("keyboard"@);
    lemma_quoted_value("clipboard"@);
    lemma_quoted_value("auto"@);
    lemma_quoted_value("code"@);
}

/// A `speed` line names its speed and a `hotkey` line its preset.
pub proof fn law_speed_and_hotkey_lines_read_their_values(f: SettingsFields, line: usize)
    ensures
        f.speed is None ==> apply_entry("speed"@, "\""@ + "slow"@ + "\""@, line, f) == Ok::<
            SettingsFields,
            SettingsError,
        >(SettingsFields { speed: Some(SpeedPreset::Slow), ..f }),
        f.speed is None ==> apply_entry("speed"@, "\""@ + "normal"@ + "\""@, line, f) == Ok::<
            SettingsFields,
            SettingsError,
        >(SettingsFields { speed: Some(SpeedPreset::Normal), ..f }),
        f.speed is None ==> apply_entry("speed"@, "\""@ + "fast"@ + "\""@, line, f) == Ok::<
            SettingsFields,
            SettingsError,
        >(SettingsFields { speed: Some(SpeedPreset::Fast), ..f }),
        f.speed is None ==> apply_entry("speed"@, "\""@ + "custom"@ + "\""@, line, f) == Ok::<
            SettingsFields,
            SettingsError,
        >(SettingsFields { speed: Some(SpeedPreset::Custom), ..f }),
        f.hotkey is None ==> apply_entry(
            "hotkey"@,
            "\""@ + "ctrl-alt-shift-function"@ + "\""@,
            line,
            f,
        ) == Ok::<SettingsFields, SettingsError>(
            SettingsFields { hotkey: Some(HotkeyPreset::CtrlAltShiftFunction), ..f },
        ),
        f.hotkey is None ==> apply_entry("hotkey"@, "\""@ + "ctrl-alt-function"@ + "\""@, line, f)
            == Ok::<SettingsFields, SettingsError>(
            SettingsFields { hotkey: Some(HotkeyPreset::CtrlAltFunction), ..f },
        ),
        f.hotkey is None ==> apply_entry("hotkey"@, "\""@ + "ctrl-shift-function"@ + "\""@, line, f)
            == Ok::<SettingsFields, SettingsError>(
            SettingsFields { hotkey: Some(HotkeyPreset::CtrlShiftFunction), ..f },
        ),
{
    lemma_key_literals();
    lemma_speed_name(SpeedPreset::Slow);
    lemma_speed_name(SpeedPreset::Normal);
    lemma_speed_name(SpeedPreset::Fast);
    lemma_speed_name(SpeedPreset::Custom);
    lemma_quoted_value("slow"@);
    lemma_quoted_value("normal"@);
    lemma_quoted_value("fast"@);
    lemma_quoted_value("custom"@);
    lemma_hotkey_name(HotkeyPreset::CtrlAltShiftFunction);
    lemma_hotkey_name(HotkeyPreset::CtrlAltFunction);
    lemma_hotkey_name(HotkeyPreset::CtrlShiftFunction);
    lemma_quoted_value("ctrl-alt-shift-function"@);
    lemma_quoted_value("ctrl-alt-function"@);
    lemma_quoted_value("ctrl-shift-function"@);
}

/// The settings a file written for `s` holds: `s` with the default typing
/// rate and no jitter or typos.
pub open spec fn as_filed(s: ProductSettings) -> ProductSettings {
    ProductSettings {
        characters_per_second: FILE_CHARACTERS_PER_SECOND,
        jitter_percent: 0,
        typo_probability_percent: 0,
        ..s
    }
}

/// Reading back written settings gives every written key back: parsing
/// `serialize_settings(s)` yields `s` with the default typing rate and no
/// jitter or typos, whenever those settings are valid.
pub proof fn law_settings_file_keeps_written_keys(s: ProductSettings)
    requires
        as_filed(s).violation() is None,
        s.auto_clipboard_threshold.spec_get() > 0,
    ensures
        settings_from_text(settings_text(s)) == Ok::<ProductSettings, SettingsError>(as_filed(s)),
{
    lemma_lines_from(s, 0);
    assert(fields_upto(s, 0) == no_fields());
}

/// Reading back written settings gives the same settings: for every valid
/// value `s` at the default typing rate without jitter or typos, parsing
/// `serialize_settings(s)` yields `Ok(s)`.
pub proof fn law_settings_round_trip(s: ProductSettings)
    requires
        s.violation() is None,
        s.auto_clipboard_threshold.spec_get() > 0,
        s.characters_per_second == FILE_CHARACTERS_PER_SECOND,
        s.jitter_percent == 0,
        s.typo_probability_percent == 0,
    ensures
        settings_from_text(settings_text(s)) == Ok::<ProductSettings, SettingsError>(s),
{
    assert(as_filed(s) == s);
    law_settings_file_keeps_written_keys(s);
}

// ---------------------------------------------------------------------------
// Loading with backup recovery.
// ---------------------------------------------------------------------------

/// What reading one settings file gave.
pub enum FileRead {
    Contents(String),
    NotFound,
    Failed(std::io::ErrorKind),
}

/// The first step of loading, after the primary file was read.
pub enum LoadStep {
    Done(Result<SettingsLoad, SettingsError>),
    /// Read the backup file next; `primary_error` is the primary file's parse
    /// error, or `None` when the primary file does not exist.
    ReadBackup { primary_error: Option<SettingsError> },
}

/// Decides from the primary file alone: valid settings are used, an I/O
/// failure is reported, and a missing or unreadable file sends the loader to
/// the backup.
pub fn load_primary(read: FileRead) -> (r: LoadStep)
    ensures
        match read {
            FileRead::Contents(c) => match settings_from_text(c@) {
                Ok(settings) => r == LoadStep::Done(
                    Ok(SettingsLoad { settings, source: SettingsSource::Primary }),
                ),
                Err(e) => r == LoadStep::ReadBackup { primary_error: Some(e) },
            },
            FileRead::NotFound => r == LoadStep::ReadBackup { primary_error: None },
            FileRead::Failed(kind) => r == LoadStep::Done(Err(SettingsError::Io(kind))),
        },
{
    match read {
        FileRead::Contents(contents) => match parse_settings(contents.as_str()) {
            Ok(settings) => LoadStep::Done(
                Ok(SettingsLoad { settings, source: SettingsSource::Primary }),
            ),
            Err(e) => LoadStep::ReadBackup { primary_error: Some(e) },
        },
        FileRead::NotFound => LoadStep::ReadBackup { primary_error: None },
        FileRead::Failed(kind) => LoadStep::Done(Err(SettingsError::Io(kind))),
    }
}

/// Decides from the backup file once the primary could not be used. A valid
/// backup is used; a backup that cannot be read is an I/O failure; otherwise
/// the primary's error stands when there was one, and defaults apply only
/// when neither file exists.
pub fn load_backup(primary_error: Option<SettingsError>, read: FileRead) -> (r: Result<SettingsLoad, SettingsError>)
    ensures
        match read {
            FileRead::Contents(c) => match (settings_from_text(c@), primary_error) {
                (Ok(settings), _) => r == Ok::<SettingsLoad, SettingsError>(
                    SettingsLoad { settings, source: SettingsSource::Backup },
                ),
                (Err(_), Some(e)) => r == Err::<SettingsLoad, SettingsError>(e),
                (Err(e), None) => r == Err::<SettingsLoad, SettingsError>(e),
            },
            FileRead::NotFound => match primary_error {
                Some(e) => r == Err::<SettingsLoad, SettingsError>(e),
                None => r matches Ok(load) && load.source == SettingsSource::Defaults
                    && load.settings.is_default(),
            },
            FileRead::Failed(kind) => r == Err::<SettingsLoad, SettingsError>(SettingsError::Io(kind)),
        },
{
    match read {
        FileRead::Contents(contents) => match parse_settings(contents.as_str()) {
            Ok(settings) => Ok(SettingsLoad { settings, source: SettingsSource::Backup }),
            Err(e) => match primary_error {
                Some(p) => Err(p),
                None => Err(e),
            },
        },
        FileRead::NotFound => match primary_error {
            Some(p) => Err(p),
            None => Ok(SettingsLoad { settings: ProductSettings::default(), source: SettingsSource::Defaults }),
        },
        FileRead::Failed(kind) => Err(SettingsError::Io(kind)),
    }
}

/// The settings file and the backup and temporary files beside it, by path.
#[derive(Debug, Clone, PartialEq, Eq)]
pub struct SettingsStore {
    path: String,
}

impl SettingsStore {
    pub closed spec fn spec_path(&self) -> Seq<char> {
        self.path@
    }

    pub fn new(path: String) -> (r: Self)
        ensures
            r.spec_path() == path@,
    {
        SettingsStore { path }
    }

    pub fn path(&self) -> (r: &str)
        ensures
            r@ == self.spec_path(),
    {
        self.path.as_str()
    }

    /// The backup beside the file: its path with `.bak` appended.
    pub fn backup_path(&self) -> (r: String)
        ensures
            r@ == self.spec_path() + ".bak"@,
    {
        let mut out = self.path.clone();
        push_str(&mut out, ".bak");
        out
    }

    /// The temporary file a save writes first: the path with `.tmp` appended.
    pub fn temporary_path(&self) -> (r: String)
        ensures
            r@ == self.spec_path() + ".tmp"@,
    {
        let mut out = self.path.clone();
        push_str(&mut out, ".tmp");
        out
    }
}

} // verus!
