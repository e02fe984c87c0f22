//! Windows adapter policy: UTF-16 clipboard decoding, `SendInput` event
//! encoding and acceptance, target comparison, hotkey registration rules,
//! start-at-login commands and tray commands. Native calls stay with the host.
use vstd::prelude::*;

use crate::hotkey::{
    HotkeyAvailability, HotkeyKey, HotkeyPair, HotkeyPlatform, HotkeySpec, HotkeyValidationError,
};
use crate::limits::{ByteCount, NativeByteLimit, NativeEventCount};
use crate::outcome::{EvidenceStrength, IntegrityRelation};
use crate::platform::{
    ClipboardError, CommandEvent, CommandSourceError, CommandSourceErrorKind, DispatchResult,
    HotkeyControlError, HotkeyControlErrorKind, KeyboardError, NativeDispatchCount, NativeError,
    NativeErrorKind, PasteError, TargetComparison, TargetMetadata,
};
use crate::sensitive::SensitiveText;
use crate::text::{TextAtom, TextBatch};
use crate::textual::string_from_chars;

verus! {

// ---------------------------------------------------------------------------
// UTF-16.
// ---------------------------------------------------------------------------

/// The UTF-16 code units of one scalar value.
pub open spec fn utf16_of(c: char) -> Seq<u16> {
    let v = c as u32;
    if v < 0x10000 {
        seq![v as u16]
    } else {
        let w = (v - 0x10000) as u32;
        seq![(0xD800 + w / 0x400) as u16, (0xDC00 + w % 0x400) as u16]
    }
}

/// Strict UTF-16 decoding: a lone or misordered surrogate fails the text.
pub open spec fn utf16_decode(u: Seq<u16>) -> Option<Seq<char>>
    decreases u.len(),
{
    if u.len() == 0 {
        Some(seq![])
    } else if u[0] < 0xD800 || u[0] > 0xDFFF {
        match utf16_decode(u.drop_first()) {
            Some(rest) => Some(seq![(u[0] as u32) as char] + rest),
            None => None,
        }
    } else if u[0] <= 0xDBFF && u.len() >= 2 && 0xDC00 <= u[1] && u[1] <= 0xDFFF {
        match utf16_decode(u.skip(2)) {
            Some(rest) => Some(
                seq![(0x10000 + (u[0] - 0xD800) * 0x400 + (u[1] - 0xDC00)) as char] + rest,
            ),
            None => None,
        }
    } else {
        None
    }
}

/// `char::from_u32`: the scalar value `v`, or `None` for a surrogate or a
/// value above U+10FFFF.
#[verifier::external_body]
fn char_from_scalar(v: u32) -> (r: Option<char>)
    ensures
        (v <= 0xD7FF || (0xE000 <= v && v <= 0x10FFFF)) ==> r == Some(v as char),
        !(v <= 0xD7FF || (0xE000 <= v && v <= 0x10FFFF)) ==> r is None,
{
    char::from_u32(v)
}

/// Decodes strict UTF-16 into characters.
pub fn decode_utf16(units: &[u16]) -> (r: Option<Vec<char>>)
    ensures
        match utf16_decode(units@) {
            Some(chars) => r matches Some(v) && v@ == chars,
            None => r is None,
        },
{
    let n = units.len();
    let mut out: Vec<char> = Vec::new();
    let mut i: usize = 0;
    assert(units@.skip(0) =~= units@);
    while i < n
        invariant
            n == units@.len(),
            i <= n,
            utf16_decode(units@) == match utf16_decode(units@.skip(i as int)) {
                Some(rest) => Some(out@ + rest),
                None => None::<Seq<char>>,
            },
        decreases n - i,
    {
        let ghost rest = units@.skip(i as int);
        let u = units[i];
        assert(rest[0] == u);
        if u < 0xD800 || u > 0xDFFF {
            let c = match char_from_scalar(u as u32) {
                Some(c) => c,
                None => return None,
            };
            assert(rest.drop_first() =~= units@.skip(i + 1));
            let ghost before = out@;
            out.push(c);
            proof {
                match utf16_decode(units@.skip(i + 1)) {
                    Some(tail) => {
                        assert(before + (seq![c] + tail) =~= out@ + tail);
                    },
                    None => {},
                }
            }
            i = i + 1;
        } else if u <= 0xDBFF && i + 1 < n && 0xDC00 <= units[i + 1] && units[i + 1] <= 0xDFFF {
            let low = units[i + 1];
            assert(rest[1] == low);
            let v: u32 = 0x10000 + ((u as u32) - 0xD800) * 0x400 + ((low as u32) - 0xDC00);
            let c = match char_from_scalar(v) {
                Some(c) => c,
                None => return None,
            };
            assert(rest.skip(2) =~= units@.skip(i + 2));
            let ghost before = out@;
            out.push(c);
            proof {
                match utf16_decode(units@.skip(i + 2)) {
                    Some(tail) => {
                        assert(before + (seq![c] + tail) =~= out@ + tail);
                    },
                    None => {},
                }
            }
            i = i + 2;
        } else {
            return None;
        }
    }
    assert(units@.skip(i as int) =~= Seq::<u16>::empty());
    assert(out@ + Seq::<char>::empty() =~= out@);
    Some(out)
}

/// The index of the first zero unit, if any.
pub open spec fn first_zero(u: Seq<u16>) -> Option<int>
    decreases u.len(),
{
    if u.len() == 0 {
        None
    } else if u[0] == 0 {
        Some(0)
    } else {
        match first_zero(u.drop_first()) {
            Some(k) => Some(k + 1),
            None => None,
        }
    }
}

proof fn lemma_first_zero(u: Seq<u16>)
    ensures
        first_zero(u) matches Some(k) ==> 0 <= k < u.len(),
    decreases u.len(),
{
    if u.len() > 0 && u[0] != 0 {
        lemma_first_zero(u.drop_first());
    }
}

/// What a `CF_UNICODETEXT` buffer holds: the text before its terminating zero.
pub open spec fn clipboard_units_text(u: Seq<u16>) -> Result<Seq<char>, ClipboardError> {
    match first_zero(u) {
        None => Err(ClipboardError::Malformed),
        Some(k) => if k == 0 {
            Err(ClipboardError::Empty)
        } else {
            match utf16_decode(u.take(k)) {
                Some(text) => Ok(text),
                None => Err(ClipboardError::Malformed),
            }
        },
    }
}

/// Decodes NUL-terminated clipboard UTF-16 into owned sensitive text.
pub fn decode_utf16_units(units: &[u16]) -> (r: Result<SensitiveText, ClipboardError>)
    ensures
        match (r, clipboard_units_text(units@)) {
            (Ok(text), Ok(chars)) => text@ == chars,
            (Err(e1), Err(e2)) => e1 == e2,
            _ => false,
        },
{
    let n = units.len();
    let mut k: usize = 0;
    assert(units@.skip(0) =~= units@);
    while k < n && units[k] != 0
        invariant
            n == units@.len(),
            k <= n,
            first_zero(units@) == match first_zero(units@.skip(k as int)) {
                Some(j) => Some(j + k),
                None => None::<int>,
            },
        decreases n - k,
    {
        assert(units@.skip(k as int).drop_first() =~= units@.skip(k + 1));
        k = k + 1;
    }
    if k == n {
        assert(units@.skip(k as int) =~= Seq::<u16>::empty());
        return Err(ClipboardError::Malformed);
    }
    assert(units@.skip(k as int)[0] == 0);
    if k == 0 {
        return Err(ClipboardError::Empty);
    }
    let body = vstd::slice::slice_subrange(units, 0, k);
    assert(body@ =~= units@.take(k as int));
    match decode_utf16(body) {
        Some(chars) => Ok(SensitiveText::new(string_from_chars(chars.as_slice()))),
        None => Err(ClipboardError::Malformed),
    }
}

/// A clipboard allocation of `byte_size` bytes, checked against the hard limit
/// and UTF-16 alignment; the result is its number of code units.
pub fn validate_allocation_size(byte_size: usize, hard_limit: NativeByteLimit) -> (r: Result<usize, ClipboardError>)
    ensures
        byte_size > hard_limit.spec_get() ==> r == Err::<usize, ClipboardError>(
            ClipboardError::TooLarge {
                observed: Some(ByteCount::spec_new(byte_size)),
                limit: hard_limit,
            },
        ),
        byte_size <= hard_limit.spec_get() && (byte_size < 2 || byte_size % 2 != 0 || byte_size
            > isize::MAX) ==> r == Err::<usize, ClipboardError>(ClipboardError::Malformed),
        byte_size <= hard_limit.spec_get() && !(byte_size < 2 || byte_size % 2 != 0 || byte_size
            > isize::MAX) ==> r == Ok::<usize, ClipboardError>(byte_size / 2),
{
    let observed = ByteCount::new(byte_size);
    if !hard_limit.allows(observed) {
        return Err(ClipboardError::TooLarge { observed: Some(observed), limit: hard_limit });
    }
    if byte_size < 2 || byte_size % 2 != 0 {
        return Err(ClipboardError::Malformed);
    }
    if byte_size > isize::MAX as usize {
        return Err(ClipboardError::Malformed);
    }
    Ok(byte_size / 2)
}

// ---------------------------------------------------------------------------
// SendInput events.
// ---------------------------------------------------------------------------

pub const KEYEVENTF_KEYUP: u32 = 0x0002;

pub const KEYEVENTF_UNICODE: u32 = 0x0004;

pub const VK_BACK: u16 = 0x08;

pub const VK_TAB: u16 = 0x09;

pub const VK_RETURN: u16 = 0x0D;

pub const VK_CONTROL: u16 = 0x11;

pub const VK_V: u16 = 0x56;

/// One native keyboard event: a virtual key, or a UTF-16 unit sent as a
/// Unicode "scan code", with its flags.
#[derive(Debug, Clone, Copy, PartialEq, Eq, Structural)]
pub struct KeyEvent {
    pub virtual_key: u16,
    pub scan: u16,
    pub flags: u32,
}

/// The events for one batch and, after each atom, how many events it has used.
pub struct EncodedBatch {
    pub inputs: Vec<KeyEvent>,
    pub semantic_boundaries: Vec<u32>,
}

pub open spec fn key_pair(key: u16) -> Seq<KeyEvent> {
    seq![
        KeyEvent { virtual_key: key, scan: 0, flags: 0 },
        KeyEvent { virtual_key: key, scan: 0, flags: KEYEVENTF_KEYUP },
    ]
}

pub open spec fn unit_pair(unit: u16) -> Seq<KeyEvent> {
    seq![
        KeyEvent { virtual_key: 0, scan: unit, flags: KEYEVENTF_UNICODE },
        KeyEvent { virtual_key: 0, scan: unit, flags: KEYEVENTF_UNICODE | KEYEVENTF_KEYUP },
    ]
}

/// A key-down and key-up Unicode event per UTF-16 unit of a scalar; a
/// Return or Tab key press for a line break or tab.
pub open spec fn atom_events(a: TextAtom) -> Seq<KeyEvent> {
    match a {
        TextAtom::Scalar(c) => if utf16_of(c).len() == 1 {
            unit_pair(utf16_of(c)[0])
        } else {
            unit_pair(utf16_of(c)[0]) + unit_pair(utf16_of(c)[1])
        },
        TextAtom::LineBreak => key_pair(VK_RETURN),
        TextAtom::Tab => key_pair(VK_TAB),
    }
}

pub open spec fn atoms_events(atoms: Seq<TextAtom>) -> Seq<KeyEvent>
    decreases atoms.len(),
{
    if atoms.len() == 0 {
        seq![]
    } else {
        atoms_events(atoms.drop_last()) + atom_events(atoms.last())
    }
}

/// After each atom, the number of events used so far.
pub open spec fn atom_boundaries(atoms: Seq<TextAtom>) -> Seq<nat> {
    Seq::new(atoms.len(), |k: int| atoms_events(atoms.take(k + 1)).len())
}

/// The UTF-16 code units of one scalar value.
pub fn scalar_utf16(c: char) -> (r: Vec<u16>)
    ensures
        r@ == utf16_of(c),
{
    let v = c as u32;
    let mut units: Vec<u16> = Vec::new();
    if v < 0x10000 {
        units.push(v as u16);
    } else {
        let w = v - 0x10000;
        units.push((0xD800 + w / 0x400) as u16);
        units.push((0xDC00 + w % 0x400) as u16);
    }
    assert(units@ =~= utf16_of(c));
    units
}

fn push_key_pair(inputs: &mut Vec<KeyEvent>, key: u16)
    ensures
        final(inputs)@ == old(inputs)@ + key_pair(key),
{
    inputs.push(KeyEvent { virtual_key: key, scan: 0, flags: 0 });
    inputs.push(KeyEvent { virtual_key: key, scan: 0, flags: KEYEVENTF_KEYUP });
    assert(final(inputs)@ =~= old(inputs)@ + key_pair(key));
}

fn push_unit_pair(inputs: &mut Vec<KeyEvent>, unit: u16)
    ensures
        final(inputs)@ == old(inputs)@ + unit_pair(unit),
{
    inputs.push(KeyEvent { virtual_key: 0, scan: unit, flags: KEYEVENTF_UNICODE });
    inputs.push(KeyEvent { virtual_key: 0, scan: unit, flags: KEYEVENTF_UNICODE | KEYEVENTF_KEYUP });
    assert(final(inputs)@ =~= old(inputs)@ + unit_pair(unit));
}

fn push_atom(inputs: &mut Vec<KeyEvent>, atom: TextAtom)
    ensures
        final(inputs)@ == old(inputs)@ + atom_events(atom),
{
    match atom {
        TextAtom::Scalar(c) => {
            let v = c as u32;
            if v < 0x10000 {
                push_unit_pair(inputs, v as u16);
            } else {
                let w = v - 0x10000;
                let ghost before = inputs@;
                push_unit_pair(inputs, (0xD800 + w / 0x400) as u16);
                push_unit_pair(inputs, (0xDC00 + w % 0x400) as u16);
                assert(inputs@ =~= before + atom_events(atom));
            }
        },
        TextAtom::LineBreak => push_key_pair(inputs, VK_RETURN),
        TextAtom::Tab => push_key_pair(inputs, VK_TAB),
    }
}

/// The events of a backspace key press.
pub fn encode_backspace() -> (r: EncodedBatch)
    ensures
        r.inputs@ == key_pair(VK_BACK),
        r.semantic_boundaries@ == seq![2u32],
{
    let mut inputs: Vec<KeyEvent> = Vec::new();
    push_key_pair(&mut inputs, VK_BACK);
    let mut semantic_boundaries: Vec<u32> = Vec::new();
    semantic_boundaries.push(2);
    assert(semantic_boundaries@ =~= seq![2u32]);
    EncodedBatch { inputs, semantic_boundaries }
}

proof fn lemma_atom_events_len(a: TextAtom)
    ensures
        2 <= atom_events(a).len() <= 4,
{
}

proof fn lemma_events_len(atoms: Seq<TextAtom>)
    ensures
        2 * atoms.len() <= atoms_events(atoms).len() <= 4 * atoms.len(),
    decreases atoms.len(),
{
    if atoms.len() > 0 {
        lemma_events_len(atoms.drop_last());
        lemma_atom_events_len(atoms.last());
    }
}

/// Encodes one semantic batch as native events.
pub fn encode_batch(batch: TextBatch<'_>) -> (r: Result<EncodedBatch, KeyboardError>)
    ensures
        match r {
            Ok(e) => e.inputs@ == atoms_events(batch@) && e.semantic_boundaries@.len()
                == batch@.len() && (forall|k: int|
                0 <= k < batch@.len() ==> e.semantic_boundaries@[k] as nat == #[trigger] atom_boundaries(
                    batch@,
                )[k]) && batch@.len() > 0,
            Err(e) => e == KeyboardError::InvalidBatch && (batch@.len() == 0 || atoms_events(
                batch@,
            ).len() > u32::MAX || 4 * batch@.len() > usize::MAX),
        },
{
    let atoms = batch.atoms();
    let n = atoms.len();
    if n > usize::MAX / 4 {
        return Err(KeyboardError::InvalidBatch);
    }
    let mut inputs: Vec<KeyEvent> = Vec::new();
    let mut semantic_boundaries: Vec<u32> = Vec::new();
    let mut i: usize = 0;
    while i < n
        invariant
            n == atoms@.len(),
            atoms@ == batch@,
            i <= n,
            inputs@ == atoms_events(atoms@.take(i as int)),
            semantic_boundaries@.len() == i,
            forall|k: int|
                0 <= k < i ==> semantic_boundaries@[k] as nat == #[trigger] atom_boundaries(
                    atoms@,
                )[k],
        decreases n - i,
    {
        let ghost before = atoms@.take(i as int);
        push_atom(&mut inputs, atoms[i]);
        assert(atoms@.take(i + 1).drop_last() =~= before);
        assert(inputs@ =~= atoms_events(atoms@.take(i + 1)));
        let used = inputs.len();
        if used > 0xFFFF_FFFFusize {
            proof {
                lemma_events_prefix(atoms@, i + 1);
            }
            return Err(KeyboardError::InvalidBatch);
        }
        semantic_boundaries.push(used as u32);
        i = i + 1;
    }
    assert(atoms@.take(n as int) =~= atoms@);
    if inputs.len() == 0 {
        return Err(KeyboardError::InvalidBatch);
    }
    Ok(EncodedBatch { inputs, semantic_boundaries })
}

proof fn lemma_events_prefix(atoms: Seq<TextAtom>, j: int)
    requires
        0 <= j <= atoms.len(),
    ensures
        atoms_events(atoms.take(j)).len() <= atoms_events(atoms).len(),
    decreases atoms.len(),
{
    if j < atoms.len() {
        assert(atoms.drop_last().take(j) =~= atoms.take(j));
        lemma_events_prefix(atoms.drop_last(), j);
    } else {
        assert(atoms.take(j) =~= atoms);
    }
}

/// The scalar value of a character atom.
pub open spec fn scalar_value(a: TextAtom) -> u32 {
    match a {
        TextAtom::Scalar(c) => c as u32,
        _ => 0,
    }
}

proof fn lemma_events_prefix_is(atoms: Seq<TextAtom>, j: int)
    requires
        0 <= j <= atoms.len(),
    ensures
        atoms_events(atoms.take(j)).len() <= atoms_events(atoms).len(),
        atoms_events(atoms).subrange(0, atoms_events(atoms.take(j)).len() as int) == atoms_events(
            atoms.take(j),
        ),
    decreases atoms.len(),
{
    if j < atoms.len() {
        assert(atoms.drop_last().take(j) =~= atoms.take(j));
        lemma_events_prefix_is(atoms.drop_last(), j);
        let p = atoms_events(atoms.take(j));
        let d = atoms_events(atoms.drop_last());
        assert(atoms_events(atoms).subrange(0, p.len() as int) =~= d.subrange(0, p.len() as int));
    } else {
        assert(atoms.take(j) =~= atoms);
        assert(atoms_events(atoms).subrange(0, atoms_events(atoms).len() as int) =~= atoms_events(atoms));
    }
}

/// In an encoded batch, the events that end at an atom's boundary are the
/// key presses that type it: a line break is a key-down and key-up of the
/// Return key (virtual key 0x0D), a tab those of the Tab key (0x09), and a
/// character of the Basic Multilingual Plane is a Unicode key-down and key-up
/// (flags 0x4 and 0x6) carrying the character itself; a character beyond it
/// is sent as a high and a low surrogate that combine back to it.
pub proof fn law_atoms_encode_as_their_key_presses(atoms: Seq<TextAtom>, k: int)
    requires
        0 <= k < atoms.len(),
    ensures
        ({
            let e = atoms_events(atoms);
            let b = atom_boundaries(atoms)[k] as int;
            &&& 2 <= b <= e.len()
            &&& atoms[k] == TextAtom::LineBreak ==> e[b - 2] == KeyEvent {
                virtual_key: 0x0D,
                scan: 0,
                flags: 0,
            } && e[b - 1] == KeyEvent { virtual_key: 0x0D, scan: 0, flags: 0x2 }
            &&& atoms[k] == TextAtom::Tab ==> e[b - 2] == KeyEvent {
                virtual_key: 0x09,
                scan: 0,
                flags: 0,
            } && e[b - 1] == KeyEvent { virtual_key: 0x09, scan: 0, flags: 0x2 }
            &&& atoms[k] is Scalar && scalar_value(atoms[k]) < 0x10000 ==> e[b - 2] == KeyEvent {
                virtual_key: 0,
                scan: scalar_value(atoms[k]) as u16,
                flags: 0x4,
            } && e[b - 1] == KeyEvent {
                virtual_key: 0,
                scan: scalar_value(atoms[k]) as u16,
                flags: 0x6,
            }
            &&& atoms[k] is Scalar && scalar_value(atoms[k]) >= 0x10000 ==> 4 <= b && e[b - 4]
                == KeyEvent { virtual_key: 0, scan: e[b - 4].scan, flags: 0x4 } && e[b - 3]
                == KeyEvent { virtual_key: 0, scan: e[b - 4].scan, flags: 0x6 } && e[b - 2]
                == KeyEvent { virtual_key: 0, scan: e[b - 2].scan, flags: 0x4 } && e[b - 1]
                == KeyEvent { virtual_key: 0, scan: e[b - 2].scan, flags: 0x6 } && 0xD800
                <= e[b - 4].scan < 0xDC00 && 0xDC00 <= e[b - 2].scan < 0xE000 && (e[b - 4].scan
                - 0xD800) * 0x400 + (e[b - 2].scan - 0xDC00) + 0x10000 == scalar_value(atoms[k])
        }),
{
    let e = atoms_events(atoms);
    let t = atoms.take(k + 1);
    assert(t.drop_last() =~= atoms.take(k));
    assert(t.last() == atoms[k]);
    lemma_events_prefix_is(atoms, k + 1);
    let p = atoms_events(t);
    let b = p.len() as int;
    assert(atom_boundaries(atoms)[k] == b);
    let a = atom_events(atoms[k]);
    assert(p == atoms_events(atoms.take(k)) + a);
    assert(KEYEVENTF_UNICODE | KEYEVENTF_KEYUP == 0x6u32) by (bit_vector);
    assert forall|i: int| 0 <= i < a.len() implies e[b - a.len() + i] == a[i] by {
        assert(e[b - a.len() + i] == e.subrange(0, b)[b - a.len() + i]);
    }
    assert(2 <= b <= e.len());
    if atoms[k] == TextAtom::Tab {
        assert(e[b - 2] == a[0]);
        assert(e[b - 1] == a[1]);
    }
    if atoms[k] == TextAtom::LineBreak {
        assert(e[b - 2] == a[0]);
        assert(e[b - 1] == a[1]);
    }
    if let TextAtom::Scalar(c) = atoms[k] {
        let v = c as u32;
        if v < 0x10000 {
            assert(e[b - 2] == a[0]);
            assert(e[b - 1] == a[1]);
            assert(a[0] == KeyEvent { virtual_key: 0, scan: v as u16, flags: 0x4 });
            assert(a[1] == KeyEvent { virtual_key: 0, scan: v as u16, flags: 0x6 });
        } else {
            let w = (v - 0x10000) as u32;
            assert(v <= 0x10FFFF);
            assert(w / 0x400 < 0x400);
            assert((w / 0x400) * 0x400 + w % 0x400 == w);
            assert(e[b - 4] == a[0]);
            assert(e[b - 3] == a[1]);
            assert(e[b - 2] == a[2]);
            assert(e[b - 1] == a[3]);
            let hi = (0xD800 + w / 0x400) as u16;
            let lo = (0xDC00 + w % 0x400) as u16;
            assert(a[0].scan == hi);
            assert(a[2].scan == lo);
            assert(0xD800 <= hi < 0xDC00);
            assert(0xDC00 <= lo < 0xE000);
            assert((hi - 0xD800) * 0x400 + (lo - 0xDC00) + 0x10000 == v);
        }
    }
}

/// What a `SendInput` result of `accepted` out of `requested` events shows: a
/// count above the request is impossible; a stop on an atom boundary is a
/// partial batch; a stop inside an atom leaves progress unknown.
pub open spec fn keyboard_acceptance(
    requested: NativeEventCount,
    accepted: u32,
    boundaries: Seq<u32>,
    zero_reason: Option<NativeError>,
) -> Result<DispatchResult, KeyboardError> {
    if accepted > requested.spec_get() {
        Err(KeyboardError::Native(NativeError::spec_of(NativeErrorKind::InvalidData, None)))
    } else if accepted == requested.spec_get() {
        Ok(DispatchResult::Complete { events: requested })
    } else if accepted == 0 {
        Ok(DispatchResult::NoneAccepted { requested, native: zero_reason })
    } else {
        let counts = NativeDispatchCount {
            requested,
            accepted: NativeEventCount::spec_new(accepted),
        };
        if boundaries.contains(accepted) {
            Ok(DispatchResult::Partial { counts })
        } else {
            Ok(DispatchResult::ProgressUnknown { counts })
        }
    }
}

/// Classifies one keyboard `SendInput` result.
pub fn classify_keyboard_acceptance(
    requested: NativeEventCount,
    accepted: u32,
    semantic_boundaries: &[u32],
    zero_reason: Option<NativeError>,
) -> (r: Result<DispatchResult, KeyboardError>)
    ensures
        r == keyboard_acceptance(requested, accepted, semantic_boundaries@, zero_reason),
{
    if accepted > requested.get() {
        return Err(KeyboardError::Native(NativeError::new(NativeErrorKind::InvalidData, None)));
    }
    if accepted == requested.get() {
        return Ok(DispatchResult::Complete { events: requested });
    }
    if accepted == 0 {
        return Ok(DispatchResult::NoneAccepted { requested, native: zero_reason });
    }
    let counts = NativeDispatchCount { requested, accepted: NativeEventCount::new(accepted) };
    let mut k: usize = 0;
    while k < semantic_boundaries.len()
        invariant
            k <= semantic_boundaries@.len(),
            forall|j: int| 0 <= j < k ==> semantic_boundaries@[j] != accepted,
            0 < accepted < requested.spec_get(),
            counts == (NativeDispatchCount {
                requested,
                accepted: NativeEventCount::spec_new(accepted),
            }),
        decreases semantic_boundaries@.len() - k,
    {
        if semantic_boundaries[k] == accepted {
            assert(semantic_boundaries@[k as int] == accepted);
            return Ok(DispatchResult::Partial { counts });
        }
        k = k + 1;
    }
    Ok(DispatchResult::ProgressUnknown { counts })
}

pub const PASTE_EVENT_COUNT: u32 = 4;

/// The paste chord: Control down, V down, V up, Control up.
pub open spec fn paste_events() -> Seq<KeyEvent> {
    seq![
        KeyEvent { virtual_key: VK_CONTROL, scan: 0, flags: 0 },
        KeyEvent { virtual_key: VK_V, scan: 0, flags: 0 },
        KeyEvent { virtual_key: VK_V, scan: 0, flags: KEYEVENTF_KEYUP },
        KeyEvent { virtual_key: VK_CONTROL, scan: 0, flags: KEYEVENTF_KEYUP },
    ]
}

/// The paste is one ordinary Ctrl+V: Control (0x11) down, V (0x56) down,
/// V up, Control up; a backspace is the Backspace key (0x08) down and up.
pub proof fn law_paste_is_ctrl_v_and_backspace_is_backspace()
    ensures
        paste_events() == seq![
            KeyEvent { virtual_key: 0x11, scan: 0, flags: 0 },
            KeyEvent { virtual_key: 0x56, scan: 0, flags: 0 },
            KeyEvent { virtual_key: 0x56, scan: 0, flags: 0x2 },
            KeyEvent { virtual_key: 0x11, scan: 0, flags: 0x2 },
        ],
        key_pair(VK_BACK) == seq![
            KeyEvent { virtual_key: 0x08, scan: 0, flags: 0 },
            KeyEvent { virtual_key: 0x08, scan: 0, flags: 0x2 },
        ],
{
}

pub fn paste_inputs() -> (r: Vec<KeyEvent>)
    ensures
        r@ == paste_events(),
{
    let mut inputs: Vec<KeyEvent> = Vec::new();
    inputs.push(KeyEvent { virtual_key: VK_CONTROL, scan: 0, flags: 0 });
    inputs.push(KeyEvent { virtual_key: VK_V, scan: 0, flags: 0 });
    inputs.push(KeyEvent { virtual_key: VK_V, scan: 0, flags: KEYEVENTF_KEYUP });
    inputs.push(KeyEvent { virtual_key: VK_CONTROL, scan: 0, flags: KEYEVENTF_KEYUP });
    assert(inputs@ =~= paste_events());
    inputs
}

/// Classifies the `SendInput` result of the four-event paste chord: any stop
/// inside the chord leaves progress unknown.
pub fn classify_paste_acceptance(accepted: u32, zero_reason: Option<NativeError>) -> (r: Result<DispatchResult, PasteError>)
    ensures
        r == if accepted == PASTE_EVENT_COUNT {
            Ok(DispatchResult::Complete { events: NativeEventCount::spec_new(PASTE_EVENT_COUNT) })
        } else if accepted == 0 {
            Ok(
                DispatchResult::NoneAccepted {
                    requested: NativeEventCount::spec_new(PASTE_EVENT_COUNT),
                    native: zero_reason,
                },
            )
        } else if accepted < PASTE_EVENT_COUNT {
            Ok(
                DispatchResult::ProgressUnknown {
                    counts: NativeDispatchCount {
                        requested: NativeEventCount::spec_new(PASTE_EVENT_COUNT),
                        accepted: NativeEventCount::spec_new(accepted),
                    },
                },
            )
        } else {
            Err(PasteError::Native(NativeError::spec_of(NativeErrorKind::InvalidData, None)))
        },
{
    let requested = NativeEventCount::new(PASTE_EVENT_COUNT);
    if accepted == PASTE_EVENT_COUNT {
        Ok(DispatchResult::Complete { events: requested })
    } else if accepted == 0 {
        Ok(DispatchResult::NoneAccepted { requested, native: zero_reason })
    } else if accepted < PASTE_EVENT_COUNT {
        Ok(
            DispatchResult::ProgressUnknown {
                counts: NativeDispatchCount { requested, accepted: NativeEventCount::new(accepted) },
            },
        )
    } else {
        Err(PasteError::Native(NativeError::new(NativeErrorKind::InvalidData, None)))
    }
}

/// The check of the clipboard sequence number immediately before a paste: a
/// known expected revision must equal the observed, non-zero sequence number.
pub fn paste_revision_check(expected: crate::platform::ClipboardRevision, observed: u32) -> (r: Result<(), PasteError>)
    ensures
        r == match expected {
            crate::platform::ClipboardRevision::Unavailable => Err(PasteError::InvalidRequest),
            crate::platform::ClipboardRevision::Known(e) => if observed == 0 {
                Err(
                    PasteError::Native(
                        NativeError::spec_of(NativeErrorKind::TemporarilyUnavailable, None),
                    ),
                )
            } else if e != observed as u64 {
                Err(PasteError::ClipboardChanged)
            } else {
                Ok(())
            },
        },
{
    let expected = match expected {
        crate::platform::ClipboardRevision::Known(e) => e,
        crate::platform::ClipboardRevision::Unavailable => return Err(PasteError::InvalidRequest),
    };
    if observed == 0 {
        return Err(
            PasteError::Native(NativeError::new(NativeErrorKind::TemporarilyUnavailable, None)),
        );
    }
    if expected != observed as u64 {
        return Err(PasteError::ClipboardChanged);
    }
    Ok(())
}


// ---------------------------------------------------------------------------
// Foreground-target identity.
// ---------------------------------------------------------------------------

/// Identity evidence for a foreground target: window, process and thread
/// identity plus the GUI thread's focus handles. Handles are opaque numbers,
/// and the type deliberately has no `Debug` so that they never reach a log.
#[derive(Clone, Copy, PartialEq, Eq, Structural)]
pub struct WindowsTargetToken {
    pub top_level: usize,
    pub process_id: u32,
    pub thread_id: u32,
    pub active: usize,
    pub focus: usize,
    pub capture: usize,
    pub menu_owner: usize,
    pub move_size: usize,
    pub caret: usize,
}

/// The focus handles that `GetGUIThreadInfo` reports for a thread.
#[derive(Clone, Copy, PartialEq, Eq, Structural)]
pub struct GuiThreadFocus {
    pub active: usize,
    pub focus: usize,
    pub capture: usize,
    pub menu_owner: usize,
    pub move_size: usize,
    pub caret: usize,
}

/// Exact evidence covers the GUI thread's focus handles; anything weaker
/// compares only the stable top-level identity.
pub open spec fn token_comparison(
    expected: WindowsTargetToken,
    expected_strength: EvidenceStrength,
    current: WindowsTargetToken,
    current_strength: EvidenceStrength,
) -> TargetComparison {
    if expected.top_level != current.top_level || expected.process_id != current.process_id
        || expected.thread_id != current.thread_id {
        TargetComparison::Changed
    } else if expected_strength == EvidenceStrength::NativeFocusedControl && current_strength
        == EvidenceStrength::NativeFocusedControl {
        if expected == current {
            TargetComparison::Same
        } else {
            TargetComparison::Changed
        }
    } else {
        TargetComparison::Same
    }
}

/// Compares a target captured before input with one captured now.
pub fn compare_tokens(
    expected: &WindowsTargetToken,
    expected_strength: EvidenceStrength,
    current: &WindowsTargetToken,
    current_strength: EvidenceStrength,
) -> (r: TargetComparison)
    ensures
        r == token_comparison(*expected, expected_strength, *current, current_strength),
{
    if expected.top_level != current.top_level || expected.process_id != current.process_id
        || expected.thread_id != current.thread_id {
        return TargetComparison::Changed;
    }
    let both_exact = match (expected_strength, current_strength) {
        (EvidenceStrength::NativeFocusedControl, EvidenceStrength::NativeFocusedControl) => true,
        _ => false,
    };
    if both_exact {
        if *expected == *current {
            TargetComparison::Same
        } else {
            TargetComparison::Changed
        }
    } else {
        TargetComparison::Same
    }
}

/// What one foreground observation yields: no foreground window is
/// unavailable evidence; a missing thread or process is a native failure
/// with the last error; a window that is already gone has disappeared; with
/// GUI-thread focus handles the evidence is exact, without them degraded.
pub open spec fn capture_result(
    foreground: usize,
    process_id: u32,
    thread_id: u32,
    last_error: Option<u32>,
    foreground_alive: bool,
    gui: Option<GuiThreadFocus>,
) -> Result<(WindowsTargetToken, TargetMetadata, EvidenceStrength), crate::platform::TargetCaptureError> {
    if foreground == 0 {
        Err(crate::platform::TargetCaptureError::Unavailable)
    } else if thread_id == 0 || process_id == 0 {
        Err(
            crate::platform::TargetCaptureError::Native(
                NativeError::spec_of(NativeErrorKind::TemporarilyUnavailable, last_error),
            ),
        )
    } else if !foreground_alive {
        Err(crate::platform::TargetCaptureError::Disappeared)
    } else {
        let metadata = TargetMetadata { process_id: Some(process_id), gui_thread_id: None };
        match gui {
            Some(g) => Ok(
                (
                    WindowsTargetToken {
                        top_level: foreground,
                        process_id,
                        thread_id,
                        active: g.active,
                        focus: g.focus,
                        capture: g.capture,
                        menu_owner: g.menu_owner,
                        move_size: g.move_size,
                        caret: g.caret,
                    },
                    metadata,
                    EvidenceStrength::NativeFocusedControl,
                ),
            ),
            None => Ok(
                (
                    WindowsTargetToken {
                        top_level: foreground,
                        process_id,
                        thread_id,
                        active: 0,
                        focus: 0,
                        capture: 0,
                        menu_owner: 0,
                        move_size: 0,
                        caret: 0,
                    },
                    metadata,
                    EvidenceStrength::Degraded,
                ),
            ),
        }
    }
}

/// Builds target evidence from one foreground observation.
pub fn capture_target_evidence(
    foreground: usize,
    process_id: u32,
    thread_id: u32,
    last_error: Option<u32>,
    foreground_alive: bool,
    gui: Option<GuiThreadFocus>,
) -> (r: Result<(WindowsTargetToken, TargetMetadata, EvidenceStrength), crate::platform::TargetCaptureError>)
    ensures
        r == capture_result(foreground, process_id, thread_id, last_error, foreground_alive, gui),
{
    if foreground == 0 {
        return Err(crate::platform::TargetCaptureError::Unavailable);
    }
    if thread_id == 0 || process_id == 0 {
        return Err(
            crate::platform::TargetCaptureError::Native(
                NativeError::new(NativeErrorKind::TemporarilyUnavailable, last_error),
            ),
        );
    }
    if !foreground_alive {
        return Err(crate::platform::TargetCaptureError::Disappeared);
    }
    let metadata = TargetMetadata { process_id: Some(process_id), gui_thread_id: None };
    match gui {
        Some(g) => Ok(
            (
                WindowsTargetToken {
                    top_level: foreground,
                    process_id,
                    thread_id,
                    active: g.active,
                    focus: g.focus,
                    capture: g.capture,
                    menu_owner: g.menu_owner,
                    move_size: g.move_size,
                    caret: g.caret,
                },
                metadata,
                EvidenceStrength::NativeFocusedControl,
            ),
        ),
        None => Ok(
            (
                WindowsTargetToken {
                    top_level: foreground,
                    process_id,
                    thread_id,
                    active: 0,
                    focus: 0,
                    capture: 0,
                    menu_owner: 0,
                    move_size: 0,
                    caret: 0,
                },
                metadata,
                EvidenceStrength::Degraded,
            ),
        ),
    }
}

/// The comparison after a fresh capture: a capture that found no usable
/// foreground leaves the result unavailable while the expected window still
/// exists and disappeared once it is gone; a native failure is unavailable.
pub open spec fn recapture_comparison(
    expected: WindowsTargetToken,
    expected_strength: EvidenceStrength,
    current: Result<(WindowsTargetToken, EvidenceStrength), crate::platform::TargetCaptureError>,
    expected_alive: bool,
) -> TargetComparison {
    match current {
        Ok((token, strength)) => token_comparison(expected, expected_strength, token, strength),
        Err(crate::platform::TargetCaptureError::Native(_)) => TargetComparison::UnavailableOrAmbiguous,
        Err(_) => if expected_alive {
            TargetComparison::UnavailableOrAmbiguous
        } else {
            TargetComparison::Disappeared
        },
    }
}

/// Compares the expected target with the result of a fresh capture.
pub fn compare_after_capture(
    expected: &WindowsTargetToken,
    expected_strength: EvidenceStrength,
    current: Result<(WindowsTargetToken, EvidenceStrength), crate::platform::TargetCaptureError>,
    expected_alive: bool,
) -> (r: TargetComparison)
    ensures
        r == recapture_comparison(*expected, expected_strength, current, expected_alive),
{
    match current {
        Ok((token, strength)) => compare_tokens(expected, expected_strength, &token, strength),
        Err(crate::platform::TargetCaptureError::Native(_)) => TargetComparison::UnavailableOrAmbiguous,
        Err(_) => if expected_alive {
            TargetComparison::UnavailableOrAmbiguous
        } else {
            TargetComparison::Disappeared
        },
    }
}

/// A target whose mandatory integrity level is above ClipType's own is known
/// to refuse synthetic input; without both levels nothing is known.
pub open spec fn integrity_relation(current: Option<u32>, target: Option<u32>) -> IntegrityRelation {
    match (current, target) {
        (Some(c), Some(t)) => if t > c {
            IntegrityRelation::KnownRestricted
        } else {
            IntegrityRelation::KnownNotRestricted
        },
        _ => IntegrityRelation::Unknown,
    }
}

/// Relates ClipType's integrity level to the target's.
pub fn integrity_from_levels(current: Option<u32>, target: Option<u32>) -> (r: IntegrityRelation)
    ensures
        r == integrity_relation(current, target),
{
    match (current, target) {
        (Some(c), Some(t)) => if t > c {
            IntegrityRelation::KnownRestricted
        } else {
            IntegrityRelation::KnownNotRestricted
        },
        _ => IntegrityRelation::Unknown,
    }
}

} // verus!
