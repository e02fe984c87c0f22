//! Session decisions of the live coordinator: humanized typing, error
//! mapping, dispatch classification and capability snapshots.
use std::time::Duration;

use vstd::prelude::*;

use crate::duration::{duration_from_nanos, duration_is_zero, duration_nanos, nanos_of};
use crate::normalization::NormalizationError;
use crate::outcome::{
    CapabilityState, IntegrityRelation, PreparationFailure, SessionPhase, TerminalOutcome,
};
use crate::plan::{PlanCapabilities, PlanError};
use crate::platform::{
    ClipboardError, DispatchResult, KeyboardCapabilities, KeyboardError, NativeErrorKind,
    PasteCapabilities, PasteError, TargetCaptureError, TargetComparison,
};
use crate::product::{InjectionBackend, ProductCapabilities, ProductPlanError};
use crate::state::{DispatchObservation, NoInputReason};
use crate::text::TextAtom;
use crate::textual::chars_of;

verus! {

// ---------------------------------------------------------------------------
// Session results.
// ---------------------------------------------------------------------------

#[derive(Debug, Clone, Copy, PartialEq, Eq, Structural)]
pub enum SessionCompletion {
    PreparationFailed(PreparationFailure),
    Finished(TerminalOutcome),
}

#[derive(Debug, Clone, Copy, PartialEq, Eq, Structural)]
pub struct StatusSnapshot {
    pub generation: u64,
    pub phase: SessionPhase,
    pub backend: Option<InjectionBackend>,
    pub completion: Option<SessionCompletion>,
    pub batches_completed: u32,
}

#[derive(Debug, Clone, Copy, PartialEq, Eq, Structural)]
pub enum TriggerResult {
    Started { generation: u64 },
    Busy,
    ShuttingDown,
    Rejected(PreparationFailure),
    StartFailed,
}

#[derive(Debug, Clone, Copy, PartialEq, Eq, Structural)]
pub enum CancelResult {
    Requested,
    Idle,
}

#[derive(Debug, Clone, Copy, PartialEq, Eq, Structural)]
pub enum WaitResult {
    Idle,
    TimedOut,
}

#[derive(Debug, Clone, Copy, PartialEq, Eq, Structural)]
pub enum ShutdownResult {
    Complete,
    TimedOut,
}

// ---------------------------------------------------------------------------
// Deterministic typing randomness.
// ---------------------------------------------------------------------------

/// The seed used in place of zero, which xorshift cannot leave.
pub open spec fn typing_seed(seed: u64) -> u64 {
    if seed == 0 {
        0xA076_1D64_78BD_642Fu64
    } else {
        seed
    }
}

/// One xorshift64 state step.
pub open spec fn xorshift(v: u64) -> u64 {
    let a = v ^ (v >> 12u64);
    let b = a ^ (a << 25u64);
    b ^ (b >> 27u64)
}

/// The output scrambled from a state.
pub open spec fn scrambled(state: u64) -> u64 {
    state.wrapping_mul(0x2545_F491_4F6C_DD1Du64)
}

/// A draw below `upper` and the state after it: bounds of zero or one draw
/// nothing and leave the state alone.
pub open spec fn draw_below(state: u64, upper: u64) -> (u64, u64) {
    if upper <= 1 {
        (0, state)
    } else {
        let next = xorshift(state);
        ((scrambled(next) % upper) as u64, next)
    }
}

/// Small deterministic generator for typing jitter and typos (xorshift64*).
pub struct TypingRandom {
    state: u64,
}

impl View for TypingRandom {
    type V = u64;

    closed spec fn view(&self) -> u64 {
        self.state
    }
}

impl TypingRandom {
    pub fn new(seed: u64) -> (r: Self)
        ensures
            r@ == typing_seed(seed),
    {
        TypingRandom {
            state: if seed == 0 {
                0xA076_1D64_78BD_642Fu64
            } else {
                seed
            },
        }
    }

    pub fn next(&mut self) -> (r: u64)
        ensures
            final(self)@ == xorshift(old(self)@),
            r == scrambled(final(self)@),
    {
        let mut value = self.state;
        value = value ^ (value >> 12u64);
        value = value ^ (value << 25u64);
        value = value ^ (value >> 27u64);
        self.state = value;
        value.wrapping_mul(0x2545_F491_4F6C_DD1Du64)
    }

    /// A value below `upper` (zero when `upper` is at most one).
    pub fn below(&mut self, upper: u64) -> (r: u64)
        ensures
            r == draw_below(old(self)@, upper).0,
            final(self)@ == draw_below(old(self)@, upper).1,
            upper > 1 ==> r < upper,
    {
        if upper <= 1 {
            0
        } else {
            self.next() % upper
        }
    }
}

// ---------------------------------------------------------------------------
// Jitter.
// ---------------------------------------------------------------------------

/// The nanoseconds of a base interval scaled by `100 + draw - jitter` percent
/// (one percent when that is negative), saturating at the largest values.
pub open spec fn jitter_nanos(base: u128, jitter: u8, draw: u64) -> nat {
    let offset = draw as int - jitter as int;
    let factor: int = if 100 + offset >= 0 {
        100 + offset
    } else {
        1
    };
    let product: int = if base * factor > u128::MAX {
        u128::MAX as int
    } else {
        base * factor
    };
    let nanos = product / 100;
    if nanos > u64::MAX {
        u64::MAX as nat
    } else {
        nanos as nat
    }
}

/// The delay before one action: the base interval, spread uniformly by up to
/// `jitter_percent` percent either way.
pub fn jittered_delay(base: Duration, jitter_percent: u8, random: &mut TypingRandom) -> (r: Duration)
    ensures
        jitter_percent == 0 || duration_nanos(base) == 0 ==> r == base && final(random)@ == old(
            random,
        )@,
        !(jitter_percent == 0 || duration_nanos(base) == 0) ==> {
            let (draw, next) = draw_below(old(random)@, (2 * jitter_percent + 1) as u64);
            &&& final(random)@ == next
            &&& duration_nanos(r) == jitter_nanos(duration_nanos(base), jitter_percent, draw)
        },
{
    if jitter_percent == 0 || duration_is_zero(base) {
        return base;
    }
    let spread: u64 = jitter_percent as u64;
    let width: u64 = spread * 2 + 1;
    let draw = random.below(width);
    let factor: u128 = if 100 + draw >= spread {
        (100 + draw - spread) as u128
    } else {
        1
    };
    let nanos = nanos_of(base);
    let product: u128 = match nanos.checked_mul(factor) {
        Some(p) => p,
        None => u128::MAX,
    };
    let scaled = product / 100;
    let bounded: u64 = if scaled > u64::MAX as u128 {
        u64::MAX
    } else {
        scaled as u64
    };
    duration_from_nanos(bounded)
}

/// The jittered delay stays within `jitter` percent of the base interval, for
/// any jitter that the settings allow and any base that fits the nanosecond
/// range.
pub proof fn law_jitter_is_bounded(base: u128, jitter: u8, draw: u64)
    requires
        jitter <= 95,
        draw < 2 * jitter + 1,
        base * (100 + jitter) / 100 <= u64::MAX,
    ensures
        base * (100 - jitter) / 100 <= jitter_nanos(base, jitter, draw) <= base * (100 + jitter)
            / 100,
{
    let factor = 100 + draw - jitter;
    assert(100 - jitter <= factor <= 100 + jitter);
    assert(base * (100 - jitter) <= base * factor <= base * (100 + jitter)) by (nonlinear_arith)
        requires
            100 - jitter <= factor <= 100 + jitter,
            base >= 0,
    ;
    assert(base * (100 + jitter) <= u128::MAX) by (nonlinear_arith)
        requires
            base * (100 + jitter) / 100 <= u64::MAX,
            base >= 0,
    ;
    assert(base * (100 - jitter) / 100 <= base * factor / 100 <= base * (100 + jitter) / 100)
        by (nonlinear_arith)
        requires
            base * (100 - jitter) <= base * factor <= base * (100 + jitter),
    ;
}

// ---------------------------------------------------------------------------
// Adjacent-key typos.
// ---------------------------------------------------------------------------

pub open spec fn is_ascii_char(c: char) -> bool {
    (c as u32) < 128
}

pub open spec fn is_ascii_upper(c: char) -> bool {
    'A' <= c && c <= 'Z'
}

pub open spec fn to_ascii_lower(c: char) -> char {
    if is_ascii_upper(c) {
        ((c as u32) + 32) as char
    } else {
        c
    }
}

pub open spec fn to_ascii_upper(c: char) -> char {
    if 'a' <= c && c <= 'z' {
        ((c as u32) - 32) as char
    } else {
        c
    }
}

fn lower_ascii(c: char) -> (r: char)
    ensures
        r == to_ascii_lower(c),
{
    if 'A' <= c && c <= 'Z' {
        ((c as u8) + 32) as char
    } else {
        c
    }
}

fn upper_ascii(c: char) -> (r: char)
    ensures
        r == to_ascii_upper(c),
{
    if 'a' <= c && c <= 'z' {
        ((c as u8) - 32) as char
    } else {
        c
    }
}

/// The keys next to a key on a US layout, for a lowercase ASCII key.
pub open spec fn neighbours(c: char) -> Option<Seq<char>> {
    if c == '1' { Some("2q"@) }
    else if c == '2' { Some("13qw"@) }
    else if c == '3' { Some("24we"@) }
    else if c == '4' { Some("35er"@) }
    else if c == '5' { Some("46rt"@) }
    else if c == '6' { Some("57ty"@) }
    else if c == '7' { Some("68yu"@) }
    else if c == '8' { Some("79ui"@) }
    else if c == '9' { Some("80io"@) }
    else if c == '0' { Some("9-op"@) }
    else if c == 'q' { Some("12wa"@) }
    else if c == 'w' { Some("23qesa"@) }
    else if c == 'e' { Some("34wrsd"@) }
    else if c == 'r' { Some("45etdf"@) }
    else if c == 't' { Some("56ryfg"@) }
    else if c == 'y' { Some("67tugh"@) }
    else if c == 'u' { Some("78yihj"@) }
    else if c == 'i' { Some("89uojk"@) }
    else if c == 'o' { Some("90ipkl"@) }
    else if c == 'p' { Some("0-[ol"@) }
    else if c == 'a' { Some("qwsz"@) }
    else if c == 's' { Some("weadzx"@) }
    else if c == 'd' { Some("ersfxc"@) }
    else if c == 'f' { Some("rtdgcv"@) }
    else if c == 'g' { Some("tyfhvb"@) }
    else if c == 'h' { Some("yugjbn"@) }
    else if c == 'j' { Some("uihknm"@) }
    else if c == 'k' { Some("iojlm,"@) }
    else if c == 'l' { Some("opk;.,"@) }
    else if c == 'z' { Some("asx"@) }
    else if c == 'x' { Some("zsdc"@) }
    else if c == 'c' { Some("xdfv"@) }
    else if c == 'v' { Some("cfgb"@) }
    else if c == 'b' { Some("vghn"@) }
    else if c == 'n' { Some("bhjm"@) }
    else if c == 'm' { Some("njk,"@) }
    else if c == '-' { Some("0=p"@) }
    else if c == '=' { Some("-["@) }
    else if c == '[' { Some("p];"@) }
    else if c == ']' { Some("['"@) }
    else if c == ';' { Some("lp.'"@) }
    else if c == '\'' { Some(";]/"@) }
    else if c == ',' { Some("mkl."@) }
    else if c == '.' { Some(",l;/"@) }
    else if c == '/' { Some(".;'"@) }
    else { None }
}

fn neighbour_keys(c: char) -> (r: Option<&'static str>)
    ensures
        match neighbours(c) {
            Some(s) => r matches Some(t) && t@ == s,
            None => r is None,
        },
{
    if c == '1' { Some("2q") }
    else if c == '2' { Some("13qw") }
    else if c == '3' { Some("24we") }
    else if c == '4' { Some("35er") }
    else if c == '5' { Some("46rt") }
    else if c == '6' { Some("57ty") }
    else if c == '7' { Some("68yu") }
    else if c == '8' { Some("79ui") }
    else if c == '9' { Some("80io") }
    else if c == '0' { Some("9-op") }
    else if c == 'q' { Some("12wa") }
    else if c == 'w' { Some("23qesa") }
    else if c == 'e' { Some("34wrsd") }
    else if c == 'r' { Some("45etdf") }
    else if c == 't' { Some("56ryfg") }
    else if c == 'y' { Some("67tugh") }
    else if c == 'u' { Some("78yihj") }
    else if c == 'i' { Some("89uojk") }
    else if c == 'o' { Some("90ipkl") }
    else if c == 'p' { Some("0-[ol") }
    else if c == 'a' { Some("qwsz") }
    else if c == 's' { Some("weadzx") }
    else if c == 'd' { Some("ersfxc") }
    else if c == 'f' { Some("rtdgcv") }
    else if c == 'g' { Some("tyfhvb") }
    else if c == 'h' { Some("yugjbn") }
    else if c == 'j' { Some("uihknm") }
    else if c == 'k' { Some("iojlm,") }
    else if c == 'l' { Some("opk;.,") }
    else if c == 'z' { Some("asx") }
    else if c == 'x' { Some("zsdc") }
    else if c == 'c' { Some("xdfv") }
    else if c == 'v' { Some("cfgb") }
    else if c == 'b' { Some("vghn") }
    else if c == 'n' { Some("bhjm") }
    else if c == 'm' { Some("njk,") }
    else if c == '-' { Some("0=p") }
    else if c == '=' { Some("-[") }
    else if c == '[' { Some("p];") }
    else if c == ']' { Some("['") }
    else if c == ';' { Some("lp.'") }
    else if c == '\'' { Some(";]/") }
    else if c == ',' { Some("mkl.") }
    else if c == '.' { Some(",l;/") }
    else if c == '/' { Some(".;'") }
    else { None }
}

/// Every neighbour list holds at least one key.
proof fn lemma_neighbours_nonempty(c: char)
    ensures
        neighbours(c) matches Some(keys) ==> keys.len() > 0,
{
    reveal_strlit("2q");
    reveal_strlit("13qw");
    reveal_strlit("24we");
    reveal_strlit("35er");
    reveal_strlit("46rt");
    reveal_strlit("57ty");
    reveal_strlit("68yu");
    reveal_strlit("79ui");
    reveal_strlit("80io");
    reveal_strlit("9-op");
    reveal_strlit("12wa");
    reveal_strlit("23qesa");
    reveal_strlit("34wrsd");
    reveal_strlit("45etdf");
    reveal_strlit("56ryfg");
    reveal_strlit("67tugh");
    reveal_strlit("78yihj");
    reveal_strlit("89uojk");
    reveal_strlit("90ipkl");
    reveal_strlit("0-[ol");
    reveal_strlit("qwsz");
    reveal_strlit("weadzx");
    reveal_strlit("ersfxc");
    reveal_strlit("rtdgcv");
    reveal_strlit("tyfhvb");
    reveal_strlit("yugjbn");
    reveal_strlit("uihknm");
    reveal_strlit("iojlm,");
    reveal_strlit("opk;.,");
    reveal_strlit("asx");
    reveal_strlit("zsdc");
    reveal_strlit("xdfv");
    reveal_strlit("cfgb");
    reveal_strlit("vghn");
    reveal_strlit("bhjm");
    reveal_strlit("njk,");
    reveal_strlit("0=p");
    reveal_strlit("-[");
    reveal_strlit("p];");
    reveal_strlit("['");
    reveal_strlit("lp.'");
    reveal_strlit(";]/");
    reveal_strlit("mkl.");
    reveal_strlit(",l;/");
    reveal_strlit(".;'");
}

/// The typo typed before `atom`, if any, and the generator state after the
/// draws: a roll below `probability_percent` out of 100, then an adjacent key
/// on a US layout in the case of the original ASCII scalar.
#[verifier::opaque]
pub open spec fn typo_outcome(atom: TextAtom, probability_percent: u8, state: u64) -> (Option<TextAtom>, u64) {
    if probability_percent == 0 {
        (None, state)
    } else {
        let (roll, after_roll) = draw_below(state, 100);
        if roll >= probability_percent as u64 {
            (None, after_roll)
        } else {
            match atom {
                TextAtom::Scalar(value) => if !is_ascii_char(value) {
                    (None, after_roll)
                } else {
                    match neighbours(to_ascii_lower(value)) {
                        None => (None, after_roll),
                        Some(keys) => {
                            let (pick, after_pick) = draw_below(after_roll, keys.len() as u64);
                            let chosen = keys[pick as int];
                            let typed = if is_ascii_upper(value) {
                                to_ascii_upper(chosen)
                            } else {
                                chosen
                            };
                            (Some(TextAtom::Scalar(typed)), after_pick)
                        },
                    }
                },
                _ => (None, after_roll),
            }
        }
    }
}

/// Decides whether to type an adjacent-key typo before `atom`.
pub fn adjacent_typo(atom: TextAtom, probability_percent: u8, random: &mut TypingRandom) -> (r: Option<TextAtom>)
    ensures
        r == typo_outcome(atom, probability_percent, old(random)@).0,
        final(random)@ == typo_outcome(atom, probability_percent, old(random)@).1,
{
    reveal(typo_outcome);
    if probability_percent == 0 {
        return None;
    }
    if random.below(100) >= probability_percent as u64 {
        return None;
    }
    let value = match atom {
        TextAtom::Scalar(value) => value,
        _ => return None,
    };
    if (value as u32) >= 128 {
        return None;
    }
    let keys = match neighbour_keys(lower_ascii(value)) {
        Some(keys) => chars_of(keys),
        None => return None,
    };
    proof {
        lemma_neighbours_nonempty(to_ascii_lower(value));
    }
    let pick = random.below(keys.len() as u64);
    let chosen = keys[pick as usize];
    let typed = if 'A' <= value && value <= 'Z' {
        upper_ascii(chosen)
    } else {
        chosen
    };
    Some(TextAtom::Scalar(typed))
}

/// Only ASCII scalars ever get a typo; line breaks, tabs and other text are
/// typed exactly.
pub proof fn law_typos_only_for_ascii_scalars(atom: TextAtom, probability_percent: u8, state: u64)
    requires
        typo_outcome(atom, probability_percent, state).0 is Some,
    ensures
        atom matches TextAtom::Scalar(v) && is_ascii_char(v),
        probability_percent > 0,
{
    reveal(typo_outcome);
}

/// A typo keeps the case of the letter it replaces: the typo for an uppercase
/// letter is the uppercase of the typo for its lowercase letter under the same
/// generator state, and both leave the generator in the same state.
pub proof fn law_typos_preserve_case(c: char, probability_percent: u8, state: u64)
    requires
        'a' <= c <= 'z',
    ensures
        typo_outcome(TextAtom::Scalar(to_ascii_upper(c)), probability_percent, state).1
            == typo_outcome(TextAtom::Scalar(c), probability_percent, state).1,
        typo_outcome(TextAtom::Scalar(to_ascii_upper(c)), probability_percent, state).0 == match typo_outcome(
            TextAtom::Scalar(c),
            probability_percent,
            state,
        ).0 {
            Some(TextAtom::Scalar(x)) => Some(TextAtom::Scalar(to_ascii_upper(x))),
            other => other,
        },
{
    reveal(typo_outcome);
    let upper = to_ascii_upper(c);
    assert(is_ascii_upper(upper));
    assert(to_ascii_lower(upper) == c);
}

// ---------------------------------------------------------------------------
// Error mapping and dispatch classification.
// ---------------------------------------------------------------------------

pub open spec fn spec_map_clipboard_error(error: ClipboardError) -> PreparationFailure {
    match error {
        ClipboardError::Busy | ClipboardError::ChangedDuringRead | ClipboardError::Native(_) => {
            PreparationFailure::ClipboardUnavailable
        },
        ClipboardError::Empty => PreparationFailure::ClipboardEmpty,
        ClipboardError::NonText => PreparationFailure::ClipboardNonText,
        ClipboardError::Malformed => PreparationFailure::ClipboardMalformed,
        ClipboardError::TooLarge { .. } => PreparationFailure::PayloadTooLarge,
    }
}

/// The preparation failure that a final clipboard error reports.
pub fn map_clipboard_error(error: ClipboardError) -> (r: PreparationFailure)
    ensures
        r == spec_map_clipboard_error(error),
{
    match error {
        ClipboardError::Busy | ClipboardError::ChangedDuringRead | ClipboardError::Native(_) => {
            PreparationFailure::ClipboardUnavailable
        },
        ClipboardError::Empty => PreparationFailure::ClipboardEmpty,
        ClipboardError::NonText => PreparationFailure::ClipboardNonText,
        ClipboardError::Malformed => PreparationFailure::ClipboardMalformed,
        ClipboardError::TooLarge { .. } => PreparationFailure::PayloadTooLarge,
    }
}

pub open spec fn spec_clipboard_error_is_retryable(error: ClipboardError) -> bool {
    match error {
        ClipboardError::Busy | ClipboardError::ChangedDuringRead => true,
        ClipboardError::Native(native) => native.spec_kind() == NativeErrorKind::TemporarilyUnavailable,
        _ => false,
    }
}

/// Only a busy clipboard, a change during the read and a temporarily
/// unavailable native clipboard are worth another bounded attempt.
pub fn clipboard_error_is_retryable(error: ClipboardError) -> (r: bool)
    ensures
        r == spec_clipboard_error_is_retryable(error),
{
    match error {
        ClipboardError::Busy | ClipboardError::ChangedDuringRead => true,
        ClipboardError::Native(native) => match native.kind() {
            NativeErrorKind::TemporarilyUnavailable => true,
            _ => false,
        },
        _ => false,
    }
}

/// What one failed clipboard attempt leads to.
#[derive(Debug, Clone, Copy, PartialEq, Eq, Structural)]
pub enum ClipboardAttempt {
    Retry,
    Fail(PreparationFailure),
}

/// After the failed attempt `attempt` (counted from zero) of `attempts`: a
/// retryable error with attempts left is retried; anything else fails with
/// its mapped reason.
pub fn after_clipboard_error(error: ClipboardError, attempt: usize, attempts: usize) -> (r: ClipboardAttempt)
    ensures
        r == if spec_clipboard_error_is_retryable(error) && attempt + 1 < attempts {
            ClipboardAttempt::Retry
        } else {
            ClipboardAttempt::Fail(spec_map_clipboard_error(error))
        },
{
    if clipboard_error_is_retryable(error) && attempt < attempts && attempts - attempt > 1 {
        ClipboardAttempt::Retry
    } else {
        ClipboardAttempt::Fail(map_clipboard_error(error))
    }
}

pub open spec fn spec_map_plan_error(error: PlanError) -> PreparationFailure {
    match error {
        PlanError::InvalidConfiguration(_) => PreparationFailure::InternalInvariant,
        PlanError::Normalization(NormalizationError::Empty) => PreparationFailure::ClipboardEmpty,
        PlanError::Normalization(NormalizationError::PayloadTooLarge { .. }) => {
            PreparationFailure::PayloadTooLarge
        },
        PlanError::Normalization(NormalizationError::UnsupportedControl { .. })
        | PlanError::Normalization(NormalizationError::TabRejected { .. })
        | PlanError::CapabilityUnavailable(_) => PreparationFailure::UnsupportedCapability,
        PlanError::CapabilityDegraded(_) => PreparationFailure::DegradedCapabilityRejected,
    }
}

pub fn map_plan_error(error: PlanError) -> (r: PreparationFailure)
    ensures
        r == spec_map_plan_error(error),
{
    match error {
        PlanError::InvalidConfiguration(_) => PreparationFailure::InternalInvariant,
        PlanError::Normalization(NormalizationError::Empty) => PreparationFailure::ClipboardEmpty,
        PlanError::Normalization(NormalizationError::PayloadTooLarge { .. }) => {
            PreparationFailure::PayloadTooLarge
        },
        PlanError::Normalization(NormalizationError::UnsupportedControl { .. })
        | PlanError::Normalization(NormalizationError::TabRejected { .. })
        | PlanError::CapabilityUnavailable(_) => PreparationFailure::UnsupportedCapability,
        PlanError::CapabilityDegraded(_) => PreparationFailure::DegradedCapabilityRejected,
    }
}

pub open spec fn spec_map_product_plan_error(error: ProductPlanError) -> PreparationFailure {
    match error {
        ProductPlanError::Disabled => PreparationFailure::Disabled,
        ProductPlanError::InvalidConfiguration(_) => PreparationFailure::InternalInvariant,
        ProductPlanError::Empty => PreparationFailure::ClipboardEmpty,
        ProductPlanError::PayloadTooLarge { .. } => PreparationFailure::PayloadTooLarge,
        ProductPlanError::Keyboard(e) => spec_map_plan_error(e),
        ProductPlanError::ClipboardCapabilityUnavailable => PreparationFailure::UnsupportedCapability,
        ProductPlanError::ClipboardCapabilityDegraded => PreparationFailure::DegradedCapabilityRejected,
        ProductPlanError::ClipboardRevisionUnavailable => PreparationFailure::ClipboardRevisionUnavailable,
    }
}

pub fn map_product_plan_error(error: ProductPlanError) -> (r: PreparationFailure)
    ensures
        r == spec_map_product_plan_error(error),
{
    match error {
        ProductPlanError::Disabled => PreparationFailure::Disabled,
        ProductPlanError::InvalidConfiguration(_) => PreparationFailure::InternalInvariant,
        ProductPlanError::Empty => PreparationFailure::ClipboardEmpty,
        ProductPlanError::PayloadTooLarge { .. } => PreparationFailure::PayloadTooLarge,
        ProductPlanError::Keyboard(e) => map_plan_error(e),
        ProductPlanError::ClipboardCapabilityUnavailable => PreparationFailure::UnsupportedCapability,
        ProductPlanError::ClipboardCapabilityDegraded => PreparationFailure::DegradedCapabilityRejected,
        ProductPlanError::ClipboardRevisionUnavailable => PreparationFailure::ClipboardRevisionUnavailable,
    }
}

pub open spec fn spec_map_keyboard_error(error: KeyboardError) -> TerminalOutcome {
    match error {
        KeyboardError::ModifierStateUnavailable => TerminalOutcome::ModifierConflict,
        KeyboardError::Native(_) => TerminalOutcome::NativeFailure,
        _ => TerminalOutcome::InternalInvariant,
    }
}

/// The terminal outcome of a keyboard dispatch error.
pub fn map_keyboard_error(error: KeyboardError) -> (r: TerminalOutcome)
    ensures
        r == spec_map_keyboard_error(error),
{
    match error {
        KeyboardError::ModifierStateUnavailable => TerminalOutcome::ModifierConflict,
        KeyboardError::Native(_) => TerminalOutcome::NativeFailure,
        KeyboardError::UnsupportedSemanticElement | KeyboardError::InvalidBatch => {
            TerminalOutcome::InternalInvariant
        },
    }
}

pub open spec fn spec_map_paste_error(error: PasteError) -> TerminalOutcome {
    match error {
        PasteError::ClipboardChanged => TerminalOutcome::ClipboardChanged,
        PasteError::Native(_) => TerminalOutcome::NativeFailure,
        _ => TerminalOutcome::InternalInvariant,
    }
}

/// The terminal outcome of a paste dispatch error.
pub fn map_paste_error(error: PasteError) -> (r: TerminalOutcome)
    ensures
        r == spec_map_paste_error(error),
{
    match error {
        PasteError::ClipboardChanged => TerminalOutcome::ClipboardChanged,
        PasteError::Native(_) => TerminalOutcome::NativeFailure,
        PasteError::Unsupported | PasteError::InvalidRequest => TerminalOutcome::InternalInvariant,
    }
}

pub open spec fn spec_dispatch_observation(result: DispatchResult, integrity: IntegrityRelation) -> DispatchObservation {
    match result {
        DispatchResult::Complete { .. } => DispatchObservation::CompleteBatch,
        DispatchResult::Partial { .. } => DispatchObservation::Partial,
        DispatchResult::ProgressUnknown { .. } => DispatchObservation::ProgressUnknown,
        DispatchResult::NoneAccepted { native, .. } => if integrity
            == IntegrityRelation::KnownRestricted {
            DispatchObservation::NoEvents(NoInputReason::KnownSecurityRestriction)
        } else if native matches Some(e) && (e.spec_kind() == NativeErrorKind::BlockedCauseUnknown
            || e.spec_kind() == NativeErrorKind::PermissionDenied) {
            DispatchObservation::NoEvents(NoInputReason::BlockedCauseUnknown)
        } else {
            DispatchObservation::NoEvents(NoInputReason::NativeFailure)
        },
    }
}

/// What a native dispatch result shows, given what is known of the target's
/// integrity level.
pub fn dispatch_observation(result: DispatchResult, integrity: IntegrityRelation) -> (r: DispatchObservation)
    ensures
        r == spec_dispatch_observation(result, integrity),
{
    match result {
        DispatchResult::Complete { .. } => DispatchObservation::CompleteBatch,
        DispatchResult::Partial { .. } => DispatchObservation::Partial,
        DispatchResult::ProgressUnknown { .. } => DispatchObservation::ProgressUnknown,
        DispatchResult::NoneAccepted { native, .. } => {
            if integrity == IntegrityRelation::KnownRestricted {
                DispatchObservation::NoEvents(NoInputReason::KnownSecurityRestriction)
            } else {
                let blocked = match native {
                    Some(e) => match e.kind() {
                        NativeErrorKind::BlockedCauseUnknown | NativeErrorKind::PermissionDenied => true,
                        _ => false,
                    },
                    None => false,
                };
                if blocked {
                    DispatchObservation::NoEvents(NoInputReason::BlockedCauseUnknown)
                } else {
                    DispatchObservation::NoEvents(NoInputReason::NativeFailure)
                }
            }
        },
    }
}

/// Every native result except a complete batch stops the session; partial and
/// progress-unknown input is never retried.
pub proof fn law_incomplete_dispatch_stops(result: DispatchResult, integrity: IntegrityRelation)
    requires
        !(result is Complete),
    ensures
        crate::state::spec_classify_dispatch(spec_dispatch_observation(result, integrity)) is Stop,
        result is Partial ==> crate::state::spec_classify_dispatch(
            spec_dispatch_observation(result, integrity),
        ) == crate::state::DispatchDecision::Stop(TerminalOutcome::PartialInput),
        result is ProgressUnknown ==> crate::state::spec_classify_dispatch(
            spec_dispatch_observation(result, integrity),
        ) == crate::state::DispatchDecision::Stop(TerminalOutcome::ProgressUnknown),
{
}

/// Sessions need full modifier observation.
pub fn modifier_capability_failure(capabilities: KeyboardCapabilities) -> (r: Option<PreparationFailure>)
    ensures
        r == match capabilities.modifier_observation {
            CapabilityState::Available => None,
            CapabilityState::Degraded => Some(PreparationFailure::DegradedCapabilityRejected),
            CapabilityState::Unavailable => Some(PreparationFailure::UnsupportedCapability),
        },
{
    match capabilities.modifier_observation {
        CapabilityState::Available => None,
        CapabilityState::Degraded => Some(PreparationFailure::DegradedCapabilityRejected),
        CapabilityState::Unavailable => Some(PreparationFailure::UnsupportedCapability),
    }
}

pub open spec fn spec_product_capabilities(keyboard: KeyboardCapabilities, paste: PasteCapabilities) -> ProductCapabilities {
    ProductCapabilities {
        keyboard: PlanCapabilities {
            unicode_text: keyboard.unicode_text,
            line_break: keyboard.line_break,
            tab: keyboard.tab,
            cursor_right: keyboard.cursor_right,
            modifier_observation: keyboard.modifier_observation,
        },
        clipboard_paste: paste.paste_chord,
        clipboard_revision_guard: paste.clipboard_revision_guard,
    }
}

/// The planning snapshot of the keyboard and paste adapters' capabilities.
pub fn product_capabilities(keyboard: KeyboardCapabilities, paste: PasteCapabilities) -> (r: ProductCapabilities)
    ensures
        r == spec_product_capabilities(keyboard, paste),
{
    ProductCapabilities {
        keyboard: PlanCapabilities {
            unicode_text: keyboard.unicode_text,
            line_break: keyboard.line_break,
            tab: keyboard.tab,
            cursor_right: keyboard.cursor_right,
            modifier_observation: keyboard.modifier_observation,
        },
        clipboard_paste: paste.paste_chord,
        clipboard_revision_guard: paste.clipboard_revision_guard,
    }
}

/// Whether the target is still the one captured at trigger time, from the
/// fresh capture (or why it failed) and its comparison with the original.
pub fn target_verdict(observed: Result<TargetComparison, TargetCaptureError>) -> (r: Result<(), TerminalOutcome>)
    ensures
        r == match observed {
            Err(TargetCaptureError::Disappeared) => Err(TerminalOutcome::TargetDisappeared),
            Err(_) => Err(TerminalOutcome::TargetEvidenceUnavailable),
            Ok(TargetComparison::Same) => Ok(()),
            Ok(TargetComparison::Changed) => Err(TerminalOutcome::TargetChanged),
            Ok(TargetComparison::Disappeared) => Err(TerminalOutcome::TargetDisappeared),
            Ok(TargetComparison::UnavailableOrAmbiguous) => Err(
                TerminalOutcome::TargetEvidenceUnavailable,
            ),
        },
{
    match observed {
        Err(TargetCaptureError::Disappeared) => Err(TerminalOutcome::TargetDisappeared),
        Err(TargetCaptureError::Unavailable) | Err(TargetCaptureError::Native(_)) => Err(
            TerminalOutcome::TargetEvidenceUnavailable,
        ),
        Ok(TargetComparison::Same) => Ok(()),
        Ok(TargetComparison::Changed) => Err(TerminalOutcome::TargetChanged),
        Ok(TargetComparison::Disappeared) => Err(TerminalOutcome::TargetDisappeared),
        Ok(TargetComparison::UnavailableOrAmbiguous) => Err(
            TerminalOutcome::TargetEvidenceUnavailable,
        ),
    }
}

/// Only a target that compares as the same one lets a session go on.
pub proof fn law_only_same_target_continues(observed: Result<TargetComparison, TargetCaptureError>)
    ensures
        (match observed {
            Err(TargetCaptureError::Disappeared) => Err(TerminalOutcome::TargetDisappeared),
            Err(_) => Err(TerminalOutcome::TargetEvidenceUnavailable),
            Ok(TargetComparison::Same) => Ok(()),
            Ok(TargetComparison::Changed) => Err(TerminalOutcome::TargetChanged),
            Ok(TargetComparison::Disappeared) => Err(TerminalOutcome::TargetDisappeared),
            Ok(TargetComparison::UnavailableOrAmbiguous) => Err(
                TerminalOutcome::TargetEvidenceUnavailable,
            ),
        } is Ok) <==> observed == Ok::<TargetComparison, TargetCaptureError>(TargetComparison::Same),
{
}

} // verus!
