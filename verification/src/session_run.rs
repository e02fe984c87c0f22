//! One injection session as a resumable machine. The machine makes every
//! decision of a session; whoever runs it performs each outside step it asks
//! for (a clipboard read, a target check, a timed sleep, a native dispatch)
//! and hands the result back as the next event.
use std::time::Duration;

use vstd::prelude::*;

use crate::duration::{duration_from_nanos, duration_nanos};
use crate::limits::{DispatchBatchLimit, NativeByteLimit};
use crate::outcome::{IntegrityRelation, PreparationFailure, TerminalOutcome};
use crate::platform::{
    ClipboardError, ClipboardRevision, ClipboardSnapshot, DispatchResult, KeyboardCapabilities,
    KeyboardError, ModifierObservation, PasteCapabilities, PasteError, TargetCaptureError,
    TargetComparison,
};
use crate::product::{
    build_injection_plan, injection_outcome, InjectionBackend, InjectionPlan, PlanOutline,
    ProductConfig,
};
use crate::code_plan::CodeAction;
use crate::outcome::CapabilityState;
use crate::sensitive::SensitiveText;
use crate::session::{
    dispatch_observation, jitter_nanos, jittered_delay, map_clipboard_error, map_keyboard_error,
    map_paste_error, map_product_plan_error, modifier_capability_failure, product_capabilities,
    spec_clipboard_error_is_retryable, spec_dispatch_observation, spec_map_clipboard_error,
    spec_map_product_plan_error, spec_map_keyboard_error, spec_map_paste_error,
    spec_product_capabilities, adjacent_typo, clipboard_error_is_retryable, draw_below,
    target_verdict, typo_outcome, SessionCompletion, TypingRandom,
};
use crate::state::{classify_dispatch, next_state, spec_classify_dispatch, transition, DispatchDecision, FlowEvent, FlowState};
use crate::text::TextAtom;

verus! {

/// Pause after each Code-mode action before the next one, in nanoseconds.
pub const CODE_ACTION_SETTLE_NANOS: u64 = 8_000_000;

/// Pause before a Code-mode cursor movement, in nanoseconds.
pub const CODE_NAVIGATION_SETTLE_NANOS: u64 = 40_000_000;

/// `Duration`'s division by a `u32`, in nanoseconds.
pub uninterp spec fn divided_nanos(nanos: u128, divisor: u32) -> u128;

/// `<Duration as Div<u32>>::div`: the duration divided into `divisor` equal
/// parts. What the quotient is in nanoseconds is left to `divided_nanos`;
/// division by zero, which panics, is excluded.
#[verifier::external_body]
fn divide_duration(d: Duration, divisor: u32) -> (r: Duration)
    requires
        divisor > 0,
    ensures
        duration_nanos(r) == divided_nanos(duration_nanos(d), divisor),
{
    d / divisor
}

/// One native keyboard action.
#[derive(Clone, Copy, PartialEq, Eq, Structural)]
pub enum KeyAction {
    Atom(TextAtom),
    Backspace,
    CursorRight,
    CursorRightToLineEnd,
}

/// An outside step the session asks for.
#[derive(Clone, Copy)]
pub enum SessionAction {
    /// Read the cancellation flag: `SessionEvent::Cancel`.
    CheckCancel,
    /// Ask the keyboard for its capabilities: `SessionEvent::Keyboard`.
    ReadKeyboardCapabilities,
    /// Observe the physical modifiers: `SessionEvent::Modifiers`.
    ObserveModifiers,
    /// Capture the target and compare it with the original: `SessionEvent::Target`.
    CompareTarget,
    /// Start a deadline this long from now: `SessionEvent::DeadlineSet`.
    StartDeadline(Duration),
    /// Whether the deadline has passed: `SessionEvent::Deadline`.
    CheckDeadline,
    /// Sleep, waking at least every `quantum` to look at the cancellation
    /// flag, and no longer than to the deadline when `until_deadline`:
    /// `SessionEvent::Slept`.
    Sleep { duration: Duration, quantum: Duration, until_deadline: bool },
    /// Read a clipboard snapshot within the limit: `SessionEvent::Clipboard`.
    ReadClipboard(NativeByteLimit),
    /// Ask the paste backend for its capabilities: `SessionEvent::Paste`.
    ReadPasteCapabilities,
    /// Ask for the original target's integrity relation: `SessionEvent::Integrity`.
    ReadIntegrity,
    /// Publish the backend and the injecting phase: `SessionEvent::Done`.
    Announce(InjectionBackend),
    /// Dispatch one keyboard action as a batch under the limit:
    /// `SessionEvent::Dispatched`, or `SessionEvent::BatchRefused` when the
    /// batch cannot be formed.
    Dispatch { action: KeyAction, limit: DispatchBatchLimit },
    /// Paste, guarded by the revision: `SessionEvent::Pasted`.
    Paste(ClipboardRevision),
    /// Count one accepted batch: `SessionEvent::Done`.
    CountBatch,
}

/// An outside step with its durations in nanoseconds.
#[derive(PartialEq, Eq)]
pub enum ActionView {
    CheckCancel,
    ReadKeyboardCapabilities,
    ObserveModifiers,
    CompareTarget,
    StartDeadline(u128),
    CheckDeadline,
    Sleep { nanos: u128, quantum: u128, until_deadline: bool },
    ReadClipboard(NativeByteLimit),
    ReadPasteCapabilities,
    ReadIntegrity,
    Announce(InjectionBackend),
    Dispatch { action: KeyAction, limit: DispatchBatchLimit },
    Paste(ClipboardRevision),
    CountBatch,
}

impl View for SessionAction {
    type V = ActionView;

    open spec fn view(&self) -> ActionView {
        match *self {
            SessionAction::CheckCancel => ActionView::CheckCancel,
            SessionAction::ReadKeyboardCapabilities => ActionView::ReadKeyboardCapabilities,
            SessionAction::ObserveModifiers => ActionView::ObserveModifiers,
            SessionAction::CompareTarget => ActionView::CompareTarget,
            SessionAction::StartDeadline(d) => ActionView::StartDeadline(duration_nanos(d)),
            SessionAction::CheckDeadline => ActionView::CheckDeadline,
            SessionAction::Sleep { duration, quantum, until_deadline } => ActionView::Sleep {
                nanos: duration_nanos(duration),
                quantum: duration_nanos(quantum),
                until_deadline,
            },
            SessionAction::ReadClipboard(limit) => ActionView::ReadClipboard(limit),
            SessionAction::ReadPasteCapabilities => ActionView::ReadPasteCapabilities,
            SessionAction::ReadIntegrity => ActionView::ReadIntegrity,
            SessionAction::Announce(b) => ActionView::Announce(b),
            SessionAction::Dispatch { action, limit } => ActionView::Dispatch { action, limit },
            SessionAction::Paste(r) => ActionView::Paste(r),
            SessionAction::CountBatch => ActionView::CountBatch,
        }
    }
}

/// The result of the step the session asked for.
pub enum SessionEvent {
    Cancel(bool),
    Keyboard(KeyboardCapabilities),
    Modifiers(ModifierObservation),
    Target(Result<TargetComparison, TargetCaptureError>),
    /// Whether the deadline could be represented.
    DeadlineSet(bool),
    /// Whether the deadline has passed.
    Deadline(bool),
    /// Whether cancellation interrupted the sleep.
    Slept(bool),
    Clipboard(Result<ClipboardSnapshot, ClipboardError>),
    Paste(PasteCapabilities),
    Integrity(IntegrityRelation),
    Dispatched(Result<DispatchResult, KeyboardError>),
    BatchRefused,
    Pasted(Result<DispatchResult, PasteError>),
    Done,
}

/// Which keyboard action of the current element is under way.
#[derive(Clone, Copy, PartialEq, Eq, Structural)]
pub enum KeyPart {
    /// The adjacent-key typo typed before the element.
    Typo(TextAtom),
    /// The backspace that removes the typo.
    Backspace,
    /// The element itself.
    Main,
}

/// Where a session stands: which event it waits for.
#[derive(Clone, Copy, PartialEq, Eq, Structural)]
pub enum RunStage {
    Begin,
    Capabilities,
    SettleStart,
    SettleCancel,
    SettleModifiers,
    SettleTarget,
    SettleClock,
    SettleSleep,
    ClipStart,
    ClipCancel,
    ClipRead,
    ClipTarget,
    ClipClock,
    ClipSleep,
    PasteCaps,
    PlanCancel,
    PlanIntegrity,
    Announce,
    PasteCancel,
    PasteTarget,
    PasteModifiers,
    PasteDispatch,
    NavSettle,
    KeyCancel,
    KeyTarget,
    KeyModifiers,
    KeyDelay,
    KeyDispatch,
    Accept(DispatchResult),
    Counting,
    AfterSettle,
}

/// Everything a session holds besides its random state, its planned actions
/// and the clipboard text awaiting a plan.
#[derive(Clone, Copy, PartialEq, Eq)]
pub struct RunCore {
    pub stage: RunStage,
    pub flow: FlowState,
    pub config: ProductConfig,
    pub keyboard: KeyboardCapabilities,
    pub revision: ClipboardRevision,
    pub backend: InjectionBackend,
    pub typos: bool,
    pub limit: DispatchBatchLimit,
    pub index: usize,
    pub part: KeyPart,
    pub second_check: bool,
    pub attempt: usize,
}

/// A session's whole state as mathematical values.
pub struct RunState {
    pub core: RunCore,
    pub random: u64,
    pub steps: Seq<CodeAction>,
    pub pending: Option<Seq<char>>,
}

/// A session in progress.
pub struct SessionRun {
    core: RunCore,
    random: TypingRandom,
    steps: Vec<CodeAction>,
    pending: Option<SensitiveText>,
}

impl View for SessionRun {
    type V = RunState;

    closed spec fn view(&self) -> RunState {
        RunState {
            core: self.core,
            random: self.random@,
            steps: self.steps@,
            pending: match self.pending {
                Some(t) => Some(t@),
                None => None,
            },
        }
    }
}

/// What a session does next, as mathematical values.
pub enum RunNext {
    Do(RunState, ActionView),
    Finish(SessionCompletion),
}

/// What a session does next: an outside step to perform before resuming, or
/// its end.
pub enum SessionStep {
    Do(SessionRun, SessionAction),
    Finish(SessionCompletion),
}

impl View for SessionStep {
    type V = RunNext;

    open spec fn view(&self) -> RunNext {
        match self {
            SessionStep::Do(run, action) => RunNext::Do(run@, action@),
            SessionStep::Finish(c) => RunNext::Finish(*c),
        }
    }
}


// ---------------------------------------------------------------------------
// The transition, as mathematical values.
// ---------------------------------------------------------------------------

pub open spec fn prep_fail(f: PreparationFailure) -> RunNext {
    RunNext::Finish(SessionCompletion::PreparationFailed(f))
}

pub open spec fn stop(o: TerminalOutcome) -> RunNext {
    RunNext::Finish(SessionCompletion::Finished(o))
}

/// An event that does not answer the step asked for.
pub open spec fn mismatch() -> RunNext {
    stop(TerminalOutcome::InternalInvariant)
}

pub open spec fn with_core(s: RunState, core: RunCore) -> RunState {
    RunState { core, ..s }
}

/// Ask for `a` and wait for its answer at `stage`.
pub open spec fn ask(s: RunState, stage: RunStage, a: ActionView) -> RunNext {
    RunNext::Do(with_core(s, RunCore { stage, ..s.core }), a)
}

/// Move the session's flow by `e` and ask for `a`; a flow that refuses the
/// event is an internal fault.
pub open spec fn advanced(s: RunState, e: FlowEvent, stage: RunStage, a: ActionView) -> RunNext {
    match next_state(s.core.flow, e) {
        Some(f) => RunNext::Do(with_core(s, RunCore { stage, flow: f, ..s.core }), a),
        None => stop(TerminalOutcome::InternalInvariant),
    }
}

pub open spec fn poll_nanos(s: RunState) -> u128 {
    duration_nanos(s.core.config.safety.modifier_poll_interval)
}

pub open spec fn sleep(nanos: u128, quantum: u128, until_deadline: bool) -> ActionView {
    ActionView::Sleep { nanos, quantum, until_deadline }
}

/// How a target comparison ends the session, if it does.
pub open spec fn target_stop(observed: Result<TargetComparison, TargetCaptureError>) -> Option<TerminalOutcome> {
    match observed {
        Err(TargetCaptureError::Disappeared) => Some(TerminalOutcome::TargetDisappeared),
        Err(_) => Some(TerminalOutcome::TargetEvidenceUnavailable),
        Ok(TargetComparison::Same) => None,
        Ok(TargetComparison::Changed) => Some(TerminalOutcome::TargetChanged),
        Ok(TargetComparison::Disappeared) => Some(TerminalOutcome::TargetDisappeared),
        Ok(TargetComparison::UnavailableOrAmbiguous) => Some(TerminalOutcome::TargetEvidenceUnavailable),
    }
}

/// Ask for `a` at `stage` when the target is unchanged; stop otherwise.
pub open spec fn after_target(
    s: RunState,
    observed: Result<TargetComparison, TargetCaptureError>,
    stage: RunStage,
    a: ActionView,
) -> RunNext {
    match target_stop(observed) {
        Some(o) => stop(o),
        None => ask(s, stage, a),
    }
}

pub open spec fn attempts(s: RunState) -> usize {
    s.core.config.safety.clipboard_retry.attempts.spec_get()
}

/// The pause between clipboard attempts: the retry window split evenly.
pub open spec fn retry_pause_nanos(s: RunState) -> u128 {
    let n = attempts(s);
    divided_nanos(
        duration_nanos(s.core.config.safety.clipboard_retry.total_window),
        if n > u32::MAX { u32::MAX } else { n as u32 },
    )
}

/// The session once its plan is made: the actions it will dispatch, one
/// element at a time, and the backend it uses.
pub open spec fn planned(s: RunState, outline: PlanOutline) -> RunState {
    match outline {
        PlanOutline::Keyboard { atoms, config, .. } => RunState {
            core: RunCore {
                backend: InjectionBackend::Keyboard,
                typos: true,
                limit: config.dispatch_batch_limit,
                ..s.core
            },
            steps: atoms.map_values(|a: TextAtom| CodeAction::Atom(a)),
            pending: None,
            ..s
        },
        PlanOutline::Code { actions, config, .. } => RunState {
            core: RunCore {
                backend: InjectionBackend::Code,
                typos: false,
                limit: config.dispatch_batch_limit,
                ..s.core
            },
            steps: actions,
            pending: None,
            ..s
        },
        PlanOutline::Clipboard { .. } => RunState {
            core: RunCore { backend: InjectionBackend::Clipboard, typos: false, ..s.core },
            steps: Seq::empty(),
            pending: None,
            ..s
        },
    }
}

pub open spec fn is_navigation(a: CodeAction) -> bool {
    a is CursorRight || a is CursorRightToLineEnd
}

/// Start the checks before one keyboard action of the current element.
pub open spec fn key_start(s: RunState) -> RunNext {
    RunNext::Do(
        with_core(s, RunCore { stage: RunStage::KeyCancel, second_check: false, ..s.core }),
        ActionView::CheckCancel,
    )
}

/// All elements were dispatched: the flow completes.
pub open spec fn complete(s: RunState) -> RunNext {
    match next_state(s.core.flow, FlowEvent::AllBatchesComplete) {
        Some(_) => stop(TerminalOutcome::Completed),
        None => stop(TerminalOutcome::InternalInvariant),
    }
}

/// Start element `i`: a keyboard element may first get an adjacent-key
/// typo; a Code-mode cursor movement first lets the editor settle.
pub open spec fn element_start(s: RunState, i: int) -> RunNext {
    if i >= s.steps.len() {
        complete(s)
    } else if s.core.typos && s.steps[i] is Atom {
        let (typo, next) = typo_outcome(s.steps[i]->Atom_0, s.core.config.typo_probability_percent, s.random);
        key_start(
            RunState {
                core: RunCore {
                    index: i as usize,
                    part: match typo {
                        Some(w) => KeyPart::Typo(w),
                        None => KeyPart::Main,
                    },
                    ..s.core
                },
                random: next,
                ..s
            },
        )
    } else if !s.core.typos && is_navigation(s.steps[i]) {
        RunNext::Do(
            with_core(s, RunCore { stage: RunStage::NavSettle, index: i as usize, part: KeyPart::Main, ..s.core }),
            sleep(CODE_NAVIGATION_SETTLE_NANOS as u128, poll_nanos(s), false),
        )
    } else {
        key_start(with_core(s, RunCore { index: i as usize, part: KeyPart::Main, ..s.core }))
    }
}

/// The keyboard action the current part of the current element stands for.
pub open spec fn key_action(s: RunState) -> KeyAction {
    match s.core.part {
        KeyPart::Typo(w) => KeyAction::Atom(w),
        KeyPart::Backspace => KeyAction::Backspace,
        KeyPart::Main => match s.steps[s.core.index as int] {
            CodeAction::Atom(a) => KeyAction::Atom(a),
            CodeAction::CursorRight => KeyAction::CursorRight,
            CodeAction::CursorRightToLineEnd => KeyAction::CursorRightToLineEnd,
        },
    }
}

/// After one keyboard action was accepted: the backspace after a typo, the
/// element after its backspace, and after an element the next one, with a
/// settle pause between Code-mode actions.
pub open spec fn after_key(s: RunState) -> RunNext {
    match s.core.part {
        KeyPart::Typo(_) => key_start(with_core(s, RunCore { part: KeyPart::Backspace, ..s.core })),
        KeyPart::Backspace => key_start(with_core(s, RunCore { part: KeyPart::Main, ..s.core })),
        KeyPart::Main => if !s.core.typos && s.core.index + 1 < s.steps.len() {
            ask(s, RunStage::AfterSettle, sleep(CODE_ACTION_SETTLE_NANOS as u128, poll_nanos(s), false))
        } else {
            element_start(s, s.core.index + 1)
        },
    }
}

/// The humanized delay before a keyboard action, with the random state after it.
pub open spec fn key_delay(s: RunState) -> (u128, u64) {
    let base = s.core.config.safety.keyboard_interval;
    let jitter = s.core.config.jitter_percent;
    if jitter == 0 || duration_nanos(base) == 0 {
        (duration_nanos(base), s.random)
    } else {
        let (draw, next) = draw_below(s.random, (2 * jitter + 1) as u64);
        (jitter_nanos(duration_nanos(base), jitter, draw) as u128, next)
    }
}

/// The next step of a session after `e` answered the step it asked for.
pub open spec fn run_next(s: RunState, e: SessionEvent) -> RunNext {
    let poll = poll_nanos(s);
    match s.core.stage {
        RunStage::Begin => match e {
            SessionEvent::Cancel(true) => prep_fail(PreparationFailure::Cancelled),
            SessionEvent::Cancel(false) => ask(s, RunStage::Capabilities, ActionView::ReadKeyboardCapabilities),
            _ => mismatch(),
        },
        RunStage::Capabilities => match e {
            SessionEvent::Keyboard(k) => match k.modifier_observation {
                CapabilityState::Available => RunNext::Do(
                    with_core(s, RunCore { stage: RunStage::SettleStart, keyboard: k, ..s.core }),
                    ActionView::StartDeadline(duration_nanos(s.core.config.safety.modifier_settle_timeout)),
                ),
                CapabilityState::Degraded => prep_fail(PreparationFailure::DegradedCapabilityRejected),
                CapabilityState::Unavailable => prep_fail(PreparationFailure::UnsupportedCapability),
            },
            _ => mismatch(),
        },
        RunStage::SettleStart => match e {
            SessionEvent::DeadlineSet(true) => ask(s, RunStage::SettleCancel, ActionView::CheckCancel),
            SessionEvent::DeadlineSet(false) => prep_fail(PreparationFailure::InternalInvariant),
            _ => mismatch(),
        },
        RunStage::SettleCancel => match e {
            SessionEvent::Cancel(true) => prep_fail(PreparationFailure::Cancelled),
            SessionEvent::Cancel(false) => ask(s, RunStage::SettleModifiers, ActionView::ObserveModifiers),
            _ => mismatch(),
        },
        RunStage::SettleModifiers => match e {
            SessionEvent::Modifiers(ModifierObservation::Clear) => advanced(
                s,
                FlowEvent::ModifiersSettled,
                RunStage::ClipStart,
                ActionView::StartDeadline(duration_nanos(s.core.config.safety.clipboard_retry.total_window)),
            ),
            SessionEvent::Modifiers(_) => ask(s, RunStage::SettleTarget, ActionView::CompareTarget),
            _ => mismatch(),
        },
        RunStage::SettleTarget => match e {
            SessionEvent::Target(observed) => after_target(s, observed, RunStage::SettleClock, ActionView::CheckDeadline),
            _ => mismatch(),
        },
        RunStage::SettleClock => match e {
            SessionEvent::Deadline(true) => prep_fail(PreparationFailure::ModifierSettleTimeout),
            SessionEvent::Deadline(false) => ask(s, RunStage::SettleSleep, sleep(poll, poll, true)),
            _ => mismatch(),
        },
        RunStage::SettleSleep => match e {
            SessionEvent::Slept(true) => prep_fail(PreparationFailure::Cancelled),
            SessionEvent::Slept(false) => ask(s, RunStage::SettleCancel, ActionView::CheckCancel),
            _ => mismatch(),
        },
        RunStage::ClipStart => match e {
            SessionEvent::DeadlineSet(true) => if attempts(s) == 0 {
                prep_fail(PreparationFailure::ClipboardUnavailable)
            } else {
                RunNext::Do(
                    with_core(s, RunCore { stage: RunStage::ClipCancel, attempt: 0, ..s.core }),
                    ActionView::CheckCancel,
                )
            },
            SessionEvent::DeadlineSet(false) => prep_fail(PreparationFailure::InternalInvariant),
            _ => mismatch(),
        },
        RunStage::ClipCancel => match e {
            SessionEvent::Cancel(true) => prep_fail(PreparationFailure::Cancelled),
            SessionEvent::Cancel(false) => ask(
                s,
                RunStage::ClipRead,
                ActionView::ReadClipboard(s.core.config.safety.native_clipboard_limit),
            ),
            _ => mismatch(),
        },
        RunStage::ClipRead => match e {
            SessionEvent::Clipboard(Ok(snapshot)) => match next_state(s.core.flow, FlowEvent::ClipboardAcquired) {
                Some(f) => RunNext::Do(
                    RunState {
                        core: RunCore {
                            stage: RunStage::PasteCaps,
                            flow: f,
                            revision: snapshot.spec_revision(),
                            ..s.core
                        },
                        pending: Some(snapshot.spec_text()),
                        ..s
                    },
                    ActionView::ReadPasteCapabilities,
                ),
                None => stop(TerminalOutcome::InternalInvariant),
            },
            SessionEvent::Clipboard(Err(error)) => if spec_clipboard_error_is_retryable(error)
                && s.core.attempt + 1 < attempts(s) {
                ask(s, RunStage::ClipTarget, ActionView::CompareTarget)
            } else {
                prep_fail(spec_map_clipboard_error(error))
            },
            _ => mismatch(),
        },
        RunStage::ClipTarget => match e {
            SessionEvent::Target(observed) => after_target(s, observed, RunStage::ClipClock, ActionView::CheckDeadline),
            _ => mismatch(),
        },
        RunStage::ClipClock => match e {
            SessionEvent::Deadline(true) => prep_fail(PreparationFailure::ClipboardUnavailable),
            SessionEvent::Deadline(false) => ask(s, RunStage::ClipSleep, sleep(retry_pause_nanos(s), poll, true)),
            _ => mismatch(),
        },
        RunStage::ClipSleep => match e {
            SessionEvent::Slept(true) => prep_fail(PreparationFailure::Cancelled),
            SessionEvent::Slept(false) => RunNext::Do(
                with_core(s, RunCore { stage: RunStage::ClipCancel, attempt: (s.core.attempt + 1) as usize, ..s.core }),
                ActionView::CheckCancel,
            ),
            _ => mismatch(),
        },
        RunStage::PasteCaps => match (e, s.pending) {
            (SessionEvent::Paste(paste), Some(text)) => match session_plan(
                text,
                s.core.revision.spec_is_known(),
                s.core.config,
                spec_product_capabilities(s.core.keyboard, paste),
            ) {
                Ok(outline) => ask(planned(s, outline), RunStage::PlanCancel, ActionView::CheckCancel),
                Err(error) => prep_fail(spec_map_product_plan_error(error)),
            },
            _ => mismatch(),
        },
        RunStage::PlanCancel => match e {
            SessionEvent::Cancel(true) => prep_fail(PreparationFailure::Cancelled),
            SessionEvent::Cancel(false) => ask(s, RunStage::PlanIntegrity, ActionView::ReadIntegrity),
            _ => mismatch(),
        },
        RunStage::PlanIntegrity => match e {
            SessionEvent::Integrity(IntegrityRelation::KnownRestricted) => prep_fail(
                PreparationFailure::KnownSecurityRestriction,
            ),
            SessionEvent::Integrity(_) => advanced(
                s,
                FlowEvent::PlanReady,
                RunStage::Announce,
                ActionView::Announce(s.core.backend),
            ),
            _ => mismatch(),
        },
        RunStage::Announce => match e {
            SessionEvent::Done => if s.core.backend == InjectionBackend::Clipboard {
                ask(s, RunStage::PasteCancel, ActionView::CheckCancel)
            } else {
                element_start(s, 0)
            },
            _ => mismatch(),
        },
        RunStage::PasteCancel => match e {
            SessionEvent::Cancel(true) => stop(TerminalOutcome::Cancelled),
            SessionEvent::Cancel(false) => ask(s, RunStage::PasteTarget, ActionView::CompareTarget),
            _ => mismatch(),
        },
        RunStage::PasteTarget => match e {
            SessionEvent::Target(observed) => after_target(s, observed, RunStage::PasteModifiers, ActionView::ObserveModifiers),
            _ => mismatch(),
        },
        RunStage::PasteModifiers => match e {
            SessionEvent::Modifiers(ModifierObservation::Clear) => ask(
                s,
                RunStage::PasteDispatch,
                ActionView::Paste(s.core.revision),
            ),
            SessionEvent::Modifiers(_) => stop(TerminalOutcome::ModifierConflict),
            _ => mismatch(),
        },
        RunStage::PasteDispatch => match e {
            SessionEvent::Pasted(Ok(result)) => ask(s, RunStage::Accept(result), ActionView::ReadIntegrity),
            SessionEvent::Pasted(Err(error)) => stop(spec_map_paste_error(error)),
            _ => mismatch(),
        },
        RunStage::NavSettle => match e {
            SessionEvent::Slept(true) => stop(TerminalOutcome::Cancelled),
            SessionEvent::Slept(false) => key_start(s),
            _ => mismatch(),
        },
        RunStage::KeyCancel => match e {
            SessionEvent::Cancel(true) => stop(TerminalOutcome::Cancelled),
            SessionEvent::Cancel(false) => ask(s, RunStage::KeyTarget, ActionView::CompareTarget),
            _ => mismatch(),
        },
        RunStage::KeyTarget => match e {
            SessionEvent::Target(observed) => after_target(s, observed, RunStage::KeyModifiers, ActionView::ObserveModifiers),
            _ => mismatch(),
        },
        RunStage::KeyModifiers => match e {
            SessionEvent::Modifiers(ModifierObservation::Clear) => if s.core.second_check {
                ask(s, RunStage::KeyDispatch, ActionView::Dispatch { action: key_action(s), limit: s.core.limit })
            } else {
                let (nanos, next) = key_delay(s);
                RunNext::Do(
                    RunState { core: RunCore { stage: RunStage::KeyDelay, ..s.core }, random: next, ..s },
                    sleep(nanos, poll, false),
                )
            },
            SessionEvent::Modifiers(_) => stop(TerminalOutcome::ModifierConflict),
            _ => mismatch(),
        },
        RunStage::KeyDelay => match e {
            SessionEvent::Slept(true) => stop(TerminalOutcome::Cancelled),
            SessionEvent::Slept(false) => RunNext::Do(
                with_core(s, RunCore { stage: RunStage::KeyCancel, second_check: true, ..s.core }),
                ActionView::CheckCancel,
            ),
            _ => mismatch(),
        },
        RunStage::KeyDispatch => match e {
            SessionEvent::Dispatched(Ok(result)) => ask(s, RunStage::Accept(result), ActionView::ReadIntegrity),
            SessionEvent::Dispatched(Err(error)) => stop(spec_map_keyboard_error(error)),
            SessionEvent::BatchRefused => stop(TerminalOutcome::InternalInvariant),
            _ => mismatch(),
        },
        RunStage::Accept(result) => match e {
            SessionEvent::Integrity(relation) => match spec_classify_dispatch(
                spec_dispatch_observation(result, relation),
            ) {
                DispatchDecision::Continue => advanced(
                    s,
                    FlowEvent::BatchAccepted,
                    RunStage::Counting,
                    ActionView::CountBatch,
                ),
                DispatchDecision::Stop(o) => stop(o),
            },
            _ => mismatch(),
        },
        RunStage::Counting => match e {
            SessionEvent::Done => if s.core.backend == InjectionBackend::Clipboard {
                complete(s)
            } else {
                after_key(s)
            },
            _ => mismatch(),
        },
        RunStage::AfterSettle => match e {
            SessionEvent::Slept(true) => stop(TerminalOutcome::Cancelled),
            SessionEvent::Slept(false) => element_start(s, s.core.index + 1),
            _ => mismatch(),
        },
    }
}


// ---------------------------------------------------------------------------
// The machine.
// ---------------------------------------------------------------------------

/// Stages that work on the current element of a keyboard or Code plan.
pub open spec fn needs_element(core: RunCore) -> bool {
    match core.stage {
        RunStage::NavSettle | RunStage::KeyCancel | RunStage::KeyTarget | RunStage::KeyModifiers
        | RunStage::KeyDelay | RunStage::KeyDispatch | RunStage::AfterSettle => true,
        RunStage::Accept(_) | RunStage::Counting => core.backend != InjectionBackend::Clipboard,
        _ => false,
    }
}

/// A session that works on an element has one and types it, a paste belongs
/// to a clipboard session, and a clipboard attempt
/// under way is within the attempt budget, with room for one more while a
/// retry is prepared.
pub open spec fn run_ok(s: RunState) -> bool {
    &&& needs_element(s.core) ==> s.core.index < s.steps.len()
    &&& needs_element(s.core) ==> s.core.backend != InjectionBackend::Clipboard
    &&& (s.core.stage is PasteCancel || s.core.stage is PasteTarget || s.core.stage is PasteModifiers
        || s.core.stage is PasteDispatch) ==> s.core.backend == InjectionBackend::Clipboard
    &&& s.core.stage is AfterSettle ==> s.core.index + 1 < s.steps.len()
    &&& (s.core.stage is ClipCancel || s.core.stage is ClipRead) ==> s.core.attempt < attempts(s)
    &&& (s.core.stage is ClipTarget || s.core.stage is ClipClock || s.core.stage is ClipSleep) ==> s.core.attempt
        + 1 < attempts(s)
}

/// A session as it starts, right after its target was captured.
pub open spec fn initial_run(config: ProductConfig, flow: FlowState, seed: u64) -> RunState {
    RunState {
        core: RunCore {
            stage: RunStage::Begin,
            flow,
            config,
            keyboard: KeyboardCapabilities {
                unicode_text: CapabilityState::Unavailable,
                line_break: CapabilityState::Unavailable,
                tab: CapabilityState::Unavailable,
                cursor_right: CapabilityState::Unavailable,
                modifier_observation: CapabilityState::Unavailable,
            },
            revision: ClipboardRevision::Unavailable,
            backend: InjectionBackend::Keyboard,
            typos: false,
            limit: config.safety.dispatch_batch_limit,
            index: 0,
            part: KeyPart::Main,
            second_check: false,
            attempt: 0,
        },
        random: crate::session::typing_seed(seed),
        steps: Seq::empty(),
        pending: None,
    }
}

fn prep_step(f: PreparationFailure) -> (r: SessionStep)
    ensures
        r@ == prep_fail(f),
{
    SessionStep::Finish(SessionCompletion::PreparationFailed(f))
}

fn stop_step(o: TerminalOutcome) -> (r: SessionStep)
    ensures
        r@ == stop(o),
{
    SessionStep::Finish(SessionCompletion::Finished(o))
}

fn target_check(observed: Result<TargetComparison, TargetCaptureError>) -> (r: Option<TerminalOutcome>)
    ensures
        r == target_stop(observed),
{
    match target_verdict(observed) {
        Ok(()) => None,
        Err(o) => Some(o),
    }
}

fn sleep_action(nanos: u64, quantum: Duration, until_deadline: bool) -> (r: SessionAction)
    ensures
        r@ == sleep(nanos as u128, duration_nanos(quantum), until_deadline),
{
    SessionAction::Sleep { duration: duration_from_nanos(nanos), quantum, until_deadline }
}

impl SessionRun {
    #[verifier::type_invariant]
    spec fn well_formed(self) -> bool {
        run_ok(self@)
    }

    /// Starts a session whose target was captured, with the configuration
    /// snapshot and a seed for its humanized timing.
    pub fn start(config: ProductConfig, flow: FlowState, seed: u64) -> (r: SessionStep)
        ensures
            r@ == RunNext::Do(initial_run(config, flow, seed), ActionView::CheckCancel),
    {
        let run = SessionRun {
            core: RunCore {
                stage: RunStage::Begin,
                flow,
                config,
                keyboard: KeyboardCapabilities {
                    unicode_text: CapabilityState::Unavailable,
                    line_break: CapabilityState::Unavailable,
                    tab: CapabilityState::Unavailable,
                    cursor_right: CapabilityState::Unavailable,
                    modifier_observation: CapabilityState::Unavailable,
                },
                revision: ClipboardRevision::Unavailable,
                backend: InjectionBackend::Keyboard,
                typos: false,
                limit: config.safety.dispatch_batch_limit,
                index: 0,
                part: KeyPart::Main,
                second_check: false,
                attempt: 0,
            },
            random: TypingRandom::new(seed),
            steps: Vec::new(),
            pending: None,
        };
        SessionStep::Do(run, SessionAction::CheckCancel)
    }

    fn with_stage(self, core: RunCore, action: SessionAction) -> (r: SessionStep)
        requires
            run_ok(with_core(self@, core)),
        ensures
            r@ == RunNext::Do(with_core(self@, core), action@),
    {
        let SessionRun { core: _, random, steps, pending } = self;
        SessionStep::Do(SessionRun { core, random, steps, pending }, action)
    }

    fn then_ask(self, stage: RunStage, action: SessionAction) -> (r: SessionStep)
        requires
            run_ok(with_core(self@, RunCore { stage, ..self@.core })),
        ensures
            r@ == ask(self@, stage, action@),
    {
        let core = RunCore { stage, ..self.core };
        self.with_stage(core, action)
    }

    fn then_advance(self, e: FlowEvent, stage: RunStage, action: SessionAction) -> (r: SessionStep)
        requires
            run_ok(with_core(self@, RunCore { stage, ..self@.core })),
        ensures
            r@ == advanced(self@, e, stage, action@),
    {
        match transition(self.core.flow, e) {
            Ok(f) => {
                let core = RunCore { stage, flow: f, ..self.core };
                self.with_stage(core, action)
            },
            Err(_) => stop_step(TerminalOutcome::InternalInvariant),
        }
    }

    fn key_start_step(self) -> (r: SessionStep)
        requires
            self@.core.index < self@.steps.len(),
            self@.core.backend != InjectionBackend::Clipboard,
        ensures
            r@ == key_start(self@),
    {
        let core = RunCore { stage: RunStage::KeyCancel, second_check: false, ..self.core };
        self.with_stage(core, SessionAction::CheckCancel)
    }

    fn complete_step(self) -> (r: SessionStep)
        ensures
            r@ == complete(self@),
    {
        match transition(self.core.flow, FlowEvent::AllBatchesComplete) {
            Ok(_) => stop_step(TerminalOutcome::Completed),
            Err(_) => stop_step(TerminalOutcome::InternalInvariant),
        }
    }

    fn element_start_step(self, i: usize) -> (r: SessionStep)
        requires
            self@.core.backend != InjectionBackend::Clipboard,
        ensures
            r@ == element_start(self@, i as int),
    {
        proof {
            use_type_invariant(&self);
        }
        if i >= self.steps.len() {
            return self.complete_step();
        }
        let step = self.steps[i];
        if self.core.typos {
            if let CodeAction::Atom(atom) = step {
                let SessionRun { core, mut random, steps, pending } = self;
                let typo = adjacent_typo(atom, core.config.typo_probability_percent, &mut random);
                let part = match typo {
                    Some(w) => KeyPart::Typo(w),
                    None => KeyPart::Main,
                };
                let run = SessionRun {
                    core: RunCore { stage: RunStage::KeyCancel, second_check: false, index: i, part, ..core },
                    random,
                    steps,
                    pending,
                };
                return SessionStep::Do(run, SessionAction::CheckCancel);
            }
        }
        let navigation = match step {
            CodeAction::CursorRight | CodeAction::CursorRightToLineEnd => true,
            CodeAction::Atom(_) => false,
        };
        if !self.core.typos && navigation {
            let quantum = self.core.config.safety.modifier_poll_interval;
            let core = RunCore { stage: RunStage::NavSettle, index: i, part: KeyPart::Main, ..self.core };
            self.with_stage(core, sleep_action(CODE_NAVIGATION_SETTLE_NANOS, quantum, false))
        } else {
            let core = RunCore {
                stage: RunStage::KeyCancel,
                second_check: false,
                index: i,
                part: KeyPart::Main,
                ..self.core
            };
            self.with_stage(core, SessionAction::CheckCancel)
        }
    }
}


impl SessionRun {
    fn after_key_step(self) -> (r: SessionStep)
        requires
            self@.core.index < self@.steps.len(),
            self@.core.backend != InjectionBackend::Clipboard,
        ensures
            r@ == after_key(self@),
    {
        match self.core.part {
            KeyPart::Typo(_) => {
                let core = RunCore {
                    stage: RunStage::KeyCancel,
                    second_check: false,
                    part: KeyPart::Backspace,
                    ..self.core
                };
                self.with_stage(core, SessionAction::CheckCancel)
            },
            KeyPart::Backspace => {
                let core = RunCore { stage: RunStage::KeyCancel, second_check: false, part: KeyPart::Main, ..self.core };
                self.with_stage(core, SessionAction::CheckCancel)
            },
            KeyPart::Main => {
                let n = self.steps.len();
                if !self.core.typos && self.core.index + 1 < n {
                    let quantum = self.core.config.safety.modifier_poll_interval;
                    self.then_ask(RunStage::AfterSettle, sleep_action(CODE_ACTION_SETTLE_NANOS, quantum, false))
                } else {
                    let next = self.core.index + 1;
                    self.element_start_step(next)
                }
            },
        }
    }

    fn key_action(&self) -> (r: KeyAction)
        requires
            self@.core.index < self@.steps.len(),
        ensures
            r == key_action(self@),
    {
        match self.core.part {
            KeyPart::Typo(w) => KeyAction::Atom(w),
            KeyPart::Backspace => KeyAction::Backspace,
            KeyPart::Main => match self.steps[self.core.index] {
                CodeAction::Atom(a) => KeyAction::Atom(a),
                CodeAction::CursorRight => KeyAction::CursorRight,
                CodeAction::CursorRightToLineEnd => KeyAction::CursorRightToLineEnd,
            },
        }
    }

    /// Continues the session with the answer to the step it asked for.
    pub fn resume(self, event: SessionEvent) -> (r: SessionStep)
        ensures
            r@ == run_next(self@, event),
    {
        proof {
            use_type_invariant(&self);
        }
        match self.core.stage {
            RunStage::Begin | RunStage::Capabilities | RunStage::SettleStart | RunStage::SettleCancel
            | RunStage::SettleModifiers | RunStage::SettleTarget | RunStage::SettleClock
            | RunStage::SettleSleep => self.resume_settle(event),
            RunStage::ClipStart | RunStage::ClipCancel | RunStage::ClipRead | RunStage::ClipTarget
            | RunStage::ClipClock | RunStage::ClipSleep => self.resume_clipboard(event),
            RunStage::PasteCaps | RunStage::PlanCancel | RunStage::PlanIntegrity | RunStage::Announce
            | RunStage::PasteCancel | RunStage::PasteTarget | RunStage::PasteModifiers
            | RunStage::PasteDispatch => self.resume_plan(event),
            _ => self.resume_keys(event),
        }
    }

    fn resume_settle(self, event: SessionEvent) -> (r: SessionStep)
        requires
            run_ok(self@),
            self@.core.stage is Begin || self@.core.stage is Capabilities || self@.core.stage is SettleStart
                || self@.core.stage is SettleCancel || self@.core.stage is SettleModifiers
                || self@.core.stage is SettleTarget || self@.core.stage is SettleClock
                || self@.core.stage is SettleSleep,
        ensures
            r@ == run_next(self@, event),
    {
        let quantum = self.core.config.safety.modifier_poll_interval;
        match (self.core.stage, event) {
            (RunStage::Begin, SessionEvent::Cancel(true)) => prep_step(PreparationFailure::Cancelled),
            (RunStage::Begin, SessionEvent::Cancel(false)) => self.then_ask(
                RunStage::Capabilities,
                SessionAction::ReadKeyboardCapabilities,
            ),
            (RunStage::Capabilities, SessionEvent::Keyboard(k)) => match modifier_capability_failure(k) {
                Some(f) => prep_step(f),
                None => {
                    let timeout = self.core.config.safety.modifier_settle_timeout;
                    let core = RunCore { stage: RunStage::SettleStart, keyboard: k, ..self.core };
                    self.with_stage(core, SessionAction::StartDeadline(timeout))
                },
            },
            (RunStage::SettleStart, SessionEvent::DeadlineSet(true)) => self.then_ask(
                RunStage::SettleCancel,
                SessionAction::CheckCancel,
            ),
            (RunStage::SettleStart, SessionEvent::DeadlineSet(false)) => prep_step(
                PreparationFailure::InternalInvariant,
            ),
            (RunStage::SettleCancel, SessionEvent::Cancel(true)) => prep_step(PreparationFailure::Cancelled),
            (RunStage::SettleCancel, SessionEvent::Cancel(false)) => self.then_ask(
                RunStage::SettleModifiers,
                SessionAction::ObserveModifiers,
            ),
            (RunStage::SettleModifiers, SessionEvent::Modifiers(observation)) => match observation {
                ModifierObservation::Clear => {
                    let window = self.core.config.safety.clipboard_retry.total_window;
                    self.then_advance(
                        FlowEvent::ModifiersSettled,
                        RunStage::ClipStart,
                        SessionAction::StartDeadline(window),
                    )
                },
                _ => self.then_ask(RunStage::SettleTarget, SessionAction::CompareTarget),
            },
            (RunStage::SettleTarget, SessionEvent::Target(observed)) => match target_check(observed) {
                Some(o) => stop_step(o),
                None => self.then_ask(RunStage::SettleClock, SessionAction::CheckDeadline),
            },
            (RunStage::SettleClock, SessionEvent::Deadline(true)) => prep_step(
                PreparationFailure::ModifierSettleTimeout,
            ),
            (RunStage::SettleClock, SessionEvent::Deadline(false)) => self.then_ask(
                RunStage::SettleSleep,
                SessionAction::Sleep { duration: quantum, quantum, until_deadline: true },
            ),
            (RunStage::SettleSleep, SessionEvent::Slept(true)) => prep_step(PreparationFailure::Cancelled),
            (RunStage::SettleSleep, SessionEvent::Slept(false)) => self.then_ask(
                RunStage::SettleCancel,
                SessionAction::CheckCancel,
            ),
            _ => stop_step(TerminalOutcome::InternalInvariant),
        }
    }
}


impl SessionRun {
    fn resume_clipboard(self, event: SessionEvent) -> (r: SessionStep)
        requires
            run_ok(self@),
            self@.core.stage is ClipStart || self@.core.stage is ClipCancel || self@.core.stage is ClipRead
                || self@.core.stage is ClipTarget || self@.core.stage is ClipClock
                || self@.core.stage is ClipSleep,
        ensures
            r@ == run_next(self@, event),
    {
        let quantum = self.core.config.safety.modifier_poll_interval;
        let attempts = self.core.config.safety.clipboard_retry.attempts.get();
        match (self.core.stage, event) {
            (RunStage::ClipStart, SessionEvent::DeadlineSet(true)) => if attempts == 0 {
                prep_step(PreparationFailure::ClipboardUnavailable)
            } else {
                let core = RunCore { stage: RunStage::ClipCancel, attempt: 0, ..self.core };
                self.with_stage(core, SessionAction::CheckCancel)
            },
            (RunStage::ClipStart, SessionEvent::DeadlineSet(false)) => prep_step(
                PreparationFailure::InternalInvariant,
            ),
            (RunStage::ClipCancel, SessionEvent::Cancel(true)) => prep_step(PreparationFailure::Cancelled),
            (RunStage::ClipCancel, SessionEvent::Cancel(false)) => {
                let limit = self.core.config.safety.native_clipboard_limit;
                self.then_ask(RunStage::ClipRead, SessionAction::ReadClipboard(limit))
            },
            (RunStage::ClipRead, SessionEvent::Clipboard(Ok(snapshot))) => {
                match transition(self.core.flow, FlowEvent::ClipboardAcquired) {
                    Ok(f) => {
                        let (text, revision) = snapshot.into_parts();
                        let SessionRun { core, random, steps, pending: _ } = self;
                        let run = SessionRun {
                            core: RunCore { stage: RunStage::PasteCaps, flow: f, revision, ..core },
                            random,
                            steps,
                            pending: Some(text),
                        };
                        SessionStep::Do(run, SessionAction::ReadPasteCapabilities)
                    },
                    Err(_) => stop_step(TerminalOutcome::InternalInvariant),
                }
            },
            (RunStage::ClipRead, SessionEvent::Clipboard(Err(error))) => {
                if clipboard_error_is_retryable(error) && self.core.attempt + 1 < attempts {
                    self.then_ask(RunStage::ClipTarget, SessionAction::CompareTarget)
                } else {
                    prep_step(map_clipboard_error(error))
                }
            },
            (RunStage::ClipTarget, SessionEvent::Target(observed)) => match target_check(observed) {
                Some(o) => stop_step(o),
                None => self.then_ask(RunStage::ClipClock, SessionAction::CheckDeadline),
            },
            (RunStage::ClipClock, SessionEvent::Deadline(true)) => prep_step(
                PreparationFailure::ClipboardUnavailable,
            ),
            (RunStage::ClipClock, SessionEvent::Deadline(false)) => {
                let divisor: u32 = if attempts > 0xFFFF_FFFFusize {
                    0xFFFF_FFFFu32
                } else {
                    attempts as u32
                };
                let pause = divide_duration(self.core.config.safety.clipboard_retry.total_window, divisor);
                self.then_ask(
                    RunStage::ClipSleep,
                    SessionAction::Sleep { duration: pause, quantum, until_deadline: true },
                )
            },
            (RunStage::ClipSleep, SessionEvent::Slept(true)) => prep_step(PreparationFailure::Cancelled),
            (RunStage::ClipSleep, SessionEvent::Slept(false)) => {
                let core = RunCore { stage: RunStage::ClipCancel, attempt: self.core.attempt + 1, ..self.core };
                self.with_stage(core, SessionAction::CheckCancel)
            },
            _ => stop_step(TerminalOutcome::InternalInvariant),
        }
    }
}


/// The actions of a keyboard plan: each atom typed as it is.
fn atom_steps(atoms: &[TextAtom]) -> (r: Vec<CodeAction>)
    ensures
        r@ == atoms@.map_values(|a: TextAtom| CodeAction::Atom(a)),
{
    let mut out: Vec<CodeAction> = Vec::new();
    let n = atoms.len();
    let mut i: usize = 0;
    while i < n
        invariant
            n == atoms@.len(),
            i <= n,
            out@ == atoms@.take(i as int).map_values(|a: TextAtom| CodeAction::Atom(a)),
        decreases n - i,
    {
        out.push(CodeAction::Atom(atoms[i]));
        i = i + 1;
        assert(out@ =~= atoms@.take(i as int).map_values(|a: TextAtom| CodeAction::Atom(a)));
    }
    assert(atoms@.take(n as int) =~= atoms@);
    out
}

fn copied_steps(actions: &[CodeAction]) -> (r: Vec<CodeAction>)
    ensures
        r@ == actions@,
{
    let mut out: Vec<CodeAction> = Vec::new();
    let n = actions.len();
    let mut i: usize = 0;
    while i < n
        invariant
            n == actions@.len(),
            i <= n,
            out@ == actions@.take(i as int),
        decreases n - i,
    {
        out.push(actions[i]);
        i = i + 1;
        assert(out@ =~= actions@.take(i as int));
    }
    assert(actions@.take(n as int) =~= actions@);
    out
}

/// The plan a session makes from its clipboard text.
#[verifier::opaque]
pub open spec fn session_plan(
    text: Seq<char>,
    revision_known: bool,
    config: ProductConfig,
    capabilities: crate::product::ProductCapabilities,
) -> Result<PlanOutline, crate::product::ProductPlanError> {
    injection_outcome(text, revision_known, config, capabilities)
}

fn make_plan(
    text: SensitiveText,
    revision_known: bool,
    config: ProductConfig,
    capabilities: crate::product::ProductCapabilities,
) -> (r: Result<InjectionPlan, crate::product::ProductPlanError>)
    ensures
        match (r, session_plan(text@, revision_known, config, capabilities)) {
            (Ok(plan), Ok(outline)) => plan.outline() == outline,
            (Err(e1), Err(e2)) => e1 == e2,
            _ => false,
        },
{
    reveal(session_plan);
    build_injection_plan(text, revision_known, config, capabilities)
}

impl SessionRun {
    fn resume_plan(self, event: SessionEvent) -> (r: SessionStep)
        requires
            run_ok(self@),
            self@.core.stage is PasteCaps || self@.core.stage is PlanCancel || self@.core.stage is PlanIntegrity
                || self@.core.stage is Announce || self@.core.stage is PasteCancel
                || self@.core.stage is PasteTarget || self@.core.stage is PasteModifiers
                || self@.core.stage is PasteDispatch,
        ensures
            r@ == run_next(self@, event),
    {
        match (self.core.stage, event) {
            (RunStage::PasteCaps, SessionEvent::Paste(paste)) => {
                let SessionRun { core, random, steps: _, pending } = self;
                let text = match pending {
                    Some(text) => text,
                    None => return stop_step(TerminalOutcome::InternalInvariant),
                };
                let capabilities = product_capabilities(core.keyboard, paste);
                match make_plan(text, core.revision.is_known(), core.config, capabilities) {
                    Err(error) => prep_step(map_product_plan_error(error)),
                    Ok(plan) => {
                        let (steps, core) = match &plan {
                            InjectionPlan::Keyboard(p) => (
                                atom_steps(p.text().atoms()),
                                RunCore {
                                    stage: RunStage::PlanCancel,
                                    backend: InjectionBackend::Keyboard,
                                    typos: true,
                                    limit: p.config().dispatch_batch_limit,
                                    ..core
                                },
                            ),
                            InjectionPlan::Code(p) => (
                                copied_steps(p.actions()),
                                RunCore {
                                    stage: RunStage::PlanCancel,
                                    backend: InjectionBackend::Code,
                                    typos: false,
                                    limit: p.config().dispatch_batch_limit,
                                    ..core
                                },
                            ),
                            InjectionPlan::Clipboard(_) => (
                                Vec::new(),
                                RunCore {
                                    stage: RunStage::PlanCancel,
                                    backend: InjectionBackend::Clipboard,
                                    typos: false,
                                    ..core
                                },
                            ),
                        };
                        SessionStep::Do(SessionRun { core, random, steps, pending: None }, SessionAction::CheckCancel)
                    },
                }
            },
            (RunStage::PlanCancel, SessionEvent::Cancel(true)) => prep_step(PreparationFailure::Cancelled),
            (RunStage::PlanCancel, SessionEvent::Cancel(false)) => self.then_ask(
                RunStage::PlanIntegrity,
                SessionAction::ReadIntegrity,
            ),
            (RunStage::PlanIntegrity, SessionEvent::Integrity(relation)) => match relation {
                IntegrityRelation::KnownRestricted => prep_step(PreparationFailure::KnownSecurityRestriction),
                _ => {
                    let backend = self.core.backend;
                    self.then_advance(FlowEvent::PlanReady, RunStage::Announce, SessionAction::Announce(backend))
                },
            },
            (RunStage::Announce, SessionEvent::Done) => match self.core.backend {
                InjectionBackend::Clipboard => self.then_ask(RunStage::PasteCancel, SessionAction::CheckCancel),
                _ => self.element_start_step(0),
            },
            (RunStage::PasteCancel, SessionEvent::Cancel(true)) => stop_step(TerminalOutcome::Cancelled),
            (RunStage::PasteCancel, SessionEvent::Cancel(false)) => self.then_ask(
                RunStage::PasteTarget,
                SessionAction::CompareTarget,
            ),
            (RunStage::PasteTarget, SessionEvent::Target(observed)) => match target_check(observed) {
                Some(o) => stop_step(o),
                None => self.then_ask(RunStage::PasteModifiers, SessionAction::ObserveModifiers),
            },
            (RunStage::PasteModifiers, SessionEvent::Modifiers(observation)) => match observation {
                ModifierObservation::Clear => {
                    let revision = self.core.revision;
                    self.then_ask(RunStage::PasteDispatch, SessionAction::Paste(revision))
                },
                _ => stop_step(TerminalOutcome::ModifierConflict),
            },
            (RunStage::PasteDispatch, SessionEvent::Pasted(Ok(result))) => self.then_ask(
                RunStage::Accept(result),
                SessionAction::ReadIntegrity,
            ),
            (RunStage::PasteDispatch, SessionEvent::Pasted(Err(error))) => stop_step(map_paste_error(error)),
            _ => stop_step(TerminalOutcome::InternalInvariant),
        }
    }

    fn resume_keys(self, event: SessionEvent) -> (r: SessionStep)
        requires
            run_ok(self@),
            self@.core.stage is NavSettle || self@.core.stage is KeyCancel || self@.core.stage is KeyTarget
                || self@.core.stage is KeyModifiers || self@.core.stage is KeyDelay
                || self@.core.stage is KeyDispatch || self@.core.stage is Accept
                || self@.core.stage is Counting || self@.core.stage is AfterSettle,
        ensures
            r@ == run_next(self@, event),
    {
        match self.core.stage {
            RunStage::KeyDispatch | RunStage::Accept(_) | RunStage::Counting | RunStage::AfterSettle => {
                return self.resume_dispatch(event);
            },
            _ => {},
        }
        let quantum = self.core.config.safety.modifier_poll_interval;
        match (self.core.stage, event) {
            (RunStage::NavSettle, SessionEvent::Slept(true)) => stop_step(TerminalOutcome::Cancelled),
            (RunStage::NavSettle, SessionEvent::Slept(false)) => self.key_start_step(),
            (RunStage::KeyCancel, SessionEvent::Cancel(true)) => stop_step(TerminalOutcome::Cancelled),
            (RunStage::KeyCancel, SessionEvent::Cancel(false)) => self.then_ask(
                RunStage::KeyTarget,
                SessionAction::CompareTarget,
            ),
            (RunStage::KeyTarget, SessionEvent::Target(observed)) => match target_check(observed) {
                Some(o) => stop_step(o),
                None => self.then_ask(RunStage::KeyModifiers, SessionAction::ObserveModifiers),
            },
            (RunStage::KeyModifiers, SessionEvent::Modifiers(observation)) => match observation {
                ModifierObservation::Clear => if self.core.second_check {
                    let action = self.key_action();
                    let limit = self.core.limit;
                    self.then_ask(RunStage::KeyDispatch, SessionAction::Dispatch { action, limit })
                } else {
                    let SessionRun { core, mut random, steps, pending } = self;
                    let delay = jittered_delay(core.config.safety.keyboard_interval, core.config.jitter_percent, &mut random);
                    let run = SessionRun { core: RunCore { stage: RunStage::KeyDelay, ..core }, random, steps, pending };
                    SessionStep::Do(run, SessionAction::Sleep { duration: delay, quantum, until_deadline: false })
                },
                _ => stop_step(TerminalOutcome::ModifierConflict),
            },
            (RunStage::KeyDelay, SessionEvent::Slept(true)) => stop_step(TerminalOutcome::Cancelled),
            (RunStage::KeyDelay, SessionEvent::Slept(false)) => {
                let core = RunCore { stage: RunStage::KeyCancel, second_check: true, ..self.core };
                self.with_stage(core, SessionAction::CheckCancel)
            },
            _ => stop_step(TerminalOutcome::InternalInvariant),
        }
    }

    fn resume_dispatch(self, event: SessionEvent) -> (r: SessionStep)
        requires
            run_ok(self@),
            self@.core.stage is KeyDispatch || self@.core.stage is Accept || self@.core.stage is Counting
                || self@.core.stage is AfterSettle,
        ensures
            r@ == run_next(self@, event),
    {
        match (self.core.stage, event) {
            (RunStage::KeyDispatch, SessionEvent::Dispatched(Ok(result))) => self.then_ask(
                RunStage::Accept(result),
                SessionAction::ReadIntegrity,
            ),
            (RunStage::KeyDispatch, SessionEvent::Dispatched(Err(error))) => stop_step(map_keyboard_error(error)),
            (RunStage::KeyDispatch, SessionEvent::BatchRefused) => stop_step(TerminalOutcome::InternalInvariant),
            (RunStage::Accept(result), SessionEvent::Integrity(relation)) => {
                match classify_dispatch(dispatch_observation(result, relation)) {
                    DispatchDecision::Continue => self.then_advance(
                        FlowEvent::BatchAccepted,
                        RunStage::Counting,
                        SessionAction::CountBatch,
                    ),
                    DispatchDecision::Stop(o) => stop_step(o),
                }
            },
            (RunStage::Counting, SessionEvent::Done) => match self.core.backend {
                InjectionBackend::Clipboard => self.complete_step(),
                _ => self.after_key_step(),
            },
            (RunStage::AfterSettle, SessionEvent::Slept(true)) => stop_step(TerminalOutcome::Cancelled),
            (RunStage::AfterSettle, SessionEvent::Slept(false)) => {
                let n = self.steps.len();
                assert(self.core.index < n);
                let next = self.core.index + 1;
                self.element_start_step(next)
            },
            _ => stop_step(TerminalOutcome::InternalInvariant),
        }
    }
}


// ---------------------------------------------------------------------------
// Laws of a session.
// ---------------------------------------------------------------------------

pub open spec fn is_cancelled(c: SessionCompletion) -> bool {
    c == SessionCompletion::PreparationFailed(PreparationFailure::Cancelled) || c
        == SessionCompletion::Finished(TerminalOutcome::Cancelled)
}

proof fn lemma_element_start_ok(s: RunState, i: int)
    requires
        0 <= i,
        s.core.backend != InjectionBackend::Clipboard,
        !(s.core.stage is ClipCancel || s.core.stage is ClipRead || s.core.stage is ClipTarget
            || s.core.stage is ClipClock || s.core.stage is ClipSleep),
    ensures
        element_start(s, i) matches RunNext::Do(t, _) ==> run_ok(t),
{
}

proof fn lemma_after_key_ok(s: RunState)
    requires
        run_ok(s),
        s.core.stage is Counting,
        s.core.backend != InjectionBackend::Clipboard,
    ensures
        after_key(s) matches RunNext::Do(t, _) ==> run_ok(t),
{
    if s.core.part is Main && !(!s.core.typos && s.core.index + 1 < s.steps.len()) {
        lemma_element_start_ok(s, s.core.index + 1);
    }
}

/// Every step keeps a well-formed session well formed.
#[verifier::rlimit(50)]
pub proof fn law_steps_keep_sessions_well_formed(s: RunState, e: SessionEvent)
    requires
        run_ok(s),
    ensures
        run_next(s, e) matches RunNext::Do(t, _) ==> run_ok(t),
{
    match s.core.stage {
        RunStage::Announce => {
            if s.core.backend != InjectionBackend::Clipboard {
                lemma_element_start_ok(s, 0);
            }
        },
        RunStage::Counting => {
            if s.core.backend != InjectionBackend::Clipboard {
                lemma_after_key_ok(s);
            }
        },
        RunStage::AfterSettle => {
            lemma_element_start_ok(s, s.core.index + 1);
        },
        _ => {},
    }
}

/// A keyboard action is dispatched only right after the physical modifiers
/// were seen clear in the second round of checks, the one after the delay.
pub proof fn law_keys_go_out_only_after_clear_modifiers(s: RunState, e: SessionEvent)
    requires
        run_next(s, e) matches RunNext::Do(_, ActionView::Dispatch { .. }),
    ensures
        s.core.stage is KeyModifiers,
        s.core.second_check,
        e matches SessionEvent::Modifiers(ModifierObservation::Clear),
{
}

/// The paste goes out only right after the modifiers were seen clear, and
/// it is guarded by the revision of the clipboard snapshot the session read.
pub proof fn law_paste_goes_out_only_after_clear_modifiers(s: RunState, e: SessionEvent)
    requires
        run_next(s, e) matches RunNext::Do(_, ActionView::Paste(_)),
    ensures
        s.core.stage is PasteModifiers,
        e matches SessionEvent::Modifiers(ModifierObservation::Clear),
        run_next(s, e) matches RunNext::Do(_, ActionView::Paste(revision)) && revision == s.core.revision,
{
}

/// The modifiers before input are looked at only once the target was found
/// unchanged.
pub proof fn law_modifiers_are_checked_only_on_the_same_target(s: RunState, e: SessionEvent)
    requires
        run_next(s, e) matches RunNext::Do(t, _) && (t.core.stage is KeyModifiers
            || t.core.stage is PasteModifiers),
    ensures
        s.core.stage is KeyTarget || s.core.stage is PasteTarget,
        e matches SessionEvent::Target(observed) && target_stop(observed) is None,
{
}

/// The target before input is compared only once no cancellation was
/// requested.
pub proof fn law_targets_are_checked_only_without_cancellation(s: RunState, e: SessionEvent)
    requires
        run_next(s, e) matches RunNext::Do(t, _) && (t.core.stage is KeyTarget
            || t.core.stage is PasteTarget),
    ensures
        s.core.stage is KeyCancel || s.core.stage is PasteCancel,
        e == SessionEvent::Cancel(false),
{
}

/// A changed, vanished or unverifiable target ends the session with that
/// outcome.
pub proof fn law_target_change_ends_the_session(s: RunState, observed: Result<TargetComparison, TargetCaptureError>)
    requires
        target_stop(observed) matches Some(o),
        s.core.stage is SettleTarget || s.core.stage is ClipTarget || s.core.stage is PasteTarget
            || s.core.stage is KeyTarget,
    ensures
        run_next(s, SessionEvent::Target(observed)) == stop(target_stop(observed)->0),
{
}

/// Partial, unknown or absent progress is never retried: the session ends.
pub proof fn law_incomplete_dispatch_is_never_retried(s: RunState, e: SessionEvent)
    requires
        s.core.stage matches RunStage::Accept(result) && !(result is Complete),
    ensures
        run_next(s, e) is Finish,
{
}

/// Cancellation seen at a check or during a sleep ends the session as
/// cancelled.
pub proof fn law_cancellation_ends_the_session(s: RunState)
    requires
        s.core.stage is Begin || s.core.stage is SettleCancel || s.core.stage is ClipCancel
            || s.core.stage is PlanCancel || s.core.stage is PasteCancel || s.core.stage is KeyCancel
            || s.core.stage is SettleSleep || s.core.stage is ClipSleep || s.core.stage is NavSettle
            || s.core.stage is KeyDelay || s.core.stage is AfterSettle,
    ensures
        run_next(s, SessionEvent::Cancel(true)) matches RunNext::Finish(c) && (!(s.core.stage is SettleSleep
            || s.core.stage is ClipSleep || s.core.stage is NavSettle || s.core.stage is KeyDelay
            || s.core.stage is AfterSettle) ==> is_cancelled(c)),
        run_next(s, SessionEvent::Slept(true)) matches RunNext::Finish(c) && ((s.core.stage is SettleSleep
            || s.core.stage is ClipSleep || s.core.stage is NavSettle || s.core.stage is KeyDelay
            || s.core.stage is AfterSettle) ==> is_cancelled(c)),
{
}

/// The clipboard is read only within the attempt budget.
pub proof fn law_clipboard_reads_stay_within_budget(s: RunState, e: SessionEvent)
    requires
        run_ok(s),
        run_next(s, e) matches RunNext::Do(_, ActionView::ReadClipboard(_)),
    ensures
        run_next(s, e) matches RunNext::Do(t, _) && t.core.attempt < attempts(t),
{
}

/// A session keeps the configuration it started with; a later update only
/// reaches later sessions.
pub proof fn law_sessions_keep_their_configuration(s: RunState, e: SessionEvent)
    ensures
        run_next(s, e) matches RunNext::Do(t, _) ==> t.core.config == s.core.config,
{
}

/// Once the clipboard was read, its revision stays the one the paste is
/// guarded by.
pub proof fn law_clipboard_revision_is_fixed_once_read(s: RunState, e: SessionEvent)
    requires
        !(s.core.stage is ClipRead),
    ensures
        run_next(s, e) matches RunNext::Do(t, _) ==> t.core.revision == s.core.revision,
{
}

/// One paste at most: once it went out, the session only accepts its result
/// and ends.
pub proof fn law_paste_goes_out_at_most_once(s: RunState, e: SessionEvent)
    requires
        s.core.backend == InjectionBackend::Clipboard,
        s.core.stage is PasteDispatch || s.core.stage is Accept || s.core.stage is Counting,
    ensures
        run_next(s, e) matches RunNext::Do(t, a) ==> (t.core.stage is Accept || t.core.stage is Counting)
            && !(a is Paste),
{
}

/// A session completes only when the last element was accepted, or the
/// clipboard session's single paste was.
pub proof fn law_completion_only_after_the_last_element(s: RunState, e: SessionEvent)
    requires
        run_ok(s),
        run_next(s, e) == stop(TerminalOutcome::Completed),
    ensures
        s.core.stage is Counting || (s.core.stage is Announce && s.steps.len() == 0),
        s.core.stage is Counting && s.core.backend != InjectionBackend::Clipboard ==> s.core.part
            is Main && s.core.index + 1 >= s.steps.len(),
{
}


/// The flow of a session whose trigger was accepted and whose target was
/// captured.
pub fn captured_flow() -> (r: Result<FlowState, crate::state::TransitionError>)
    ensures
        r matches Ok(f) ==> next_state(FlowState::Idle, FlowEvent::TriggerAccepted) matches Some(a)
            && next_state(a, FlowEvent::TargetCaptured) == Some(f),
        r is Err ==> match next_state(FlowState::Idle, FlowEvent::TriggerAccepted) {
            Some(a) => next_state(a, FlowEvent::TargetCaptured) is None,
            None => true,
        },
{
    match transition(FlowState::Idle, FlowEvent::TriggerAccepted) {
        Ok(accepted) => transition(accepted, FlowEvent::TargetCaptured),
        Err(e) => Err(e),
    }
}

/// Why a trigger is refused before any work: the process is shutting down,
/// or injection is disabled.
pub fn trigger_refusal(shutting_down: bool, enabled: bool) -> (r: Option<crate::session::TriggerResult>)
    ensures
        r == if shutting_down {
            Some(crate::session::TriggerResult::ShuttingDown)
        } else if !enabled {
            Some(crate::session::TriggerResult::Rejected(PreparationFailure::Disabled))
        } else {
            None::<crate::session::TriggerResult>
        },
{
    if shutting_down {
        Some(crate::session::TriggerResult::ShuttingDown)
    } else if !enabled {
        Some(crate::session::TriggerResult::Rejected(PreparationFailure::Disabled))
    } else {
        None
    }
}


/// A cheap, non-blocking look at whether cancellation was requested, for the
/// one who runs a session.
pub trait CancellationProbe: Send + Sync {
    /// Whether cancellation has been requested.
    fn is_cancelled(&self) -> bool;
}

} // verus!
