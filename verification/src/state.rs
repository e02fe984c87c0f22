//! Pure trigger, transition, and dispatch-decision policy.
use vstd::prelude::*;

use crate::outcome::TerminalOutcome;

verus! {

#[derive(Debug, Clone, Copy, PartialEq, Eq, Structural)]
pub enum PreparationStage {
    CaptureTarget,
    WaitForModifiers,
    AcquireClipboard,
    BuildPlan,
}

#[derive(Debug, Clone, Copy, PartialEq, Eq, Structural)]
pub enum FlowState {
    Idle,
    Preparing(PreparationStage),
    Injecting,
    Cancelling,
    Finalizing(TerminalOutcome),
}

impl FlowState {
    /// A session is running: neither idle nor finalizing.
    pub open spec fn spec_is_active(self) -> bool {
        !(self is Idle || self is Finalizing)
    }

    #[verifier::when_used_as_spec(spec_is_active)]
    pub fn is_active(self) -> (r: bool)
        ensures
            r == self.spec_is_active(),
    {
        match self {
            FlowState::Idle | FlowState::Finalizing(_) => false,
            _ => true,
        }
    }
}

#[derive(Debug, Clone, Copy, PartialEq, Eq, Structural)]
pub enum FlowEvent {
    TriggerAccepted,
    TargetCaptured,
    ModifiersSettled,
    ClipboardAcquired,
    PlanReady,
    BatchAccepted,
    AllBatchesComplete,
    CancelRequested,
    CancellationObserved,
    Abort(TerminalOutcome),
    Finalized,
}

/// A refused transition, with the state and event that were refused.
#[derive(Debug, Clone, Copy, PartialEq, Eq, Structural)]
pub struct TransitionError {
    pub state: FlowState,
    pub event: FlowEvent,
}

#[derive(Debug, Clone, Copy, PartialEq, Eq, Structural)]
pub enum TriggerDecision {
    Accept,
    Busy,
}

/// A new trigger is accepted only while idle.
pub fn decide_trigger(state: FlowState) -> (r: TriggerDecision)
    ensures
        r == (if state is Idle {
            TriggerDecision::Accept
        } else {
            TriggerDecision::Busy
        }),
{
    match state {
        FlowState::Idle => TriggerDecision::Accept,
        FlowState::Preparing(_) | FlowState::Injecting | FlowState::Cancelling
        | FlowState::Finalizing(_) => TriggerDecision::Busy,
    }
}

/// The session lifecycle: preparation stages in order, injection, optional
/// cancellation, finalization with an outcome, and back to idle. An abort with
/// any outcome but `Completed` finalizes an active session at once.
pub open spec fn next_state(state: FlowState, event: FlowEvent) -> Option<FlowState> {
    if event matches FlowEvent::Abort(outcome) && state.spec_is_active() && outcome
        != TerminalOutcome::Completed {
        Some(FlowState::Finalizing(event->Abort_0))
    } else {
        match (state, event) {
            (FlowState::Idle, FlowEvent::TriggerAccepted) => Some(
                FlowState::Preparing(PreparationStage::CaptureTarget),
            ),
            (
                FlowState::Preparing(PreparationStage::CaptureTarget),
                FlowEvent::TargetCaptured,
            ) => Some(FlowState::Preparing(PreparationStage::WaitForModifiers)),
            (
                FlowState::Preparing(PreparationStage::WaitForModifiers),
                FlowEvent::ModifiersSettled,
            ) => Some(FlowState::Preparing(PreparationStage::AcquireClipboard)),
            (
                FlowState::Preparing(PreparationStage::AcquireClipboard),
                FlowEvent::ClipboardAcquired,
            ) => Some(FlowState::Preparing(PreparationStage::BuildPlan)),
            (FlowState::Preparing(PreparationStage::BuildPlan), FlowEvent::PlanReady) => Some(
                FlowState::Injecting,
            ),
            (FlowState::Injecting, FlowEvent::BatchAccepted) => Some(FlowState::Injecting),
            (FlowState::Injecting, FlowEvent::AllBatchesComplete) => Some(
                FlowState::Finalizing(TerminalOutcome::Completed),
            ),
            (FlowState::Preparing(_), FlowEvent::CancelRequested) => Some(FlowState::Cancelling),
            (FlowState::Injecting, FlowEvent::CancelRequested) => Some(FlowState::Cancelling),
            (FlowState::Cancelling, FlowEvent::CancelRequested) => Some(FlowState::Cancelling),
            (FlowState::Cancelling, FlowEvent::CancellationObserved) => Some(
                FlowState::Finalizing(TerminalOutcome::Cancelled),
            ),
            (FlowState::Finalizing(_), FlowEvent::Finalized) => Some(FlowState::Idle),
            _ => None,
        }
    }
}

pub fn transition(state: FlowState, event: FlowEvent) -> (r: Result<FlowState, TransitionError>)
    ensures
        r == match next_state(state, event) {
            Some(next) => Ok(next),
            None => Err::<FlowState, TransitionError>(TransitionError { state, event }),
        },
{
    if let FlowEvent::Abort(outcome) = event {
        if state.is_active() && outcome != TerminalOutcome::Completed {
            return Ok(FlowState::Finalizing(outcome));
        }
    }
    match (state, event) {
        (FlowState::Idle, FlowEvent::TriggerAccepted) => Ok(
            FlowState::Preparing(PreparationStage::CaptureTarget),
        ),
        (FlowState::Preparing(PreparationStage::CaptureTarget), FlowEvent::TargetCaptured) => Ok(
            FlowState::Preparing(PreparationStage::WaitForModifiers),
        ),
        (FlowState::Preparing(PreparationStage::WaitForModifiers), FlowEvent::ModifiersSettled) => {
            Ok(FlowState::Preparing(PreparationStage::AcquireClipboard))
        },
        (
            FlowState::Preparing(PreparationStage::AcquireClipboard),
            FlowEvent::ClipboardAcquired,
        ) => Ok(FlowState::Preparing(PreparationStage::BuildPlan)),
        (FlowState::Preparing(PreparationStage::BuildPlan), FlowEvent::PlanReady) => Ok(
            FlowState::Injecting,
        ),
        (FlowState::Injecting, FlowEvent::BatchAccepted) => Ok(FlowState::Injecting),
        (FlowState::Injecting, FlowEvent::AllBatchesComplete) => Ok(
            FlowState::Finalizing(TerminalOutcome::Completed),
        ),
        (FlowState::Preparing(_), FlowEvent::CancelRequested) => Ok(FlowState::Cancelling),
        (FlowState::Injecting, FlowEvent::CancelRequested) => Ok(FlowState::Cancelling),
        (FlowState::Cancelling, FlowEvent::CancelRequested) => Ok(FlowState::Cancelling),
        (FlowState::Cancelling, FlowEvent::CancellationObserved) => Ok(
            FlowState::Finalizing(TerminalOutcome::Cancelled),
        ),
        (FlowState::Finalizing(_), FlowEvent::Finalized) => Ok(FlowState::Idle),
        _ => Err(TransitionError { state, event }),
    }
}

#[derive(Debug, Clone, Copy, PartialEq, Eq, Structural)]
pub enum NoInputReason {
    KnownSecurityRestriction,
    BlockedCauseUnknown,
    NativeFailure,
}

#[derive(Debug, Clone, Copy, PartialEq, Eq, Structural)]
pub enum DispatchObservation {
    CompleteBatch,
    NoEvents(NoInputReason),
    Partial,
    ProgressUnknown,
}

#[derive(Debug, Clone, Copy, PartialEq, Eq, Structural)]
pub enum DispatchDecision {
    Continue,
    Stop(TerminalOutcome),
}

pub open spec fn spec_classify_dispatch(observation: DispatchObservation) -> DispatchDecision {
    match observation {
        DispatchObservation::CompleteBatch => DispatchDecision::Continue,
        DispatchObservation::NoEvents(NoInputReason::KnownSecurityRestriction) => {
            DispatchDecision::Stop(TerminalOutcome::KnownSecurityRestriction)
        },
        DispatchObservation::NoEvents(NoInputReason::BlockedCauseUnknown) => {
            DispatchDecision::Stop(TerminalOutcome::BlockedCauseUnknown)
        },
        DispatchObservation::NoEvents(NoInputReason::NativeFailure) => {
            DispatchDecision::Stop(TerminalOutcome::NativeFailure)
        },
        DispatchObservation::Partial => DispatchDecision::Stop(TerminalOutcome::PartialInput),
        DispatchObservation::ProgressUnknown => DispatchDecision::Stop(
            TerminalOutcome::ProgressUnknown,
        ),
    }
}

/// Only a completely accepted batch continues; anything else stops the session
/// with the outcome it shows.
pub fn classify_dispatch(observation: DispatchObservation) -> (r: DispatchDecision)
    ensures
        r == spec_classify_dispatch(observation),
{
    match observation {
        DispatchObservation::CompleteBatch => DispatchDecision::Continue,
        DispatchObservation::NoEvents(NoInputReason::KnownSecurityRestriction) => {
            DispatchDecision::Stop(TerminalOutcome::KnownSecurityRestriction)
        },
        DispatchObservation::NoEvents(NoInputReason::BlockedCauseUnknown) => {
            DispatchDecision::Stop(TerminalOutcome::BlockedCauseUnknown)
        },
        DispatchObservation::NoEvents(NoInputReason::NativeFailure) => {
            DispatchDecision::Stop(TerminalOutcome::NativeFailure)
        },
        DispatchObservation::Partial => DispatchDecision::Stop(TerminalOutcome::PartialInput),
        DispatchObservation::ProgressUnknown => DispatchDecision::Stop(
            TerminalOutcome::ProgressUnknown,
        ),
    }
}

/// A session completes only when injection reports that every batch is done.
pub proof fn law_completion_only_after_all_batches(state: FlowState, event: FlowEvent)
    requires
        next_state(state, event) == Some(FlowState::Finalizing(TerminalOutcome::Completed)),
    ensures
        state == FlowState::Injecting,
        event == FlowEvent::AllBatchesComplete,
{
}

/// An idle coordinator leaves idle only for an accepted trigger.
pub proof fn law_idle_leaves_only_on_trigger(event: FlowEvent)
    ensures
        next_state(FlowState::Idle, event) is Some <==> event == FlowEvent::TriggerAccepted,
{
}

/// Every session reaches idle again only through finalization: the one
/// transition into idle is `Finalized` from a finalizing state.
pub proof fn law_idle_only_after_finalization(state: FlowState, event: FlowEvent)
    requires
        next_state(state, event) == Some(FlowState::Idle),
    ensures
        state is Finalizing,
        event == FlowEvent::Finalized,
{
}

/// An abort with an outcome other than `Completed` finalizes any active session
/// with exactly that outcome.
pub proof fn law_abort_finalizes_active(state: FlowState, outcome: TerminalOutcome)
    requires
        state.spec_is_active(),
        outcome != TerminalOutcome::Completed,
    ensures
        next_state(state, FlowEvent::Abort(outcome)) == Some(FlowState::Finalizing(outcome)),
{
}

/// Once cancellation is requested, the session can only stay cancelling,
/// finalize as cancelled, or be aborted.
pub proof fn law_cancelling_ends_cancelled_or_aborted(event: FlowEvent)
    requires
        next_state(FlowState::Cancelling, event) is Some,
    ensures
        next_state(FlowState::Cancelling, event) == Some(FlowState::Cancelling)
            || next_state(FlowState::Cancelling, event) == Some(
            FlowState::Finalizing(TerminalOutcome::Cancelled),
        ) || (event is Abort && event->Abort_0 != TerminalOutcome::Completed),
{
}

/// Only a completely accepted batch lets injection continue, and a stopped
/// dispatch never counts as a completed session.
pub proof fn law_only_complete_batches_continue(observation: DispatchObservation)
    ensures
        spec_classify_dispatch(observation) is Continue <==> observation
            == DispatchObservation::CompleteBatch,
        spec_classify_dispatch(observation) is Stop ==> spec_classify_dispatch(observation)->Stop_0
            != TerminalOutcome::Completed,
{
}

/// Preparation runs in order: the target is captured before the modifiers
/// are awaited, and the modifiers settle before the clipboard is acquired, so
/// the clipboard is never read ahead of the destination evidence.
pub proof fn law_preparation_runs_in_order(state: FlowState, event: FlowEvent)
    ensures
        next_state(state, event) == Some(FlowState::Preparing(PreparationStage::WaitForModifiers))
            ==> state == FlowState::Preparing(PreparationStage::CaptureTarget) && event
            == FlowEvent::TargetCaptured,
        next_state(state, event) == Some(FlowState::Preparing(PreparationStage::AcquireClipboard))
            ==> state == FlowState::Preparing(PreparationStage::WaitForModifiers) && event
            == FlowEvent::ModifiersSettled,
        next_state(state, event) == Some(FlowState::Preparing(PreparationStage::BuildPlan))
            ==> state == FlowState::Preparing(PreparationStage::AcquireClipboard) && event
            == FlowEvent::ClipboardAcquired,
        next_state(state, event) == Some(FlowState::Injecting) ==> (state == FlowState::Preparing(
            PreparationStage::BuildPlan,
        ) && event == FlowEvent::PlanReady) || (state == FlowState::Injecting && event
            == FlowEvent::BatchAccepted),
{
}

} // verus!
