use cliptype::{
    captured_flow, trigger_refusal, CapabilityState, ClipboardError, ClipboardRevision,
    ClipboardSnapshot, DispatchResult, InjectionBackend, InjectionMode,
    IntegrityRelation, KeyAction, KeyboardCapabilities, ModifierMask, ModifierObservation,
    NativeDispatchCount, NativeEventCount, PasteCapabilities, PreparationFailure, ProductConfig,
    SensitiveText, SessionAction, SessionCompletion, SessionEvent, SessionRun, SessionStep,
    TargetComparison, TerminalOutcome, TextAtom, TriggerResult,
};

/// A scripted world that answers every step of a session.
struct World {
    clipboard: Vec<Result<ClipboardSnapshot, ClipboardError>>,
    modifiers: Vec<ModifierObservation>,
    targets: Vec<TargetComparison>,
    cancel_after_checks: Option<usize>,
    dispatch_results: Vec<DispatchResult>,
    deadline_passed: bool,
    paste: PasteCapabilities,
    actions: Vec<SessionAction>,
    cancel_checks: usize,
}

fn complete(events: u32) -> DispatchResult {
    DispatchResult::Complete { events: NativeEventCount::new(events) }
}

impl World {
    fn new(text: &str) -> Self {
        World {
            clipboard: vec![Ok(ClipboardSnapshot::new(
                SensitiveText::new(text.to_owned()),
                ClipboardRevision::Known(7),
            ))],
            modifiers: Vec::new(),
            targets: Vec::new(),
            cancel_after_checks: None,
            dispatch_results: Vec::new(),
            deadline_passed: false,
            paste: PasteCapabilities {
                paste_chord: CapabilityState::Available,
                clipboard_revision_guard: CapabilityState::Available,
            },
            actions: Vec::new(),
            cancel_checks: 0,
        }
    }

    fn answer(&mut self, action: SessionAction) -> SessionEvent {
        self.actions.push(action);
        match action {
            SessionAction::CheckCancel => {
                self.cancel_checks += 1;
                SessionEvent::Cancel(self.cancel_after_checks.is_some_and(|n| self.cancel_checks > n))
            }
            SessionAction::ReadKeyboardCapabilities => SessionEvent::Keyboard(KeyboardCapabilities {
                unicode_text: CapabilityState::Available,
                line_break: CapabilityState::Available,
                tab: CapabilityState::Available,
                cursor_right: CapabilityState::Available,
                modifier_observation: CapabilityState::Available,
            }),
            SessionAction::ObserveModifiers => SessionEvent::Modifiers(if self.modifiers.is_empty() {
                ModifierObservation::Clear
            } else {
                self.modifiers.remove(0)
            }),
            SessionAction::CompareTarget => SessionEvent::Target(Ok(if self.targets.is_empty() {
                TargetComparison::Same
            } else {
                self.targets.remove(0)
            })),
            SessionAction::StartDeadline(_) => SessionEvent::DeadlineSet(true),
            SessionAction::CheckDeadline => SessionEvent::Deadline(self.deadline_passed),
            SessionAction::Sleep { .. } => SessionEvent::Slept(false),
            SessionAction::ReadClipboard(_) => SessionEvent::Clipboard(self.clipboard.remove(0)),
            SessionAction::ReadPasteCapabilities => SessionEvent::Paste(self.paste),
            SessionAction::ReadIntegrity => SessionEvent::Integrity(IntegrityRelation::KnownNotRestricted),
            SessionAction::Announce(_) | SessionAction::CountBatch => SessionEvent::Done,
            SessionAction::Dispatch { .. } => SessionEvent::Dispatched(Ok(if self.dispatch_results.is_empty() {
                complete(2)
            } else {
                self.dispatch_results.remove(0)
            })),
            SessionAction::Paste(_) => SessionEvent::Pasted(Ok(complete(4))),
        }
    }

    fn run(&mut self, config: ProductConfig) -> SessionCompletion {
        let flow = captured_flow().expect("a captured target starts the flow");
        let mut step = SessionRun::start(config, flow, 42);
        loop {
            match step {
                SessionStep::Do(run, action) => {
                    let event = self.answer(action);
                    step = run.resume(event);
                }
                SessionStep::Finish(completion) => return completion,
            }
        }
    }

    fn dispatched(&self) -> Vec<KeyAction> {
        self.actions
            .iter()
            .filter_map(|action| match action {
                SessionAction::Dispatch { action, .. } => Some(*action),
                _ => None,
            })
            .collect()
    }

    fn pastes(&self) -> usize {
        self.actions.iter().filter(|action| matches!(action, SessionAction::Paste(_))).count()
    }

    fn count(&self, wanted: fn(&SessionAction) -> bool) -> usize {
        self.actions.iter().filter(|action| wanted(action)).count()
    }
}

fn config(mode: InjectionMode) -> ProductConfig {
    ProductConfig { mode, ..ProductConfig::default() }
}

#[test]
fn keyboard_session_types_every_atom_in_order() {
    let mut world = World::new("ab");
    let completion = world.run(config(InjectionMode::Keyboard));
    assert!(completion == SessionCompletion::Finished(TerminalOutcome::Completed));
    assert!(
        world.dispatched()
            == vec![KeyAction::Atom(TextAtom::Scalar('a')), KeyAction::Atom(TextAtom::Scalar('b'))]
    );
    assert_eq!(world.pastes(), 0);
    assert!(matches!(
        world.actions.iter().find(|a| matches!(a, SessionAction::Announce(_))),
        Some(SessionAction::Announce(InjectionBackend::Keyboard))
    ));
}

#[test]
fn every_dispatch_follows_a_cancel_target_and_modifier_check() {
    let mut world = World::new("xyz");
    world.run(config(InjectionMode::Keyboard));
    for (index, action) in world.actions.iter().enumerate() {
        if matches!(action, SessionAction::Dispatch { .. }) {
            assert!(matches!(world.actions[index - 1], SessionAction::ObserveModifiers));
            assert!(matches!(world.actions[index - 2], SessionAction::CompareTarget));
            assert!(matches!(world.actions[index - 3], SessionAction::CheckCancel));
        }
    }
}

#[test]
fn explicit_clipboard_session_pastes_once_with_the_read_revision() {
    let mut world = World::new("paste me");
    let completion = world.run(config(InjectionMode::Clipboard));
    assert!(completion == SessionCompletion::Finished(TerminalOutcome::Completed));
    assert_eq!(world.pastes(), 1);
    assert!(world.dispatched().is_empty());
    assert!(world
        .actions
        .iter()
        .any(|a| matches!(a, SessionAction::Paste(ClipboardRevision::Known(7)))));
}

#[test]
fn cancellation_before_start_prepares_nothing() {
    let mut world = World::new("ab");
    world.cancel_after_checks = Some(0);
    let completion = world.run(config(InjectionMode::Keyboard));
    assert!(completion == SessionCompletion::PreparationFailed(PreparationFailure::Cancelled));
    assert_eq!(world.actions.len(), 1);
}

#[test]
fn target_change_before_first_dispatch_sends_no_input() {
    let mut world = World::new("ab");
    world.targets = vec![TargetComparison::Changed];
    let completion = world.run(config(InjectionMode::Keyboard));
    assert!(completion == SessionCompletion::Finished(TerminalOutcome::TargetChanged));
    assert!(world.dispatched().is_empty());
}

#[test]
fn partial_native_result_stops_without_retry() {
    let mut world = World::new("abc");
    world.dispatch_results = vec![DispatchResult::Partial {
        counts: NativeDispatchCount {
            requested: NativeEventCount::new(2),
            accepted: NativeEventCount::new(1),
        },
    }];
    let completion = world.run(config(InjectionMode::Keyboard));
    assert!(completion == SessionCompletion::Finished(TerminalOutcome::PartialInput));
    assert_eq!(world.dispatched().len(), 1);
}

#[test]
fn busy_clipboard_is_retried_within_the_budget() {
    let mut world = World::new("ok");
    world.clipboard.insert(0, Err(ClipboardError::Busy));
    let completion = world.run(config(InjectionMode::Keyboard));
    assert!(completion == SessionCompletion::Finished(TerminalOutcome::Completed));
    assert_eq!(world.count(|a| matches!(a, SessionAction::ReadClipboard(_))), 2);
}

#[test]
fn held_modifier_times_out_before_the_clipboard_is_read() {
    let mut world = World::new("ok");
    world.modifiers = vec![ModifierObservation::Held(ModifierMask::of_shift())];
    world.deadline_passed = true;
    let completion = world.run(config(InjectionMode::Keyboard));
    assert!(completion == SessionCompletion::PreparationFailed(PreparationFailure::ModifierSettleTimeout));
    assert_eq!(world.count(|a| matches!(a, SessionAction::ReadClipboard(_))), 0);
}

#[test]
fn modifier_conflict_before_dispatch_stops_the_session() {
    let mut world = World::new("ok");
    // Clear while settling, then held before the first key.
    world.modifiers =
        vec![ModifierObservation::Clear, ModifierObservation::Held(ModifierMask::of_control())];
    let completion = world.run(config(InjectionMode::Keyboard));
    assert!(completion == SessionCompletion::Finished(TerminalOutcome::ModifierConflict));
    assert!(world.dispatched().is_empty());
}

#[test]
fn code_session_settles_before_cursor_movement() {
    let mut world = World::new("fn main() {}");
    let completion = world.run(config(InjectionMode::Code));
    assert!(completion == SessionCompletion::Finished(TerminalOutcome::Completed));
    let dispatched = world.dispatched();
    assert!(dispatched.contains(&KeyAction::CursorRight));
    for (index, action) in world.actions.iter().enumerate() {
        if matches!(action, SessionAction::Dispatch { action: KeyAction::CursorRight, .. }) {
            let before = world.actions[..index]
                .iter()
                .rev()
                .find(|a| matches!(a, SessionAction::Sleep { until_deadline: false, .. }));
            assert!(before.is_some());
        }
    }
    let scalars: String = dispatched
        .iter()
        .filter_map(|a| match a {
            KeyAction::Atom(TextAtom::Scalar(c)) => Some(*c),
            _ => None,
        })
        .collect();
    assert!(scalars.starts_with("fn main("));
    assert!(!scalars.contains('}'));
}

#[test]
fn disabled_or_shutting_down_triggers_are_refused() {
    assert!(trigger_refusal(true, true) == Some(TriggerResult::ShuttingDown));
    assert!(trigger_refusal(false, false) == Some(TriggerResult::Rejected(PreparationFailure::Disabled)));
    assert!(trigger_refusal(false, true).is_none());
}
