use std::time::Duration;

use cliptype::{
    adjacent_typo, after_clipboard_error, clipboard_error_is_retryable, jittered_delay,
    map_clipboard_error, ClipboardAttempt, ClipboardError, PreparationFailure, TextAtom,
    TypingRandom,
};

#[test]
fn jitter_is_bounded_around_every_base_interval() {
    let base = Duration::from_millis(100);
    let mut random = TypingRandom::new(7);

    for _ in 0..1_000 {
        let delay = jittered_delay(base, 20, &mut random);
        assert!(delay >= Duration::from_millis(80));
        assert!(delay <= Duration::from_millis(120));
    }
}

#[test]
fn adjacent_typos_are_ascii_only_and_preserve_case() {
    let mut random = TypingRandom::new(11);
    let lower = adjacent_typo(TextAtom::Scalar('g'), 100, &mut random);
    let mut random = TypingRandom::new(11);
    let upper = adjacent_typo(TextAtom::Scalar('G'), 100, &mut random);

    assert_eq!(
        lower
            .and_then(TextAtom::exposed_scalar)
            .map(|value| value.to_ascii_uppercase()),
        upper.and_then(TextAtom::exposed_scalar)
    );
    let mut random = TypingRandom::new(1);
    assert!(adjacent_typo(TextAtom::Scalar('你'), 25, &mut random) == None);
    assert!(adjacent_typo(TextAtom::LineBreak, 25, &mut random) == None);
    assert!(adjacent_typo(TextAtom::Tab, 25, &mut random) == None);
}

#[test]
fn zero_probability_and_zero_jitter_are_exact() {
    let mut random = TypingRandom::new(3);
    assert!(adjacent_typo(TextAtom::Scalar('a'), 0, &mut random) == None);
    assert_eq!(
        jittered_delay(Duration::from_millis(37), 0, &mut random),
        Duration::from_millis(37)
    );
}

#[test]
fn certain_typo_is_a_different_neighbouring_letter() {
    let mut random = TypingRandom::new(5);
    let typo = adjacent_typo(TextAtom::Scalar('g'), 100, &mut random)
        .and_then(TextAtom::exposed_scalar)
        .expect("a letter with neighbours always gets a typo at full probability");
    assert!("ftyhbv".contains(typo));
}

#[test]
fn zero_base_interval_is_not_jittered() {
    let mut random = TypingRandom::new(9);
    assert_eq!(jittered_delay(Duration::ZERO, 50, &mut random), Duration::ZERO);
}

#[test]
fn same_seed_gives_the_same_delays() {
    let mut first = TypingRandom::new(42);
    let mut second = TypingRandom::new(42);
    for _ in 0..50 {
        assert_eq!(
            jittered_delay(Duration::from_millis(60), 30, &mut first),
            jittered_delay(Duration::from_millis(60), 30, &mut second)
        );
    }
}

#[test]
fn busy_clipboard_is_retried_until_the_budget_runs_out() {
    assert!(clipboard_error_is_retryable(ClipboardError::Busy));
    assert!(!clipboard_error_is_retryable(ClipboardError::Empty));
    assert!(after_clipboard_error(ClipboardError::Busy, 1, 3) == ClipboardAttempt::Retry);
    assert!(
        after_clipboard_error(ClipboardError::Busy, 3, 3)
            == ClipboardAttempt::Fail(map_clipboard_error(ClipboardError::Busy))
    );
    assert!(
        after_clipboard_error(ClipboardError::Empty, 1, 3)
            == ClipboardAttempt::Fail(PreparationFailure::ClipboardEmpty)
    );
}
