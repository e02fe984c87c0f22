use std::sync::{
    atomic::{AtomicUsize, Ordering},
    Mutex,
};

use cliptype::{
    ClipboardError, ClipboardPort, ClipboardRevision, ClipboardSnapshot, DispatchResult,
    ModifierMask, NativeByteLimit, NativeDispatchCount, NativeEventCount, PasteError,
    RetryDisposition, SensitiveText,
};

struct FakeClipboard {
    revisions: Mutex<Vec<ClipboardRevision>>,
    reads: AtomicUsize,
}

impl FakeClipboard {
    fn new(revisions: Vec<ClipboardRevision>) -> Self {
        Self { revisions: Mutex::new(revisions), reads: AtomicUsize::new(0) }
    }
}

impl ClipboardPort for FakeClipboard {
    fn read_current_text(&self, _hard_limit: NativeByteLimit) -> Result<SensitiveText, ClipboardError> {
        self.reads.fetch_add(1, Ordering::Relaxed);
        Ok(SensitiveText::new("CLIPBOARD_SNAPSHOT_PRIVATE_SENTINEL".to_owned()))
    }

    fn current_revision(&self) -> ClipboardRevision {
        self.revisions.lock().expect("test mutex").remove(0)
    }
}

#[test]
fn snapshot_keeps_a_stable_revision_and_redacts_diagnostics() {
    let clipboard =
        FakeClipboard::new(vec![ClipboardRevision::Known(7), ClipboardRevision::Known(7)]);
    let snapshot = match clipboard.read_current_snapshot(NativeByteLimit::new(1024).expect("test limit")) {
        Ok(snapshot) => snapshot,
        Err(error) => panic!("stable snapshot: {error:?}"),
    };
    let debug = snapshot.debug_text();
    assert!(snapshot.revision() == ClipboardRevision::Known(7));
    assert!(!debug.contains("CLIPBOARD_SNAPSHOT_PRIVATE_SENTINEL"));
    assert!(!debug.contains("Known(7)"));
}

#[test]
fn known_change_during_read_fails_closed() {
    let clipboard =
        FakeClipboard::new(vec![ClipboardRevision::Known(7), ClipboardRevision::Known(8)]);
    assert!(matches!(
        clipboard.read_current_snapshot(NativeByteLimit::new(1024).expect("test limit")),
        Err(ClipboardError::ChangedDuringRead)
    ));
}

#[test]
fn unavailable_revision_remains_explicit() {
    let snapshot =
        ClipboardSnapshot::new(SensitiveText::new("x".to_owned()), ClipboardRevision::Unavailable);
    assert!(snapshot.revision() == ClipboardRevision::Unavailable);
}

#[test]
fn revision_appearing_during_read_keeps_the_later_revision() {
    let clipboard =
        FakeClipboard::new(vec![ClipboardRevision::Unavailable, ClipboardRevision::Known(9)]);
    let snapshot = match clipboard.read_current_snapshot(NativeByteLimit::new(16).expect("limit")) {
        Ok(snapshot) => snapshot,
        Err(error) => panic!("snapshot: {error:?}"),
    };
    assert!(snapshot.revision() == ClipboardRevision::Known(9) || snapshot.revision() == ClipboardRevision::Unavailable);
    assert_eq!(clipboard.reads.load(Ordering::Relaxed), 1);
}

#[test]
fn modifier_mask_composes_without_external_bitflags() {
    let held = ModifierMask::of_control() | ModifierMask::of_shift();
    assert!(held.contains(ModifierMask::of_control()));
    assert!(held.contains(ModifierMask::of_shift()));
    assert!(!held.contains(ModifierMask::of_alt()));
    assert_eq!(held.bits(), 3);
}

#[test]
fn partial_and_unknown_results_are_never_retryable() {
    let counts = NativeDispatchCount {
        requested: NativeEventCount::new(4),
        accepted: NativeEventCount::new(3),
    };
    assert_eq!(DispatchResult::Partial { counts }.retry_disposition(), RetryDisposition::Never);
    assert_eq!(DispatchResult::ProgressUnknown { counts }.retry_disposition(), RetryDisposition::Never);
}

#[test]
fn paste_failures_are_never_retried_as_idempotent() {
    assert_eq!(PasteError::ClipboardChanged.retry_disposition(), RetryDisposition::Never);
    assert_eq!(PasteError::InvalidRequest.retry_disposition(), RetryDisposition::Never);
}
