//! P1 configuration snapshot and validation.
use std::time::Duration;

use vstd::prelude::*;

use crate::duration::{duration_from_nanos, duration_is_zero, duration_nanos, nanos_of};
use crate::limits::{DispatchBatchLimit, NativeByteLimit, RetryAttemptLimit, SemanticElementLimit};

verus! {

#[derive(Debug, Clone, Copy, PartialEq, Eq, Structural)]
pub enum FocusPolicy {
    StrictAvailableEvidence,
}

#[derive(Debug, Clone, Copy, PartialEq, Eq, Structural)]
pub enum NewlinePolicy {
    NormalizeToLineBreak,
}

#[derive(Debug, Clone, Copy, PartialEq, Eq, Structural)]
pub enum TabPolicy {
    Allow,
    Reject,
}

#[derive(Debug, Clone, Copy, PartialEq, Eq, Structural)]
pub enum ConfigField {
    DispatchBatchLimit,
    ModifierSettleTimeout,
    ModifierPollInterval,
    ClipboardRetryWindow,
    WorkerShutdownGrace,
}

#[derive(Debug, Clone, Copy, PartialEq, Eq, Structural)]
pub enum ConfigError {
    ZeroDuration(ConfigField),
    BatchExceedsPayload,
    ModifierPollExceedsSettle,
}

/// Bounded retry policy owned by the live coordinator, not native adapters.
#[derive(Debug, Clone, Copy, PartialEq, Eq)]
pub struct RetryBudget {
    pub attempts: RetryAttemptLimit,
    pub total_window: Duration,
}

impl RetryBudget {
    /// Accepts any attempt limit with a non-zero total window.
    pub fn new(attempts: RetryAttemptLimit, total_window: Duration) -> (r: Result<Self, ConfigError>)
        ensures
            duration_nanos(total_window) == 0 ==> r == Err::<Self, ConfigError>(
                ConfigError::ZeroDuration(ConfigField::ClipboardRetryWindow),
            ),
            duration_nanos(total_window) != 0 ==> r == Ok::<Self, ConfigError>(
                RetryBudget { attempts, total_window },
            ),
    {
        if duration_is_zero(total_window) {
            return Err(ConfigError::ZeroDuration(ConfigField::ClipboardRetryWindow));
        }
        Ok(RetryBudget { attempts, total_window })
    }
}

/// Immutable P1 safety and work bounds captured for an injection session.
#[derive(Debug, Clone, Copy, PartialEq, Eq)]
pub struct P1Config {
    pub native_clipboard_limit: NativeByteLimit,
    pub total_payload_limit: SemanticElementLimit,
    pub dispatch_batch_limit: DispatchBatchLimit,
    pub keyboard_interval: Duration,
    pub modifier_settle_timeout: Duration,
    pub modifier_poll_interval: Duration,
    pub clipboard_retry: RetryBudget,
    pub worker_shutdown_grace: Duration,
    pub focus_policy: FocusPolicy,
    pub newline_policy: NewlinePolicy,
    pub tab_policy: TabPolicy,
}

impl P1Config {
    /// The first rule, in checking order, that the configuration breaks.
    pub open spec fn first_violation(self) -> Option<ConfigError> {
        if self.dispatch_batch_limit.spec_get() > self.total_payload_limit.spec_get() {
            Some(ConfigError::BatchExceedsPayload)
        } else if duration_nanos(self.modifier_settle_timeout) == 0 {
            Some(ConfigError::ZeroDuration(ConfigField::ModifierSettleTimeout))
        } else if duration_nanos(self.modifier_poll_interval) == 0 {
            Some(ConfigError::ZeroDuration(ConfigField::ModifierPollInterval))
        } else if duration_nanos(self.modifier_poll_interval) > duration_nanos(
            self.modifier_settle_timeout,
        ) {
            Some(ConfigError::ModifierPollExceedsSettle)
        } else if duration_nanos(self.worker_shutdown_grace) == 0 {
            Some(ConfigError::ZeroDuration(ConfigField::WorkerShutdownGrace))
        } else if duration_nanos(self.clipboard_retry.total_window) == 0 {
            Some(ConfigError::ZeroDuration(ConfigField::ClipboardRetryWindow))
        } else {
            None
        }
    }

    /// The configuration is accepted unchanged exactly when it breaks no rule.
    pub open spec fn is_valid(self) -> bool {
        self.first_violation() is None
    }

    pub fn validate(self) -> (r: Result<Self, ConfigError>)
        ensures
            r == match self.first_violation() {
                Some(error) => Err(error),
                None => Ok::<Self, ConfigError>(self),
            },
    {
        if self.dispatch_batch_limit.get() > self.total_payload_limit.get() {
            return Err(ConfigError::BatchExceedsPayload);
        }
        if duration_is_zero(self.modifier_settle_timeout) {
            return Err(ConfigError::ZeroDuration(ConfigField::ModifierSettleTimeout));
        }
        if duration_is_zero(self.modifier_poll_interval) {
            return Err(ConfigError::ZeroDuration(ConfigField::ModifierPollInterval));
        }
        if nanos_of(self.modifier_poll_interval) > nanos_of(self.modifier_settle_timeout) {
            return Err(ConfigError::ModifierPollExceedsSettle);
        }
        if duration_is_zero(self.worker_shutdown_grace) {
            return Err(ConfigError::ZeroDuration(ConfigField::WorkerShutdownGrace));
        }
        match RetryBudget::new(self.clipboard_retry.attempts, self.clipboard_retry.total_window) {
            Ok(_) => Ok(self),
            Err(error) => Err(error),
        }
    }

    /// The P1 defaults: 8 MiB native clipboard bytes, 65 536 semantic elements,
    /// batches of 8, 1 ms keyboard interval, 750 ms modifier settle timeout polled
    /// every 5 ms, 8 clipboard attempts within 80 ms, 2 s worker shutdown grace,
    /// strict focus evidence, normalized line breaks and allowed tabs.
    pub open spec fn is_default(self) -> bool {
        &&& self.is_default_apart_from_interval()
        &&& duration_nanos(self.keyboard_interval) == 1_000_000
    }

    /// Every default of `is_default` but the keyboard interval.
    pub open spec fn is_default_apart_from_interval(self) -> bool {
        &&& self.native_clipboard_limit.spec_get() == 8 * 1024 * 1024
        &&& self.total_payload_limit.spec_get() == 65_536
        &&& self.dispatch_batch_limit.spec_get() == 8
        &&& duration_nanos(self.modifier_settle_timeout) == 750_000_000
        &&& duration_nanos(self.modifier_poll_interval) == 5_000_000
        &&& self.clipboard_retry.attempts.spec_get() == 8
        &&& duration_nanos(self.clipboard_retry.total_window) == 80_000_000
        &&& duration_nanos(self.worker_shutdown_grace) == 2_000_000_000
        &&& self.focus_policy == FocusPolicy::StrictAvailableEvidence
        &&& self.newline_policy == NewlinePolicy::NormalizeToLineBreak
        &&& self.tab_policy == TabPolicy::Allow
    }

    /// Default configuration constructor (also reached through `Default`).
    pub fn p1_default() -> (r: Self)
        ensures
            r.is_default(),
            r.is_valid(),
    {
        let native_clipboard_limit = NativeByteLimit::new(8 * 1024 * 1024).unwrap();
        let total_payload_limit = SemanticElementLimit::new(65_536).unwrap();
        let dispatch_batch_limit = DispatchBatchLimit::new(8).unwrap();
        let attempts = RetryAttemptLimit::new(8).unwrap();
        let clipboard_retry = RetryBudget::new(attempts, duration_from_nanos(80_000_000)).unwrap();
        P1Config {
            native_clipboard_limit,
            total_payload_limit,
            dispatch_batch_limit,
            keyboard_interval: duration_from_nanos(1_000_000),
            modifier_settle_timeout: duration_from_nanos(750_000_000),
            modifier_poll_interval: duration_from_nanos(5_000_000),
            clipboard_retry,
            worker_shutdown_grace: duration_from_nanos(2_000_000_000),
            focus_policy: FocusPolicy::StrictAvailableEvidence,
            newline_policy: NewlinePolicy::NormalizeToLineBreak,
            tab_policy: TabPolicy::Allow,
        }
    }
}

impl Default for P1Config {
    fn default() -> (r: Self)
        ensures
            r.is_default(),
            r.is_valid(),
    {
        P1Config::p1_default()
    }
}

} // verus!
