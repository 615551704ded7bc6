use vstd::prelude::*;

use crate::error::AppError;

verus! {

/// Exponential-backoff policy for transient network failures.
#[derive(Debug, Clone, Copy, PartialEq, Eq, Structural)]
pub struct RetryPolicy {
    /// Total number of attempts allowed, the first one included.
    pub max_attempts: u32,
    /// Delay before the second attempt; it doubles after every failure.
    pub initial_delay_ms: u64,
}

/// What the caller must do after a failed attempt.
#[derive(Debug, Clone, Copy, PartialEq, Eq, Structural)]
pub enum RetryDecision {
    /// Sleep this long, then attempt again.
    RetryAfter { delay_ms: u64 },
    /// Surface the last error unchanged.
    GiveUp,
}

/// Doubling with saturation at the largest representable delay.
pub open spec fn sat_double(d: u64) -> u64 {
    if d > u64::MAX / 2 {
        u64::MAX
    } else {
        (2 * d) as u64
    }
}

/// The delay issued after a given number of failures: the initial delay,
/// doubled once per failure.
pub open spec fn backoff_delay(initial: u64, failures: nat) -> u64
    decreases failures,
{
    if failures == 0 {
        initial
    } else {
        sat_double(backoff_delay(initial, (failures - 1) as nat))
    }
}

/// Progress of one retried operation under a `RetryPolicy`.
///
/// The caller performs the attempts and the sleeps; this machine decides,
/// after each failure, whether another attempt is allowed and how long to
/// back off. Semantic rejections are never retried: the caller passes
/// `retryable` from `AppError::is_retryable`.
#[derive(Debug, Clone, Copy, PartialEq, Eq, Structural)]
pub struct RetrySchedule {
    pub max_attempts: u32,
    pub initial_delay_ms: u64,
    pub attempts_failed: u32,
    pub next_delay_ms: u64,
}

/// The schedule as it stands before the first attempt.
pub open spec fn fresh_schedule(p: RetryPolicy) -> RetrySchedule {
    RetrySchedule {
        max_attempts: p.max_attempts,
        initial_delay_ms: p.initial_delay_ms,
        attempts_failed: 0,
        next_delay_ms: p.initial_delay_ms,
    }
}

/// How one failed attempt transforms the schedule: a transient failure with
/// attempts to spare issues the current delay and doubles it; anything else
/// gives up, surfacing the error unchanged.
pub open spec fn failure_step(s: RetrySchedule, retryable: bool) -> (RetrySchedule, RetryDecision) {
    if retryable && s.attempts_failed + 1 < s.max_attempts {
        (
            RetrySchedule {
                attempts_failed: (s.attempts_failed + 1) as u32,
                next_delay_ms: sat_double(s.next_delay_ms),
                ..s
            },
            RetryDecision::RetryAfter { delay_ms: s.next_delay_ms },
        )
    } else {
        (s, RetryDecision::GiveUp)
    }
}

impl RetrySchedule {
    /// Each issued delay is the initial delay doubled once per past failure.
    pub open spec fn wf(self) -> bool {
        self.next_delay_ms == backoff_delay(self.initial_delay_ms, self.attempts_failed as nat)
    }

    pub fn new(policy: RetryPolicy) -> (s: Self)
        ensures
            s == fresh_schedule(policy),
            s.wf(),
    {
        RetrySchedule {
            max_attempts: policy.max_attempts,
            initial_delay_ms: policy.initial_delay_ms,
            attempts_failed: 0,
            next_delay_ms: policy.initial_delay_ms,
        }
    }

    /// Decides what follows one failed attempt.
    pub fn on_failure(&mut self, retryable: bool) -> (d: RetryDecision)
        requires
            old(self).wf(),
        ensures
            final(self).wf(),
            (*final(self), d) == failure_step(*old(self), retryable),
    {
        if retryable && (self.attempts_failed as u64) + 1 < (self.max_attempts as u64) {
            let delay = self.next_delay_ms;
            self.attempts_failed = self.attempts_failed + 1;
            self.next_delay_ms = if self.next_delay_ms > u64::MAX / 2 {
                u64::MAX
            } else {
                2 * self.next_delay_ms
            };
            RetryDecision::RetryAfter { delay_ms: delay }
        } else {
            RetryDecision::GiveUp
        }
    }
}

/// Whether retrying the failed operation could change the outcome.
pub fn is_retryable_error(error: &AppError) -> (r: bool)
    ensures
        r == error.spec_is_retryable(),
{
    error.is_retryable()
}

/// With three attempts allowed and an operation that fails twice with
/// transient errors, the schedule issues exactly two delays — the first the
/// initial delay and the second exactly double it — and still allows the
/// third attempt, whose success the caller returns unchanged; a third
/// failure would give up.
pub proof fn lemma_two_failures_then_success(p: RetryPolicy, s0: RetrySchedule)
    requires
        p.max_attempts == 3,
        p.initial_delay_ms <= u64::MAX / 2,
        s0 == fresh_schedule(p),
    ensures
        ({
            let (s1, d1) = failure_step(s0, true);
            let (s2, d2) = failure_step(s1, true);
            &&& d1 == RetryDecision::RetryAfter { delay_ms: p.initial_delay_ms }
            &&& d2 == RetryDecision::RetryAfter { delay_ms: (2 * p.initial_delay_ms) as u64 }
            &&& failure_step(s2, true).1 == RetryDecision::GiveUp
        }),
{
}

} // verus!
