use vstd::prelude::*;

verus! {

/// Per-attempt deadline used by the standard policy: three seconds.
pub const STANDARD_ATTEMPT_DEADLINE_MS: u64 = 3000;

/// Overall retry budget used by the standard policy: two minutes.
pub const STANDARD_BUDGET_MS: u64 = 120000;

/// Bounds on the dial phase of session establishment.
///
/// Each individual dial attempt is given `attempt_deadline_ms` to complete;
/// a failed attempt is retried as long as the total time elapsed since the
/// first attempt is still within `budget_ms`.
#[derive(Clone, Copy, Debug, PartialEq, Eq, Structural)]
pub struct RetryPolicy {
    pub attempt_deadline_ms: u64,
    pub budget_ms: u64,
}

impl RetryPolicy {
    pub fn new(attempt_deadline_ms: u64, budget_ms: u64) -> (p: RetryPolicy)
        ensures
            p.attempt_deadline_ms == attempt_deadline_ms,
            p.budget_ms == budget_ms,
    {
        RetryPolicy { attempt_deadline_ms, budget_ms }
    }

    /// The bounds used when no policy is configured: three seconds per dial
    /// attempt, two minutes overall.
    pub fn standard() -> (p: RetryPolicy)
        ensures
            p.attempt_deadline_ms == STANDARD_ATTEMPT_DEADLINE_MS,
            p.budget_ms == STANDARD_BUDGET_MS,
    {
        RetryPolicy {
            attempt_deadline_ms: STANDARD_ATTEMPT_DEADLINE_MS,
            budget_ms: STANDARD_BUDGET_MS,
        }
    }
}

/// Transient time accounting for one run of session establishment: the
/// instant, on the driver's monotone millisecond clock, at which the first
/// dial attempt started, and the policy bounding the run. It exists only
/// for the duration of one connect operation.
#[derive(Clone, Copy, Debug, PartialEq, Eq, Structural)]
pub struct ConnectAttempt {
    pub start_ms: u64,
    pub policy: RetryPolicy,
}

impl ConnectAttempt {
    /// Start the clock on a connect operation.
    pub fn begin(start_ms: u64, policy: RetryPolicy) -> (a: ConnectAttempt)
        ensures
            a.start_ms == start_ms,
            a.policy == policy,
    {
        ConnectAttempt { start_ms, policy }
    }

    /// Total time spent since the first dial attempt started.
    pub fn elapsed_ms(&self, now_ms: u64) -> (e: u64)
        requires
            self.start_ms <= now_ms,
        ensures
            e == now_ms - self.start_ms,
    {
        now_ms - self.start_ms
    }

    /// The instant by which the dial attempt issued at `now_ms` must have
    /// completed.
    pub fn attempt_deadline(&self, now_ms: u64) -> (d: u64)
        requires
            now_ms + self.policy.attempt_deadline_ms <= u64::MAX,
        ensures
            d == now_ms + self.policy.attempt_deadline_ms,
    {
        now_ms + self.policy.attempt_deadline_ms
    }
}

} // verus!
