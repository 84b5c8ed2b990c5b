//! The explicit retry policy of the reservation step.
//!
//! The ledger reservation is the only step the pipeline retries on its own:
//! a bounded number of attempts with a fixed inter-attempt delay. A
//! non-transient error aborts at once, and exhaustion of the attempts is a
//! fatal failure, not a soft one.

use vstd::prelude::*;

verus! {

/// Default number of reservation attempts before giving up.
pub const DEFAULT_MAX_ATTEMPTS: u32 = 3;

/// Default fixed delay between reservation attempts, in milliseconds.
pub const DEFAULT_RETRY_DELAY_MS: u64 = 500;

/// A bounded, fixed-delay retry policy.
#[derive(Clone, Copy, PartialEq, Eq, Structural, Debug)]
pub struct RetryPolicy {
    pub max_attempts: u32,
    pub delay_ms: u64,
}

impl RetryPolicy {
    /// A policy allows at least one attempt and leaves room to count them.
    pub open spec fn wf(self) -> bool {
        1 <= self.max_attempts < u32::MAX
    }

    /// The library's default policy.
    pub fn default_policy() -> (p: RetryPolicy)
        ensures
            p.wf(),
            p.max_attempts == DEFAULT_MAX_ATTEMPTS,
            p.delay_ms == DEFAULT_RETRY_DELAY_MS,
    {
        RetryPolicy { max_attempts: DEFAULT_MAX_ATTEMPTS, delay_ms: DEFAULT_RETRY_DELAY_MS }
    }
}

/// Whether a further attempt is allowed after `attempts_made` attempts ended
/// in an error of the given transience.
pub open spec fn spec_retry_allowed(policy: RetryPolicy, attempts_made: u32, transient: bool) -> bool {
    transient && attempts_made < policy.max_attempts
}

/// A step is retried exactly when its error was transient and the bounded
/// attempt budget is not exhausted.
pub fn should_retry(policy: &RetryPolicy, attempts_made: u32, transient: bool) -> (r: bool)
    ensures
        r == spec_retry_allowed(*policy, attempts_made, transient),
{
    transient && attempts_made < policy.max_attempts
}

} // verus!
