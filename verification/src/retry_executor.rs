//! Retry orchestration for class-aware transient error handling.
//!
//! The waiting and the calls themselves belong to the caller: this module
//! decides, after each failure, whether to give up or how long to wait.

use vstd::prelude::*;
use crate::api_error::{self, ApiError, retry_class_of};
use crate::request_context::RequestContext;
use crate::duration::{NANOS_PER_MILLI, as_millis, duration_saturating_add, saturating_add};
use crate::retry_policy::{Jitter, RetryClass, RetryPolicy, RetryPolicyError};

verus! {

/// Telemetry event emitted on retry or terminal give-up.
#[derive(Debug, Clone)]
pub struct RetryEvent {
    /// Request context snapshot for the failed attempt.
    pub context: RequestContext,
    /// Classified retry class for the failure.
    pub retry_class: RetryClass,
    /// Delay scheduled before the next attempt, in nanoseconds.
    pub next_delay: u128,
    /// Redacted error string for diagnostics.
    pub error: String,
}

impl RetryEvent {
    /// Creates a new retry telemetry event.
    pub fn new(context: RequestContext, retry_class: RetryClass, next_delay: u128, error: String) -> (event: Self)
        ensures
            event == (RetryEvent { context, retry_class, next_delay, error }),
    {
        RetryEvent { context, retry_class, next_delay, error }
    }
}

/// Callback hooks for observing retry lifecycle events.
pub trait RetryTelemetry {
    /// Called before sleeping and issuing a retry.
    fn on_retry(&self, event: &RetryEvent) {
    }

    /// Called when retry policy decides to stop retrying.
    fn on_give_up(&self, event: &RetryEvent) {
    }

    /// Called after operation succeeds.
    fn on_success(&self, context: &RequestContext) {
    }
}

/// No-op telemetry implementation.
#[derive(Debug, Default, Clone, Copy)]
pub struct NoopRetryTelemetry;

impl RetryTelemetry for NoopRetryTelemetry {
}

/// Retry class of a failure: the API code `attachment.not.ready` first, then
/// transport failures, then the error's own retry class.
pub open spec fn classify(error: ApiError) -> RetryClass {
    match error {
        ApiError::HttpStatus { code: Some(code), .. } if code@ == "attachment.not.ready"@ => {
            RetryClass::AttachmentNotReady
        },
        ApiError::Transport(_) => RetryClass::Transport,
        _ => match retry_class_of(error) {
            api_error::RetryClass::NotRetryable => RetryClass::NotRetryable,
            api_error::RetryClass::Backoff => RetryClass::Backoff,
            api_error::RetryClass::RateLimited => RetryClass::RateLimited,
        },
    }
}

/// Classifies an error for the retry policy.
pub fn classify_error(error: &ApiError) -> (class: RetryClass)
    ensures
        class == classify(*error),
{
    if let ApiError::HttpStatus { code: Some(code), .. } = error {
        if crate::text::str_eq(code.as_str(), "attachment.not.ready") {
            return RetryClass::AttachmentNotReady;
        }
    }
    if let ApiError::Transport(_) = error {
        return RetryClass::Transport;
    }
    match error.retry_class() {
        api_error::RetryClass::NotRetryable => RetryClass::NotRetryable,
        api_error::RetryClass::Backoff => RetryClass::Backoff,
        api_error::RetryClass::RateLimited => RetryClass::RateLimited,
    }
}

/// Deterministic jitter for an attempt: with `m` the whole milliseconds of
/// the maximum, `(31 * attempt + 17) mod (m + 1)` milliseconds added to the
/// base delay (`Duration::saturating_add`); none when disabled or when the
/// maximum is under a millisecond.
pub open spec fn jittered(base_delay: u128, jitter: Jitter, attempt: u32) -> u128 {
    match jitter {
        Jitter::Disabled => base_delay,
        Jitter::Full { max_jitter } => if as_millis(max_jitter) == 0 {
            base_delay
        } else {
            let j = (attempt * 31 + 17) % (as_millis(max_jitter) + 1);
            saturating_add(base_delay, (j * NANOS_PER_MILLI) as u128)
        },
    }
}

/// Applies deterministic jitter to a base delay.
pub fn apply_jitter(base_delay: u128, jitter: &Jitter, attempt: u32) -> (delay: u128)
    ensures
        delay == jittered(base_delay, *jitter, attempt),
{
    match jitter {
        Jitter::Disabled => base_delay,
        Jitter::Full { max_jitter } => {
            let max_ms: u128 = *max_jitter / NANOS_PER_MILLI;
            if max_ms == 0 {
                return base_delay;
            }
            let j: u128 = ((attempt as u128) * 31 + 17) % (max_ms + 1);
            assert(j <= max_ms);
            assert(j * NANOS_PER_MILLI <= *max_jitter) by (nonlinear_arith)
                requires
                    j <= max_ms,
                    max_ms == *max_jitter / NANOS_PER_MILLI,
                    NANOS_PER_MILLI == 1_000_000,
            ;
            duration_saturating_add(base_delay, j * NANOS_PER_MILLI)
        },
    }
}

/// Executes operations under retry policy control.
#[derive(Debug)]
pub struct RetryExecutor {
    policy: RetryPolicy,
}

impl Clone for RetryExecutor {
    fn clone(&self) -> (copy: Self)
        ensures
            copy.configured_policy().max_attempts == self.configured_policy().max_attempts,
            copy.configured_policy().backoff == self.configured_policy().backoff,
            copy.configured_policy().jitter == self.configured_policy().jitter,
            copy.configured_policy().retry_classes@ == self.configured_policy().retry_classes@,
    {
        proof {
            use_type_invariant(self);
        }
        RetryExecutor { policy: self.policy.clone() }
    }
}

/// What to do after a failed attempt.
#[derive(Debug, Clone, Copy, PartialEq, Eq, Structural)]
pub enum RetryStep {
    /// Stop and report the failure.
    GiveUp {
        /// Class of the failure.
        retry_class: RetryClass,
    },
    /// Wait, then call again with the next attempt number.
    Retry {
        /// Class of the failure.
        retry_class: RetryClass,
        /// Delay before the next attempt, in nanoseconds.
        delay: u128,
    },
}

/// Calls that a retry run makes, from attempt number `attempt`, when the
/// operation fails with `failures` in order and then succeeds: after each
/// failure, the run calls again (with the next attempt number) when the
/// policy allows a retry of the failure's class, as
/// [`RetryExecutor::on_failure`] decides, and otherwise stops.
pub open spec fn run_calls(policy: RetryPolicy, attempt: u32, failures: Seq<ApiError>) -> nat
    decreases failures.len(),
{
    if failures.len() == 0 {
        1
    } else if policy.retry_allowed(classify(failures[0]), attempt) {
        1 + run_calls(policy, (attempt + 1) as u32, failures.drop_first())
    } else {
        1
    }
}

impl RetryExecutor {
    #[verifier::type_invariant]
    closed spec fn valid_policy(&self) -> bool {
        self.policy.validation() is Ok
    }

    /// The policy this executor applies.
    pub closed spec fn configured_policy(&self) -> RetryPolicy {
        self.policy
    }

    /// Delay before the retry that follows a failed attempt: none for the
    /// immediate class, otherwise the backoff delay with jitter.
    pub open spec fn retry_delay(&self, attempt: u32, class: RetryClass) -> u128 {
        if class == RetryClass::Immediate {
            0
        } else {
            jittered(
                self.configured_policy().backoff.delay_spec(attempt),
                self.configured_policy().jitter,
                attempt,
            )
        }
    }

    /// Creates a retry executor after validating retry policy.
    pub fn new(policy: RetryPolicy) -> (r: Result<Self, RetryPolicyError>)
        ensures
            policy.validation() is Ok ==> (r matches Ok(e) && e.configured_policy() == policy),
            policy.validation() is Err ==> r == Err::<Self, _>(policy.validation()->Err_0),
    {
        policy.validate()?;
        Ok(RetryExecutor { policy })
    }

    /// Returns configured retry policy.
    pub fn policy(&self) -> (p: &RetryPolicy)
        ensures
            *p == self.configured_policy(),
            p.validation() is Ok,
    {
        proof {
            use_type_invariant(self);
        }
        &self.policy
    }

    /// Computes the delay before the retry after attempt `attempt`.
    pub fn compute_retry_delay(&self, attempt: u32, retry_class: RetryClass) -> (delay: u128)
        ensures
            delay == self.retry_delay(attempt, retry_class),
    {
        if retry_class == RetryClass::Immediate {
            return 0;
        }
        let base_delay = self.policy.backoff.delay_for_retry(attempt);
        apply_jitter(base_delay, &self.policy.jitter, attempt)
    }

    /// Decides what follows a failure of attempt number `attempt`: give up
    /// when the policy does not allow another retry for the error's class,
    /// otherwise retry after [`RetryExecutor::retry_delay`].
    pub fn on_failure(&self, attempt: u32, error: &ApiError) -> (step: RetryStep)
        ensures
            ({
                let class = classify(*error);
                if self.configured_policy().retry_allowed(class, attempt) {
                    step == RetryStep::Retry {
                        retry_class: class,
                        delay: self.retry_delay(attempt, class),
                    }
                } else {
                    step == RetryStep::GiveUp { retry_class: class }
                }
            }),
    {
        let class = classify_error(error);
        if !self.policy.should_retry(class, attempt) {
            return RetryStep::GiveUp { retry_class: class };
        }
        let delay = self.compute_retry_delay(attempt, class);
        RetryStep::Retry { retry_class: class, delay }
    }
}

} // verus!
