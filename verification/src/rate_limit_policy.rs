//! Token-bucket rate-limit policy primitives.
//!
//! The acquire timeout is a whole number of nanoseconds.

use vstd::prelude::*;
use vstd::string::StringExecFns;
use crate::api_error::ApiError;
use crate::duration::{NANOS_PER_MILLI, as_millis};
use crate::text::{decimal, push_decimal, push_decimal_u128};

verus! {

/// MAX guidance default request rate limit in requests per second.
pub const DEFAULT_RATE_LIMIT_RPS: u32 = 30;

/// Default token-bucket capacity aligned with the MAX 30 rps guidance.
pub const DEFAULT_BUCKET_CAPACITY: u32 = 30;

/// Default wait time for acquiring a rate-limit token: 250 milliseconds, in
/// nanoseconds.
pub const DEFAULT_ACQUIRE_TIMEOUT: u128 = 250_000_000;

/// Errors returned by rate-limit policy validation.
#[derive(Debug, Clone, PartialEq, Eq, Structural)]
pub enum RateLimitPolicyError {
    /// Token-bucket capacity must be positive.
    ZeroCapacity,
    /// Token refill rate must be positive.
    ZeroRefillPerSecond,
    /// Initial tokens cannot exceed bucket capacity.
    InitialTokensExceedCapacity {
        /// Invalid initial token count.
        initial_tokens: u32,
        /// Configured capacity.
        capacity: u32,
    },
    /// Acquire timeout must be positive.
    ZeroAcquireTimeout,
}

/// Human-readable text of a rate-limit policy error.
pub open spec fn rate_limit_error_text(error: RateLimitPolicyError) -> Seq<char> {
    match error {
        RateLimitPolicyError::ZeroCapacity => "token bucket capacity must be greater than zero"@,
        RateLimitPolicyError::ZeroRefillPerSecond => "token refill rate must be greater than zero"@,
        RateLimitPolicyError::InitialTokensExceedCapacity { initial_tokens, capacity } =>
            "initial tokens ("@ + decimal(initial_tokens as nat) + ") cannot exceed capacity ("@
            + decimal(capacity as nat) + ")"@,
        RateLimitPolicyError::ZeroAcquireTimeout => "token acquire timeout must be greater than zero"@,
    }
}

impl RateLimitPolicyError {
    /// Human-readable description of the failure.
    pub fn message(&self) -> (text: String)
        ensures
            text@ == rate_limit_error_text(*self),
    {
        match self {
            RateLimitPolicyError::ZeroCapacity => String::from_str(
                "token bucket capacity must be greater than zero",
            ),
            RateLimitPolicyError::ZeroRefillPerSecond => String::from_str(
                "token refill rate must be greater than zero",
            ),
            RateLimitPolicyError::InitialTokensExceedCapacity { initial_tokens, capacity } => {
                let mut s = String::from_str("initial tokens (");
                push_decimal(&mut s, *initial_tokens as u64);
                s.append(") cannot exceed capacity (");
                push_decimal(&mut s, *capacity as u64);
                s.append(")");
                s
            },
            RateLimitPolicyError::ZeroAcquireTimeout => String::from_str(
                "token acquire timeout must be greater than zero",
            ),
        }
    }
}

/// Token-bucket settings used for outbound request throttling.
#[derive(Debug, Clone, PartialEq, Eq, Structural)]
pub struct TokenBucketPolicy {
    /// Maximum number of tokens that may be buffered.
    pub capacity: u32,
    /// Number of tokens added each second.
    pub refill_per_second: u32,
    /// Initial token count available at startup.
    pub initial_tokens: u32,
}

impl TokenBucketPolicy {
    /// Creates a token-bucket policy from raw values.
    pub fn new(capacity: u32, refill_per_second: u32, initial_tokens: u32) -> (policy: Self)
        ensures
            policy == (TokenBucketPolicy { capacity, refill_per_second, initial_tokens }),
    {
        TokenBucketPolicy { capacity, refill_per_second, initial_tokens }
    }

    /// The outcome of validating this bucket: the first failing check.
    pub open spec fn validation(&self) -> Result<(), RateLimitPolicyError> {
        if self.capacity == 0 {
            Err(RateLimitPolicyError::ZeroCapacity)
        } else if self.refill_per_second == 0 {
            Err(RateLimitPolicyError::ZeroRefillPerSecond)
        } else if self.initial_tokens > self.capacity {
            Err(
                RateLimitPolicyError::InitialTokensExceedCapacity {
                    initial_tokens: self.initial_tokens,
                    capacity: self.capacity,
                },
            )
        } else {
            Ok(())
        }
    }

    /// Validates that the token-bucket policy is internally consistent.
    pub fn validate(&self) -> (r: Result<(), RateLimitPolicyError>)
        ensures
            r == self.validation(),
    {
        if self.capacity == 0 {
            return Err(RateLimitPolicyError::ZeroCapacity);
        }
        if self.refill_per_second == 0 {
            return Err(RateLimitPolicyError::ZeroRefillPerSecond);
        }
        if self.initial_tokens > self.capacity {
            return Err(
                RateLimitPolicyError::InitialTokensExceedCapacity {
                    initial_tokens: self.initial_tokens,
                    capacity: self.capacity,
                },
            );
        }
        Ok(())
    }
}

impl Default for TokenBucketPolicy {
    fn default() -> (policy: Self)
        ensures
            policy == (TokenBucketPolicy {
                capacity: DEFAULT_BUCKET_CAPACITY,
                refill_per_second: DEFAULT_RATE_LIMIT_RPS,
                initial_tokens: DEFAULT_BUCKET_CAPACITY,
            }),
    {
        Self::new(DEFAULT_BUCKET_CAPACITY, DEFAULT_RATE_LIMIT_RPS, DEFAULT_BUCKET_CAPACITY)
    }
}

/// Request-throttling policy for outbound SDK calls.
#[derive(Debug, Clone, PartialEq, Eq, Structural)]
pub struct RateLimitPolicy {
    /// Enables or disables limiter enforcement.
    pub enabled: bool,
    /// Token-bucket settings.
    pub token_bucket: TokenBucketPolicy,
    /// Maximum wait for a token acquisition attempt, in nanoseconds.
    pub acquire_timeout: u128,
}

impl RateLimitPolicy {
    /// Creates an enabled rate-limit policy using the given token-bucket settings.
    pub fn new(token_bucket: TokenBucketPolicy) -> (policy: Self)
        ensures
            policy == (RateLimitPolicy {
                enabled: true,
                token_bucket,
                acquire_timeout: DEFAULT_ACQUIRE_TIMEOUT,
            }),
    {
        RateLimitPolicy { enabled: true, token_bucket, acquire_timeout: DEFAULT_ACQUIRE_TIMEOUT }
    }

    /// Returns configured sustained request rate in requests per second.
    pub fn requests_per_second(&self) -> (rps: u32)
        ensures
            rps == self.token_bucket.refill_per_second,
    {
        self.token_bucket.refill_per_second
    }

    /// The outcome of validating this policy: bucket checks first, then the timeout.
    pub open spec fn validation(&self) -> Result<(), RateLimitPolicyError> {
        if self.token_bucket.validation() is Err {
            self.token_bucket.validation()
        } else if self.acquire_timeout == 0 {
            Err(RateLimitPolicyError::ZeroAcquireTimeout)
        } else {
            Ok(())
        }
    }

    /// Validates policy consistency.
    pub fn validate(&self) -> (r: Result<(), RateLimitPolicyError>)
        ensures
            r == self.validation(),
    {
        self.token_bucket.validate()?;
        if self.acquire_timeout == 0 {
            return Err(RateLimitPolicyError::ZeroAcquireTimeout);
        }
        Ok(())
    }
}

impl Default for RateLimitPolicy {
    fn default() -> (policy: Self)
        ensures
            policy == (RateLimitPolicy {
                enabled: true,
                token_bucket: TokenBucketPolicy {
                    capacity: DEFAULT_BUCKET_CAPACITY,
                    refill_per_second: DEFAULT_RATE_LIMIT_RPS,
                    initial_tokens: DEFAULT_BUCKET_CAPACITY,
                },
                acquire_timeout: DEFAULT_ACQUIRE_TIMEOUT,
            }),
            policy.validation() is Ok,
    {
        Self::new(TokenBucketPolicy::default())
    }
}

/// Callback hooks for rate-limit waits; durations are in nanoseconds.
pub trait RateLimitTelemetry {
    /// Called before sleeping while waiting for token refill.
    fn on_wait(&self, wait: u128) {
    }

    /// Called when a token was acquired.
    fn on_acquired(&self, waited: u128) {
    }

    /// Called when acquisition timed out.
    fn on_timeout(&self, timeout: u128) {
    }
}

/// No-op telemetry implementation.
#[derive(Debug, Clone, Copy, Default)]
pub struct NoopRateLimitTelemetry;

impl RateLimitTelemetry for NoopRateLimitTelemetry {
}

/// What a waiting caller does next while acquiring a token.
#[derive(Debug, Clone, PartialEq, Eq)]
pub enum AcquireStep {
    /// A token was taken: go on.
    Acquired,
    /// The wait timed out: fail with this error.
    TimedOut(ApiError),
    /// Sleep this many nanoseconds, then try again.
    Wait(u128),
}

/// Message of the error for a token acquisition that timed out, with the
/// timeout in whole milliseconds.
pub open spec fn timeout_message(timeout: u128) -> Seq<char> {
    "local rate limiter failed to acquire token in "@ + decimal(as_millis(timeout) as nat) + " ms"@
}

/// The error for a token acquisition that timed out: status `429` with code
/// `local.rate_limit.timeout`.
pub fn rate_limit_timeout_error(timeout: u128) -> (e: ApiError)
    ensures
        e matches ApiError::HttpStatus { status, code: Some(c), message: Some(m) } && status == 429
            && c@ == "local.rate_limit.timeout"@ && m@ == timeout_message(timeout),
{
    let mut message = String::from_str("local rate limiter failed to acquire token in ");
    push_decimal_u128(&mut message, timeout / NANOS_PER_MILLI);
    message.append(" ms");
    ApiError::from_status(429, Some(String::from_str("local.rate_limit.timeout")), Some(message))
}

/// One round of token acquisition (all durations in nanoseconds): a taken
/// token ends the wait; otherwise the wait times out once `elapsed` reaches
/// `timeout`; otherwise the caller sleeps for the refill interval, at most
/// the time that remains and at least one millisecond.
pub fn acquire_step(token_taken: bool, elapsed: u128, timeout: u128, refill_interval: u128) -> (step:
    AcquireStep)
    ensures
        token_taken ==> step == AcquireStep::Acquired,
        !token_taken && elapsed >= timeout ==> (step matches AcquireStep::TimedOut(e) && e matches ApiError::HttpStatus {
            status,
            code: Some(c),
            message: Some(m),
        } && status == 429 && c@ == "local.rate_limit.timeout"@ && m@ == timeout_message(timeout)),
        !token_taken && elapsed < timeout ==> step == AcquireStep::Wait(
            if refill_interval < (timeout - elapsed) as u128 {
                if refill_interval < NANOS_PER_MILLI {
                    NANOS_PER_MILLI
                } else {
                    refill_interval
                }
            } else if ((timeout - elapsed) as u128) < NANOS_PER_MILLI {
                NANOS_PER_MILLI
            } else {
                (timeout - elapsed) as u128
            },
        ),
{
    if token_taken {
        return AcquireStep::Acquired;
    }
    if elapsed >= timeout {
        return AcquireStep::TimedOut(rate_limit_timeout_error(timeout));
    }
    let remaining = timeout - elapsed;
    let wait = if refill_interval < remaining {
        refill_interval
    } else {
        remaining
    };
    let wait = if wait < NANOS_PER_MILLI {
        NANOS_PER_MILLI
    } else {
        wait
    };
    AcquireStep::Wait(wait)
}

} // verus!
