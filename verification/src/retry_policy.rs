//! Retry policy primitives: retry classes, class filters, backoff and jitter.
//!
//! Every delay is a whole number of nanoseconds (see [`crate::duration`]).

use vstd::prelude::*;
use vstd::string::StringExecFns;
use crate::duration::{duration_saturating_mul, duration_string, duration_text, saturating_mul};

verus! {

/// Default total attempt count (initial call + retries).
pub const DEFAULT_MAX_ATTEMPTS: u32 = 5;

/// Error returned for invalid backoff strategy configuration.
#[derive(Debug, Clone, PartialEq, Eq, Structural)]
pub enum BackoffStrategyError {
    /// Fixed delay must be positive.
    ZeroFixedDelay,
    /// Exponential initial delay must be positive.
    ZeroInitialDelay,
    /// Exponential multiplier must be positive.
    ZeroMultiplier,
    /// Exponential maximum delay cannot be lower than initial delay.
    MaxDelayLessThanInitial {
        /// Initial delay, in nanoseconds.
        initial_delay: u128,
        /// Maximum delay, in nanoseconds.
        max_delay: u128,
    },
}

/// Error returned for invalid jitter strategy configuration.
#[derive(Debug, Clone, PartialEq, Eq, Structural)]
pub enum JitterError {
    /// Full jitter requires a non-zero maximum.
    ZeroMaxJitter,
}

/// Errors returned by retry policy validation.
#[derive(Debug, Clone, PartialEq, Eq, Structural)]
pub enum RetryPolicyError {
    /// Maximum attempts must be positive.
    ZeroMaxAttempts,
    /// At least one retry class must be enabled.
    EmptyRetryClassFilter,
    /// Backoff strategy validation failed.
    InvalidBackoff(BackoffStrategyError),
    /// Jitter strategy validation failed.
    InvalidJitter(JitterError),
}

/// Human-readable text of a backoff strategy error.
pub open spec fn backoff_error_text(error: BackoffStrategyError) -> Seq<char> {
    match error {
        BackoffStrategyError::ZeroFixedDelay => "fixed delay must be greater than zero"@,
        BackoffStrategyError::ZeroInitialDelay => "exponential initial delay must be greater than zero"@,
        BackoffStrategyError::ZeroMultiplier => "exponential multiplier must be greater than zero"@,
        BackoffStrategyError::MaxDelayLessThanInitial { initial_delay, max_delay } =>
            "exponential max delay ("@ + duration_text(max_delay) + ") must be >= initial delay ("@
            + duration_text(initial_delay) + ")"@,
    }
}

impl BackoffStrategyError {
    /// Human-readable description of the failure.
    pub fn message(&self) -> (text: String)
        ensures
            text@ == backoff_error_text(*self),
    {
        match self {
            BackoffStrategyError::ZeroFixedDelay => String::from_str(
                "fixed delay must be greater than zero",
            ),
            BackoffStrategyError::ZeroInitialDelay => String::from_str(
                "exponential initial delay must be greater than zero",
            ),
            BackoffStrategyError::ZeroMultiplier => String::from_str(
                "exponential multiplier must be greater than zero",
            ),
            BackoffStrategyError::MaxDelayLessThanInitial { initial_delay, max_delay } => {
                let mut s = String::from_str("exponential max delay (");
                let max_text = duration_string(*max_delay);
                s.append(max_text.as_str());
                s.append(") must be >= initial delay (");
                let initial_text = duration_string(*initial_delay);
                s.append(initial_text.as_str());
                s.append(")");
                s
            },
        }
    }
}

/// Human-readable text of a jitter strategy error.
pub open spec fn jitter_error_text(error: JitterError) -> Seq<char> {
    match error {
        JitterError::ZeroMaxJitter => "full jitter max value must be greater than zero"@,
    }
}

impl JitterError {
    /// Human-readable description of the failure.
    pub fn message(&self) -> (text: String)
        ensures
            text@ == jitter_error_text(*self),
    {
        match self {
            JitterError::ZeroMaxJitter => String::from_str(
                "full jitter max value must be greater than zero",
            ),
        }
    }
}

/// Human-readable text of a retry policy error.
pub open spec fn retry_policy_error_text(error: RetryPolicyError) -> Seq<char> {
    match error {
        RetryPolicyError::ZeroMaxAttempts => "max attempts must be greater than zero"@,
        RetryPolicyError::EmptyRetryClassFilter => "retry class filter must include at least one class"@,
        RetryPolicyError::InvalidBackoff(inner) => "invalid backoff strategy: "@ + backoff_error_text(
            inner,
        ),
        RetryPolicyError::InvalidJitter(inner) => "invalid jitter strategy: "@ + jitter_error_text(
            inner,
        ),
    }
}

impl RetryPolicyError {
    /// Human-readable description of the failure.
    pub fn message(&self) -> (text: String)
        ensures
            text@ == retry_policy_error_text(*self),
    {
        match self {
            RetryPolicyError::ZeroMaxAttempts => String::from_str(
                "max attempts must be greater than zero",
            ),
            RetryPolicyError::EmptyRetryClassFilter => String::from_str(
                "retry class filter must include at least one class",
            ),
            RetryPolicyError::InvalidBackoff(inner) => {
                let mut s = String::from_str("invalid backoff strategy: ");
                let inner_text = inner.message();
                s.append(inner_text.as_str());
                s
            },
            RetryPolicyError::InvalidJitter(inner) => {
                let mut s = String::from_str("invalid jitter strategy: ");
                let inner_text = inner.message();
                s.append(inner_text.as_str());
                s
            },
        }
    }
}

/// Retry class categories used for filtering.
#[derive(Debug, Clone, Copy, PartialEq, Eq, Structural, PartialOrd, Ord)]
pub enum RetryClass {
    /// Non-retryable failures.
    NotRetryable,
    /// Retryable failures that can be repeated immediately.
    Immediate,
    /// Retryable failures that should use backoff.
    Backoff,
    /// Rate-limited failures (`429`) that should retry with delay.
    RateLimited,
    /// Transport-level transient failures (timeouts, resets).
    Transport,
    /// MAX delayed-media processing failure (`attachment.not.ready`).
    AttachmentNotReady,
}

/// Position of a class in the declaration order, which is also its `Ord` order.
pub open spec fn class_rank(class: RetryClass) -> int {
    match class {
        RetryClass::NotRetryable => 0,
        RetryClass::Immediate => 1,
        RetryClass::Backoff => 2,
        RetryClass::RateLimited => 3,
        RetryClass::Transport => 4,
        RetryClass::AttachmentNotReady => 5,
    }
}

proof fn lemma_rank_injective(a: RetryClass, b: RetryClass)
    requires
        class_rank(a) == class_rank(b),
    ensures
        a == b,
{
    match a {
        RetryClass::NotRetryable => {},
        RetryClass::Immediate => {},
        RetryClass::Backoff => {},
        RetryClass::RateLimited => {},
        RetryClass::Transport => {},
        RetryClass::AttachmentNotReady => {},
    }
    match b {
        RetryClass::NotRetryable => {},
        RetryClass::Immediate => {},
        RetryClass::Backoff => {},
        RetryClass::RateLimited => {},
        RetryClass::Transport => {},
        RetryClass::AttachmentNotReady => {},
    }
}

fn rank_of(class: RetryClass) -> (r: u8)
    ensures
        r == class_rank(class),
{
    match class {
        RetryClass::NotRetryable => 0,
        RetryClass::Immediate => 1,
        RetryClass::Backoff => 2,
        RetryClass::RateLimited => 3,
        RetryClass::Transport => 4,
        RetryClass::AttachmentNotReady => 5,
    }
}

/// Filter that controls which retry classes are retried.
///
/// The classes are kept in a vector sorted by declaration order without
/// repetition, so two filters are equal exactly when they allow the same classes.
#[derive(Debug, PartialEq, Eq)]
pub struct RetryClassFilter {
    allowed_classes: Vec<RetryClass>,
}

/// A sequence of classes is strictly increasing in declaration order.
pub open spec fn strictly_sorted(s: Seq<RetryClass>) -> bool {
    forall|i: int, j: int| 0 <= i < j < s.len() ==> class_rank(s[i]) < class_rank(s[j])
}

impl View for RetryClassFilter {
    type V = Set<RetryClass>;

    closed spec fn view(&self) -> Set<RetryClass> {
        self.allowed_classes@.to_set()
    }
}

impl RetryClassFilter {
    #[verifier::type_invariant]
    closed spec fn sorted_without_repeats(&self) -> bool {
        strictly_sorted(self.allowed_classes@)
    }

    /// Creates a class filter that allows exactly the given classes.
    pub fn new(classes: Vec<RetryClass>) -> (filter: Self)
        ensures
            filter@ == classes@.to_set(),
    {
        let mut sorted: Vec<RetryClass> = Vec::new();
        let mut i: usize = 0;
        while i < classes.len()
            invariant
                i <= classes.len(),
                strictly_sorted(sorted@),
                sorted@.to_set() == classes@.subrange(0, i as int).to_set(),
            decreases classes.len() - i,
        {
            let class = classes[i];
            insert_sorted(&mut sorted, class);
            assert(classes@.subrange(0, i + 1) == classes@.subrange(0, i as int).push(class));
            proof {
                classes@.subrange(0, i as int).lemma_push_to_set_commute(class);
            }
            i = i + 1;
        }
        assert(classes@.subrange(0, classes.len() as int) == classes@);
        RetryClassFilter { allowed_classes: sorted }
    }

    /// Returns the default class filter for transient failures.
    pub fn transient_defaults() -> (filter: Self)
        ensures
            filter@ == set![
                RetryClass::Immediate,
                RetryClass::Backoff,
                RetryClass::RateLimited,
                RetryClass::Transport,
                RetryClass::AttachmentNotReady,
            ],
    {
        let classes = vec![
            RetryClass::Immediate,
            RetryClass::Backoff,
            RetryClass::RateLimited,
            RetryClass::Transport,
            RetryClass::AttachmentNotReady,
        ];
        let filter = RetryClassFilter::new(classes);
        proof {
            let s = seq![
                RetryClass::Immediate,
                RetryClass::Backoff,
                RetryClass::RateLimited,
                RetryClass::Transport,
                RetryClass::AttachmentNotReady,
            ];
            assert(classes@ == s);
            assert(s.to_set() =~= set![
                RetryClass::Immediate,
                RetryClass::Backoff,
                RetryClass::RateLimited,
                RetryClass::Transport,
                RetryClass::AttachmentNotReady,
            ]) by {
                assert(s[0] == RetryClass::Immediate);
                assert(s[1] == RetryClass::Backoff);
                assert(s[2] == RetryClass::RateLimited);
                assert(s[3] == RetryClass::Transport);
                assert(s[4] == RetryClass::AttachmentNotReady);
            }
        }
        filter
    }

    /// Checks whether a retry class is enabled.
    pub fn allows(&self, class: RetryClass) -> (allowed: bool)
        ensures
            allowed == self@.contains(class),
    {
        let mut i: usize = 0;
        while i < self.allowed_classes.len()
            invariant
                i <= self.allowed_classes.len(),
                forall|j: int| 0 <= j < i ==> self.allowed_classes@[j] != class,
            decreases self.allowed_classes.len() - i,
        {
            if self.allowed_classes[i] == class {
                return true;
            }
            i = i + 1;
        }
        false
    }

    /// Returns `true` when no classes are enabled.
    pub fn is_empty(&self) -> (empty: bool)
        ensures
            empty == (self@ == Set::<RetryClass>::empty()),
    {
        let empty = self.allowed_classes.len() == 0;
        proof {
            if !empty {
                assert(self@.contains(self.allowed_classes@[0]));
            } else {
                assert(self@ =~= Set::<RetryClass>::empty());
            }
        }
        empty
    }
}

impl Clone for RetryClassFilter {
    fn clone(&self) -> (copy: Self)
        ensures
            copy@ == self@,
    {
        proof {
            use_type_invariant(self);
        }
        let mut classes: Vec<RetryClass> = Vec::new();
        let mut i: usize = 0;
        while i < self.allowed_classes.len()
            invariant
                i <= self.allowed_classes.len(),
                classes@ == self.allowed_classes@.subrange(0, i as int),
            decreases self.allowed_classes.len() - i,
        {
            classes.push(self.allowed_classes[i]);
            i = i + 1;
        }
        assert(classes@ == self.allowed_classes@);
        RetryClassFilter { allowed_classes: classes }
    }
}

impl Default for RetryClassFilter {
    fn default() -> (filter: Self)
        ensures
            filter@ == set![
                RetryClass::Immediate,
                RetryClass::Backoff,
                RetryClass::RateLimited,
                RetryClass::Transport,
                RetryClass::AttachmentNotReady,
            ],
    {
        Self::transient_defaults()
    }
}

/// Inserts a class into a strictly sorted vector unless it is already there.
fn insert_sorted(v: &mut Vec<RetryClass>, class: RetryClass)
    requires
        strictly_sorted(old(v)@),
    ensures
        strictly_sorted(final(v)@),
        final(v)@.to_set() == old(v)@.to_set().insert(class),
{
    let rank = rank_of(class);
    let mut i: usize = 0;
    let mut found = false;
    let mut stop = false;
    while i < v.len() && !stop
        invariant
            i <= v.len(),
            rank == class_rank(class),
            v@ == old(v)@,
            strictly_sorted(v@),
            forall|j: int| 0 <= j < i ==> class_rank(v@[j]) < rank,
            stop ==> i < v.len() && class_rank(v@[i as int]) >= rank,
            found ==> stop && v@[i as int] == class,
            stop && !found ==> class_rank(v@[i as int]) > rank,
        decreases v.len() - i, if stop { 0int } else { 1int },
    {
        let c = v[i];
        let r = rank_of(c);
        if r == rank {
            proof {
                lemma_rank_injective(c, class);
            }
            found = true;
            stop = true;
        } else if r > rank {
            stop = true;
        } else {
            i = i + 1;
        }
    }
    if found {
        proof {
            assert(v@.to_set().insert(class) =~= v@.to_set());
        }
        return;
    }
    let ghost before = v@;
    v.insert(i, class);
    proof {
        assert forall|a: int, b: int| 0 <= a < b < v@.len() implies class_rank(v@[a]) < class_rank(v@[b]) by {
            if b > i {
                assert(v@[b] == before[b - 1]);
                assert(class_rank(before[i as int]) > rank);
                if b - 1 > i {
                    assert(class_rank(before[i as int]) < class_rank(before[b - 1]));
                }
            }
            if a > i {
                assert(v@[a] == before[a - 1]);
            }
        }
        assert(v@.to_set() =~= before.to_set().insert(class)) by {
            assert forall|x: RetryClass| v@.to_set().contains(x) implies before.to_set().insert(class).contains(x) by {
                let k = choose|k: int| 0 <= k < v@.len() && v@[k] == x;
                if k < i {
                    assert(before[k] == x);
                } else if k > i {
                    assert(before[k - 1] == x);
                }
            }
            assert forall|x: RetryClass| before.to_set().insert(class).contains(x) implies v@.to_set().contains(x) by {
                if x == class {
                    assert(v@[i as int] == x);
                } else {
                    let k = choose|k: int| 0 <= k < before.len() && before[k] == x;
                    if k < i {
                        assert(v@[k] == x);
                    } else {
                        assert(v@[k + 1] == x);
                    }
                }
            }
        }
    }
}

/// `b` raised to the power `e`.
pub open spec fn power(b: nat, e: nat) -> nat
    decreases e,
{
    if e == 0 {
        1
    } else {
        power(b, (e - 1) as nat) * b
    }
}

/// `u32::saturating_pow`: the power, or `u32::MAX` when it does not fit.
pub open spec fn saturating_pow_u32(b: u32, e: u32) -> u32 {
    if power(b as nat, e as nat) > u32::MAX {
        u32::MAX
    } else {
        power(b as nat, e as nat) as u32
    }
}

/// Smaller of two delays.
pub open spec fn min_delay(a: u128, b: u128) -> u128 {
    if a <= b {
        a
    } else {
        b
    }
}

/// Delay of the exponential strategy for a retry number (counted from 1,
/// where 0 counts as 1): the initial delay times the saturated power of the
/// multiplier (`Duration::saturating_mul`), capped at the maximum.
pub open spec fn exponential_delay(initial: u128, multiplier: u32, max: u128, retry_number: u32) -> u128 {
    let r: u32 = if retry_number < 1 {
        1
    } else {
        retry_number
    };
    let growth = saturating_pow_u32(multiplier, (r - 1) as u32);
    min_delay(saturating_mul(initial, growth), max)
}

/// Powers grow with the exponent for bases of at least one.
pub proof fn lemma_power_monotone(b: nat, e1: nat, e2: nat)
    requires
        b >= 1,
        e1 <= e2,
    ensures
        power(b, e1) <= power(b, e2),
    decreases e2 - e1,
{
    if e1 < e2 {
        lemma_power_monotone(b, e1, (e2 - 1) as nat);
        let p = power(b, (e2 - 1) as nat);
        assert(power(b, e2) == p * b);
        assert(p * b >= p) by (nonlinear_arith)
            requires
                b >= 1,
        ;
    }
}

fn saturating_pow(base: u32, exponent: u32) -> (r: u32)
    ensures
        r == saturating_pow_u32(base, exponent),
{
    let mut acc: u32 = 1;
    let mut i: u32 = 0;
    while i < exponent
        invariant
            i <= exponent,
            acc == power(base as nat, i as nat),
        decreases exponent - i,
    {
        assert(power(base as nat, (i + 1) as nat) == power(base as nat, i as nat) * base);
        match acc.checked_mul(base) {
            Some(next) => {
                acc = next;
                i = i + 1;
            },
            None => {
                proof {
                    if base == 0 {
                        assert(acc * base == 0);
                    }
                    lemma_power_monotone(base as nat, (i + 1) as nat, exponent as nat);
                }
                return u32::MAX;
            },
        }
    }
    acc
}

/// Strategy for computing delay between retries.
#[derive(Debug, Clone, PartialEq, Eq, Structural)]
pub enum BackoffStrategy {
    /// Fixed delay for every retry attempt.
    Fixed {
        /// Delay applied on each retry, in nanoseconds.
        delay: u128,
    },
    /// Exponential delay that grows by multiplier and is capped.
    Exponential {
        /// Delay for the first retry, in nanoseconds.
        initial_delay: u128,
        /// Growth factor for every subsequent retry.
        multiplier: u32,
        /// Maximum delay cap, in nanoseconds.
        max_delay: u128,
    },
}

impl BackoffStrategy {
    /// The outcome of validating this strategy.
    pub open spec fn validation(&self) -> Result<(), BackoffStrategyError> {
        match *self {
            BackoffStrategy::Fixed { delay } => if delay == 0 {
                Err(BackoffStrategyError::ZeroFixedDelay)
            } else {
                Ok(())
            },
            BackoffStrategy::Exponential { initial_delay, multiplier, max_delay } => {
                if initial_delay == 0 {
                    Err(BackoffStrategyError::ZeroInitialDelay)
                } else if multiplier == 0 {
                    Err(BackoffStrategyError::ZeroMultiplier)
                } else if max_delay < initial_delay {
                    Err(BackoffStrategyError::MaxDelayLessThanInitial { initial_delay, max_delay })
                } else {
                    Ok(())
                }
            },
        }
    }

    /// The delay before the given retry (counted from 1).
    pub open spec fn delay_spec(&self, retry_number: u32) -> u128 {
        match *self {
            BackoffStrategy::Fixed { delay } => delay,
            BackoffStrategy::Exponential { initial_delay, multiplier, max_delay } => {
                exponential_delay(initial_delay, multiplier, max_delay, retry_number)
            },
        }
    }

    /// Validates strategy parameters.
    pub fn validate(&self) -> (r: Result<(), BackoffStrategyError>)
        ensures
            r == self.validation(),
    {
        match self {
            BackoffStrategy::Fixed { delay } => {
                if *delay == 0 {
                    return Err(BackoffStrategyError::ZeroFixedDelay);
                }
            },
            BackoffStrategy::Exponential { initial_delay, multiplier, max_delay } => {
                if *initial_delay == 0 {
                    return Err(BackoffStrategyError::ZeroInitialDelay);
                }
                if *multiplier == 0 {
                    return Err(BackoffStrategyError::ZeroMultiplier);
                }
                if *max_delay < *initial_delay {
                    return Err(
                        BackoffStrategyError::MaxDelayLessThanInitial {
                            initial_delay: *initial_delay,
                            max_delay: *max_delay,
                        },
                    );
                }
            },
        }
        Ok(())
    }

    /// Computes the delay, in nanoseconds, for the provided retry number (starting from 1).
    pub fn delay_for_retry(&self, retry_number: u32) -> (delay: u128)
        ensures
            delay == self.delay_spec(retry_number),
    {
        let retry_number = if retry_number < 1 {
            1
        } else {
            retry_number
        };
        match self {
            BackoffStrategy::Fixed { delay } => *delay,
            BackoffStrategy::Exponential { initial_delay, multiplier, max_delay } => {
                let exponent = retry_number - 1;
                let growth = saturating_pow(*multiplier, exponent);
                let product = duration_saturating_mul(*initial_delay, growth);
                if product <= *max_delay {
                    product
                } else {
                    *max_delay
                }
            },
        }
    }
}

/// Jitter configuration applied to computed backoff delay.
#[derive(Debug, Clone, PartialEq, Eq, Structural)]
pub enum Jitter {
    /// Disable jitter.
    Disabled,
    /// Full jitter of whole milliseconds in range `0..=max_jitter`.
    Full {
        /// Maximum jitter value, in nanoseconds.
        max_jitter: u128,
    },
}

impl Jitter {
    /// The outcome of validating this jitter setting.
    pub open spec fn validation(&self) -> Result<(), JitterError> {
        match *self {
            Jitter::Disabled => Ok(()),
            Jitter::Full { max_jitter } => if max_jitter == 0 {
                Err(JitterError::ZeroMaxJitter)
            } else {
                Ok(())
            },
        }
    }

    /// Validates jitter configuration.
    pub fn validate(&self) -> (r: Result<(), JitterError>)
        ensures
            r == self.validation(),
    {
        match self {
            Jitter::Disabled => Ok(()),
            Jitter::Full { max_jitter } => {
                if *max_jitter == 0 {
                    return Err(JitterError::ZeroMaxJitter);
                }
                Ok(())
            },
        }
    }
}

/// Retry policy controls attempts, class filters, backoff, and jitter.
#[derive(Debug, PartialEq, Eq)]
pub struct RetryPolicy {
    /// Maximum number of attempts including the first call.
    pub max_attempts: u32,
    /// Backoff strategy used between retries.
    pub backoff: BackoffStrategy,
    /// Jitter strategy used with backoff.
    pub jitter: Jitter,
    /// Class filter that gates which failures are retryable.
    pub retry_classes: RetryClassFilter,
}

impl RetryPolicy {
    /// The outcome of validating this policy: checks run in a fixed order and
    /// the first failing one is reported.
    pub open spec fn validation(&self) -> Result<(), RetryPolicyError> {
        if self.max_attempts == 0 {
            Err(RetryPolicyError::ZeroMaxAttempts)
        } else if self.retry_classes@ == Set::<RetryClass>::empty() {
            Err(RetryPolicyError::EmptyRetryClassFilter)
        } else if self.backoff.validation() is Err {
            Err(RetryPolicyError::InvalidBackoff(self.backoff.validation()->Err_0))
        } else if self.jitter.validation() is Err {
            Err(RetryPolicyError::InvalidJitter(self.jitter.validation()->Err_0))
        } else {
            Ok(())
        }
    }

    /// Whether another retry is allowed after `attempts_made` attempts.
    pub open spec fn retry_allowed(&self, class: RetryClass, attempts_made: u32) -> bool {
        attempts_made < self.max_attempts && self.retry_classes@.contains(class)
    }

    /// Validates policy settings.
    pub fn validate(&self) -> (r: Result<(), RetryPolicyError>)
        ensures
            r == self.validation(),
    {
        if self.max_attempts == 0 {
            return Err(RetryPolicyError::ZeroMaxAttempts);
        }
        if self.retry_classes.is_empty() {
            return Err(RetryPolicyError::EmptyRetryClassFilter);
        }
        if let Err(e) = self.backoff.validate() {
            return Err(RetryPolicyError::InvalidBackoff(e));
        }
        if let Err(e) = self.jitter.validate() {
            return Err(RetryPolicyError::InvalidJitter(e));
        }
        Ok(())
    }

    /// Returns whether another retry is allowed.
    ///
    /// `attempts_made` is the number of attempts already performed.
    pub fn should_retry(&self, class: RetryClass, attempts_made: u32) -> (r: bool)
        ensures
            r == self.retry_allowed(class, attempts_made),
    {
        attempts_made < self.max_attempts && self.retry_classes.allows(class)
    }
}

impl Clone for RetryPolicy {
    fn clone(&self) -> (copy: Self)
        ensures
            copy.max_attempts == self.max_attempts,
            copy.backoff == self.backoff,
            copy.jitter == self.jitter,
            copy.retry_classes@ == self.retry_classes@,
    {
        RetryPolicy {
            max_attempts: self.max_attempts,
            backoff: match &self.backoff {
                BackoffStrategy::Fixed { delay } => BackoffStrategy::Fixed { delay: *delay },
                BackoffStrategy::Exponential { initial_delay, multiplier, max_delay } => {
                    BackoffStrategy::Exponential {
                        initial_delay: *initial_delay,
                        multiplier: *multiplier,
                        max_delay: *max_delay,
                    }
                },
            },
            jitter: match &self.jitter {
                Jitter::Disabled => Jitter::Disabled,
                Jitter::Full { max_jitter } => Jitter::Full { max_jitter: *max_jitter },
            },
            retry_classes: self.retry_classes.clone(),
        }
    }
}

impl Default for RetryPolicy {
    fn default() -> (policy: Self)
        ensures
            policy.max_attempts == DEFAULT_MAX_ATTEMPTS,
            policy.backoff == (BackoffStrategy::Exponential {
                initial_delay: 250_000_000,
                multiplier: 2,
                max_delay: 8_000_000_000,
            }),
            policy.jitter == (Jitter::Full { max_jitter: 250_000_000 }),
            policy.retry_classes@ == set![
                RetryClass::Immediate,
                RetryClass::Backoff,
                RetryClass::RateLimited,
                RetryClass::Transport,
                RetryClass::AttachmentNotReady,
            ],
            policy.validation() is Ok,
    {
        let policy = RetryPolicy {
            max_attempts: DEFAULT_MAX_ATTEMPTS,
            backoff: BackoffStrategy::Exponential {
                initial_delay: 250_000_000,
                multiplier: 2,
                max_delay: 8_000_000_000,
            },
            jitter: Jitter::Full { max_jitter: 250_000_000 },
            retry_classes: RetryClassFilter::default(),
        };
        assert(policy.retry_classes@.contains(RetryClass::Backoff));
        policy
    }
}

} // verus!
